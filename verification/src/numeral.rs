//! Decimal sub-page indices: what a numeric path segment means, how an index
//! is rendered into a segment, and the proof that the two agree.

use vstd::prelude::*;
use vstd::arithmetic::div_mod::lemma_fundamental_div_mod;
use vstd::string::StrSliceExecFns;
use vstd::string::StringExecFns;

verus! {

/// A decimal digit character.
pub open spec fn is_digit(c: char) -> bool {
    '0' as int <= c as int && c as int <= '9' as int
}

/// Numeric value of one digit character.
pub open spec fn digit_val(c: char) -> int {
    c as int - '0' as int
}

/// Every character of the string is a decimal digit.
pub open spec fn all_digits(s: Seq<char>) -> bool {
    forall|i: int| 0 <= i < s.len() ==> is_digit(s[i])
}

/// The accepted shape of a sub-page index segment: one or more decimal
/// digits and nothing else.
pub open spec fn is_index_seq(s: Seq<char>) -> bool {
    s.len() > 0 && all_digits(s)
}

/// Value of a digit string, most significant digit first. Leading zeros are
/// allowed and do not change the value.
pub open spec fn digits_val(s: Seq<char>) -> int
    decreases s.len(),
{
    if s.len() == 0 {
        0
    } else {
        digits_val(s.drop_last()) * 10 + digit_val(s.last())
    }
}

/// The digit character of `d`, for `0 <= d <= 9`.
pub open spec fn digit_char(d: int) -> char {
    if d == 0 {
        '0'
    } else if d == 1 {
        '1'
    } else if d == 2 {
        '2'
    } else if d == 3 {
        '3'
    } else if d == 4 {
        '4'
    } else if d == 5 {
        '5'
    } else if d == 6 {
        '6'
    } else if d == 7 {
        '7'
    } else if d == 8 {
        '8'
    } else {
        '9'
    }
}

/// Canonical decimal rendering of `n >= 0`: no sign, no leading zeros.
pub open spec fn index_str(n: int) -> Seq<char>
    decreases n,
{
    if n < 10 {
        seq![digit_char(n)]
    } else {
        index_str(n / 10).push(digit_char(n % 10))
    }
}

/// A digit string never has a negative value.
pub proof fn lemma_digits_val_nonneg(s: Seq<char>)
    requires
        all_digits(s),
    ensures
        digits_val(s) >= 0,
    decreases s.len(),
{
    if s.len() > 0 {
        assert(all_digits(s.drop_last()));
        lemma_digits_val_nonneg(s.drop_last());
    }
}

/// Reading more digits never lowers the value: the value of a prefix bounds
/// the value of the whole string from below.
pub proof fn lemma_digits_val_prefix(s: Seq<char>, j: int)
    requires
        all_digits(s),
        0 <= j <= s.len(),
    ensures
        digits_val(s.take(j)) <= digits_val(s),
    decreases s.len() - j,
{
    if j == s.len() {
        assert(s.take(j) =~= s);
    } else {
        assert(s.take(j + 1).drop_last() =~= s.take(j));
        assert(s.take(j + 1).last() == s[j]);
        assert(all_digits(s.take(j)));
        lemma_digits_val_nonneg(s.take(j));
        assert(digits_val(s.take(j)) <= digits_val(s.take(j + 1)));
        lemma_digits_val_prefix(s, j + 1);
    }
}

/// Rendering an index and reading the digits back yields the index: the
/// round trip behind matching a pushed URL.
pub proof fn lemma_index_str_round_trip(n: int)
    requires
        n >= 0,
    ensures
        is_index_seq(index_str(n)),
        digits_val(index_str(n)) == n,
    decreases n,
{
    if n < 10 {
        let s = index_str(n);
        assert(s.drop_last() =~= Seq::<char>::empty());
        assert(s.last() == digit_char(n));
        assert(digit_val(digit_char(n)) == n);
        assert(digits_val(Seq::<char>::empty()) == 0);
        assert(digits_val(s) == digits_val(s.drop_last()) * 10 + digit_val(s.last()));
    } else {
        lemma_index_str_round_trip(n / 10);
        lemma_fundamental_div_mod(n, 10);
        let prefix = index_str(n / 10);
        let whole = index_str(n);
        assert(whole == prefix.push(digit_char(n % 10)));
        assert(whole.drop_last() =~= prefix);
        assert(whole.last() == digit_char(n % 10));
        assert(digit_val(digit_char(n % 10)) == n % 10);
        assert(digits_val(whole) == digits_val(prefix) * 10 + n % 10);
    }
}

/// Reads a path segment as a sub-page index. Yields the value of the digits
/// exactly when the segment is one or more decimal digits whose value fits a
/// `usize`; anything else is refused.
pub fn parse_index(s: &str) -> (r: Option<usize>)
    ensures
        match r {
            Some(n) => is_index_seq(s@) && n == digits_val(s@),
            None => !is_index_seq(s@) || digits_val(s@) > usize::MAX,
        },
{
    let len = s.unicode_len();
    if len == 0 {
        return None;
    }
    let mut acc: usize = 0;
    let mut i: usize = 0;
    while i < len
        invariant
            len == s@.len(),
            0 < len,
            0 <= i <= len,
            all_digits(s@.take(i as int)),
            acc == digits_val(s@.take(i as int)),
        decreases len - i,
    {
        let c = s.get_char(i);
        let v: u32 = c as u32;
        if v < 48 || v > 57 {
            proof {
                assert(!is_digit(s@[i as int]));
            }
            return None;
        }
        let d: usize = (v - 48) as usize;
        proof {
            assert(s@.take(i + 1).drop_last() =~= s@.take(i as int));
            assert(s@.take(i + 1).last() == s@[i as int]);
            assert(is_digit(s@[i as int]));
            assert(digit_val(s@[i as int]) == d);
        }
        if acc > (usize::MAX - d) / 10 {
            proof {
                lemma_fundamental_div_mod((usize::MAX - d) as int, 10);
                assert(acc * 10 + d > usize::MAX);
                assert(digits_val(s@.take(i + 1)) > usize::MAX);
                if all_digits(s@) {
                    lemma_digits_val_prefix(s@, i + 1);
                }
            }
            return None;
        }
        proof {
            lemma_fundamental_div_mod((usize::MAX - d) as int, 10);
            assert(acc * 10 + d <= usize::MAX);
        }
        acc = acc * 10 + d;
        i = i + 1;
    }
    proof {
        assert(s@.take(len as int) =~= s@);
    }
    Some(acc)
}

/// The digit segment character of `d`, for `d < 10`.
fn digit_str(d: usize) -> (r: &'static str)
    requires
        d < 10,
    ensures
        r@ == seq![digit_char(d as int)],
{
    match d {
        0 => {
            proof {
                reveal_strlit("0");
            }
            let r = "0";
            assert(r@ =~= seq![digit_char(0)]);
            r
        },
        1 => {
            proof {
                reveal_strlit("1");
            }
            let r = "1";
            assert(r@ =~= seq![digit_char(1)]);
            r
        },
        2 => {
            proof {
                reveal_strlit("2");
            }
            let r = "2";
            assert(r@ =~= seq![digit_char(2)]);
            r
        },
        3 => {
            proof {
                reveal_strlit("3");
            }
            let r = "3";
            assert(r@ =~= seq![digit_char(3)]);
            r
        },
        4 => {
            proof {
                reveal_strlit("4");
            }
            let r = "4";
            assert(r@ =~= seq![digit_char(4)]);
            r
        },
        5 => {
            proof {
                reveal_strlit("5");
            }
            let r = "5";
            assert(r@ =~= seq![digit_char(5)]);
            r
        },
        6 => {
            proof {
                reveal_strlit("6");
            }
            let r = "6";
            assert(r@ =~= seq![digit_char(6)]);
            r
        },
        7 => {
            proof {
                reveal_strlit("7");
            }
            let r = "7";
            assert(r@ =~= seq![digit_char(7)]);
            r
        },
        8 => {
            proof {
                reveal_strlit("8");
            }
            let r = "8";
            assert(r@ =~= seq![digit_char(8)]);
            r
        },
        _ => {
            assert(d == 9);
            proof {
                reveal_strlit("9");
            }
            let r = "9";
            assert(r@ =~= seq![digit_char(9)]);
            r
        },
    }
}

/// Renders a sub-page index as the decimal path segment that `parse_index`
/// reads back.
pub fn format_index(n: usize) -> (r: String)
    ensures
        r@ == index_str(n as int),
    decreases n,
{
    if n < 10 {
        let r = digit_str(n).to_owned();
        assert(r@ =~= index_str(n as int));
        r
    } else {
        let mut r = format_index(n / 10);
        r.append(digit_str(n % 10));
        assert(r@ =~= index_str(n as int));
        r
    }
}

} // verus!
