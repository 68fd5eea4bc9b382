//! The router: a pure mapping from a decomposed browser location to the
//! application message that brings the model in agreement with it
//! (`resolve`), and from a user-initiated navigation intent to the single
//! history push plus state-change message it stands for (`navigate`).
//!
//! Two message kinds keep history pushes from recursing: `Route*` messages
//! come only from user interaction and demand exactly one push, `Change*`
//! messages come from `resolve` (browser-driven navigation) and from applying
//! a `Route*` message, and never touch history.

use vstd::prelude::*;
use crate::numeral::digits_val;
use crate::numeral::index_str;
use crate::numeral::is_index_seq;
use crate::numeral::format_index;
use crate::numeral::parse_index;

verus! {

/// How many guide sub-pages the site registers.
pub const GUIDE_SECTION_COUNT: usize = 12;

/// Top-level sections of the site.
#[derive(Clone, Copy, PartialEq, Eq, Structural, Debug)]
pub enum Page {
    Home,
    Guide,
    Changelog,
}

/// Application messages. `Change*` only mutate the page selector; `Route*`
/// additionally demand one history push.
#[derive(Clone, Copy, PartialEq, Eq, Structural, Debug)]
pub enum Msg {
    ChangePage(Page),
    ChangeSubpage(usize),
    RoutePage(Page),
    RouteSubpage(usize),
}

/// What can go wrong around navigation. Unknown paths are no error: they
/// resolve to the home message.
#[derive(Clone, Copy, PartialEq, Eq, Structural, Debug)]
pub enum RouterError {
    /// A sub-page segment that is not a decimal index below the registered
    /// sub-page count.
    InvalidSubpageIndex,
    /// The history API could not be reached; the state change still applies.
    HistoryUnavailable,
}

/// A user-initiated navigation intent.
#[derive(Clone, Copy, PartialEq, Eq, Structural, Debug)]
pub enum NavIntent {
    ToPage(Page),
    GuideSubpage(usize),
}

/// A decomposed browser location, as the embedding layer hands it over.
#[derive(Clone, Debug)]
pub struct Url {
    pub path: Vec<String>,
    pub hash: Option<String>,
    pub search: Option<String>,
    pub title: Option<String>,
}

/// A request to the embedding layer: append one entry with this path to the
/// browser history.
#[derive(Clone, Debug)]
pub struct HistoryPush {
    pub path: Vec<String>,
}

/// One registration: a top-level path segment and the page it selects.
#[derive(Clone, Debug)]
pub struct RouteEntry {
    pub key: String,
    pub page: Page,
}

/// The route table, built once at startup and read-only thereafter. On a key
/// registered twice, the later registration wins.
#[derive(Clone, Debug)]
pub struct RouteTable {
    pub entries: Vec<RouteEntry>,
    /// Sub-page indices below this count resolve; others are invalid.
    pub subpage_count: usize,
}

/// The path segment a page is addressed by; the home page sits at the root.
pub open spec fn page_key(p: Page) -> Seq<char> {
    match p {
        Page::Home => ""@,
        Page::Guide => "guide"@,
        Page::Changelog => "changelog"@,
    }
}

/// The path pushed for a page: no segment for home, one segment otherwise.
pub open spec fn page_path(p: Page) -> Seq<Seq<char>> {
    match p {
        Page::Home => Seq::<Seq<char>>::empty(),
        Page::Guide => seq![page_key(p)],
        Page::Changelog => seq![page_key(p)],
    }
}

/// The path pushed for a guide sub-page.
pub open spec fn subpage_path(n: usize) -> Seq<Seq<char>> {
    seq!["guide"@, index_str(n as int)]
}

/// Last-registered-wins lookup of a top-level segment.
pub open spec fn spec_lookup(entries: Seq<RouteEntry>, seg: Seq<char>) -> Option<Page>
    decreases entries.len(),
{
    if entries.len() == 0 {
        None
    } else if entries.last().key@ == seg {
        Some(entries.last().page)
    } else {
        spec_lookup(entries.drop_last(), seg)
    }
}

/// What `resolve` yields: the home message for the empty path, the registered
/// page for one known segment, the sub-page message for `guide` plus a valid
/// index, `InvalidSubpageIndex` for `guide` plus an invalid one, and the home
/// message for every other shape.
pub open spec fn spec_resolve(t: RouteTable, u: Url) -> Result<Msg, RouterError> {
    if u.path@.len() == 0 {
        Ok(Msg::ChangePage(Page::Home))
    } else {
        match spec_lookup(t.entries@, u.path@[0]@) {
            None => Ok(Msg::ChangePage(Page::Home)),
            Some(p) => {
                if u.path@.len() == 1 {
                    Ok(Msg::ChangePage(p))
                } else if u.path@.len() == 2 && p == Page::Guide {
                    let seg = u.path@[1]@;
                    if is_index_seq(seg) && digits_val(seg) < t.subpage_count {
                        Ok(Msg::ChangeSubpage(digits_val(seg) as usize))
                    } else {
                        Err(RouterError::InvalidSubpageIndex)
                    }
                } else {
                    Ok(Msg::ChangePage(Page::Home))
                }
            },
        }
    }
}

/// The state-change message a navigation intent applies.
pub open spec fn intent_msg(i: NavIntent) -> Msg {
    match i {
        NavIntent::ToPage(p) => Msg::ChangePage(p),
        NavIntent::GuideSubpage(n) => Msg::ChangeSubpage(n),
    }
}

/// The path a navigation intent pushes.
pub open spec fn intent_path(i: NavIntent) -> Seq<Seq<char>> {
    match i {
        NavIntent::ToPage(p) => page_path(p),
        NavIntent::GuideSubpage(n) => subpage_path(n),
    }
}

impl RouteTable {
    /// A fresh table with no registered keys; sub-page indices below
    /// `subpage_count` will be accepted for the guide.
    pub fn new(subpage_count: usize) -> (t: Self)
        ensures
            t.entries@.len() == 0,
            t.subpage_count == subpage_count,
    {
        RouteTable { entries: Vec::new(), subpage_count }
    }

    /// Registers a key for a page. A later registration of the same key wins
    /// over an earlier one.
    pub fn register(&mut self, key: String, page: Page)
        ensures
            final(self).entries@ == old(self).entries@.push((RouteEntry { key, page })),
            final(self).subpage_count == old(self).subpage_count,
            spec_lookup(final(self).entries@, key@) == Some(page),
    {
        self.entries.push(RouteEntry { key, page });
    }

    /// Last-registered-wins lookup of a top-level segment.
    pub fn lookup(&self, seg: &String) -> (r: Option<Page>)
        ensures
            r == spec_lookup(self.entries@, seg@),
    {
        let n = self.entries.len();
        let mut i: usize = n;
        proof {
            assert(self.entries@.take(n as int) =~= self.entries@);
        }
        while i > 0
            invariant
                i <= n == self.entries@.len(),
                spec_lookup(self.entries@, seg@) == spec_lookup(
                    self.entries@.take(i as int),
                    seg@,
                ),
            decreases i,
        {
            i = i - 1;
            proof {
                assert(self.entries@.take(i + 1).last() == self.entries@[i as int]);
                assert(self.entries@.take(i + 1).drop_last() =~= self.entries@.take(i as int));
            }
            if self.entries[i].key == *seg {
                return Some(self.entries[i].page);
            }
        }
        proof {
            assert(self.entries@.take(0) =~= Seq::<RouteEntry>::empty());
        }
        None
    }

    /// The site's table: `guide` and `changelog`, with `GUIDE_SECTION_COUNT`
    /// guide sub-pages.
    pub fn site_table() -> (t: Self)
        ensures
            t.subpage_count == GUIDE_SECTION_COUNT,
            t.entries@.len() == 2,
            t.entries@[0].key@ == "guide"@,
            t.entries@[0].page == Page::Guide,
            t.entries@[1].key@ == "changelog"@,
            t.entries@[1].page == Page::Changelog,
            spec_lookup(t.entries@, "guide"@) == Some(Page::Guide),
            spec_lookup(t.entries@, "changelog"@) == Some(Page::Changelog),
    {
        let mut t = RouteTable::new(GUIDE_SECTION_COUNT);
        t.register("guide".to_owned(), Page::Guide);
        t.register("changelog".to_owned(), Page::Changelog);
        proof {
            reveal_strlit("guide");
            reveal_strlit("changelog");
            let es = t.entries@;
            assert(es.last() == es[1]);
            assert(es.drop_last().last() == es[0]);
            assert(es.drop_last().drop_last() =~= Seq::<RouteEntry>::empty());
            assert("guide"@.len() == 5);
            assert("changelog"@.len() == 9);
            assert("guide"@ != "changelog"@);
            assert(spec_lookup(es, "guide"@) == spec_lookup(es.drop_last(), "guide"@));
            assert(spec_lookup(es.drop_last(), "guide"@) == Some(Page::Guide));
        }
        t
    }
}

impl Page {
    /// The path segment the page is addressed by (empty for home).
    pub fn to_string(&self) -> (r: String)
        ensures
            r@ == page_key(*self),
    {
        match self {
            Page::Home => "".to_owned(),
            Page::Guide => "guide".to_owned(),
            Page::Changelog => "changelog".to_owned(),
        }
    }
}

/// Pure mapping of a decomposed location to the message that brings the
/// model in agreement with it. Called on load and on every back/forward
/// event; never touches history, and its result is a function of the path
/// segments alone.
pub fn resolve(t: &RouteTable, u: &Url) -> (r: Result<Msg, RouterError>)
    ensures
        r == spec_resolve(*t, *u),
{
    if u.path.len() == 0 {
        return Ok(Msg::ChangePage(Page::Home));
    }
    match t.lookup(&u.path[0]) {
        None => Ok(Msg::ChangePage(Page::Home)),
        Some(p) => {
            if u.path.len() == 1 {
                Ok(Msg::ChangePage(p))
            } else if u.path.len() == 2 && p == Page::Guide {
                match parse_index(u.path[1].as_str()) {
                    Some(n) => {
                        if n < t.subpage_count {
                            Ok(Msg::ChangeSubpage(n))
                        } else {
                            Err(RouterError::InvalidSubpageIndex)
                        }
                    },
                    None => Err(RouterError::InvalidSubpageIndex),
                }
            } else {
                Ok(Msg::ChangePage(Page::Home))
            }
        },
    }
}

/// One user-initiated navigation: the single history push to perform and the
/// state-change message to apply. Pure; the caller performs the push, so
/// responding to the resulting message cannot push again.
pub fn navigate(intent: &NavIntent) -> (r: (HistoryPush, Msg))
    ensures
        r.0.path.deep_view() == intent_path(*intent),
        r.1 == intent_msg(*intent),
{
    match intent {
        NavIntent::ToPage(p) => {
            let mut path: Vec<String> = Vec::new();
            match p {
                Page::Home => {},
                Page::Guide => {
                    path.push("guide".to_owned());
                },
                Page::Changelog => {
                    path.push("changelog".to_owned());
                },
            }
            proof {
                assert(path.deep_view() =~~= page_path(*p));
            }
            (HistoryPush { path }, Msg::ChangePage(*p))
        },
        NavIntent::GuideSubpage(n) => {
            let mut path: Vec<String> = Vec::new();
            path.push("guide".to_owned());
            path.push(format_index(*n));
            proof {
                assert(path.deep_view() =~~= subpage_path(*n));
            }
            (HistoryPush { path }, Msg::ChangeSubpage(*n))
        },
    }
}

} // verus!
