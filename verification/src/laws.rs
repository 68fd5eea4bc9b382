//! The routing laws, stated over the same spec functions the executable
//! contracts use.

use vstd::prelude::*;
use crate::model::Model;
use crate::model::apply_msg;
use crate::model::push_of_msg;
use crate::numeral::digits_val;
use crate::numeral::index_str;
use crate::numeral::is_index_seq;
use crate::numeral::lemma_index_str_round_trip;
use crate::router::Msg;
use crate::router::NavIntent;
use crate::router::Page;
use crate::router::RouteTable;
use crate::router::RouterError;
use crate::router::Url;
use crate::router::intent_msg;
use crate::router::intent_path;
use crate::router::page_key;
use crate::router::spec_lookup;
use crate::router::spec_resolve;

verus! {

/// A two-segment path whose first segment resolves to the guide and whose
/// second is a digit string denoting a registered sub-page yields exactly the
/// sub-page message for that value.
pub proof fn law_resolve_guide_subpage(t: RouteTable, u: Url, n: usize)
    requires
        spec_lookup(t.entries@, u.path@[0]@) == Some(Page::Guide),
        u.path@.len() == 2,
        is_index_seq(u.path@[1]@),
        digits_val(u.path@[1]@) == n,
        n < t.subpage_count,
    ensures
        spec_resolve(t, u) == Ok::<Msg, RouterError>(Msg::ChangeSubpage(n)),
{
}

/// A single-segment path matching a registered top-level key yields exactly
/// the change-page message for the registered page.
pub proof fn law_resolve_registered_key(t: RouteTable, u: Url, p: Page)
    requires
        u.path@.len() == 1,
        spec_lookup(t.entries@, u.path@[0]@) == Some(p),
    ensures
        spec_resolve(t, u) == Ok::<Msg, RouterError>(Msg::ChangePage(p)),
{
}

/// An unregistered first segment degrades gracefully: the home message, never
/// an error.
pub proof fn law_resolve_unregistered(t: RouteTable, u: Url)
    requires
        u.path@.len() > 0,
        spec_lookup(t.entries@, u.path@[0]@) is None,
    ensures
        spec_resolve(t, u) == Ok::<Msg, RouterError>(Msg::ChangePage(Page::Home)),
{
}

/// Resolution reads nothing but the path segments: two locations with the
/// same segments yield the same message, however often and whenever they are
/// resolved.
pub proof fn law_resolve_pure(t: RouteTable, u1: Url, u2: Url)
    requires
        u1.path.deep_view() == u2.path.deep_view(),
    ensures
        spec_resolve(t, u1) == spec_resolve(t, u2),
{
    assert(u1.path.deep_view().len() == u1.path@.len());
    assert(u2.path.deep_view().len() == u2.path@.len());
    if u1.path@.len() > 0 {
        assert(u1.path@[0]@ == u1.path.deep_view()[0]);
        assert(u2.path@[0]@ == u2.path.deep_view()[0]);
        if u1.path@.len() == 2 {
            assert(u1.path@[1]@ == u1.path.deep_view()[1]);
            assert(u2.path@[1]@ == u2.path.deep_view()[1]);
        }
    }
}

/// A navigation intent for a guide sub-page demands exactly one history push,
/// for the path `guide/<index>`; resolving the pushed path yields exactly the
/// intent's own state-change message, so the model ends where browser-driven
/// navigation to that location would put it — and that message demands no
/// second push.
pub proof fn law_navigate_matches_resolve(t: RouteTable, u: Url, n: usize, m: Model)
    requires
        spec_lookup(t.entries@, "guide"@) == Some(Page::Guide),
        n < t.subpage_count,
        u.path.deep_view() == intent_path(NavIntent::GuideSubpage(n)),
    ensures
        intent_path(NavIntent::GuideSubpage(n)) == seq!["guide"@, index_str(n as int)],
        spec_resolve(t, u) == Ok::<Msg, RouterError>(intent_msg(NavIntent::GuideSubpage(n))),
        push_of_msg(intent_msg(NavIntent::GuideSubpage(n))) is None,
        apply_msg(intent_msg(NavIntent::GuideSubpage(n)), m) == apply_msg(
            spec_resolve(t, u)->Ok_0,
            m,
        ),
{
    lemma_index_str_round_trip(n as int);
    assert(u.path.deep_view().len() == u.path@.len());
    assert(u.path@.len() == 2);
    assert(u.path@[0]@ == u.path.deep_view()[0]);
    assert(u.path@[1]@ == u.path.deep_view()[1]);
    assert(u.path@[0]@ == "guide"@);
    assert(u.path@[1]@ == index_str(n as int));
}

/// The page-level counterpart: a navigation intent for a top-level page
/// pushes that page's path, and resolving the pushed path yields exactly the
/// intent's own state-change message — for the home page via the empty path,
/// for a registered page via its key.
pub proof fn law_navigate_page_matches_resolve(t: RouteTable, u: Url, p: Page, m: Model)
    requires
        u.path.deep_view() == intent_path(NavIntent::ToPage(p)),
        p != Page::Home ==> spec_lookup(t.entries@, page_key(p)) == Some(p),
    ensures
        spec_resolve(t, u) == Ok::<Msg, RouterError>(intent_msg(NavIntent::ToPage(p))),
        push_of_msg(intent_msg(NavIntent::ToPage(p))) is None,
        apply_msg(intent_msg(NavIntent::ToPage(p)), m) == apply_msg(spec_resolve(t, u)->Ok_0, m),
{
    assert(u.path.deep_view().len() == u.path@.len());
    if p != Page::Home {
        assert(u.path@.len() == 1);
        assert(u.path@[0]@ == u.path.deep_view()[0]);
        assert(u.path@[0]@ == page_key(p));
    }
}

/// The two-message split itself: a `Route*` message demands exactly the push
/// its `Change*` counterpart stands for, and changes state exactly as that
/// counterpart does; the counterpart demands no push at all.
pub proof fn law_route_message_split(p: Page, n: usize, m: Model)
    ensures
        apply_msg(Msg::RoutePage(p), m) == apply_msg(Msg::ChangePage(p), m),
        apply_msg(Msg::RouteSubpage(n), m) == apply_msg(Msg::ChangeSubpage(n), m),
        push_of_msg(Msg::RoutePage(p)) == Some(intent_path(NavIntent::ToPage(p))),
        push_of_msg(Msg::RouteSubpage(n)) == Some(intent_path(NavIntent::GuideSubpage(n))),
        push_of_msg(Msg::ChangePage(p)) is None,
        push_of_msg(Msg::ChangeSubpage(n)) is None,
{
}

/// A message produced by resolution — browser-driven navigation — never
/// demands a history push.
pub proof fn law_resolve_never_pushes(t: RouteTable, u: Url, msg: Msg)
    requires
        spec_resolve(t, u) == Ok::<Msg, RouterError>(msg),
    ensures
        push_of_msg(msg) is None,
{
}

} // verus!
