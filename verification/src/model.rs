//! The page-selector model and the sole update step that mutates it.
//!
//! `update` is the only place a message becomes state, and the only place a
//! history push is demanded: exactly one for a `Route*` message, none for a
//! `Change*` message. The embedding layer performs the push and reports back
//! through `finish_navigation`, which applies the state change whether or not
//! the push could be made.

use vstd::prelude::*;
use crate::router::GUIDE_SECTION_COUNT;
use crate::router::HistoryPush;
use crate::router::Msg;
use crate::router::NavIntent;
use crate::router::Page;
use crate::router::RouterError;
use crate::router::navigate;
use crate::router::page_path;
use crate::router::subpage_path;

verus! {

/// One guide section as the model sees it: its menu title. Rendered section
/// content is presentation, owned by the embedding layer.
#[derive(Clone, Debug)]
pub struct GuideSection {
    pub title: String,
}

/// The application model: which top-level section is displayed, and which
/// guide sub-page.
#[derive(Clone, Debug)]
pub struct Model {
    pub page: Page,
    pub guide_page: usize,
    pub guide_sections: Vec<GuideSection>,
}

/// The selected sub-page always denotes an existing guide section.
pub open spec fn model_wf(m: Model) -> bool {
    m.guide_page < m.guide_sections@.len()
}

/// The sub-page a requested index selects: itself when it denotes a section,
/// the first section otherwise (a recoverable fallback, never a crash).
pub open spec fn subpage_target(i: usize, m: Model) -> usize {
    if i < m.guide_sections@.len() {
        i
    } else {
        0
    }
}

/// The state change of one message. `Route*` messages change state exactly as
/// their `Change*` counterparts do; only the demanded push differs.
pub open spec fn apply_msg(msg: Msg, m: Model) -> Model {
    match msg {
        Msg::ChangePage(p) => Model { page: p, ..m },
        Msg::ChangeSubpage(i) => Model {
            page: Page::Guide,
            guide_page: subpage_target(i, m),
            ..m
        },
        Msg::RoutePage(p) => Model { page: p, ..m },
        Msg::RouteSubpage(i) => Model {
            page: Page::Guide,
            guide_page: subpage_target(i, m),
            ..m
        },
    }
}

/// The history push one message demands: exactly one for `Route*` messages,
/// none for `Change*` messages.
pub open spec fn push_of_msg(msg: Msg) -> Option<Seq<Seq<char>>> {
    match msg {
        Msg::ChangePage(_) => None,
        Msg::ChangeSubpage(_) => None,
        Msg::RoutePage(p) => Some(page_path(p)),
        Msg::RouteSubpage(i) => Some(subpage_path(i)),
    }
}

fn apply_change_page(p: Page, model: Model) -> (m: Model)
    ensures
        m == apply_msg(Msg::ChangePage(p), model),
{
    Model { page: p, ..model }
}

fn apply_change_subpage(i: usize, model: Model) -> (m: Model)
    ensures
        m == apply_msg(Msg::ChangeSubpage(i), model),
{
    let guide_page = if i < model.guide_sections.len() {
        i
    } else {
        0
    };
    Model { page: Page::Guide, guide_page, ..model }
}

/// The sole source of model updates; returns the history push the message
/// demands and the next model. A well-formed model stays well formed.
pub fn update(msg: &Msg, model: Model) -> (r: (Option<HistoryPush>, Model))
    ensures
        r.1 == apply_msg(*msg, model),
        r.0 is Some <==> push_of_msg(*msg) is Some,
        r.0 is Some ==> r.0.unwrap().path.deep_view() == push_of_msg(*msg).unwrap(),
        model_wf(model) ==> model_wf(r.1),
{
    match msg {
        Msg::ChangePage(p) => (None, apply_change_page(*p, model)),
        Msg::ChangeSubpage(i) => (None, apply_change_subpage(*i, model)),
        Msg::RoutePage(p) => {
            let (push, _msg) = navigate(&NavIntent::ToPage(*p));
            (Some(push), apply_change_page(*p, model))
        },
        Msg::RouteSubpage(i) => {
            let (push, _msg) = navigate(&NavIntent::GuideSubpage(*i));
            (Some(push), apply_change_subpage(*i, model))
        },
    }
}

/// Applies the state-change message after the embedding layer attempted the
/// history push. A failed push (history API unavailable) is reported, never
/// allowed to block the model update: model state may transiently diverge
/// from the address bar, but stays correct.
pub fn finish_navigation(push_ok: bool, msg: &Msg, model: Model) -> (r: (
    Model,
    Option<RouterError>,
))
    ensures
        r.0 == apply_msg(*msg, model),
        push_ok ==> r.1 is None,
        !push_ok ==> r.1 == Some(RouterError::HistoryUnavailable),
{
    let (_push, next) = update(msg, model);
    if push_ok {
        (next, None)
    } else {
        (next, Some(RouterError::HistoryUnavailable))
    }
}

/// Menu title of a guide section.
pub open spec fn guide_title(i: int) -> Seq<char> {
    if i == 0 {
        "Quickstart"@
    } else if i == 1 {
        "Prereqs"@
    } else if i == 2 {
        "Structure"@
    } else if i == 3 {
        "Events"@
    } else if i == 4 {
        "Components"@
    } else if i == 5 {
        "Http requests"@
    } else if i == 6 {
        "Lifecycle hooks"@
    } else if i == 7 {
        "Routing"@
    } else if i == 8 {
        "Misc features"@
    } else if i == 9 {
        "Release and debugging"@
    } else if i == 10 {
        "Element Deep-dive"@
    } else {
        "About"@
    }
}

impl Default for Model {
    /// The landing state: home, first guide sub-page, the twelve guide
    /// section titles.
    fn default() -> (m: Model)
        ensures
            m.page == Page::Home,
            m.guide_page == 0,
            m.guide_sections@.len() == GUIDE_SECTION_COUNT,
            forall|i: int|
                0 <= i < m.guide_sections@.len() ==> m.guide_sections@[i].title@ == guide_title(i),
            model_wf(m),
    {
        let mut guide_sections: Vec<GuideSection> = Vec::new();
        guide_sections.push(GuideSection { title: "Quickstart".to_owned() });
        guide_sections.push(GuideSection { title: "Prereqs".to_owned() });
        guide_sections.push(GuideSection { title: "Structure".to_owned() });
        guide_sections.push(GuideSection { title: "Events".to_owned() });
        guide_sections.push(GuideSection { title: "Components".to_owned() });
        guide_sections.push(GuideSection { title: "Http requests".to_owned() });
        guide_sections.push(GuideSection { title: "Lifecycle hooks".to_owned() });
        guide_sections.push(GuideSection { title: "Routing".to_owned() });
        guide_sections.push(GuideSection { title: "Misc features".to_owned() });
        guide_sections.push(GuideSection { title: "Release and debugging".to_owned() });
        guide_sections.push(GuideSection { title: "Element Deep-dive".to_owned() });
        guide_sections.push(GuideSection { title: "About".to_owned() });
        Model { page: Page::Home, guide_page: 0, guide_sections }
    }
}

} // verus!
