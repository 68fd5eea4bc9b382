use seed_homepage::model::Model;
use seed_homepage::model::finish_navigation;
use seed_homepage::model::update;
use seed_homepage::router::HistoryPush;
use seed_homepage::router::Msg;
use seed_homepage::router::NavIntent;
use seed_homepage::router::Page;
use seed_homepage::router::RouteTable;
use seed_homepage::router::RouterError;
use seed_homepage::router::Url;
use seed_homepage::router::navigate;
use seed_homepage::router::resolve;

fn url(segments: &[&str]) -> Url {
    Url {
        path: segments.iter().map(|s| s.to_string()).collect(),
        hash: None,
        search: None,
        title: None,
    }
}

fn segs(p: &HistoryPush) -> Vec<&str> {
    p.path.iter().map(|s| s.as_str()).collect()
}

#[test]
fn empty_path_resolves_home() {
    let t = RouteTable::site_table();
    assert_eq!(resolve(&t, &url(&[])), Ok(Msg::ChangePage(Page::Home)));
}

#[test]
fn changelog_resolves_changelog() {
    let t = RouteTable::site_table();
    assert_eq!(
        resolve(&t, &url(&["changelog"])),
        Ok(Msg::ChangePage(Page::Changelog))
    );
}

#[test]
fn guide_resolves_guide() {
    let t = RouteTable::site_table();
    assert_eq!(resolve(&t, &url(&["guide"])), Ok(Msg::ChangePage(Page::Guide)));
}

#[test]
fn guide_subpage_resolves_index() {
    let t = RouteTable::site_table();
    assert_eq!(resolve(&t, &url(&["guide", "5"])), Ok(Msg::ChangeSubpage(5)));
    assert_eq!(resolve(&t, &url(&["guide", "0"])), Ok(Msg::ChangeSubpage(0)));
    assert_eq!(resolve(&t, &url(&["guide", "11"])), Ok(Msg::ChangeSubpage(11)));
}

#[test]
fn guide_subpage_leading_zeros() {
    let t = RouteTable::site_table();
    assert_eq!(resolve(&t, &url(&["guide", "007"])), Ok(Msg::ChangeSubpage(7)));
}

#[test]
fn malformed_subpage_is_typed_error() {
    let t = RouteTable::site_table();
    assert_eq!(
        resolve(&t, &url(&["guide", "abc"])),
        Err(RouterError::InvalidSubpageIndex)
    );
    assert_eq!(
        resolve(&t, &url(&["guide", ""])),
        Err(RouterError::InvalidSubpageIndex)
    );
    assert_eq!(
        resolve(&t, &url(&["guide", "3x"])),
        Err(RouterError::InvalidSubpageIndex)
    );
    assert_eq!(
        resolve(&t, &url(&["guide", "-1"])),
        Err(RouterError::InvalidSubpageIndex)
    );
}

#[test]
fn out_of_range_subpage_is_typed_error() {
    let t = RouteTable::site_table();
    assert_eq!(
        resolve(&t, &url(&["guide", "12"])),
        Err(RouterError::InvalidSubpageIndex)
    );
    assert_eq!(
        resolve(&t, &url(&["guide", "99999999999999999999999999"])),
        Err(RouterError::InvalidSubpageIndex)
    );
}

#[test]
fn unregistered_segment_degrades_to_home() {
    let t = RouteTable::site_table();
    assert_eq!(resolve(&t, &url(&["blog"])), Ok(Msg::ChangePage(Page::Home)));
    assert_eq!(
        resolve(&t, &url(&["guide", "3", "deep"])),
        Ok(Msg::ChangePage(Page::Home))
    );
    assert_eq!(
        resolve(&t, &url(&["changelog", "2"])),
        Ok(Msg::ChangePage(Page::Home))
    );
}

#[test]
fn resolve_is_pure() {
    let t = RouteTable::site_table();
    let u = url(&["guide", "4"]);
    let first = resolve(&t, &u);
    let second = resolve(&t, &u);
    assert_eq!(first, second);
    assert_eq!(resolve(&t, &url(&["guide", "4"])), first);
}

#[test]
fn resolve_ignores_hash_search_title() {
    let t = RouteTable::site_table();
    let mut u = url(&["guide", "4"]);
    u.hash = Some("anchor".to_string());
    u.search = Some("q=1".to_string());
    u.title = Some("Guide".to_string());
    assert_eq!(resolve(&t, &u), resolve(&t, &url(&["guide", "4"])));
}

#[test]
fn navigate_guide_subpage_pushes_once_and_agrees_with_resolve() {
    let t = RouteTable::site_table();
    let (push, msg) = navigate(&NavIntent::GuideSubpage(3));
    assert_eq!(segs(&push), ["guide", "3"]);
    assert_eq!(msg, Msg::ChangeSubpage(3));

    // the model ends exactly where browser-driven navigation to the pushed
    // path would put it
    let resolved = resolve(&t, &url(&["guide", "3"])).unwrap();
    assert_eq!(msg, resolved);
    let (again, from_msg) = update(&msg, Model::default());
    let (_, from_resolved) = update(&resolved, Model::default());
    assert_eq!(from_msg.page, from_resolved.page);
    assert_eq!(from_msg.guide_page, from_resolved.guide_page);
    // applying the state change demands no second push
    assert!(again.is_none());
}

#[test]
fn navigate_pages() {
    let (push, msg) = navigate(&NavIntent::ToPage(Page::Changelog));
    assert_eq!(segs(&push), ["changelog"]);
    assert_eq!(msg, Msg::ChangePage(Page::Changelog));

    let (push, msg) = navigate(&NavIntent::ToPage(Page::Home));
    assert!(push.path.is_empty());
    assert_eq!(msg, Msg::ChangePage(Page::Home));
}

#[test]
fn browser_driven_navigation_never_pushes() {
    let t = RouteTable::site_table();
    let mut model = Model::default();
    for u in [url(&[]), url(&["guide"]), url(&["guide", "2"]), url(&["nowhere"])] {
        let msg = resolve(&t, &u).unwrap();
        let (push, next) = update(&msg, model);
        assert!(push.is_none());
        model = next;
    }
}

#[test]
fn route_messages_push_exactly_once() {
    let model = Model::default();
    let (push, model) = update(&Msg::RouteSubpage(2), model);
    assert_eq!(segs(&push.expect("one push")), ["guide", "2"]);
    assert_eq!(model.page, Page::Guide);
    assert_eq!(model.guide_page, 2);

    let (push, model) = update(&Msg::RoutePage(Page::Changelog), model);
    assert_eq!(segs(&push.expect("one push")), ["changelog"]);
    assert_eq!(model.page, Page::Changelog);
}

#[test]
fn user_click_guide_page_2() {
    // a "guide page 2" click: one push to guide/2, sub-page becomes 2
    let (push, msg) = navigate(&NavIntent::GuideSubpage(2));
    assert_eq!(segs(&push), ["guide", "2"]);
    let (extra, model) = update(&msg, Model::default());
    assert!(extra.is_none());
    assert_eq!(model.page, Page::Guide);
    assert_eq!(model.guide_page, 2);
}

#[test]
fn failed_push_still_applies_state_change() {
    let model = Model::default();
    let (next, err) = finish_navigation(false, &Msg::ChangeSubpage(4), model);
    assert_eq!(next.guide_page, 4);
    assert_eq!(next.page, Page::Guide);
    assert_eq!(err, Some(RouterError::HistoryUnavailable));

    let (next, err) = finish_navigation(true, &Msg::ChangeSubpage(4), next);
    assert_eq!(next.guide_page, 4);
    assert_eq!(err, None);
}

#[test]
fn out_of_range_message_falls_back_to_first_section() {
    let (_, model) = update(&Msg::ChangeSubpage(999), Model::default());
    assert_eq!(model.page, Page::Guide);
    assert_eq!(model.guide_page, 0);
}

#[test]
fn last_registered_key_wins() {
    let mut t = RouteTable::new(3);
    t.register("docs".to_string(), Page::Guide);
    t.register("docs".to_string(), Page::Changelog);
    assert_eq!(t.lookup(&"docs".to_string()), Some(Page::Changelog));
    assert_eq!(t.lookup(&"elsewhere".to_string()), None);
    assert_eq!(
        resolve(&t, &url(&["docs"])),
        Ok(Msg::ChangePage(Page::Changelog))
    );
}

#[test]
fn page_segments() {
    assert_eq!(Page::Guide.to_string(), "guide");
    assert_eq!(Page::Changelog.to_string(), "changelog");
    assert_eq!(Page::Home.to_string(), "");
}

#[test]
fn default_model_lands_on_home() {
    let m = Model::default();
    assert_eq!(m.page, Page::Home);
    assert_eq!(m.guide_page, 0);
    assert_eq!(m.guide_sections.len(), 12);
    assert_eq!(m.guide_sections[0].title, "Quickstart");
    assert_eq!(m.guide_sections[7].title, "Routing");
    assert_eq!(m.guide_sections[11].title, "About");
}
