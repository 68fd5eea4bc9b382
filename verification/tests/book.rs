use seed_homepage::book::events;

#[test]
fn events_section_has_content() {
    let text = events::text();
    assert!(text.contains("<h1 id=\"events\">Events</h1>"));
    assert!(text.len() > 1000);
}
