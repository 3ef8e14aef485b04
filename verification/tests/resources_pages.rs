use pokemmo_companion::resources::{
    AppLinkResource, MarkdownResource, Resource, ResourceCollection, RessourcesSubsystem,
    WebLinkResource,
};

#[test]
fn test_something() {
    assert!(true == true);
}

#[test]
fn resources_keep_what_they_were_made_of() {
    let page = ResourceCollection::new("Root", vec!["a".to_string(), "b".to_string()]);
    assert_eq!(page.get_title(), "Root");
    assert_eq!(page.resource_keys(), &vec!["a".to_string(), "b".to_string()]);
    let web = WebLinkResource::new("Info", "https://example.org");
    assert_eq!(web.get_title(), "Info");
    assert_eq!(web.get_url(), "https://example.org");
    let link = AppLinkResource::new("Next", "Page 2");
    assert_eq!(link.get_title(), "Next");
    assert_eq!(link.get_target(), "Page 2");
    let text = MarkdownResource::new("intro", "# Hello");
    assert_eq!(text.get_title(), "intro");
    assert_eq!(text.get_text(), "# Hello");
    assert_eq!(Resource::Markdown(text).get_title(), "intro");
}

#[test]
fn a_new_subsystem_shows_nothing() {
    let s = RessourcesSubsystem::new();
    assert!(s.get_current_resource().is_none());
    assert!(s.get_resource("ROOT").is_none());
    assert_eq!(s.inspect_last_resource(), None);
}

#[test]
fn app_link_with_the_name_of_its_target_gets_a_suffix() {
    let mut s = RessourcesSubsystem::new();
    assert_eq!(s.add_app_link("Items", "Items"), "Items_AppLink");
    assert_eq!(s.add_app_link("Next", "Items"), "Next");
    match s.get_resource("Items_AppLink") {
        Some(Resource::AppLink(l)) => assert_eq!(l.get_target(), "Items"),
        _ => panic!("no app link under the suffixed key"),
    }
    assert!(s.get_resource("Items").is_none());
}

#[test]
fn a_later_resource_replaces_an_earlier_one_of_the_same_key() {
    let mut s = RessourcesSubsystem::new();
    s.add_markdown_resource("ROOT", "first");
    s.add_markdown_resource("other", "x");
    s.add_markdown_resource("ROOT", "second");
    match s.get_resource("ROOT") {
        Some(Resource::Markdown(m)) => assert_eq!(m.get_text(), "second"),
        _ => panic!("ROOT is missing"),
    }
    match s.get_resource("other") {
        Some(Resource::Markdown(m)) => assert_eq!(m.get_text(), "x"),
        _ => panic!("other is missing"),
    }
}

fn two_pages() -> RessourcesSubsystem {
    let mut s = RessourcesSubsystem::new();
    s.add_resource_collection("ROOT", vec!["to items".to_string()]);
    s.add_resource_collection("Items", vec![]);
    s.add_web_link_resource("web", "https://example.org");
    s.set_current_resource("ROOT", false);
    s
}

#[test]
fn following_a_link_and_going_back() {
    let mut s = two_pages();
    assert_eq!(s.get_current_resource().map(|r| r.get_title()), Some("ROOT".to_string()));
    s.render_current_resource(Some("Items".to_string()));
    assert_eq!(s.get_current_resource().map(|r| r.get_title()), Some("Items".to_string()));
    assert_eq!(s.inspect_last_resource(), Some("ROOT".to_string()));
    s.go_back_visited_resources();
    assert_eq!(s.get_current_resource().map(|r| r.get_title()), Some("ROOT".to_string()));
    assert_eq!(s.inspect_last_resource(), None);
}

#[test]
fn unknown_or_current_pages_change_nothing() {
    let mut s = two_pages();
    s.set_current_resource("nowhere", true);
    assert_eq!(s.get_current_resource().map(|r| r.get_title()), Some("ROOT".to_string()));
    assert_eq!(s.inspect_last_resource(), None);
    s.set_current_resource("ROOT", true);
    assert_eq!(s.inspect_last_resource(), None);
    s.render_current_resource(None);
    assert_eq!(s.get_current_resource().map(|r| r.get_title()), Some("ROOT".to_string()));
    s.go_back_visited_resources();
    assert_eq!(s.get_current_resource().map(|r| r.get_title()), Some("ROOT".to_string()));
}

#[test]
fn history_is_only_kept_when_asked_for() {
    let mut s = two_pages();
    s.set_current_resource("Items", false);
    assert_eq!(s.inspect_last_resource(), None);
    s.set_current_resource("ROOT", true);
    assert_eq!(s.inspect_last_resource(), Some("Items".to_string()));
}
