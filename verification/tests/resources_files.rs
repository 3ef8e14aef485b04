use pokemmo_companion::resources::{
    read_resource_file, resource_tag_of, resources_of_lines, tag_from_groups, Resource,
    ResourceTag, RessourcesSubsystem, TaggedLine,
};

fn titles(resources: &[Resource]) -> Vec<String> {
    resources.iter().map(|r| r.get_title()).collect()
}

#[test]
fn tags_are_read_with_kind_text_and_data() {
    let t = resource_tag_of("see <AppLink= Items , Items Page > here").unwrap();
    assert_eq!((t.res_type.as_str(), t.res_text.as_str(), t.res_data.as_str()), ("AppLink", "Items", "Items Page"));
    let t = resource_tag_of("<WebLink=Info>").unwrap();
    assert_eq!((t.res_type.as_str(), t.res_text.as_str(), t.res_data.as_str()), ("WebLink", "Info", ""));
    assert!(resource_tag_of("no tag here").is_none());
    assert!(resource_tag_of("<broken").is_none());
    let t = tag_from_groups(&vec![Some("<a=b>".to_string()), Some(" a ".to_string()), Some("b".to_string()), None]).unwrap();
    assert_eq!((t.res_type.as_str(), t.res_text.as_str(), t.res_data.as_str()), ("a", "b", ""));
    assert!(tag_from_groups(&vec![Some("x".to_string()), None, Some("b".to_string())]).is_none());
    assert!(tag_from_groups(&vec![Some("x".to_string()), Some("a".to_string())]).is_none());
}

#[test]
fn a_file_becomes_texts_links_and_a_page() {
    let contents = "# Welcome\nsome text\n<AppLink=Items,Items>\n<WebLink=Wiki,https://example.org>\nmore\n<Other=x,y>\nlast";
    let resources = read_resource_file("ROOT", contents);
    // a link is added before the text that it ends
    assert_eq!(
        titles(&resources),
        vec!["Items_AppLink", "inner_ROOT_md_0", "Wiki", "inner_ROOT_md_1", "ROOT"]
    );
    match &resources[1] {
        Resource::Markdown(m) => assert_eq!(m.get_text(), "# Welcome\nsome text\n"),
        _ => panic!("text expected"),
    }
    match &resources[0] {
        Resource::AppLink(l) => assert_eq!(l.get_target(), "Items"),
        _ => panic!("link expected"),
    }
    match &resources[2] {
        Resource::WebLink(l) => assert_eq!(l.get_url(), "https://example.org"),
        _ => panic!("web link expected"),
    }
    match &resources[3] {
        Resource::Markdown(m) => assert_eq!(m.get_text(), "more\n<Other=x,y>\nlast\n"),
        _ => panic!("text expected"),
    }
    match &resources[4] {
        Resource::Collection(c) => assert_eq!(
            c.resource_keys(),
            &vec![
                "inner_ROOT_md_0".to_string(),
                "Items_AppLink".to_string(),
                "Wiki".to_string(),
                "inner_ROOT_md_1".to_string()
            ]
        ),
        _ => panic!("page expected"),
    }
}

#[test]
fn an_empty_file_is_an_empty_page() {
    let resources = read_resource_file("Empty", "");
    assert_eq!(titles(&resources), vec!["Empty"]);
    match &resources[0] {
        Resource::Collection(c) => assert!(c.resource_keys().is_empty()),
        _ => panic!("page expected"),
    }
}

#[test]
fn files_are_read_into_the_subsystem() {
    let mut s = RessourcesSubsystem::new();
    s.load_resources(Ok(vec![
        ("ROOT".to_string(), "hello\n<AppLink=Items,Items>\n".to_string()),
        ("Items".to_string(), "<WebLink=Wiki,https://example.org>".to_string()),
    ]));
    assert_eq!(s.get_current_resource().map(|r| r.get_title()), Some("ROOT".to_string()));
    assert!(matches!(s.get_resource("Items"), Some(Resource::Collection(_))));
    assert!(matches!(s.get_resource("Items_AppLink"), Some(Resource::AppLink(_))));
    assert!(matches!(s.get_resource("Wiki"), Some(Resource::WebLink(_))));
    assert!(matches!(s.get_resource("inner_ROOT_md_0"), Some(Resource::Markdown(_))));
    assert!(s.get_resource("inner_Items_md_0").is_none());
    s.render_current_resource(Some("Items".to_string()));
    assert_eq!(s.get_current_resource().map(|r| r.get_title()), Some("Items".to_string()));
}

#[test]
fn a_failed_read_becomes_a_page_that_says_so() {
    let mut s = RessourcesSubsystem::new();
    s.load_resources(Err("no folder called \"resources\"".to_string()));
    match s.get_current_resource() {
        Some(Resource::Markdown(m)) => {
            assert_eq!(m.get_title(), "ROOT");
            assert_eq!(m.get_text(), "Error during .md file read: \nno folder called \"resources\"");
        }
        _ => panic!("the error page is shown"),
    }
}

#[test]
fn without_a_root_page_nothing_is_shown() {
    let mut s = RessourcesSubsystem::new();
    s.load_resources(Ok(vec![("Other".to_string(), "text".to_string())]));
    assert!(s.get_current_resource().is_none());
    let mut none = RessourcesSubsystem::new();
    none.parse_into_resources(vec![]);
    assert!(none.get_resource("ROOT").is_none());
}

fn plain(text: &str) -> TaggedLine {
    TaggedLine { text: text.to_string(), tag: None }
}

fn tagged(text: &str, kind: &str, label: &str, data: &str) -> TaggedLine {
    TaggedLine {
        text: text.to_string(),
        tag: Some(ResourceTag {
            res_type: kind.to_string(),
            res_text: label.to_string(),
            res_data: data.to_string(),
        }),
    }
}

#[test]
fn lines_with_their_tags_become_a_page() {
    let lines = vec![
        plain("intro"),
        tagged("<AppLink=Items,Items>", "AppLink", "Items", "Items"),
        tagged("<AppLink=Go,Items>", "AppLink", "Go", "Items"),
        tagged("<Other=x,y>", "Other", "x", "y"),
        tagged("<WebLink=Wiki,https://example.org>", "WebLink", "Wiki", "https://example.org"),
        plain("after the last link"),
    ];
    let resources = resources_of_lines("page", &lines);
    // each link is added before the text that it ends
    assert_eq!(
        titles(&resources),
        vec!["Items_AppLink", "inner_page_md_0", "Go", "Wiki", "inner_page_md_1", "inner_page_md_2", "page"]
    );
    match &resources[4] {
        // a tag of no known kind is text
        Resource::Markdown(m) => assert_eq!(m.get_text(), "<Other=x,y>\n"),
        _ => panic!("text expected"),
    }
    match &resources[5] {
        // what follows the last link is kept
        Resource::Markdown(m) => assert_eq!(m.get_text(), "after the last link\n"),
        _ => panic!("text expected"),
    }
    match &resources[6] {
        // on the page everything stands in the order of the file
        Resource::Collection(c) => assert_eq!(
            c.resource_keys(),
            &vec![
                "inner_page_md_0".to_string(),
                "Items_AppLink".to_string(),
                "Go".to_string(),
                "inner_page_md_1".to_string(),
                "Wiki".to_string(),
                "inner_page_md_2".to_string()
            ]
        ),
        _ => panic!("page expected"),
    }
}

#[test]
fn no_lines_make_an_empty_page() {
    let resources = resources_of_lines("empty", &Vec::new());
    assert_eq!(titles(&resources), vec!["empty"]);
    match &resources[0] {
        Resource::Collection(c) => assert!(c.resource_keys().is_empty()),
        _ => panic!("page expected"),
    }
}

#[test]
fn a_text_keeps_its_key_against_a_link_of_that_name() {
    // the link's text is the key that the text before it is about to get
    let mut subsystem = RessourcesSubsystem::new();
    subsystem.parse_into_resources(vec![(
        "ROOT".to_string(),
        "intro\n<WebLink=inner_ROOT_md_0,x>".to_string(),
    )]);
    match subsystem.get_resource("inner_ROOT_md_0") {
        Some(Resource::Markdown(m)) => assert_eq!(m.get_text(), "intro\n"),
        other => panic!("the text is expected under its key, found {:?}", other),
    }
    match subsystem.get_resource("ROOT") {
        Some(Resource::Collection(c)) => assert_eq!(
            c.resource_keys(),
            &vec!["inner_ROOT_md_0".to_string(), "inner_ROOT_md_0".to_string()]
        ),
        other => panic!("the page is expected, found {:?}", other),
    }
    let resources = read_resource_file("ROOT", "intro\n<WebLink=inner_ROOT_md_0,x>");
    assert_eq!(titles(&resources), vec!["inner_ROOT_md_0", "inner_ROOT_md_0", "ROOT"]);
    assert!(matches!(resources[0], Resource::WebLink(_)));
    assert!(matches!(resources[1], Resource::Markdown(_)));
}
