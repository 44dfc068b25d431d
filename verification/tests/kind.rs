use cargo_analyze::kind::LibraryType;
use cargo_analyze::names::same_text;

#[test]
fn kinds_have_their_canonical_names() {
    assert_eq!(LibraryType::Static.as_str(), "static");
    assert_eq!(LibraryType::Dynamic.as_str(), "dylib");
    assert_eq!(LibraryType::Framework.as_str(), "framework");
}

#[test]
fn kinds_are_read_from_their_names() {
    assert_eq!(LibraryType::from_str("static"), Ok(LibraryType::Static));
    assert_eq!(LibraryType::from_str("dylib"), Ok(LibraryType::Dynamic));
    assert_eq!(LibraryType::from_str("framework"), Ok(LibraryType::Framework));
}

#[test]
fn other_names_are_handed_back() {
    assert_eq!(LibraryType::from_str("dynamic"), Err("dynamic".to_string()));
    assert_eq!(LibraryType::from_str("Static"), Err("Static".to_string()));
    assert_eq!(LibraryType::from_str(""), Err(String::new()));
    assert_eq!(LibraryType::from_str("static "), Err("static ".to_string()));
}

#[test]
fn names_read_back_as_their_kinds() {
    for kind in [LibraryType::Static, LibraryType::Dynamic, LibraryType::Framework] {
        assert_eq!(LibraryType::from_str(kind.as_str()), Ok(kind));
    }
}

#[test]
fn kinds_are_ordered_as_they_are_reported() {
    assert!(LibraryType::Static < LibraryType::Dynamic);
    assert!(LibraryType::Dynamic < LibraryType::Framework);
}

#[test]
fn same_text_compares_characters() {
    assert!(same_text("", ""));
    assert!(same_text("self", "self"));
    assert!(!same_text("self", "Self"));
    assert!(!same_text("self", "self "));
}
