use cargo_analyze::descriptor::parse_library_output;
use cargo_analyze::kind::LibraryType;
use cargo_analyze::linked_libs::LinkedLibs;
use cargo_analyze::name_set::{set_to_string, NameSet};
use cargo_analyze::names::comes_before;

fn set_of(names: &[&str]) -> NameSet {
    let mut set = NameSet::new();
    for name in names {
        set.insert(name.to_string());
    }
    set
}

#[test]
fn new_collection_is_empty_and_shows_nothing() {
    let libs = LinkedLibs::new();
    assert!(libs.all_empty());
    assert_eq!(libs.render(), "");
    let libs = LinkedLibs::default();
    assert!(libs.all_empty());
    assert_eq!(libs.render(), "");
}

#[test]
fn collection_is_not_empty_after_any_add() {
    for kind in [
        None,
        Some(LibraryType::Static),
        Some(LibraryType::Dynamic),
        Some(LibraryType::Framework),
    ] {
        let mut libs = LinkedLibs::new();
        assert!(libs.add(kind, "z".to_string()));
        assert!(!libs.all_empty());
        assert!(libs.add(kind, "y".to_string()));
        assert!(!libs.all_empty());
    }
}

#[test]
fn adding_twice_returns_true_then_false() {
    let mut libs = LinkedLibs::new();
    assert!(libs.add(Some(LibraryType::Dynamic), "z".to_string()));
    let once = libs.render();
    assert!(!libs.add(Some(LibraryType::Dynamic), "z".to_string()));
    assert_eq!(libs.render(), once);
    assert!(libs.add(None, "z".to_string()));
    let once = libs.render();
    assert!(!libs.add(None, "z".to_string()));
    assert_eq!(libs.render(), once);
}

#[test]
fn same_name_under_different_kinds_is_kept_under_each() {
    let mut libs = LinkedLibs::new();
    assert!(libs.add(Some(LibraryType::Static), "z".to_string()));
    assert!(libs.add(Some(LibraryType::Dynamic), "z".to_string()));
    assert!(libs.add(Some(LibraryType::Framework), "z".to_string()));
    assert!(libs.add(None, "z".to_string()));
    assert_eq!(
        libs.render(),
        "static: { z }\ndylib: { z }\nframework: { z }\nunknown: { z }\n"
    );
}

#[test]
fn rendering_twice_gives_the_same_text() {
    let mut libs = LinkedLibs::new();
    libs.add(Some(LibraryType::Static), "b".to_string());
    libs.add(Some(LibraryType::Static), "a".to_string());
    libs.add(None, "c".to_string());
    assert_eq!(libs.render(), libs.render());
    assert_eq!(libs.render(), "static: { a, b }\nunknown: { c }\n");
}

#[test]
fn names_are_shown_in_order_whatever_the_order_of_insertion() {
    let orders: [[&str; 4]; 4] = [
        ["a", "b", "c", "d"],
        ["d", "c", "b", "a"],
        ["b", "d", "a", "c"],
        ["c", "a", "d", "b"],
    ];
    for order in orders {
        let mut libs = LinkedLibs::new();
        for name in order {
            libs.add(Some(LibraryType::Dynamic), name.to_string());
        }
        assert_eq!(libs.render(), "dylib: { a, b, c, d }\nunknown: \n");
        assert_eq!(
            libs.names(Some(LibraryType::Dynamic)),
            vec!["a".to_string(), "b".to_string(), "c".to_string(), "d".to_string()]
        );
    }
}

#[test]
fn kinds_are_shown_in_their_order_whatever_the_order_of_insertion() {
    let mut libs = LinkedLibs::new();
    libs.add(Some(LibraryType::Framework), "Security".to_string());
    libs.add(None, "m".to_string());
    libs.add(Some(LibraryType::Dynamic), "z".to_string());
    libs.add(Some(LibraryType::Static), "ssl".to_string());
    assert_eq!(
        libs.render(),
        "static: { ssl }\ndylib: { z }\nframework: { Security }\nunknown: { m }\n"
    );
}

#[test]
fn line_of_names_without_kind_is_there_even_if_empty() {
    let mut libs = LinkedLibs::new();
    libs.add(Some(LibraryType::Static), "z".to_string());
    assert_eq!(libs.render(), "static: { z }\nunknown: \n");
}

#[test]
fn only_names_without_kind_show_one_line() {
    let mut libs = LinkedLibs::new();
    libs.add(None, "z".to_string());
    libs.add(None, "a".to_string());
    assert_eq!(libs.render(), "unknown: { a, z }\n");
}

#[test]
fn parsed_declaration_is_shown_under_its_kind() {
    let (kind, name) = parse_library_output("static=z".to_string());
    let mut libs = LinkedLibs::new();
    assert!(libs.add(kind, name));
    let text = libs.render();
    assert_eq!(text.lines().next(), Some("static: { z }"));
    assert_eq!(text, "static: { z }\nunknown: \n");
}

#[test]
fn names_of_an_untouched_kind_are_none() {
    let mut libs = LinkedLibs::new();
    libs.add(Some(LibraryType::Static), "z".to_string());
    assert!(libs.names(Some(LibraryType::Dynamic)).is_empty());
    assert!(libs.names(None).is_empty());
    assert_eq!(libs.names(Some(LibraryType::Static)), vec!["z".to_string()]);
}

#[test]
fn clone_holds_the_same_and_is_independent() {
    let mut libs = LinkedLibs::new();
    libs.add(Some(LibraryType::Static), "z".to_string());
    let mut copy = libs.clone();
    assert_eq!(copy.render(), libs.render());
    assert!(!copy.add(Some(LibraryType::Static), "z".to_string()));
    assert!(copy.add(None, "a".to_string()));
    assert_eq!(libs.render(), "static: { z }\nunknown: \n");
    assert_eq!(copy.render(), "static: { z }\nunknown: { a }\n");
}

#[test]
fn order_of_names_is_by_character() {
    assert!(comes_before("a", "b"));
    assert!(!comes_before("b", "a"));
    assert!(!comes_before("a", "a"));
    assert!(comes_before("", "a"));
    assert!(!comes_before("a", ""));
    assert!(!comes_before("", ""));
    assert!(comes_before("ab", "abc"));
    assert!(!comes_before("abc", "ab"));
    assert!(comes_before("Z", "a"));
    assert!(comes_before("abc", "abd"));
    assert!(comes_before("z", "\u{e9}"));
    assert!(comes_before("\u{ffff}", "\u{10000}"));
}

#[test]
fn order_of_names_is_that_of_strings() {
    let names = ["", "a", "A", "ab", "abc", "b", "z", "\u{e9}", "\u{ffff}", "\u{10000}", "libz.so.1"];
    for left in names {
        for right in names {
            assert_eq!(comes_before(left, right), left < right, "{:?} and {:?}", left, right);
        }
    }
}

#[test]
fn set_is_shown_between_braces() {
    assert_eq!(set_to_string(&set_of(&[])), "");
    assert_eq!(set_to_string(&set_of(&["z"])), "{ z }");
    assert_eq!(set_to_string(&set_of(&["b", "a"])), "{ a, b }");
    assert_eq!(set_to_string(&set_of(&["c", "a", "b", "a"])), "{ a, b, c }");
}

#[test]
fn set_holds_each_name_once() {
    let mut set = NameSet::new();
    assert!(set.is_empty());
    assert!(set.insert("m".to_string()));
    assert!(!set.is_empty());
    assert!(set.insert("a".to_string()));
    assert!(set.insert("z".to_string()));
    assert!(!set.insert("m".to_string()));
    assert!(!set.insert("a".to_string()));
    assert!(!set.insert("z".to_string()));
    assert_eq!(set.names(), vec!["a".to_string(), "m".to_string(), "z".to_string()]);
    let copy = set.clone();
    assert_eq!(copy.names(), set.names());
}
