use cargo_analyze::descriptor::{find_equals, parse_library_output, try_parse_library_output};
use cargo_analyze::kind::LibraryType;

#[test]
fn declaration_with_kind_gives_kind_and_name() {
    assert_eq!(
        parse_library_output("dylib=z".to_string()),
        (Some(LibraryType::Dynamic), "z".to_string())
    );
    assert_eq!(
        parse_library_output("static=z".to_string()),
        (Some(LibraryType::Static), "z".to_string())
    );
    assert_eq!(
        parse_library_output("framework=Security".to_string()),
        (Some(LibraryType::Framework), "Security".to_string())
    );
}

#[test]
fn declaration_without_kind_is_handed_back_unchanged() {
    assert_eq!(parse_library_output("z".to_string()), (None, "z".to_string()));
    assert_eq!(parse_library_output(String::new()), (None, String::new()));
    assert_eq!(parse_library_output("static".to_string()), (None, "static".to_string()));
}

#[test]
fn only_the_first_equals_sign_counts() {
    assert_eq!(
        parse_library_output("static=a=b".to_string()),
        (Some(LibraryType::Static), "a=b".to_string())
    );
    assert_eq!(
        parse_library_output("dylib==".to_string()),
        (Some(LibraryType::Dynamic), "=".to_string())
    );
}

#[test]
fn name_may_be_empty() {
    assert_eq!(
        parse_library_output("static=".to_string()),
        (Some(LibraryType::Static), String::new())
    );
}

#[test]
fn names_keep_characters_of_any_width() {
    assert_eq!(
        parse_library_output("dylib=gr\u{fc}\u{df}e\u{1f600}".to_string()),
        (Some(LibraryType::Dynamic), "gr\u{fc}\u{df}e\u{1f600}".to_string())
    );
    assert_eq!(
        parse_library_output("\u{fc}ber".to_string()),
        (None, "\u{fc}ber".to_string())
    );
}

#[test]
fn unknown_kind_is_refused_with_its_text() {
    assert_eq!(try_parse_library_output("shared=z".to_string()), Err("shared".to_string()));
    assert_eq!(try_parse_library_output("=z".to_string()), Err(String::new()));
    assert_eq!(try_parse_library_output("\u{fc}=z".to_string()), Err("\u{fc}".to_string()));
    assert_eq!(try_parse_library_output("z=static".to_string()), Err("z".to_string()));
}

#[test]
fn known_kind_is_accepted_by_the_checked_reader() {
    assert_eq!(
        try_parse_library_output("dylib=z".to_string()),
        Ok((Some(LibraryType::Dynamic), "z".to_string()))
    );
    assert_eq!(try_parse_library_output("z".to_string()), Ok((None, "z".to_string())));
}

#[test]
fn equals_sign_is_found_by_character() {
    assert_eq!(find_equals(""), None);
    assert_eq!(find_equals("abc"), None);
    assert_eq!(find_equals("=abc"), Some(0));
    assert_eq!(find_equals("ab=c=d"), Some(2));
    assert_eq!(find_equals("\u{fc}\u{1f600}=c"), Some(2));
}
