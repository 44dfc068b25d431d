use cargo_analyze::event::{BuildEvent, StreamError};
use cargo_analyze::kind::LibraryType;
use cargo_analyze::metadata::{interpret, Metadata};
use cargo_analyze::stream::{event_of, is_known_reason, stray_line, Record};

fn build_script_line(linked_libs: &[&str]) -> String {
    let quoted: Vec<String> = linked_libs.iter().map(|lib| format!("\"{}\"", lib)).collect();
    format!(
        "{{\"reason\":\"build-script-executed\",\"package_id\":\"demo 0.1.0 (path+file:///demo)\",\"linked_libs\":[{}],\"linked_paths\":[],\"cfgs\":[],\"env\":[],\"out_dir\":\"/demo/out\"}}\n",
        quoted.join(",")
    )
}

fn artifact_line(executable: Option<&str>) -> String {
    let executable = match executable {
        Some(path) => format!("\"{}\"", path),
        None => "null".to_string(),
    };
    format!(
        "{{\"reason\":\"compiler-artifact\",\"package_id\":\"demo 0.1.0 (path+file:///demo)\",\"manifest_path\":\"/demo/Cargo.toml\",\"target\":{{\"kind\":[\"bin\"],\"crate_types\":[\"bin\"],\"name\":\"demo\",\"src_path\":\"/demo/src/main.rs\",\"edition\":\"2021\",\"doc\":true,\"doctest\":false,\"test\":true}},\"profile\":{{\"opt_level\":\"0\",\"debuginfo\":2,\"debug_assertions\":true,\"overflow_checks\":true,\"test\":false}},\"features\":[],\"filenames\":[\"/demo/target/debug/demo\"],\"executable\":{},\"fresh\":false}}\n",
        executable
    )
}

fn names(metadata: &Metadata, kind: Option<LibraryType>) -> Vec<String> {
    metadata.linked_libs.names(kind)
}

#[test]
fn two_build_scripts_fill_known_and_unknown() {
    let mut output = String::new();
    output.push_str(&build_script_line(&["dylib=z", "z"]));
    output.push_str(&build_script_line(&["static=m"]));
    let metadata = Metadata::from_reader(output.as_bytes()).unwrap();
    assert_eq!(names(&metadata, Some(LibraryType::Dynamic)), vec!["z".to_string()]);
    assert_eq!(names(&metadata, Some(LibraryType::Static)), vec!["m".to_string()]);
    assert!(names(&metadata, Some(LibraryType::Framework)).is_empty());
    assert_eq!(names(&metadata, None), vec!["z".to_string()]);
    assert!(metadata.executables.is_empty());
    assert_eq!(metadata.linked_libs.render(), "static: { m }\ndylib: { z }\nunknown: { z }\n");
}

#[test]
fn two_build_script_events_fill_known_and_unknown() {
    let events = vec![
        BuildEvent::BuildScriptExecuted { linked_libs: vec!["dylib=z".to_string(), "z".to_string()] },
        BuildEvent::BuildScriptExecuted { linked_libs: vec!["static=m".to_string()] },
    ];
    let metadata = interpret(&events).unwrap();
    assert_eq!(names(&metadata, Some(LibraryType::Dynamic)), vec!["z".to_string()]);
    assert_eq!(names(&metadata, Some(LibraryType::Static)), vec!["m".to_string()]);
    assert_eq!(names(&metadata, None), vec!["z".to_string()]);
}

#[test]
fn executables_are_kept_in_order_and_not_deduplicated() {
    let mut output = String::new();
    output.push_str(&artifact_line(Some("/demo/target/debug/b")));
    output.push_str(&artifact_line(None));
    output.push_str(&artifact_line(Some("/demo/target/debug/a")));
    output.push_str(&artifact_line(Some("/demo/target/debug/b")));
    let metadata = Metadata::from_reader(output.as_bytes()).unwrap();
    assert_eq!(
        metadata.executables,
        vec![
            "/demo/target/debug/b".to_string(),
            "/demo/target/debug/a".to_string(),
            "/demo/target/debug/b".to_string(),
        ]
    );
    assert!(metadata.linked_libs.all_empty());
}

fn compiler_message_line() -> String {
    "{\"reason\":\"compiler-message\",\"package_id\":\"demo 0.1.0 (path+file:///demo)\",\"target\":{\"kind\":[\"bin\"],\"crate_types\":[\"bin\"],\"name\":\"demo\",\"src_path\":\"/demo/src/main.rs\",\"edition\":\"2021\"},\"message\":{\"message\":\"unused variable\",\"code\":null,\"level\":\"warning\",\"spans\":[],\"children\":[],\"rendered\":\"warning: unused variable [x]\\n\"}}\n".to_string()
}

#[test]
fn other_records_are_ignored() {
    let mut output = String::new();
    output.push_str("{\"reason\":\"build-finished\",\"success\":true}\n");
    output.push_str("{\"reason\":\"something-new\",\"field\":1}\n");
    output.push_str("{\"reason\":\"\"}\n");
    output.push_str(&compiler_message_line());
    output.push_str(&build_script_line(&[]));
    output.push_str(&build_script_line(&["framework=Security"]));
    let metadata = Metadata::from_reader(output.as_bytes()).unwrap();
    assert_eq!(names(&metadata, Some(LibraryType::Framework)), vec!["Security".to_string()]);
    assert_eq!(metadata.linked_libs.render(), "framework: { Security }\nunknown: \n");
}

#[test]
fn empty_output_gives_empty_metadata() {
    let metadata = Metadata::from_reader(b"").unwrap();
    assert!(metadata.linked_libs.all_empty());
    assert!(metadata.executables.is_empty());
    let fresh = Metadata::new();
    assert!(fresh.linked_libs.all_empty());
    assert!(fresh.executables.is_empty());
}

#[test]
fn last_line_needs_no_line_break() {
    let mut output = build_script_line(&["static=a"]);
    let last = build_script_line(&["static=b"]);
    output.push_str(last.trim_end());
    let metadata = Metadata::from_reader(output.as_bytes()).unwrap();
    assert_eq!(
        names(&metadata, Some(LibraryType::Static)),
        vec!["a".to_string(), "b".to_string()]
    );
}

#[test]
fn unreadable_record_is_a_protocol_error() {
    let mut output: Vec<u8> = build_script_line(&["static=a"]).into_bytes();
    output.extend_from_slice(&[0xff, 0xfe, b'\n']);
    output.extend_from_slice(build_script_line(&["static=b"]).as_bytes());
    assert!(matches!(Metadata::from_reader(&output), Err(StreamError::Protocol)));
}

#[test]
fn unknown_kind_is_a_link_grammar_error() {
    let output = build_script_line(&["static=a", "shared=b", "static=c"]);
    match Metadata::from_reader(output.as_bytes()) {
        Err(StreamError::LinkGrammar(kind)) => assert_eq!(kind, "shared"),
        other => panic!("unexpected outcome: {:?}", other),
    }
}

#[test]
fn record_stops_at_the_first_unknown_kind() {
    let mut metadata = Metadata::new();
    let event = BuildEvent::BuildScriptExecuted {
        linked_libs: vec!["static=a".to_string(), "=b".to_string(), "static=c".to_string()],
    };
    match metadata.record(&event) {
        Err(StreamError::LinkGrammar(kind)) => assert_eq!(kind, ""),
        other => panic!("unexpected outcome: {:?}", other),
    }
    assert_eq!(names(&metadata, Some(LibraryType::Static)), vec!["a".to_string()]);
}

#[test]
fn record_takes_events_one_by_one() {
    let mut metadata = Metadata::new();
    assert!(metadata.record(&BuildEvent::Other).is_ok());
    assert!(metadata
        .record(&BuildEvent::CompilerArtifactProduced { executable: Some("x".to_string()) })
        .is_ok());
    assert!(metadata.record(&BuildEvent::CompilerArtifactProduced { executable: None }).is_ok());
    assert!(metadata
        .record(&BuildEvent::BuildScriptExecuted { linked_libs: vec!["z".to_string()] })
        .is_ok());
    assert_eq!(metadata.executables, vec!["x".to_string()]);
    assert_eq!(names(&metadata, None), vec!["z".to_string()]);
}

fn read_one(line: &str) -> Result<Metadata, StreamError> {
    let mut output = build_script_line(&["static=a"]);
    output.push_str(line);
    output.push('\n');
    output.push_str(&build_script_line(&["static=b"]));
    Metadata::from_reader(output.as_bytes())
}

#[test]
fn line_of_plain_text_is_a_protocol_error() {
    assert!(matches!(read_one("   Compiling demo v0.1.0"), Err(StreamError::Protocol)));
    assert!(matches!(read_one(""), Err(StreamError::Protocol)));
    assert!(matches!(read_one("{\"reason\":\"something-new\""), Err(StreamError::Protocol)));
}

#[test]
fn line_without_kind_is_a_protocol_error() {
    assert!(matches!(read_one("{}"), Err(StreamError::Protocol)));
    assert!(matches!(read_one("{\"success\":true}"), Err(StreamError::Protocol)));
    assert!(matches!(read_one("{\"reason\":1}"), Err(StreamError::Protocol)));
    assert!(matches!(read_one("[\"reason\"]"), Err(StreamError::Protocol)));
    assert!(matches!(read_one("\"reason\""), Err(StreamError::Protocol)));
    assert!(matches!(read_one("17"), Err(StreamError::Protocol)));
}

#[test]
fn record_of_known_kind_without_its_fields_is_a_protocol_error() {
    assert!(matches!(
        read_one("{\"reason\":\"build-script-executed\"}"),
        Err(StreamError::Protocol)
    ));
    assert!(matches!(
        read_one("{\"reason\":\"compiler-artifact\",\"executable\":\"/demo\"}"),
        Err(StreamError::Protocol)
    ));
    assert!(matches!(
        read_one("{\"reason\":\"build-finished\",\"success\":\"yes\"}"),
        Err(StreamError::Protocol)
    ));
    assert!(matches!(read_one("{\"reason\":\"compiler-message\"}"), Err(StreamError::Protocol)));
}

#[test]
fn record_of_unknown_kind_is_passed_over() {
    let metadata = read_one("{\"reason\":\"something-new\",\"linked_libs\":[\"static=c\"]}").unwrap();
    assert_eq!(
        names(&metadata, Some(LibraryType::Static)),
        vec!["a".to_string(), "b".to_string()]
    );
}

#[test]
fn known_reasons_are_those_of_the_build_tool() {
    assert!(is_known_reason("compiler-artifact"));
    assert!(is_known_reason("compiler-message"));
    assert!(is_known_reason("build-script-executed"));
    assert!(is_known_reason("build-finished"));
    assert!(!is_known_reason("text-line"));
    assert!(!is_known_reason(""));
    assert!(!is_known_reason("Build-Finished"));
}

#[test]
fn stray_line_is_an_event_only_under_an_unknown_kind() {
    assert!(matches!(stray_line(Some("something-new".to_string())), Ok(BuildEvent::Other)));
    assert!(matches!(stray_line(Some(String::new())), Ok(BuildEvent::Other)));
    assert!(matches!(stray_line(Some("build-finished".to_string())), Err(StreamError::Protocol)));
    assert!(matches!(stray_line(None), Err(StreamError::Protocol)));
}

#[test]
fn record_stands_for_its_event() {
    let event = BuildEvent::CompilerArtifactProduced { executable: Some("x".to_string()) };
    match event_of(Record::Event(event)) {
        Ok(BuildEvent::CompilerArtifactProduced { executable }) => {
            assert_eq!(executable, Some("x".to_string()))
        }
        other => panic!("unexpected outcome: {:?}", other),
    }
    assert!(matches!(
        event_of(Record::Text("{\"reason\":\"something-new\"}".to_string())),
        Ok(BuildEvent::Other)
    ));
    assert!(matches!(
        event_of(Record::Text("{\"reason\":\"build-finished\"}".to_string())),
        Err(StreamError::Protocol)
    ));
    assert!(matches!(
        event_of(Record::Text("{\"other\":\"something-new\"}".to_string())),
        Err(StreamError::Protocol)
    ));
    assert!(matches!(event_of(Record::Text("hello".to_string())), Err(StreamError::Protocol)));
}
