use zed_flatbuffers::settings::{configured_path, BinarySettings, ToolSettings};

#[test]
fn configured_path_is_taken_as_written() {
    let settings = ToolSettings { binary: Some(BinarySettings { path: Some(" ~/bin/fls ".to_string()) }) };
    assert_eq!(configured_path(Some(settings)), Some(" ~/bin/fls ".to_string()));
}

#[test]
fn configured_path_needs_every_level() {
    assert_eq!(configured_path(None), None);
    assert_eq!(configured_path(Some(ToolSettings { binary: None })), None);
    assert_eq!(
        configured_path(Some(ToolSettings { binary: Some(BinarySettings { path: None }) })),
        None
    );
}

#[test]
fn configured_path_may_not_be_empty() {
    let settings = ToolSettings { binary: Some(BinarySettings { path: Some(String::new()) }) };
    assert_eq!(configured_path(Some(settings)), None);
}
