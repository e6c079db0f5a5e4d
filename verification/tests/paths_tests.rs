use rbx_bytesize_ncdu::paths::{classify_input_path, output_path_ok, InputKind};

#[test]
fn place_extensions_are_recognized() {
    assert_eq!(classify_input_path("game.rbxl"), InputKind::Place);
    assert_eq!(classify_input_path("game.rbxlx"), InputKind::Place);
    assert_eq!(classify_input_path("dir.with.dots/game.v2.rbxl"), InputKind::Place);
}

#[test]
fn model_extensions_are_recognized() {
    assert_eq!(classify_input_path("part.rbxm"), InputKind::Model);
    assert_eq!(classify_input_path("part.rbxmx"), InputKind::Model);
}

#[test]
fn other_extensions_are_rejected() {
    assert_eq!(classify_input_path("game.json"), InputKind::Unrecognized);
    assert_eq!(classify_input_path("game.rbx"), InputKind::Unrecognized);
    assert_eq!(classify_input_path("game.rbxl.bak"), InputKind::Unrecognized);
    assert_eq!(classify_input_path(""), InputKind::Unrecognized);
}

#[test]
fn extension_of_dotless_path_is_the_whole_path() {
    assert_eq!(classify_input_path("rbxl"), InputKind::Place);
    assert_eq!(classify_input_path("game"), InputKind::Unrecognized);
}

#[test]
fn output_path_must_end_in_json() {
    assert!(output_path_ok("report.json"));
    assert!(output_path_ok(".json"));
    assert!(!output_path_ok("report.js"));
    assert!(!output_path_ok("json"));
    assert!(!output_path_ok("report.json.bak"));
}
