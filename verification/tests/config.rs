use towa::config::{parse_config, serialize_config, update_cepton_path};
use towa::config::{CeptonConfig, ToolsConfig, TowaConfig};

fn sample_config(sdk_path: Option<&str>) -> TowaConfig {
    TowaConfig {
        version: "1.0".to_string(),
        tools: ToolsConfig {
            c_compiler: "clang".to_string(),
            rust_toolchain: "nightly".to_string(),
            cmake_version: "3.28".to_string(),
        },
        cepton: CeptonConfig {
            sdk_path: sdk_path.map(|p| p.to_string()),
            sdk_version: "2.1".to_string(),
            auto_update: true,
        },
    }
}

#[test]
fn round_trip_without_sdk_path() {
    let cfg = sample_config(None);
    let text = serialize_config(&cfg);
    let back = parse_config(&text).expect("canonical text must parse");
    assert_eq!(back, cfg);
}

#[test]
fn round_trip_with_sdk_path() {
    let cfg = sample_config(Some("/x/y"));
    let text = serialize_config(&cfg);
    let back = parse_config(&text).expect("canonical text must parse");
    assert_eq!(back, cfg);
}

#[test]
fn round_trip_of_defaults() {
    let cfg = TowaConfig::default();
    let text = serialize_config(&cfg);
    let back = parse_config(&text).expect("canonical text must parse");
    assert_eq!(back, cfg);
}

#[test]
fn default_values_are_the_built_in_ones() {
    let cfg = TowaConfig::default();
    assert_eq!(cfg.version, "1.0");
    assert_eq!(cfg.tools.c_compiler, "gcc");
    assert_eq!(cfg.tools.rust_toolchain, "stable");
    assert_eq!(cfg.tools.cmake_version, "latest");
    assert_eq!(cfg.cepton.sdk_path, None);
    assert_eq!(cfg.cepton.sdk_version, "latest");
    assert!(!cfg.cepton.auto_update);
}

#[test]
fn default_serialized_text_is_canonical() {
    let text = serialize_config(&TowaConfig::default());
    assert_eq!(
        text,
        "version = \"1.0\"\n\n[tools]\nc_compiler = \"gcc\"\nrust_toolchain = \"stable\"\ncmake_version = \"latest\"\n\n[cepton]\nsdk_version = \"latest\"\nauto_update = false\n"
    );
}

#[test]
fn serialized_text_with_sdk_path() {
    let text = serialize_config(&sample_config(Some("/x/y")));
    assert_eq!(
        text,
        "version = \"1.0\"\n\n[tools]\nc_compiler = \"clang\"\nrust_toolchain = \"nightly\"\ncmake_version = \"3.28\"\n\n[cepton]\nsdk_path = \"/x/y\"\nsdk_version = \"2.1\"\nauto_update = true\n"
    );
}

#[test]
fn parse_of_handwritten_document() {
    let text = "version = \"2.0\"\n\n[tools]\nc_compiler = \"gcc\"\nrust_toolchain = \"stable\"\ncmake_version = \"latest\"\n\n[cepton]\nsdk_path = \"/opt/cepton_sdk\"\nsdk_version = \"latest\"\nauto_update = true\n";
    let cfg = parse_config(text).expect("canonical text must parse");
    assert_eq!(cfg.version, "2.0");
    assert_eq!(cfg.cepton.sdk_path.as_deref(), Some("/opt/cepton_sdk"));
    assert!(cfg.cepton.auto_update);
}

#[test]
fn corrupt_file_falls_back_to_none() {
    assert_eq!(parse_config("garbage"), None);
    assert_eq!(parse_config(""), None);
    assert_eq!(parse_config("version = "), None);
    assert_eq!(parse_config("version = \"1.0\""), None);
    assert_eq!(parse_config("\u{0}\u{1}\u{2}binary junk\u{3}"), None);
    assert_eq!(parse_config("{\"version\": \"1.0\"}"), None);
}

#[test]
fn trailing_garbage_is_rejected() {
    let mut text = serialize_config(&TowaConfig::default());
    text.push_str("extra = \"junk\"\n");
    assert_eq!(parse_config(&text), None);
}

#[test]
fn empty_version_is_rejected() {
    let text = "version = \"\"\n\n[tools]\nc_compiler = \"gcc\"\nrust_toolchain = \"stable\"\ncmake_version = \"latest\"\n\n[cepton]\nsdk_version = \"latest\"\nauto_update = false\n";
    assert_eq!(parse_config(text), None);
}

#[test]
fn round_trip_with_quotes_and_backslashes() {
    let cfg = sample_config(Some("C:\\my \"sdk\" dir\\cepton"));
    let text = serialize_config(&cfg);
    let back = parse_config(&text).expect("escaped values must parse back");
    assert_eq!(back, cfg);
}

#[test]
fn quotes_and_backslashes_are_escaped_in_the_document() {
    let cfg = sample_config(Some("a\"b\\c"));
    let text = serialize_config(&cfg);
    assert!(text.contains("sdk_path = \"a\\\"b\\\\c\"\n"));
}

#[test]
fn parse_of_handwritten_escaped_document() {
    let text = "version = \"1.0\"\n\n[tools]\nc_compiler = \"gcc\"\nrust_toolchain = \"stable\"\ncmake_version = \"latest\"\n\n[cepton]\nsdk_path = \"C:\\\\Program Files\\\\CeptonSDK\"\nsdk_version = \"latest\"\nauto_update = false\n";
    let cfg = parse_config(text).expect("escaped document must parse");
    assert_eq!(
        cfg.cepton.sdk_path.as_deref(),
        Some("C:\\Program Files\\CeptonSDK")
    );
}

#[test]
fn unknown_escape_is_treated_as_corrupt() {
    let text = "version = \"1.0\"\n\n[tools]\nc_compiler = \"g\\ncc\"\nrust_toolchain = \"stable\"\ncmake_version = \"latest\"\n\n[cepton]\nsdk_version = \"latest\"\nauto_update = false\n";
    assert_eq!(parse_config(text), None);
}

#[test]
fn update_sdk_path_with_quoted_path_still_round_trips() {
    let cfg = update_cepton_path(None, "/odd/\"quoted\"/path".to_string());
    let text = serialize_config(&cfg);
    let back = parse_config(&text).expect("the saved document must load back");
    assert_eq!(back, cfg);
    assert_eq!(back.cepton.sdk_path.as_deref(), Some("/odd/\"quoted\"/path"));
}

#[test]
fn update_sdk_path_without_config_starts_from_defaults() {
    let cfg = update_cepton_path(None, "/opt/x".to_string());
    assert_eq!(cfg.cepton.sdk_path.as_deref(), Some("/opt/x"));
    assert_eq!(cfg.version, "1.0");
    assert_eq!(cfg.tools.c_compiler, "gcc");
    assert_eq!(cfg.tools.rust_toolchain, "stable");
    assert_eq!(cfg.tools.cmake_version, "latest");
    assert_eq!(cfg.cepton.sdk_version, "latest");
    assert!(!cfg.cepton.auto_update);
}

#[test]
fn update_sdk_path_keeps_other_fields() {
    let base = sample_config(Some("/old"));
    let cfg = update_cepton_path(Some(base.clone()), "/new".to_string());
    assert_eq!(cfg.cepton.sdk_path.as_deref(), Some("/new"));
    assert_eq!(cfg.version, base.version);
    assert_eq!(cfg.tools, base.tools);
    assert_eq!(cfg.cepton.sdk_version, base.cepton.sdk_version);
    assert_eq!(cfg.cepton.auto_update, base.cepton.auto_update);
}

#[test]
fn reparse_after_resave_is_stable() {
    let text = serialize_config(&sample_config(Some("/x/y")));
    let cfg = parse_config(&text).expect("canonical text must parse");
    assert_eq!(serialize_config(&cfg), text);
}
