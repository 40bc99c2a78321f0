use beetmash::build_web::{Args, BuildBeetmashWeb};
use beetmash::scene_format::{SceneFormat, UnrecognizedExtension};
use beetmash::text::{ends_with, push_decimal, starts_with, to_decimal};
use beetmash::type_info::{
    SerdeArrayInfo, SerdeEnumInfo, SerdeListInfo, SerdeMapInfo, SerdeNamedField, SerdeOpaqueInfo,
    SerdeSetInfo, SerdeStructInfo, SerdeStructVariantInfo, SerdeTupleInfo, SerdeTupleStructInfo,
    SerdeTupleVariantInfo, SerdeTypeInfo, SerdeUnitVariantInfo, SerdeUnnamedField, SerdeVariantInfo,
};

#[test]
fn decimal_numerals() {
    assert_eq!(to_decimal(0), "0");
    assert_eq!(to_decimal(7), "7");
    assert_eq!(to_decimal(10), "10");
    assert_eq!(to_decimal(109), "109");
    assert_eq!(to_decimal(1234567890), "1234567890");
    assert_eq!(to_decimal(usize::MAX), usize::MAX.to_string());
    let mut text = String::from("n = ");
    push_decimal(&mut text, 42);
    assert_eq!(text, "n = 42");
}

#[test]
fn prefixes_and_suffixes() {
    assert!(starts_with("bevy_text::text::CosmicBuffer<T>", "bevy_text::text::CosmicBuffer"));
    assert!(starts_with("abc", ""));
    assert!(starts_with("", ""));
    assert!(!starts_with("ab", "abc"));
    assert!(!starts_with("abd", "abc"));
    assert!(starts_with("äöü", "äö"));
    assert!(ends_with("scene.json", ".json"));
    assert!(ends_with("abc", ""));
    assert!(!ends_with("son", ".json"));
    assert!(!ends_with("scene.jsox", ".json"));
    assert!(ends_with("größe.ron", "ße.ron"));
}

#[test]
fn scene_format_by_extension() {
    assert_eq!(SceneFormat::Json.extension(), "json");
    assert_eq!(SceneFormat::Ron.extension(), "ron");
    assert_eq!(SceneFormat::default(), SceneFormat::Json);
    assert_eq!(SceneFormat::from_path("scenes/app.json"), Ok(SceneFormat::Json));
    assert_eq!(SceneFormat::from_path("scenes/app.ron"), Ok(SceneFormat::Ron));
    assert_eq!(SceneFormat::from_path(".json"), Ok(SceneFormat::Json));
    assert_eq!(SceneFormat::from_path("a.ron.json"), Ok(SceneFormat::Json));
    assert_eq!(SceneFormat::from_path("a.json.ron"), Ok(SceneFormat::Ron));
    assert_eq!(
        SceneFormat::from_path("scenes/app.txt"),
        Err(UnrecognizedExtension { path: "scenes/app.txt".to_string() })
    );
    assert!(SceneFormat::from_path("json").is_err());
    assert!(SceneFormat::from_path("app.JSON").is_err());
    assert!(SceneFormat::from_path("").is_err());
    assert!(SceneFormat::from_path("app.json ").is_err());
    let error = SceneFormat::from_path("scenes/app.txt").unwrap_err();
    assert_eq!(error.message(), "Unrecognized scene extension format: scenes/app.txt");
}

fn web_args(example: Option<&str>, crate_name: Option<&str>, release: bool, skip: bool) -> Args {
    Args::new(
        example.map(|s| s.to_string()),
        crate_name.map(|s| s.to_string()),
        "target/wasm".to_string(),
        release,
        skip,
        None,
        None,
        None,
    )
}

#[test]
fn web_build_paths() {
    let args = web_args(None, None, false, false);
    assert_eq!(args.app_name, "main");
    assert_eq!(args.wasm_bindgen_path_wasm(), "target/wasm/main_bg.wasm");
    assert_eq!(args.wasm_bindgen_path_js(), "target/wasm/main.js");
    assert_eq!(args.build_config(), "debug");
    assert_eq!(args.cargo_build_wasm_file(), "main.wasm");

    let args = web_args(Some("app"), Some("my_crate"), true, false);
    assert_eq!(args.app_name, "app");
    assert_eq!(args.example.as_deref(), Some("app"));
    assert_eq!(args.crate_name.as_deref(), Some("my_crate"));
    assert_eq!(args.wasm_bindgen_path_wasm(), "target/wasm/app_bg.wasm");
    assert_eq!(args.wasm_bindgen_path_js(), "target/wasm/app.js");
    assert_eq!(args.build_config(), "release");
    assert_eq!(args.cargo_build_wasm_file(), "examples/app.wasm");
    assert_eq!(BuildBeetmashWeb.name(), "build");
}

#[test]
fn web_build_arguments() {
    let args = web_args(None, None, false, false);
    assert_eq!(args.cargo_build_args(), vec!["build", "--target", "wasm32-unknown-unknown"]);
    assert!(args.runs_build());
    assert!(!args.runs_wasm_opt());

    let args = web_args(Some("app"), Some("my_crate"), true, false);
    assert_eq!(
        args.cargo_build_args(),
        vec![
            "build",
            "--target",
            "wasm32-unknown-unknown",
            "-p",
            "my_crate",
            "--release",
            "--example",
            "app"
        ]
    );
    assert_eq!(
        args.wasm_bindgen_args("target/wasm32-unknown-unknown/release/examples/app.wasm"),
        vec![
            "--out-name",
            "app",
            "--out-dir",
            "target/wasm",
            "--target",
            "web",
            "--no-typescript",
            "target/wasm32-unknown-unknown/release/examples/app.wasm"
        ]
    );
    assert!(args.runs_wasm_opt());
    assert_eq!(
        args.wasm_opt_args(),
        vec!["-Oz", "--output", "target/wasm/app_bg.wasm", "target/wasm/app_bg.wasm"]
    );

    let args = web_args(Some("app"), None, true, true);
    assert!(!args.runs_build());
    assert!(!args.runs_wasm_opt());
    assert_eq!(
        args.cargo_build_args(),
        vec!["build", "--target", "wasm32-unknown-unknown", "--release", "--example", "app"]
    );
}

#[test]
fn type_shapes_tell_their_tag() {
    let named = SerdeNamedField { name: "foo".into(), type_path: "f32".into(), docs: None };
    let unnamed = SerdeUnnamedField { index: 0, type_path: "u32".into(), docs: Some("d".into()) };
    let shapes = vec![
        SerdeTypeInfo::Struct(SerdeStructInfo { fields: vec![named.clone()] }),
        SerdeTypeInfo::TupleStruct(SerdeTupleStructInfo { fields: vec![unnamed.clone()] }),
        SerdeTypeInfo::Tuple(SerdeTupleInfo { fields: vec![unnamed.clone()] }),
        SerdeTypeInfo::List(SerdeListInfo { item_type_path: "u8".into() }),
        SerdeTypeInfo::Array(SerdeArrayInfo { item_type_path: "u8".into(), capacity: 4 }),
        SerdeTypeInfo::MapType(SerdeMapInfo {
            key_type_path: "u8".into(),
            value_type_path: "u16".into(),
        }),
        SerdeTypeInfo::SetType(SerdeSetInfo { value_type_path: "u8".into() }),
        SerdeTypeInfo::Enum(SerdeEnumInfo { variants: vec![] }),
        SerdeTypeInfo::Opaque(SerdeOpaqueInfo { item_type_path: "String".into() }),
    ];
    let tags: Vec<&str> = shapes.iter().map(|shape| shape.kind()).collect();
    assert_eq!(
        tags,
        vec!["struct", "tupleStruct", "tuple", "list", "array", "map", "set", "enum", "opaque"]
    );
    let variants = vec![
        SerdeVariantInfo::Struct(SerdeStructVariantInfo {
            name: "A".into(),
            fields: vec![named],
            docs: None,
        }),
        SerdeVariantInfo::Tuple(SerdeTupleVariantInfo {
            name: "B".into(),
            fields: vec![unnamed],
            docs: None,
        }),
        SerdeVariantInfo::Unit(SerdeUnitVariantInfo { name: "C".into(), docs: None }),
    ];
    let tags: Vec<&str> = variants.iter().map(|variant| variant.kind()).collect();
    assert_eq!(tags, vec!["struct", "tuple", "unit"]);
}
