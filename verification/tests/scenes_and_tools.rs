use beetmash::asset_ready::{ready_on_asset_load, AssetBlock, AssetKey};
use beetmash::events::{AppReady, AppStartup, OnAppMessage, OnUserMessage};
use beetmash::frame::{decode_frame, encode_frame, FRAME_HEADER_LEN};
use beetmash::line_order::{comes_before, insert_line, sorted_distinct};
use beetmash::message::MessagePayload;
use beetmash::registration::RegistrationId;
use beetmash::scene_checks::{
    ComponentPresence, DynamicSceneChecks, SceneMismatch, SceneObservation,
};
use beetmash::scene_export::{
    check_empty_scene, judge_empty_scene, scene_file_name, EmptySceneError,
};
use beetmash::scene_format::{SceneFormat, SpawnSceneFile};
use beetmash::screenshot::{screenshot_on_keypress, SaveScreenshot};
use beetmash::terminal::{
    excess_lines, log_app_ready, log_user_message, parse_text_input, OnLogMessage, TerminalKey,
    MAX_LINES,
};
use beetmash::typescript_exporter::{export_index, TypescriptExporter};

fn strings(items: &[&str]) -> Vec<String> {
    items.iter().map(|s| s.to_string()).collect()
}

fn observed(
    entities: (usize, usize),
    resources: (usize, usize),
    components: &[(&str, bool)],
) -> SceneObservation {
    SceneObservation {
        entities_world: entities.0,
        entities_scene: entities.1,
        resources_world: resources.0,
        resources_scene: resources.1,
        components: components
            .iter()
            .map(|(name, in_scene)| ComponentPresence { name: name.to_string(), in_scene: *in_scene })
            .collect(),
    }
}

#[test]
fn default_checks() {
    let checks = DynamicSceneChecks::default();
    assert!(checks.resource_checks && checks.entity_checks && checks.component_checks);
    assert_eq!(checks.num_ignored_resources, 176);
    assert_eq!(
        checks.allowed_ignores,
        strings(&[
            "bevy_text::text::CosmicBuffer",
            "beet_flow::observers::action_observer_map::ActionObserverMap",
            "bevy_ecs::observer::entity_observer::ObservedBy",
        ])
    );
    let checks = DynamicSceneChecks::new()
        .with_asset_checks(false)
        .with_entity_checks(false)
        .with_component_checks(false)
        .with_num_ignored_resources(3)
        .with_allowed_ignores(strings(&["a::B"]));
    assert!(!checks.resource_checks && !checks.entity_checks && !checks.component_checks);
    assert_eq!(checks.num_ignored_resources, 3);
    assert_eq!(checks.allowed_ignores, strings(&["a::B"]));
}

#[test]
fn ignored_resources_are_counted_within_bounds() {
    let checks = DynamicSceneChecks::new().with_num_ignored_resources(10);
    assert_eq!(checks.clone().add_ignored_resources(5).num_ignored_resources, 15);
    assert_eq!(checks.clone().add_ignored_resources(-4).num_ignored_resources, 6);
    assert_eq!(checks.clone().add_ignored_resources(-10).num_ignored_resources, 0);
    assert_eq!(checks.clone().add_ignored_resources(-11).num_ignored_resources, 0);
    assert_eq!(checks.clone().add_ignored_resources(isize::MIN).num_ignored_resources, 0);
    assert_eq!(checks.clone().add_ignored_resources(0).num_ignored_resources, 10);
    let high = DynamicSceneChecks::new().with_num_ignored_resources(usize::MAX - 1);
    assert_eq!(high.clone().add_ignored_resources(1).num_ignored_resources, usize::MAX);
    assert_eq!(high.clone().add_ignored_resources(isize::MAX).num_ignored_resources, usize::MAX);
    assert_eq!(
        high.add_ignored_resources(isize::MIN).num_ignored_resources,
        usize::MAX - 1 - (isize::MAX as usize) - 1
    );
}

#[test]
fn entity_and_resource_counts() {
    let checks = DynamicSceneChecks::new().with_num_ignored_resources(100);
    assert!(checks.check_entities(3, 3).is_empty());
    assert_eq!(checks.check_entities(3, 12), strings(&["Entity count mismatch: Expected 3, got 12"]));
    assert!(checks.check_resources(105, 5).is_empty());
    assert_eq!(
        checks.check_resources(107, 5),
        strings(&[
            "Resource count mismatch, received is off by 2.\nIf this was intentional add 2 to `DynamicSceneChecks::num_ignored_resources`."
        ])
    );
    assert_eq!(
        checks.check_resources(90, 5),
        strings(&[
            "Resource count mismatch, received is off by -15.\nIf this was intentional add -15 to `DynamicSceneChecks::num_ignored_resources`."
        ])
    );
}

#[test]
fn components_that_may_be_missing() {
    let checks = DynamicSceneChecks::new();
    assert!(checks.is_allowed_ignore("bevy_text::text::CosmicBuffer"));
    assert!(checks.is_allowed_ignore("bevy_ecs::observer::entity_observer::ObservedBy<T>"));
    assert!(!checks.is_allowed_ignore("bevy_text::text::Cosmic"));
    assert!(!checks.is_allowed_ignore("my::Component"));
    assert!(!DynamicSceneChecks::new().with_allowed_ignores(vec![]).is_allowed_ignore("a"));
    let components = observed(
        (0, 0),
        (0, 0),
        &[
            ("my::Present", true),
            ("my::Missing", false),
            ("bevy_text::text::CosmicBuffer", false),
            ("my::AlsoMissing", false),
        ],
    )
    .components;
    assert_eq!(
        checks.check_components(&components),
        strings(&["Unregistered component: my::Missing", "Unregistered component: my::AlsoMissing"])
    );
}

#[test]
fn a_scene_matches_if_no_check_finds_an_issue() {
    let checks = DynamicSceneChecks::new().with_num_ignored_resources(2);
    let good = observed((2, 2), (5, 3), &[("my::A", true)]);
    assert!(checks.assert_scene_match("app", &good).is_ok());

    let bad = observed((2, 3), (5, 4), &[("my::A", false)]);
    let mismatch: SceneMismatch = checks.assert_scene_match("app", &bad).unwrap_err();
    assert_eq!(mismatch.name, "app");
    assert_eq!(mismatch.issues.len(), 3);
    assert_eq!(
        mismatch.message(),
        "Entity count mismatch: Expected 2, got 3\nResource count mismatch, received is off by -1.\nIf this was intentional add -1 to `DynamicSceneChecks::num_ignored_resources`.\nUnregistered component: my::A\napp: 3 issues found"
    );

    let only_entities = checks.clone().with_asset_checks(false).with_component_checks(false);
    let mismatch = only_entities.assert_scene_match("scene", &bad).unwrap_err();
    assert_eq!(mismatch.message(), "Entity count mismatch: Expected 2, got 3\nscene: 1 issues found");
    let none = only_entities.with_entity_checks(false);
    assert!(none.assert_scene_match("scene", &bad).is_ok());
}

#[test]
fn a_scene_built_from_nothing_holds_nothing() {
    assert_eq!(check_empty_scene("{\"resources\":{},\"entities\":{}}"), Ok(()));
    assert_eq!(check_empty_scene("{\n  \"entities\": {},\n  \"resources\": {}\n}"), Ok(()));
    assert_eq!(
        check_empty_scene("{\"resources\":{\"a\":1},\"entities\":{}}"),
        Err(EmptySceneError::NotEmpty("{\"resources\":{\"a\":1},\"entities\":{}}".to_string()))
    );
    assert_eq!(check_empty_scene("{}"), Err(EmptySceneError::NotEmpty("{}".to_string())));
    match check_empty_scene("{\"resources\":") {
        Err(EmptySceneError::Malformed(text)) => assert!(!text.is_empty()),
        other => panic!("expected a malformed scene, got {:?}", other),
    }
    assert!(matches!(check_empty_scene(""), Err(EmptySceneError::Malformed(_))));
    assert_eq!(judge_empty_scene("{}", Ok(true)), Ok(()));
    assert_eq!(
        judge_empty_scene("{\"a\":1}", Ok(false)),
        Err(EmptySceneError::NotEmpty("{\"a\":1}".to_string()))
    );
    assert_eq!(
        judge_empty_scene("{", Err("EOF while parsing".to_string())),
        Err(EmptySceneError::Malformed("EOF while parsing".to_string()))
    );
}

#[test]
fn scene_files() {
    assert_eq!(scene_file_name("app", SceneFormat::Json), "app.json");
    assert_eq!(scene_file_name("empty", SceneFormat::Ron), "empty.ron");
    assert_eq!(scene_file_name("", SceneFormat::Ron), ".ron");
    let scene = SpawnSceneFile::ron("()".to_string());
    assert_eq!(scene, SpawnSceneFile::new(SceneFormat::Ron, "()".to_string()));
    let scene = SpawnSceneFile::json("{}".to_string());
    assert_eq!(scene.format, SceneFormat::Json);
    assert_eq!(scene.payload, "{}");
    let scene = SpawnSceneFile::from_file("scenes/a.json", "{}".to_string()).unwrap();
    assert_eq!(scene, SpawnSceneFile::json("{}".to_string()));
    let error = SpawnSceneFile::from_file("scenes/a.txt", "{}".to_string()).unwrap_err();
    assert_eq!(error.path, "scenes/a.txt");
}

#[test]
fn keys_edit_the_line_and_enter_sends_it() {
    let mut line = String::new();
    assert_eq!(parse_text_input(&mut line, &TerminalKey::Character("h".to_string())), None);
    assert_eq!(parse_text_input(&mut line, &TerminalKey::Character("iy".to_string())), None);
    assert_eq!(line, "hiy");
    assert_eq!(parse_text_input(&mut line, &TerminalKey::Backspace), None);
    assert_eq!(line, "hi");
    assert_eq!(parse_text_input(&mut line, &TerminalKey::Space), None);
    assert_eq!(parse_text_input(&mut line, &TerminalKey::Other), None);
    assert_eq!(line, "hi ");
    let sent = parse_text_input(&mut line, &TerminalKey::Enter);
    assert_eq!(sent, Some(OnUserMessage::new("hi ".to_string())));
    assert_eq!(line, "");
    assert_eq!(parse_text_input(&mut line, &TerminalKey::Backspace), None);
    assert_eq!(line, "");
    assert_eq!(parse_text_input(&mut line, &TerminalKey::Enter), Some(OnUserMessage(String::new())));
    let mut line = "aö".to_string();
    parse_text_input(&mut line, &TerminalKey::Backspace);
    assert_eq!(line, "a");
}

#[test]
fn the_terminal_keeps_twelve_lines() {
    assert_eq!(MAX_LINES, 12);
    assert_eq!(excess_lines(0), 0);
    assert_eq!(excess_lines(12), 0);
    assert_eq!(excess_lines(13), 1);
    assert_eq!(excess_lines(40), 28);
    assert_eq!(excess_lines(usize::MAX), usize::MAX - 12);
    assert_eq!(
        log_user_message(&OnUserMessage::new("hello".to_string())),
        OnLogMessage::new("User: hello".to_string())
    );
    assert_eq!(log_app_ready(), "Event: AppReady");
    assert_eq!(OnAppMessage("out".to_string()).0, "out");
    assert_eq!(AppStartup, AppStartup::default());
    assert_eq!(AppReady, AppReady::default());
}

#[test]
fn screenshots_are_numbered() {
    let mut counter = 0u32;
    assert_eq!(screenshot_on_keypress(0, true, true, &mut counter), None);
    assert_eq!(screenshot_on_keypress(1, false, true, &mut counter), None);
    assert_eq!(screenshot_on_keypress(1, true, false, &mut counter), None);
    assert_eq!(counter, 0);
    assert_eq!(
        screenshot_on_keypress(1, true, true, &mut counter),
        Some("target/screenshots/screenshot-0.png".to_string())
    );
    assert_eq!(counter, 1);
    let mut counter = 41u32;
    assert_eq!(
        screenshot_on_keypress(3, true, true, &mut counter),
        Some("target/screenshots/screenshot-41.png".to_string())
    );
    assert_eq!(counter, 42);
    assert_eq!(SaveScreenshot { filename: "a.png".into() }.filename, "a.png");
}

#[test]
fn texts_are_ordered_by_their_bytes() {
    assert!(comes_before("a", "b"));
    assert!(!comes_before("b", "a"));
    assert!(!comes_before("a", "a"));
    assert!(comes_before("", "a"));
    assert!(!comes_before("", ""));
    assert!(comes_before("a", "ab"));
    assert!(comes_before("Z", "a"));
    assert!(comes_before("a!", "a'"));
    assert!(comes_before("z", "ä"));
    for (left, right) in [("a", "b"), ("ab", "a"), ("", "x"), ("é", "e"), ("a b", "a'")] {
        assert_eq!(comes_before(left, right), left < right);
    }
}

#[test]
fn lines_are_sorted_and_kept_once() {
    let sorted = sorted_distinct(strings(&["b", "a", "c", "a", "b", "ab", ""]));
    assert_eq!(sorted, strings(&["", "a", "ab", "b", "c"]));
    assert!(sorted_distinct(vec![]).is_empty());
    let mut lines = strings(&["a", "c"]);
    insert_line(&mut lines, "b".to_string());
    insert_line(&mut lines, "c".to_string());
    insert_line(&mut lines, "d".to_string());
    insert_line(&mut lines, "".to_string());
    assert_eq!(lines, strings(&["", "a", "b", "c", "d"]));
}

#[test]
fn the_index_exports_each_file_once() {
    let exporter: TypescriptExporter<u8> = TypescriptExporter::new();
    assert_eq!(exporter.dir, "target/typescript");
    assert_eq!(exporter.index_path(), "target/typescript/index.ts");
    let paths = strings(&["SerdeTypeInfo.ts", "SerdeArrayInfo.ts", "SerdeTypeInfo.ts", "A!.ts", "A.ts"]);
    let expected = "export * from './A!.ts';\nexport * from './A.ts';\nexport * from './SerdeArrayInfo.ts';\nexport * from './SerdeTypeInfo.ts';";
    assert_eq!(exporter.export_index(&paths), expected);
    assert_eq!(export_index(&paths), expected);
    assert_eq!(export_index(&vec![]), "");
    assert_eq!(export_index(&strings(&["x"])), "export * from './x';");
    let mut by_std: Vec<String> =
        paths.iter().map(|p| format!("export * from './{}';", p)).collect();
    by_std.sort();
    by_std.dedup();
    assert_eq!(export_index(&paths), by_std.join("\n"));
}

#[test]
fn a_frame_is_the_identifier_then_the_payload() {
    assert_eq!(FRAME_HEADER_LEN, 8);
    let payload = MessagePayload::new(vec![7, 8, 9]);
    let frame = encode_frame(RegistrationId::new_with(0x0102), &payload);
    assert_eq!(frame, vec![2, 1, 0, 0, 0, 0, 0, 0, 7, 8, 9]);
    assert_eq!(decode_frame(&frame), Some((RegistrationId::new_with(0x0102), payload)));
    let empty = MessagePayload::new(vec![]);
    let frame = encode_frame(RegistrationId::new_with(usize::MAX), &empty);
    assert_eq!(frame.len(), 8);
    assert_eq!(frame, (usize::MAX as u64).to_le_bytes().to_vec());
    assert_eq!(decode_frame(&frame), Some((RegistrationId::new_with(usize::MAX), empty)));
    assert_eq!(decode_frame(&vec![1, 2, 3, 4, 5, 6, 7]), None);
    assert_eq!(decode_frame(&vec![]), None);
    assert_eq!(
        decode_frame(&vec![0, 0, 0, 0, 0, 0, 0, 1]),
        Some((RegistrationId::new_with(1usize << 56), MessagePayload::new(vec![])))
    );
}

#[test]
fn succeeds_exporting_empty_scene() {
    let checks = DynamicSceneChecks {
        resource_checks: false,
        entity_checks: true,
        component_checks: true,
        ..DynamicSceneChecks::default()
    };
    let empty = observed((0, 0), (176, 0), &[]);
    assert!(checks.assert_scene_match("empty", &empty).is_ok());
    assert_eq!(check_empty_scene("{\n  \"resources\": {},\n  \"entities\": {}\n}"), Ok(()));
    let app = observed((0, 0), (181, 0), &[]);
    assert!(checks.assert_scene_match("app", &app).is_ok());
    assert_eq!(scene_file_name("app", SceneFormat::default()), "app.json");
}

#[test]
fn the_app_is_ready_once_all_blocking_assets_have_loaded() {
    let a = AssetKey::Index(1);
    let b = AssetKey::Uuid(7);
    let c = AssetKey::Index(7);
    let blocks = vec![
        AssetBlock { entity: 10, asset: a },
        AssetBlock { entity: 11, asset: b },
        AssetBlock { entity: 12, asset: a },
    ];
    let outcome = ready_on_asset_load(&vec![], &blocks, 3);
    assert!(outcome.unblocked.is_empty());
    assert!(!outcome.app_ready);
    let outcome = ready_on_asset_load(&vec![a], &blocks, 3);
    assert_eq!(outcome.unblocked, vec![10, 12]);
    assert!(!outcome.app_ready);
    let outcome = ready_on_asset_load(&vec![b, c, a], &blocks, 3);
    assert_eq!(outcome.unblocked, vec![11, 10, 12]);
    assert!(outcome.app_ready);
    let outcome = ready_on_asset_load(&vec![b, a], &blocks, 4);
    assert!(!outcome.app_ready);
    let outcome = ready_on_asset_load(&vec![a, a], &blocks, 4);
    assert_eq!(outcome.unblocked, vec![10, 12, 10, 12]);
    assert!(outcome.app_ready);
    let outcome = ready_on_asset_load(&vec![a], &vec![], 0);
    assert!(!outcome.app_ready);
}
