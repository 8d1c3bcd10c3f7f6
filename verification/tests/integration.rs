use osrs_core::binary32::{Binary32, Reading};
use osrs_core::clock::reduce_millis;
use osrs_core::integration::{
    check_intent, check_snapshot, check_stage_timing, infer_region, infer_tutorial_phase,
    merge_snapshot_data, timing_budgets, validate_intent, validate_snapshot, ActionIntent,
    ActionTarget, Bounds, GatingConfig, NpcInfo, RuneliteData, SnapshotSchema, DECISION_MS,
    EXECUTION_MS, PERCEPTION_MS, RSPROX_POLL_MS, TOTAL_BUDGET_MS, VERIFICATION_MS,
};
use osrs_core::intent::{action_type_table, targeted_action_table};
use osrs_core::phase::phase_ranges;
use osrs_core::region::region_boxes;
use osrs_core::text::{str_eq, table_contains};
use osrs_core::timing::budget_for;
use osrs_core::types::Confidence;
use osrs_core::validation::ValidationResult;
use std::collections::HashMap;

fn reading(value: f32) -> Reading {
    Reading { value: Binary32::from_bits(value.to_bits()), text: value.to_string() }
}

fn intent(action_type: &str, target: ActionTarget, confidence: f32) -> ActionIntent {
    ActionIntent {
        intent_id: "t".to_string(),
        action_type: action_type.to_string(),
        target,
        confidence: reading(confidence),
        required_cues: vec![],
        gating: GatingConfig::default(),
        payload: HashMap::new(),
    }
}

fn at(x: i32, y: i32) -> ActionTarget {
    ActionTarget { x: Some(x), y: Some(y), ..Default::default() }
}

#[test]
fn test_validate_intent_valid() {
    let intent = ActionIntent {
        intent_id: "test_1".to_string(),
        action_type: "click".to_string(),
        target: ActionTarget { x: Some(100), y: Some(200), ..Default::default() },
        confidence: reading(0.9),
        required_cues: vec![],
        gating: GatingConfig::default(),
        payload: HashMap::new(),
    };

    let result = validate_intent(&intent);
    assert!(result.valid);
    assert!(result.errors.is_empty());
}

#[test]
fn test_validate_intent_missing_target() {
    let intent = ActionIntent {
        intent_id: "test_2".to_string(),
        action_type: "click".to_string(),
        target: ActionTarget::default(),
        confidence: reading(0.9),
        required_cues: vec![],
        gating: GatingConfig::default(),
        payload: HashMap::new(),
    };

    let result = validate_intent(&intent);
    assert!(!result.valid);
    assert!(result.errors.iter().any(|e| e.contains("requires target")));
}

#[test]
fn test_infer_region() {
    assert_eq!(infer_region(3100, 3100), "Tutorial Island");
    assert_eq!(infer_region(3222, 3218), "Lumbridge");
    assert_eq!(infer_region(3200, 3400), "Varrock");
    assert_eq!(infer_region(0, 0), "unknown");
}

#[test]
fn test_infer_tutorial_phase() {
    assert_eq!(infer_tutorial_phase(0), "character_creation");
    assert_eq!(infer_tutorial_phase(10), "gielinor_guide");
    assert_eq!(infer_tutorial_phase(50), "survival_expert");
    assert_eq!(infer_tutorial_phase(700), "completed");
}

#[test]
fn missing_target_message_names_the_action_type() {
    for kind in ["click", "interact", "walk", "drag"] {
        let errors = check_intent(&intent(kind, ActionTarget::default(), 0.5));
        assert_eq!(errors, vec![format!("Action type '{}' requires target", kind)]);
    }
}

#[test]
fn untargeted_kinds_need_no_target() {
    for kind in ["move", "key", "scroll", "wait", "dialogue", "inventory", "camera"] {
        let result = validate_intent(&intent(kind, ActionTarget::default(), 0.5));
        assert!(result.valid);
        assert!(result.errors.is_empty());
    }
}

#[test]
fn any_target_field_but_the_row_satisfies_a_click() {
    let named = ActionTarget { name: Some("Banker".to_string()), ..Default::default() };
    let element = ActionTarget { ui_element: Some("tab".to_string()), ..Default::default() };
    let npc = ActionTarget { npc_id: Some(7), ..Default::default() };
    let object = ActionTarget { object_id: Some(9), ..Default::default() };
    let column = ActionTarget { x: Some(1), ..Default::default() };
    for target in [named, element, npc, object, column] {
        assert!(target.has_target());
        assert!(validate_intent(&intent("click", target, 0.5)).valid);
    }
    let row_only = ActionTarget { y: Some(1), ..Default::default() };
    assert!(!row_only.has_target());
    let result = validate_intent(&intent("click", row_only, 0.5));
    assert!(!result.valid);
    assert_eq!(result.errors, vec!["Action type 'click' requires target".to_string()]);
}

#[test]
fn empty_action_type_is_a_missing_field() {
    let result = validate_intent(&intent("", at(1, 2), 0.5));
    assert!(!result.valid);
    assert_eq!(result.errors, vec!["Missing required field: action_type".to_string()]);
}

#[test]
fn unrecognised_action_type_is_invalid() {
    let result = validate_intent(&intent("fly", at(1, 2), 0.5));
    assert!(!result.valid);
    assert_eq!(result.errors, vec!["Invalid action_type: fly".to_string()]);
    let upper = validate_intent(&intent("Click", at(1, 2), 0.5));
    assert_eq!(upper.errors, vec!["Invalid action_type: Click".to_string()]);
}

#[test]
fn confidence_of_one_and_a_half_is_out_of_range() {
    for kind in ["click", "move", "", "fly"] {
        for target in [ActionTarget::default(), at(100, 200)] {
            let result = validate_intent(&intent(kind, target, 1.5));
            assert!(!result.valid);
            assert_eq!(result.errors.last().unwrap(), "Confidence out of range: 1.5");
        }
    }
}

#[test]
fn negative_confidence_is_out_of_range() {
    let result = validate_intent(&intent("move", ActionTarget::default(), -0.25));
    assert!(!result.valid);
    assert_eq!(result.errors, vec!["Confidence out of range: -0.25".to_string()]);
}

#[test]
fn confidence_bounds_are_included() {
    for c in [0.0f32, -0.0, 1.0, 0.5, f32::MIN_POSITIVE, 1.0e-45, 0.99999994] {
        let result = validate_intent(&intent("wait", ActionTarget::default(), c));
        assert!(result.valid, "{}", c);
    }
    for c in [1.0000001f32, 2.0, -1.0e-45, -1.0, f32::INFINITY, f32::NEG_INFINITY, f32::MAX] {
        let result = validate_intent(&intent("wait", ActionTarget::default(), c));
        assert!(!result.valid, "{}", c);
        assert_eq!(result.errors, vec![format!("Confidence out of range: {}", c)]);
    }
}

#[test]
fn a_confidence_that_is_no_number_is_out_of_range() {
    let result = validate_intent(&intent("wait", ActionTarget::default(), f32::NAN));
    assert!(!result.valid);
    assert_eq!(result.errors, vec!["Confidence out of range: NaN".to_string()]);
}

#[test]
fn unit_interval_agrees_with_the_order_of_numbers() {
    let samples = [
        0.0f32, -0.0, 1.0, -1.0, 0.5, 0.9, 1.5, 1.0000001, 0.99999994, 1.0e-45, -1.0e-45,
        f32::MIN_POSITIVE, f32::MAX, f32::MIN, f32::INFINITY, f32::NEG_INFINITY, f32::EPSILON,
        3.0e38, 1.0e-38, 0.1, 0.2, 0.3, 123.456, -0.000001,
    ];
    for x in samples {
        let inside = Binary32::from_bits(x.to_bits()).lies_in_unit_interval();
        assert_eq!(inside, 0.0 <= x && x <= 1.0, "{}", x);
    }
    assert!(!Binary32::from_bits(f32::NAN.to_bits()).lies_in_unit_interval());
    assert!(!Binary32::from_bits(0x7FC0_0001).lies_in_unit_interval());
    assert!(!Binary32::from_bits(0xFFFF_FFFF).lies_in_unit_interval());
    // A sweep over the encodings, 65521 apart.
    let mut bits: u32 = 0;
    loop {
        let x = f32::from_bits(bits);
        let inside = Binary32::from_bits(bits).lies_in_unit_interval();
        assert_eq!(inside, 0.0 <= x && x <= 1.0, "{:#x}", bits);
        match bits.checked_add(65_521) {
            Some(next) => bits = next,
            None => break,
        }
    }
}

#[test]
fn binary32_round_trips_its_encoding() {
    assert_eq!(Binary32::from_bits(0x3FC0_0000).to_bits(), 1.5f32.to_bits());
    assert_eq!(Binary32::zero().to_bits(), 0.0f32.to_bits());
    assert_eq!(f32::from_bits(Binary32::from_bits(0.9f32.to_bits()).to_bits()), 0.9);
}

#[test]
fn every_violation_is_collected() {
    let result = validate_intent(&intent("", ActionTarget::default(), 1.5));
    assert!(!result.valid);
    assert_eq!(
        result.errors,
        vec![
            "Missing required field: action_type".to_string(),
            "Confidence out of range: 1.5".to_string(),
        ]
    );
    let result = validate_intent(&intent("drag", ActionTarget::default(), -3.0));
    assert_eq!(
        result.errors,
        vec![
            "Action type 'drag' requires target".to_string(),
            "Confidence out of range: -3".to_string(),
        ]
    );
    let result = validate_intent(&intent("teleport", ActionTarget::default(), 7.0));
    assert_eq!(
        result.errors,
        vec![
            "Invalid action_type: teleport".to_string(),
            "Confidence out of range: 7".to_string(),
        ]
    );
}

#[test]
fn valid_holds_exactly_without_errors() {
    let good = validate_intent(&intent("walk", at(3, 4), 1.0));
    assert_eq!(good.valid, good.errors.is_empty());
    assert!(good.valid);
    let bad = validate_intent(&intent("walk", ActionTarget::default(), 1.0));
    assert_eq!(bad.valid, bad.errors.is_empty());
    assert!(!bad.valid);
    let made = ValidationResult::from_errors(vec!["x".to_string()], 5);
    assert!(!made.valid);
    assert_eq!(made.validation_ms, 5);
    assert!(ValidationResult::from_errors(vec![], 0).valid);
}

#[test]
fn action_type_tables() {
    assert_eq!(
        action_type_table(),
        vec![
            "click", "move", "drag", "key", "scroll", "wait", "walk", "interact", "dialogue",
            "inventory", "camera",
        ]
    );
    assert_eq!(targeted_action_table(), vec!["click", "interact", "walk", "drag"]);
    for kind in targeted_action_table() {
        assert!(table_contains(&action_type_table(), kind));
    }
}

#[test]
fn strings_compare_by_their_characters() {
    assert!(str_eq("", ""));
    assert!(str_eq("click", "click"));
    assert!(!str_eq("click", "clicks"));
    assert!(!str_eq("click", "clock"));
    assert!(!str_eq("", "a"));
    assert!(str_eq("na\u{ef}ve \u{1F600}", "na\u{ef}ve \u{1F600}"));
    assert!(!str_eq("na\u{ef}ve", "naive"));
    let table = vec!["a", "bc", ""];
    assert!(table_contains(&table, "bc"));
    assert!(table_contains(&table, ""));
    assert!(!table_contains(&table, "b"));
    assert!(!table_contains(&Vec::new(), "a"));
}

#[test]
fn regions_include_their_bounds() {
    assert_eq!(infer_region(3050, 3050), "Tutorial Island");
    assert_eq!(infer_region(3150, 3150), "Tutorial Island");
    assert_eq!(infer_region(3049, 3050), "unknown");
    assert_eq!(infer_region(3151, 3150), "unknown");
    assert_eq!(infer_region(3150, 3151), "unknown");
    assert_eq!(infer_region(3200, 3200), "Lumbridge");
    assert_eq!(infer_region(3250, 3250), "Lumbridge");
    assert_eq!(infer_region(3180, 3380), "Varrock");
    assert_eq!(infer_region(3290, 3500), "Varrock");
    assert_eq!(infer_region(2940, 3310), "Falador");
    assert_eq!(infer_region(3040, 3400), "Falador");
    assert_eq!(infer_region(3080, 3230), "Draynor");
    assert_eq!(infer_region(3120, 3280), "Draynor");
    assert_eq!(infer_region(3270, 3140), "Al Kharid");
    assert_eq!(infer_region(3330, 3200), "Al Kharid");
    assert_eq!(infer_region(3080, 3480), "Edgeville");
    assert_eq!(infer_region(3110, 3520), "Edgeville");
    assert_eq!(infer_region(3070, 3410), "Barbarian Village");
    assert_eq!(infer_region(3110, 3440), "Barbarian Village");
}

#[test]
fn positions_out_of_range_are_unknown() {
    assert_eq!(infer_region(i32::MIN, i32::MIN), "unknown");
    assert_eq!(infer_region(i32::MAX, i32::MAX), "unknown");
    assert_eq!(infer_region(-3100, -3100), "unknown");
    assert_eq!(infer_region(2939, 3350), "unknown");
    assert_eq!(infer_region(3331, 3150), "unknown");
    assert_eq!(infer_region(3100, 3049), "unknown");
    assert_eq!(infer_region(3100, 3521), "unknown");
    assert_eq!(infer_region(3160, 3300), "unknown");
}

#[test]
fn region_lookup_is_repeatable() {
    for (x, y) in [(3100, 3100), (3222, 3218), (0, 0), (3300, 3150)] {
        assert_eq!(infer_region(x, y), infer_region(x, y));
    }
}

#[test]
fn region_table_is_disjoint() {
    let table = region_boxes();
    assert_eq!(table.len(), 8);
    for (i, a) in table.iter().enumerate() {
        assert!(a.contains(a.x_min, a.y_min));
        assert!(!a.contains(a.x_min - 1, a.y_min));
        for (j, b) in table.iter().enumerate() {
            if i != j {
                assert!(a.x_max < b.x_min || b.x_max < a.x_min || a.y_max < b.y_min
                    || b.y_max < a.y_min);
            }
        }
    }
}

#[test]
fn tutorial_phases_at_their_bounds() {
    let expected = [
        (0, "character_creation"),
        (1, "gielinor_guide"),
        (9, "gielinor_guide"),
        (10, "gielinor_guide"),
        (19, "gielinor_guide"),
        (20, "survival_expert"),
        (69, "survival_expert"),
        (70, "master_chef"),
        (119, "master_chef"),
        (120, "quest_guide"),
        (169, "quest_guide"),
        (170, "mining_instructor"),
        (229, "mining_instructor"),
        (230, "combat_instructor"),
        (269, "combat_instructor"),
        (270, "financial_advisor"),
        (309, "financial_advisor"),
        (310, "brother_brace"),
        (399, "brother_brace"),
        (400, "magic_instructor"),
        (499, "magic_instructor"),
        (500, "magic_instructor_final"),
        (599, "magic_instructor_final"),
        (600, "completed"),
        (i32::MAX, "completed"),
    ];
    for (value, name) in expected {
        assert_eq!(infer_tutorial_phase(value), name, "{}", value);
    }
}

#[test]
fn negative_progress_is_unknown() {
    assert_eq!(infer_tutorial_phase(-1), "unknown");
    assert_eq!(infer_tutorial_phase(i32::MIN), "unknown");
}

#[test]
fn tutorial_phases_leave_no_gap() {
    let table = phase_ranges();
    assert_eq!(table[0].from, 0);
    assert_eq!(table.last().unwrap().until, None);
    for pair in table.windows(2) {
        assert_eq!(pair[0].until, Some(pair[1].from));
    }
    for value in 0..700 {
        let holders = table.iter().filter(|range| range.contains(value)).count();
        assert_eq!(holders, 1, "{}", value);
        assert_ne!(infer_tutorial_phase(value), "unknown");
    }
}

#[test]
fn stage_budgets() {
    assert_eq!(check_stage_timing("rsprox_poll", 0).budget_ms, 50);
    assert_eq!(check_stage_timing("perception", 0).budget_ms, 100);
    assert_eq!(check_stage_timing("decision", 0).budget_ms, 200);
    assert_eq!(check_stage_timing("execution", 0).budget_ms, 150);
    assert_eq!(check_stage_timing("verification", 0).budget_ms, 50);
    assert_eq!(check_stage_timing("total", 0).budget_ms, 600);
    assert_eq!(check_stage_timing("warmup", 0).budget_ms, 600);
    assert_eq!(check_stage_timing("", 0).budget_ms, 600);
    assert_eq!(check_stage_timing("Perception", 0).budget_ms, 600);
    assert_eq!(budget_for("decision"), DECISION_MS);
    assert_eq!(
        (RSPROX_POLL_MS, PERCEPTION_MS, DECISION_MS, EXECUTION_MS, VERIFICATION_MS, TOTAL_BUDGET_MS),
        (50, 100, 200, 150, 50, 600)
    );
}

#[test]
fn over_budget_is_strictly_above_the_budget() {
    let at_budget = check_stage_timing("perception", 100);
    assert!(!at_budget.over_budget);
    assert_eq!(at_budget.stage_name, "perception");
    assert_eq!(at_budget.latency_ms, 100);
    let above = check_stage_timing("perception", 101);
    assert!(above.over_budget);
    assert!(!check_stage_timing("perception", 0).over_budget);
    assert!(check_stage_timing("perception", u64::MAX).over_budget);
    assert!(!check_stage_timing("unheard_of", 600).over_budget);
    assert!(check_stage_timing("unheard_of", 601).over_budget);
}

#[test]
fn timing_check_is_repeatable() {
    for stage in ["rsprox_poll", "perception", "decision", "execution", "verification", "total", "x"] {
        for latency in [0u64, 49, 50, 51, 100, 150, 151, 200, 201, 600, 601] {
            let first = check_stage_timing(stage, latency);
            let second = check_stage_timing(stage, latency);
            assert_eq!(first.over_budget, second.over_budget);
            assert_eq!(first.budget_ms, second.budget_ms);
            assert_eq!(first.over_budget, first.latency_ms > first.budget_ms);
            assert_eq!(first.stage_name, stage);
        }
    }
}

#[test]
fn timing_budget_table() {
    let table: Vec<(&str, u64)> = timing_budgets().iter().map(|b| (b.stage, b.budget_ms)).collect();
    assert_eq!(
        table,
        vec![
            ("rsprox_poll", 50),
            ("perception", 100),
            ("decision", 200),
            ("execution", 150),
            ("verification", 50),
            ("total", 600),
        ]
    );
}

#[test]
fn empty_snapshot_violates_every_rule() {
    let result = validate_snapshot(&SnapshotSchema::default());
    assert!(!result.valid);
    assert_eq!(
        result.errors,
        vec![
            "Missing capture_id".to_string(),
            "Missing timestamp".to_string(),
            "Missing session_id".to_string(),
            "Invalid client bounds".to_string(),
        ]
    );
}

#[test]
fn complete_snapshot_is_valid() {
    let mut snapshot = SnapshotSchema::default();
    snapshot.capture_id = "c1".to_string();
    snapshot.timestamp = "2024-01-01T00:00:00Z".to_string();
    snapshot.session_id = "s1".to_string();
    snapshot.client.bounds = Bounds { x: -5, y: -5, width: 1, height: 1 };
    let result = validate_snapshot(&snapshot);
    assert!(result.valid);
    assert!(result.errors.is_empty());
}

#[test]
fn snapshot_rules_are_independent() {
    let mut snapshot = SnapshotSchema::default();
    snapshot.capture_id = "c1".to_string();
    snapshot.session_id = "s1".to_string();
    snapshot.client.bounds = Bounds { x: 0, y: 0, width: 800, height: 0 };
    assert_eq!(
        check_snapshot(&snapshot),
        vec!["Missing timestamp".to_string(), "Invalid client bounds".to_string()]
    );
    snapshot.timestamp = "now".to_string();
    snapshot.client.bounds = Bounds { x: 0, y: 0, width: -1, height: 600 };
    assert_eq!(check_snapshot(&snapshot), vec!["Invalid client bounds".to_string()]);
    snapshot.client.bounds = Bounds { x: 0, y: 0, width: 800, height: 600 };
    snapshot.capture_id = String::new();
    assert_eq!(check_snapshot(&snapshot), vec!["Missing capture_id".to_string()]);
    snapshot.capture_id = "c".to_string();
    snapshot.session_id = String::new();
    assert_eq!(check_snapshot(&snapshot), vec!["Missing session_id".to_string()]);
}

fn telemetry(fresh: bool, player_world: Option<(i32, i32, i32)>) -> RuneliteData {
    RuneliteData {
        fresh,
        tutorial_progress: 50,
        inventory_count: 3,
        camera_direction: "north".to_string(),
        npcs_on_screen: vec![
            NpcInfo { name: "Guide".to_string(), id: 3308, x: 10, y: 20 },
            NpcInfo { name: "Chef".to_string(), id: 3305, x: 30, y: 40 },
        ],
        player_screen: Some((400, 300)),
        player_world,
    }
}

#[test]
fn merge_sets_stale_against_fresh() {
    let fresh = merge_snapshot_data(&telemetry(true, None), None, None, 0);
    assert!(!fresh.stale);
    assert!(fresh.runelite_data.fresh);
    let old = merge_snapshot_data(&telemetry(false, None), None, None, 0);
    assert!(old.stale);
    assert!(!old.runelite_data.fresh);
}

#[test]
fn merge_copies_the_telemetry() {
    let source = telemetry(true, Some((3222, 3218, 1)));
    let snapshot = merge_snapshot_data(&source, None, None, 0);
    let copy = &snapshot.runelite_data;
    assert_eq!(copy.fresh, source.fresh);
    assert_eq!(copy.tutorial_progress, 50);
    assert_eq!(copy.inventory_count, 3);
    assert_eq!(copy.camera_direction, "north");
    assert_eq!(copy.player_screen, Some((400, 300)));
    assert_eq!(copy.player_world, Some((3222, 3218, 1)));
    assert_eq!(copy.npcs_on_screen.len(), 2);
    assert_eq!(copy.npcs_on_screen[0].name, "Guide");
    assert_eq!(copy.npcs_on_screen[0].id, 3308);
    assert_eq!((copy.npcs_on_screen[1].x, copy.npcs_on_screen[1].y), (30, 40));
    assert_eq!(copy.npcs_on_screen[1].name, "Chef");
}

#[test]
fn merge_derives_the_location() {
    let snapshot = merge_snapshot_data(&telemetry(true, Some((3222, 3218, 1))), None, None, 0);
    let location = &snapshot.derived.location;
    assert_eq!((location.coordinates.x, location.coordinates.y), (3222, 3218));
    assert_eq!(location.coordinates.plane, 1);
    assert_eq!(location.region, "Lumbridge");
    assert_eq!(location.region, infer_region(location.coordinates.x, location.coordinates.y));
    assert_eq!(location.subarea, "");

    let nowhere = merge_snapshot_data(&telemetry(true, Some((5, 6, 0))), None, None, 0);
    assert_eq!(nowhere.derived.location.region, "unknown");

    let absent = merge_snapshot_data(&telemetry(true, None), None, None, 0);
    assert_eq!(absent.derived.location.region, "");
    assert_eq!(absent.derived.location.coordinates.x, 0);
    assert_eq!(absent.derived.location.coordinates.y, 0);
    assert_eq!(absent.derived.location.coordinates.plane, 0);
}

#[test]
fn merge_gives_the_arrow_precedence() {
    let cue = Some((1, 2, Confidence { numerator: 10, denominator: 500 }));
    let other = Some((3, 4, Confidence { numerator: 20, denominator: 1000 }));
    let source = telemetry(true, None);
    assert_eq!(merge_snapshot_data(&source, cue, other, 0).cues.highlight_state, "arrow");
    assert_eq!(merge_snapshot_data(&source, cue, None, 0).cues.highlight_state, "arrow");
    assert_eq!(merge_snapshot_data(&source, None, other, 0).cues.highlight_state, "object");
    assert_eq!(merge_snapshot_data(&source, None, None, 0).cues.highlight_state, "");
}

#[test]
fn merge_records_the_capture_latency() {
    let source = telemetry(true, None);
    assert_eq!(merge_snapshot_data(&source, None, None, 42).client.capture_latency_ms, 42);
    assert_eq!(
        merge_snapshot_data(&source, None, None, u32::MAX as u64).client.capture_latency_ms,
        u32::MAX
    );
    assert_eq!(
        merge_snapshot_data(&source, None, None, (1u64 << 32) + 7).client.capture_latency_ms,
        7
    );
}

#[test]
fn merge_leaves_the_rest_empty() {
    let snapshot = merge_snapshot_data(&telemetry(true, Some((3100, 3100, 0))), None, None, 9);
    assert_eq!(snapshot.capture_id, "");
    assert_eq!(snapshot.timestamp, "");
    assert_eq!(snapshot.session_id, "");
    assert_eq!(snapshot.version, 0);
    assert_eq!(snapshot.client.window_title, "");
    assert_eq!(snapshot.client.bounds, Bounds::default());
    assert_eq!(snapshot.client.scale, Binary32::zero());
    assert!(snapshot.ui.elements.is_empty());
    assert!(snapshot.ocr.is_empty());
    assert!(snapshot.account.skills.is_empty());
    assert!(snapshot.account.equipment.is_empty());
    assert_eq!(snapshot.cues.animation_state, "");
    assert_eq!(snapshot.derived.activity.state, "");
    assert_eq!(snapshot.derived.combat.state, "");
    // A merged snapshot carries no identifiers yet, so it does not validate.
    assert!(!validate_snapshot(&snapshot).valid);
}

#[test]
fn defaults_are_empty() {
    let target = ActionTarget::default();
    assert!(!target.has_target());
    assert_eq!(target.y, None);
    let gating = GatingConfig::default();
    assert_eq!((gating.require_hover, gating.require_visible, gating.timeout_ms), (false, false, 0));
    let telemetry = RuneliteData::default();
    assert!(!telemetry.fresh);
    assert_eq!(telemetry.player_world, None);
    assert!(telemetry.npcs_on_screen.is_empty());
    let snapshot = SnapshotSchema::default();
    assert!(!snapshot.stale);
    assert_eq!(snapshot.roi.minimap, Bounds { x: 0, y: 0, width: 0, height: 0 });
}

#[test]
fn milliseconds_are_reduced_to_64_bits() {
    assert_eq!(reduce_millis(0), 0);
    assert_eq!(reduce_millis(5), 5);
    assert_eq!(reduce_millis(u64::MAX as u128), u64::MAX);
    assert_eq!(reduce_millis((1u128 << 64) + 7), 7);
    assert_eq!(reduce_millis(u128::MAX), u64::MAX);
}
