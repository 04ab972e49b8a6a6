use lupin::config::AutomationConfig;
use lupin::engine::{chars_of, AutomationEngine, ActionPlan};
use lupin::motion::MotionPlan;
use lupin::selector::{select_action, ActionKind};

fn base_config() -> AutomationConfig {
    AutomationConfig {
        enabled: true,
        min_interval_ms: 100,
        max_interval_ms: 100,
        mouse_movement_range: 5,
        enable_clicks: false,
        enable_keyboard: false,
        keyboard_text: None,
        active_apps: Vec::new(),
    }
}

fn motion_totals(p: &MotionPlan) -> (i64, i64) {
    let mut x = 0i64;
    let mut y = 0i64;
    for s in &p.steps {
        x += s.dx as i64;
        y += s.dy as i64;
    }
    (x + p.final_dx as i64, y + p.final_dy as i64)
}

#[test]
fn keyboard_only_always_types() {
    for _ in 0..100 {
        assert_eq!(select_action(false, true), ActionKind::Type);
    }
}

#[test]
fn no_capability_means_no_op() {
    for _ in 0..100 {
        assert_eq!(select_action(false, false), ActionKind::NoOp);
    }
}

#[test]
fn clicks_only_never_types() {
    for _ in 0..100 {
        let k = select_action(true, false);
        assert!(matches!(k, ActionKind::MoveCursor | ActionKind::Click), "{k:?}");
    }
}

#[test]
fn both_capabilities_allow_all_three_actions() {
    for _ in 0..100 {
        let k = select_action(true, true);
        assert!(!matches!(k, ActionKind::NoOp), "{k:?}");
    }
}

#[test]
fn fixed_interval_is_sampled_exactly() {
    // With min == max == 100 every cycle waits exactly 100 ms.
    let engine = AutomationEngine::new(base_config());
    for _ in 0..50 {
        assert_eq!(engine.begin_cycle(), Some(100));
    }
}

#[test]
fn interval_sampling_respects_bounds() {
    let mut config = base_config();
    config.min_interval_ms = 30;
    config.max_interval_ms = 70;
    let engine = AutomationEngine::new(config);
    for _ in 0..200 {
        let ms = engine.begin_cycle().expect("engine is enabled");
        assert!((30..=70).contains(&ms), "interval {ms}");
    }
}

#[test]
fn clicks_only_cycle_moves_or_clicks_within_range() {
    // The fixed-interval, clicks-only scenario: every cycle waits
    // exactly 100 ms, then either moves by at most five units per axis
    // or clicks.
    let mut config = base_config();
    config.enable_clicks = true;
    let mut engine = AutomationEngine::new(config);
    for _ in 0..50 {
        assert_eq!(engine.begin_cycle(), Some(100));
        let plan = engine.post_sleep_step().expect("engine is enabled");
        match plan {
            ActionPlan::Click => {}
            ActionPlan::Motion(m) => {
                let (tx, ty) = motion_totals(&m);
                assert!(tx.abs() <= 5, "x displacement {tx}");
                assert!(ty.abs() <= 5, "y displacement {ty}");
            }
            other => panic!("clicks-only cycle produced {other:?}"),
        }
    }
}

#[test]
fn disabled_engine_exits_at_both_checkpoints() {
    let mut config = base_config();
    config.enabled = false;
    let mut engine = AutomationEngine::new(config);
    assert!(!engine.is_running());
    assert_eq!(engine.begin_cycle(), None);
    assert!(engine.post_sleep_step().is_none());
}

#[test]
fn stop_during_sleep_prevents_any_action() {
    // A stop that lands between the two checkpoints: the first
    // checkpoint still hands out a wait, the second refuses to plan
    // any action.
    let mut config = base_config();
    config.enable_clicks = true;
    config.enable_keyboard = true;
    let mut engine = AutomationEngine::new(config);
    assert!(engine.is_running());
    assert_eq!(engine.begin_cycle(), Some(100));
    engine.stop();
    assert!(!engine.is_running());
    assert!(engine.post_sleep_step().is_none());
    // The typing cursor did not move either.
    assert_eq!(engine.text_position, 0);
}

#[test]
fn no_op_cycle_plans_nothing() {
    let mut engine = AutomationEngine::new(base_config());
    for _ in 0..20 {
        let plan = engine.post_sleep_step().expect("engine is enabled");
        assert!(matches!(plan, ActionPlan::NoOp), "{plan:?}");
    }
}

#[test]
fn typing_cycles_consume_text_in_order() {
    let text = "Hello world. This is typed in order, chunk by chunk.";
    let mut config = base_config();
    config.enable_keyboard = true;
    config.keyboard_text = Some(text.to_string());
    let mut engine = AutomationEngine::new(config);
    let mut rebuilt = String::new();
    loop {
        let before = engine.text_position;
        let plan = engine.post_sleep_step().expect("engine is enabled");
        let chunk = match plan {
            ActionPlan::Typing(c) => c,
            other => panic!("keyboard-only cycle produced {other:?}"),
        };
        assert_eq!(chunk.start, before);
        assert_eq!(chunk.end, engine.text_position);
        assert_eq!(chunk.delays.len(), chunk.chars.len());
        rebuilt.extend(&chunk.chars);
        if engine.text_position == text.chars().count() {
            break;
        }
    }
    assert_eq!(rebuilt, text);
    // The text is consumed: the next chunk wraps to the beginning.
    let plan = engine.post_sleep_step().expect("engine is enabled");
    match plan {
        ActionPlan::Typing(c) => assert_eq!(c.start, 0),
        other => panic!("keyboard-only cycle produced {other:?}"),
    }
}

#[test]
fn empty_or_missing_text_falls_back_to_single_character() {
    for text in [None, Some(String::new())] {
        let mut config = base_config();
        config.enable_keyboard = true;
        config.keyboard_text = text;
        let mut engine = AutomationEngine::new(config);
        for _ in 0..20 {
            let plan = engine.post_sleep_step().expect("engine is enabled");
            match plan {
                ActionPlan::FallbackKey(c) => {
                    assert!([' ', 'a', 'e', 'i', 'o', 'u'].contains(&c), "{c:?}");
                }
                other => panic!("expected a fallback key, got {other:?}"),
            }
            assert_eq!(engine.text_position, 0);
        }
    }
}

#[test]
fn new_engine_normalizes_a_malformed_configuration() {
    let mut config = base_config();
    config.min_interval_ms = 500;
    config.max_interval_ms = 100;
    config.mouse_movement_range = -3;
    let engine = AutomationEngine::new(config);
    assert_eq!(engine.config.min_interval_ms, 500);
    assert_eq!(engine.config.max_interval_ms, 500);
    assert_eq!(engine.config.mouse_movement_range, 0);
    assert_eq!(engine.text_position, 0);
}

#[test]
fn default_configuration_matches_stock_values() {
    let config = AutomationConfig::default();
    assert!(!config.enabled);
    assert_eq!(config.min_interval_ms, 30000);
    assert_eq!(config.max_interval_ms, 840000);
    assert_eq!(config.mouse_movement_range, 5);
    assert!(!config.enable_clicks);
    assert!(!config.enable_keyboard);
    assert!(config.keyboard_text.is_none());
    assert!(config.active_apps.is_empty());
}

#[test]
fn chars_of_preserves_every_character() {
    assert_eq!(chars_of("Hi there!"), "Hi there!".chars().collect::<Vec<_>>());
    assert_eq!(chars_of(""), Vec::<char>::new());
    assert_eq!(chars_of("naïve café"), "naïve café".chars().collect::<Vec<_>>());
}
