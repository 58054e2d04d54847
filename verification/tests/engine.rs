use ambient_core::engine::WorldEngine;
use ambient_core::events::{Event, PerformAction, TriggerKind};
use ambient_core::world::DriftDirections;

#[test]
fn test_tick_event_bounds() {
    let mut engine = WorldEngine::new();
    for _ in 0..100 {
        engine.apply(Event::Tick { dt: 50_000 });
    }
    let snapshot = engine.get_snapshot();
    assert!(snapshot.density() <= 1_000_000);
    assert!(snapshot.rhythm() <= 1_000_000);
    assert!(snapshot.tension() <= 1_000_000);
    assert!(snapshot.energy() <= 1_000_000);
    assert!(snapshot.warmth() <= 1_000_000);
}

#[test]
fn test_trigger_pulse() {
    let mut engine = WorldEngine::new();
    let intensity = 300_000;
    engine.apply(Event::Trigger {
        kind: TriggerKind::Pulse,
        intensity,
    });
    let snapshot = engine.get_snapshot();
    assert_eq!(snapshot.energy(), 800_000);
    assert_eq!(snapshot.tension(), 530_000);
    // Others unchanged
    assert_eq!(snapshot.density(), 500_000);
    assert_eq!(snapshot.rhythm(), 500_000);
    assert_eq!(snapshot.warmth(), 500_000);
}

#[test]
fn test_trigger_stir() {
    let mut engine = WorldEngine::new();
    let intensity = 200_000;
    engine.apply(Event::Trigger {
        kind: TriggerKind::Stir,
        intensity,
    });
    let snapshot = engine.get_snapshot();
    assert_eq!(snapshot.density(), 700_000);
    assert_eq!(snapshot.tension(), 520_000);
    // Others unchanged
    assert_eq!(snapshot.energy(), 500_000);
    assert_eq!(snapshot.rhythm(), 500_000);
    assert_eq!(snapshot.warmth(), 500_000);
}

#[test]
fn test_trigger_calm() {
    let mut engine = WorldEngine::new();
    let intensity = 400_000;
    engine.apply(Event::Trigger {
        kind: TriggerKind::Calm,
        intensity,
    });
    let snapshot = engine.get_snapshot();
    assert_eq!(snapshot.tension(), 100_000);
    assert_eq!(snapshot.density(), 460_000);
    // Others unchanged
    assert_eq!(snapshot.energy(), 500_000);
    assert_eq!(snapshot.rhythm(), 500_000);
    assert_eq!(snapshot.warmth(), 500_000);
}

#[test]
fn test_trigger_heat() {
    let mut engine = WorldEngine::new();
    let intensity = 250_000;
    engine.apply(Event::Trigger {
        kind: TriggerKind::Heat,
        intensity,
    });
    let snapshot = engine.get_snapshot();
    assert_eq!(snapshot.warmth(), 750_000);
    assert_eq!(snapshot.energy(), 525_000);
    // Others unchanged
    assert_eq!(snapshot.density(), 500_000);
    assert_eq!(snapshot.rhythm(), 500_000);
    assert_eq!(snapshot.tension(), 500_000);
}

#[test]
fn test_trigger_tense() {
    let mut engine = WorldEngine::new();
    let intensity = 600_000;
    engine.apply(Event::Trigger {
        kind: TriggerKind::Tense,
        intensity,
    });
    let snapshot = engine.get_snapshot();
    assert_eq!(snapshot.tension(), 1_000_000); // 1.1 clamped to 1.0
    // Others unchanged
    assert_eq!(snapshot.density(), 500_000);
    assert_eq!(snapshot.rhythm(), 500_000);
    assert_eq!(snapshot.energy(), 500_000);
    assert_eq!(snapshot.warmth(), 500_000);
}

#[test]
fn test_trigger_bounds_clamping() {
    let mut engine = WorldEngine::new();
    // Apply high intensity to test clamping
    engine.apply(Event::Trigger {
        kind: TriggerKind::Pulse,
        intensity: 2_000_000,
    });
    let snapshot = engine.get_snapshot();
    assert_eq!(snapshot.energy(), 1_000_000);
    assert_eq!(snapshot.tension(), 700_000);
}

#[test]
fn test_perform_pulse() {
    let mut engine = WorldEngine::new();
    let intensity = 300_000;
    engine.apply(Event::Perform(PerformAction::Pulse { intensity }));
    let snapshot = engine.get_snapshot();
    assert_eq!(snapshot.energy(), 800_000);
    assert_eq!(snapshot.tension(), 530_000);
    // Others unchanged
    assert_eq!(snapshot.density(), 500_000);
    assert_eq!(snapshot.rhythm(), 500_000);
    assert_eq!(snapshot.warmth(), 500_000);
}

#[test]
fn test_perform_stir() {
    let mut engine = WorldEngine::new();
    let intensity = 200_000;
    engine.apply(Event::Perform(PerformAction::Stir { intensity }));
    let snapshot = engine.get_snapshot();
    assert_eq!(snapshot.density(), 700_000);
    assert_eq!(snapshot.tension(), 520_000);
    // Others unchanged
    assert_eq!(snapshot.energy(), 500_000);
    assert_eq!(snapshot.rhythm(), 500_000);
    assert_eq!(snapshot.warmth(), 500_000);
}

#[test]
fn test_perform_calm() {
    let mut engine = WorldEngine::new();
    let intensity = 400_000;
    engine.apply(Event::Perform(PerformAction::Calm { intensity }));
    let snapshot = engine.get_snapshot();
    assert_eq!(snapshot.tension(), 100_000);
    assert_eq!(snapshot.density(), 460_000);
    // Others unchanged
    assert_eq!(snapshot.energy(), 500_000);
    assert_eq!(snapshot.rhythm(), 500_000);
    assert_eq!(snapshot.warmth(), 500_000);
}

#[test]
fn test_perform_scene() {
    let mut engine = WorldEngine::new();
    engine.apply(Event::Perform(PerformAction::Scene {
        name: "sunrise".to_string(),
    }));
    // Scene changes are reserved and don't affect state yet
    let snapshot = engine.get_snapshot();
    assert_eq!(snapshot.density(), 500_000);
    assert_eq!(snapshot.rhythm(), 500_000);
    assert_eq!(snapshot.tension(), 500_000);
    assert_eq!(snapshot.energy(), 500_000);
    assert_eq!(snapshot.warmth(), 500_000);
}

#[test]
fn test_perform_freeze_no_state_effect() {
    let mut engine = WorldEngine::new();
    engine.apply(Event::Perform(PerformAction::Freeze { micros: 5_000_000 }));
    let snapshot = engine.get_snapshot();
    assert_eq!(snapshot.density(), 500_000);
    assert_eq!(snapshot.tension(), 500_000);
    assert_eq!(snapshot.sparkle_impulse(), 0);
}

#[test]
fn test_tick_with_is_deterministic() {
    let dirs = DriftDirections {
        density_up: true,
        rhythm_up: false,
        tension_up: true,
        energy_up: false,
        warmth_up: true,
    };
    let mut a = WorldEngine::new();
    let mut b = WorldEngine::new();
    // A draw of a full unit can never fall below the sparkle threshold
    // of a 50 ms tick, so no impulse fires on either run.
    a.tick_with(50_000, dirs, 999_999);
    b.tick_with(50_000, dirs, 999_999);
    assert_eq!(a.get_snapshot(), b.get_snapshot());
    // Step up then mean-revert: 500_000 + 10_000 = 510_000, minus
    // 50_000 * 10_000 / 5_000_000 = 100, gives 509_900; the down
    // direction lands symmetrically at 490_100.
    assert_eq!(a.get_snapshot().density(), 509_900);
    assert_eq!(a.get_snapshot().rhythm(), 490_100);
}

#[test]
fn test_tick_with_zero_draw_fires_sparkle() {
    let dirs = DriftDirections {
        density_up: true,
        rhythm_up: true,
        tension_up: true,
        energy_up: true,
        warmth_up: true,
    };
    let mut engine = WorldEngine::new();
    // Threshold of a 50 ms tick at density 509_900 is above zero, so a
    // zero draw always fires; strength is 500_000 + energy / 2.
    engine.tick_with(50_000, dirs, 0);
    assert_eq!(engine.get_snapshot().sparkle_impulse(), 500_000 + 509_900 / 2);
}
