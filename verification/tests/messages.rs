use ambient_core::events::PerformAction;
use ambient_core::messages::{validate_perform_action, ValidationError};

#[test]
fn test_valid_actions_pass() {
    assert_eq!(
        validate_perform_action(&PerformAction::Pulse { intensity: 0 }),
        Ok(())
    );
    assert_eq!(
        validate_perform_action(&PerformAction::Stir { intensity: 1_000_000 }),
        Ok(())
    );
    assert_eq!(
        validate_perform_action(&PerformAction::Scene {
            name: "sunrise".to_string()
        }),
        Ok(())
    );
    assert_eq!(
        validate_perform_action(&PerformAction::Freeze { micros: 300_000_000 }),
        Ok(())
    );
}

#[test]
fn test_intensity_out_of_range() {
    assert_eq!(
        validate_perform_action(&PerformAction::Calm { intensity: -1 }),
        Err(ValidationError::IntensityOutOfRange)
    );
    assert_eq!(
        validate_perform_action(&PerformAction::Heat {
            intensity: 1_000_001
        }),
        Err(ValidationError::IntensityOutOfRange)
    );
    assert_eq!(
        validate_perform_action(&PerformAction::Tense {
            intensity: 2_000_000
        }),
        Err(ValidationError::IntensityOutOfRange)
    );
}

#[test]
fn test_scene_name_rules() {
    assert_eq!(
        validate_perform_action(&PerformAction::Scene {
            name: String::new()
        }),
        Err(ValidationError::SceneNameEmpty)
    );
    // Whitespace-only names count as empty once trimmed.
    assert_eq!(
        validate_perform_action(&PerformAction::Scene {
            name: "   \t  ".to_string()
        }),
        Err(ValidationError::SceneNameEmpty)
    );
    let long = "a".repeat(101);
    assert_eq!(
        validate_perform_action(&PerformAction::Scene { name: long }),
        Err(ValidationError::SceneNameTooLong)
    );
    let just_fits = "b".repeat(100);
    assert_eq!(
        validate_perform_action(&PerformAction::Scene { name: just_fits }),
        Ok(())
    );
}

#[test]
fn test_freeze_rules() {
    assert_eq!(
        validate_perform_action(&PerformAction::Freeze { micros: -1 }),
        Err(ValidationError::FreezeNegative)
    );
    assert_eq!(
        validate_perform_action(&PerformAction::Freeze {
            micros: 300_000_001
        }),
        Err(ValidationError::FreezeTooLong)
    );
}
