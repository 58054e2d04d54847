use ambient_core::world::{DriftDirections, WorldSnapshot, WorldState};

fn random_directions() -> DriftDirections {
    DriftDirections {
        density_up: rand::random::<bool>(),
        rhythm_up: rand::random::<bool>(),
        tension_up: rand::random::<bool>(),
        energy_up: rand::random::<bool>(),
        warmth_up: rand::random::<bool>(),
    }
}

#[test]
fn test_drift_bounds() {
    let mut state = WorldState::new();
    for _ in 0..10000 {
        state.drift(50_000, random_directions());
    }
    assert!(state.density() <= 1_000_000);
    assert!(state.rhythm() <= 1_000_000);
    assert!(state.tension() <= 1_000_000);
    assert!(state.energy() <= 1_000_000);
    assert!(state.warmth() <= 1_000_000);
    let _impulse: u64 = state.sparkle_impulse();
}

#[test]
fn test_setters_clamp() {
    let mut state = WorldState::new();
    state.set_density(2_500_000);
    assert_eq!(state.density(), 1_000_000);
    state.set_energy(999);
    assert_eq!(state.energy(), 999);
    state.set_sparkle_impulse(3_000_000);
    assert_eq!(state.sparkle_impulse(), 3_000_000);
}

#[test]
fn test_drift_decays_sparkle_impulse() {
    let mut state = WorldState::new();
    state.set_sparkle_impulse(150_000);
    state.drift(50_000, random_directions());
    assert_eq!(state.sparkle_impulse(), 50_000);
    state.drift(50_000, random_directions());
    assert_eq!(state.sparkle_impulse(), 0);
}

#[test]
fn test_snapshot_copies_state() {
    let mut state = WorldState::new();
    state.set_warmth(321_000);
    state.set_sparkle_impulse(77);
    let snapshot = WorldSnapshot::from_world_state(&state);
    assert_eq!(snapshot.density(), 500_000);
    assert_eq!(snapshot.warmth(), 321_000);
    assert_eq!(snapshot.sparkle_impulse(), 77);
}
