use statekit::{Machine, StateError};

#[test]
fn machine_validate_transition_accepts_configured_transition() -> Result<(), StateError> {
    let builder = Machine::builder()
        .try_allow("start", "finish")?
        .try_allow("1", "2")?;

    let m = builder.build()?;

    assert!(m.validate_transition("start", "finish").is_ok());

    Ok(())
}

#[test]
fn machine_validate_transition_not_exists_returns_invalid_error() -> Result<(), StateError> {
    let builder = Machine::builder().try_allow("start", "finish")?;

    let m = builder.build()?;

    assert_eq!(
        m.validate_transition("start", "invalid"),
        Err(StateError::InvalidTransition {
            from: "start".to_string(),
            to: "invalid".to_string(),
        })
    );

    Ok(())
}

#[test]
fn machine_validate_transition_cyclic_is_valid() -> Result<(), StateError> {
    let builder = Machine::builder()
        .try_allow("start", "finish")?
        .try_allow("finish", "start")?;

    let m = builder.build()?;

    assert!(m.validate_transition("finish", "start").is_ok());

    Ok(())
}

#[test]
fn machine_transition_count_counts_transitions() -> Result<(), StateError> {
    let builder = Machine::builder()
        .try_allow("start", "finish")?
        .try_allow("1", "2")?;

    let m = builder.build()?;

    assert_eq!(m.transition_count(), 2);

    Ok(())
}

#[test]
fn machine_can_transition_exists_returns_true() -> Result<(), StateError> {
    let builder = Machine::builder().try_allow("start", "finish")?;

    let m = builder.build()?;

    assert!(m.can_transition("start", "finish"));

    Ok(())
}

#[test]
fn machine_can_transition_not_exists_returns_false() -> Result<(), StateError> {
    let builder = Machine::builder().try_allow("start", "finish")?;

    let m = builder.build()?;

    assert!(!m.can_transition("start", "invalid"));

    Ok(())
}

#[test]
fn machine_contains_state_finds_target_only_state() -> Result<(), StateError> {
    let builder = Machine::builder().try_allow("start", "finish")?;

    let m = builder.build()?;

    assert!(m.contains_state("finish"));

    Ok(())
}

#[test]
fn machine_contains_state_rejects_unknown_state() -> Result<(), StateError> {
    let builder = Machine::builder().try_allow("start", "finish")?;

    let m = builder.build()?;

    assert!(!m.contains_state("other"));

    Ok(())
}

#[test]
fn machine_contains_state_finds_source_state() -> Result<(), StateError> {
    let builder = Machine::builder()
        .try_allow("start", "end")?
        .try_allow("rest", "finish")?;

    let m = builder.build()?;

    assert!(m.contains_state("rest"));

    Ok(())
}

#[test]
fn targets_from_one_transition_key_does_not_exist_returns_none() -> Result<(), StateError> {
    let builder = Machine::builder().try_allow("start", "finish")?;

    let m = builder.build()?;
    let iter = m.targets_from("other");

    assert!(iter.is_empty());

    Ok(())
}

#[test]
fn machine_targets_from_one_transition_one_value() -> Result<(), StateError> {
    let builder = Machine::builder().try_allow("start", "finish")?;

    let m = builder.build()?;
    let collected: Vec<_> = m.targets_from("start");

    assert_eq!(collected, vec!["finish"]);

    Ok(())
}

#[test]
fn targets_from_one_transition_two_values() -> Result<(), StateError> {
    let builder = Machine::builder()
        .try_allow("start", "1")?
        .try_allow("start", "2")?;

    let m = builder.build()?;
    let mut collected: Vec<_> = m.targets_from("start");
    collected.sort();

    assert_eq!(collected, vec!["1", "2"]);

    Ok(())
}

#[test]
fn targets_from_one_transition_three_values() -> Result<(), StateError> {
    let builder = Machine::builder()
        .try_allow("start", "1")?
        .try_allow("start", "2")?
        .try_allow("start", "3")?;

    let m = builder.build()?;
    let mut collected: Vec<_> = m.targets_from("start");
    collected.sort();

    assert_eq!(collected, vec!["1", "2", "3"]);

    Ok(())
}

#[test]
fn targets_from_target_only_state_returns_none() -> Result<(), StateError> {
    let machine = Machine::builder().try_allow("start", "finish")?.build()?;

    assert!(machine.contains_state("finish"));
    assert!(machine.targets_from("finish").is_empty());

    Ok(())
}

#[test]
fn machine_targets_from_duplicate_transition_is_stored_once() -> Result<(), StateError> {
    let machine = Machine::builder()
        .try_allow("start", "finish")?
        .try_allow("start", "finish")?
        .build()?;

    assert_eq!(machine.transition_count(), 1);

    let targets: Vec<_> = machine.targets_from("start");
    assert_eq!(targets, vec!["finish"]);

    Ok(())
}

#[test]
fn machine_sources_one_source_one_value() -> Result<(), StateError> {
    let machine = Machine::builder().try_allow("start", "finish")?.build()?;

    let sources: Vec<_> = machine.sources();

    assert_eq!(sources, vec!["start"]);

    Ok(())
}

#[test]
fn machine_returns_all_source_states() -> Result<(), StateError> {
    let machine = Machine::builder()
        .try_allow("1", "0")?
        .try_allow("2", "0")?
        .try_allow("3", "0")?
        .build()?;

    let mut sources: Vec<_> = machine.sources();
    sources.sort();

    assert_eq!(sources, vec!["1", "2", "3"]);

    Ok(())
}

#[test]
fn machine_states_one_transition_returns_2_values() -> Result<(), StateError> {
    let machine = Machine::builder().try_allow("1", "2")?.build()?;

    let mut states: Vec<_> = machine.states();
    states.sort();

    assert_eq!(states, vec!["1", "2"]);

    Ok(())
}

#[test]
fn machine_returns_unique_source_and_target_states() -> Result<(), StateError> {
    let machine = Machine::builder()
        .try_allow("1", "2")?
        .try_allow("1", "3")?
        .try_allow("2", "3")?
        .try_allow("3", "4")?
        .build()?;

    let mut states: Vec<_> = machine.states();
    states.sort();

    assert_eq!(states, vec!["1", "2", "3", "4"]);

    Ok(())
}

#[test]
fn machine_includes_target_only_states() -> Result<(), StateError> {
    let machine = Machine::builder().try_allow("queued", "running")?.build()?;

    let mut states: Vec<_> = machine.states();
    states.sort();

    assert_eq!(states, vec!["queued", "running"]);

    Ok(())
}

