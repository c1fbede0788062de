use statekit::state_name::{check_state_name, is_whitespace, same_name};
use statekit::{Machine, MachineBuilder, StateError, Transition};

fn sorted(mut v: Vec<String>) -> Vec<String> {
    v.sort();
    v
}

#[test]
fn whitespace_agrees_with_std_for_every_char() {
    for c in (0u32..=0x10FFFF).filter_map(char::from_u32) {
        assert_eq!(is_whitespace(c), c.is_whitespace(), "char U+{:04X}", c as u32);
    }
}

#[test]
fn state_name_rules_follow_the_migration_examples() {
    assert_eq!(check_state_name("running"), Ok(()));
    assert_eq!(check_state_name("In Progress"), Ok(()));
    assert_eq!(
        check_state_name(" running"),
        Err(StateError::AmbiguousStateName { state: " running".to_owned() })
    );
    assert_eq!(
        check_state_name("running "),
        Err(StateError::AmbiguousStateName { state: "running ".to_owned() })
    );
    assert_eq!(check_state_name("   "), Err(StateError::EmptyState));
    assert_eq!(check_state_name(""), Err(StateError::EmptyState));
}

#[test]
fn state_names_use_unicode_whitespace_and_utf8() {
    assert_eq!(check_state_name("état"), Ok(()));
    assert_eq!(check_state_name("日本"), Ok(()));
    assert_eq!(
        check_state_name("\u{3000}done"),
        Err(StateError::AmbiguousStateName { state: "\u{3000}done".to_owned() })
    );
    assert_eq!(
        check_state_name("done\u{a0}"),
        Err(StateError::AmbiguousStateName { state: "done\u{a0}".to_owned() })
    );
    assert_eq!(check_state_name("\u{2003}\u{85}"), Err(StateError::EmptyState));
    assert_eq!(check_state_name("a\u{200B}"), Ok(()));
}

#[test]
fn same_name_compares_exactly() {
    assert!(same_name("queued", "queued"));
    assert!(!same_name("queued", "Queued"));
    assert!(!same_name("queued", "queue"));
    assert!(!same_name("é", "e"));
    assert!(same_name("", ""));
}

#[test]
fn source_is_checked_before_target() {
    assert_eq!(
        Machine::builder().try_allow(" ", "b "),
        Err(StateError::EmptyState)
    );
    assert_eq!(
        Machine::builder().try_allow("a ", ""),
        Err(StateError::AmbiguousStateName { state: "a ".to_owned() })
    );
    assert_eq!(
        Transition::try_new("a", "\t"),
        Err(StateError::EmptyState)
    );
}

#[test]
fn added_transition_is_allowed_and_keeps_others() -> Result<(), StateError> {
    let machine = Machine::builder()
        .try_allow("a", "b")?
        .try_allow("b", "c")?
        .try_allow("c", "a")?
        .build()?;

    assert!(machine.can_transition("a", "b"));
    assert!(machine.can_transition("b", "c"));
    assert!(machine.can_transition("c", "a"));
    assert!(!machine.can_transition("a", "c"));
    assert!(!machine.can_transition("A", "b"));
    assert!(!machine.can_transition(" a", "b"));
    Ok(())
}

#[test]
fn duplicates_collapse_to_one_transition() -> Result<(), StateError> {
    let mut builder = Machine::builder();
    for _ in 0..7 {
        builder = builder.try_allow("x", "y")?;
    }
    let machine = builder.build()?;

    assert_eq!(machine.transition_count(), 1);
    assert_eq!(machine.transitions().len(), 1);
    assert!(machine.can_transition("x", "y"));
    Ok(())
}

#[test]
fn queries_agree_with_each_other() -> Result<(), StateError> {
    let machine = Machine::builder()
        .try_allow("q", "r")?
        .try_allow("r", "s")?
        .try_allow("r", "f")?
        .try_allow("f", "q")?
        .build()?;

    let states = machine.states();
    for source in machine.sources() {
        assert!(states.contains(&source));
        let targets = machine.targets_from(&source);
        assert!(!targets.is_empty());
        for target in targets {
            assert!(machine.can_transition(&source, &target));
            assert!(machine.validate_transition(&source, &target).is_ok());
        }
    }
    for transition in machine.transitions() {
        assert!(machine.can_transition(transition.source(), transition.target()));
        assert!(machine
            .targets_from(transition.source())
            .iter()
            .any(|t| t == transition.target()));
    }
    assert_eq!(machine.transition_count(), machine.transitions().len());
    assert_eq!(sorted(states), vec!["f", "q", "r", "s"]);
    Ok(())
}

#[test]
fn machine_has_at_least_two_states() -> Result<(), StateError> {
    let machine = Machine::builder().try_allow("a", "b")?.build()?;

    assert_eq!(machine.states().len(), 2);
    assert!(machine.contains_state("a"));
    assert!(machine.contains_state("b"));
    Ok(())
}

#[test]
fn targets_is_none_exactly_when_targets_from_is_empty() -> Result<(), StateError> {
    let machine = Machine::builder()
        .try_allow("a", "b")?
        .try_allow("a", "c")?
        .build()?;

    assert!(machine.targets("b").is_none());
    assert!(machine.targets("zzz").is_none());
    let targets = machine.targets("a").expect("a has outgoing transitions");
    assert_eq!(sorted(targets), vec!["b", "c"]);
    Ok(())
}

#[test]
fn validate_transition_reports_the_requested_names() -> Result<(), StateError> {
    let machine = Machine::builder().try_allow("a", "b")?.build()?;

    assert_eq!(
        machine.validate_transition("b", "a"),
        Err(StateError::InvalidTransition { from: "b".to_owned(), to: "a".to_owned() })
    );
    assert_eq!(
        machine.validate_transition(" a", "b"),
        Err(StateError::InvalidTransition { from: " a".to_owned(), to: "b".to_owned() })
    );
    Ok(())
}

#[test]
fn machines_with_same_edges_are_equal() -> Result<(), StateError> {
    let m1 = Machine::builder()
        .try_allow("a", "b")?
        .try_allow("b", "c")?
        .build()?;
    let m2 = Machine::builder()
        .try_allow("b", "c")?
        .try_allow("a", "b")?
        .try_allow("a", "b")?
        .build()?;
    let m3 = Machine::builder().try_allow("a", "b")?.build()?;

    assert_eq!(m1, m2);
    assert_ne!(m1, m3);
    Ok(())
}

#[test]
fn builders_with_same_edges_are_equal() -> Result<(), StateError> {
    let b1 = MachineBuilder::new().try_allow("a", "b")?;
    let b2 = MachineBuilder::new().try_allow("a", "b")?.try_allow("a", "b")?;

    assert_eq!(b1, b2);
    assert_ne!(b1, MachineBuilder::new());
    Ok(())
}

#[test]
fn instance_walks_only_adjacent_edges_until_terminal() -> Result<(), StateError> {
    let machine = Machine::builder()
        .try_allow("a", "b")?
        .try_allow("b", "c")?
        .build()?;
    let mut instance = machine.instance("a")?;

    assert!(!instance.is_terminal());
    assert_eq!(
        instance.transition_to("c"),
        Err(StateError::InvalidTransition { from: "a".to_owned(), to: "c".to_owned() })
    );
    assert_eq!(instance.state(), "a");
    instance.transition_to("b")?;
    instance.transition_to("c")?;
    assert!(instance.is_terminal());
    assert!(!instance.can_transition_to("a"));
    assert!(instance.transition_to("b").is_err());
    assert_eq!(instance.state(), "c");
    Ok(())
}

#[test]
fn instance_shares_its_machine() -> Result<(), StateError> {
    let machine = Machine::builder().try_allow("a", "b")?.build()?;
    let other = Machine::builder().try_allow("b", "a")?.build()?;
    let instance = machine.instance("a")?;

    let handle = instance.machine();
    assert_eq!(handle, machine);
    assert_ne!(handle, other);
    assert!(handle.can_transition("a", "b"));
    assert_eq!(handle.transition_count(), 1);
    Ok(())
}

#[test]
fn instances_on_the_same_state_are_equal() -> Result<(), StateError> {
    let machine = Machine::builder()
        .try_allow("a", "b")?
        .build()?;
    let mut i1 = machine.instance("a")?;
    let i2 = machine.instance("a")?;

    assert_eq!(i1, i2);
    i1.transition_to("b")?;
    assert_ne!(i1, i2);
    Ok(())
}

#[test]
fn transition_clone_keeps_endpoints() -> Result<(), StateError> {
    let t = Transition::try_new("from", "to")?;
    let u = t.clone();

    assert_eq!(t, u);
    assert_eq!(u.source(), "from");
    assert_eq!(u.target(), "to");
    Ok(())
}
