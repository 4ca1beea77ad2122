use vm_player::breakpoints::BreakpointSet;
use vm_player::player::Player;

fn has(set: &BreakpointSet, s: &str, h: &str, i: usize) -> bool {
    set.contains(&s.to_string(), &h.to_string(), i)
}

#[test]
fn add_sets_membership() {
    let mut p = Player::new();
    p.add_breakpoint("main".to_string(), "go".to_string(), 5);
    assert!(has(&p.breakpoints, "main", "go", 5));
    assert!(!has(&p.breakpoints, "main", "go", 6));
    assert!(!has(&p.breakpoints, "main", "stop", 5));
}

#[test]
fn add_is_idempotent() {
    let mut p = Player::new();
    p.add_breakpoint("main".to_string(), "go".to_string(), 5);
    p.add_breakpoint("main".to_string(), "go".to_string(), 5);
    assert!(has(&p.breakpoints, "main", "go", 5));
    assert_eq!(p.breakpoints.list().len(), 1);
}

#[test]
fn remove_clears_membership_and_is_idempotent() {
    let mut p = Player::new();
    p.add_breakpoint("main".to_string(), "go".to_string(), 5);
    p.remove_breakpoint("main".to_string(), "go".to_string(), 5);
    assert!(!has(&p.breakpoints, "main", "go", 5));
    p.remove_breakpoint("main".to_string(), "go".to_string(), 5);
    assert!(!has(&p.breakpoints, "main", "go", 5));
}

#[test]
fn toggle_flips_membership() {
    let mut p = Player::new();
    p.toggle_breakpoint("a".to_string(), "b".to_string(), 1);
    assert!(has(&p.breakpoints, "a", "b", 1));
    p.toggle_breakpoint("a".to_string(), "b".to_string(), 1);
    assert!(!has(&p.breakpoints, "a", "b", 1));
    p.toggle_breakpoint("a".to_string(), "b".to_string(), 1);
    assert!(has(&p.breakpoints, "a", "b", 1));
}

#[test]
fn net_effect_of_mixed_sequence() {
    // add, add, toggle, remove, toggle, toggle on one triple: net absent.
    let mut p = Player::new();
    p.add_breakpoint("s".to_string(), "h".to_string(), 3);
    p.add_breakpoint("s".to_string(), "h".to_string(), 3);
    p.toggle_breakpoint("s".to_string(), "h".to_string(), 3);
    p.remove_breakpoint("s".to_string(), "h".to_string(), 3);
    p.toggle_breakpoint("s".to_string(), "h".to_string(), 3);
    p.toggle_breakpoint("s".to_string(), "h".to_string(), 3);
    assert!(!has(&p.breakpoints, "s", "h", 3));
    // an unrelated triple set along the way is untouched
    let mut q = Player::new();
    q.add_breakpoint("s".to_string(), "h".to_string(), 1);
    q.toggle_breakpoint("s".to_string(), "h".to_string(), 2);
    q.remove_breakpoint("s".to_string(), "h".to_string(), 2);
    assert!(has(&q.breakpoints, "s", "h", 1));
    assert!(!has(&q.breakpoints, "s", "h", 2));
}
