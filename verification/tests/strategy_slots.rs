use ternary_thermodynamics::Strategy;

#[test]
fn strategies_have_their_slots() {
    assert_eq!(Strategy::Rock.index(), 0);
    assert_eq!(Strategy::Paper.index(), 1);
    assert_eq!(Strategy::Scissors.index(), 2);
}

#[test]
fn slots_select_from_a_triple() {
    let probs = [0.5, 0.3, 0.2];
    assert!((probs[Strategy::Rock.index()] - 0.5f64).abs() < 1e-10);
    assert!((probs[Strategy::Paper.index()] - 0.3f64).abs() < 1e-10);
    assert!((probs[Strategy::Scissors.index()] - 0.2f64).abs() < 1e-10);
}

#[test]
fn distinct_strategies_have_distinct_slots() {
    let all = [Strategy::Rock, Strategy::Paper, Strategy::Scissors];
    for a in all {
        for b in all {
            assert_eq!(a == b, a.index() == b.index());
        }
    }
}
