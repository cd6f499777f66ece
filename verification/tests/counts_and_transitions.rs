use ternary_thermodynamics::{SystemEntropy, TransitionType};

#[test]
fn count_terms_of_even_counts() {
    let (terms, total) = SystemEntropy::count_terms([100, 100, 100]).unwrap();
    assert_eq!(terms, vec![100, 100, 100]);
    assert_eq!(total, 300);
    let mut h = 0.0;
    for c in terms {
        let p = c as f64 / total as f64;
        h -= p * p.ln();
    }
    assert!((h - 3.0_f64.ln()).abs() < 1e-10);
}

#[test]
fn count_terms_of_zero_counts_is_none() {
    assert!(SystemEntropy::count_terms([0, 0, 0]).is_none());
}

#[test]
fn count_terms_skip_empty_strategies() {
    assert_eq!(SystemEntropy::count_terms([0, 7, 3]), Some((vec![7, 3], 10)));
    assert_eq!(SystemEntropy::count_terms([5, 0, 0]), Some((vec![5], 5)));
}

#[test]
fn count_terms_add_up_to_total() {
    for counts in [[1u64, 2, 3], [0, 0, 9], [4, 0, 4], [u64::MAX - 2, 1, 1]] {
        let (terms, total) = SystemEntropy::count_terms(counts).unwrap();
        let sum: u128 = terms.iter().map(|&c| c as u128).sum();
        assert_eq!(sum, total as u128);
        assert!(terms.iter().all(|&c| c > 0));
    }
}

fn b(x: f64) -> u64 {
    x.to_bits()
}

#[test]
fn change_classification() {
    let s = b(0.3);
    assert_eq!(TransitionType::classify_change(b(0.5), s), Some(TransitionType::Freezing));
    assert_eq!(TransitionType::classify_change(b(-0.5), s), Some(TransitionType::Melting));
    assert_eq!(TransitionType::classify_change(b(0.2), s), None);
    assert_eq!(TransitionType::classify_change(b(-0.2), s), None);
    assert_eq!(TransitionType::classify_change(b(0.3), s), None);
    assert_eq!(TransitionType::classify_change(b(f64::NAN), s), None);
    assert_eq!(TransitionType::classify_change(b(0.5), b(f64::NAN)), None);
    assert_eq!(TransitionType::classify_change(b(-0.0), b(-1.0)), Some(TransitionType::Melting));
    assert_eq!(TransitionType::classify_change(b(0.0), b(-1.0)), Some(TransitionType::Melting));
}

fn boltzmann_order_parameter(fitnesses: [f64; 3], t: f64) -> f64 {
    let probs = if t <= 0.0 {
        [1.0 / 3.0; 3]
    } else {
        let w = fitnesses.map(|e| (e / t).exp());
        let z = w[0] + w[1] + w[2];
        [w[0] / z, w[1] / z, w[2] / z]
    };
    probs.into_iter().fold(0.0f64, f64::max) - 1.0 / 3.0
}

#[test]
fn sweep_of_skewed_fitness_has_freezing_transitions() {
    let fitnesses = [5.0, 1.0, 1.0];
    let temps: Vec<f64> = (0..50).map(|i| 0.05 + (i as f64) * 0.1).rev().collect();
    let params: Vec<f64> = temps.iter().map(|&t| boltzmann_order_parameter(fitnesses, t)).collect();
    let deltas: Vec<u64> = (1..params.len()).map(|i| (params[i] - params[i - 1]).to_bits()).collect();
    let found = TransitionType::detect_steps(&deltas, b(0.01));
    assert!(!found.is_empty());
    for (index, t) in &found {
        let delta = params[*index] - params[*index - 1];
        assert!(delta.abs() > 0.01);
        assert_eq!(*t, TransitionType::Freezing);
    }
    for w in found.windows(2) {
        assert!(w[0].0 < w[1].0);
    }
}

#[test]
fn detect_steps_reports_each_step_once_in_order() {
    let deltas = vec![b(0.5), b(1e-3), b(-0.5), b(0.31)];
    let found = TransitionType::detect_steps(&deltas, b(0.3));
    assert_eq!(
        found,
        vec![
            (1, TransitionType::Freezing),
            (3, TransitionType::Melting),
            (4, TransitionType::Freezing)
        ]
    );
}

#[test]
fn detect_steps_of_short_sweeps_is_empty() {
    assert!(TransitionType::detect_steps(&Vec::new(), b(0.3)).is_empty());
}

#[test]
fn lower_sensitivity_keeps_transitions() {
    let deltas = vec![b(0.5), b(0.05), b(-0.2), b(-0.01)];
    let strict = TransitionType::detect_steps(&deltas, b(0.3));
    let loose = TransitionType::detect_steps(&deltas, b(0.04));
    for step in &strict {
        assert!(loose.contains(step));
    }
    assert_eq!(loose.len(), 3);
}
