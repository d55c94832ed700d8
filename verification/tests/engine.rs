use actuary::engine::{claims_for_draws, copy_perils, simulate_claims, Peril, Policy};
use actuary::scenarios::chapter1;
use actuary::scenarios::create_policies;
use rand::rngs::StdRng;
use rand::SeedableRng;

fn peril(name: &str, f: u32, s: u32) -> Peril {
    Peril { name: name.to_string(), frequency_bp: f, severity_bp: s }
}

#[test]
fn create_policies_numbers_identical_policies() {
    let config = chapter1::config();
    let book = create_policies(&config, 4);
    assert_eq!(book.len(), 4);
    for (i, p) in book.iter().enumerate() {
        assert_eq!(p.id as usize, i);
        assert_eq!(p.property_value_cents, 25_000_000);
        assert_eq!(p.perils.len(), 3);
        assert_eq!(p.perils[0].name, "Fire");
        assert_eq!(p.perils[2].frequency_bp, 50);
    }
    assert!(create_policies(&config, 0).is_empty());
}

#[test]
fn certain_peril_always_strikes_and_impossible_never() {
    let perils = vec![peril("Always", 10000, 4000), peril("Never", 0, 10000)];
    let book: Vec<Policy> = (0..5)
        .map(|id| Policy { id, property_value_cents: 25_000_000, perils: copy_perils(&perils) })
        .collect();
    let mut rng = StdRng::seed_from_u64(7);
    let claims = simulate_claims(&book, &mut rng);
    assert_eq!(claims.len(), 5);
    for (i, c) in claims.iter().enumerate() {
        assert_eq!(c.policy_id as usize, i);
        assert_eq!(c.peril, "Always");
        assert_eq!(c.amount_micros, 100_000_000_000);
    }
}

#[test]
fn claims_follow_policy_and_peril_order() {
    let config = chapter1::config();
    let book = create_policies(&config, 1000);
    let mut rng = StdRng::seed_from_u64(42);
    let claims = simulate_claims(&book, &mut rng);
    // Expected about 1000 * (0.02 + 0.05 + 0.005) = 75 claims.
    assert!(claims.len() > 20 && claims.len() < 200, "{} claims", claims.len());
    let mut last = (0u32, 0usize);
    for c in &claims {
        let rank = match c.peril.as_str() {
            "Fire" => {
                assert_eq!(c.amount_micros, 100_000_000_000);
                0
            }
            "Water" => {
                assert_eq!(c.amount_micros, 25_000_000_000);
                1
            }
            "Theft" => {
                assert_eq!(c.amount_micros, 12_500_000_000);
                2
            }
            other => panic!("unknown peril {}", other),
        };
        assert!(c.policy_id < 1000);
        assert!((c.policy_id, rank) > last || last == (0, 0));
        last = (c.policy_id, rank);
    }
}

#[test]
fn losses_are_exact_to_the_fraction_of_a_cent() {
    // A $1,000.01 home losing half its value loses $500.005.
    let book = vec![Policy { id: 3, property_value_cents: 100_001, perils: vec![peril("Half", 10000, 5000)] }];
    let claims = claims_for_draws(&book, &vec![0]);
    assert_eq!(claims.len(), 1);
    assert_eq!(claims[0].amount_micros, 500_005_000);
    assert_eq!(claims[0].policy_id, 3);
    // The largest value and severity do not overflow.
    let big = vec![Policy { id: 0, property_value_cents: u64::MAX, perils: vec![peril("Huge", 1, u32::MAX)] }];
    let claims = claims_for_draws(&big, &vec![0]);
    assert_eq!(claims[0].amount_micros, (u64::MAX as u128) * (u32::MAX as u128));
}

#[test]
fn claims_follow_the_draws() {
    let config = chapter1::config();
    let book = create_policies(&config, 2);
    // Draws per policy: fire, water, theft. Fire strikes below 200, water
    // below 500, theft below 50.
    let draws = vec![199, 500, 49, 200, 499, 9999];
    let claims = claims_for_draws(&book, &draws);
    let got: Vec<(u32, &str)> = claims.iter().map(|c| (c.policy_id, c.peril.as_str())).collect();
    assert_eq!(got, vec![(0, "Fire"), (0, "Theft"), (1, "Water")]);
    assert!(claims_for_draws(&book, &vec![9999; 6]).is_empty());
}

#[test]
fn an_even_chance_strikes_about_half_the_book() {
    let perils = vec![peril("Coin", 5000, 10000)];
    let book: Vec<Policy> = (0..10_000)
        .map(|id| Policy { id, property_value_cents: 100, perils: copy_perils(&perils) })
        .collect();
    let mut rng = StdRng::seed_from_u64(2024);
    let claims = simulate_claims(&book, &mut rng);
    assert!(claims.len() > 4_500 && claims.len() < 5_500, "{} claims", claims.len());
    assert!(claims.iter().all(|c| c.amount_micros == 1_000_000));
}

#[test]
fn duplicate_copies_a_peril() {
    let p = peril("Fire", 200, 4000);
    let q = p.duplicate();
    assert_eq!(q.name, "Fire");
    assert_eq!((q.frequency_bp, q.severity_bp), (200, 4000));
    let v = copy_perils(&vec![p, q]);
    assert_eq!(v.len(), 2);
    assert_eq!(v[1].name, "Fire");
}
