use actuary::scenarios::chapter1;
use actuary::scenarios::chapter2;
use actuary::scenarios::{chapter_list, get_scenario, home_peril_list};

#[test]
fn chapter_list_has_ten_numbered_chapters() {
    let chapters = chapter_list();
    assert_eq!(chapters.len(), 10);
    for (i, c) in chapters.iter().enumerate() {
        assert_eq!(c.number, i + 1);
    }
    assert_eq!(chapters[0].title, "Your First Policy");
    assert_eq!(chapters[0].subtitle, "Expected Value");
    assert_eq!(chapters[1].title, "Growing the Book");
    assert_eq!(chapters[4].subtitle, "Reserving & IBNR");
    assert_eq!(chapters[6].title, "Systemic Attack Season");
    assert_eq!(chapters[9].title, "The Full Picture");
    assert_eq!(chapters[9].subtitle, "Stochastic Modeling");
}

#[test]
fn only_the_first_two_chapters_are_playable() {
    assert!(get_scenario(0).is_none());
    assert_eq!(get_scenario(1).unwrap().chapter, 1);
    assert_eq!(get_scenario(2).unwrap().chapter, 2);
    for ch in 3..=11 {
        assert!(get_scenario(ch).is_none());
    }
}

#[test]
fn home_perils_are_fire_water_theft() {
    let perils = home_peril_list();
    assert_eq!(perils.len(), 3);
    assert_eq!(perils[0].name, "Fire");
    assert_eq!((perils[0].frequency_bp, perils[0].severity_bp), (200, 4000));
    assert_eq!(perils[1].name, "Water");
    assert_eq!((perils[1].frequency_bp, perils[1].severity_bp), (500, 1000));
    assert_eq!(perils[2].name, "Theft");
    assert_eq!((perils[2].frequency_bp, perils[2].severity_bp), (50, 500));
}

#[test]
fn chapter1_config_values() {
    let c = chapter1::config();
    assert_eq!(c.chapter, 1);
    assert_eq!(c.title, "Your First Policy");
    assert_eq!(c.brief.len(), 10);
    assert_eq!(c.brief[0], "Welcome to Pacific Shield Insurance.");
    assert_eq!(c.brief[1], "");
    assert_eq!(c.hints.len(), 4);
    assert!(c.hints[2].contains("Total pure premium = $3,312.50"));
    assert_eq!(c.property_value_cents, 25_000_000);
    assert_eq!(c.expense_ratio_bp, 3000);
    assert_eq!(c.num_years, 10);
    assert_eq!(c.max_market_premium_cents, 800_000);
    assert_eq!(c.perils.len(), 3);
}

#[test]
fn chapter2_config_values() {
    let c = chapter2::config();
    assert_eq!(c.chapter, 2);
    assert_eq!(c.title, "Growing the Book");
    assert_eq!(c.subtitle, "Law of Large Numbers");
    assert_eq!(c.brief.len(), 11);
    assert_eq!(c.brief[10], "(Hint: this is the most important lesson in insurance.)");
    assert_eq!(c.hints.len(), 4);
    assert_eq!(c.num_years, 5);
    assert_eq!(c.property_value_cents, 25_000_000);
    assert_eq!(c.max_market_premium_cents, 800_000);
}

