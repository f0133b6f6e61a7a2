use pizza_roulette::roulette::{
    get_random_fortune_phrase, get_random_pizza, EmptySelection, FortunePhraseEntry, PizzaEntry,
    SpinMode,
};

fn pizza(name: &str, vegan: bool, vegetarian: bool, personal: bool) -> PizzaEntry {
    PizzaEntry {
        name: name.to_string(),
        extra: format!("{} extra", name),
        description: format!("{} base", name),
        vegan,
        vegetarian,
        personal,
    }
}

fn sample_catalog() -> Vec<PizzaEntry> {
    vec![
        pizza("Margherita", false, true, false),
        pizza("Pepperoni", false, false, false),
        pizza("Verdura", true, true, false),
        pizza("Piccolo Verde", true, true, true),
        pizza("Piccolo", false, false, true),
    ]
}

fn sample_phrases() -> Vec<FortunePhraseEntry> {
    vec![
        FortunePhraseEntry { phrase: "Gratulerer!".to_string() },
        FortunePhraseEntry { phrase: "I dag er dagen!".to_string() },
    ]
}

#[test]
fn from_command_maps_known_keywords() {
    assert!(matches!(SpinMode::from_command("/spin"), Some(SpinMode::Any)));
    assert!(matches!(
        SpinMode::from_command("/spin-vegan"),
        Some(SpinMode::Vegan)
    ));
    assert!(matches!(
        SpinMode::from_command("/spin-vegetarian"),
        Some(SpinMode::Vegetarian)
    ));
}

#[test]
fn from_command_rejects_unknown_keywords() {
    assert!(SpinMode::from_command("/pizza").is_none());
    assert!(SpinMode::from_command("spin").is_none());
    assert!(SpinMode::from_command("").is_none());
}

#[test]
fn any_mode_never_yields_personal_size() {
    let catalog = sample_catalog();
    for _ in 0..200 {
        let p = get_random_pizza(&catalog, SpinMode::Any).unwrap();
        assert!(!p.personal);
    }
}

#[test]
fn vegan_mode_yields_only_vegan() {
    let catalog = sample_catalog();
    for _ in 0..200 {
        let p = get_random_pizza(&catalog, SpinMode::Vegan).unwrap();
        assert!(p.vegan);
    }
}

#[test]
fn vegetarian_mode_yields_vegetarian_vegan_not_personal() {
    let catalog = sample_catalog();
    for _ in 0..200 {
        let p = get_random_pizza(&catalog, SpinMode::Vegetarian).unwrap();
        assert!(p.vegetarian && p.vegan && !p.personal);
    }
}

#[test]
fn every_mode_matches_some_entry_in_catalog() {
    let catalog = sample_catalog();
    assert!(get_random_pizza(&catalog, SpinMode::Any).is_ok());
    assert!(get_random_pizza(&catalog, SpinMode::Vegan).is_ok());
    assert!(get_random_pizza(&catalog, SpinMode::Vegetarian).is_ok());
}

#[test]
fn repeated_picks_cover_every_eligible_entry() {
    let catalog = sample_catalog();
    let mut seen = vec![false; catalog.len()];
    for _ in 0..500 {
        let p = get_random_pizza(&catalog, SpinMode::Any).unwrap();
        let idx = catalog.iter().position(|e| e.name == p.name).unwrap();
        seen[idx] = true;
    }
    for (i, e) in catalog.iter().enumerate() {
        if !e.personal {
            assert!(seen[i], "eligible entry was never drawn");
        } else {
            assert!(!seen[i]);
        }
    }
}

#[test]
fn empty_selection_on_catalog_without_match() {
    let catalog = vec![pizza("Piccolo", false, false, true)];
    assert_eq!(
        get_random_pizza(&catalog, SpinMode::Any).unwrap_err(),
        EmptySelection
    );
    let empty: Vec<PizzaEntry> = Vec::new();
    assert!(get_random_pizza(&empty, SpinMode::Vegan).is_err());
}

#[test]
fn phrase_pick_is_from_catalog() {
    let phrases = sample_phrases();
    for _ in 0..50 {
        let p = get_random_fortune_phrase(&phrases).unwrap();
        assert!(phrases.iter().any(|q| q.phrase == p.phrase));
    }
}

#[test]
fn phrase_pick_fails_on_empty_catalog() {
    let phrases: Vec<FortunePhraseEntry> = Vec::new();
    assert!(get_random_fortune_phrase(&phrases).is_err());
}
