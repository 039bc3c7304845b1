use ocean::color::Color;
use ocean::crab::Crab;
use ocean::diet::Diet;
use ocean::prey::Prey;
use ocean::reef::Reef;
use ocean::rng::Tide;

fn reef_of(items: Vec<Prey>) -> Reef {
    let mut reef = Reef::new();
    for p in items {
        reef.add_prey(p);
    }
    reef
}

#[test]
fn take_then_add_restores_content_and_order() {
    let mut reef = reef_of(vec![Prey::Clam, Prey::Algae]);
    let taken = reef.take_prey();
    assert_eq!(taken, Some(Prey::Algae));
    reef.add_prey(Prey::Algae);
    assert_eq!(reef.contents(), vec![Prey::Clam, Prey::Algae]);
}

#[test]
fn take_from_empty_reef_is_none() {
    let mut reef = Reef::new();
    assert_eq!(reef.take_prey(), None);
    assert_eq!(reef.len(), 0);
}

#[test]
fn hunt_consumes_single_stationary_match() {
    let mut reefs = vec![reef_of(vec![Prey::Algae])];
    let mut rng = Tide::new(0);
    let mut crab = Crab::new(String::from("pinchy"), 5, Color::Red, Diet::Plants);
    crab.discover_reef(0);
    assert!(crab.hunt(&mut reefs, &mut rng));
    assert_eq!(reefs[0].len(), 0);
}

#[test]
fn hunt_fails_without_matching_prey() {
    let mut reefs = vec![reef_of(vec![Prey::Clam, Prey::Minnow { speed: 25 }])];
    let mut rng = Tide::new(0);
    let mut crab = Crab::new(String::from("verdi"), 5, Color::Blue, Diet::Plants);
    crab.discover_reef(0);
    assert!(!crab.hunt(&mut reefs, &mut rng));
    // Non-matching prey is taken, recorded, and restored: same items, with
    // the take-and-restore cycle reversing their order.
    assert_eq!(
        reefs[0].contents(),
        vec![Prey::Minnow { speed: 25 }, Prey::Clam]
    );
}

#[test]
fn hunt_conserves_total_prey() {
    let mut reefs = vec![
        reef_of(vec![Prey::Minnow { speed: 25 }, Prey::Clam]),
        reef_of(vec![Prey::Algae, Prey::Shrimp { energy: 1 }]),
    ];
    let mut rng = Tide::new(0);
    let mut crab = Crab::new(String::from("conny"), 5, Color::Green, Diet::Shellfish);
    crab.discover_reef(0);
    crab.discover_reef(1);
    let before: usize = reefs.iter().map(|r| r.len()).sum();
    let caught = crab.hunt(&mut reefs, &mut rng);
    let after: usize = reefs.iter().map(|r| r.len()).sum();
    assert!(caught);
    assert_eq!(after + 1, before);
}

#[test]
fn hunt_scenario_two_fast_one_stationary() {
    // Two fast-moving items and one stationary item; the stationary one is
    // consumed and the fast ones survive in their stocked order.
    let mut reefs = vec![reef_of(vec![
        Prey::Minnow { speed: 1_000_000 },
        Prey::Minnow { speed: 2_000_000 },
        Prey::Clam,
    ])];
    let mut rng = Tide::new(0);
    let mut crab = Crab::new(String::from("scuttle"), 0, Color::Red, Diet::Shellfish);
    crab.discover_reef(0);
    assert!(crab.hunt(&mut reefs, &mut rng));
    assert_eq!(
        reefs[0].contents(),
        vec![
            Prey::Minnow { speed: 1_000_000 },
            Prey::Minnow { speed: 2_000_000 },
        ]
    );
}

#[test]
fn hunt_scenario_all_share_diet() {
    // Every stocked item suits the hunter's diet; the stationary one is
    // consumed first and the two escape-capable ones are never touched.
    let mut reefs = vec![reef_of(vec![
        Prey::Shrimp { energy: 1 },
        Prey::Shrimp { energy: 2 },
        Prey::Clam,
    ])];
    let mut rng = Tide::new(0);
    let mut crab = Crab::new(String::from("snippy"), 0, Color::Blue, Diet::Shellfish);
    crab.discover_reef(0);
    assert!(crab.hunt(&mut reefs, &mut rng));
    assert_eq!(
        reefs[0].contents(),
        vec![Prey::Shrimp { energy: 1 }, Prey::Shrimp { energy: 2 }]
    );
}

#[test]
fn hunt_stops_after_first_success() {
    let mut reefs = vec![reef_of(vec![Prey::Algae]), reef_of(vec![Prey::Algae])];
    let mut rng = Tide::new(0);
    let mut crab = Crab::new(String::from("halty"), 3, Color::Green, Diet::Plants);
    crab.discover_reef(0);
    crab.discover_reef(1);
    assert!(crab.hunt(&mut reefs, &mut rng));
    assert_eq!(reefs[0].len(), 0);
    assert_eq!(reefs[1].len(), 1);
}

#[test]
fn hunt_restores_to_originating_reef() {
    // The first reef is exhausted before the second is tried; its
    // non-matching item goes back to the reef it came from.
    let mut reefs = vec![
        reef_of(vec![Prey::Minnow { speed: 25 }]),
        reef_of(vec![Prey::Clam]),
    ];
    let mut rng = Tide::new(0);
    let mut crab = Crab::new(String::from("walker"), 5, Color::Red, Diet::Shellfish);
    crab.discover_reef(0);
    crab.discover_reef(1);
    assert!(crab.hunt(&mut reefs, &mut rng));
    assert_eq!(reefs[0].contents(), vec![Prey::Minnow { speed: 25 }]);
    assert_eq!(reefs[1].len(), 0);
}

#[test]
fn hunt_with_duplicate_discovery_loses_nothing() {
    let mut reefs = vec![reef_of(vec![Prey::Clam, Prey::Clam])];
    let mut rng = Tide::new(0);
    let mut crab = Crab::new(String::from("echo"), 5, Color::Red, Diet::Plants);
    crab.discover_reef(0);
    crab.discover_reef(0);
    assert!(!crab.hunt(&mut reefs, &mut rng));
    assert_eq!(reefs[0].contents(), vec![Prey::Clam, Prey::Clam]);
}

#[test]
fn hunt_with_no_reefs_returns_false() {
    let mut reefs = vec![reef_of(vec![Prey::Algae])];
    let mut rng = Tide::new(0);
    let crab = Crab::new(String::from("lost"), 3, Color::Red, Diet::Plants);
    assert!(!crab.hunt(&mut reefs, &mut rng));
    assert_eq!(reefs[0].len(), 1);
}

#[test]
fn hunt_restores_escaped_prey() {
    // Seed 0 draws 12345 against the minnow's speed range, which beats a
    // speed-0 hunter: the minnow escapes and is restored.
    let mut reefs = vec![reef_of(vec![Prey::Minnow { speed: 1_000_000 }])];
    let mut rng = Tide::new(0);
    let mut crab = Crab::new(String::from("slowpoke"), 0, Color::Blue, Diet::Fish);
    crab.discover_reef(0);
    assert!(!crab.hunt(&mut reefs, &mut rng));
    assert_eq!(reefs[0].contents(), vec![Prey::Minnow { speed: 1_000_000 }]);
}

#[test]
fn hunt_catches_fast_prey_with_fast_hunter() {
    // The same draw of 12345 does not beat a speed-20000 hunter.
    let mut reefs = vec![reef_of(vec![Prey::Minnow { speed: 1_000_000 }])];
    let mut rng = Tide::new(0);
    let mut crab = Crab::new(String::from("swifty"), 20_000, Color::Blue, Diet::Fish);
    crab.discover_reef(0);
    assert!(crab.hunt(&mut reefs, &mut rng));
    assert_eq!(reefs[0].len(), 0);
}

#[test]
fn minnow_escape_is_speed_race() {
    let minnow = Prey::Minnow { speed: 1_000_000 };
    let mut rng = Tide::new(0);
    assert!(minnow.try_escape(0, &mut rng));
    let mut rng = Tide::new(0);
    assert!(!minnow.try_escape(20_000, &mut rng));
}

#[test]
fn shrimp_escape_ignores_hunter_speed() {
    let shrimp = Prey::Shrimp { energy: 1 };
    let mut rng = Tide::new(0);
    let low = shrimp.try_escape(0, &mut rng);
    let mut rng = Tide::new(0);
    let high = shrimp.try_escape(u32::MAX, &mut rng);
    assert_eq!(low, high);
    assert!(!low);
    let mut rng = Tide::new(1);
    assert!(shrimp.try_escape(0, &mut rng));
}

#[test]
fn stationary_prey_never_escapes() {
    let mut rng = Tide::new(7);
    assert!(!Prey::Clam.try_escape(0, &mut rng));
    assert!(!Prey::Algae.try_escape(0, &mut rng));
}

#[test]
fn prey_dietary_classes() {
    assert_eq!(Prey::Minnow { speed: 25 }.diet(), Diet::Fish);
    assert_eq!(Prey::Shrimp { energy: 1 }.diet(), Diet::Shellfish);
    assert_eq!(Prey::Clam.diet(), Diet::Shellfish);
    assert_eq!(Prey::Algae.diet(), Diet::Plants);
}

#[test]
fn catch_prey_tries_each_reef_once() {
    let mut reefs = vec![Reef::new(), reef_of(vec![Prey::Clam, Prey::Algae])];
    let mut crab = Crab::new(String::from("prober"), 2, Color::Red, Diet::Plants);
    crab.discover_reef(0);
    crab.discover_reef(1);
    let caught = crab.catch_prey(&mut reefs);
    assert_eq!(caught, Some((Prey::Algae, 1)));
    assert_eq!(reefs[1].contents(), vec![Prey::Clam]);
}

#[test]
fn catch_prey_on_empty_reefs_is_none() {
    let mut reefs = vec![Reef::new()];
    let mut crab = Crab::new(String::from("prober"), 2, Color::Red, Diet::Plants);
    crab.discover_reef(0);
    assert_eq!(crab.catch_prey(&mut reefs), None);
}

#[test]
fn release_prey_returns_to_origin() {
    let mut reefs = vec![Reef::new(), reef_of(vec![Prey::Clam])];
    let mut crab = Crab::new(String::from("keeper"), 2, Color::Green, Diet::Plants);
    crab.discover_reef(0);
    crab.discover_reef(1);
    crab.release_prey(&mut reefs, Prey::Algae, 1);
    assert_eq!(reefs[1].contents(), vec![Prey::Clam, Prey::Algae]);
}

#[test]
fn release_prey_skips_out_of_range_silently() {
    let mut reefs = vec![reef_of(vec![Prey::Clam])];
    let mut crab = Crab::new(String::from("keeper"), 2, Color::Green, Diet::Plants);
    crab.discover_reef(0);
    crab.release_prey(&mut reefs, Prey::Algae, 9);
    assert_eq!(reefs[0].contents(), vec![Prey::Clam]);
}
