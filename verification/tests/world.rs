use ocean::beach::Beach;
use ocean::color::Color;
use ocean::cookbook::Cookbook;
use ocean::cookbook::Recipe;
use ocean::crab::Crab;
use ocean::diet::Diet;
use ocean::ocean::Ocean;
use ocean::prey::Prey;
use ocean::rng::Tide;

#[test]
fn tide_is_seed_deterministic() {
    let mut a = Tide::new(42);
    let mut b = Tide::new(42);
    for _ in 0..5 {
        let x = a.below(100);
        let y = b.below(100);
        assert_eq!(x, y);
        assert!(x < 100);
    }
}

#[test]
fn random_diet_follows_the_draw() {
    // Seed 0 steps to 12345, which is divisible by three.
    let mut rng = Tide::new(0);
    assert_eq!(Diet::random_diet(&mut rng), Diet::Plants);
}

#[test]
fn color_crossing_rules() {
    assert_eq!(Color::cross(&Color::Red, &Color::Red), Color::Red);
    assert_eq!(Color::cross(&Color::Green, &Color::Blue), Color::Red);
    assert_eq!(Color::cross(&Color::Blue, &Color::Red), Color::Green);
    assert_eq!(Color::cross(&Color::Red, &Color::Green), Color::Blue);
}

#[test]
fn breeding_resets_speed_and_reefs() {
    let mut mother = Crab::new(String::from("ada"), 37, Color::Red, Diet::Fish);
    mother.discover_reef(0);
    mother.discover_reef(3);
    let father = Crab::new(String::from("alan"), 90, Color::Blue, Diet::Plants);
    let mut rng = Tide::new(0);
    let baby = mother.breed(&father, String::from("junior"), &mut rng);
    assert_eq!(baby.name(), "junior");
    assert_eq!(baby.speed(), 1);
    assert_eq!(*baby.color(), Color::Green);
    assert_eq!(baby.diet(), Diet::Plants);
    assert!(baby.reefs.is_empty());
}

#[test]
fn beach_breeding_appends_offspring() {
    let mut beach = Beach::new();
    beach.add_crab(Crab::new(String::from("ada"), 37, Color::Red, Diet::Fish));
    beach.add_crab(Crab::new(String::from("alan"), 90, Color::Blue, Diet::Plants));
    let mut rng = Tide::new(0);
    beach.breed_crabs(0, 1, String::from("junior"), &mut rng);
    assert_eq!(beach.size(), 3);
    let baby = beach.get_crab(2);
    assert_eq!(baby.name(), "junior");
    assert_eq!(baby.speed(), 1);
    assert!(baby.reefs.is_empty());
}

#[test]
fn beach_holds_crabs_in_insertion_order() {
    let mut beach = Beach::new();
    assert_eq!(beach.size(), 0);
    beach.add_crab(Crab::new(String::from("one"), 1, Color::Red, Diet::Fish));
    beach.add_crab(Crab::new(String::from("two"), 2, Color::Blue, Diet::Plants));
    assert_eq!(beach.size(), 2);
    assert_eq!(beach.get_crab(0).name(), "one");
    assert_eq!(beach.get_crab(1).name(), "two");
    assert_eq!(beach.crabs().len(), 2);
}

#[test]
fn fastest_crab_none_on_empty_beach() {
    let beach = Beach::new();
    assert!(beach.get_fastest_crab().is_none());
}

#[test]
fn fastest_crab_takes_last_on_tie() {
    let mut beach = Beach::new();
    beach.add_crab(Crab::new(String::from("slow"), 3, Color::Red, Diet::Fish));
    beach.add_crab(Crab::new(String::from("first"), 7, Color::Red, Diet::Fish));
    beach.add_crab(Crab::new(String::from("second"), 7, Color::Red, Diet::Fish));
    beach.add_crab(Crab::new(String::from("least"), 2, Color::Red, Diet::Fish));
    let fastest = beach.get_fastest_crab().unwrap();
    assert_eq!(fastest.name(), "second");
    assert_eq!(fastest.speed(), 7);
}

#[test]
fn find_crabs_by_name_keeps_order() {
    let mut beach = Beach::new();
    beach.add_crab(Crab::new(String::from("ann"), 1, Color::Red, Diet::Fish));
    beach.add_crab(Crab::new(String::from("bob"), 2, Color::Red, Diet::Fish));
    beach.add_crab(Crab::new(String::from("ann"), 3, Color::Red, Diet::Fish));
    let found = beach.find_crabs_by_name("ann");
    assert_eq!(found.len(), 2);
    assert_eq!(found[0].speed(), 1);
    assert_eq!(found[1].speed(), 3);
    assert!(beach.find_crabs_by_name("zoe").is_empty());
}

#[test]
fn choose_recipe_takes_first_match() {
    let mut cookbook = Cookbook::new();
    cookbook.add_recipe(Recipe::new(String::from("kelp salad"), Diet::Plants));
    cookbook.add_recipe(Recipe::new(String::from("fish stew"), Diet::Fish));
    cookbook.add_recipe(Recipe::new(String::from("fish pie"), Diet::Fish));
    let crab = Crab::new(String::from("chef"), 1, Color::Red, Diet::Fish);
    let recipe = crab.choose_recipe(&cookbook).unwrap();
    assert_eq!(recipe.name().as_str(), "fish stew");
    assert_eq!(recipe.diet(), Diet::Fish);
}

#[test]
fn choose_recipe_none_without_match() {
    let mut cookbook = Cookbook::new();
    cookbook.add_recipe(Recipe::new(String::from("kelp salad"), Diet::Plants));
    let crab = Crab::new(String::from("chef"), 1, Color::Red, Diet::Shellfish);
    assert!(crab.choose_recipe(&cookbook).is_none());
}

#[test]
fn generate_reef_stocks_in_order() {
    let mut world = Ocean::new();
    let id = world.generate_reef(1, 1, 1, 1);
    assert_eq!(id, 0);
    assert_eq!(
        world.reefs()[0].contents(),
        vec![
            Prey::Minnow { speed: 25 },
            Prey::Shrimp { energy: 1 },
            Prey::Clam,
            Prey::Algae,
        ]
    );
}

#[test]
fn generate_reef_can_be_empty() {
    let mut world = Ocean::new();
    let id = world.generate_reef(0, 0, 0, 0);
    assert_eq!(world.reefs()[id].len(), 0);
    let mut crab = Crab::new(String::from("hungry"), 1, Color::Red, Diet::Plants);
    crab.discover_reef(id);
    let mut rng = Tide::new(0);
    assert!(!crab.hunt(&mut world.reefs, &mut rng));
}

#[test]
fn ocean_registers_reefs_and_beaches() {
    let mut world = Ocean::new();
    assert_eq!(world.reefs().len(), 0);
    assert_eq!(world.beaches().len(), 0);
    let first = world.generate_reef(2, 0, 0, 0);
    let second = world.generate_reef(0, 0, 3, 0);
    assert_eq!(first, 0);
    assert_eq!(second, 1);
    assert_eq!(world.reefs().len(), 2);
    assert_eq!(world.reefs()[0].len(), 2);
    assert_eq!(world.reefs()[1].len(), 3);
    world.add_beach(Beach::new());
    assert_eq!(world.beaches().len(), 1);
}

#[test]
fn hunt_through_the_world_registry() {
    let mut world = Ocean::new();
    let id = world.generate_reef(2, 0, 1, 0);
    let mut crab = Crab::new(String::from("scuttle"), 0, Color::Red, Diet::Shellfish);
    crab.discover_reef(id);
    let mut rng = Tide::new(0);
    assert!(crab.hunt(&mut world.reefs, &mut rng));
    assert_eq!(
        world.reefs()[id].contents(),
        vec![Prey::Minnow { speed: 25 }, Prey::Minnow { speed: 25 }]
    );
}
