use joshagachi_logic::pet::Joshagachi;
use joshagachi_logic::species::Species;
use joshagachi_logic::user::User;

#[test]
fn user_new_has_no_pets() {
    let user = User::new("Ann".to_string());
    assert_eq!(user.name, "Ann");
    assert!(user.pets.is_empty());
    assert_eq!(user.current_pet_index, None);
}

#[test]
fn user_add_new_pet_names_it_after_owner() {
    let mut user = User::new("Ann".to_string());
    user.add_new_pet("Blob".to_string());
    user.add_new_pet("snake".to_string());
    assert_eq!(user.pets.len(), 2);
    assert_eq!(user.pets[0].name, "Ann's Blob");
    assert_eq!(user.pets[0].species, Species::Blob);
    assert_eq!(user.pets[0].food_level_bits, 0.0f32.to_bits());
    assert_eq!(user.pets[0].energy_level_bits, 0.0f32.to_bits());
    assert_eq!(user.pets[1].name, "Ann's snake");
    assert_eq!(user.pets[1].species, Species::Snake);
}

#[test]
fn user_try_add_new_pet_unknown_species_changes_nothing() {
    let mut user = User::new("Ann".to_string());
    let res = user.try_add_new_pet("Dragon".to_string());
    assert_eq!(res, Err("Unknown species found, recieved '{species}'".to_string()));
    assert!(user.pets.is_empty());
    assert_eq!(user.try_add_new_pet("GHOST".to_string()), Ok(()));
    assert_eq!(user.pets[0].name, "Ann's GHOST");
    assert_eq!(user.pets[0].species, Species::Phantom);
}

#[test]
fn user_add_pet_appends() {
    let mut user = User::new("Bo".to_string());
    user.add_pet(Joshagachi::new("Squish".to_string(), "blob"));
    user.add_pet(Joshagachi::new("Boo".to_string(), "Ghost"));
    let names: Vec<&str> = user.pets.iter().map(|p| p.name.as_str()).collect();
    assert_eq!(names, vec!["Squish", "Boo"]);
}

#[test]
fn user_current_pet_index_and_clone() {
    let mut user = User::new("Cy".to_string());
    user.add_new_pet("octopus".to_string());
    user.set_current_pet_index(0);
    let copy = user.clone();
    assert_eq!(copy.name, "Cy");
    assert_eq!(copy.current_pet_index, Some(0));
    assert_eq!(copy.pets.len(), 1);
    assert_eq!(copy.pets[0].name, "Cy's octopus");
}

#[test]
fn joshagachi_try_new_and_set_name() {
    let pet = Joshagachi::try_new("Pip".to_string(), "PUMPKIN").unwrap();
    assert_eq!(pet.species, Species::Pumpkin);
    assert_eq!(pet.food_level_bits, 0);
    let mut pet = pet;
    pet.set_name("Pumpy".to_string());
    assert_eq!(pet.name, "Pumpy");
    assert_eq!(pet.species, Species::Pumpkin);
    assert!(Joshagachi::try_new("X".to_string(), "cat").is_err());
}
