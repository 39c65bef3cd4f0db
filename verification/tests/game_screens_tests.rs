use joshagachi_logic::game_screens::{
    focus_check, scene_setup, FocusCheck, GameScreens, PetChoice, SceneSetup, StartAction,
};
use joshagachi_logic::save_data::SaveData;
use joshagachi_logic::scene::Scene;
use joshagachi_logic::species::Species;
use joshagachi_logic::user::User;

#[test]
fn start_without_user_asks_name() {
    let mut screens = GameScreens::new();
    assert!(matches!(screens.on_start_game_button_pressed(), StartAction::AskName));
    screens.on_user_name_chosen("Gil".to_string());
    assert!(matches!(screens.on_start_game_button_pressed(), StartAction::AskName));
    assert_eq!(screens.user.as_ref().unwrap().current_pet_index, None);
}

#[test]
fn first_chosen_pet_is_shown() {
    let mut screens = GameScreens::new();
    screens.on_user_name_chosen("Gil".to_string());
    match screens.on_pet_chosen("Snake".to_string()) {
        PetChoice::Adopted { title } => assert_eq!(title, "Gil's Snake"),
        _ => panic!("expected adoption"),
    }
    match screens.on_start_game_button_pressed() {
        StartAction::ShowPet { species, title } => {
            assert_eq!(species, Species::Snake);
            assert_eq!(title, "Gil's Snake");
        }
        StartAction::AskName => panic!("expected the pet"),
    }
    assert_eq!(screens.user.as_ref().unwrap().current_pet_index, Some(0));
}

#[test]
fn pet_chosen_errors() {
    let mut screens = GameScreens::new();
    assert!(matches!(screens.on_pet_chosen("blob".to_string()), PetChoice::NoUser));
    assert!(matches!(screens.try_on_pet_chosen("Ghost".to_string()), Ok(PetChoice::NoUser)));
    screens.on_user_name_chosen("Hal".to_string());
    match screens.try_on_pet_chosen("cat".to_string()) {
        Err(message) => assert_eq!(message, "Unknown species found, recieved '{species}'"),
        Ok(_) => panic!("expected unknown species"),
    }
    assert!(screens.user.as_ref().unwrap().pets.is_empty());
    match screens.try_on_pet_chosen("PUMPKIN".to_string()) {
        Ok(PetChoice::Adopted { title }) => assert_eq!(title, "Hal's PUMPKIN"),
        _ => panic!("expected adoption"),
    }
}

#[test]
fn pet_name_set_renames_current_pet() {
    let mut screens = GameScreens::new();
    screens.on_user_name_chosen("Ivy".to_string());
    screens.on_pet_chosen("blob".to_string());
    screens.on_pet_chosen("ghost".to_string());
    screens.on_start_game_button_pressed();
    screens.on_pet_name_set("Wobble".to_string());
    let user = screens.user.as_ref().unwrap();
    assert_eq!(user.pets[0].name, "Wobble");
    assert_eq!(user.pets[0].species, Species::Blob);
    assert_eq!(user.pets[1].name, "Ivy's ghost");
    assert_eq!(user.name, "Ivy");
    assert_eq!(user.current_pet_index, Some(0));
}

#[test]
fn pet_name_set_on_restored_player() {
    let mut user = User::new("Jo".to_string());
    user.add_new_pet("snake".to_string());
    user.add_new_pet("octopus".to_string());
    user.set_current_pet_index(1);
    let mut screens = GameScreens::new();
    let mut saved = SaveData::new();
    saved.set_user(&user);
    assert!(screens.restore_saved(saved));
    screens.on_pet_name_set("Inky".to_string());
    let user = screens.user.as_ref().unwrap();
    assert_eq!(user.pets[0].name, "Jo's snake");
    assert_eq!(user.pets[1].name, "Inky");
}

#[test]
fn restore_saved_without_player_keeps_state() {
    let mut screens = GameScreens::new();
    screens.on_user_name_chosen("Kim".to_string());
    assert!(!screens.restore_saved(SaveData::new()));
    assert_eq!(screens.user.as_ref().unwrap().name, "Kim");
}

#[test]
fn focus_check_by_children() {
    assert!(matches!(focus_check(0), FocusCheck::NoFocus));
    assert!(matches!(focus_check(1), FocusCheck::Proceed));
    assert!(matches!(focus_check(2), FocusCheck::Busy { children: 2 }));
}

#[test]
fn scene_setup_by_scene() {
    assert!(matches!(scene_setup(Scene::NameSelect), SceneSetup::WireNameSelect));
    assert!(matches!(scene_setup(Scene::PetList), SceneSetup::Nothing));
    assert!(matches!(scene_setup(Scene::Shop), SceneSetup::Unrecognised));
    assert!(matches!(scene_setup(Scene::DefaultPet), SceneSetup::Unrecognised));
}
