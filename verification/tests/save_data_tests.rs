use joshagachi_logic::dictionary::{PetsField, TextField, UserRecord};
use joshagachi_logic::save_data::{is_missing_save_error, SaveData};
use joshagachi_logic::user::User;

#[test]
fn save_data_new_is_empty() {
    assert!(SaveData::new().user.is_none());
}

#[test]
fn save_data_from_player_cases() {
    assert!(SaveData::from_player(None).unwrap().user.is_none());
    assert_eq!(
        SaveData::from_player(Some(Err("not a dictionary".to_string()))).err(),
        Some("not a dictionary".to_string())
    );
    let record = UserRecord { name: TextField::Text("Eve".to_string()), pets: PetsField::Missing };
    let data = SaveData::from_player(Some(Ok(record))).unwrap();
    assert_eq!(data.user.unwrap().name, "Eve");
    let record = UserRecord { name: TextField::NotText, pets: PetsField::Missing };
    assert_eq!(
        SaveData::from_player(Some(Ok(record))).err(),
        Some("Failed to convert User's name property to string".to_string())
    );
}

#[test]
fn saved_player_is_restored() {
    let mut user = User::new("Fay".to_string());
    user.add_new_pet("octopus".to_string());
    let mut data = SaveData::new();
    data.set_user(&user);
    let read = SaveData::from_player(Some(Ok(data.to_dictionary()))).unwrap();
    let restored = read.user.unwrap();
    assert_eq!(restored.name, "Fay");
    assert_eq!(restored.pets.len(), 1);
    assert_eq!(restored.pets[0].name, "Fay's octopus");
}

#[test]
fn empty_save_read_back_fails() {
    let data = SaveData::new();
    let record = data.to_dictionary();
    assert!(matches!(record.name, TextField::Missing));
    assert!(matches!(record.pets, PetsField::Missing));
    assert_eq!(
        SaveData::from_player(Some(Ok(record))).err(),
        Some("User's name property not present".to_string())
    );
}

#[test]
fn missing_save_error_detection() {
    assert!(is_missing_save_error("Error: ERR_FILE_NOT_FOUND (user://player.save)", "ERR_FILE_NOT_FOUND"));
    assert!(!is_missing_save_error("ERR_FILE_CANT_OPEN", "ERR_FILE_NOT_FOUND"));
    assert!(!is_missing_save_error("", "ERR_FILE_NOT_FOUND"));
    assert!(is_missing_save_error("ERR_FILE_NOT_FOUND", "ERR_FILE_NOT_FOUND"));
}
