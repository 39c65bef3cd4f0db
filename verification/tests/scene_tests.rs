use joshagachi_logic::scene::Scene;

#[test]
fn scene_info_holds_uid_name_and_scene() {
    let info = Scene::DefaultPet.info();
    assert_eq!(info.uid, "uid://b4i5nrnfck28x");
    assert_eq!(info.name, "Default Pet");
    assert_eq!(info.own_enum, Scene::DefaultPet);
    let info = Scene::PetList.info();
    assert_eq!(info.uid, "uid://djadbqbt76p6g");
    assert_eq!(info.name, "Pet List");
}

#[test]
fn scene_all_lists_every_scene_in_order() {
    let all = Scene::all();
    let scenes: Vec<Scene> = all.iter().map(|info| info.own_enum).collect();
    assert_eq!(scenes, vec![Scene::DefaultPet, Scene::Shop, Scene::NameSelect, Scene::PetList]);
    let uids: Vec<&str> = all.iter().map(|info| info.uid).collect();
    assert_eq!(
        uids,
        vec!["uid://b4i5nrnfck28x", "uid://cljss8rtx37bb", "uid://f6rye7ohvsw8", "uid://djadbqbt76p6g"]
    );
}

#[test]
fn scene_to_str_gives_display_names() {
    assert_eq!(Scene::DefaultPet.to_str(), "Default Pet");
    assert_eq!(Scene::Shop.to_str(), "Item Shop");
    assert_eq!(Scene::NameSelect.to_str(), "Name Select");
    assert_eq!(Scene::PetList.to_str(), "Pet List");
}

#[test]
fn scene_name_round_trip() {
    for scene in [Scene::DefaultPet, Scene::Shop, Scene::NameSelect, Scene::PetList] {
        assert_eq!(Scene::from_str(scene.to_str()), Ok(scene));
    }
}

#[test]
fn scene_from_str_rejects_unknown_and_other_case() {
    assert_eq!(Scene::from_str("Shop"), Err(()));
    assert_eq!(Scene::from_str("item shop"), Err(()));
    assert_eq!(Scene::from_str(""), Err(()));
    assert_eq!(Scene::from_str("Pet List "), Err(()));
}

#[test]
fn scene_assign_from_name_sets_or_keeps() {
    let mut scene = Scene::Shop;
    assert!(scene.assign_from_name("Name Select"));
    assert_eq!(scene, Scene::NameSelect);
    assert!(!scene.assign_from_name("Nowhere"));
    assert_eq!(scene, Scene::NameSelect);
}
