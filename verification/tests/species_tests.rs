use joshagachi_logic::species::Species;

const ALL: [Species; 5] = [Species::Blob, Species::Phantom, Species::Octopus, Species::Pumpkin, Species::Snake];

#[test]
fn species_from_str_ignores_case() {
    assert_eq!(Species::from_str("blob"), Ok(Species::Blob));
    assert_eq!(Species::from_str("GhOsT"), Ok(Species::Phantom));
    assert_eq!(Species::from_str("OCTOPUS"), Ok(Species::Octopus));
    assert_eq!(Species::from_str("Pumpkin"), Ok(Species::Pumpkin));
    assert_eq!(Species::from_str("sNAKE"), Ok(Species::Snake));
}

#[test]
fn species_from_str_unknown_gives_fixed_message() {
    assert_eq!(
        Species::from_str("dragon"),
        Err("Unknown species found, recieved '{species}'".to_string())
    );
    assert_eq!(
        Species::from_str(" blob"),
        Err("Unknown species found, recieved '{species}'".to_string())
    );
}

#[test]
fn species_from_lowercase_name_is_exact() {
    assert_eq!(Species::from_lowercase_name("pumpkin"), Ok(Species::Pumpkin));
    assert!(Species::from_lowercase_name("Pumpkin").is_err());
}

#[test]
fn species_to_string_round_trip() {
    let names: Vec<String> = ALL.iter().map(|s| s.to_string()).collect();
    assert_eq!(names, vec!["blob", "ghost", "octopus", "pumpkin", "snake"]);
    for species in ALL {
        assert_eq!(Species::from_str(&species.to_string()), Ok(species));
        assert_eq!(Species::from_lowercase_name(&species.to_string()), Ok(species));
    }
}

#[test]
fn species_color_hex_codes() {
    let codes: Vec<&str> = ALL.iter().map(|s| s.color_hex()).collect();
    assert_eq!(codes, vec!["#99e550", "#838383", "#3f3f74", "#a8551c", "#6abe30"]);
}
