//! The saved form of a player, as read from and written to the game's save
//! dictionary, and the rules by which a player is restored from it.
//!
//! A record says, for each entry that the rules read, whether it is missing,
//! present but of the wrong kind, or present with a usable value. Where the
//! engine explains a failed conversion, the record keeps that explanation.
use vstd::prelude::*;

use crate::pet::{Joshagachi, PetView};
use crate::species::{
    lemma_species_names_are_lowercase, lemma_species_names_round_trip, parse_species,
    species_name, Species,
};
use crate::user::{pet_views, User, UserView};

verus! {

/// A text entry of the player's record.
pub enum TextField {
    Missing,
    NotText,
    Text(String),
}

/// A level entry of a pet's record; a usable level is an `f32` bit pattern.
pub enum LevelField {
    Missing,
    NotFloat,
    Bits(u32),
}

/// The entries of one pet's record. A pet's name and species are read as
/// the text form of whatever value is stored, so they are only ever missing
/// or present.
pub struct PetRecord {
    pub name: Option<String>,
    pub species: Option<String>,
    pub food_level: LevelField,
    pub energy_level: LevelField,
}

/// One element of the pets array.
pub enum PetEntry {
    /// The element is not a dictionary; the engine's explanation.
    NotDictionary(String),
    Record(PetRecord),
}

/// The pets entry of the player's record.
pub enum PetsField {
    Missing,
    /// The entry is not an array; the engine's explanation.
    NotArray(String),
    Entries(Vec<PetEntry>),
}

/// The saved form of a player.
pub struct UserRecord {
    pub name: TextField,
    pub pets: PetsField,
}

/// The level read from a level entry: a missing level reads as `0.0`.
pub open spec fn decode_level(level: LevelField) -> Option<u32> {
    match level {
        LevelField::Missing => Some(0u32),
        LevelField::NotFloat => None,
        LevelField::Bits(bits) => Some(bits),
    }
}

/// The pet restored from one element of the pets array, or the error that
/// stops the restoration.
pub open spec fn decode_pet(entry: PetEntry) -> Result<PetView, Seq<char>> {
    match entry {
        PetEntry::NotDictionary(reason) => Err(
            "Failed to convert element in pets array to Dictionary: "@ + reason@,
        ),
        PetEntry::Record(record) => match record.name {
            None => Err("Joshagachi name field not present in pet entry for user"@),
            Some(name) => match record.species {
                None => Err("Joshagachi species field not present in pet entry for user"@),
                Some(species_text) => match parse_species(species_text@) {
                    Err(message) => Err(message),
                    Ok(species) => match decode_level(record.food_level) {
                        None => Err("Failed to convert food_level field to f32"@),
                        Some(food_level_bits) => match decode_level(record.energy_level) {
                            None => Err("Failed to convert energy_level field to f32"@),
                            Some(energy_level_bits) => Ok(
                                PetView { name: name@, species, food_level_bits, energy_level_bits },
                            ),
                        },
                    },
                },
            },
        },
    }
}

/// The pets restored from the elements of the pets array, in order; the
/// first element that fails gives the error.
pub open spec fn decode_pets(entries: Seq<PetEntry>) -> Result<Seq<PetView>, Seq<char>>
    decreases entries.len(),
{
    if entries.len() == 0 {
        Ok(Seq::empty())
    } else {
        match decode_pets(entries.drop_last()) {
            Err(message) => Err(message),
            Ok(pets) => match decode_pet(entries.last()) {
                Err(message) => Err(message),
                Ok(pet) => Ok(pets.push(pet)),
            },
        }
    }
}

/// The player restored from a record, or the error that stops the
/// restoration. A restored player looks at no pet.
pub open spec fn decode_user(record: UserRecord) -> Result<UserView, Seq<char>> {
    match record.name {
        TextField::Missing => Err("User's name property not present"@),
        TextField::NotText => Err("Failed to convert User's name property to string"@),
        TextField::Text(name) => match record.pets {
            PetsField::Missing => Ok(
                UserView { name: name@, pets: Seq::empty(), current_pet_index: None },
            ),
            PetsField::NotArray(reason) => Err(
                "Failed to convert pets property to array: "@ + reason@,
            ),
            PetsField::Entries(entries) => match decode_pets(entries@) {
                Err(message) => Err(message),
                Ok(pets) => Ok(UserView { name: name@, pets, current_pet_index: None }),
            },
        },
    }
}

/// `entry` is the saved form of `pet`.
pub open spec fn encodes_pet(entry: PetEntry, pet: PetView) -> bool {
    &&& entry matches PetEntry::Record(record)
    &&& record.name matches Some(name)
    &&& name@ == pet.name
    &&& record.species matches Some(species_text)
    &&& species_text@ == species_name(pet.species)
    &&& record.food_level == LevelField::Bits(pet.food_level_bits)
    &&& record.energy_level == LevelField::Bits(pet.energy_level_bits)
}

/// `entries` are the saved forms of `pets`, one for one.
pub open spec fn encodes_pets(entries: Seq<PetEntry>, pets: Seq<PetView>) -> bool {
    &&& entries.len() == pets.len()
    &&& forall|i: int| 0 <= i < entries.len() ==> encodes_pet(#[trigger] entries[i], pets[i])
}

/// `record` is the saved form of `user`: its name and its pets. Which pet is
/// being looked at is not saved.
pub open spec fn encodes_user(record: UserRecord, user: UserView) -> bool {
    &&& record.name matches TextField::Text(name)
    &&& name@ == user.name
    &&& record.pets matches PetsField::Entries(entries)
    &&& encodes_pets(entries@, user.pets)
}

/// The record with neither a name nor pets, saved where there is no player.
pub open spec fn is_empty_record(record: UserRecord) -> bool {
    record.name is Missing && record.pets is Missing
}

proof fn lemma_decode_error_persists(entries: Seq<PetEntry>, k: int, j: int)
    requires
        0 <= k <= j <= entries.len(),
        decode_pets(entries.take(k)) is Err,
    ensures
        decode_pets(entries.take(j)) == decode_pets(entries.take(k)),
    decreases j - k,
{
    if j > k {
        lemma_decode_error_persists(entries, k, j - 1);
        assert(entries.take(j).drop_last() =~= entries.take(j - 1));
    }
}

fn read_level(level: &LevelField) -> (res: Option<u32>)
    ensures
        res == decode_level(*level),
{
    match level {
        LevelField::Missing => Some(0u32),
        LevelField::NotFloat => None,
        LevelField::Bits(bits) => Some(*bits),
    }
}

fn text_with_reason(prefix: &str, reason: &String) -> (res: String)
    ensures
        res@ == prefix@ + reason@,
{
    let mut text = String::from_str(prefix);
    text.append(reason.as_str());
    text
}

fn read_pet(entry: &PetEntry) -> (res: Result<Joshagachi, String>)
    ensures
        match res {
            Ok(pet) => decode_pet(*entry) == Ok::<PetView, Seq<char>>(pet@),
            Err(message) => decode_pet(*entry) == Err::<PetView, Seq<char>>(message@),
        },
{
    match entry {
        PetEntry::NotDictionary(reason) => Err(
            text_with_reason("Failed to convert element in pets array to Dictionary: ", reason),
        ),
        PetEntry::Record(record) => {
            let name = match &record.name {
                None => {
                    return Err(
                        String::from_str("Joshagachi name field not present in pet entry for user"),
                    );
                },
                Some(name) => name.clone(),
            };
            let species = match &record.species {
                None => {
                    return Err(
                        String::from_str(
                            "Joshagachi species field not present in pet entry for user",
                        ),
                    );
                },
                Some(species_text) => match Species::from_str(species_text.as_str()) {
                    Ok(species) => species,
                    Err(message) => {
                        return Err(message);
                    },
                },
            };
            let food_level_bits = match read_level(&record.food_level) {
                None => {
                    return Err(String::from_str("Failed to convert food_level field to f32"));
                },
                Some(bits) => bits,
            };
            let energy_level_bits = match read_level(&record.energy_level) {
                None => {
                    return Err(String::from_str("Failed to convert energy_level field to f32"));
                },
                Some(bits) => bits,
            };
            Ok(Joshagachi { name, species, food_level_bits, energy_level_bits })
        },
    }
}

fn pet_record(pet: &Joshagachi) -> (res: PetEntry)
    ensures
        encodes_pet(res, pet@),
{
    PetEntry::Record(
        PetRecord {
            name: Some(pet.name.clone()),
            species: Some(pet.species.to_string()),
            food_level: LevelField::Bits(pet.food_level_bits),
            energy_level: LevelField::Bits(pet.energy_level_bits),
        },
    )
}

impl User {
    /// Restores a player from its saved form, or gives the error that stops
    /// the restoration (see `decode_user`).
    pub fn from_dictionary(dictionary: UserRecord) -> (res: Result<User, String>)
        ensures
            match res {
                Ok(user) => decode_user(dictionary) == Ok::<UserView, Seq<char>>(user@),
                Err(message) => decode_user(dictionary) == Err::<UserView, Seq<char>>(message@),
            },
    {
        let name = match &dictionary.name {
            TextField::Missing => {
                return Err(String::from_str("User's name property not present"));
            },
            TextField::NotText => {
                return Err(String::from_str("Failed to convert User's name property to string"));
            },
            TextField::Text(name) => name.clone(),
        };
        let mut user = User::new(name);
        match &dictionary.pets {
            PetsField::Missing => {},
            PetsField::NotArray(reason) => {
                return Err(text_with_reason("Failed to convert pets property to array: ", reason));
            },
            PetsField::Entries(entries) => {
                let n = entries.len();
                let mut i: usize = 0;
                while i < n
                    invariant
                        n == entries@.len(),
                        i <= n,
                        dictionary.name matches TextField::Text(text) && user@.name == text@,
                        dictionary.pets matches PetsField::Entries(listed) && listed@ == entries@,
                        user@.current_pet_index is None,
                        decode_pets(entries@.take(i as int)) == Ok::<Seq<PetView>, Seq<char>>(
                            user@.pets,
                        ),
                    decreases n - i,
                {
                    assert(entries@.take(i + 1).drop_last() =~= entries@.take(i as int));
                    assert(entries@.take(i + 1).last() == entries@[i as int]);
                    match read_pet(&entries[i]) {
                        Ok(pet) => {
                            user.add_pet(pet);
                        },
                        Err(message) => {
                            proof {
                                assert(decode_pets(entries@.take(i + 1)) == Err::<
                                    Seq<PetView>,
                                    Seq<char>,
                                >(message@));
                                lemma_decode_error_persists(entries@, i + 1, n as int);
                                assert(entries@.take(n as int) =~= entries@);
                            }
                            return Err(message);
                        },
                    }
                    i = i + 1;
                }
                assert(entries@.take(n as int) =~= entries@);
            },
        }
        Ok(user)
    }

    /// The saved form of the player: its name and its pets (see
    /// `encodes_user`).
    pub fn to_dictionary(&self) -> (res: UserRecord)
        ensures
            encodes_user(res, self@),
            res.pets matches PetsField::Entries(entries) && entries@.len() == self.pets@.len()
                && forall|i: int|
                0 <= i < entries@.len() ==> (#[trigger] entries@[i] matches PetEntry::Record(
                    record,
                ) && record.food_level == LevelField::Bits(self.pets@[i].food_level_bits)
                    && record.energy_level == LevelField::Bits(self.pets@[i].energy_level_bits)),
    {
        let mut entries: Vec<PetEntry> = Vec::new();
        let n = self.pets.len();
        let mut i: usize = 0;
        while i < n
            invariant
                n == self.pets@.len(),
                i <= n,
                encodes_pets(entries@, pet_views(self.pets@).take(i as int)),
            decreases n - i,
        {
            let entry = pet_record(&self.pets[i]);
            let ghost before = entries@;
            entries.push(entry);
            proof {
                let views = pet_views(self.pets@);
                assert(views.take(i + 1) =~= views.take(i as int).push(self.pets@[i as int]@));
                assert forall|j: int| 0 <= j < entries@.len() implies encodes_pet(
                    #[trigger] entries@[j],
                    views.take(i + 1)[j],
                ) by {
                    if j < i {
                        assert(entries@[j] == before[j]);
                        assert(encodes_pet(before[j], views.take(i as int)[j]));
                    }
                }
            }
            i = i + 1;
        }
        assert(pet_views(self.pets@).take(n as int) =~= pet_views(self.pets@));
        UserRecord { name: TextField::Text(self.name.clone()), pets: PetsField::Entries(entries) }
    }
}

proof fn lemma_encoded_pets_decode(entries: Seq<PetEntry>, pets: Seq<PetView>)
    requires
        encodes_pets(entries, pets),
    ensures
        decode_pets(entries) == Ok::<Seq<PetView>, Seq<char>>(pets),
    decreases entries.len(),
{
    if entries.len() > 0 {
        let last = entries.len() - 1;
        assert(encodes_pets(entries.drop_last(), pets.drop_last())) by {
            assert forall|i: int| 0 <= i < entries.drop_last().len() implies encodes_pet(
                #[trigger] entries.drop_last()[i],
                pets.drop_last()[i],
            ) by {
                assert(encodes_pet(entries[i], pets[i]));
            }
        }
        lemma_encoded_pets_decode(entries.drop_last(), pets.drop_last());
        assert(encodes_pet(entries[last], pets[last]));
        let species = pets[last].species;
        lemma_species_names_are_lowercase(species);
        lemma_species_names_round_trip(species);
        assert(pets.drop_last().push(pets[last]) =~= pets);
    } else {
        assert(pets =~= Seq::<PetView>::empty());
    }
}

/// The saved form of a pet keeps its food level under `food_level` and its
/// energy level under `energy_level`, and keeps its name and the textual
/// form of its species.
pub proof fn lemma_record_keeps_each_level_in_its_entry(entry: PetEntry, pet: PetView)
    requires
        encodes_pet(entry, pet),
    ensures
        entry matches PetEntry::Record(record) && {
            &&& record.food_level == LevelField::Bits(pet.food_level_bits)
            &&& record.energy_level == LevelField::Bits(pet.energy_level_bits)
            &&& record.name matches Some(name) && name@ == pet.name
            &&& record.species matches Some(text) && text@ == species_name(pet.species)
        },
{
}

/// A pet record with a name, a species that parses and usable levels
/// restores a pet with that name and species whose food level is read from
/// `food_level` and whose energy level from `energy_level`; a missing level
/// reads as zero.
pub proof fn lemma_restored_pet_takes_each_level_from_its_entry(record: PetRecord)
    requires
        record.name is Some,
        record.species matches Some(text) && parse_species(text@) is Ok,
        !(record.food_level is NotFloat),
        !(record.energy_level is NotFloat),
    ensures
        decode_pet(PetEntry::Record(record)) matches Ok(pet) && {
            &&& pet.name == record.name->Some_0@
            &&& parse_species(record.species->Some_0@) == Ok::<Species, Seq<char>>(pet.species)
            &&& (record.food_level matches LevelField::Bits(bits) ==> pet.food_level_bits == bits)
            &&& (record.food_level is Missing ==> pet.food_level_bits == 0)
            &&& (record.energy_level matches LevelField::Bits(bits) ==> pet.energy_level_bits
                == bits)
            &&& (record.energy_level is Missing ==> pet.energy_level_bits == 0)
        },
{
}

/// Restoring the pets array restores, where it succeeds, one pet per
/// element, in order, each as that element alone restores it.
pub proof fn lemma_restored_pets_follow_their_entries(entries: Seq<PetEntry>)
    ensures
        decode_pets(entries) matches Ok(pets) ==> {
            &&& pets.len() == entries.len()
            &&& forall|i: int|
                0 <= i < entries.len() ==> decode_pet(#[trigger] entries[i]) == Ok::<
                    PetView,
                    Seq<char>,
                >(pets[i])
        },
    decreases entries.len(),
{
    if entries.len() > 0 {
        lemma_restored_pets_follow_their_entries(entries.drop_last());
        if let Ok(pets) = decode_pets(entries) {
            let before = decode_pets(entries.drop_last())->Ok_0;
            assert(pets == before.push(decode_pet(entries.last())->Ok_0));
            assert forall|i: int| 0 <= i < entries.len() implies decode_pet(#[trigger] entries[i])
                == Ok::<PetView, Seq<char>>(pets[i]) by {
                if i < entries.len() - 1 {
                    assert(entries[i] == entries.drop_last()[i]);
                }
            }
        }
    }
}

/// A player written to its saved form and read back is the same player,
/// except that no pet is being looked at.
pub proof fn lemma_saved_user_is_restored(record: UserRecord, user: UserView)
    requires
        encodes_user(record, user),
    ensures
        decode_user(record) == Ok::<UserView, Seq<char>>(
            UserView { current_pet_index: None, ..user },
        ),
{
    if let PetsField::Entries(entries) = record.pets {
        lemma_encoded_pets_decode(entries@, user.pets);
    }
}

} // verus!
