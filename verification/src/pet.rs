//! A pet: its name, its species and its two levels.
use vstd::prelude::*;

use crate::species::{parse_species, Species};

verus! {

/// A pet of the game.
///
/// The food and energy levels are `f32` values in the game; the library
/// carries each of them as its IEEE-754 bit pattern and never computes with
/// it.
pub struct Joshagachi {
    pub name: String,
    pub species: Species,
    pub food_level_bits: u32,
    pub energy_level_bits: u32,
}

/// The model of a pet.
pub struct PetView {
    pub name: Seq<char>,
    pub species: Species,
    pub food_level_bits: u32,
    pub energy_level_bits: u32,
}

impl View for Joshagachi {
    type V = PetView;

    open spec fn view(&self) -> PetView {
        PetView {
            name: self.name@,
            species: self.species,
            food_level_bits: self.food_level_bits,
            energy_level_bits: self.energy_level_bits,
        }
    }
}

/// The bit pattern of the `f32` value `0.0`, the level of a new pet.
pub open spec fn zero_level_bits() -> u32 {
    0
}

/// Whether `pet` is the new pet called `name` of the species named by
/// `species_text`, with both levels at zero.
pub open spec fn is_new_pet(pet: PetView, name: Seq<char>, species_text: Seq<char>) -> bool {
    &&& pet.name == name
    &&& parse_species(species_text) == Ok::<Species, Seq<char>>(pet.species)
    &&& pet.food_level_bits == zero_level_bits()
    &&& pet.energy_level_bits == zero_level_bits()
}

/// A new pet has the given name, the species that its species text names,
/// and both levels at `0.0`, whose bit pattern is all zeros.
pub proof fn lemma_new_pet_starts_at_zero(pet: PetView, name: Seq<char>, species_text: Seq<char>)
    requires
        is_new_pet(pet, name, species_text),
    ensures
        pet.name == name,
        parse_species(species_text) == Ok::<Species, Seq<char>>(pet.species),
        pet.food_level_bits == 0u32,
        pet.energy_level_bits == 0u32,
{
}

impl Joshagachi {
    /// A new pet called `joshagachi_name` of the species named by `species`
    /// (without regard to case), with both levels at zero.
    pub fn new(joshagachi_name: String, species: &str) -> (res: Joshagachi)
        requires
            parse_species(species@) is Ok,
        ensures
            is_new_pet(res@, joshagachi_name@, species@),
    {
        let species_type = Species::from_str(species).unwrap();
        Joshagachi {
            name: joshagachi_name,
            species: species_type,
            food_level_bits: 0,
            energy_level_bits: 0,
        }
    }

    /// The new pet of `new`, or the species error where `species` names no
    /// species.
    pub fn try_new(joshagachi_name: String, species: &str) -> (res: Result<Joshagachi, String>)
        ensures
            match res {
                Ok(pet) => is_new_pet(pet@, joshagachi_name@, species@),
                Err(message) => parse_species(species@) == Err::<Species, Seq<char>>(message@),
            },
    {
        match Species::from_str(species) {
            Ok(_) => Ok(Joshagachi::new(joshagachi_name, species)),
            Err(message) => Err(message),
        }
    }

    /// Renames the pet; everything else stays.
    pub fn set_name(&mut self, name: String)
        ensures
            final(self)@ == (PetView { name: name@, ..old(self)@ }),
    {
        self.name = name;
    }
}

impl Clone for Joshagachi {
    fn clone(&self) -> (res: Self)
        ensures
            res == *self,
    {
        Joshagachi {
            name: self.name.clone(),
            species: self.species,
            food_level_bits: self.food_level_bits,
            energy_level_bits: self.energy_level_bits,
        }
    }
}

} // verus!
