//! The player: a name, the pets adopted so far and the pet being looked at.
use vstd::prelude::*;

use crate::pet::{is_new_pet, Joshagachi, PetView};
use crate::species::{parse_species, Species};

verus! {

/// The player of the game.
pub struct User {
    pub name: String,
    pub pets: Vec<Joshagachi>,
    pub current_pet_index: Option<usize>,
}

/// The model of a player.
pub struct UserView {
    pub name: Seq<char>,
    pub pets: Seq<PetView>,
    pub current_pet_index: Option<usize>,
}

/// The models of a sequence of pets.
pub open spec fn pet_views(pets: Seq<Joshagachi>) -> Seq<PetView> {
    pets.map_values(|pet: Joshagachi| pet@)
}

impl View for User {
    type V = UserView;

    open spec fn view(&self) -> UserView {
        UserView {
            name: self.name@,
            pets: pet_views(self.pets@),
            current_pet_index: self.current_pet_index,
        }
    }
}

/// The name given to a new pet of the species written `species_text` that
/// the player called `owner` adopts: `"{owner}'s {species_text}"`.
pub open spec fn new_pet_name(owner: Seq<char>, species_text: Seq<char>) -> Seq<char> {
    owner + "'s "@ + species_text
}

/// The name of a new pet is the owner's name, then an apostrophe, the
/// letter `s` and a space, then the species text as the player wrote it.
pub proof fn lemma_new_pet_is_named_after_its_owner(owner: Seq<char>, species_text: Seq<char>)
    ensures
        new_pet_name(owner, species_text).len() == owner.len() + 3 + species_text.len(),
        new_pet_name(owner, species_text).take(owner.len() as int) == owner,
        new_pet_name(owner, species_text)[owner.len() as int] == '\'',
        new_pet_name(owner, species_text)[owner.len() + 1int] == 's',
        new_pet_name(owner, species_text)[owner.len() + 2int] == ' ',
        new_pet_name(owner, species_text).skip(owner.len() + 3int) == species_text,
{
    reveal_strlit("'s ");
    let name = new_pet_name(owner, species_text);
    assert(name.take(owner.len() as int) =~= owner);
    assert(name.skip(owner.len() + 3int) =~= species_text);
}

/// `after` is `before` with one more pet at the end, which satisfies `last`.
pub open spec fn adds_one_pet(before: UserView, after: UserView) -> bool {
    &&& after.name == before.name
    &&& after.current_pet_index == before.current_pet_index
    &&& after.pets.len() == before.pets.len() + 1
    &&& after.pets.subrange(0, before.pets.len() as int) == before.pets
}

proof fn lemma_pet_views_push(pets: Seq<Joshagachi>, pet: Joshagachi)
    ensures
        pet_views(pets.push(pet)) == pet_views(pets).push(pet@),
{
    assert(pet_views(pets.push(pet)) =~= pet_views(pets).push(pet@));
}

impl User {
    /// A player called `name` with no pets yet.
    pub fn new(name: String) -> (res: User)
        ensures
            res@ == (UserView { name: name@, pets: Seq::empty(), current_pet_index: None }),
    {
        let res = User { name, pets: Vec::new(), current_pet_index: None };
        assert(res@.pets =~= Seq::<PetView>::empty());
        res
    }

    /// Adopts a new pet of the species named by `species_name`; it is called
    /// `"{player name}'s {species_name}"` and starts with both levels at zero.
    pub fn add_new_pet(&mut self, species_name: String)
        requires
            parse_species(species_name@) is Ok,
        ensures
            adds_one_pet(old(self)@, final(self)@),
            is_new_pet(
                final(self)@.pets.last(),
                new_pet_name(old(self)@.name, species_name@),
                species_name@,
            ),
    {
        let mut pet_name = self.name.clone();
        pet_name.append("'s ");
        pet_name.append(species_name.as_str());
        let pet = Joshagachi::new(pet_name, species_name.as_str());
        self.add_pet(pet);
        assert(self@.pets.subrange(0, old(self)@.pets.len() as int) =~= old(self)@.pets);
    }

    /// `add_new_pet` where `species_name` names a species; otherwise the
    /// species error, with the player unchanged.
    pub fn try_add_new_pet(&mut self, species_name: String) -> (res: Result<(), String>)
        ensures
            match res {
                Ok(()) => {
                    &&& adds_one_pet(old(self)@, final(self)@)
                    &&& is_new_pet(
                        final(self)@.pets.last(),
                        new_pet_name(old(self)@.name, species_name@),
                        species_name@,
                    )
                },
                Err(message) => {
                    &&& parse_species(species_name@) == Err::<Species, Seq<char>>(
                        message@,
                    )
                    &&& final(self)@ == old(self)@
                },
            },
    {
        match Species::from_str(species_name.as_str()) {
            Ok(_) => {
                self.add_new_pet(species_name);
                Ok(())
            },
            Err(message) => Err(message),
        }
    }

    /// Adds `pet` as the last of the player's pets.
    pub fn add_pet(&mut self, pet: Joshagachi)
        ensures
            final(self)@ == (UserView { pets: old(self)@.pets.push(pet@), ..old(self)@ }),
    {
        proof {
            lemma_pet_views_push(self.pets@, pet);
        }
        self.pets.push(pet);
    }

    /// Marks the pet at `index` as the one being looked at.
    pub fn set_current_pet_index(&mut self, index: usize)
        ensures
            final(self)@ == (UserView { current_pet_index: Some(index), ..old(self)@ }),
    {
        self.current_pet_index = Some(index);
    }
}

impl Clone for User {
    fn clone(&self) -> (res: Self)
        ensures
            res@ == self@,
    {
        let pets = self.pets.clone();
        assert(pets@ =~= self.pets@);
        User { name: self.name.clone(), pets, current_pet_index: self.current_pet_index }
    }
}

} // verus!
