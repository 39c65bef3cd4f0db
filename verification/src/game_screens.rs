//! The screen flow of the game: what each player action does to the game's
//! state and what the screens must show next.
use vstd::prelude::*;

use crate::pet::{zero_level_bits, PetView};
use crate::save_data::SaveData;
use crate::scene::Scene;
use crate::species::{parse_species, Species};
use crate::user::{new_pet_name, User, UserView};

verus! {

/// The state of the game's screens: the player, once there is one.
pub struct GameScreens {
    pub user: Option<User>,
}

impl View for GameScreens {
    type V = Option<UserView>;

    open spec fn view(&self) -> Option<UserView> {
        match self.user {
            Some(user) => Some(user@),
            None => None,
        }
    }
}

/// What pressing the start button leads to.
pub enum StartAction {
    /// Show the player's first pet, of this species and with this title.
    ShowPet { species: Species, title: String },
    /// There is no pet yet: ask for the player's name.
    AskName,
}

/// What choosing a species for a new pet led to.
pub enum PetChoice {
    /// There is no player to adopt the pet.
    NoUser,
    /// The player adopted the pet; its title.
    Adopted { title: String },
}

/// Whether a screen transition can start, by how many screens are focused.
pub enum FocusCheck {
    Proceed,
    /// A transition is already under way.
    Busy { children: usize },
    /// No screen is focused.
    NoFocus,
}

/// What must be set up on a screen that is being changed to.
pub enum SceneSetup {
    /// Wire the name confirmation of the name selection screen.
    WireNameSelect,
    /// Nothing to set up.
    Nothing,
    /// The scene is not one that screen changes handle.
    Unrecognised,
}

/// The new pet that a player adopts by choosing the species `species_text`.
pub open spec fn adopted_pet(owner: Seq<char>, species: Species, species_text: Seq<char>) -> PetView {
    PetView {
        name: new_pet_name(owner, species_text),
        species,
        food_level_bits: zero_level_bits(),
        energy_level_bits: zero_level_bits(),
    }
}

/// The state after the species named by `species_text` is chosen.
pub open spec fn state_after_pet_chosen(state: Option<UserView>, species_text: Seq<char>) -> Option<UserView> {
    match parse_species(species_text) {
        Err(_) => state,
        Ok(species) => match state {
            None => None,
            Some(user) => Some(
                UserView {
                    pets: user.pets.push(adopted_pet(user.name, species, species_text)),
                    ..user
                },
            ),
        },
    }
}

/// The first pet, which the start button shows, if there is a player with
/// a pet.
pub open spec fn shown_on_start(state: Option<UserView>) -> Option<PetView> {
    match state {
        Some(user) => if user.pets.len() > 0 {
            Some(user.pets[0])
        } else {
            None
        },
        None => None,
    }
}

/// The state after the start button is pressed: a player with a pet now
/// looks at the first one.
pub open spec fn state_after_start(state: Option<UserView>) -> Option<UserView> {
    match state {
        Some(user) => if user.pets.len() > 0 {
            Some(UserView { current_pet_index: Some(0usize), ..user })
        } else {
            state
        },
        None => None,
    }
}

/// Whether there is a player whose current pet exists, so that it can be
/// renamed.
pub open spec fn can_rename(state: Option<UserView>) -> bool {
    &&& state matches Some(user)
    &&& user.current_pet_index matches Some(index)
    &&& index < user.pets.len()
}

/// The state after the current pet is renamed `new_name`: only that pet's
/// name changes.
pub open spec fn state_after_rename(state: Option<UserView>, new_name: Seq<char>) -> Option<UserView>
    recommends
        can_rename(state),
{
    let user = state->Some_0;
    let index = user.current_pet_index->Some_0 as int;
    Some(
        UserView {
            pets: user.pets.update(index, PetView { name: new_name, ..user.pets[index] }),
            ..user
        },
    )
}

impl GameScreens {
    /// The screens before any player is known.
    pub fn new() -> (res: GameScreens)
        ensures
            res@ is None,
    {
        GameScreens { user: None }
    }

    /// Takes over the player of a save that was read; returns `false`, with
    /// the state unchanged, when the save holds no player.
    pub fn restore_saved(&mut self, saved: SaveData) -> (res: bool)
        ensures
            res == (saved@ is Some),
            res ==> final(self)@ == saved@,
            !res ==> final(self)@ == old(self)@,
    {
        match saved.user {
            Some(user) => {
                self.user = Some(user);
                true
            },
            None => false,
        }
    }

    /// The start button: a player with a pet is shown the first one, which
    /// becomes the current pet; otherwise the player is asked for a name.
    pub fn on_start_game_button_pressed(&mut self) -> (res: StartAction)
        ensures
            final(self)@ == state_after_start(old(self)@),
            match shown_on_start(old(self)@) {
                Some(pet) => res matches StartAction::ShowPet { species, title } && species
                    == pet.species && title@ == pet.name,
                None => res is AskName,
            },
            match old(self)@ {
                Some(user) => user.pets.len() > 0 ==> {
                    &&& res matches StartAction::ShowPet { species, title } && species
                        == user.pets[0].species && title@ == user.pets[0].name
                    &&& final(self)@ matches Some(after) && after.current_pet_index == Some(
                        0usize,
                    ) && after.pets == user.pets
                },
                None => true,
            },
    {
        let taken = self.user.take();
        match taken {
            None => StartAction::AskName,
            Some(mut user) => {
                if user.pets.len() > 0 {
                    let species = user.pets[0].species;
                    let title = user.pets[0].name.clone();
                    user.set_current_pet_index(0);
                    self.user = Some(user);
                    StartAction::ShowPet { species, title }
                } else {
                    self.user = Some(user);
                    StartAction::AskName
                }
            },
        }
    }

    /// The player chose a name: a new player by that name, with no pets.
    pub fn on_user_name_chosen(&mut self, new_name: String)
        ensures
            final(self)@ == Some(
                UserView { name: new_name@, pets: Seq::empty(), current_pet_index: None },
            ),
    {
        self.user = Some(User::new(new_name));
    }

    /// The player chose a species for a new pet, which the player adopts.
    pub fn on_pet_chosen(&mut self, species_name: String) -> (res: PetChoice)
        requires
            parse_species(species_name@) is Ok,
        ensures
            final(self)@ == state_after_pet_chosen(old(self)@, species_name@),
            match old(self)@ {
                None => res is NoUser,
                Some(user) => res matches PetChoice::Adopted { title } && title@ == new_pet_name(
                    user.name,
                    species_name@,
                ),
            },
    {
        let taken = self.user.take();
        match taken {
            None => PetChoice::NoUser,
            Some(mut user) => {
                let ghost before = user@;
                user.add_new_pet(species_name);
                proof {
                    assert(user@.pets =~= before.pets.push(user@.pets.last()));
                }
                let last = user.pets.len() - 1;
                let title = user.pets[last].name.clone();
                self.user = Some(user);
                PetChoice::Adopted { title }
            },
        }
    }

    /// `on_pet_chosen` where `species_name` names a species; otherwise the
    /// species error, with the state unchanged.
    pub fn try_on_pet_chosen(&mut self, species_name: String) -> (res: Result<PetChoice, String>)
        ensures
            final(self)@ == state_after_pet_chosen(old(self)@, species_name@),
            match parse_species(species_name@) {
                Err(message) => res matches Err(text) && text@ == message,
                Ok(_) => match old(self)@ {
                    None => res matches Ok(PetChoice::NoUser),
                    Some(user) => res matches Ok(PetChoice::Adopted { title }) && title@
                        == new_pet_name(user.name, species_name@),
                },
            },
    {
        match Species::from_str(species_name.as_str()) {
            Err(message) => Err(message),
            Ok(_) => Ok(self.on_pet_chosen(species_name)),
        }
    }

    /// The player named the current pet `new_name`.
    pub fn on_pet_name_set(&mut self, new_name: String)
        requires
            can_rename(old(self)@),
        ensures
            final(self)@ == state_after_rename(old(self)@, new_name@),
    {
        let taken = self.user.take();
        match taken {
            None => {},
            Some(mut user) => {
                match user.current_pet_index {
                    None => {},
                    Some(index) => {
                        let ghost before = user@;
                        let mut pet = user.pets[index].clone();
                        pet.set_name(new_name);
                        user.pets.set(index, pet);
                        proof {
                            assert(user@.pets =~= before.pets.update(
                                index as int,
                                PetView { name: new_name@, ..before.pets[index as int] },
                            ));
                        }
                    },
                }
                self.user = Some(user);
            },
        }
    }
}

/// A transition starts only when exactly one screen is focused.
pub fn focus_check(children: usize) -> (res: FocusCheck)
    ensures
        children > 1 ==> res == (FocusCheck::Busy { children }),
        children == 0 ==> (res is NoFocus),
        children == 1 ==> (res is Proceed),
{
    if children > 1 {
        FocusCheck::Busy { children }
    } else if children == 0 {
        FocusCheck::NoFocus
    } else {
        FocusCheck::Proceed
    }
}

/// What a screen change to `scene` must set up: the name selection screen
/// is wired, the pet list needs nothing, and the other scenes are not
/// handled by screen changes.
pub fn scene_setup(scene: Scene) -> (res: SceneSetup)
    ensures
        scene == Scene::NameSelect ==> res is WireNameSelect,
        scene == Scene::PetList ==> res is Nothing,
        scene != Scene::NameSelect && scene != Scene::PetList ==> res is Unrecognised,
{
    match scene {
        Scene::NameSelect => SceneSetup::WireNameSelect,
        Scene::PetList => SceneSetup::Nothing,
        _ => SceneSetup::Unrecognised,
    }
}

/// Pressing start with a player who has pets shows the first pet, and that
/// pet becomes the current one: the shown pet is the pet at the current
/// index afterwards. The player's name and pets stay as they were.
pub proof fn lemma_start_shows_the_current_pet(user: UserView)
    requires
        user.pets.len() > 0,
    ensures
        shown_on_start(Some(user)) == Some(user.pets[0]),
        state_after_start(Some(user)) matches Some(after) && {
            &&& after.name == user.name
            &&& after.pets == user.pets
            &&& after.current_pet_index matches Some(index)
            &&& index < after.pets.len()
            &&& shown_on_start(Some(user)) == Some(after.pets[index as int])
        },
{
}

/// Pressing start with no player, or with a player without pets, shows no
/// pet and changes nothing.
pub proof fn lemma_start_without_pets_changes_nothing(state: Option<UserView>)
    requires
        state matches Some(user) ==> user.pets.len() == 0,
    ensures
        shown_on_start(state) is None,
        state_after_start(state) == state,
{
}

/// Renaming the current pet changes only that pet's name: its species and
/// both levels, every other pet, the player's name and the current index
/// are as before.
pub proof fn lemma_rename_changes_only_the_name(user: UserView, new_name: Seq<char>)
    requires
        can_rename(Some(user)),
    ensures
        state_after_rename(Some(user), new_name) matches Some(after) && {
            &&& after.name == user.name
            &&& after.current_pet_index == user.current_pet_index
            &&& after.pets.len() == user.pets.len()
            &&& forall|i: int|
                0 <= i < user.pets.len() && Some(i as usize) != user.current_pet_index
                    ==> #[trigger] after.pets[i] == user.pets[i]
            &&& user.current_pet_index matches Some(index) && {
                &&& after.pets[index as int].name == new_name
                &&& after.pets[index as int].species == user.pets[index as int].species
                &&& after.pets[index as int].food_level_bits == user.pets[index as int].food_level_bits
                &&& after.pets[index as int].energy_level_bits
                    == user.pets[index as int].energy_level_bits
            }
        },
{
}

/// A new player who chooses a species is shown, on pressing start, a pet
/// of that species called `"{name}'s {species_text}"`.
pub proof fn lemma_first_chosen_pet_is_shown(name: Seq<char>, species_text: Seq<char>)
    requires
        parse_species(species_text) is Ok,
    ensures
        shown_on_start(
            state_after_pet_chosen(
                Some(UserView { name, pets: Seq::empty(), current_pet_index: None }),
                species_text,
            ),
        ) == Some(
            adopted_pet(name, parse_species(species_text)->Ok_0, species_text),
        ),
{
    let species = parse_species(species_text)->Ok_0;
    assert(Seq::<PetView>::empty().push(adopted_pet(name, species, species_text))[0] == adopted_pet(
        name,
        species,
        species_text,
    ));
}

} // verus!
