//! The save file's content: at most one player, saved under the `player`
//! entry, and the rules by which a save is read and replaced.
use vstd::prelude::*;

use crate::dictionary::{
    decode_user, encodes_user, is_empty_record, lemma_saved_user_is_restored, PetsField, TextField,
    UserRecord,
};
use crate::text::{contains_str, contains_text};
use crate::user::{User, UserView};

verus! {

/// What the game keeps in its save file.
pub struct SaveData {
    pub user: Option<User>,
}

impl View for SaveData {
    type V = Option<UserView>;

    open spec fn view(&self) -> Option<UserView> {
        match self.user {
            Some(user) => Some(user@),
            None => None,
        }
    }
}

/// The save restored from the file's `player` entry: none means no player;
/// an entry that is not a dictionary gives the engine's explanation.
pub open spec fn decode_save(player: Option<Result<UserRecord, String>>) -> Result<Option<UserView>, Seq<char>> {
    match player {
        None => Ok(None),
        Some(Err(reason)) => Err(reason@),
        Some(Ok(record)) => match decode_user(record) {
            Ok(user) => Ok(Some(user)),
            Err(message) => Err(message),
        },
    }
}

impl SaveData {
    /// A save with no player.
    pub fn new() -> (res: SaveData)
        ensures
            res@ is None,
    {
        SaveData { user: None }
    }

    /// The save restored from the file's `player` entry (see `decode_save`).
    pub fn from_player(player: Option<Result<UserRecord, String>>) -> (res: Result<SaveData, String>)
        ensures
            match res {
                Ok(data) => decode_save(player) == Ok::<Option<UserView>, Seq<char>>(data@),
                Err(message) => decode_save(player) == Err::<Option<UserView>, Seq<char>>(message@),
            },
    {
        match player {
            None => Ok(SaveData::new()),
            Some(Err(reason)) => Err(reason),
            Some(Ok(record)) => match User::from_dictionary(record) {
                Ok(user) => Ok(SaveData { user: Some(user) }),
                Err(message) => Err(message),
            },
        }
    }

    /// Replaces the saved player with a copy of `user`.
    pub fn set_user(&mut self, user: &User)
        ensures
            final(self)@ == Some(user@),
    {
        self.user = Some(user.clone());
    }

    /// What is written under the `player` entry: the player's saved form, or
    /// an empty record where there is no player.
    pub fn to_dictionary(&self) -> (res: UserRecord)
        ensures
            match self@ {
                Some(user) => encodes_user(res, user),
                None => is_empty_record(res),
            },
    {
        match &self.user {
            Some(user) => user.to_dictionary(),
            None => UserRecord { name: TextField::Missing, pets: PetsField::Missing },
        }
    }
}

/// A save that holds a player, written under the `player` entry and read
/// back, holds the same player, except that no pet is being looked at.
pub proof fn lemma_saved_player_is_restored(record: UserRecord, user: UserView)
    requires
        encodes_user(record, user),
    ensures
        decode_save(Some(Ok::<UserRecord, String>(record))) == Ok::<Option<UserView>, Seq<char>>(
            Some(UserView { current_pet_index: None, ..user }),
        ),
{
    lemma_saved_user_is_restored(record, user);
}

/// Whether the text of an error met while opening or reading the save file
/// holds `missing_code`, the engine's code for a file that does not exist;
/// such an error means that there is no save yet.
pub fn is_missing_save_error(error_text: &str, missing_code: &str) -> (res: bool)
    ensures
        res == contains_text(error_text@, missing_code@),
{
    contains_str(error_text, missing_code)
}

} // verus!
