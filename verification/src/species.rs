//! The species a pet can be, their textual form and their colours.
use vstd::prelude::*;

use crate::text::str_eq;
use vstd::utf8::is_ascii_chars;

verus! {

/// The species of a pet.
#[derive(PartialEq, Eq, Structural, Debug, Clone, Copy)]
pub enum Species {
    Blob,
    /// The ghost species, written `ghost`.
    Phantom,
    Octopus,
    Pumpkin,
    Snake,
}

/// The textual form of a species, as written in saves and shown to scenes.
pub open spec fn species_name(species: Species) -> Seq<char> {
    match species {
        Species::Blob => "blob"@,
        Species::Phantom => "ghost"@,
        Species::Octopus => "octopus"@,
        Species::Pumpkin => "pumpkin"@,
        Species::Snake => "snake"@,
    }
}

/// The html colour code of a species.
pub open spec fn species_color_hex(species: Species) -> Seq<char> {
    match species {
        Species::Blob => "#99e550"@,
        Species::Phantom => "#838383"@,
        Species::Octopus => "#3f3f74"@,
        Species::Pumpkin => "#a8551c"@,
        Species::Snake => "#6abe30"@,
    }
}

/// The species whose textual form is exactly `name`.
pub open spec fn species_named(name: Seq<char>) -> Option<Species> {
    if name == species_name(Species::Blob) {
        Some(Species::Blob)
    } else if name == species_name(Species::Phantom) {
        Some(Species::Phantom)
    } else if name == species_name(Species::Octopus) {
        Some(Species::Octopus)
    } else if name == species_name(Species::Pumpkin) {
        Some(Species::Pumpkin)
    } else if name == species_name(Species::Snake) {
        Some(Species::Snake)
    } else {
        None
    }
}

/// The message of the error given for text that names no species.
pub open spec fn unknown_species_message() -> Seq<char> {
    "Unknown species found, recieved '{species}'"@
}

/// The species named by text that is already in lower case.
pub open spec fn species_from_lowercase(lower: Seq<char>) -> Result<Species, Seq<char>> {
    match species_named(lower) {
        Some(species) => Ok(species),
        None => Err(unknown_species_message()),
    }
}

/// The ASCII lower case of a text: `'A'..='Z'` become `'a'..='z'` and every
/// other character stays.
pub open spec fn ascii_lowercase(text: Seq<char>) -> Seq<char> {
    text.map_values(
        |c: char|
            if 'A' <= c && c <= 'Z' {
                ((c as int) + 32) as char
            } else {
                c
            },
    )
}

/// What `str::to_lowercase` returns for a text that holds a character
/// outside ASCII (the Unicode lower-case mapping of its characters).
pub uninterp spec fn unicode_lowercase(text: Seq<char>) -> Seq<char>;

/// What `str::to_lowercase` returns for a text.
pub open spec fn lowercase(text: Seq<char>) -> Seq<char> {
    if is_ascii_chars(text) {
        ascii_lowercase(text)
    } else {
        unicode_lowercase(text)
    }
}

/// The species named by `text`, compared without regard to case.
pub open spec fn parse_species(text: Seq<char>) -> Result<Species, Seq<char>> {
    species_from_lowercase(lowercase(text))
}

/// Calls `str::to_lowercase`. Claims that ASCII text is lower-cased letter by
/// letter (`'A'..='Z'` to `'a'..='z'`, every other ASCII character kept, as
/// std documents for `char::to_lowercase` and `char::to_ascii_lowercase`);
/// for text with a character outside ASCII it claims only that the result is
/// a function of the text, named `unicode_lowercase`.
#[verifier::external_body]
fn to_lowercase(text: &str) -> (res: String)
    ensures
        is_ascii_chars(text@) ==> res@ == ascii_lowercase(text@),
        !is_ascii_chars(text@) ==> res@ == unicode_lowercase(text@),
{
    text.to_lowercase()
}

/// The textual forms of the species are already in lower case.
pub proof fn lemma_species_names_are_lowercase(species: Species)
    ensures
        lowercase(species_name(species)) == species_name(species),
{
    reveal_strlit("blob");
    reveal_strlit("ghost");
    reveal_strlit("octopus");
    reveal_strlit("pumpkin");
    reveal_strlit("snake");
    let name = species_name(species);
    assert(is_ascii_chars(name));
    assert(ascii_lowercase(name) =~= name);
}

/// The textual form of each species names that species again.
pub proof fn lemma_species_names_round_trip(species: Species)
    ensures
        species_named(species_name(species)) == Some(species),
{
    reveal_strlit("blob");
    reveal_strlit("ghost");
    reveal_strlit("octopus");
    reveal_strlit("pumpkin");
    reveal_strlit("snake");
    assert("ghost"@ != "blob"@) by {
        assert("ghost"@.len() != "blob"@.len());
    }
    assert("octopus"@ != "blob"@ && "octopus"@ != "ghost"@) by {
        assert("octopus"@.len() == 7);
    }
    assert("pumpkin"@ != "blob"@ && "pumpkin"@ != "ghost"@ && "pumpkin"@ != "octopus"@) by {
        assert("pumpkin"@[0] != "octopus"@[0]);
        assert("pumpkin"@.len() == 7);
    }
    assert("snake"@ != "blob"@ && "snake"@ != "ghost"@ && "snake"@ != "octopus"@
        && "snake"@ != "pumpkin"@) by {
        assert("snake"@[0] != "ghost"@[0]);
        assert("snake"@.len() == 5);
    }
}

impl Species {
    /// The species named by `text` without regard to case, or the error
    /// message for an unknown species.
    pub fn from_str(text: &str) -> (res: Result<Species, String>)
        ensures
            match res {
                Ok(species) => parse_species(text@) == Ok::<Species, Seq<char>>(species),
                Err(message) => parse_species(text@) == Err::<Species, Seq<char>>(message@),
            },
    {
        let lower = to_lowercase(text);
        Species::from_lowercase_name(lower.as_str())
    }

    /// The species whose textual form is exactly `lower` (text that has
    /// already been put in lower case), or the error for an unknown species.
    pub fn from_lowercase_name(lower: &str) -> (res: Result<Species, String>)
        ensures
            match res {
                Ok(species) => species_from_lowercase(lower@) == Ok::<Species, Seq<char>>(species),
                Err(message) => species_from_lowercase(lower@) == Err::<Species, Seq<char>>(
                    message@,
                ),
            },
    {
        if str_eq(lower, "blob") {
            Ok(Species::Blob)
        } else if str_eq(lower, "ghost") {
            Ok(Species::Phantom)
        } else if str_eq(lower, "octopus") {
            Ok(Species::Octopus)
        } else if str_eq(lower, "pumpkin") {
            Ok(Species::Pumpkin)
        } else if str_eq(lower, "snake") {
            Ok(Species::Snake)
        } else {
            Err(String::from_str("Unknown species found, recieved '{species}'"))
        }
    }

    /// The textual form of this species.
    pub fn to_string(&self) -> (res: String)
        ensures
            res@ == species_name(*self),
    {
        let name = match self {
            Species::Blob => "blob",
            Species::Phantom => "ghost",
            Species::Octopus => "octopus",
            Species::Pumpkin => "pumpkin",
            Species::Snake => "snake",
        };
        String::from_str(name)
    }

    /// The html colour code with which this species is drawn.
    pub fn color_hex(&self) -> (res: &'static str)
        ensures
            res@ == species_color_hex(*self),
    {
        match self {
            Species::Blob => "#99e550",
            Species::Phantom => "#838383",
            Species::Octopus => "#3f3f74",
            Species::Pumpkin => "#a8551c",
            Species::Snake => "#6abe30",
        }
    }
}

} // verus!
