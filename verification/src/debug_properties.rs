//! The build information shown in a corner of the game: the build's dwarf
//! name, coloured by the dwarf's gender, and the time of the build.
use vstd::prelude::*;

use crate::text::str_eq;

verus! {

/// The build information read from the build's info file.
pub struct DebugProperties {
    pub build_time_nice: Option<String>,
    pub build_dwarf_name: Option<String>,
}

/// How the dwarf name is shown: its text and its colour.
pub struct DwarfLabel {
    pub text: String,
    pub color_hex: &'static str,
}

/// What the build information panel shows.
pub struct DisplayPlan {
    pub dwarf_label: Option<DwarfLabel>,
    pub build_time: Option<String>,
}

/// Whether a character has the Unicode White_Space property, which
/// `char::is_whitespace` tests.
pub open spec fn is_white_space(c: char) -> bool {
    ||| ('\u{9}' <= c && c <= '\u{d}')
    ||| c == ' '
    ||| c == '\u{85}'
    ||| c == '\u{a0}'
    ||| c == '\u{1680}'
    ||| ('\u{2000}' <= c && c <= '\u{200a}')
    ||| c == '\u{2028}'
    ||| c == '\u{2029}'
    ||| c == '\u{202f}'
    ||| c == '\u{205f}'
    ||| c == '\u{3000}'
}

/// The pieces of `text` that are runs of characters without white space,
/// in order, where `current` is the run that `text` continues.
pub open spec fn tokens_after(text: Seq<char>, current: Seq<char>) -> Seq<Seq<char>>
    decreases text.len(),
{
    if text.len() == 0 {
        if current.len() == 0 {
            Seq::empty()
        } else {
            seq![current]
        }
    } else if is_white_space(text[0]) {
        let rest = tokens_after(text.drop_first(), Seq::empty());
        if current.len() == 0 {
            rest
        } else {
            seq![current] + rest
        }
    } else {
        tokens_after(text.drop_first(), current.push(text[0]))
    }
}

/// The maximal runs of non-white-space characters of `text`, in order: what
/// `str::split_whitespace` yields.
pub open spec fn whitespace_tokens(text: Seq<char>) -> Seq<Seq<char>> {
    tokens_after(text, Seq::empty())
}

/// Calls `str::split_whitespace` and collects the pieces: the maximal runs
/// of characters without the White_Space property, in order.
#[verifier::external_body]
fn split_whitespace(text: &str) -> (res: Vec<&str>)
    ensures
        res@.map_values(|token: &str| token@) == whitespace_tokens(text@),
{
    text.split_whitespace().collect()
}

/// The male sign followed by the emoji presentation selector.
pub open spec fn male_sign() -> Seq<char> {
    "\u{2642}\u{fe0f}"@
}

/// The female sign followed by the emoji presentation selector.
pub open spec fn female_sign() -> Seq<char> {
    "\u{2640}\u{fe0f}"@
}

/// The colour of a dwarf's name by its gender sign; an unknown sign gives
/// green.
pub open spec fn gender_color_hex(sign: Seq<char>) -> Seq<char> {
    if sign == male_sign() {
        "#00a0FF"@
    } else if sign == female_sign() {
        "#FF40B0"@
    } else {
        "#00cc00"@
    }
}

/// The label of a dwarf name split into `tokens`: a name is exactly a first
/// name, a last name and a gender sign; anything else is an error that
/// quotes the full name.
pub open spec fn dwarf_label_spec(full_name: Seq<char>, tokens: Seq<Seq<char>>) -> Result<(Seq<char>, Seq<char>), Seq<char>> {
    if tokens.len() == 3 {
        Ok((tokens[0] + " "@ + tokens[1], gender_color_hex(tokens[2])))
    } else {
        Err("Invalid amount of tokens for name '"@ + full_name + "'"@)
    }
}

/// `label` shows the text and colour of `spec_label`.
pub open spec fn shows(label: DwarfLabel, spec_label: (Seq<char>, Seq<char>)) -> bool {
    label.text@ == spec_label.0 && label.color_hex@ == spec_label.1
}

/// The text of the banner printed for a build: the dwarf name and the build
/// time, with a placeholder for each that is missing.
pub open spec fn banner_text(dwarf_name: Option<Seq<char>>, build_time: Option<Seq<char>>) -> Seq<char> {
    let name = match dwarf_name {
        Some(name) => name,
        None => "No dwarf name :("@,
    };
    let time = match build_time {
        Some(time) => time,
        None => "No nice build time :("@,
    };
    "\u{26cf}\u{fe0f} "@ + name + " \u{2692}\u{fe0f} ("@ + time + ")"@
}

/// The view of an optional text.
pub open spec fn opt_view(text: Option<String>) -> Option<Seq<char>> {
    match text {
        Some(text) => Some(text@),
        None => None,
    }
}

/// A dwarf name has a label exactly when it splits into three pieces; the
/// label's text is the first piece, one space and the second piece, and its
/// colour depends only on the third piece.
pub proof fn lemma_dwarf_label_joins_first_and_last_name(
    full_name: Seq<char>,
    tokens: Seq<Seq<char>>,
    other_full_name: Seq<char>,
    other_tokens: Seq<Seq<char>>,
)
    ensures
        dwarf_label_spec(full_name, tokens) is Ok <==> tokens.len() == 3,
        dwarf_label_spec(full_name, tokens) matches Ok(label) ==> {
            &&& label.0.len() == tokens[0].len() + 1 + tokens[1].len()
            &&& label.0.take(tokens[0].len() as int) == tokens[0]
            &&& label.0[tokens[0].len() as int] == ' '
            &&& label.0.skip(tokens[0].len() + 1int) == tokens[1]
        },
        tokens.len() == 3 && other_tokens.len() == 3 && tokens[2] == other_tokens[2] ==> (
        dwarf_label_spec(full_name, tokens)->Ok_0.1 == dwarf_label_spec(
            other_full_name,
            other_tokens,
        )->Ok_0.1),
{
    reveal_strlit(" ");
    if tokens.len() == 3 {
        let text = dwarf_label_spec(full_name, tokens)->Ok_0.0;
        assert(text.take(tokens[0].len() as int) =~= tokens[0]);
        assert(text.skip(tokens[0].len() + 1int) =~= tokens[1]);
    }
}

/// The banner starts with the pick-axe, a space and then the dwarf name
/// whenever there is one, whatever the build time; without a name it shows
/// the name placeholder there.
pub proof fn lemma_banner_shows_the_dwarf_name(dwarf_name: Option<Seq<char>>, build_time: Option<Seq<char>>)
    ensures
        dwarf_name matches Some(name) ==> banner_text(dwarf_name, build_time).take(3 + name.len() as int)
            == "\u{26cf}\u{fe0f} "@ + name,
        dwarf_name is None ==> banner_text(dwarf_name, build_time).take(19)
            == "\u{26cf}\u{fe0f} No dwarf name :("@,
{
    reveal_strlit("\u{26cf}\u{fe0f} ");
    reveal_strlit("No dwarf name :(");
    reveal_strlit("\u{26cf}\u{fe0f} No dwarf name :(");
    let text = banner_text(dwarf_name, build_time);
    match dwarf_name {
        Some(name) => {
            assert(text.take(3 + name.len() as int) =~= "\u{26cf}\u{fe0f} "@ + name);
        },
        None => {
            assert(text.take(19) =~= "\u{26cf}\u{fe0f} No dwarf name :("@);
        },
    }
}

/// The banner ends with the hammers, a space and the build time in
/// parentheses whenever there is a build time, whatever the dwarf name;
/// without one it shows the time placeholder there.
pub proof fn lemma_banner_shows_the_build_time(dwarf_name: Option<Seq<char>>, build_time: Option<Seq<char>>)
    ensures
        build_time matches Some(time) ==> {
            let text = banner_text(dwarf_name, build_time);
            text.skip(text.len() - (time.len() + 6) as int) == " \u{2692}\u{fe0f} ("@ + time + ")"@
        },
        build_time is None ==> {
            let text = banner_text(dwarf_name, build_time);
            text.skip(text.len() - 27int) == " \u{2692}\u{fe0f} (No nice build time :()"@
        },
{
    reveal_strlit(" \u{2692}\u{fe0f} (");
    reveal_strlit(")");
    reveal_strlit("No nice build time :(");
    reveal_strlit(" \u{2692}\u{fe0f} (No nice build time :()");
    reveal_strlit("\u{26cf}\u{fe0f} ");
    reveal_strlit("No dwarf name :(");
    let text = banner_text(dwarf_name, build_time);
    match build_time {
        Some(time) => {
            assert(text.skip(text.len() - (time.len() + 6) as int) =~= " \u{2692}\u{fe0f} ("@ + time
                + ")"@);
        },
        None => {
            assert(text.skip(text.len() - 27int) =~= " \u{2692}\u{fe0f} (No nice build time :()"@);
        },
    }
}

fn gender_color(sign: &str) -> (res: &'static str)
    ensures
        res@ == gender_color_hex(sign@),
{
    if str_eq(sign, "\u{2642}\u{fe0f}") {
        "#00a0FF"
    } else if str_eq(sign, "\u{2640}\u{fe0f}") {
        "#FF40B0"
    } else {
        "#00cc00"
    }
}

fn clone_opt(text: &Option<String>) -> (res: Option<String>)
    ensures
        opt_view(res) == opt_view(*text),
{
    match text {
        Some(text) => Some(text.clone()),
        None => None,
    }
}

/// The label for the dwarf name `full_dwarf_name`, given the pieces into
/// which white space splits it (see `dwarf_label_spec`).
pub fn dwarf_label_from_tokens(full_dwarf_name: &str, tokens: &Vec<&str>) -> (res: Result<DwarfLabel, String>)
    ensures
        match dwarf_label_spec(full_dwarf_name@, tokens@.map_values(|token: &str| token@)) {
            Ok(label) => res matches Ok(shown) && shows(shown, label),
            Err(message) => res matches Err(text) && text@ == message,
        },
{
    let ghost pieces = tokens@.map_values(|token: &str| token@);
    if tokens.len() == 3 {
        let mut text = String::from_str(tokens[0]);
        text.append(" ");
        text.append(tokens[1]);
        assert(pieces[0] == tokens@[0]@ && pieces[1] == tokens@[1]@ && pieces[2] == tokens@[2]@);
        Ok(DwarfLabel { text, color_hex: gender_color(tokens[2]) })
    } else {
        let mut text = String::from_str("Invalid amount of tokens for name '");
        text.append(full_dwarf_name);
        text.append("'");
        Err(text)
    }
}

/// The label for the dwarf name `full_dwarf_name`, which is split at white
/// space.
pub fn dwarf_label(full_dwarf_name: &str) -> (res: Result<DwarfLabel, String>)
    ensures
        match dwarf_label_spec(full_dwarf_name@, whitespace_tokens(full_dwarf_name@)) {
            Ok(label) => res matches Ok(shown) && shows(shown, label),
            Err(message) => res matches Err(text) && text@ == message,
        },
{
    let tokens = split_whitespace(full_dwarf_name);
    dwarf_label_from_tokens(full_dwarf_name, &tokens)
}

impl DebugProperties {
    /// What the panel shows: the dwarf label where there is a dwarf name,
    /// and the build time where there is one; an ill-formed dwarf name is
    /// an error, and then nothing is shown.
    pub fn display_plan(&self) -> (res: Result<DisplayPlan, String>)
        ensures
            match self.build_dwarf_name {
                Some(name) => match dwarf_label_spec(name@, whitespace_tokens(name@)) {
                    Ok(label) => res matches Ok(plan) && plan.dwarf_label matches Some(shown)
                        && shows(shown, label) && opt_view(plan.build_time) == opt_view(
                        self.build_time_nice,
                    ),
                    Err(message) => res matches Err(text) && text@ == message,
                },
                None => res matches Ok(plan) && plan.dwarf_label is None && opt_view(
                    plan.build_time,
                ) == opt_view(self.build_time_nice),
            },
    {
        let dwarf = match &self.build_dwarf_name {
            Some(name) => match dwarf_label(name.as_str()) {
                Ok(label) => Some(label),
                Err(message) => {
                    return Err(message);
                },
            },
            None => None,
        };
        Ok(DisplayPlan { dwarf_label: dwarf, build_time: clone_opt(&self.build_time_nice) })
    }

    /// The banner printed for the build (see `banner_text`).
    pub fn banner(&self) -> (res: String)
        ensures
            res@ == banner_text(opt_view(self.build_dwarf_name), opt_view(self.build_time_nice)),
    {
        let mut text = String::from_str("\u{26cf}\u{fe0f} ");
        match &self.build_dwarf_name {
            Some(name) => text.append(name.as_str()),
            None => text.append("No dwarf name :("),
        }
        text.append(" \u{2692}\u{fe0f} (");
        match &self.build_time_nice {
            Some(time) => text.append(time.as_str()),
            None => text.append("No nice build time :("),
        }
        text.append(")");
        text
    }
}

} // verus!
