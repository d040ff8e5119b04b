//! The item editor: from the text of its fields to a dock item.
//!
//! The host shows the dialog; what the user typed becomes an item here.

use vstd::prelude::*;
use crate::config::DockItem;
use crate::menu::{special_tag, special_tag_of, SPECIAL_COUNT};

verus! {

/// The error of the `shell_words` crate: a quote was not closed.
#[verifier::external_type_specification]
#[verifier::external_body]
pub struct ExParseError(shell_words::ParseError);

/// The texts of a list of strings.
pub open spec fn texts_of(words: Seq<String>) -> Seq<Seq<char>> {
    words.map_values(|w: String| w@)
}

/// The words that a command line splits into by the rules of the Unix
/// shell; `None` for a line with a quote that is not closed.
pub uninterp spec fn shell_split(line: Seq<char>) -> Option<Seq<Seq<char>>>;

/// `shell_words::split`: the words of a command line, or an error for a
/// line that cannot be split.
#[verifier::external_body]
pub(crate) fn split_words(line: &str) -> (r: Result<Vec<String>, shell_words::ParseError>)
    ensures
        match r {
            Ok(words) => shell_split(line@) == Some(texts_of(words@)),
            Err(_) => shell_split(line@) is None,
        },
{
    shell_words::split(line)
}

/// The arguments that the text of the arguments field stands for, given
/// the words it splits into: none for an empty field, the words where the
/// text can be split, and the whole text as one argument where it cannot.
pub open spec fn args_for(text: Seq<char>, words: Option<Seq<Seq<char>>>) -> Seq<Seq<char>> {
    if text.len() == 0 {
        Seq::empty()
    } else {
        match words {
            Some(w) => w,
            None => seq![text],
        }
    }
}

/// The arguments that the text of the arguments field stands for, given
/// the words it splits into, if it can be split.
pub fn args_or_whole(text: String, words: Option<Vec<String>>) -> (args: Vec<String>)
    ensures
        texts_of(args@) == args_for(
            text@,
            match words {
                Some(w) => Some(texts_of(w@)),
                None => None,
            },
        ),
{
    if text.as_str().unicode_len() == 0 {
        let none: Vec<String> = Vec::new();
        assert(texts_of(none@) =~= Seq::<Seq<char>>::empty());
        return none;
    }
    match words {
        Some(w) => w,
        None => {
            let mut whole: Vec<String> = Vec::new();
            whole.push(text);
            assert(texts_of(whole@) =~= seq![text@]);
            whole
        },
    }
}

/// The arguments that the text of the arguments field stands for.
pub fn parse_args(text: String) -> (args: Vec<String>)
    ensures
        texts_of(args@) == args_for(text@, shell_split(text@)),
{
    let words: Option<Vec<String>> = match split_words(text.as_str()) {
        Ok(w) => Some(w),
        Err(_) => None,
    };
    args_or_whole(text, words)
}

/// The system action chosen in the editor's list: entry 0 stands for
/// none, and entry `n` for the action number `n - 1`.
pub open spec fn chosen_special(selection: i32) -> Option<Seq<char>> {
    if 0 < selection <= SPECIAL_COUNT {
        Some(special_tag_of(selection - 1))
    } else {
        None
    }
}

/// The item that the editor's fields describe. An empty name becomes
/// "Unnamed", an empty icon field means no icon, and the item is never a
/// separator.
pub fn edited_item(name: String, path: String, icon: String, args: String, selection: i32) -> (item:
    DockItem)
    ensures
        item.name@ == (if name@.len() == 0 {
            "Unnamed"@
        } else {
            name@
        }),
        item.path == path,
        item.icon == (if icon@.len() == 0 {
            None
        } else {
            Some(icon)
        }),
        texts_of(item.args@) == args_for(args@, shell_split(args@)),
        !item.separator,
        match item.special {
            Some(tag) => chosen_special(selection) == Some(tag@),
            None => chosen_special(selection) is None,
        },
{
    let special: Option<String> = if selection > 0 && selection - 1 < SPECIAL_COUNT as i32 {
        Some(String::from_str(special_tag((selection - 1) as usize)))
    } else {
        None
    };
    let shown: String = if name.as_str().unicode_len() == 0 {
        String::from_str("Unnamed")
    } else {
        name
    };
    let icon: Option<String> = if icon.as_str().unicode_len() == 0 {
        None
    } else {
        Some(icon)
    };
    DockItem { name: shown, path, icon, args: parse_args(args), separator: false, special }
}

} // verus!
