//! Paths as the user types them: which shorthand a path uses, and what to
//! say when it cannot be resolved.

use vstd::prelude::*;
use vstd::string::{StrSliceExecFns, StringExecFns};
use crate::text::same_text;

verus! {

/// The shape of a path as it was typed.
pub enum PathForm {
    /// `~` alone: the home directory.
    Home,
    /// `~/` and more: what follows, below the home directory.
    UnderHome(String),
    /// Anything else: a path to make canonical as it stands.
    Plain,
}

/// Whether `path` is `~/` followed by at least one character.
pub open spec fn under_home(path: Seq<char>) -> bool {
    path.len() > 2 && path.take(2) == "~/"@
}

/// What to say when a path of this shape could not be resolved.
pub open spec fn failure(form: PathForm) -> Seq<char> {
    match form {
        PathForm::Plain => "Error: unable to canonicalise path. Check path exists"@,
        _ => "Error: unable to find home directory"@,
    }
}

/// Tells which shorthand `path` uses.
pub fn parse_path(path: &String) -> (form: PathForm)
    ensures
        match form {
            PathForm::Home => path@ == "~"@,
            PathForm::UnderHome(rest) => path@ != "~"@ && under_home(path@) && rest@ == path@.skip(
                2,
            ),
            PathForm::Plain => path@ != "~"@ && !under_home(path@),
        },
{
    let text = path.as_str();
    if same_text(text, "~") {
        PathForm::Home
    } else {
        let len = text.unicode_len();
        if len > 2 && same_text(text.substring_char(0, 2), "~/") {
            let rest = text.substring_char(2, len);
            PathForm::UnderHome(String::from_str(rest))
        } else {
            PathForm::Plain
        }
    }
}

/// The result of resolving a path of shape `form`: the path that was found,
/// or the message that says why none was.
pub fn resolution(form: &PathForm, found: Option<String>) -> (resolved: Result<String, String>)
    ensures
        match found {
            Some(path) => resolved matches Ok(same) && same@ == path@,
            None => resolved matches Err(message) && message@ == failure(*form),
        },
{
    match found {
        Some(path) => Ok(path),
        None => match form {
            PathForm::Plain => Err(
                String::from_str("Error: unable to canonicalise path. Check path exists"),
            ),
            _ => Err(String::from_str("Error: unable to find home directory")),
        },
    }
}

} // verus!
