//! The update policy, which decides what happens to a snapshot that is
//! missing or differs.

use crate::error::{Error, Result};
use crate::text::same_text;
use vstd::prelude::*;

verus! {

/// What a run does with a snapshot that is missing or out of date.
#[derive(PartialEq, Eq, Debug, Clone, Copy, Structural)]
pub enum Update {
    /// Write new snapshots to the work-in-progress directory, and report a
    /// differing snapshot as a failure.
    Wip,
    /// Write new and differing snapshots over the snapshot itself.
    Overwrite,
}

/// The variable of the environment that selects the policy.
pub const UPDATE_VAR: &'static str = "TRYBUILD";

impl Default for Update {
    fn default() -> (r: Self)
        ensures
            r == Update::Wip,
    {
        Update::Wip
    }
}

impl Update {
    /// The policy that a value of the update variable selects, if any: an
    /// unset variable and `wip` select the provisional policy, `overwrite`
    /// the overwriting one, and every other value is refused.
    pub open spec fn selected(var: Option<Seq<char>>) -> Option<Update> {
        match var {
            None => Some(Update::Wip),
            Some(v) => if v == "wip"@ {
                Some(Update::Wip)
            } else if v == "overwrite"@ {
                Some(Update::Overwrite)
            } else {
                None
            },
        }
    }

    /// Reads the policy from the value of the update variable, `None` when
    /// the variable is not set. An unknown value is an error that names it.
    pub fn from_var(var: Option<&str>) -> (r: Result<Update>)
        ensures
            match Update::selected(
                match var {
                    Some(v) => Some(v@),
                    None => None,
                },
            ) {
                Some(update) => r == Ok::<Update, Error>(update),
                None => r matches Err(Error::UpdateVar(value)) && var matches Some(v) && value@
                    == v@,
            },
    {
        match var {
            None => Ok(Update::Wip),
            Some(v) => {
                if same_text(v, "wip") {
                    Ok(Update::Wip)
                } else if same_text(v, "overwrite") {
                    Ok(Update::Overwrite)
                } else {
                    Err(Error::UpdateVar(v.to_owned()))
                }
            },
        }
    }
}

} // verus!
