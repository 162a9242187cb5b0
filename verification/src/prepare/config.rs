//! Where the per-user state lives.

use vstd::prelude::*;
use vstd::string::*;
use crate::error::{about, lifted, Failure, FailureKind, FailureView};
use crate::text::join2;

verus! {

/// The state directory under a home directory.
pub open spec fn state_dir(home: Seq<char>) -> Seq<char> {
    home + "/.fireup"@
}

/// The state directory of the user whose home directory is `home`, or
/// `ConfigInvalid` where no home directory is known.  The caller creates
/// the directory if it is missing.
pub open spec fn config_dir_of(home: Option<Seq<char>>) -> Result<Seq<char>, FailureView> {
    match home {
        Some(h) => Ok(state_dir(h)),
        None => Err(about(FailureKind::ConfigInvalid, "Failed to get home directory"@)),
    }
}

pub fn get_config_dir(home: &Option<String>) -> (r: Result<String, Failure>)
    ensures
        lifted(r) == config_dir_of(home.deep_view()),
{
    match home {
        Some(h) => Ok(join2(h.as_str(), "/.fireup")),
        None => Err(Failure::about(FailureKind::ConfigInvalid, "Failed to get home directory")),
    }
}

} // verus!
