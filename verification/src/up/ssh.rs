//! The default private key.

use vstd::prelude::*;
use vstd::string::*;
use crate::error::{about, Failure, FailureKind};
use crate::prepare::config::state_dir;
use crate::script::{failing, fetching, last, script0, Phase, PhaseView, Source, SourceView};
use crate::text::join2;

verus! {

/// Where the search for the private key stands, and its path once it is
/// known.
#[derive(Clone, Debug, PartialEq, Eq)]
pub struct PrivateKey {
    pub phase: Phase,
    pub path: Option<String>,
}

pub struct PrivateKeyView {
    pub phase: PhaseView,
    pub path: Option<Seq<char>>,
}

impl View for PrivateKey {
    type V = PrivateKeyView;

    open spec fn view(&self) -> PrivateKeyView {
        PrivateKeyView { phase: self.phase@, path: self.path.deep_view() }
    }
}

/// The default private key of the user whose home directory is `home`:
/// `id_rsa` in the state directory is looked for, and what is found is
/// made absolute.  Without a home directory the search fails.
pub open spec fn private_key_of(home: Option<Seq<char>>, fetched: Seq<Seq<char>>) -> PrivateKeyView {
    match home {
        None => PrivateKeyView {
            phase: failing(about(FailureKind::ConfigInvalid, "Failed to get home directory"@)),
            path: None,
        },
        Some(h) => if fetched.len() == 0 {
            PrivateKeyView {
                phase: fetching(
                    Seq::empty(),
                    SourceView::LastMatch { pattern: state_dir(h) + "/id_rsa"@ },
                ),
                path: None,
            }
        } else if fetched.len() == 1 {
            PrivateKeyView {
                phase: fetching(Seq::empty(), SourceView::Canonical { path: fetched[0] }),
                path: None,
            }
        } else {
            PrivateKeyView { phase: last(Seq::empty()), path: Some(fetched[1]) }
        },
    }
}

/// Finds the default private key.
///
/// Called again with every value fetched so far, it says what to do next;
/// with two values or more it is complete and names the key.
pub fn get_private_key_path(home: &Option<String>, fetched: &Vec<String>) -> (r: PrivateKey)
    ensures
        r@ == private_key_of(home.deep_view(), fetched.deep_view()),
{
    let h = match home {
        Some(h) => h,
        None => {
            return PrivateKey {
                phase: Phase::failing(
                    Failure::about(FailureKind::ConfigInvalid, "Failed to get home directory"),
                ),
                path: None,
            };
        },
    };
    if fetched.len() == 0 {
        PrivateKey {
            phase: Phase::fetching(
                script0(),
                Source::LastMatch {
                    pattern: join2(join2(h.as_str(), "/.fireup").as_str(), "/id_rsa"),
                },
            ),
            path: None,
        }
    } else if fetched.len() == 1 {
        assert(fetched.deep_view()[0] == fetched[0]@);
        PrivateKey {
            phase: Phase::fetching(script0(), Source::Canonical { path: fetched[0].clone() }),
            path: None,
        }
    } else {
        assert(fetched.deep_view()[1] == fetched[1]@);
        PrivateKey { phase: Phase::last(script0()), path: Some(fetched[1].clone()) }
    }
}

} // verus!
