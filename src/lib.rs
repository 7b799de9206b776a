pub mod guard;
pub mod oauth2;
pub mod session;
pub mod statmuse;
pub mod twitter;

use vstd::prelude::*;
use crate::guard::AuthError;
use crate::statmuse::LookupError;

verus! {

/// Everything that can keep the bot from answering a mention.
#[derive(Clone, Copy, Debug, PartialEq, Eq)]
pub enum Error {
    /// The question could not be answered.
    Lookup(LookupError),
    /// No usable token could be had.
    Auth(AuthError),
}

} // verus!
