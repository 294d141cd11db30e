use vstd::prelude::*;

use crate::types::{PasswordHash, Salt};

verus! {

/// The pair the server authenticates with: a salted password digest and the
/// salt that was mixed into it.
#[derive(Clone, Debug, PartialEq, Eq)]
pub struct TokenInfo {
    pub hash: PasswordHash,
    pub salt: Salt,
}

} // verus!
