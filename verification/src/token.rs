//! How large a token count is, for writing it compactly.

use vstd::prelude::*;

verus! {

/// The unit a token count is written in: as it is, in thousands (`K`), or in
/// millions (`M`).
#[derive(Debug, Clone, Copy, PartialEq, Eq, Structural)]
pub enum TokenScale {
    Units,
    Thousands,
    Millions,
}

pub open spec fn spec_token_scale(n: u64) -> TokenScale {
    if n >= 1_000_000 {
        TokenScale::Millions
    } else if n >= 1_000 {
        TokenScale::Thousands
    } else {
        TokenScale::Units
    }
}

/// Millions from 1 000 000 up, thousands from 1 000 up, plain below.
pub fn token_scale(n: u64) -> (scale: TokenScale)
    ensures
        scale == spec_token_scale(n),
{
    if n >= 1_000_000 {
        TokenScale::Millions
    } else if n >= 1_000 {
        TokenScale::Thousands
    } else {
        TokenScale::Units
    }
}

} // verus!
