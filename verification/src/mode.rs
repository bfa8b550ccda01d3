//! The relaying mode: which fee-management strategy the relayer runs with.

use vstd::prelude::*;

verus! {

/// The relaying mode, fixed for the process lifetime once resolved.
#[derive(Clone, Copy, Debug, PartialEq, Eq, Structural)]
pub enum RelayerMode {
    AlwaysRelay,
    Api,
    File,
}

/// The mode a string resolves to: exactly "AlwaysRelay", "Api" or "File";
/// anything else is rejected.
pub open spec fn spec_parse_mode(s: Seq<char>) -> Option<RelayerMode> {
    if s == "AlwaysRelay"@ {
        Some(RelayerMode::AlwaysRelay)
    } else if s == "Api"@ {
        Some(RelayerMode::Api)
    } else if s == "File"@ {
        Some(RelayerMode::File)
    } else {
        None
    }
}

/// Character-for-character string equality.
pub fn str_eq(a: &str, b: &str) -> (r: bool)
    ensures
        r <==> a@ == b@,
{
    let la = a.unicode_len();
    let lb = b.unicode_len();
    if la != lb {
        return false;
    }
    let mut i: usize = 0;
    while i < la
        invariant
            i <= la,
            la == a@.len(),
            la == b@.len(),
            forall|j: int| 0 <= j < i ==> a@[j] == b@[j],
        decreases la - i,
    {
        if a.get_char(i) != b.get_char(i) {
            return false;
        }
        i += 1;
    }
    proof {
        assert(a@ =~= b@);
    }
    true
}

/// Parse a mode string; an unrecognized value yields `None`, which every
/// caller must treat as fatal: the process may not start in an ambiguous
/// mode.
pub fn parse_relayer_mode(s: &str) -> (r: Option<RelayerMode>)
    ensures
        r == spec_parse_mode(s@),
{
    if str_eq(s, "AlwaysRelay") {
        Some(RelayerMode::AlwaysRelay)
    } else if str_eq(s, "Api") {
        Some(RelayerMode::Api)
    } else if str_eq(s, "File") {
        Some(RelayerMode::File)
    } else {
        None
    }
}

} // verus!
