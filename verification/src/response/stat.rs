//! The STAT reply: message count and total mailbox size in octets.

use vstd::prelude::*;

use crate::error::Error;
use crate::response::{pair_fits, pair_kind, pair_of, parse_pair};

verus! {

/// A drop-listing: how many messages the mailbox holds and their total
/// size in octets.
#[derive(Debug, Clone, Copy, PartialEq, Eq, Structural)]
pub struct Stat {
    pub count: u64,
    pub size: u64,
}

/// Parses the text of a positive STAT reply: exactly two non-negative
/// integers separated by one space.
pub fn parse_stat(text: &Vec<u8>) -> (r: Result<Stat, Error>)
    ensures
        match r {
            Ok(st) => pair_of(text@) == Some((st.count as nat, st.size as nat)),
            Err(e) => !pair_fits(text@) && e.kind == pair_kind(text@),
        },
{
    match parse_pair(text.as_slice()) {
        Ok((count, size)) => Ok(Stat { count, size }),
        Err(e) => Err(e),
    }
}

} // verus!
