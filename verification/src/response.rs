//! The response parsers: pure functions from a decoded reply unit (or its
//! lines) to typed values, one submodule per command family.
//!
//! Shared here is the `<num> <arg>` token shape that STAT, LIST and UIDL
//! replies all use: a digit string, one space, and a second token.

use vstd::prelude::*;

use crate::codec::{has_sp, rest_of, word_of};
use crate::error::{Error, ErrorKind};
use crate::numbers::{dec_val, is_digits, parse_u64};
use crate::codec::{copy_range, find_sp};

pub mod capability;
pub mod list;
pub mod stat;
pub mod uidl;

verus! {

/// The two numbers of a `<num> <num>` line, if it has that exact shape:
/// a non-empty digit string, a single space, a non-empty digit string.
pub open spec fn pair_of(s: Seq<u8>) -> Option<(nat, nat)> {
    if has_sp(s) && word_of(s).len() >= 1 && is_digits(word_of(s)) && rest_of(s).len() >= 1
        && is_digits(rest_of(s)) {
        Some((dec_val(word_of(s)), dec_val(rest_of(s))))
    } else {
        None
    }
}

/// The pair exists and both values fit in a `u64`.
pub open spec fn pair_fits(s: Seq<u8>) -> bool {
    pair_of(s) matches Some((a, b)) && a <= u64::MAX && b <= u64::MAX
}

/// The error kind for a line that is not a fitting pair: a line without a
/// space has the wrong shape (`InvalidResponse`); one with a space but a
/// token that is not a fitting non-negative integer fails the integer
/// parse (`ParseInt`).
pub open spec fn pair_kind(s: Seq<u8>) -> ErrorKind {
    if !has_sp(s) {
        ErrorKind::InvalidResponse
    } else {
        ErrorKind::ParseInt
    }
}

/// Parses a `<num> <num>` line into its two values.
pub fn parse_pair(s: &[u8]) -> (r: Result<(u64, u64), Error>)
    ensures
        match r {
            Ok((a, b)) => pair_of(s@) == Some((a as nat, b as nat)),
            Err(e) => !pair_fits(s@) && e.kind == pair_kind(s@),
        },
{
    let i = find_sp(s);
    proof {
        crate::codec::lemma_sp_idx(s@);
    }
    if i == s.len() {
        return Err(Error::new(ErrorKind::InvalidResponse, "expected two fields".to_owned()));
    }
    let w = copy_range(s, 0, i);
    let rest = copy_range(s, i + 1, s.len());
    match parse_u64(w.as_slice()) {
        None => Err(Error::new(ErrorKind::ParseInt, "first field is not a number".to_owned())),
        Some(a) => match parse_u64(rest.as_slice()) {
            None => Err(
                Error::new(ErrorKind::ParseInt, "second field is not a number".to_owned()),
            ),
            Some(b) => Ok((a, b)),
        },
    }
}

} // verus!
