//! The UIDL reply: `<message number> <unique-id>` listings. The unique-id
//! is opaque: it is kept verbatim, compared only for equality, and by the
//! protocol holds no whitespace.

use vstd::prelude::*;

use crate::codec::{copy_range, find_sp, has_sp, rest_of, word_of};
use crate::error::{Error, ErrorKind};
use crate::numbers::{dec_val, is_digits, parse_u64};

verus! {

/// One unique-id listing.
#[derive(Debug, PartialEq, Eq)]
pub struct UidlItem {
    pub num: u64,
    pub id: Vec<u8>,
}

/// The reply to UIDL: one listing when a message number was given, the
/// whole (possibly empty) listing otherwise.
#[derive(Debug, PartialEq, Eq)]
pub enum UidlResponse {
    Single(UidlItem),
    Multiple(Vec<UidlItem>),
}

/// A line is a valid unique-id listing: a fitting message number of at
/// least 1, one space, and a non-empty id without spaces.
pub open spec fn uidl_ok(l: Seq<u8>) -> bool {
    &&& has_sp(l)
    &&& word_of(l).len() >= 1
    &&& is_digits(word_of(l))
    &&& 1 <= dec_val(word_of(l)) <= u64::MAX
    &&& rest_of(l).len() >= 1
    &&& !has_sp(rest_of(l))
}

/// The error kind for a line that is no unique-id listing: a garbled or
/// oversized message number is `ParseInt`, every shape fault is
/// `InvalidResponse`.
pub open spec fn uidl_kind(l: Seq<u8>) -> ErrorKind {
    if !has_sp(l) {
        ErrorKind::InvalidResponse
    } else if word_of(l).len() == 0 || !is_digits(word_of(l)) || dec_val(word_of(l)) > u64::MAX {
        ErrorKind::ParseInt
    } else {
        ErrorKind::InvalidResponse
    }
}

/// Parses one unique-id listing.
pub fn parse_uidl_line(l: &Vec<u8>) -> (r: Result<UidlItem, Error>)
    ensures
        match r {
            Ok(it) => uidl_ok(l@) && it.num as nat == dec_val(word_of(l@)) && it.id@ == rest_of(
                l@,
            ),
            Err(e) => !uidl_ok(l@) && e.kind == uidl_kind(l@),
        },
{
    let s = l.as_slice();
    let i = find_sp(s);
    proof {
        crate::codec::lemma_sp_idx(s@);
    }
    if i == s.len() {
        return Err(Error::new(ErrorKind::InvalidResponse, "expected two fields".to_owned()));
    }
    let w = copy_range(s, 0, i);
    match parse_u64(w.as_slice()) {
        None => Err(Error::new(ErrorKind::ParseInt, "message number is not a number".to_owned())),
        Some(num) => {
            if num == 0 {
                return Err(
                    Error::new(ErrorKind::InvalidResponse, "message number is 0".to_owned()),
                );
            }
            let id = copy_range(s, i + 1, s.len());
            if id.len() == 0 {
                return Err(Error::new(ErrorKind::InvalidResponse, "empty unique-id".to_owned()));
            }
            let j = find_sp(id.as_slice());
            proof {
                crate::codec::lemma_sp_idx(id@);
            }
            if j != id.len() {
                return Err(
                    Error::new(ErrorKind::InvalidResponse, "unique-id holds a space".to_owned()),
                );
            }
            Ok(UidlItem { num, id })
        },
    }
}

/// The listings of a whole body, if every line is a valid one.
pub open spec fn uidls_of(lines: Seq<Seq<u8>>) -> Option<Seq<(nat, Seq<u8>)>> {
    if forall|i: int| 0 <= i < lines.len() ==> uidl_ok(#[trigger] lines[i]) {
        Some(
            Seq::new(
                lines.len(),
                |i: int| (dec_val(word_of(lines[i])), rest_of(lines[i])),
            ),
        )
    } else {
        None
    }
}

/// Parses a whole UIDL body. An empty body is an empty listing, not an
/// error; the first malformed line aborts the parse.
pub fn parse_uidl_body(lines: &Vec<Vec<u8>>) -> (r: Result<Vec<UidlItem>, Error>)
    ensures
        match r {
            Ok(v) => {
                &&& uidls_of(lines.deep_view()) matches Some(its)
                &&& v@.len() == its.len()
                &&& forall|i: int|
                    0 <= i < its.len() ==> (#[trigger] v@[i]).num as nat == its[i].0 && v@[i].id@
                        == its[i].1
            },
            Err(e) => {
                &&& uidls_of(lines.deep_view()) is None
                &&& exists|i: int|
                    {
                        &&& 0 <= i < lines.deep_view().len()
                        &&& !uidl_ok(#[trigger] lines.deep_view()[i])
                        &&& e.kind == uidl_kind(lines.deep_view()[i])
                        &&& forall|j: int| 0 <= j < i ==> uidl_ok(#[trigger] lines.deep_view()[j])
                    }
            },
        },
{
    let ghost dv = lines.deep_view();
    let mut out: Vec<UidlItem> = Vec::new();
    let mut i: usize = 0;
    while i < lines.len()
        invariant
            dv == lines.deep_view(),
            0 <= i <= lines@.len(),
            dv.len() == lines@.len(),
            out@.len() == i,
            forall|j: int| 0 <= j < i ==> uidl_ok(#[trigger] dv[j]),
            forall|j: int|
                0 <= j < i ==> (#[trigger] out@[j]).num as nat == dec_val(word_of(dv[j]))
                    && out@[j].id@ == rest_of(dv[j]),
        decreases lines@.len() - i,
    {
        proof {
            assert(dv[i as int] == lines@[i as int].deep_view());
            assert(lines@[i as int].deep_view() =~= lines@[i as int]@);
        }
        match parse_uidl_line(&lines[i]) {
            Ok(it) => {
                out.push(it);
            },
            Err(e) => {
                proof {
                    assert(!uidl_ok(dv[i as int]));
                }
                return Err(e);
            },
        }
        i = i + 1;
    }
    proof {
        let its = uidls_of(dv)->Some_0;
        assert(uidls_of(dv) matches Some(x) && x == its);
    }
    Ok(out)
}

} // verus!
