//! The LIST reply: scan listings of `<message number> <size in octets>`.
//!
//! The multi-line form carries one listing per body line; the single-line
//! form (LIST with an argument) carries one listing in the status text. A
//! malformed line aborts the whole parse: a bad listing means a framing or
//! server fault, not one bad record.

use vstd::prelude::*;

use crate::codec::{lemma_sp_idx_is, rest_of, word_of, SP};
use crate::numbers::{dec_rep, lemma_dec_rep_digits, lemma_dec_val_rep};
use crate::error::{Error, ErrorKind};
use crate::response::{pair_fits, pair_kind, pair_of, parse_pair};

verus! {

/// One scan listing: a message number (always at least 1) and that
/// message's size in octets.
#[derive(Debug, Clone, Copy, PartialEq, Eq, Structural)]
pub struct ListItem {
    pub num: u64,
    pub size: u64,
}

/// The reply to LIST: one listing when a message number was given, the
/// whole (possibly empty) scan list otherwise.
#[derive(Debug, PartialEq, Eq)]
pub enum ListResponse {
    Single(ListItem),
    Multiple(Vec<ListItem>),
}

/// A line is a valid scan listing: a fitting `<num> <size>` pair whose
/// message number is at least 1.
pub open spec fn item_ok(l: Seq<u8>) -> bool {
    pair_fits(l) && pair_of(l)->Some_0.0 >= 1
}

/// The two values of a valid scan listing.
pub open spec fn item_val(l: Seq<u8>) -> (nat, nat)
    recommends
        item_ok(l),
{
    pair_of(l)->Some_0
}

/// The error kind for a line that is no scan listing: shape faults are
/// `InvalidResponse`, a garbled or oversized number is `ParseInt`, and a
/// message number of 0 is `InvalidResponse` again.
pub open spec fn item_kind(l: Seq<u8>) -> ErrorKind {
    if !pair_fits(l) {
        pair_kind(l)
    } else {
        ErrorKind::InvalidResponse
    }
}

/// The scan list of a whole body, if every line is a valid listing.
pub open spec fn items_of(lines: Seq<Seq<u8>>) -> Option<Seq<(nat, nat)>> {
    if forall|i: int| 0 <= i < lines.len() ==> item_ok(#[trigger] lines[i]) {
        Some(Seq::new(lines.len(), |i: int| item_val(lines[i])))
    } else {
        None
    }
}

/// Parses one scan listing.
pub fn parse_list_line(l: &Vec<u8>) -> (r: Result<ListItem, Error>)
    ensures
        match r {
            Ok(it) => item_ok(l@) && it.num as nat == item_val(l@).0 && it.size as nat == item_val(
                l@,
            ).1,
            Err(e) => !item_ok(l@) && e.kind == item_kind(l@),
        },
{
    match parse_pair(l.as_slice()) {
        Ok((num, size)) => {
            if num == 0 {
                Err(Error::new(ErrorKind::InvalidResponse, "message number is 0".to_owned()))
            } else {
                Ok(ListItem { num, size })
            }
        },
        Err(e) => Err(e),
    }
}

/// Parses a whole LIST body. An empty body is an empty scan list, not an
/// error; the first malformed line aborts the parse.
pub fn parse_list_body(lines: &Vec<Vec<u8>>) -> (r: Result<Vec<ListItem>, Error>)
    ensures
        match r {
            Ok(v) => {
                &&& items_of(lines.deep_view()) matches Some(its)
                &&& v@.len() == its.len()
                &&& forall|i: int|
                    0 <= i < its.len() ==> (#[trigger] v@[i]).num as nat == its[i].0 && v@[i].size
                        as nat == its[i].1
            },
            Err(e) => {
                &&& items_of(lines.deep_view()) is None
                &&& exists|i: int|
                    {
                        &&& 0 <= i < lines.deep_view().len()
                        &&& !item_ok(#[trigger] lines.deep_view()[i])
                        &&& e.kind == item_kind(lines.deep_view()[i])
                        &&& forall|j: int| 0 <= j < i ==> item_ok(#[trigger] lines.deep_view()[j])
                    }
            },
        },
{
    let ghost dv = lines.deep_view();
    let mut out: Vec<ListItem> = Vec::new();
    let mut i: usize = 0;
    while i < lines.len()
        invariant
            dv == lines.deep_view(),
            0 <= i <= lines@.len(),
            dv.len() == lines@.len(),
            out@.len() == i,
            forall|j: int| 0 <= j < i ==> item_ok(#[trigger] dv[j]),
            forall|j: int|
                0 <= j < i ==> (#[trigger] out@[j]).num as nat == item_val(dv[j]).0 && out@[j].size
                    as nat == item_val(dv[j]).1,
        decreases lines@.len() - i,
    {
        proof {
            assert(dv[i as int] == lines@[i as int].deep_view());
            assert(lines@[i as int].deep_view() =~= lines@[i as int]@);
        }
        match parse_list_line(&lines[i]) {
            Ok(it) => {
                out.push(it);
            },
            Err(e) => {
                proof {
                    assert(!item_ok(dv[i as int]));
                }
                return Err(e);
            },
        }
        i = i + 1;
    }
    proof {
        let its = items_of(dv)->Some_0;
        assert(items_of(dv) matches Some(x) && x == its);
    }
    Ok(out)
}

/// The wire rendering of one scan listing: the decimal digits of the
/// message number, one space, the decimal digits of the size.
pub open spec fn listing_line(n: nat, s: nat) -> Seq<u8> {
    dec_rep(n) + seq![SP] + dec_rep(s)
}

/// Parsing the rendering of one listing gives back exactly its numbers.
pub proof fn lemma_listing_round_trip(n: u64, s: u64)
    ensures
        pair_of(listing_line(n as nat, s as nat)) == Some((n as nat, s as nat)),
        n >= 1 ==> item_ok(listing_line(n as nat, s as nat)) && item_val(
            listing_line(n as nat, s as nat),
        ) == (n as nat, s as nat),
{
    let a = dec_rep(n as nat);
    let b = dec_rep(s as nat);
    let l = listing_line(n as nat, s as nat);
    lemma_dec_rep_digits(n as nat);
    lemma_dec_rep_digits(s as nat);
    lemma_dec_val_rep(n as nat);
    lemma_dec_val_rep(s as nat);
    assert(l.len() == a.len() + 1 + b.len());
    assert forall|j: int| 0 <= j < a.len() implies l[j] != SP by {
        assert(l[j] == a[j]);
    }
    assert(l[a.len() as int] == SP);
    lemma_sp_idx_is(l, a.len() as int);
    assert(word_of(l) =~= a);
    assert(rest_of(l) =~= b);
}

/// The LIST round trip: a body whose lines render a sequence of listings
/// parses back to exactly that ordered sequence, and an empty body parses
/// to the empty scan list.
pub proof fn lemma_list_round_trip(items: Seq<(u64, u64)>)
    requires
        forall|i: int| 0 <= i < items.len() ==> (#[trigger] items[i]).0 >= 1,
    ensures
        items_of(Seq::new(items.len(), |i: int| listing_line(items[i].0 as nat, items[i].1 as nat)))
            == Some(Seq::new(items.len(), |i: int| (items[i].0 as nat, items[i].1 as nat))),
        items_of(Seq::<Seq<u8>>::empty()) == Some(Seq::<(nat, nat)>::empty()),
{
    let lines = Seq::new(items.len(), |i: int| listing_line(items[i].0 as nat, items[i].1 as nat));
    assert forall|i: int| 0 <= i < lines.len() implies item_ok(#[trigger] lines[i]) by {
        lemma_listing_round_trip(items[i].0, items[i].1);
    }
    let its = items_of(lines)->Some_0;
    assert forall|i: int| 0 <= i < its.len() implies its[i] == (items[i].0 as nat, items[i].1
        as nat) by {
        lemma_listing_round_trip(items[i].0, items[i].1);
    }
    assert(its =~= Seq::new(items.len(), |i: int| (items[i].0 as nat, items[i].1 as nat)));
    assert(items_of(Seq::<Seq<u8>>::empty()) matches Some(e) && e =~= Seq::<(nat, nat)>::empty());
}

} // verus!
