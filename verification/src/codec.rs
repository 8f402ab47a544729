//! The line codec: framing of outgoing commands and decoding of inbound
//! reply units.
//!
//! Outgoing commands are `<verb>[ <arg>]*\r\n`. Inbound replies are either a
//! single status line, or a status line followed by body lines ending at a
//! line holding exactly `.`; body lines beginning with `.` have one leading
//! dot stripped (dot-unstuffing). The [`ReplyReader`] consumes one raw line
//! per call and says when the reply unit is complete, so that the I/O
//! adapter around the library is nothing but a read-line loop.

use vstd::prelude::*;

use crate::error::{Error, ErrorKind};
use crate::numbers::{dec_rep, render_u64};

verus! {

/// The space byte that separates a verb from its arguments.
pub const SP: u8 = 32;

/// The carriage return that, with a line feed, ends every wire line.
pub const CR: u8 = 13;

/// The line feed that ends every wire line.
pub const LF: u8 = 10;

/// The dot used for body termination and dot-stuffing.
pub const DOT: u8 = 46;

/// Cap on the accumulated size of one multi-line body. A reply that grows
/// past it is abandoned with `ResponseTooLarge`.
pub const MAX_RESPONSE_BYTES: usize = 1048576;

/// The status of a reply: `+OK` or `-ERR`.
#[derive(Debug, Clone, Copy, PartialEq, Eq, Structural)]
pub enum Status {
    Positive,
    Negative,
}

/// One complete server reply: a status line alone, or a status line with a
/// dot-terminated body (already unstuffed, terminator excluded).
#[derive(Debug, PartialEq, Eq)]
pub enum ReplyUnit {
    SingleLine(Status, Vec<u8>),
    MultiLine(Status, Vec<u8>, Vec<Vec<u8>>),
}

/// The shape of a reply unit produced by a multi-line read: a negative
/// reply stays single-line, a positive one carries a body.
pub open spec fn wf_multi_reply(r: ReplyUnit) -> bool {
    match r {
        ReplyUnit::SingleLine(st, _) => st is Negative,
        ReplyUnit::MultiLine(st, _, _) => st is Positive,
    }
}

// ------------------------------------------------------------------
// Byte helpers
// ------------------------------------------------------------------

/// Index of the first space in `s`, or `s.len()` if there is none.
pub open spec fn sp_idx(s: Seq<u8>) -> int
    decreases s.len(),
{
    if s.len() == 0 {
        0
    } else if s[0] == SP {
        0
    } else {
        1 + sp_idx(s.skip(1))
    }
}

pub proof fn lemma_sp_idx(s: Seq<u8>)
    ensures
        0 <= sp_idx(s) <= s.len(),
        forall|j: int| 0 <= j < sp_idx(s) ==> s[j] != SP,
        sp_idx(s) < s.len() ==> s[sp_idx(s)] == SP,
    decreases s.len(),
{
    if s.len() == 0 {
    } else if s[0] == SP {
    } else {
        lemma_sp_idx(s.skip(1));
        assert forall|j: int| 0 <= j < sp_idx(s) implies s[j] != SP by {
            if j > 0 {
                assert(s.skip(1)[j - 1] == s[j]);
            }
        }
        if sp_idx(s) < s.len() {
            assert(s.skip(1)[sp_idx(s) - 1] == s[sp_idx(s)]);
        }
    }
}

/// `sp_idx` is pinned by its characterization: `k` bytes without a space,
/// then a space or the end.
pub proof fn lemma_sp_idx_is(s: Seq<u8>, k: int)
    requires
        0 <= k <= s.len(),
        forall|j: int| 0 <= j < k ==> s[j] != SP,
        k < s.len() ==> s[k] == SP,
    ensures
        sp_idx(s) == k,
    decreases s.len(),
{
    if s.len() == 0 {
    } else if k == 0 {
    } else {
        assert(s[0] != SP);
        assert forall|j: int| 0 <= j < k - 1 implies s.skip(1)[j] != SP by {
            assert(s.skip(1)[j] == s[j + 1]);
        }
        if k - 1 < s.skip(1).len() {
            assert(s.skip(1)[k - 1] == s[k]);
        }
        lemma_sp_idx_is(s.skip(1), k - 1);
    }
}

/// The bytes before the first space (the whole of `s` if there is none).
pub open spec fn word_of(s: Seq<u8>) -> Seq<u8> {
    s.subrange(0, sp_idx(s))
}

/// The bytes after the first space; empty if there is no space.
pub open spec fn rest_of(s: Seq<u8>) -> Seq<u8> {
    if sp_idx(s) < s.len() {
        s.subrange(sp_idx(s) + 1, s.len() as int)
    } else {
        Seq::empty()
    }
}

/// Whether `s` holds a space at all.
pub open spec fn has_sp(s: Seq<u8>) -> bool {
    sp_idx(s) < s.len()
}

/// Finds the first space, or the length if there is none.
pub fn find_sp(s: &[u8]) -> (i: usize)
    ensures
        i as int == sp_idx(s@),
{
    let mut i: usize = 0;
    while i < s.len()
        invariant
            0 <= i <= s@.len(),
            forall|j: int| 0 <= j < i ==> s@[j] != SP,
        decreases s@.len() - i,
    {
        if s[i] == SP {
            proof {
                lemma_sp_idx_is(s@, i as int);
            }
            return i;
        }
        i = i + 1;
    }
    proof {
        lemma_sp_idx_is(s@, i as int);
    }
    i
}

/// Appends all of `s` to `v`.
pub fn push_all(v: &mut Vec<u8>, s: &[u8])
    ensures
        final(v)@ == old(v)@ + s@,
{
    proof {
        assert(v@ =~= old(v)@ + s@.subrange(0, 0));
    }
    let mut i: usize = 0;
    while i < s.len()
        invariant
            0 <= i <= s@.len(),
            v@ == old(v)@ + s@.subrange(0, i as int),
        decreases s@.len() - i,
    {
        v.push(s[i]);
        proof {
            assert(old(v)@ + s@.subrange(0, i + 1) =~= (old(v)@ + s@.subrange(0, i as int)).push(
                s@[i as int],
            ));
        }
        i = i + 1;
    }
    proof {
        assert(s@.subrange(0, s@.len() as int) =~= s@);
    }
}

/// Copies `s[a..b]` into a fresh vector.
pub fn copy_range(s: &[u8], a: usize, b: usize) -> (r: Vec<u8>)
    requires
        a <= b <= s@.len(),
    ensures
        r@ == s@.subrange(a as int, b as int),
{
    let mut v: Vec<u8> = Vec::new();
    proof {
        assert(v@ =~= s@.subrange(a as int, a as int));
    }
    let mut i: usize = a;
    while i < b
        invariant
            a <= i <= b <= s@.len(),
            v@ == s@.subrange(a as int, i as int),
        decreases b - i,
    {
        v.push(s[i]);
        proof {
            assert(s@.subrange(a as int, i + 1) =~= s@.subrange(a as int, i as int).push(
                s@[i as int],
            ));
        }
        i = i + 1;
    }
    v
}

/// Byte-for-byte equality of two slices.
pub fn eq_bytes(a: &[u8], b: &[u8]) -> (r: bool)
    ensures
        r == (a@ == b@),
{
    if a.len() != b.len() {
        proof {
            assert(a@.len() != b@.len());
        }
        return false;
    }
    let mut i: usize = 0;
    while i < a.len()
        invariant
            0 <= i <= a@.len(),
            a@.len() == b@.len(),
            forall|j: int| 0 <= j < i ==> a@[j] == b@[j],
        decreases a@.len() - i,
    {
        if a[i] != b[i] {
            return false;
        }
        i = i + 1;
    }
    proof {
        assert(a@ =~= b@);
    }
    true
}

// ------------------------------------------------------------------
// Outgoing command framing
// ------------------------------------------------------------------

pub open spec fn crlf_s() -> Seq<u8> {
    seq![CR, LF]
}

/// `<verb>\r\n`
pub open spec fn wire0(verb: Seq<u8>) -> Seq<u8> {
    verb + crlf_s()
}

/// `<verb> <arg>\r\n`
pub open spec fn wire1(verb: Seq<u8>, arg: Seq<u8>) -> Seq<u8> {
    verb + seq![SP] + arg + crlf_s()
}

/// `<verb> <arg1> <arg2>\r\n`
pub open spec fn wire2(verb: Seq<u8>, arg1: Seq<u8>, arg2: Seq<u8>) -> Seq<u8> {
    verb + seq![SP] + arg1 + seq![SP] + arg2 + crlf_s()
}

/// Frames a command without arguments.
pub fn build0(verb: &[u8]) -> (r: Vec<u8>)
    ensures
        r@ == wire0(verb@),
{
    let mut v: Vec<u8> = Vec::new();
    push_all(&mut v, verb);
    v.push(CR);
    v.push(LF);
    proof {
        assert(v@ =~= wire0(verb@));
    }
    v
}

/// Frames a command with one argument.
pub fn build1(verb: &[u8], arg: &[u8]) -> (r: Vec<u8>)
    ensures
        r@ == wire1(verb@, arg@),
{
    let mut v: Vec<u8> = Vec::new();
    push_all(&mut v, verb);
    v.push(SP);
    push_all(&mut v, arg);
    v.push(CR);
    v.push(LF);
    proof {
        assert(v@ =~= wire1(verb@, arg@));
    }
    v
}

/// Frames a command with two numeric arguments.
pub fn build2_u64(verb: &[u8], arg1: u64, arg2: u64) -> (r: Vec<u8>)
    ensures
        r@ == wire2(verb@, dec_rep(arg1 as nat), dec_rep(arg2 as nat)),
{
    let mut v: Vec<u8> = Vec::new();
    push_all(&mut v, verb);
    v.push(SP);
    let d1 = render_u64(arg1);
    push_all(&mut v, d1.as_slice());
    v.push(SP);
    let d2 = render_u64(arg2);
    push_all(&mut v, d2.as_slice());
    v.push(CR);
    v.push(LF);
    proof {
        assert(v@ =~= wire2(verb@, dec_rep(arg1 as nat), dec_rep(arg2 as nat)));
    }
    v
}

/// Frames a command with one numeric argument.
pub fn build1_u64(verb: &[u8], arg: u64) -> (r: Vec<u8>)
    ensures
        r@ == wire1(verb@, dec_rep(arg as nat)),
{
    let d = render_u64(arg);
    build1(verb, d.as_slice())
}

/// `USER`
pub open spec fn verb_user() -> Seq<u8> {
    seq![85u8, 83, 69, 82]
}

/// `PASS`
pub open spec fn verb_pass() -> Seq<u8> {
    seq![80u8, 65, 83, 83]
}

/// `STAT`
pub open spec fn verb_stat() -> Seq<u8> {
    seq![83u8, 84, 65, 84]
}

/// `LIST`
pub open spec fn verb_list() -> Seq<u8> {
    seq![76u8, 73, 83, 84]
}

/// `UIDL`
pub open spec fn verb_uidl() -> Seq<u8> {
    seq![85u8, 73, 68, 76]
}

/// `RETR`
pub open spec fn verb_retr() -> Seq<u8> {
    seq![82u8, 69, 84, 82]
}

/// `TOP`
pub open spec fn verb_top() -> Seq<u8> {
    seq![84u8, 79, 80]
}

/// `DELE`
pub open spec fn verb_dele() -> Seq<u8> {
    seq![68u8, 69, 76, 69]
}

/// `RSET`
pub open spec fn verb_rset() -> Seq<u8> {
    seq![82u8, 83, 69, 84]
}

/// `NOOP`
pub open spec fn verb_noop() -> Seq<u8> {
    seq![78u8, 79, 79, 80]
}

/// `QUIT`
pub open spec fn verb_quit() -> Seq<u8> {
    seq![81u8, 85, 73, 84]
}

/// `CAPA`
pub open spec fn verb_capa() -> Seq<u8> {
    seq![67u8, 65, 80, 65]
}

// ------------------------------------------------------------------
// Status lines, terminator, dot-stuffing
// ------------------------------------------------------------------

/// `+OK`, alone or followed by a space.
pub open spec fn is_ok_line(l: Seq<u8>) -> bool {
    &&& l.len() >= 3
    &&& l[0] == 43
    &&& l[1] == 79
    &&& l[2] == 75
    &&& (l.len() == 3 || l[3] == SP)
}

/// `-ERR`, alone or followed by a space.
pub open spec fn is_err_line(l: Seq<u8>) -> bool {
    &&& l.len() >= 4
    &&& l[0] == 45
    &&& l[1] == 69
    &&& l[2] == 82
    &&& l[3] == 82
    &&& (l.len() == 4 || l[4] == SP)
}

/// The status and trailing text of a status line, if it is one.
pub open spec fn status_of(l: Seq<u8>) -> Option<(Status, Seq<u8>)> {
    if is_ok_line(l) {
        if l.len() >= 4 {
            Some((Status::Positive, l.subrange(4, l.len() as int)))
        } else {
            Some((Status::Positive, Seq::empty()))
        }
    } else if is_err_line(l) {
        if l.len() >= 5 {
            Some((Status::Negative, l.subrange(5, l.len() as int)))
        } else {
            Some((Status::Negative, Seq::empty()))
        }
    } else {
        None
    }
}

/// Parses a status line into status and trailing text.
pub fn parse_status(l: &Vec<u8>) -> (r: Option<(Status, Vec<u8>)>)
    ensures
        match r {
            Some((st, txt)) => status_of(l@) matches Some((s2, t2)) && st == s2 && txt@ == t2,
            None => status_of(l@) is None,
        },
{
    let n = l.len();
    if n >= 3 && l[0] == 43 && l[1] == 79 && l[2] == 75 && (n == 3 || l[3] == SP) {
        let txt = if n >= 4 {
            copy_range(l.as_slice(), 4, n)
        } else {
            Vec::new()
        };
        proof {
            if n < 4 {
                assert(txt@ =~= Seq::<u8>::empty());
            }
        }
        Some((Status::Positive, txt))
    } else if n >= 4 && l[0] == 45 && l[1] == 69 && l[2] == 82 && l[3] == 82 && (n == 4 || l[4]
        == SP) {
        let txt = if n >= 5 {
            copy_range(l.as_slice(), 5, n)
        } else {
            Vec::new()
        };
        proof {
            if n < 5 {
                assert(txt@ =~= Seq::<u8>::empty());
            }
        }
        Some((Status::Negative, txt))
    } else {
        None
    }
}

/// The body terminator line: a single dot.
pub open spec fn term_s() -> Seq<u8> {
    seq![DOT]
}

/// Removes one leading dot, if any: the wire form of a body line becomes
/// its decoded form.
pub open spec fn unstuff_s(l: Seq<u8>) -> Seq<u8> {
    if l.len() >= 1 && l[0] == DOT {
        l.skip(1)
    } else {
        l
    }
}

/// Adds one leading dot to a line that starts with a dot: the encoding that
/// a sender applies so a body line is never mistaken for the terminator.
pub open spec fn stuff_s(l: Seq<u8>) -> Seq<u8> {
    if l.len() >= 1 && l[0] == DOT {
        seq![DOT] + l
    } else {
        l
    }
}

/// Dot-stuffing round trip: unstuffing undoes stuffing for every line, and
/// a stuffed line is never the terminator — so decoding a body recovers
/// exactly the lines the sender had, and the terminator line itself is
/// never part of a decoded body.
pub proof fn lemma_dot_stuffing_round_trip(l: Seq<u8>)
    ensures
        unstuff_s(stuff_s(l)) == l,
        stuff_s(l) != term_s(),
{
    if l.len() >= 1 && l[0] == DOT {
        let s = seq![DOT] + l;
        assert(s.len() == 1 + l.len());
        assert(s[0] == DOT);
        assert(unstuff_s(s) =~= l);
        assert(s.len() >= 2 && term_s().len() == 1);
    } else {
        assert(stuff_s(l) == l);
        if l == term_s() {
            assert(l[0] == term_s()[0]);
            assert(false);
        }
    }
}

/// Whether a raw line ends in CRLF.
pub open spec fn has_crlf(l: Seq<u8>) -> bool {
    l.len() >= 2 && l[l.len() - 2] == CR && l[l.len() - 1] == LF
}

/// The raw line without its trailing CRLF.
pub open spec fn content_of(l: Seq<u8>) -> Seq<u8> {
    l.subrange(0, l.len() - 2)
}

// ------------------------------------------------------------------
// Incremental reply reading
// ------------------------------------------------------------------

/// The abstract state of a [`ReplyReader`].
#[verifier::ext_equal]
pub ghost struct ReaderView {
    pub multiline: bool,
    pub status: Option<Status>,
    pub text: Seq<u8>,
    pub body: Seq<Seq<u8>>,
    pub total: nat,
    pub done: bool,
}

/// Decodes one reply unit from raw CRLF-terminated lines, one line per
/// [`ReplyReader::feed_line`] call. The caller reads lines from the
/// transport and feeds them until the reader says the unit is complete,
/// then collects it with [`ReplyReader::take`]. Every decoding decision —
/// status recognition, terminator detection, dot-unstuffing, the size
/// budget — is made here, never by the I/O loop.
pub struct ReplyReader {
    multiline: bool,
    status: Option<Status>,
    text: Vec<u8>,
    body: Vec<Vec<u8>>,
    total: usize,
    done: bool,
}

impl View for ReplyReader {
    type V = ReaderView;

    closed spec fn view(&self) -> ReaderView {
        ReaderView {
            multiline: self.multiline,
            status: self.status,
            text: self.text@,
            body: self.body.deep_view(),
            total: self.total as nat,
            done: self.done,
        }
    }
}

impl ReplyReader {
    /// A fresh reader for one reply unit. `expect_multiline` says whether a
    /// positive status line opens a dot-terminated body.
    pub fn new(expect_multiline: bool) -> (r: ReplyReader)
        ensures
            r@ == (ReaderView {
                multiline: expect_multiline,
                status: None,
                text: Seq::empty(),
                body: Seq::empty(),
                total: 0,
                done: false,
            }),
    {
        let r = ReplyReader {
            multiline: expect_multiline,
            status: None,
            text: Vec::new(),
            body: Vec::new(),
            total: 0,
            done: false,
        };
        proof {
            assert(r@ =~= (ReaderView {
                multiline: expect_multiline,
                status: None,
                text: Seq::empty(),
                body: Seq::empty(),
                total: 0,
                done: false,
            }));
        }
        r
    }

    /// Consumes one raw line (including its CRLF). Returns `Ok(true)` when
    /// the reply unit is complete, `Ok(false)` when more lines are needed.
    /// A line without CRLF or a malformed status line fails with
    /// `InvalidResponse`; a body whose accumulated decoded size would pass
    /// [`MAX_RESPONSE_BYTES`] fails with `ResponseTooLarge`. On failure the
    /// reader is unchanged.
    pub fn feed_line(&mut self, line: Vec<u8>) -> (r: Result<bool, Error>)
        requires
            !old(self)@.done,
        ensures
            match r {
                Ok(done) => {
                    &&& has_crlf(line@)
                    &&& done == final(self)@.done
                    &&& match old(self)@.status {
                        None => {
                            &&& status_of(content_of(line@)) matches Some((st, txt))
                            &&& final(self)@ == (ReaderView {
                                status: Some(st),
                                text: txt,
                                done: !old(self)@.multiline || st is Negative,
                                ..old(self)@
                            })
                        },
                        Some(_) => {
                            if content_of(line@) == term_s() {
                                final(self)@ == (ReaderView { done: true, ..old(self)@ })
                            } else {
                                &&& old(self)@.total + unstuff_s(content_of(line@)).len()
                                    <= MAX_RESPONSE_BYTES
                                &&& final(self)@ == (ReaderView {
                                    body: old(self)@.body.push(unstuff_s(content_of(line@))),
                                    total: old(self)@.total + unstuff_s(content_of(line@)).len(),
                                    ..old(self)@
                                })
                            }
                        },
                    }
                },
                Err(e) => {
                    &&& final(self)@ == old(self)@
                    &&& if !has_crlf(line@) {
                        e.kind == ErrorKind::InvalidResponse
                    } else if old(self)@.status is None {
                        status_of(content_of(line@)) is None && e.kind == ErrorKind::InvalidResponse
                    } else {
                        &&& content_of(line@) != term_s()
                        &&& old(self)@.total + unstuff_s(content_of(line@)).len()
                            > MAX_RESPONSE_BYTES
                        &&& e.kind == ErrorKind::ResponseTooLarge
                    }
                },
            },
    {
        let ghost line0 = line@;
        let n = line.len();
        if n < 2 || line[n - 1] != LF || line[n - 2] != CR {
            return Err(
                Error::new(ErrorKind::InvalidResponse, "line not terminated by CRLF".to_owned()),
            );
        }
        let mut content = line;
        content.pop();
        content.pop();
        proof {
            assert(content@ =~= content_of(line0));
        }
        match self.status {
            None => {
                match parse_status(&content) {
                    Some((st, txt)) => {
                        self.status = Some(st);
                        self.text = txt;
                        let done = !self.multiline || matches!(st, Status::Negative);
                        self.done = done;
                        proof {
                            assert(final(self)@ =~= (ReaderView {
                                status: Some(st),
                                text: self.text@,
                                done: done,
                                ..old(self)@
                            }));
                        }
                        Ok(done)
                    },
                    None => Err(
                        Error::new(ErrorKind::InvalidResponse, "malformed status line".to_owned()),
                    ),
                }
            },
            Some(_) => {
                if content.len() == 1 && content[0] == DOT {
                    proof {
                        assert(content@ =~= term_s());
                    }
                    self.done = true;
                    proof {
                        assert(final(self)@ =~= (ReaderView { done: true, ..old(self)@ }));
                    }
                    Ok(true)
                } else {
                    proof {
                        if content@ == term_s() {
                            assert(content@.len() == 1 && content@[0] == DOT);
                            assert(false);
                        }
                    }
                    let mut body_line = content;
                    if body_line.len() >= 1 && body_line[0] == DOT {
                        body_line.remove(0);
                    }
                    proof {
                        assert(body_line@ =~= unstuff_s(content_of(line0)));
                    }
                    if body_line.len() > MAX_RESPONSE_BYTES || self.total > MAX_RESPONSE_BYTES
                        - body_line.len() {
                        return Err(
                            Error::new(
                                ErrorKind::ResponseTooLarge,
                                "reply body passed the size budget".to_owned(),
                            ),
                        );
                    }
                    self.total = self.total + body_line.len();
                    let ghost pushed = body_line@;
                    self.body.push(body_line);
                    proof {
                        assert(self.body@ == old(self).body@.push(body_line));
                        assert(body_line.deep_view() =~= pushed);
                        assert forall|i: int|
                            0 <= i < self.body.deep_view().len() implies self.body.deep_view()[i]
                            == old(self)@.body.push(pushed)[i] by {
                            if i < old(self).body@.len() {
                                assert(self.body@[i] == old(self).body@[i]);
                            } else {
                                assert(self.body@[i] == body_line);
                            }
                        }
                        assert(self.body.deep_view() =~= old(self)@.body.push(pushed));
                        assert(final(self)@ =~= (ReaderView {
                            body: old(self)@.body.push(unstuff_s(content_of(line0))),
                            total: old(self)@.total + unstuff_s(content_of(line0)).len(),
                            ..old(self)@
                        }));
                    }
                    Ok(false)
                }
            },
        }
    }

    /// Hands out the completed reply unit: a positive multi-line read
    /// yields its body, every other read yields the status line alone.
    pub fn take(self) -> (r: ReplyUnit)
        requires
            self@.done,
            self@.status is Some,
        ensures
            match r {
                ReplyUnit::SingleLine(st, txt) => {
                    &&& !(self@.multiline && self@.status->Some_0 is Positive)
                    &&& st == self@.status->Some_0
                    &&& txt@ == self@.text
                },
                ReplyUnit::MultiLine(st, txt, body) => {
                    &&& self@.multiline && st is Positive
                    &&& st == self@.status->Some_0
                    &&& txt@ == self@.text
                    &&& body.deep_view() == self@.body
                },
            },
            self@.multiline && self@.status->Some_0 is Positive <==> r is MultiLine,
    {
        let st = match self.status {
            Some(s) => s,
            None => Status::Negative,
        };
        if self.multiline && matches!(st, Status::Positive) {
            ReplyUnit::MultiLine(st, self.text, self.body)
        } else {
            ReplyUnit::SingleLine(st, self.text)
        }
    }
}

} // verus!
