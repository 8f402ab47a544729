//! A verified core for a line-oriented, stateful mail-retrieval (POP3-style)
//! client: the session state machine, the wire codec and the reply parsers.
//!
//! The library is transport-free. Each protocol command is split into a
//! `*_request` step, which checks legality against the current state and
//! renders the exact wire bytes, and a `*_response` step, which takes the
//! complete reply unit the transport read and turns it into a typed value,
//! updating the session state. An I/O adapter around the library performs
//! the actual reads and writes between the two steps; the adapter reads
//! reply units with [`codec::ReplyReader`], one raw line per call.
//!
//! Legality is checked before any bytes exist to be sent: a `*_request`
//! call in the wrong state fails locally, with no round trip. A reply that
//! cannot be parsed after a round trip leaves the transport position
//! unknown, so the session is moved to `Disconnected` rather than
//! resynchronized. A negative reply is not a transport or parse failure:
//! it comes back as `ServerError` carrying the server's own text.

use vstd::prelude::*;
use vstd::string::StringSliceAdditionalSpecFns;

pub mod codec;
pub mod error;
pub mod numbers;
pub mod response;

use crate::codec::{wire0, wire1, wire2, verb_capa, verb_dele, verb_list, verb_noop,
    verb_pass, verb_quit, verb_retr, verb_rset, verb_stat, verb_top, verb_uidl, verb_user,
    build0, build1, build1_u64, build2_u64, copy_range, eq_bytes, find_sp,
    wf_multi_reply, ReplyUnit, Status};
use crate::error::{Error, ErrorKind};
use crate::response::capability::{capa_name, capas_of, name_expire, name_implementation,
    name_login_delay, name_pipelining, name_resp_codes, name_sasl, name_top, name_uidl, name_user,
    parse_capa_body, CapaModel, Capability};
use vstd::slice::slice_to_vec;
use crate::response::list::{item_kind, item_ok, item_val, items_of, parse_list_body,
    parse_list_line, ListItem, ListResponse};
use crate::response::stat::{parse_stat, Stat};
use crate::response::uidl::{parse_uidl_body, parse_uidl_line, uidl_kind, uidl_ok, uidls_of,
    UidlItem, UidlResponse};
use crate::response::{pair_fits, pair_kind};
use crate::numbers::{dec_rep, dec_val};
use crate::codec::{rest_of, word_of};

verus! {

/// The protocol state of one session.
#[derive(Debug, Clone, Copy, PartialEq, Eq, Structural)]
pub enum ClientState {
    /// No usable transport. Terminal for this session value.
    Disconnected,
    /// Greeting received, awaiting credentials.
    Authorization,
    /// Authenticated; mailbox commands permitted.
    Transaction,
    /// QUIT acknowledged; session pending teardown.
    Update,
}

/// The abstract state of a [`Client`].
#[verifier::ext_equal]
pub ghost struct ClientView {
    pub state: ClientState,
    pub greeting: Option<Seq<u8>>,
    pub deleted: Seq<u64>,
    pub caps: Option<Seq<CapaModel>>,
}

/// The error kind a command issued in a wrong state fails with: a session
/// whose transport is gone (never opened, or torn down after QUIT) is
/// `NotConnected`; an open session in the wrong phase is
/// `IncorrectStateForCommand`.
pub open spec fn wrong_state_kind(s: ClientState) -> ErrorKind {
    if s is Disconnected || s is Update {
        ErrorKind::NotConnected
    } else {
        ErrorKind::IncorrectStateForCommand
    }
}

/// One client session: the current protocol state, the greeting captured
/// at connect, the message numbers marked deleted in this session, and the
/// capability list cached from the last CAPA call.
///
/// The session is strictly sequential — one outstanding command at a time,
/// its `*_request` followed by its `*_response` — and is not meant to be
/// shared across concurrent callers.
#[derive(Debug)]
pub struct Client {
    state: ClientState,
    greeting: Option<Vec<u8>>,
    deleted: Vec<u64>,
    capabilities: Option<Vec<Capability>>,
}

impl View for Client {
    type V = ClientView;

    closed spec fn view(&self) -> ClientView {
        ClientView {
            state: self.state,
            greeting: match self.greeting {
                Some(g) => Some(g@),
                None => None,
            },
            deleted: self.deleted@,
            caps: match self.capabilities {
                Some(c) => Some(c.deep_view()),
                None => None,
            },
        }
    }
}

impl Client {
    /// Opens a session from the first reply the server sent after the
    /// transport was established. A positive greeting puts the session in
    /// `Authorization` with the banner text captured; anything else is
    /// `ServerFailedToGreet`.
    pub fn new(greeting_reply: ReplyUnit) -> (r: Result<Client, Error>)
        requires
            greeting_reply is SingleLine,
        ensures
            match r {
                Ok(c) => {
                    &&& greeting_reply matches ReplyUnit::SingleLine(st, txt)
                    &&& st is Positive
                    &&& c@ == (ClientView {
                        state: ClientState::Authorization,
                        greeting: Some(txt@),
                        deleted: Seq::empty(),
                        caps: None,
                    })
                },
                Err(e) => {
                    &&& greeting_reply matches ReplyUnit::SingleLine(st, _)
                    &&& st is Negative
                    &&& e.kind == ErrorKind::ServerFailedToGreet
                },
            },
    {
        match greeting_reply {
            ReplyUnit::SingleLine(st, txt) => match st {
                Status::Positive => {
                    let c = Client {
                        state: ClientState::Authorization,
                        greeting: Some(txt),
                        deleted: Vec::new(),
                        capabilities: None,
                    };
                    proof {
                        assert(c@ =~= (ClientView {
                            state: ClientState::Authorization,
                            greeting: Some(c.greeting->Some_0@),
                            deleted: Seq::empty(),
                            caps: None,
                        }));
                    }
                    Ok(c)
                },
                Status::Negative => Err(
                    Error::new(
                        ErrorKind::ServerFailedToGreet,
                        "server opened with a negative greeting".to_owned(),
                    ),
                ),
            },
            ReplyUnit::MultiLine(_, _, _) => {
                proof {
                    assert(false);
                }
                Err(Error::new(ErrorKind::UnexpectedResponse, "not a greeting".to_owned()))
            },
        }
    }

    /// The banner text the server greeted with.
    pub fn greeting(&self) -> (r: Option<&Vec<u8>>)
        ensures
            match r {
                Some(g) => self@.greeting == Some(g@),
                None => self@.greeting is None,
            },
    {
        self.greeting.as_ref()
    }

    /// The session's current protocol state.
    pub fn get_state(&self) -> (s: &ClientState)
        ensures
            *s == self@.state,
    {
        &self.state
    }

    /// Declares the transport unusable: after a read or write failure,
    /// or a reply abandoned mid-frame, the transport position is unknown
    /// and the protocol has no way to resynchronize, so the session moves
    /// to `Disconnected` and every further command is rejected locally.
    pub fn mark_disconnected(&mut self)
        ensures
            final(self)@ == (ClientView { state: ClientState::Disconnected, ..old(self)@ }),
    {
        self.state = ClientState::Disconnected;
        proof {
            assert(final(self)@ =~= (ClientView {
                state: ClientState::Disconnected,
                ..old(self)@
            }));
        }
    }

    /// Whether `msg` was marked deleted in this session.
    pub fn is_deleted(&self, msg: u64) -> (r: bool)
        ensures
            r == self@.deleted.contains(msg),
    {
        let mut i: usize = 0;
        while i < self.deleted.len()
            invariant
                0 <= i <= self.deleted@.len(),
                forall|j: int| 0 <= j < i ==> self.deleted@[j] != msg,
            decreases self.deleted@.len() - i,
        {
            if self.deleted[i] == msg {
                return true;
            }
            i = i + 1;
        }
        false
    }

    /// Checks that the session is in `Transaction`; in any other state
    /// the command fails locally, with the wrong-state error kind.
    fn check_transaction(&self) -> (r: Result<(), Error>)
        ensures
            match r {
                Ok(()) => self@.state is Transaction,
                Err(e) => !(self@.state is Transaction) && e.kind == wrong_state_kind(self@.state),
            },
    {
        match self.state {
            ClientState::Transaction => Ok(()),
            ClientState::Authorization => Err(
                Error::new(
                    ErrorKind::IncorrectStateForCommand,
                    "command requires the transaction phase".to_owned(),
                ),
            ),
            _ => Err(Error::new(ErrorKind::NotConnected, "session is not usable".to_owned())),
        }
    }

    /// Checks that the session is in `Authorization`; in any other state
    /// the command fails locally, with the wrong-state error kind.
    fn check_authorization(&self) -> (r: Result<(), Error>)
        ensures
            match r {
                Ok(()) => self@.state is Authorization,
                Err(e) => !(self@.state is Authorization) && e.kind == wrong_state_kind(self@.state),
            },
    {
        match self.state {
            ClientState::Authorization => Ok(()),
            ClientState::Transaction => Err(
                Error::new(
                    ErrorKind::IncorrectStateForCommand,
                    "command requires the authorization phase".to_owned(),
                ),
            ),
            _ => Err(Error::new(ErrorKind::NotConnected, "session is not usable".to_owned())),
        }
    }

    /// Checks that the session is open (`Authorization` or `Transaction`);
    /// otherwise the command fails locally, with the wrong-state error kind.
    fn check_open(&self) -> (r: Result<(), Error>)
        ensures
            match r {
                Ok(()) => self@.state is Authorization || self@.state is Transaction,
                Err(e) => {
                    &&& !(self@.state is Authorization) && !(self@.state is Transaction)
                    &&& e.kind == wrong_state_kind(self@.state)
                },
            },
    {
        match self.state {
            ClientState::Authorization => Ok(()),
            ClientState::Transaction => Ok(()),
            _ => Err(Error::new(ErrorKind::NotConnected, "session is not usable".to_owned())),
        }
    }

    /// Renders `USER <name>`. Legal only in `Authorization`; checked
    /// locally, before any bytes exist to be sent.
    pub fn user_request(&self, name: &str) -> (r: Result<Vec<u8>, Error>)
        ensures
            match r {
                Ok(w) => self@.state is Authorization && w@ == wire1(verb_user(), name.spec_bytes()),
                Err(e) => !(self@.state is Authorization) && e.kind == wrong_state_kind(self@.state),
            },
    {
        if let Err(e) = self.check_authorization() {
            return Err(e);
        }
        let vb = [85u8, 83, 69, 82];
        proof {
            assert(vb@ =~= verb_user());
        }
        Ok(build1(vb.as_slice(), name.as_bytes()))
    }

    /// Handles the reply to `USER`. The state does not move: a positive
    /// reply keeps the session in `Authorization` awaiting `PASS`, a
    /// negative one is the server declining the name, also leaving
    /// `Authorization`.
    pub fn user_response(&mut self, reply: ReplyUnit) -> (r: Result<(), Error>)
        requires
            old(self)@.state is Authorization,
            reply is SingleLine,
        ensures
            final(self)@ == old(self)@,
            match r {
                Ok(()) => reply matches ReplyUnit::SingleLine(st, _) && st is Positive,
                Err(e) => {
                    &&& reply matches ReplyUnit::SingleLine(st, txt)
                    &&& st is Negative
                    &&& e.kind matches ErrorKind::ServerError(t)
                    &&& t@ == txt@
                },
            },
    {
        match reply {
            ReplyUnit::SingleLine(st, txt) => match st {
                Status::Positive => Ok(()),
                Status::Negative => Err(
                    Error::new(ErrorKind::ServerError(txt), "server declined USER".to_owned()),
                ),
            },
            ReplyUnit::MultiLine(_, _, _) => {
                proof {
                    assert(false);
                }
                Err(Error::new(ErrorKind::UnexpectedResponse, "not a status reply".to_owned()))
            },
        }
    }

    /// Renders `PASS <password>`. Legal only in `Authorization`.
    pub fn pass_request(&self, password: &str) -> (r: Result<Vec<u8>, Error>)
        ensures
            match r {
                Ok(w) => self@.state is Authorization && w@ == wire1(
                    verb_pass(),
                    password.spec_bytes(),
                ),
                Err(e) => !(self@.state is Authorization) && e.kind == wrong_state_kind(self@.state),
            },
    {
        if let Err(e) = self.check_authorization() {
            return Err(e);
        }
        let vb = [80u8, 65, 83, 83];
        proof {
            assert(vb@ =~= verb_pass());
        }
        Ok(build1(vb.as_slice(), password.as_bytes()))
    }

    /// Handles the reply to `PASS`: only a positive reply advances the
    /// session to `Transaction`; a negative one leaves it in
    /// `Authorization`, so a failed login never looks authenticated.
    pub fn pass_response(&mut self, reply: ReplyUnit) -> (r: Result<(), Error>)
        requires
            old(self)@.state is Authorization,
            reply is SingleLine,
        ensures
            final(self)@.greeting == old(self)@.greeting,
            final(self)@.deleted == old(self)@.deleted,
            final(self)@.caps == old(self)@.caps,
            match r {
                Ok(()) => {
                    &&& reply matches ReplyUnit::SingleLine(st, _) && st is Positive
                    &&& final(self)@.state is Transaction
                },
                Err(e) => {
                    &&& reply matches ReplyUnit::SingleLine(st, txt)
                    &&& st is Negative
                    &&& e.kind matches ErrorKind::ServerError(t)
                    &&& t@ == txt@
                    &&& final(self)@.state is Authorization
                },
            },
    {
        match reply {
            ReplyUnit::SingleLine(st, txt) => match st {
                Status::Positive => {
                    self.state = ClientState::Transaction;
                    Ok(())
                },
                Status::Negative => Err(
                    Error::new(ErrorKind::ServerError(txt), "server declined PASS".to_owned()),
                ),
            },
            ReplyUnit::MultiLine(_, _, _) => {
                proof {
                    assert(false);
                }
                Err(Error::new(ErrorKind::UnexpectedResponse, "not a status reply".to_owned()))
            },
        }
    }

    /// Renders `NOOP`. Legal only in `Transaction`.
    pub fn noop_request(&self) -> (r: Result<Vec<u8>, Error>)
        ensures
            match r {
                Ok(w) => self@.state is Transaction && w@ == wire0(verb_noop()),
                Err(e) => !(self@.state is Transaction) && e.kind == wrong_state_kind(self@.state),
            },
    {
        if let Err(e) = self.check_transaction() {
            return Err(e);
        }
        let vb = [78u8, 79, 79, 80];
        proof {
            assert(vb@ =~= verb_noop());
        }
        Ok(build0(vb.as_slice()))
    }

    /// Handles the reply to `NOOP`: nothing changes either way.
    pub fn noop_response(&mut self, reply: ReplyUnit) -> (r: Result<(), Error>)
        requires
            old(self)@.state is Transaction,
            reply is SingleLine,
        ensures
            final(self)@ == old(self)@,
            match r {
                Ok(()) => reply matches ReplyUnit::SingleLine(st, _) && st is Positive,
                Err(e) => {
                    &&& reply matches ReplyUnit::SingleLine(st, txt)
                    &&& st is Negative
                    &&& e.kind matches ErrorKind::ServerError(t)
                    &&& t@ == txt@
                },
            },
    {
        match reply {
            ReplyUnit::SingleLine(st, txt) => match st {
                Status::Positive => Ok(()),
                Status::Negative => Err(
                    Error::new(ErrorKind::ServerError(txt), "server declined NOOP".to_owned()),
                ),
            },
            ReplyUnit::MultiLine(_, _, _) => {
                proof {
                    assert(false);
                }
                Err(Error::new(ErrorKind::UnexpectedResponse, "not a status reply".to_owned()))
            },
        }
    }

    /// Renders `STAT`. Legal only in `Transaction`; a call in any other
    /// state fails here, locally, with no bytes rendered and no round
    /// trip.
    pub fn stat_request(&self) -> (r: Result<Vec<u8>, Error>)
        ensures
            match r {
                Ok(w) => self@.state is Transaction && w@ == wire0(verb_stat()),
                Err(e) => !(self@.state is Transaction) && e.kind == wrong_state_kind(self@.state),
            },
    {
        if let Err(e) = self.check_transaction() {
            return Err(e);
        }
        let vb = [83u8, 84, 65, 84];
        proof {
            assert(vb@ =~= verb_stat());
        }
        Ok(build0(vb.as_slice()))
    }

    /// Handles the reply to `STAT`: the text of a positive reply must be
    /// exactly two numbers, message count and mailbox size. A reply that
    /// does not parse leaves the transport position unknown, so the
    /// session becomes `Disconnected`.
    pub fn stat_response(&mut self, reply: ReplyUnit) -> (r: Result<Stat, Error>)
        requires
            old(self)@.state is Transaction,
            reply is SingleLine,
        ensures
            final(self)@.greeting == old(self)@.greeting,
            final(self)@.deleted == old(self)@.deleted,
            final(self)@.caps == old(self)@.caps,
            match r {
                Ok(st) => {
                    &&& reply matches ReplyUnit::SingleLine(s2, txt) && s2 is Positive
                        && crate::response::pair_of(txt@) == Some((st.count as nat, st.size as nat))
                    &&& final(self)@.state == old(self)@.state
                },
                Err(e) => match reply {
                    ReplyUnit::SingleLine(s2, txt) => {
                        if s2 is Negative {
                            &&& e.kind matches ErrorKind::ServerError(t) && t@ == txt@
                            &&& final(self)@.state == old(self)@.state
                        } else {
                            &&& !pair_fits(txt@) && e.kind == pair_kind(txt@)
                            &&& final(self)@.state is Disconnected
                        }
                    },
                    _ => false,
                },
            },
    {
        match reply {
            ReplyUnit::SingleLine(st, txt) => match st {
                Status::Negative => Err(
                    Error::new(ErrorKind::ServerError(txt), "server declined STAT".to_owned()),
                ),
                Status::Positive => match parse_stat(&txt) {
                    Ok(stat) => Ok(stat),
                    Err(e) => {
                        self.state = ClientState::Disconnected;
                        Err(e)
                    },
                },
            },
            ReplyUnit::MultiLine(_, _, _) => {
                proof {
                    assert(false);
                }
                Err(Error::new(ErrorKind::UnexpectedResponse, "not a status reply".to_owned()))
            },
        }
    }

    /// Renders `QUIT`. Legal in `Authorization` and in `Transaction`.
    pub fn quit_request(&self) -> (r: Result<Vec<u8>, Error>)
        ensures
            match r {
                Ok(w) => {
                    &&& self@.state is Authorization || self@.state is Transaction
                    &&& w@ == wire0(verb_quit())
                },
                Err(e) => {
                    &&& !(self@.state is Authorization) && !(self@.state is Transaction)
                    &&& e.kind == wrong_state_kind(self@.state)
                },
            },
    {
        if let Err(e) = self.check_open() {
            return Err(e);
        }
        let vb = [81u8, 85, 73, 84];
        proof {
            assert(vb@ =~= verb_quit());
        }
        Ok(build0(vb.as_slice()))
    }

    /// Handles the reply to `QUIT`: a positive reply always moves the
    /// session to `Update`, from `Authorization` and from `Transaction`
    /// alike; the transport is to be closed by the adapter afterwards.
    pub fn quit_response(&mut self, reply: ReplyUnit) -> (r: Result<(), Error>)
        requires
            old(self)@.state is Authorization || old(self)@.state is Transaction,
            reply is SingleLine,
        ensures
            final(self)@.greeting == old(self)@.greeting,
            final(self)@.deleted == old(self)@.deleted,
            final(self)@.caps == old(self)@.caps,
            match r {
                Ok(()) => {
                    &&& reply matches ReplyUnit::SingleLine(st, _) && st is Positive
                    &&& final(self)@.state is Update
                },
                Err(e) => {
                    &&& reply matches ReplyUnit::SingleLine(st, txt)
                    &&& st is Negative
                    &&& e.kind matches ErrorKind::ServerError(t)
                    &&& t@ == txt@
                    &&& final(self)@.state == old(self)@.state
                },
            },
    {
        match reply {
            ReplyUnit::SingleLine(st, txt) => match st {
                Status::Positive => {
                    self.state = ClientState::Update;
                    Ok(())
                },
                Status::Negative => Err(
                    Error::new(ErrorKind::ServerError(txt), "server declined QUIT".to_owned()),
                ),
            },
            ReplyUnit::MultiLine(_, _, _) => {
                proof {
                    assert(false);
                }
                Err(Error::new(ErrorKind::UnexpectedResponse, "not a status reply".to_owned()))
            },
        }
    }

    /// Renders `LIST` or `LIST <msg>`. Legal only in `Transaction`.
    pub fn list_request(&self, msg: Option<u64>) -> (r: Result<Vec<u8>, Error>)
        ensures
            match r {
                Ok(w) => self@.state is Transaction && w@ == (match msg {
                    None => wire0(verb_list()),
                    Some(n) => wire1(verb_list(), dec_rep(n as nat)),
                }),
                Err(e) => !(self@.state is Transaction) && e.kind == wrong_state_kind(self@.state),
            },
    {
        if let Err(e) = self.check_transaction() {
            return Err(e);
        }
        let vb = [76u8, 73, 83, 84];
        proof {
            assert(vb@ =~= verb_list());
        }
        match msg {
            None => Ok(build0(vb.as_slice())),
            Some(n) => Ok(build1_u64(vb.as_slice(), n)),
        }
    }

    /// Handles the reply to a `LIST` without argument: each body line must
    /// be a scan listing; the whole ordered scan list is returned, and an
    /// empty body is the empty list, not an error. A malformed line aborts
    /// the parse and the session becomes `Disconnected`.
    pub fn list_all_response(&mut self, reply: ReplyUnit) -> (r: Result<ListResponse, Error>)
        requires
            old(self)@.state is Transaction,
            wf_multi_reply(reply),
        ensures
            final(self)@.greeting == old(self)@.greeting,
            final(self)@.deleted == old(self)@.deleted,
            final(self)@.caps == old(self)@.caps,
            match r {
                Ok(resp) => {
                    &&& reply matches ReplyUnit::MultiLine(st, _, body)
                    &&& items_of(body.deep_view()) matches Some(its)
                    &&& resp matches ListResponse::Multiple(v)
                    &&& v@.len() == its.len()
                    &&& forall|i: int|
                        0 <= i < its.len() ==> (#[trigger] v@[i]).num as nat == its[i].0
                            && v@[i].size as nat == its[i].1
                    &&& final(self)@.state == old(self)@.state
                },
                Err(e) => match reply {
                    ReplyUnit::SingleLine(_, txt) => {
                        &&& e.kind matches ErrorKind::ServerError(t)
                        &&& t@ == txt@
                        &&& final(self)@.state == old(self)@.state
                    },
                    ReplyUnit::MultiLine(_, _, body) => {
                        &&& items_of(body.deep_view()) is None
                        &&& exists|i: int|
                            {
                                &&& 0 <= i < body.deep_view().len()
                                &&& !item_ok(#[trigger] body.deep_view()[i])
                                &&& e.kind == item_kind(body.deep_view()[i])
                                &&& forall|j: int|
                                    0 <= j < i ==> item_ok(#[trigger] body.deep_view()[j])
                            }
                        &&& final(self)@.state is Disconnected
                    },
                },
            },
    {
        match reply {
            ReplyUnit::SingleLine(_, txt) => Err(
                Error::new(ErrorKind::ServerError(txt), "server declined LIST".to_owned()),
            ),
            ReplyUnit::MultiLine(_, _, body) => {
                match parse_list_body(&body) {
                    Ok(v) => Ok(ListResponse::Multiple(v)),
                    Err(e) => {
                        self.state = ClientState::Disconnected;
                        Err(e)
                    },
                }
            },
        }
    }

    /// Handles the reply to a `LIST <msg>`: the text of a positive reply
    /// is one scan listing, returned as the single-item variant.
    pub fn list_one_response(&mut self, reply: ReplyUnit) -> (r: Result<ListResponse, Error>)
        requires
            old(self)@.state is Transaction,
            reply is SingleLine,
        ensures
            final(self)@.greeting == old(self)@.greeting,
            final(self)@.deleted == old(self)@.deleted,
            final(self)@.caps == old(self)@.caps,
            match r {
                Ok(resp) => {
                    &&& reply matches ReplyUnit::SingleLine(st, txt)
                    &&& st is Positive
                    &&& item_ok(txt@)
                    &&& resp matches ListResponse::Single(it)
                    &&& it.num as nat == item_val(txt@).0
                    &&& it.size as nat == item_val(txt@).1
                    &&& final(self)@.state == old(self)@.state
                },
                Err(e) => match reply {
                    ReplyUnit::SingleLine(st, txt) => {
                        if st is Negative {
                            &&& e.kind matches ErrorKind::ServerError(t)
                            &&& t@ == txt@
                            &&& final(self)@.state == old(self)@.state
                        } else {
                            &&& !item_ok(txt@)
                            &&& e.kind == item_kind(txt@)
                            &&& final(self)@.state is Disconnected
                        }
                    },
                    _ => false,
                },
            },
    {
        match reply {
            ReplyUnit::SingleLine(st, txt) => match st {
                Status::Negative => Err(
                    Error::new(ErrorKind::ServerError(txt), "server declined LIST".to_owned()),
                ),
                Status::Positive => match parse_list_line(&txt) {
                    Ok(it) => Ok(ListResponse::Single(it)),
                    Err(e) => {
                        self.state = ClientState::Disconnected;
                        Err(e)
                    },
                },
            },
            ReplyUnit::MultiLine(_, _, _) => {
                proof {
                    assert(false);
                }
                Err(Error::new(ErrorKind::UnexpectedResponse, "not a status reply".to_owned()))
            },
        }
    }

    /// Renders `UIDL` or `UIDL <msg>`. Legal only in `Transaction`.
    pub fn uidl_request(&self, msg: Option<u64>) -> (r: Result<Vec<u8>, Error>)
        ensures
            match r {
                Ok(w) => self@.state is Transaction && w@ == (match msg {
                    None => wire0(verb_uidl()),
                    Some(n) => wire1(verb_uidl(), dec_rep(n as nat)),
                }),
                Err(e) => !(self@.state is Transaction) && e.kind == wrong_state_kind(self@.state),
            },
    {
        if let Err(e) = self.check_transaction() {
            return Err(e);
        }
        let vb = [85u8, 73, 68, 76];
        proof {
            assert(vb@ =~= verb_uidl());
        }
        match msg {
            None => Ok(build0(vb.as_slice())),
            Some(n) => Ok(build1_u64(vb.as_slice(), n)),
        }
    }

    /// Handles the reply to a `UIDL` without argument: the whole ordered
    /// unique-id listing; an empty body is the empty listing. A malformed
    /// line aborts the parse and the session becomes `Disconnected`.
    pub fn uidl_all_response(&mut self, reply: ReplyUnit) -> (r: Result<UidlResponse, Error>)
        requires
            old(self)@.state is Transaction,
            wf_multi_reply(reply),
        ensures
            final(self)@.greeting == old(self)@.greeting,
            final(self)@.deleted == old(self)@.deleted,
            final(self)@.caps == old(self)@.caps,
            match r {
                Ok(resp) => {
                    &&& reply matches ReplyUnit::MultiLine(st, _, body)
                    &&& uidls_of(body.deep_view()) matches Some(its)
                    &&& resp matches UidlResponse::Multiple(v)
                    &&& v@.len() == its.len()
                    &&& forall|i: int|
                        0 <= i < its.len() ==> (#[trigger] v@[i]).num as nat == its[i].0
                            && v@[i].id@ == its[i].1
                    &&& final(self)@.state == old(self)@.state
                },
                Err(e) => match reply {
                    ReplyUnit::SingleLine(_, txt) => {
                        &&& e.kind matches ErrorKind::ServerError(t)
                        &&& t@ == txt@
                        &&& final(self)@.state == old(self)@.state
                    },
                    ReplyUnit::MultiLine(_, _, body) => {
                        &&& uidls_of(body.deep_view()) is None
                        &&& exists|i: int|
                            {
                                &&& 0 <= i < body.deep_view().len()
                                &&& !uidl_ok(#[trigger] body.deep_view()[i])
                                &&& e.kind == uidl_kind(body.deep_view()[i])
                                &&& forall|j: int|
                                    0 <= j < i ==> uidl_ok(#[trigger] body.deep_view()[j])
                            }
                        &&& final(self)@.state is Disconnected
                    },
                },
            },
    {
        match reply {
            ReplyUnit::SingleLine(_, txt) => Err(
                Error::new(ErrorKind::ServerError(txt), "server declined UIDL".to_owned()),
            ),
            ReplyUnit::MultiLine(_, _, body) => {
                match parse_uidl_body(&body) {
                    Ok(v) => Ok(UidlResponse::Multiple(v)),
                    Err(e) => {
                        self.state = ClientState::Disconnected;
                        Err(e)
                    },
                }
            },
        }
    }

    /// Handles the reply to a `UIDL <msg>`: one unique-id listing.
    pub fn uidl_one_response(&mut self, reply: ReplyUnit) -> (r: Result<UidlResponse, Error>)
        requires
            old(self)@.state is Transaction,
            reply is SingleLine,
        ensures
            final(self)@.greeting == old(self)@.greeting,
            final(self)@.deleted == old(self)@.deleted,
            final(self)@.caps == old(self)@.caps,
            match r {
                Ok(resp) => {
                    &&& reply matches ReplyUnit::SingleLine(st, txt)
                    &&& st is Positive
                    &&& uidl_ok(txt@)
                    &&& resp matches UidlResponse::Single(it)
                    &&& it.num as nat == dec_val(word_of(txt@))
                    &&& it.id@ == rest_of(txt@)
                    &&& final(self)@.state == old(self)@.state
                },
                Err(e) => match reply {
                    ReplyUnit::SingleLine(st, txt) => {
                        if st is Negative {
                            &&& e.kind matches ErrorKind::ServerError(t)
                            &&& t@ == txt@
                            &&& final(self)@.state == old(self)@.state
                        } else {
                            &&& !uidl_ok(txt@)
                            &&& e.kind == uidl_kind(txt@)
                            &&& final(self)@.state is Disconnected
                        }
                    },
                    _ => false,
                },
            },
    {
        match reply {
            ReplyUnit::SingleLine(st, txt) => match st {
                Status::Negative => Err(
                    Error::new(ErrorKind::ServerError(txt), "server declined UIDL".to_owned()),
                ),
                Status::Positive => match parse_uidl_line(&txt) {
                    Ok(it) => Ok(UidlResponse::Single(it)),
                    Err(e) => {
                        self.state = ClientState::Disconnected;
                        Err(e)
                    },
                },
            },
            ReplyUnit::MultiLine(_, _, _) => {
                proof {
                    assert(false);
                }
                Err(Error::new(ErrorKind::UnexpectedResponse, "not a status reply".to_owned()))
            },
        }
    }

    /// Renders `RETR <msg>`. Legal only in `Transaction`, and only for a
    /// message not marked deleted in this session — both checked locally.
    pub fn retr_request(&self, msg: u64) -> (r: Result<Vec<u8>, Error>)
        ensures
            match r {
                Ok(w) => {
                    &&& self@.state is Transaction
                    &&& !self@.deleted.contains(msg)
                    &&& w@ == wire1(verb_retr(), dec_rep(msg as nat))
                },
                Err(e) => if !(self@.state is Transaction) {
                    e.kind == wrong_state_kind(self@.state)
                } else {
                    self@.deleted.contains(msg) && e.kind == ErrorKind::MessageIsDeleted
                },
            },
    {
        if let Err(e) = self.check_transaction() {
            return Err(e);
        }
        if self.is_deleted(msg) {
            return Err(
                Error::new(ErrorKind::MessageIsDeleted, "message is marked deleted".to_owned()),
            );
        }
        let vb = [82u8, 69, 84, 82];
        proof {
            assert(vb@ =~= verb_retr());
        }
        Ok(build1_u64(vb.as_slice(), msg))
    }

    /// Renders `TOP <msg> <lines>`. Legal only in `Transaction`, and only
    /// for a message not marked deleted in this session.
    pub fn top_request(&self, msg: u64, lines: u64) -> (r: Result<Vec<u8>, Error>)
        ensures
            match r {
                Ok(w) => {
                    &&& self@.state is Transaction
                    &&& !self@.deleted.contains(msg)
                    &&& w@ == wire2(verb_top(), dec_rep(msg as nat), dec_rep(lines as nat))
                },
                Err(e) => if !(self@.state is Transaction) {
                    e.kind == wrong_state_kind(self@.state)
                } else {
                    self@.deleted.contains(msg) && e.kind == ErrorKind::MessageIsDeleted
                },
            },
    {
        if let Err(e) = self.check_transaction() {
            return Err(e);
        }
        if self.is_deleted(msg) {
            return Err(
                Error::new(ErrorKind::MessageIsDeleted, "message is marked deleted".to_owned()),
            );
        }
        let vb = [84u8, 79, 80];
        proof {
            assert(vb@ =~= verb_top());
        }
        Ok(build2_u64(vb.as_slice(), msg, lines))
    }

    /// Handles the reply to `RETR` or `TOP`: the decoded body lines of a
    /// positive reply are the message bytes, handed back as read.
    pub fn fetch_response(&mut self, reply: ReplyUnit) -> (r: Result<Vec<Vec<u8>>, Error>)
        requires
            old(self)@.state is Transaction,
            wf_multi_reply(reply),
        ensures
            final(self)@ == old(self)@,
            match r {
                Ok(b) => {
                    &&& reply matches ReplyUnit::MultiLine(st, _, body)
                    &&& st is Positive
                    &&& b.deep_view() == body.deep_view()
                },
                Err(e) => {
                    &&& reply matches ReplyUnit::SingleLine(st, txt)
                    &&& st is Negative
                    &&& e.kind matches ErrorKind::ServerError(t)
                    &&& t@ == txt@
                },
            },
    {
        match reply {
            ReplyUnit::SingleLine(_, txt) => Err(
                Error::new(ErrorKind::ServerError(txt), "server declined the fetch".to_owned()),
            ),
            ReplyUnit::MultiLine(_, _, body) => Ok(body),
        }
    }

    /// Renders `DELE <msg>`. Legal only in `Transaction`, and only for a
    /// message not already marked deleted in this session.
    pub fn dele_request(&self, msg: u64) -> (r: Result<Vec<u8>, Error>)
        ensures
            match r {
                Ok(w) => {
                    &&& self@.state is Transaction
                    &&& !self@.deleted.contains(msg)
                    &&& w@ == wire1(verb_dele(), dec_rep(msg as nat))
                },
                Err(e) => if !(self@.state is Transaction) {
                    e.kind == wrong_state_kind(self@.state)
                } else {
                    self@.deleted.contains(msg) && e.kind == ErrorKind::MessageIsDeleted
                },
            },
    {
        if let Err(e) = self.check_transaction() {
            return Err(e);
        }
        if self.is_deleted(msg) {
            return Err(
                Error::new(ErrorKind::MessageIsDeleted, "message is marked deleted".to_owned()),
            );
        }
        let vb = [68u8, 69, 76, 69];
        proof {
            assert(vb@ =~= verb_dele());
        }
        Ok(build1_u64(vb.as_slice(), msg))
    }

    /// Handles the reply to `DELE <msg>`: a positive reply marks `msg`
    /// deleted for the rest of this session.
    pub fn dele_response(&mut self, msg: u64, reply: ReplyUnit) -> (r: Result<(), Error>)
        requires
            old(self)@.state is Transaction,
            reply is SingleLine,
        ensures
            final(self)@.state == old(self)@.state,
            final(self)@.greeting == old(self)@.greeting,
            final(self)@.caps == old(self)@.caps,
            match r {
                Ok(()) => {
                    &&& reply matches ReplyUnit::SingleLine(st, _)
                    &&& st is Positive
                    &&& final(self)@.deleted == old(self)@.deleted.push(msg)
                },
                Err(e) => {
                    &&& reply matches ReplyUnit::SingleLine(st, txt)
                    &&& st is Negative
                    &&& e.kind matches ErrorKind::ServerError(t)
                    &&& t@ == txt@
                    &&& final(self)@.deleted == old(self)@.deleted
                },
            },
    {
        match reply {
            ReplyUnit::SingleLine(st, txt) => match st {
                Status::Positive => {
                    self.deleted.push(msg);
                    Ok(())
                },
                Status::Negative => Err(
                    Error::new(ErrorKind::ServerError(txt), "server declined DELE".to_owned()),
                ),
            },
            ReplyUnit::MultiLine(_, _, _) => {
                proof {
                    assert(false);
                }
                Err(Error::new(ErrorKind::UnexpectedResponse, "not a status reply".to_owned()))
            },
        }
    }

    /// Renders `RSET`. Legal only in `Transaction`.
    pub fn rset_request(&self) -> (r: Result<Vec<u8>, Error>)
        ensures
            match r {
                Ok(w) => self@.state is Transaction && w@ == wire0(verb_rset()),
                Err(e) => !(self@.state is Transaction) && e.kind == wrong_state_kind(self@.state),
            },
    {
        if let Err(e) = self.check_transaction() {
            return Err(e);
        }
        let vb = [82u8, 83, 69, 84];
        proof {
            assert(vb@ =~= verb_rset());
        }
        Ok(build0(vb.as_slice()))
    }

    /// Handles the reply to `RSET`: a positive reply clears every deletion
    /// mark of this session.
    pub fn rset_response(&mut self, reply: ReplyUnit) -> (r: Result<(), Error>)
        requires
            old(self)@.state is Transaction,
            reply is SingleLine,
        ensures
            final(self)@.state == old(self)@.state,
            final(self)@.greeting == old(self)@.greeting,
            final(self)@.caps == old(self)@.caps,
            match r {
                Ok(()) => {
                    &&& reply matches ReplyUnit::SingleLine(st, _)
                    &&& st is Positive
                    &&& final(self)@.deleted == Seq::<u64>::empty()
                },
                Err(e) => {
                    &&& reply matches ReplyUnit::SingleLine(st, txt)
                    &&& st is Negative
                    &&& e.kind matches ErrorKind::ServerError(t)
                    &&& t@ == txt@
                    &&& final(self)@.deleted == old(self)@.deleted
                },
            },
    {
        match reply {
            ReplyUnit::SingleLine(st, txt) => match st {
                Status::Positive => {
                    self.deleted = Vec::new();
                    proof {
                        assert(self.deleted@ =~= Seq::<u64>::empty());
                    }
                    Ok(())
                },
                Status::Negative => Err(
                    Error::new(ErrorKind::ServerError(txt), "server declined RSET".to_owned()),
                ),
            },
            ReplyUnit::MultiLine(_, _, _) => {
                proof {
                    assert(false);
                }
                Err(Error::new(ErrorKind::UnexpectedResponse, "not a status reply".to_owned()))
            },
        }
    }

    /// Renders `CAPA`. Legal in `Authorization` and in `Transaction`.
    pub fn capa_request(&self) -> (r: Result<Vec<u8>, Error>)
        ensures
            match r {
                Ok(w) => {
                    &&& self@.state is Authorization || self@.state is Transaction
                    &&& w@ == wire0(verb_capa())
                },
                Err(e) => {
                    &&& !(self@.state is Authorization) && !(self@.state is Transaction)
                    &&& e.kind == wrong_state_kind(self@.state)
                },
            },
    {
        if let Err(e) = self.check_open() {
            return Err(e);
        }
        let vb = [67u8, 65, 80, 65];
        proof {
            assert(vb@ =~= verb_capa());
        }
        Ok(build0(vb.as_slice()))
    }

    /// Handles the reply to `CAPA`: every body line becomes a capability,
    /// in order — an unknown name is kept verbatim, never dropped, and
    /// capability parsing itself never fails. The parsed list is cached on
    /// the session for later capability checks.
    pub fn capa_response(&mut self, reply: ReplyUnit) -> (r: Result<Vec<Capability>, Error>)
        requires
            old(self)@.state is Authorization || old(self)@.state is Transaction,
            wf_multi_reply(reply),
        ensures
            final(self)@.state == old(self)@.state,
            final(self)@.greeting == old(self)@.greeting,
            final(self)@.deleted == old(self)@.deleted,
            match r {
                Ok(v) => {
                    &&& reply matches ReplyUnit::MultiLine(st, _, body)
                    &&& st is Positive
                    &&& v.deep_view() == capas_of(body.deep_view())
                    &&& final(self)@.caps == Some(capas_of(body.deep_view()))
                },
                Err(e) => {
                    &&& reply matches ReplyUnit::SingleLine(st, txt)
                    &&& st is Negative
                    &&& e.kind matches ErrorKind::ServerError(t)
                    &&& t@ == txt@
                    &&& final(self)@.caps == old(self)@.caps
                },
            },
    {
        match reply {
            ReplyUnit::SingleLine(_, txt) => Err(
                Error::new(ErrorKind::ServerError(txt), "server declined CAPA".to_owned()),
            ),
            ReplyUnit::MultiLine(_, _, body) => {
                let caps = parse_capa_body(&body);
                let cache = parse_capa_body(&body);
                self.capabilities = Some(cache);
                Ok(caps)
            },
        }
    }

    /// The name a parsed capability was advertised under.
    pub fn capability_name(c: &Capability) -> (r: Vec<u8>)
        ensures
            r@ == capa_name(c.deep_view()),
    {
        match c {
            Capability::Top => {
                let a = [84u8, 79, 80];
                proof {
                    assert(a@ =~= name_top());
                }
                slice_to_vec(a.as_slice())
            },
            Capability::User => {
                let a = [85u8, 83, 69, 82];
                proof {
                    assert(a@ =~= name_user());
                }
                slice_to_vec(a.as_slice())
            },
            Capability::Sasl(_) => {
                let a = [83u8, 65, 83, 76];
                proof {
                    assert(a@ =~= name_sasl());
                }
                slice_to_vec(a.as_slice())
            },
            Capability::RespCodes => {
                let a = [82u8, 69, 83, 80, 45, 67, 79, 68, 69, 83];
                proof {
                    assert(a@ =~= name_resp_codes());
                }
                slice_to_vec(a.as_slice())
            },
            Capability::LoginDelay(_) => {
                let a = [76u8, 79, 71, 73, 78, 45, 68, 69, 76, 65, 89];
                proof {
                    assert(a@ =~= name_login_delay());
                }
                slice_to_vec(a.as_slice())
            },
            Capability::Pipelining => {
                let a = [80u8, 73, 80, 69, 76, 73, 78, 73, 78, 71];
                proof {
                    assert(a@ =~= name_pipelining());
                }
                slice_to_vec(a.as_slice())
            },
            Capability::Expire(_) => {
                let a = [69u8, 88, 80, 73, 82, 69];
                proof {
                    assert(a@ =~= name_expire());
                }
                slice_to_vec(a.as_slice())
            },
            Capability::Uidl => {
                let a = [85u8, 73, 68, 76];
                proof {
                    assert(a@ =~= name_uidl());
                }
                slice_to_vec(a.as_slice())
            },
            Capability::Implementation(_) => {
                let a = [73u8, 77, 80, 76, 69, 77, 69, 78, 84, 65, 84, 73, 79, 78];
                proof {
                    assert(a@ =~= name_implementation());
                }
                slice_to_vec(a.as_slice())
            },
            Capability::Other(l) => {
                let s = l.as_slice();
                let i = find_sp(s);
                proof {
                    crate::codec::lemma_sp_idx(s@);
                }
                copy_range(s, 0, i)
            },
        }
    }

    /// The cached capability list holds an entry advertised under `name`.
    pub open spec fn advertises(caps: Option<Seq<CapaModel>>, name: Seq<u8>) -> bool {
        caps matches Some(cs) && exists|i: int|
            0 <= i && i < cs.len() && capa_name(#[trigger] cs[i]) == name
    }

    /// Checks that a capability of the given name was advertised in the
    /// cached CAPA result. Without a cached, successful CAPA call nothing
    /// is known to be supported, so the check fails; it also fails when
    /// the name is absent from the negotiated set — in both cases with
    /// `FeatureUnsupported`, locally, with no round trip.
    pub fn require_capability(&self, name: &[u8]) -> (r: Result<(), Error>)
        ensures
            match r {
                Ok(()) => Self::advertises(self@.caps, name@),
                Err(e) => e.kind == ErrorKind::FeatureUnsupported && !Self::advertises(
                    self@.caps,
                    name@,
                ),
            },
    {
        match self.capabilities.as_ref() {
            None => Err(
                Error::new(
                    ErrorKind::FeatureUnsupported,
                    "no capability list was negotiated".to_owned(),
                ),
            ),
            Some(v) => {
                let ghost cs = v.deep_view();
                proof {
                    assert(self.capabilities is Some);
                    assert(*v == self.capabilities->0);
                    assert(self@.caps == Some(cs));
                }
                let mut i: usize = 0;
                while i < v.len()
                    invariant
                        cs == v.deep_view(),
                        self@.caps == Some(cs),
                        0 <= i <= v@.len(),
                        cs.len() == v@.len(),
                        forall|j: int| 0 <= j < i ==> capa_name(#[trigger] cs[j]) != name@,
                    decreases v@.len() - i,
                {
                    proof {
                        assert(cs[i as int] == v@[i as int].deep_view());
                    }
                    let nm = Self::capability_name(&v[i]);
                    if eq_bytes(nm.as_slice(), name) {
                        proof {
                            assert(Self::advertises(self@.caps, name@)) by {
                                let csx = self@.caps->Some_0;
                                assert(csx == cs);
                                assert(0 <= i as int && (i as int) < csx.len() && capa_name(
                                    csx[i as int],
                                ) == name@);
                            }
                        }
                        return Ok(());
                    }
                    i = i + 1;
                }
                Err(
                    Error::new(
                        ErrorKind::FeatureUnsupported,
                        "capability was not advertised".to_owned(),
                    ),
                )
            },
        }
    }
}

} // verus!
