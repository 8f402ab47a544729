//! The CAPA reply: the capabilities a server advertises, one per body
//! line, as `<name>[ <arguments>]`.
//!
//! Recognized names (matched case-sensitively, with an argument of the
//! declared kind) become their own variant; every other line is kept
//! verbatim in the catch-all variant, so no server extension is ever
//! dropped and capability parsing itself never fails.

use vstd::prelude::*;

use crate::codec::{copy_range, eq_bytes, find_sp, has_sp, rest_of, word_of};
use crate::numbers::{dec_val, is_digits, parse_u64};

verus! {

/// The kind of argument a recognized capability carries: a duration in
/// seconds, a plain number, or raw text. It only guides how the argument
/// is parsed.
#[derive(Debug, Clone, Copy, PartialEq, Eq, Structural)]
pub enum DataType {
    Duration,
    Number,
    Text,
}

/// One advertised capability. `Other` keeps the whole unrecognized line
/// verbatim.
#[derive(Debug, PartialEq, Eq)]
pub enum Capability {
    Top,
    User,
    Sasl(Vec<u8>),
    RespCodes,
    LoginDelay(u64),
    Pipelining,
    Expire(u64),
    Uidl,
    Implementation(Vec<u8>),
    Other(Vec<u8>),
}

/// The abstract value of a [`Capability`].
pub ghost enum CapaModel {
    Top,
    User,
    Sasl(Seq<u8>),
    RespCodes,
    LoginDelay(nat),
    Pipelining,
    Expire(nat),
    Uidl,
    Implementation(Seq<u8>),
    Other(Seq<u8>),
}

impl DeepView for Capability {
    type V = CapaModel;

    open spec fn deep_view(&self) -> CapaModel {
        match self {
            Capability::Top => CapaModel::Top,
            Capability::User => CapaModel::User,
            Capability::Sasl(m) => CapaModel::Sasl(m@),
            Capability::RespCodes => CapaModel::RespCodes,
            Capability::LoginDelay(d) => CapaModel::LoginDelay(*d as nat),
            Capability::Pipelining => CapaModel::Pipelining,
            Capability::Expire(d) => CapaModel::Expire(*d as nat),
            Capability::Uidl => CapaModel::Uidl,
            Capability::Implementation(t) => CapaModel::Implementation(t@),
            Capability::Other(l) => CapaModel::Other(l@),
        }
    }
}

pub open spec fn name_top() -> Seq<u8> {
    seq![84, 79, 80]
}

pub open spec fn name_user() -> Seq<u8> {
    seq![85, 83, 69, 82]
}

pub open spec fn name_sasl() -> Seq<u8> {
    seq![83, 65, 83, 76]
}

pub open spec fn name_resp_codes() -> Seq<u8> {
    seq![82, 69, 83, 80, 45, 67, 79, 68, 69, 83]
}

pub open spec fn name_login_delay() -> Seq<u8> {
    seq![76, 79, 71, 73, 78, 45, 68, 69, 76, 65, 89]
}

pub open spec fn name_pipelining() -> Seq<u8> {
    seq![80, 73, 80, 69, 76, 73, 78, 73, 78, 71]
}

pub open spec fn name_expire() -> Seq<u8> {
    seq![69, 88, 80, 73, 82, 69]
}

pub open spec fn name_uidl() -> Seq<u8> {
    seq![85, 73, 68, 76]
}

pub open spec fn name_implementation() -> Seq<u8> {
    seq![73, 77, 80, 76, 69, 77, 69, 78, 84, 65, 84, 73, 79, 78]
}

/// The argument kind of a recognized capability name, if it takes one.
pub open spec fn arg_type_of(name: Seq<u8>) -> Option<DataType> {
    if name == name_login_delay() {
        Some(DataType::Duration)
    } else if name == name_expire() {
        Some(DataType::Number)
    } else if name == name_sasl() || name == name_implementation() {
        Some(DataType::Text)
    } else {
        None
    }
}

/// The argument kind of a recognized capability name, if it takes one:
/// how [`capa_of`] reads the words after the name.
pub fn arg_type(name: &[u8]) -> (r: Option<DataType>)
    ensures
        r == arg_type_of(name@),
{
    let nm_delay = [76u8, 79, 71, 73, 78, 45, 68, 69, 76, 65, 89];
    let nm_expire = [69u8, 88, 80, 73, 82, 69];
    let nm_sasl = [83u8, 65, 83, 76];
    let nm_impl = [73u8, 77, 80, 76, 69, 77, 69, 78, 84, 65, 84, 73, 79, 78];
    proof {
        assert(nm_delay@ =~= name_login_delay());
        assert(nm_expire@ =~= name_expire());
        assert(nm_sasl@ =~= name_sasl());
        assert(nm_impl@ =~= name_implementation());
    }
    if eq_bytes(name, nm_delay.as_slice()) {
        Some(DataType::Duration)
    } else if eq_bytes(name, nm_expire.as_slice()) {
        Some(DataType::Number)
    } else if eq_bytes(name, nm_sasl.as_slice()) || eq_bytes(name, nm_impl.as_slice()) {
        Some(DataType::Text)
    } else {
        None
    }
}

/// The capability a single body line advertises. A recognized name whose
/// argument does not have its declared shape falls back to the verbatim
/// catch-all, so this function is total.
pub open spec fn capa_of(l: Seq<u8>) -> CapaModel {
    let w = word_of(l);
    let r = rest_of(l);
    let has_arg = has_sp(l);
    if w == name_top() && !has_arg {
        CapaModel::Top
    } else if w == name_user() && !has_arg {
        CapaModel::User
    } else if w == name_sasl() && has_arg && r.len() >= 1 {
        CapaModel::Sasl(r)
    } else if w == name_resp_codes() && !has_arg {
        CapaModel::RespCodes
    } else if w == name_login_delay() && has_arg && r.len() >= 1 && is_digits(r) && dec_val(r)
        <= u64::MAX {
        CapaModel::LoginDelay(dec_val(r))
    } else if w == name_pipelining() && !has_arg {
        CapaModel::Pipelining
    } else if w == name_expire() && has_arg && r.len() >= 1 && is_digits(r) && dec_val(r) <= u64::MAX {
        CapaModel::Expire(dec_val(r))
    } else if w == name_uidl() && !has_arg {
        CapaModel::Uidl
    } else if w == name_implementation() && has_arg && r.len() >= 1 {
        CapaModel::Implementation(r)
    } else {
        CapaModel::Other(l)
    }
}

/// The name a capability was advertised under.
pub open spec fn capa_name(c: CapaModel) -> Seq<u8> {
    match c {
        CapaModel::Top => name_top(),
        CapaModel::User => name_user(),
        CapaModel::Sasl(_) => name_sasl(),
        CapaModel::RespCodes => name_resp_codes(),
        CapaModel::LoginDelay(_) => name_login_delay(),
        CapaModel::Pipelining => name_pipelining(),
        CapaModel::Expire(_) => name_expire(),
        CapaModel::Uidl => name_uidl(),
        CapaModel::Implementation(_) => name_implementation(),
        CapaModel::Other(l) => word_of(l),
    }
}

/// The capabilities of a whole CAPA body, in order.
pub open spec fn capas_of(lines: Seq<Seq<u8>>) -> Seq<CapaModel> {
    Seq::new(lines.len(), |i: int| capa_of(lines[i]))
}

/// Parses one capability line. Never fails.
pub fn parse_capa_line(l: &Vec<u8>) -> (c: Capability)
    ensures
        c.deep_view() == capa_of(l@),
{
    let s = l.as_slice();
    let i = find_sp(s);
    proof {
        crate::codec::lemma_sp_idx(s@);
    }
    let w = copy_range(s, 0, i);
    let has_arg = i < s.len();
    let rest = if has_arg {
        copy_range(s, i + 1, s.len())
    } else {
        Vec::new()
    };
    proof {
        if has_arg {
            assert(rest@ == rest_of(l@));
        }
    }
    let nm_top = [84, 79, 80];
    let nm_user = [85, 83, 69, 82];
    let nm_sasl = [83, 65, 83, 76];
    let nm_resp = [82, 69, 83, 80, 45, 67, 79, 68, 69, 83];
    let nm_delay = [76, 79, 71, 73, 78, 45, 68, 69, 76, 65, 89];
    let nm_pipe = [80, 73, 80, 69, 76, 73, 78, 73, 78, 71];
    let nm_expire = [69, 88, 80, 73, 82, 69];
    let nm_uidl = [85, 73, 68, 76];
    let nm_impl = [73, 77, 80, 76, 69, 77, 69, 78, 84, 65, 84, 73, 79,
        78];
    proof {
        assert(nm_top@ =~= name_top());
        assert(nm_user@ =~= name_user());
        assert(nm_sasl@ =~= name_sasl());
        assert(nm_resp@ =~= name_resp_codes());
        assert(nm_delay@ =~= name_login_delay());
        assert(nm_pipe@ =~= name_pipelining());
        assert(nm_expire@ =~= name_expire());
        assert(nm_uidl@ =~= name_uidl());
        assert(nm_impl@ =~= name_implementation());
    }
    if eq_bytes(w.as_slice(), nm_top.as_slice()) && !has_arg {
        Capability::Top
    } else if eq_bytes(w.as_slice(), nm_user.as_slice()) && !has_arg {
        Capability::User
    } else if eq_bytes(w.as_slice(), nm_sasl.as_slice()) && has_arg && rest.len() >= 1 {
        Capability::Sasl(rest)
    } else if eq_bytes(w.as_slice(), nm_resp.as_slice()) && !has_arg {
        Capability::RespCodes
    } else if eq_bytes(w.as_slice(), nm_delay.as_slice()) && has_arg && rest.len() >= 1 {
        match parse_u64(rest.as_slice()) {
            Some(d) => Capability::LoginDelay(d),
            None => {
                let whole = copy_range(s, 0, s.len());
                proof {
                    assert(whole@ =~= l@);
                }
                Capability::Other(whole)
            },
        }
    } else if eq_bytes(w.as_slice(), nm_pipe.as_slice()) && !has_arg {
        Capability::Pipelining
    } else if eq_bytes(w.as_slice(), nm_expire.as_slice()) && has_arg && rest.len() >= 1 {
        match parse_u64(rest.as_slice()) {
            Some(d) => Capability::Expire(d),
            None => {
                let whole = copy_range(s, 0, s.len());
                proof {
                    assert(whole@ =~= l@);
                }
                Capability::Other(whole)
            },
        }
    } else if eq_bytes(w.as_slice(), nm_uidl.as_slice()) && !has_arg {
        Capability::Uidl
    } else if eq_bytes(w.as_slice(), nm_impl.as_slice()) && has_arg && rest.len() >= 1 {
        Capability::Implementation(rest)
    } else {
        let whole = copy_range(s, 0, s.len());
        proof {
            assert(whole@ =~= l@);
        }
        Capability::Other(whole)
    }
}

/// Parses a whole CAPA body, one capability per line, in order. Total: an
/// unknown or malformed line is preserved verbatim, never an error.
pub fn parse_capa_body(lines: &Vec<Vec<u8>>) -> (r: Vec<Capability>)
    ensures
        r.deep_view() == capas_of(lines.deep_view()),
{
    let ghost dv = lines.deep_view();
    let mut out: Vec<Capability> = Vec::new();
    let mut i: usize = 0;
    while i < lines.len()
        invariant
            dv == lines.deep_view(),
            0 <= i <= lines@.len(),
            dv.len() == lines@.len(),
            out@.len() == i,
            forall|j: int| 0 <= j < i ==> (#[trigger] out@[j]).deep_view() == capa_of(dv[j]),
        decreases lines@.len() - i,
    {
        proof {
            assert(dv[i as int] == lines@[i as int].deep_view());
            assert(lines@[i as int].deep_view() =~= lines@[i as int]@);
        }
        let c = parse_capa_line(&lines[i]);
        out.push(c);
        i = i + 1;
    }
    proof {
        assert forall|j: int| 0 <= j < out.deep_view().len() implies out.deep_view()[j]
            == capas_of(dv)[j] by {
            assert(out.deep_view()[j] == out@[j].deep_view());
        }
        assert(out.deep_view() =~= capas_of(dv));
    }
    out
}

} // verus!
