//! Local (endpoint) protocol trees: the single-participant view that
//! projection derives from a global protocol. Each node kind is a struct of
//! its own; [`EpSession`] ties them into one tree type.

use vstd::prelude::*;
use crate::types::{Label, Msg, RoleId, Transport};

verus! {

/// This role sends `msg`, then continues as `cont`.
#[derive(Debug, PartialEq, Eq)]
pub struct EpSend {
    pub io: Transport,
    pub lbl: Label,
    pub role: RoleId,
    pub msg: Msg,
    pub cont: Box<EpSession>,
}

/// This role receives `msg`, then continues as `cont`.
#[derive(Debug, PartialEq, Eq)]
pub struct EpRecv {
    pub io: Transport,
    pub lbl: Label,
    pub role: RoleId,
    pub msg: Msg,
    pub cont: Box<EpSession>,
}

/// Protocol termination for this role.
#[derive(Debug, PartialEq, Eq)]
pub struct EpEnd {
    pub io: Transport,
    pub lbl: Label,
    pub role: RoleId,
}

/// Endpoint counterpart of a global choice: offer of two branches.
#[derive(Debug, PartialEq, Eq)]
pub struct EpChoice {
    pub io: Transport,
    pub lbl: Label,
    pub role: RoleId,
    pub left: Box<EpSession>,
    pub right: Box<EpSession>,
}

/// Endpoint counterpart of a global parallel composition.
#[derive(Debug, PartialEq, Eq)]
pub struct EpPar {
    pub io: Transport,
    pub lbl: Label,
    pub role: RoleId,
    pub left: Box<EpSession>,
    pub right: Box<EpSession>,
}

/// This role has nothing to do in the branch the node stands for.
#[derive(Debug, PartialEq, Eq)]
pub struct EpSkip {
    pub io: Transport,
    pub lbl: Label,
    pub role: RoleId,
}

/// A local protocol tree, the per-role result of projection. Every node
/// carries the transport marker, a label, and the role whose view it is.
#[derive(Debug, PartialEq, Eq)]
pub enum EpSession {
    EpSend(EpSend),
    EpRecv(EpRecv),
    EpEnd(EpEnd),
    EpChoice(EpChoice),
    EpPar(EpPar),
    EpSkip(EpSkip),
}

/// The label a local node carries at its root.
pub open spec fn spec_local_label(ep: EpSession) -> Label {
    match ep {
        EpSession::EpSend(n) => n.lbl,
        EpSession::EpRecv(n) => n.lbl,
        EpSession::EpEnd(n) => n.lbl,
        EpSession::EpChoice(n) => n.lbl,
        EpSession::EpPar(n) => n.lbl,
        EpSession::EpSkip(n) => n.lbl,
    }
}

/// The transport marker a local node carries at its root.
pub open spec fn spec_local_transport(ep: EpSession) -> Transport {
    match ep {
        EpSession::EpSend(n) => n.io,
        EpSession::EpRecv(n) => n.io,
        EpSession::EpEnd(n) => n.io,
        EpSession::EpChoice(n) => n.io,
        EpSession::EpPar(n) => n.io,
        EpSession::EpSkip(n) => n.io,
    }
}

/// The role a local node carries at its root.
pub open spec fn spec_local_role(ep: EpSession) -> RoleId {
    match ep {
        EpSession::EpSend(n) => n.role,
        EpSession::EpRecv(n) => n.role,
        EpSession::EpEnd(n) => n.role,
        EpSession::EpChoice(n) => n.role,
        EpSession::EpPar(n) => n.role,
        EpSession::EpSkip(n) => n.role,
    }
}

/// Every node of the local tree carries the transport marker `io`.
pub open spec fn uniform_local_transport(ep: EpSession, io: Transport) -> bool
    decreases ep,
{
    match ep {
        EpSession::EpSend(n) => n.io == io && uniform_local_transport(*n.cont, io),
        EpSession::EpRecv(n) => n.io == io && uniform_local_transport(*n.cont, io),
        EpSession::EpEnd(n) => n.io == io,
        EpSession::EpChoice(n) => {
            n.io == io && uniform_local_transport(*n.left, io) && uniform_local_transport(
                *n.right,
                io,
            )
        },
        EpSession::EpPar(n) => {
            n.io == io && uniform_local_transport(*n.left, io) && uniform_local_transport(
                *n.right,
                io,
            )
        },
        EpSession::EpSkip(n) => n.io == io,
    }
}

/// Every node of the local tree is the view of the one role `me`.
pub open spec fn uniform_local_role(ep: EpSession, me: RoleId) -> bool
    decreases ep,
{
    match ep {
        EpSession::EpSend(n) => n.role == me && uniform_local_role(*n.cont, me),
        EpSession::EpRecv(n) => n.role == me && uniform_local_role(*n.cont, me),
        EpSession::EpEnd(n) => n.role == me,
        EpSession::EpChoice(n) => {
            n.role == me && uniform_local_role(*n.left, me) && uniform_local_role(*n.right, me)
        },
        EpSession::EpPar(n) => {
            n.role == me && uniform_local_role(*n.left, me) && uniform_local_role(*n.right, me)
        },
        EpSession::EpSkip(n) => n.role == me,
    }
}

/// Whether a local node is anything but a skip node.
pub open spec fn spec_not_skip(e: EpSession) -> bool {
    !(e is EpSkip)
}

/// The subsequence of `s` with every skip node removed, order kept.
pub open spec fn spec_filter_skips(s: Seq<EpSession>) -> Seq<EpSession> {
    s.filter(|e: EpSession| spec_not_skip(e))
}

/// Removes every skip node from a list of local branches, keeping the order
/// of what remains.
pub fn filter_skips(branches: Vec<EpSession>) -> (r: Vec<EpSession>)
    ensures
        r@ == spec_filter_skips(branches@),
{
    let ghost orig = branches@;
    let mut branches = branches;
    let mut acc: Vec<EpSession> = Vec::new();
    let ghost i: int = 0;
    proof {
        reveal(Seq::filter);
        assert(orig.take(0) =~= Seq::<EpSession>::empty());
    }
    while branches.len() > 0
        invariant
            0 <= i <= orig.len(),
            branches@ =~= orig.skip(i),
            acc@ == spec_filter_skips(orig.take(i)),
        decreases branches@.len(),
    {
        let e = branches.remove(0);
        proof {
            assert(e == orig[i]);
            assert(branches@ =~= orig.skip(i + 1));
            assert(orig.take(i + 1).drop_last() =~= orig.take(i));
            assert(orig.take(i + 1).last() == orig[i]);
            reveal(Seq::filter);
        }
        if !e.is_ep_skip() {
            acc.push(e);
        }
        proof {
            i = i + 1;
        }
    }
    proof {
        assert(orig.take(orig.len() as int) =~= orig);
    }
    acc
}

/// Telling skip nodes apart from every other local node.
pub trait IsEpSkipVariant {
    /// Whether this node is a skip node.
    fn is_ep_skip(&self) -> bool;
}

/// Telling termination nodes apart from every other local node.
pub trait IsEpEndVariant {
    /// Whether this node is a termination node.
    fn is_ep_end(&self) -> bool;
}

/// Reading the label at a local tree's root.
pub trait GetLocalLabel {
    /// The label at the root of this tree.
    fn get_local_label(&self) -> Label;
}

impl IsEpSkipVariant for EpSession {
    fn is_ep_skip(&self) -> (r: bool)
        ensures
            r == (*self is EpSkip),
    {
        match self {
            EpSession::EpSkip(_) => true,
            _ => false,
        }
    }
}

impl IsEpEndVariant for EpSession {
    fn is_ep_end(&self) -> (r: bool)
        ensures
            r == (*self is EpEnd),
    {
        match self {
            EpSession::EpEnd(_) => true,
            _ => false,
        }
    }
}

impl GetLocalLabel for EpSession {
    fn get_local_label(&self) -> (r: Label)
        ensures
            r == spec_local_label(*self),
    {
        match self {
            EpSession::EpSend(n) => n.lbl,
            EpSession::EpRecv(n) => n.lbl,
            EpSession::EpEnd(n) => n.lbl,
            EpSession::EpChoice(n) => n.lbl,
            EpSession::EpPar(n) => n.lbl,
            EpSession::EpSkip(n) => n.lbl,
        }
    }
}

impl EpSession {
    /// Builds a send node.
    pub fn ep_send(io: Transport, lbl: Label, role: RoleId, msg: Msg, cont: EpSession) -> (r:
        EpSession)
        ensures
            r == (EpSession::EpSend(EpSend { io, lbl, role, msg, cont: Box::new(cont) })),
    {
        EpSession::EpSend(EpSend { io, lbl, role, msg, cont: Box::new(cont) })
    }

    /// Builds a receive node.
    pub fn ep_recv(io: Transport, lbl: Label, role: RoleId, msg: Msg, cont: EpSession) -> (r:
        EpSession)
        ensures
            r == (EpSession::EpRecv(EpRecv { io, lbl, role, msg, cont: Box::new(cont) })),
    {
        EpSession::EpRecv(EpRecv { io, lbl, role, msg, cont: Box::new(cont) })
    }

    /// Builds a termination node.
    pub fn ep_end(io: Transport, lbl: Label, role: RoleId) -> (r: EpSession)
        ensures
            r == (EpSession::EpEnd(EpEnd { io, lbl, role })),
    {
        EpSession::EpEnd(EpEnd { io, lbl, role })
    }

    /// Builds an offer node over two local branches.
    pub fn ep_choice(io: Transport, lbl: Label, role: RoleId, left: EpSession, right: EpSession)
        -> (r: EpSession)
        ensures
            r == (EpSession::EpChoice(
                EpChoice { io, lbl, role, left: Box::new(left), right: Box::new(right) },
            )),
    {
        EpSession::EpChoice(EpChoice { io, lbl, role, left: Box::new(left), right: Box::new(right) })
    }

    /// Builds a parallel-run node over two local branches.
    pub fn ep_par(io: Transport, lbl: Label, role: RoleId, left: EpSession, right: EpSession) -> (r:
        EpSession)
        ensures
            r == (EpSession::EpPar(
                EpPar { io, lbl, role, left: Box::new(left), right: Box::new(right) },
            )),
    {
        EpSession::EpPar(EpPar { io, lbl, role, left: Box::new(left), right: Box::new(right) })
    }

    /// Builds a skip node.
    pub fn ep_skip(io: Transport, lbl: Label, role: RoleId) -> (r: EpSession)
        ensures
            r == (EpSession::EpSkip(EpSkip { io, lbl, role })),
    {
        EpSession::EpSkip(EpSkip { io, lbl, role })
    }

    /// The transport marker at the root of this tree.
    pub fn get_transport(&self) -> (r: Transport)
        ensures
            r == spec_local_transport(*self),
    {
        match self {
            EpSession::EpSend(n) => n.io,
            EpSession::EpRecv(n) => n.io,
            EpSession::EpEnd(n) => n.io,
            EpSession::EpChoice(n) => n.io,
            EpSession::EpPar(n) => n.io,
            EpSession::EpSkip(n) => n.io,
        }
    }

    /// The role whose view this tree is.
    pub fn get_local_role(&self) -> (r: RoleId)
        ensures
            r == spec_local_role(*self),
    {
        match self {
            EpSession::EpSend(n) => n.role,
            EpSession::EpRecv(n) => n.role,
            EpSession::EpEnd(n) => n.role,
            EpSession::EpChoice(n) => n.role,
            EpSession::EpPar(n) => n.role,
            EpSession::EpSkip(n) => n.role,
        }
    }

    /// A structurally equal copy of this tree.
    pub fn duplicate(&self) -> (r: EpSession)
        ensures
            r == *self,
        decreases self,
    {
        match self {
            EpSession::EpSend(n) => EpSession::EpSend(
                EpSend {
                    io: n.io,
                    lbl: n.lbl,
                    role: n.role,
                    msg: n.msg,
                    cont: Box::new(n.cont.duplicate()),
                },
            ),
            EpSession::EpRecv(n) => EpSession::EpRecv(
                EpRecv {
                    io: n.io,
                    lbl: n.lbl,
                    role: n.role,
                    msg: n.msg,
                    cont: Box::new(n.cont.duplicate()),
                },
            ),
            EpSession::EpEnd(n) => EpSession::EpEnd(
                EpEnd { io: n.io, lbl: n.lbl, role: n.role },
            ),
            EpSession::EpChoice(n) => EpSession::EpChoice(
                EpChoice {
                    io: n.io,
                    lbl: n.lbl,
                    role: n.role,
                    left: Box::new(n.left.duplicate()),
                    right: Box::new(n.right.duplicate()),
                },
            ),
            EpSession::EpPar(n) => EpSession::EpPar(
                EpPar {
                    io: n.io,
                    lbl: n.lbl,
                    role: n.role,
                    left: Box::new(n.left.duplicate()),
                    right: Box::new(n.right.duplicate()),
                },
            ),
            EpSession::EpSkip(n) => EpSession::EpSkip(
                EpSkip { io: n.io, lbl: n.lbl, role: n.role },
            ),
        }
    }
}

} // verus!
