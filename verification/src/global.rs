//! Global protocol trees: the choreography-level description of a multiparty
//! interaction, independent of any one participant's viewpoint. Each node
//! kind is a struct of its own; [`TSession`] ties them into one tree type.

use vstd::prelude::*;
use crate::types::{Label, Msg, RoleId, Transport};

verus! {

/// Protocol termination.
#[derive(Debug, PartialEq, Eq)]
pub struct TEnd {
    pub io: Transport,
    pub lbl: Label,
}

/// One participant `role` performs an action carrying `msg` (send or receive
/// is decided later, by projection relative to an observer), followed by
/// `cont`. Every interaction is owned by exactly one role.
#[derive(Debug, PartialEq, Eq)]
pub struct TInteract {
    pub io: Transport,
    pub lbl: Label,
    pub role: RoleId,
    pub msg: Msg,
    pub cont: Box<TSession>,
}

/// Branch point: the protocol continues as exactly one of `left`/`right`.
#[derive(Debug, PartialEq, Eq)]
pub struct TChoice {
    pub io: Transport,
    pub lbl: Label,
    pub left: Box<TSession>,
    pub right: Box<TSession>,
}

/// Parallel composition of two sub-protocols. `disjoint` is a trust flag set
/// true only by [`crate::checks::assert_disjoint`]; the constructors here
/// always leave it false.
#[derive(Debug, PartialEq, Eq)]
pub struct TPar {
    pub io: Transport,
    pub lbl: Label,
    pub left: Box<TSession>,
    pub right: Box<TSession>,
    pub disjoint: bool,
}

/// Recursion: `body` stands for the repeated fragment. The analyses do not
/// unfold it; they pass through the body exactly once.
#[derive(Debug, PartialEq, Eq)]
pub struct TRec {
    pub io: Transport,
    pub lbl: Label,
    pub body: Box<TSession>,
}

/// A global protocol tree. Every node carries a transport marker and a label.
#[derive(Debug, PartialEq, Eq)]
pub enum TSession {
    TEnd(TEnd),
    TInteract(TInteract),
    TChoice(TChoice),
    TPar(TPar),
    TRec(TRec),
}

/// The label a global node carries at its root.
pub open spec fn spec_protocol_label(g: TSession) -> Label {
    match g {
        TSession::TEnd(n) => n.lbl,
        TSession::TInteract(n) => n.lbl,
        TSession::TChoice(n) => n.lbl,
        TSession::TPar(n) => n.lbl,
        TSession::TRec(n) => n.lbl,
    }
}

/// The transport marker a global node carries at its root.
pub open spec fn spec_protocol_transport(g: TSession) -> Transport {
    match g {
        TSession::TEnd(n) => n.io,
        TSession::TInteract(n) => n.io,
        TSession::TChoice(n) => n.io,
        TSession::TPar(n) => n.io,
        TSession::TRec(n) => n.io,
    }
}

/// Every node of the tree carries the transport marker `io`. Composition
/// across different transport markers is disallowed; a tree an author may
/// use satisfies this for the marker at its root.
pub open spec fn uniform_transport(g: TSession, io: Transport) -> bool
    decreases g,
{
    match g {
        TSession::TEnd(n) => n.io == io,
        TSession::TInteract(n) => n.io == io && uniform_transport(*n.cont, io),
        TSession::TChoice(n) => {
            n.io == io && uniform_transport(*n.left, io) && uniform_transport(*n.right, io)
        },
        TSession::TPar(n) => {
            n.io == io && uniform_transport(*n.left, io) && uniform_transport(*n.right, io)
        },
        TSession::TRec(n) => n.io == io && uniform_transport(*n.body, io),
    }
}

/// What folding a branch list into nested binary choices yields: the empty
/// list maps to a termination node, a nonempty one to a choice of its head
/// against the fold of its tail, every introduced node carrying the empty
/// label and the transport `io`.
pub open spec fn spec_fold_choice(io: Transport, branches: Seq<TSession>) -> TSession
    decreases branches.len(),
{
    if branches.len() == 0 {
        TSession::TEnd(TEnd { io, lbl: Label::EmptyLabel })
    } else {
        TSession::TChoice(
            TChoice {
                io,
                lbl: Label::EmptyLabel,
                left: Box::new(branches[0]),
                right: Box::new(spec_fold_choice(io, branches.drop_first())),
            },
        )
    }
}

/// What folding a branch list into nested binary parallel nodes yields; as
/// [`spec_fold_choice`], with every introduced parallel node unverified (its
/// disjointness flag false).
pub open spec fn spec_fold_par(io: Transport, branches: Seq<TSession>) -> TSession
    decreases branches.len(),
{
    if branches.len() == 0 {
        TSession::TEnd(TEnd { io, lbl: Label::EmptyLabel })
    } else {
        TSession::TPar(
            TPar {
                io,
                lbl: Label::EmptyLabel,
                left: Box::new(branches[0]),
                right: Box::new(spec_fold_par(io, branches.drop_first())),
                disjoint: false,
            },
        )
    }
}

/// Sequential composition: `rhs` replaces every termination node of `g`.
/// Each non-terminal node keeps its own label; a choice or parallel node
/// composes `rhs` into both branches; recursion composes into its body.
pub open spec fn spec_compose(g: TSession, rhs: TSession) -> TSession
    decreases g,
{
    match g {
        TSession::TEnd(_) => rhs,
        TSession::TInteract(n) => TSession::TInteract(
            TInteract {
                io: n.io,
                lbl: n.lbl,
                role: n.role,
                msg: n.msg,
                cont: Box::new(spec_compose(*n.cont, rhs)),
            },
        ),
        TSession::TChoice(n) => TSession::TChoice(
            TChoice {
                io: n.io,
                lbl: n.lbl,
                left: Box::new(spec_compose(*n.left, rhs)),
                right: Box::new(spec_compose(*n.right, rhs)),
            },
        ),
        TSession::TPar(n) => TSession::TPar(
            TPar {
                io: n.io,
                lbl: n.lbl,
                left: Box::new(spec_compose(*n.left, rhs)),
                right: Box::new(spec_compose(*n.right, rhs)),
                disjoint: n.disjoint,
            },
        ),
        TSession::TRec(n) => TSession::TRec(
            TRec { io: n.io, lbl: n.lbl, body: Box::new(spec_compose(*n.body, rhs)) },
        ),
    }
}

/// Folding an ordered branch list, right to left, into nested binary choice
/// nodes; the empty list maps to a termination node.
pub trait ToTChoice {
    /// Builds the nested choice tree over the transport `io`.
    fn to_tchoice(self, io: Transport) -> TSession;
}

/// Folding an ordered branch list, right to left, into nested binary
/// parallel nodes, each with its disjointness flag false; the empty list
/// maps to a termination node.
pub trait ToTPar {
    /// Builds the nested parallel tree over the transport `io`.
    fn to_tpar(self, io: Transport) -> TSession;
}

impl ToTChoice for Vec<TSession> {
    fn to_tchoice(self, io: Transport) -> (r: TSession)
        ensures
            r == spec_fold_choice(io, self@),
    {
        let ghost orig = self@;
        let mut branches = self;
        let mut acc = TSession::TEnd(TEnd { io, lbl: Label::EmptyLabel });
        proof {
            assert(orig.subrange(orig.len() as int, orig.len() as int)
                =~= Seq::<TSession>::empty());
        }
        while branches.len() > 0
            invariant
                branches@ == orig.subrange(0, branches@.len() as int),
                branches@.len() <= orig.len(),
                acc == spec_fold_choice(
                    io,
                    orig.subrange(branches@.len() as int, orig.len() as int),
                ),
            decreases branches@.len(),
        {
            let ghost n = branches@.len() as int;
            let b = branches.pop().unwrap();
            acc = TSession::TChoice(
                TChoice { io, lbl: Label::EmptyLabel, left: Box::new(b), right: Box::new(acc) },
            );
            proof {
                let tail = orig.subrange(n - 1, orig.len() as int);
                assert(branches@ =~= orig.subrange(0, n - 1));
                assert(tail[0] == b);
                assert(tail.drop_first() =~= orig.subrange(n, orig.len() as int));
            }
        }
        proof {
            assert(orig.subrange(0, orig.len() as int) =~= orig);
        }
        acc
    }
}

impl ToTPar for Vec<TSession> {
    fn to_tpar(self, io: Transport) -> (r: TSession)
        ensures
            r == spec_fold_par(io, self@),
    {
        let ghost orig = self@;
        let mut branches = self;
        let mut acc = TSession::TEnd(TEnd { io, lbl: Label::EmptyLabel });
        proof {
            assert(orig.subrange(orig.len() as int, orig.len() as int)
                =~= Seq::<TSession>::empty());
        }
        while branches.len() > 0
            invariant
                branches@ == orig.subrange(0, branches@.len() as int),
                branches@.len() <= orig.len(),
                acc == spec_fold_par(io, orig.subrange(branches@.len() as int, orig.len() as int)),
            decreases branches@.len(),
        {
            let ghost n = branches@.len() as int;
            let b = branches.pop().unwrap();
            acc = TSession::TPar(
                TPar {
                    io,
                    lbl: Label::EmptyLabel,
                    left: Box::new(b),
                    right: Box::new(acc),
                    disjoint: false,
                },
            );
            proof {
                let tail = orig.subrange(n - 1, orig.len() as int);
                assert(branches@ =~= orig.subrange(0, n - 1));
                assert(tail[0] == b);
                assert(tail.drop_first() =~= orig.subrange(n, orig.len() as int));
            }
        }
        proof {
            assert(orig.subrange(0, orig.len() as int) =~= orig);
        }
        acc
    }
}

/// Reading the label at a global tree's root.
pub trait GetProtocolLabel {
    /// The label at the root of this tree.
    fn get_protocol_label(&self) -> Label;
}

impl GetProtocolLabel for TSession {
    fn get_protocol_label(&self) -> (r: Label)
        ensures
            r == spec_protocol_label(*self),
    {
        match self {
            TSession::TEnd(n) => n.lbl,
            TSession::TInteract(n) => n.lbl,
            TSession::TChoice(n) => n.lbl,
            TSession::TPar(n) => n.lbl,
            TSession::TRec(n) => n.lbl,
        }
    }
}

impl TSession {
    /// Builds a termination node.
    pub fn tend(io: Transport, lbl: Label) -> (r: TSession)
        ensures
            r == (TSession::TEnd(TEnd { io, lbl })),
    {
        TSession::TEnd(TEnd { io, lbl })
    }

    /// Builds an interaction node owned by `role`.
    pub fn tinteract(io: Transport, lbl: Label, role: RoleId, msg: Msg, cont: TSession) -> (r:
        TSession)
        ensures
            r == (TSession::TInteract(TInteract { io, lbl, role, msg, cont: Box::new(cont) })),
    {
        TSession::TInteract(TInteract { io, lbl, role, msg, cont: Box::new(cont) })
    }

    /// Builds a binary choice node.
    pub fn tchoice(io: Transport, lbl: Label, left: TSession, right: TSession) -> (r: TSession)
        ensures
            r == (TSession::TChoice(
                TChoice { io, lbl, left: Box::new(left), right: Box::new(right) },
            )),
    {
        TSession::TChoice(TChoice { io, lbl, left: Box::new(left), right: Box::new(right) })
    }

    /// Builds a parallel node; the disjointness flag starts out false and is
    /// set only by [`crate::checks::assert_disjoint`].
    pub fn tpar(io: Transport, lbl: Label, left: TSession, right: TSession) -> (r: TSession)
        ensures
            r == (TSession::TPar(
                TPar { io, lbl, left: Box::new(left), right: Box::new(right), disjoint: false },
            )),
    {
        TSession::TPar(
            TPar { io, lbl, left: Box::new(left), right: Box::new(right), disjoint: false },
        )
    }

    /// Builds a recursion node around `body`.
    pub fn trec(io: Transport, lbl: Label, body: TSession) -> (r: TSession)
        ensures
            r == (TSession::TRec(TRec { io, lbl, body: Box::new(body) })),
    {
        TSession::TRec(TRec { io, lbl, body: Box::new(body) })
    }

    /// The transport marker at the root of this tree.
    pub fn get_transport(&self) -> (r: Transport)
        ensures
            r == spec_protocol_transport(*self),
    {
        match self {
            TSession::TEnd(n) => n.io,
            TSession::TInteract(n) => n.io,
            TSession::TChoice(n) => n.io,
            TSession::TPar(n) => n.io,
            TSession::TRec(n) => n.io,
        }
    }

    /// Whether this tree is the empty session (a bare termination node).
    pub fn is_empty(&self) -> (r: bool)
        ensures
            r == (*self is TEnd),
    {
        match self {
            TSession::TEnd(_) => true,
            _ => false,
        }
    }

    /// Sequential composition: a tree in which a copy of `rhs` replaces
    /// every termination node of this tree, and every other node, its label
    /// included, is kept.
    pub fn compose(&self, rhs: &TSession) -> (r: TSession)
        ensures
            r == spec_compose(*self, *rhs),
        decreases self,
    {
        match self {
            TSession::TEnd(_) => rhs.duplicate(),
            TSession::TInteract(n) => TSession::TInteract(
                TInteract {
                    io: n.io,
                    lbl: n.lbl,
                    role: n.role,
                    msg: n.msg,
                    cont: Box::new(n.cont.compose(rhs)),
                },
            ),
            TSession::TChoice(n) => TSession::TChoice(
                TChoice {
                    io: n.io,
                    lbl: n.lbl,
                    left: Box::new(n.left.compose(rhs)),
                    right: Box::new(n.right.compose(rhs)),
                },
            ),
            TSession::TPar(n) => TSession::TPar(
                TPar {
                    io: n.io,
                    lbl: n.lbl,
                    left: Box::new(n.left.compose(rhs)),
                    right: Box::new(n.right.compose(rhs)),
                    disjoint: n.disjoint,
                },
            ),
            TSession::TRec(n) => TSession::TRec(
                TRec { io: n.io, lbl: n.lbl, body: Box::new(n.body.compose(rhs)) },
            ),
        }
    }

    /// A structurally equal copy of this tree.
    pub fn duplicate(&self) -> (r: TSession)
        ensures
            r == *self,
        decreases self,
    {
        match self {
            TSession::TEnd(n) => TSession::TEnd(TEnd { io: n.io, lbl: n.lbl }),
            TSession::TInteract(n) => TSession::TInteract(
                TInteract {
                    io: n.io,
                    lbl: n.lbl,
                    role: n.role,
                    msg: n.msg,
                    cont: Box::new(n.cont.duplicate()),
                },
            ),
            TSession::TChoice(n) => TSession::TChoice(
                TChoice {
                    io: n.io,
                    lbl: n.lbl,
                    left: Box::new(n.left.duplicate()),
                    right: Box::new(n.right.duplicate()),
                },
            ),
            TSession::TPar(n) => TSession::TPar(
                TPar {
                    io: n.io,
                    lbl: n.lbl,
                    left: Box::new(n.left.duplicate()),
                    right: Box::new(n.right.duplicate()),
                    disjoint: n.disjoint,
                },
            ),
            TSession::TRec(n) => TSession::TRec(
                TRec { io: n.io, lbl: n.lbl, body: Box::new(n.body.duplicate()) },
            ),
        }
    }
}

} // verus!
