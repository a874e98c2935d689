//! Projection of a global protocol onto one role, yielding the local protocol
//! for that role, together with the two membership predicates the projection
//! cases branch on.
//!
//! Two distinct notions of "presence" drive the case analysis:
//!
//! - [`spec_contains_role`] over-approximates: at an interaction node *every*
//!   role counts as present, because a role not explicitly named by an
//!   interaction is still a receiver of that message. Choice nodes branch on
//!   this predicate, so an observer that could receive in either branch is
//!   offered both.
//! - [`spec_mentions_role`] is exact: a role is mentioned only where an
//!   interaction names it as owner. Parallel nodes branch on this predicate,
//!   so a branch that never names the observer projects away entirely and the
//!   other branch's projection is returned verbatim.

use vstd::prelude::*;
use crate::global::{TChoice, TEnd, TInteract, TPar, TRec, TSession};
use crate::local::{EpChoice, EpEnd, EpPar, EpRecv, EpSend, EpSession, EpSkip, IsEpEndVariant, IsEpSkipVariant};
use crate::types::{Label, Msg, RoleId, Transport};

verus! {

/// Over-approximated membership: is `me` present in `g`? At an interaction
/// node every role is present (any observer is at least a receiver); a
/// choice or parallel node is the disjunction of its branches; recursion
/// passes through its body; a termination node has no member roles.
pub open spec fn spec_contains_role(g: TSession, me: RoleId) -> bool
    decreases g,
{
    match g {
        TSession::TEnd(_) => false,
        TSession::TInteract(_) => true,
        TSession::TChoice(n) => {
            spec_contains_role(*n.left, me) || spec_contains_role(*n.right, me)
        },
        TSession::TPar(n) => spec_contains_role(*n.left, me) || spec_contains_role(*n.right, me),
        TSession::TRec(n) => spec_contains_role(*n.body, me),
    }
}

/// Exact membership: is `me` named by some interaction node of `g`?
pub open spec fn spec_mentions_role(g: TSession, me: RoleId) -> bool
    decreases g,
{
    match g {
        TSession::TEnd(_) => false,
        TSession::TInteract(n) => n.role == me || spec_mentions_role(*n.cont, me),
        TSession::TChoice(n) => {
            spec_mentions_role(*n.left, me) || spec_mentions_role(*n.right, me)
        },
        TSession::TPar(n) => spec_mentions_role(*n.left, me) || spec_mentions_role(*n.right, me),
        TSession::TRec(n) => spec_mentions_role(*n.body, me),
    }
}

/// The projection of the global protocol `g` onto the observer `me`: a total
/// function over well-formed trees. Node by node:
///
/// - termination keeps its label and records the observer;
/// - an interaction owned by the observer becomes a send, any other
///   interaction a receive, in both cases over the projected continuation;
/// - a choice becomes an offer when the observer is present
///   ([`spec_contains_role`]) in at least one branch, with a skip carrying
///   the choice's own label standing in for an absent side, and collapses to
///   a skip with the choice's label when the observer is present in neither;
/// - a parallel node projects to the one branch that mentions the observer
///   ([`spec_mentions_role`]), verbatim, dropping the parallel node's own
///   label; to a parallel run of both projections under the parallel node's
///   label when both branches mention the observer; and to a skip carrying
///   the parallel node's label when neither does;
/// - recursion passes through to its body.
pub open spec fn spec_project(me: RoleId, g: TSession) -> EpSession
    decreases g,
{
    match g {
        TSession::TEnd(n) => EpSession::EpEnd(EpEnd { io: n.io, lbl: n.lbl, role: me }),
        TSession::TInteract(n) => {
            if n.role == me {
                EpSession::EpSend(
                    EpSend {
                        io: n.io,
                        lbl: n.lbl,
                        role: me,
                        msg: n.msg,
                        cont: Box::new(spec_project(me, *n.cont)),
                    },
                )
            } else {
                EpSession::EpRecv(
                    EpRecv {
                        io: n.io,
                        lbl: n.lbl,
                        role: me,
                        msg: n.msg,
                        cont: Box::new(spec_project(me, *n.cont)),
                    },
                )
            }
        },
        TSession::TChoice(n) => {
            let in_left = spec_contains_role(*n.left, me);
            let in_right = spec_contains_role(*n.right, me);
            if in_left && in_right {
                EpSession::EpChoice(
                    EpChoice {
                        io: n.io,
                        lbl: n.lbl,
                        role: me,
                        left: Box::new(spec_project(me, *n.left)),
                        right: Box::new(spec_project(me, *n.right)),
                    },
                )
            } else if in_left {
                EpSession::EpChoice(
                    EpChoice {
                        io: n.io,
                        lbl: n.lbl,
                        role: me,
                        left: Box::new(spec_project(me, *n.left)),
                        right: Box::new(
                            EpSession::EpSkip(EpSkip { io: n.io, lbl: n.lbl, role: me }),
                        ),
                    },
                )
            } else if in_right {
                EpSession::EpChoice(
                    EpChoice {
                        io: n.io,
                        lbl: n.lbl,
                        role: me,
                        left: Box::new(EpSession::EpSkip(EpSkip { io: n.io, lbl: n.lbl, role: me })),
                        right: Box::new(spec_project(me, *n.right)),
                    },
                )
            } else {
                EpSession::EpSkip(EpSkip { io: n.io, lbl: n.lbl, role: me })
            }
        },
        TSession::TPar(n) => {
            let in_left = spec_mentions_role(*n.left, me);
            let in_right = spec_mentions_role(*n.right, me);
            if in_left && in_right {
                EpSession::EpPar(
                    EpPar {
                        io: n.io,
                        lbl: n.lbl,
                        role: me,
                        left: Box::new(spec_project(me, *n.left)),
                        right: Box::new(spec_project(me, *n.right)),
                    },
                )
            } else if in_left {
                spec_project(me, *n.left)
            } else if in_right {
                spec_project(me, *n.right)
            } else {
                EpSession::EpSkip(EpSkip { io: n.io, lbl: n.lbl, role: me })
            }
        },
        TSession::TRec(n) => spec_project(me, *n.body),
    }
}

/// The presence of a role in a protocol branch, as choice projection sees it.
pub trait ContainsRole {
    /// Whether `me` is present in this tree under the over-approximated
    /// membership that choice projection branches on.
    fn contains_role(&self, me: RoleId) -> bool;
}

impl ContainsRole for TSession {
    fn contains_role(&self, me: RoleId) -> (r: bool)
        ensures
            r == spec_contains_role(*self, me),
        decreases self,
    {
        match self {
            TSession::TEnd(_) => false,
            TSession::TInteract(_) => true,
            TSession::TChoice(n) => n.left.contains_role(me) || n.right.contains_role(me),
            TSession::TPar(n) => n.left.contains_role(me) || n.right.contains_role(me),
            TSession::TRec(n) => n.body.contains_role(me),
        }
    }
}

/// Whether some interaction node of `g` names `me` as its owner; this is the
/// exact membership that parallel projection branches on.
pub fn mentions_role(g: &TSession, me: RoleId) -> (r: bool)
    ensures
        r == spec_mentions_role(*g, me),
    decreases g,
{
    match g {
        TSession::TEnd(_) => false,
        TSession::TInteract(n) => n.role == me || mentions_role(&n.cont, me),
        TSession::TChoice(n) => mentions_role(&n.left, me) || mentions_role(&n.right, me),
        TSession::TPar(n) => mentions_role(&n.left, me) || mentions_role(&n.right, me),
        TSession::TRec(n) => mentions_role(&n.body, me),
    }
}

/// Projection of a global tree onto one observer role.
pub trait ProjectRole {
    /// The local protocol of the observer `me`: this role's view of the
    /// whole global tree.
    fn project_role(&self, me: RoleId) -> EpSession;
}

impl ProjectRole for TSession {
    /// Total: every well-formed tree projects, for every role, and the
    /// result is exactly [`spec_project`]`(me, self)` — the same local tree
    /// on every call.
    fn project_role(&self, me: RoleId) -> (r: EpSession)
        ensures
            r == spec_project(me, *self),
        decreases self,
    {
        match self {
            TSession::TEnd(n) => EpSession::EpEnd(EpEnd { io: n.io, lbl: n.lbl, role: me }),
            TSession::TInteract(n) => {
                if n.role == me {
                    EpSession::EpSend(
                        EpSend {
                            io: n.io,
                            lbl: n.lbl,
                            role: me,
                            msg: n.msg,
                            cont: Box::new(n.cont.project_role(me)),
                        },
                    )
                } else {
                    EpSession::EpRecv(
                        EpRecv {
                            io: n.io,
                            lbl: n.lbl,
                            role: me,
                            msg: n.msg,
                            cont: Box::new(n.cont.project_role(me)),
                        },
                    )
                }
            },
            TSession::TChoice(n) => {
                let in_left = n.left.contains_role(me);
                let in_right = n.right.contains_role(me);
                if in_left && in_right {
                    EpSession::EpChoice(
                        EpChoice {
                            io: n.io,
                            lbl: n.lbl,
                            role: me,
                            left: Box::new(n.left.project_role(me)),
                            right: Box::new(n.right.project_role(me)),
                        },
                    )
                } else if in_left {
                    EpSession::EpChoice(
                        EpChoice {
                            io: n.io,
                            lbl: n.lbl,
                            role: me,
                            left: Box::new(n.left.project_role(me)),
                            right: Box::new(
                                EpSession::EpSkip(EpSkip { io: n.io, lbl: n.lbl, role: me }),
                            ),
                        },
                    )
                } else if in_right {
                    EpSession::EpChoice(
                        EpChoice {
                            io: n.io,
                            lbl: n.lbl,
                            role: me,
                            left: Box::new(
                                EpSession::EpSkip(EpSkip { io: n.io, lbl: n.lbl, role: me }),
                            ),
                            right: Box::new(n.right.project_role(me)),
                        },
                    )
                } else {
                    EpSession::EpSkip(EpSkip { io: n.io, lbl: n.lbl, role: me })
                }
            },
            TSession::TPar(n) => {
                let in_left = mentions_role(&n.left, me);
                let in_right = mentions_role(&n.right, me);
                if in_left && in_right {
                    EpSession::EpPar(
                        EpPar {
                            io: n.io,
                            lbl: n.lbl,
                            role: me,
                            left: Box::new(n.left.project_role(me)),
                            right: Box::new(n.right.project_role(me)),
                        },
                    )
                } else if in_left {
                    n.left.project_role(me)
                } else if in_right {
                    n.right.project_role(me)
                } else {
                    EpSession::EpSkip(EpSkip { io: n.io, lbl: n.lbl, role: me })
                }
            },
            TSession::TRec(n) => n.body.project_role(me),
        }
    }
}

/// Projects an interaction step given the already-decided role-equality flag:
/// a send of `msg` when `is_owner` holds, a receive otherwise, in both cases
/// followed by the projection of `cont` onto `me`.
pub fn project_interact(
    is_owner: bool,
    me: RoleId,
    io: Transport,
    lbl: Label,
    msg: Msg,
    cont: &TSession,
) -> (r: EpSession)
    ensures
        is_owner ==> r == (EpSession::EpSend(
            EpSend { io, lbl, role: me, msg, cont: Box::new(spec_project(me, *cont)) },
        )),
        !is_owner ==> r == (EpSession::EpRecv(
            EpRecv { io, lbl, role: me, msg, cont: Box::new(spec_project(me, *cont)) },
        )),
{
    if is_owner {
        EpSession::EpSend(EpSend { io, lbl, role: me, msg, cont: Box::new(cont.project_role(me)) })
    } else {
        EpSession::EpRecv(EpRecv { io, lbl, role: me, msg, cont: Box::new(cont.project_role(me)) })
    }
}

/// Projects one branch of a parallel composition given the already-decided
/// membership flag: the branch's projection when `present` holds, otherwise
/// a skip carrying the parallel node's label.
pub fn project_par_branch(
    present: bool,
    me: RoleId,
    parent_io: Transport,
    parent_lbl: Label,
    g: &TSession,
) -> (r: EpSession)
    ensures
        present ==> r == spec_project(me, *g),
        !present ==> r == (EpSession::EpSkip(
            EpSkip { io: parent_io, lbl: parent_lbl, role: me },
        )),
{
    if present {
        g.project_role(me)
    } else {
        EpSession::EpSkip(EpSkip { io: parent_io, lbl: parent_lbl, role: me })
    }
}

/// What [`ComposeProjectedParBranches::compose_projected_par_branches`]
/// returns.
pub open spec fn spec_compose_projected(
    io: Transport,
    lbl: Label,
    me: RoleId,
    left: EpSession,
    right: EpSession,
) -> EpSession {
    if left is EpSkip && right is EpSkip {
        EpSession::EpSkip(EpSkip { io, lbl, role: me })
    } else if left is EpSkip {
        right
    } else if right is EpSkip {
        left
    } else if left is EpEnd && right is EpEnd {
        left
    } else {
        EpSession::EpPar(EpPar { io, lbl, role: me, left: Box::new(left), right: Box::new(right) })
    }
}

/// The simplification that combines two already-projected parallel branches.
pub trait ComposeProjectedParBranches: Sized {
    /// Combines two projected branches under the parallel node's transport,
    /// label and observer.
    fn compose_projected_par_branches(io: Transport, lbl: Label, me: RoleId, left: Self, right: Self)
        -> Self;
}

impl ComposeProjectedParBranches for EpSession {
    /// The rules, in order:
    ///
    /// - both branches skips: one skip, keeping the parallel node's label;
    /// - one branch a skip: the other branch, verbatim;
    /// - both branches terminations: the first, by first-operand preference;
    /// - otherwise: a parallel run wrapping both.
    ///
    /// This is what keeps an uninvolved role's view of a parallel
    /// composition a clean skip or termination rather than a pair of empty
    /// branches; the lemma [`crate::laws::lemma_par_projection_composes`]
    /// shows that projecting a parallel node agrees with composing its
    /// branch projections this way.
    fn compose_projected_par_branches(
        io: Transport,
        lbl: Label,
        me: RoleId,
        left: EpSession,
        right: EpSession,
    ) -> (r: EpSession)
        ensures
            r == spec_compose_projected(io, lbl, me, left, right),
    {
        let left_skip = left.is_ep_skip();
        let right_skip = right.is_ep_skip();
        if left_skip && right_skip {
            EpSession::EpSkip(EpSkip { io, lbl, role: me })
        } else if left_skip {
            right
        } else if right_skip {
            left
        } else if left.is_ep_end() && right.is_ep_end() {
            left
        } else {
            EpSession::EpPar(
                EpPar { io, lbl, role: me, left: Box::new(left), right: Box::new(right) },
            )
        }
    }
}

} // verus!
