//! The laws this library guarantees, each stated over the specification
//! functions that the executable functions' contracts are written in and
//! proved once and for all.

use vstd::prelude::*;
use crate::global::{TChoice, TEnd, TInteract, TPar, TSession};
use crate::local::{uniform_local_role, uniform_local_transport, EpEnd, EpRecv, EpSend, EpSession, EpSkip, EpPar, EpChoice};
use crate::transforms::{
    spec_compose_projected, spec_contains_role, spec_mentions_role, spec_project,
};
use crate::types::{Label, Msg, RoleId, Transport};
use crate::utils::{
    lemma_disjoint_characterisation, lemma_unique_characterisation, spec_disjoint, spec_unique,
};

verus! {

/// Sender/receiver duality: projecting an interaction onto its owner yields
/// a send of the message over the projected continuation, and projecting it
/// onto any other role yields the matching receive; both keep the
/// interaction's label.
pub proof fn lemma_projection_duality(
    io: Transport,
    lbl: Label,
    owner: RoleId,
    me: RoleId,
    msg: Msg,
    cont: TSession,
)
    ensures
        me == owner ==> spec_project(
            me,
            (TSession::TInteract(TInteract { io, lbl, role: owner, msg, cont: Box::new(cont) })),
        ) == (EpSession::EpSend(
            EpSend { io, lbl, role: me, msg, cont: Box::new(spec_project(me, cont)) },
        )),
        me != owner ==> spec_project(
            me,
            (TSession::TInteract(TInteract { io, lbl, role: owner, msg, cont: Box::new(cont) })),
        ) == (EpSession::EpRecv(
            EpRecv { io, lbl, role: me, msg, cont: Box::new(spec_project(me, cont)) },
        )),
{
}

/// A termination node projects to a termination node that keeps the global
/// node's label and records the observer, for every role.
pub proof fn lemma_end_projects_to_end(io: Transport, lbl: Label, me: RoleId)
    ensures
        spec_project(me, (TSession::TEnd(TEnd { io, lbl }))) == (EpSession::EpEnd(
            EpEnd { io, lbl, role: me },
        )),
{
}

/// Disjointness is symmetric: no element of `a` occurs in `b` exactly when
/// no element of `b` occurs in `a`, although the recursive definition walks
/// only its first argument.
pub proof fn lemma_disjoint_symmetric<A>(a: Seq<A>, b: Seq<A>)
    ensures
        spec_disjoint(a, b) == spec_disjoint(b, a),
{
    lemma_disjoint_characterisation(a, b);
    lemma_disjoint_characterisation(b, a);
    if spec_disjoint(a, b) {
        assert forall|j: int| 0 <= j < b.len() implies !a.contains(b[j]) by {
            if a.contains(b[j]) {
                let i = choose|i: int| 0 <= i < a.len() && a[i] == b[j];
                assert(b.contains(a[i])) by {
                    assert(b[j] == a[i]);
                }
            }
        }
    }
    if spec_disjoint(b, a) {
        assert forall|i: int| 0 <= i < a.len() implies !b.contains(a[i]) by {
            if b.contains(a[i]) {
                let j = choose|j: int| 0 <= j < b.len() && b[j] == a[i];
                assert(a.contains(b[j])) by {
                    assert(a[i] == b[j]);
                }
            }
        }
    }
}

/// Uniqueness is monotonic under removal: dropping the element at any
/// position of a unique sequence leaves it unique.
pub proof fn lemma_unique_remove<A>(s: Seq<A>, i: int)
    requires
        spec_unique(s),
        0 <= i < s.len(),
    ensures
        spec_unique(s.remove(i)),
{
    let t = s.remove(i);
    lemma_unique_characterisation(s);
    lemma_unique_characterisation(t);
    assert forall|p: int, q: int| 0 <= p < q < t.len() implies t[p] != t[q] by {
        let sp: int = if p < i {
            p
        } else {
            p + 1
        };
        let sq: int = if q < i {
            q
        } else {
            q + 1
        };
        assert(t[p] == s[sp]);
        assert(t[q] == s[sq]);
    }
}

/// Prepending a duplicate of an element that already occurs in the sequence
/// breaks uniqueness.
pub proof fn lemma_unique_prepend_duplicate<A>(s: Seq<A>, x: A)
    requires
        s.contains(x),
    ensures
        !spec_unique(seq![x] + s),
{
    let u = seq![x] + s;
    assert(u.len() == s.len() + 1);
    assert(u[0] == x);
    assert(u.drop_first() =~= s);
}

/// Choice label propagation: a choice projects to an offer carrying the
/// choice's own label whenever the observer is present in at least one
/// branch, with the absent side standing in as a skip under that same label;
/// and collapses to a skip under that label when the observer is present in
/// neither branch. Presence here is the over-approximated membership
/// [`spec_contains_role`].
pub proof fn lemma_choice_projection_cases(
    io: Transport,
    lbl: Label,
    me: RoleId,
    left: TSession,
    right: TSession,
)
    ensures
        spec_contains_role(left, me) && spec_contains_role(right, me) ==> spec_project(
            me,
            (TSession::TChoice(
                TChoice { io, lbl, left: Box::new(left), right: Box::new(right) },
            )),
        ) == (EpSession::EpChoice(
            EpChoice {
                io,
                lbl,
                role: me,
                left: Box::new(spec_project(me, left)),
                right: Box::new(spec_project(me, right)),
            },
        )),
        spec_contains_role(left, me) && !spec_contains_role(right, me) ==> spec_project(
            me,
            (TSession::TChoice(
                TChoice { io, lbl, left: Box::new(left), right: Box::new(right) },
            )),
        ) == (EpSession::EpChoice(
            EpChoice {
                io,
                lbl,
                role: me,
                left: Box::new(spec_project(me, left)),
                right: Box::new(EpSession::EpSkip(EpSkip { io, lbl, role: me })),
            },
        )),
        !spec_contains_role(left, me) && spec_contains_role(right, me) ==> spec_project(
            me,
            (TSession::TChoice(
                TChoice { io, lbl, left: Box::new(left), right: Box::new(right) },
            )),
        ) == (EpSession::EpChoice(
            EpChoice {
                io,
                lbl,
                role: me,
                left: Box::new(EpSession::EpSkip(EpSkip { io, lbl, role: me })),
                right: Box::new(spec_project(me, right)),
            },
        )),
        !spec_contains_role(left, me) && !spec_contains_role(right, me) ==> spec_project(
            me,
            (TSession::TChoice(
                TChoice { io, lbl, left: Box::new(left), right: Box::new(right) },
            )),
        ) == (EpSession::EpSkip(EpSkip { io, lbl, role: me })),
{
}

/// Parallel projection: a branch that never mentions the observer projects
/// away, and the other branch's projection is returned verbatim, the
/// parallel node's own label dropped; when neither branch mentions the
/// observer the whole node collapses to a skip that carries the parallel
/// node's label; when both do, the result is a parallel run of both
/// projections under the parallel node's label. Mention is the exact
/// membership [`spec_mentions_role`].
pub proof fn lemma_par_projection_cases(
    io: Transport,
    lbl: Label,
    me: RoleId,
    left: TSession,
    right: TSession,
    disjoint: bool,
)
    ensures
        spec_mentions_role(left, me) && !spec_mentions_role(right, me) ==> spec_project(
            me,
            (TSession::TPar(
                TPar { io, lbl, left: Box::new(left), right: Box::new(right), disjoint },
            )),
        ) == spec_project(me, left),
        !spec_mentions_role(left, me) && spec_mentions_role(right, me) ==> spec_project(
            me,
            (TSession::TPar(
                TPar { io, lbl, left: Box::new(left), right: Box::new(right), disjoint },
            )),
        ) == spec_project(me, right),
        !spec_mentions_role(left, me) && !spec_mentions_role(right, me) ==> spec_project(
            me,
            (TSession::TPar(
                TPar { io, lbl, left: Box::new(left), right: Box::new(right), disjoint },
            )),
        ) == (EpSession::EpSkip(EpSkip { io, lbl, role: me })),
        spec_mentions_role(left, me) && spec_mentions_role(right, me) ==> spec_project(
            me,
            (TSession::TPar(
                TPar { io, lbl, left: Box::new(left), right: Box::new(right), disjoint },
            )),
        ) == (EpSession::EpPar(
            EpPar {
                io,
                lbl,
                role: me,
                left: Box::new(spec_project(me, left)),
                right: Box::new(spec_project(me, right)),
            },
        )),
{
}

/// A role an interaction node names somewhere is also present under the
/// over-approximated membership.
pub proof fn lemma_mentions_implies_contains(me: RoleId, g: TSession)
    ensures
        spec_mentions_role(g, me) ==> spec_contains_role(g, me),
    decreases g,
{
    match g {
        TSession::TEnd(_) => {},
        TSession::TInteract(_) => {},
        TSession::TChoice(n) => {
            lemma_mentions_implies_contains(me, *n.left);
            lemma_mentions_implies_contains(me, *n.right);
        },
        TSession::TPar(n) => {
            lemma_mentions_implies_contains(me, *n.left);
            lemma_mentions_implies_contains(me, *n.right);
        },
        TSession::TRec(n) => {
            lemma_mentions_implies_contains(me, *n.body);
        },
    }
}

/// A tree that mentions the observer projects to real work: never to a bare
/// skip and never to a bare termination node.
pub proof fn lemma_mentions_projection_active(me: RoleId, g: TSession)
    ensures
        spec_mentions_role(g, me) ==> !(spec_project(me, g) is EpSkip) && !(spec_project(me, g)
            is EpEnd),
    decreases g,
{
    match g {
        TSession::TEnd(_) => {},
        TSession::TInteract(_) => {},
        TSession::TChoice(n) => {
            lemma_mentions_implies_contains(me, *n.left);
            lemma_mentions_implies_contains(me, *n.right);
        },
        TSession::TPar(n) => {
            lemma_mentions_projection_active(me, *n.left);
            lemma_mentions_projection_active(me, *n.right);
        },
        TSession::TRec(n) => {
            lemma_mentions_projection_active(me, *n.body);
        },
    }
}

/// Projecting a parallel node agrees with projecting each branch on its own
/// — a skip under the parallel node's label standing in for a branch that
/// does not mention the observer — and then combining the two local trees
/// with the simplification of
/// [`crate::transforms::ComposeProjectedParBranches`]. In particular the
/// combination never builds a parallel run of two skips.
pub proof fn lemma_par_projection_composes(
    io: Transport,
    lbl: Label,
    me: RoleId,
    left: TSession,
    right: TSession,
    disjoint: bool,
)
    ensures
        spec_project(
            me,
            (TSession::TPar(
                TPar { io, lbl, left: Box::new(left), right: Box::new(right), disjoint },
            )),
        ) == spec_compose_projected(
            io,
            lbl,
            me,
            if spec_mentions_role(left, me) {
                spec_project(me, left)
            } else {
                (EpSession::EpSkip(EpSkip { io, lbl, role: me }))
            },
            if spec_mentions_role(right, me) {
                spec_project(me, right)
            } else {
                (EpSession::EpSkip(EpSkip { io, lbl, role: me }))
            },
        ),
{
    lemma_mentions_projection_active(me, left);
    lemma_mentions_projection_active(me, right);
}

/// Projection returns the same observer's view at every node: every node of
/// the local tree carries the projected role.
pub proof fn lemma_projection_uniform_role(me: RoleId, g: TSession)
    ensures
        uniform_local_role(spec_project(me, g), me),
    decreases g,
{
    match g {
        TSession::TEnd(_) => {},
        TSession::TInteract(n) => {
            lemma_projection_uniform_role(me, *n.cont);
        },
        TSession::TChoice(n) => {
            lemma_projection_uniform_role(me, *n.left);
            lemma_projection_uniform_role(me, *n.right);
            assert(uniform_local_role(
                (EpSession::EpSkip(EpSkip { io: n.io, lbl: n.lbl, role: me })),
                me,
            ));
        },
        TSession::TPar(n) => {
            lemma_projection_uniform_role(me, *n.left);
            lemma_projection_uniform_role(me, *n.right);
        },
        TSession::TRec(n) => {
            lemma_projection_uniform_role(me, *n.body);
        },
    }
}

/// Projection stays within one protocol family: a tree whose nodes all carry
/// the transport marker `io` projects to a local tree whose nodes all carry
/// `io`.
pub proof fn lemma_projection_preserves_transport(me: RoleId, g: TSession, io: Transport)
    requires
        crate::global::uniform_transport(g, io),
    ensures
        uniform_local_transport(spec_project(me, g), io),
    decreases g,
{
    match g {
        TSession::TEnd(_) => {},
        TSession::TInteract(n) => {
            lemma_projection_preserves_transport(me, *n.cont, io);
        },
        TSession::TChoice(n) => {
            lemma_projection_preserves_transport(me, *n.left, io);
            lemma_projection_preserves_transport(me, *n.right, io);
            assert(uniform_local_transport(
                (EpSession::EpSkip(EpSkip { io: n.io, lbl: n.lbl, role: me })),
                io,
            ));
        },
        TSession::TPar(n) => {
            lemma_projection_preserves_transport(me, *n.left, io);
            lemma_projection_preserves_transport(me, *n.right, io);
        },
        TSession::TRec(n) => {
            lemma_projection_preserves_transport(me, *n.body, io);
        },
    }
}

} // verus!
