//! Extraction of the role and label sequences of a global protocol tree.
//!
//! Both traversals are preorder and deliberately one-sided: a choice or
//! parallel node contributes its own label (for labels) plus its *left*
//! branch's sub-collection only, a one-sided fold rather than a union of the
//! branches. A caller that needs each branch's collection queries the
//! branches themselves, as the disjointness check does for the two sides of
//! a parallel node.

use vstd::prelude::*;
use crate::global::TSession;
use crate::types::{Label, RoleId};

verus! {

/// The ordered sequence of roles named by the interaction nodes of `g`:
/// preorder, continuation after head; choice and parallel nodes contribute
/// their left branch only; recursion contributes its body; termination
/// contributes nothing.
pub open spec fn spec_roles_of(g: TSession) -> Seq<RoleId>
    decreases g,
{
    match g {
        TSession::TEnd(_) => Seq::empty(),
        TSession::TInteract(n) => seq![n.role] + spec_roles_of(*n.cont),
        TSession::TChoice(n) => spec_roles_of(*n.left),
        TSession::TPar(n) => spec_roles_of(*n.left),
        TSession::TRec(n) => spec_roles_of(*n.body),
    }
}

/// The ordered sequence of labels of the nodes of `g`: preorder, the node's
/// own label first; choice and parallel nodes contribute their own label
/// plus their left branch's labels only; recursion contributes its own label
/// plus its body's; termination contributes its label as a singleton.
pub open spec fn spec_labels_of(g: TSession) -> Seq<Label>
    decreases g,
{
    match g {
        TSession::TEnd(n) => seq![n.lbl],
        TSession::TInteract(n) => seq![n.lbl] + spec_labels_of(*n.cont),
        TSession::TChoice(n) => seq![n.lbl] + spec_labels_of(*n.left),
        TSession::TPar(n) => seq![n.lbl] + spec_labels_of(*n.left),
        TSession::TRec(n) => seq![n.lbl] + spec_labels_of(*n.body),
    }
}

/// Extraction of the roles a global protocol tree names.
pub trait RolesOf {
    /// The roles of this tree, in traversal order, duplicates kept.
    fn roles_of(&self) -> Vec<RoleId>;
}

/// Extraction of the labels a global protocol tree carries.
pub trait LabelsOf {
    /// The labels of this tree, in traversal order, duplicates kept.
    fn labels_of(&self) -> Vec<Label>;
}

impl RolesOf for TSession {
    fn roles_of(&self) -> (r: Vec<RoleId>)
        ensures
            r@ == spec_roles_of(*self),
        decreases self,
    {
        match self {
            TSession::TEnd(_) => Vec::new(),
            TSession::TInteract(n) => {
                let mut v: Vec<RoleId> = Vec::new();
                v.push(n.role);
                let mut rest = n.cont.roles_of();
                v.append(&mut rest);
                proof {
                    assert(v@ =~= spec_roles_of(*self));
                }
                v
            },
            TSession::TChoice(n) => n.left.roles_of(),
            TSession::TPar(n) => n.left.roles_of(),
            TSession::TRec(n) => n.body.roles_of(),
        }
    }
}

impl LabelsOf for TSession {
    fn labels_of(&self) -> (r: Vec<Label>)
        ensures
            r@ == spec_labels_of(*self),
        decreases self,
    {
        match self {
            TSession::TEnd(n) => {
                let mut v: Vec<Label> = Vec::new();
                v.push(n.lbl);
                proof {
                    assert(v@ =~= spec_labels_of(*self));
                }
                v
            },
            TSession::TInteract(n) => {
                let mut v: Vec<Label> = Vec::new();
                v.push(n.lbl);
                let mut rest = n.cont.labels_of();
                v.append(&mut rest);
                proof {
                    assert(v@ =~= spec_labels_of(*self));
                }
                v
            },
            TSession::TChoice(n) => {
                let mut v: Vec<Label> = Vec::new();
                v.push(n.lbl);
                let mut rest = n.left.labels_of();
                v.append(&mut rest);
                proof {
                    assert(v@ =~= spec_labels_of(*self));
                }
                v
            },
            TSession::TPar(n) => {
                let mut v: Vec<Label> = Vec::new();
                v.push(n.lbl);
                let mut rest = n.left.labels_of();
                v.append(&mut rest);
                proof {
                    assert(v@ =~= spec_labels_of(*self));
                }
                v
            },
            TSession::TRec(n) => {
                let mut v: Vec<Label> = Vec::new();
                v.push(n.lbl);
                let mut rest = n.body.labels_of();
                v.append(&mut rest);
                proof {
                    assert(v@ =~= spec_labels_of(*self));
                }
                v
            },
        }
    }
}

} // verus!
