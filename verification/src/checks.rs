//! The verification entry points: the disjointness check for parallel
//! compositions and the label-uniqueness check for whole trees. Each either
//! succeeds, returning a value, or rejects the tree with a
//! [`ProtocolError`].

use vstd::prelude::*;
use crate::global::{TPar, TSession};
use crate::introspection::{spec_labels_of, spec_roles_of, LabelsOf, RolesOf};
use crate::types::ProtocolError;
use crate::utils::{spec_disjoint, spec_unique, Disjoint, UniqueList};

verus! {

/// The condition [`AssertDisjoint::assert_disjoint`] certifies: the role sequences of the
/// two branches are disjoint, checked in both directions so the condition is
/// order-independent even though the underlying primitive is one-sided.
pub open spec fn spec_par_branches_disjoint(left: TSession, right: TSession) -> bool {
    spec_disjoint(spec_roles_of(left), spec_roles_of(right)) && spec_disjoint(
        spec_roles_of(right),
        spec_roles_of(left),
    )
}

/// The disjointness check for parallel compositions.
pub trait AssertDisjoint: Sized {
    /// The nodes the check applies to.
    spec fn checkable(&self) -> bool;

    /// Checks that the two branches of this parallel node touch disjoint
    /// role sets, and on success returns the node with its `disjoint` flag
    /// set: the capability token no other code path of this library sets.
    fn assert_disjoint(self) -> Result<Self, ProtocolError>
        requires
            self.checkable(),
    ;
}

impl AssertDisjoint for TSession {
    /// The check applies to parallel nodes.
    open spec fn checkable(&self) -> bool {
        *self is TPar
    }

    /// A node whose flag is already set is returned unchanged, so
    /// re-verifying is a no-op. A shared role is rejected with
    /// [`ProtocolError::SharedRole`].
    fn assert_disjoint(self) -> (r: Result<TSession, ProtocolError>)
        ensures
            self matches TSession::TPar(p) ==> r == (if p.disjoint {
                Ok::<TSession, ProtocolError>(self)
            } else if spec_par_branches_disjoint(*p.left, *p.right) {
                Ok::<TSession, ProtocolError>(
                    TSession::TPar(
                        TPar { io: p.io, lbl: p.lbl, left: p.left, right: p.right, disjoint: true },
                    ),
                )
            } else {
                Err::<TSession, ProtocolError>(ProtocolError::SharedRole)
            }),
            r is Ok <==> (self matches TSession::TPar(p) && (p.disjoint
                || spec_par_branches_disjoint(*p.left, *p.right))),
    {
        match self {
            TSession::TPar(p) => {
                if p.disjoint {
                    Ok(TSession::TPar(p))
                } else {
                    let left_roles = p.left.roles_of();
                    let right_roles = p.right.roles_of();
                    if left_roles.disjoint(&right_roles) && right_roles.disjoint(&left_roles) {
                        Ok(
                            TSession::TPar(
                                TPar {
                                    io: p.io,
                                    lbl: p.lbl,
                                    left: p.left,
                                    right: p.right,
                                    disjoint: true,
                                },
                            ),
                        )
                    } else {
                        Err(ProtocolError::SharedRole)
                    }
                }
            },
            _ => {
                proof {
                    assert(false);
                }
                Err(ProtocolError::SharedRole)
            },
        }
    }
}

/// Checks that no label repeats anywhere in the tree's label sequence;
/// a repeated label is rejected with [`ProtocolError::DuplicateLabel`].
pub fn assert_unique_labels(g: &TSession) -> (r: Result<(), ProtocolError>)
    ensures
        r is Ok <==> spec_unique(spec_labels_of(*g)),
        r is Err ==> r == Err::<(), ProtocolError>(ProtocolError::DuplicateLabel),
{
    let labels = g.labels_of();
    if labels.unique_list() {
        Ok(())
    } else {
        Err(ProtocolError::DuplicateLabel)
    }
}

} // verus!
