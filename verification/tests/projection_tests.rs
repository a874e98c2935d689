//! Tests for projection: deriving endpoint (local) session trees from global
//! session trees.

use besedarium::global::TSession;
use besedarium::local::{EpSession, GetLocalLabel, IsEpEndVariant, IsEpSkipVariant};
use besedarium::transforms::{project_interact, project_par_branch, ProjectRole};
use besedarium::types::{Label, Msg, RoleId, Transport};

const HTTP: u64 = 1;

fn http() -> Transport {
    Transport(HTTP)
}

fn alice() -> RoleId {
    RoleId(1)
}

fn bob() -> RoleId {
    RoleId(2)
}

fn charlie() -> RoleId {
    RoleId(3)
}

fn l1() -> Label {
    Label::Named(1)
}

fn l2() -> Label {
    Label::Named(2)
}

fn l3() -> Label {
    Label::Named(3)
}

fn message() -> Msg {
    Msg(1)
}

fn response() -> Msg {
    Msg(2)
}

#[test]
fn test_projection_of_tend() {
    let global = TSession::tend(http(), l1());
    let alice_local = global.project_role(alice());
    assert_eq!(alice_local, EpSession::ep_end(http(), l1(), alice()));
}

#[test]
fn test_projection_of_tinteract_as_sender() {
    let global = TSession::tinteract(http(), l1(), alice(), message(), TSession::tend(http(), l2()));
    let alice_local = global.project_role(alice());
    assert_eq!(
        alice_local,
        EpSession::ep_send(http(), l1(), alice(), message(), EpSession::ep_end(http(), l2(), alice()))
    );
}

#[test]
fn test_projection_of_tinteract_as_receiver() {
    let global = TSession::tinteract(http(), l1(), alice(), message(), TSession::tend(http(), l2()));
    let bob_local = global.project_role(bob());
    assert_eq!(
        bob_local,
        EpSession::ep_recv(http(), l1(), bob(), message(), EpSession::ep_end(http(), l2(), bob()))
    );
}

#[test]
fn test_projection_of_complex_protocol() {
    // Alice sends Message, then Bob sends Response.
    let global = TSession::tinteract(
        http(),
        l1(),
        alice(),
        message(),
        TSession::tinteract(http(), l2(), bob(), response(), TSession::tend(http(), l3())),
    );

    let alice_local = global.project_role(alice());
    assert_eq!(
        alice_local,
        EpSession::ep_send(
            http(),
            l1(),
            alice(),
            message(),
            EpSession::ep_recv(http(), l2(), alice(), response(), EpSession::ep_end(http(), l3(), alice()))
        )
    );

    let bob_local = global.project_role(bob());
    assert_eq!(
        bob_local,
        EpSession::ep_recv(
            http(),
            l1(),
            bob(),
            message(),
            EpSession::ep_send(http(), l2(), bob(), response(), EpSession::ep_end(http(), l3(), bob()))
        )
    );
}

#[test]
fn test_projection_of_uninvolved_role() {
    // Interactions only between Alice and Bob; Charlie receives both
    // messages, not being the sender of either.
    let global = TSession::tinteract(
        http(),
        l1(),
        alice(),
        message(),
        TSession::tinteract(http(), l2(), bob(), response(), TSession::tend(http(), l3())),
    );
    let charlie_local = global.project_role(charlie());
    assert_eq!(
        charlie_local,
        EpSession::ep_recv(
            http(),
            l1(),
            charlie(),
            message(),
            EpSession::ep_recv(http(), l2(), charlie(), response(), EpSession::ep_end(http(), l3(), charlie()))
        )
    );
}

#[test]
fn test_project_interact_dispatch() {
    // When the observer owns the interaction (flag = true).
    let sender_out = project_interact(
        true,
        alice(),
        http(),
        Label::EmptyLabel,
        message(),
        &TSession::tend(http(), l1()),
    );
    assert_eq!(
        sender_out,
        EpSession::ep_send(
            http(),
            Label::EmptyLabel,
            alice(),
            message(),
            EpSession::ep_end(http(), l1(), alice())
        )
    );

    // When the observer does not own it (flag = false).
    let receiver_out = project_interact(
        false,
        bob(),
        http(),
        Label::EmptyLabel,
        message(),
        &TSession::tend(http(), l1()),
    );
    assert_eq!(
        receiver_out,
        EpSession::ep_recv(
            http(),
            Label::EmptyLabel,
            bob(),
            message(),
            EpSession::ep_end(http(), l1(), bob())
        )
    );
}

#[test]
fn test_is_ep_skip_variant() {
    assert!(EpSession::ep_skip(http(), Label::EmptyLabel, alice()).is_ep_skip());
    assert!(!EpSession::ep_end(http(), Label::EmptyLabel, alice()).is_ep_skip());
    assert!(!EpSession::ep_send(
        http(),
        Label::EmptyLabel,
        alice(),
        message(),
        EpSession::ep_end(http(), Label::EmptyLabel, alice())
    )
    .is_ep_skip());
}

#[test]
fn test_is_ep_end_variant() {
    assert!(EpSession::ep_end(http(), Label::EmptyLabel, alice()).is_ep_end());
    assert!(!EpSession::ep_skip(http(), Label::EmptyLabel, alice()).is_ep_end());
    assert!(!EpSession::ep_send(
        http(),
        Label::EmptyLabel,
        alice(),
        message(),
        EpSession::ep_end(http(), Label::EmptyLabel, alice())
    )
    .is_ep_end());
}

#[test]
fn test_project_par_branch() {
    // The observer is present in the branch (flag = true): project it.
    let role_present = project_par_branch(
        true,
        alice(),
        http(),
        Label::EmptyLabel,
        &TSession::tinteract(http(), l1(), alice(), message(), TSession::tend(http(), l2())),
    );
    assert_eq!(
        role_present,
        EpSession::ep_send(http(), l1(), alice(), message(), EpSession::ep_end(http(), l2(), alice()))
    );

    // The observer is absent (flag = false): a skip with the parent's label.
    let role_not_present = project_par_branch(
        false,
        alice(),
        http(),
        Label::EmptyLabel,
        &TSession::tinteract(http(), l1(), bob(), message(), TSession::tend(http(), l2())),
    );
    assert_eq!(role_not_present, EpSession::ep_skip(http(), Label::EmptyLabel, alice()));
}
