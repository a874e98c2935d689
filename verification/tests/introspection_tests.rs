//! Tests for the introspection functions that extract label and role
//! sequences from a global protocol tree.

use besedarium::global::TSession;
use besedarium::introspection::{LabelsOf, RolesOf};
use besedarium::types::{Label, Msg, RoleId, Transport};

fn http() -> Transport {
    Transport(1)
}

fn tclient() -> RoleId {
    RoleId(1)
}

fn tserver() -> RoleId {
    RoleId(2)
}

fn l1() -> Label {
    Label::Named(1)
}

fn l2() -> Label {
    Label::Named(2)
}

fn l3() -> Label {
    Label::Named(3)
}

fn message() -> Msg {
    Msg(1)
}

fn response() -> Msg {
    Msg(2)
}

#[test]
fn test_tend_labels() {
    let end_with_label = TSession::tend(http(), l1());
    assert_eq!(end_with_label.labels_of(), vec![l1()]);
}

#[test]
fn test_tinteract_labels() {
    let interact_with_label =
        TSession::tinteract(http(), l1(), tclient(), message(), TSession::tend(http(), l2()));
    assert_eq!(interact_with_label.labels_of(), vec![l1(), l2()]);
}

#[test]
fn test_trec_labels() {
    let rec_with_label = TSession::trec(http(), l1(), TSession::tend(http(), l2()));
    assert_eq!(rec_with_label.labels_of(), vec![l1(), l2()]);
}

#[test]
fn test_tchoice_labels() {
    let choice_with_label = TSession::tchoice(
        http(),
        l1(),
        TSession::tinteract(http(), l2(), tclient(), message(), TSession::tend(http(), l3())),
        TSession::tend(http(), Label::EmptyLabel),
    );
    // Only the left branch's labels propagate through a choice node.
    assert_eq!(choice_with_label.labels_of(), vec![l1(), l2(), l3()]);
}

#[test]
fn test_tpar_labels() {
    let par_with_label = TSession::tpar(
        http(),
        l1(),
        TSession::tinteract(http(), l2(), tclient(), message(), TSession::tend(http(), l3())),
        TSession::tend(http(), Label::EmptyLabel),
    );
    // Only the left branch's labels propagate through a parallel node.
    assert_eq!(par_with_label.labels_of(), vec![l1(), l2(), l3()]);
}

#[test]
fn test_complex_protocol_labels() {
    let branch1 = TSession::tinteract(
        http(),
        l1(),
        tclient(),
        message(),
        TSession::tend(http(), Label::EmptyLabel),
    );
    let branch2 = TSession::trec(
        http(),
        l2(),
        TSession::tinteract(
            http(),
            l3(),
            tserver(),
            response(),
            TSession::tend(http(), Label::EmptyLabel),
        ),
    );
    let complex_protocol = TSession::tpar(
        http(),
        l1(),
        branch1,
        TSession::tchoice(
            http(),
            l2(),
            branch2,
            TSession::tinteract(
                http(),
                l3(),
                tclient(),
                message(),
                TSession::tend(http(), Label::EmptyLabel),
            ),
        ),
    );
    // The parallel node's own label, then the left branch's labels only.
    assert_eq!(complex_protocol.labels_of(), vec![l1(), l1(), Label::EmptyLabel]);
}

#[test]
fn test_tinteract_roles() {
    let interact_with_role = TSession::tinteract(
        http(),
        l1(),
        tclient(),
        message(),
        TSession::tend(http(), Label::EmptyLabel),
    );
    assert_eq!(interact_with_role.roles_of(), vec![tclient()]);
}

#[test]
fn test_complex_protocol_roles() {
    let protocol = TSession::tinteract(
        http(),
        l1(),
        tclient(),
        message(),
        TSession::tinteract(
            http(),
            l2(),
            tserver(),
            response(),
            TSession::tend(http(), Label::EmptyLabel),
        ),
    );
    assert_eq!(protocol.roles_of(), vec![tclient(), tserver()]);
}
