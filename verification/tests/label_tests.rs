//! Tests for label behaviour under sequential composition of global trees.

use besedarium::global::{GetProtocolLabel, TSession};
use besedarium::types::{Label, Msg, RoleId, Transport};

fn http() -> Transport {
    Transport(1)
}

fn tclient() -> RoleId {
    RoleId(1)
}

fn tserver() -> RoleId {
    RoleId(2)
}

fn l1() -> Label {
    Label::Named(1)
}

fn l2() -> Label {
    Label::Named(2)
}

fn l3() -> Label {
    Label::Named(3)
}

fn message() -> Msg {
    Msg(1)
}

fn response() -> Msg {
    Msg(2)
}

#[test]
fn test_nested_composition_label_preservation() {
    // A deeply nested protocol with a different label at each level.
    let inner_protocol = TSession::tinteract(
        http(),
        l1(),
        tclient(),
        message(),
        TSession::tend(http(), Label::EmptyLabel),
    );
    let middle_protocol = TSession::trec(http(), l2(), inner_protocol);
    let outer_protocol = TSession::tchoice(
        http(),
        l3(),
        middle_protocol,
        TSession::tend(http(), Label::EmptyLabel),
    );
    let continuation = TSession::tinteract(
        http(),
        Label::EmptyLabel,
        tserver(),
        response(),
        TSession::tend(http(), Label::EmptyLabel),
    );

    let composed = outer_protocol.compose(&continuation);

    // The outermost label survives composition.
    assert_eq!(composed.get_protocol_label(), l3());
}

#[test]
fn test_mixed_combinator_interactions() {
    // A protocol mixing parallel composition and choice.
    let left_branch = TSession::tinteract(
        http(),
        l1(),
        tclient(),
        message(),
        TSession::tend(http(), Label::EmptyLabel),
    );
    let right_branch = TSession::tchoice(
        http(),
        l2(),
        TSession::tinteract(
            http(),
            Label::EmptyLabel,
            tserver(),
            response(),
            TSession::tend(http(), Label::EmptyLabel),
        ),
        TSession::tend(http(), Label::EmptyLabel),
    );
    let mixed_protocol = TSession::tpar(http(), l3(), left_branch, right_branch);
    let continuation = TSession::trec(http(), Label::EmptyLabel, TSession::tend(http(), Label::EmptyLabel));

    let composed = mixed_protocol.compose(&continuation);

    assert_eq!(composed.get_protocol_label(), l3());
}

#[test]
fn test_complex_protocol_structure() {
    // A complex protocol with multiple branches and nested structures.
    let branch1 = TSession::tinteract(
        http(),
        l1(),
        tclient(),
        message(),
        TSession::tend(http(), Label::EmptyLabel),
    );
    let branch2 = TSession::trec(
        http(),
        l2(),
        TSession::tinteract(
            http(),
            Label::EmptyLabel,
            tserver(),
            response(),
            TSession::tend(http(), Label::EmptyLabel),
        ),
    );
    let complex_protocol = TSession::tpar(
        http(),
        l3(),
        branch1,
        TSession::tchoice(
            http(),
            l2(),
            branch2,
            TSession::tinteract(
                http(),
                l1(),
                tclient(),
                message(),
                TSession::tend(http(), Label::EmptyLabel),
            ),
        ),
    );
    let continuation = TSession::tinteract(
        http(),
        Label::EmptyLabel,
        tserver(),
        response(),
        TSession::tend(http(), Label::EmptyLabel),
    );

    let composed = complex_protocol.compose(&continuation);

    assert_eq!(composed.get_protocol_label(), l3());
}

#[test]
fn test_tend_label_in_composition() {
    // Composing a termination node with another session replaces the
    // termination node with that session, label and all.
    let end1 = TSession::tend(http(), l1());
    let interact1 = TSession::tinteract(
        http(),
        l2(),
        tclient(),
        message(),
        TSession::tend(http(), Label::EmptyLabel),
    );

    let composed = end1.compose(&interact1);

    assert_eq!(composed, interact1);
}
