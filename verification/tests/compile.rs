//! Example protocols exercising all combinators together with the
//! disjointness machinery and projection.

use besedarium::checks::AssertDisjoint;
use besedarium::global::{GetProtocolLabel, ToTChoice, ToTPar, TSession};
use besedarium::local::{EpSession, GetLocalLabel, IsEpEndVariant, IsEpSkipVariant};
use besedarium::transforms::ProjectRole;
use besedarium::types::{Http, Label, Message, Mixed, Mqtt, Msg, Notify, Publish, Response, Role, RoleId, Subscribe, TBroker, TClient, TServer, TWorker, Transport};

fn http() -> Transport {
    Http.marker()
}

fn mqtt() -> Transport {
    Mqtt.marker()
}

fn mixed() -> Transport {
    Mixed.marker()
}

fn tclient() -> RoleId {
    TClient.id()
}

fn tserver() -> RoleId {
    TServer.id()
}

fn tbroker() -> RoleId {
    TBroker.id()
}

fn tworker() -> RoleId {
    TWorker.id()
}

fn message() -> Msg {
    Message.msg()
}

fn response() -> Msg {
    Response.msg()
}

fn publish() -> Msg {
    Publish.msg()
}

fn notify() -> Msg {
    Notify.msg()
}

fn subscribe() -> Msg {
    Subscribe.msg()
}

fn empty() -> Label {
    Label::EmptyLabel
}

// Client-server handshake (HTTP request/response).
fn http_handshake() -> TSession {
    TSession::tinteract(
        http(),
        empty(),
        tclient(),
        message(),
        TSession::tinteract(http(), empty(), tserver(), response(), TSession::tend(http(), empty())),
    )
}

// Publish/subscribe (MQTT).
fn mqtt_pubsub() -> TSession {
    TSession::tchoice(
        mqtt(),
        empty(),
        TSession::tinteract(mqtt(), empty(), tclient(), publish(), TSession::tend(mqtt(), empty())),
        TSession::tinteract(mqtt(), empty(), tclient(), subscribe(), TSession::tend(mqtt(), empty())),
    )
}

// Recursive/streaming protocol.
fn streaming() -> TSession {
    TSession::trec(
        http(),
        empty(),
        TSession::tinteract(http(), empty(), tclient(), message(), TSession::tend(http(), empty())),
    )
}

// Protocol with branching (login vs. register).
fn login_or_register() -> TSession {
    vec![
            TSession::tinteract(http(), empty(), tclient(), message(), TSession::tend(http(), empty())),
            TSession::tinteract(http(), empty(), tclient(), publish(), TSession::tend(http(), empty())),
        ].to_tchoice(http())
}

// Multi-party workflow: three parallel chains owned by disjoint roles.
fn workflow() -> TSession {
    vec![
            TSession::tinteract(
                http(),
                empty(),
                tclient(),
                message(),
                TSession::tinteract(http(), empty(), tserver(), response(), TSession::tend(http(), empty())),
            ),
            TSession::tinteract(http(), empty(), tbroker(), publish(), TSession::tend(http(), empty())),
            TSession::tinteract(http(), empty(), tworker(), notify(), TSession::tend(http(), empty())),
        ].to_tpar(http())
}

// Concurrent subsessions: two parallel downloads by the same client.
fn parallel_downloads() -> TSession {
    vec![
            TSession::tinteract(http(), empty(), tclient(), message(), TSession::tend(http(), empty())),
            TSession::tinteract(http(), empty(), tclient(), publish(), TSession::tend(http(), empty())),
        ].to_tpar(http())
}

// Protocol using the Mixed marker, with disjoint roles.
fn mixed_example() -> TSession {
    vec![
            TSession::tinteract(mixed(), empty(), tclient(), message(), TSession::tend(mixed(), empty())),
            TSession::tinteract(mixed(), empty(), tbroker(), publish(), TSession::tend(mixed(), empty())),
        ].to_tpar(mixed())
}

#[test]
fn client_server_handshake_type() {
    let handshake = http_handshake();
    assert!(!handshake.is_empty());
    assert_eq!(handshake.get_transport(), http());
}

#[test]
fn pubsub_type() {
    let pubsub = mqtt_pubsub();
    assert!(!pubsub.is_empty());
    assert_eq!(pubsub.get_transport(), mqtt());
}

#[test]
fn streaming_type() {
    let stream = streaming();
    assert!(!stream.is_empty());
    assert_eq!(stream.get_protocol_label(), empty());
}

#[test]
fn login_or_register_type() {
    let branching = login_or_register();
    assert!(!branching.is_empty());
    assert_eq!(branching.get_protocol_label(), empty());
}

#[test]
fn multi_party_workflow_type() {
    // The three chains touch pairwise disjoint role sets, so the
    // disjointness check certifies the top parallel node.
    assert!(workflow().assert_disjoint().is_ok());
}

#[test]
fn concurrent_subsessions_type() {
    // Both downloads are owned by the client, so the branches of the
    // parallel composition share a role and the check rejects it.
    assert!(parallel_downloads().assert_disjoint().is_err());
}

#[test]
fn mixed_marker_type() {
    assert!(mixed_example().assert_disjoint().is_ok());
}

#[test]
fn projection_static_check_alice() {
    let alice = RoleId(10);
    let bob = RoleId(11);
    let global = TSession::tinteract(
        http(),
        empty(),
        alice,
        message(),
        TSession::tinteract(http(), empty(), bob, response(), TSession::tend(http(), empty())),
    );
    let alice_local_expected = EpSession::ep_send(
        http(),
        empty(),
        alice,
        message(),
        EpSession::ep_recv(http(), empty(), alice, response(), EpSession::ep_end(http(), empty(), alice)),
    );
    assert_eq!(global.project_role(alice), alice_local_expected);
}
