//! The plain value types that protocol trees are built from — participant
//! identifiers, message tags, transport markers, node labels — together with
//! the stock participants, messages and transport families that the examples
//! and tests use, and the errors the static checks can report.

use vstd::prelude::*;

verus! {

/// An opaque participant identifier. Two identifiers denote the same
/// participant exactly when they are equal; equality of identifiers is
/// total, reflexive and symmetric.
#[derive(Clone, Copy, Debug, Hash, PartialEq, Eq, Structural)]
pub struct RoleId(pub u64);

/// An opaque message tag carried by an interaction node.
#[derive(Clone, Copy, Debug, Hash, PartialEq, Eq, Structural)]
pub struct Msg(pub u64);

/// An opaque transport marker distinguishing unrelated protocol families
/// (one tag per family). Composition across different markers is not
/// well-formed; see [`crate::global::uniform_transport`].
#[derive(Clone, Copy, Debug, Hash, PartialEq, Eq, Structural)]
pub struct Transport(pub u64);

/// A traceability tag attached to every protocol node. Labels are not
/// required to be unique unless the uniqueness check is explicitly run.
#[derive(Clone, Copy, Debug, Hash, PartialEq, Eq, Structural)]
pub enum Label {
    /// Stands for "no meaningful label"; the n-ary builders use it.
    EmptyLabel,
    /// A named label, identified by its tag.
    Named(u64),
}

/// What a static check can reject: two parallel branches that share a role,
/// or a label that repeats somewhere in the tree. (The third failure the
/// checks' callers can run into, a missing role-equality definition, cannot
/// arise here: equality of [`RoleId`] values is total.)
#[derive(Clone, Copy, Debug, PartialEq, Eq, Structural)]
pub enum ProtocolError {
    /// The two branches of a parallel composition share a participant role.
    SharedRole,
    /// The same label occurs at two different nodes of the tree.
    DuplicateLabel,
}

/// A protocol participant. Implement this for each participant of a
/// protocol; its identifier is what interaction nodes store and what the
/// analyses compare.
pub trait Role {
    /// The identifier that stands for this participant in protocol trees.
    fn id(&self) -> RoleId;
}

/// A client participant, for protocols and tests.
pub struct TClient;

/// A server participant, for protocols and tests.
pub struct TServer;

/// A broker participant, for protocols and tests.
pub struct TBroker;

/// A worker participant, for protocols and tests.
pub struct TWorker;

/// A placeholder participant that no interaction names.
pub struct Void;

impl Role for TClient {
    fn id(&self) -> (r: RoleId)
        ensures
            r == (RoleId(1)),
    {
        RoleId(1)
    }
}

impl Role for TServer {
    fn id(&self) -> (r: RoleId)
        ensures
            r == (RoleId(2)),
    {
        RoleId(2)
    }
}

impl Role for TBroker {
    fn id(&self) -> (r: RoleId)
        ensures
            r == (RoleId(3)),
    {
        RoleId(3)
    }
}

impl Role for TWorker {
    fn id(&self) -> (r: RoleId)
        ensures
            r == (RoleId(4)),
    {
        RoleId(4)
    }
}

impl Role for Void {
    fn id(&self) -> (r: RoleId)
        ensures
            r == (RoleId(0)),
    {
        RoleId(0)
    }
}

/// A generic protocol message, for protocols and tests.
pub struct Message;

/// A generic protocol response, for protocols and tests.
pub struct Response;

/// A publish event, as in publish/subscribe protocols.
pub struct Publish;

/// A notification event, for protocols and tests.
pub struct Notify;

/// A subscribe event, as in publish/subscribe protocols.
pub struct Subscribe;

impl Message {
    /// The tag that stands for this message in protocol trees.
    pub fn msg(&self) -> (r: Msg)
        ensures
            r == (Msg(1)),
    {
        Msg(1)
    }
}

impl Response {
    /// The tag that stands for this message in protocol trees.
    pub fn msg(&self) -> (r: Msg)
        ensures
            r == (Msg(2)),
    {
        Msg(2)
    }
}

impl Publish {
    /// The tag that stands for this message in protocol trees.
    pub fn msg(&self) -> (r: Msg)
        ensures
            r == (Msg(3)),
    {
        Msg(3)
    }
}

impl Notify {
    /// The tag that stands for this message in protocol trees.
    pub fn msg(&self) -> (r: Msg)
        ensures
            r == (Msg(4)),
    {
        Msg(4)
    }
}

impl Subscribe {
    /// The tag that stands for this message in protocol trees.
    pub fn msg(&self) -> (r: Msg)
        ensures
            r == (Msg(5)),
    {
        Msg(5)
    }
}

/// The HTTP protocol family, for protocols and tests.
pub struct Http;

/// A database protocol family, for protocols and tests.
pub struct Db;

/// The MQTT protocol family, for protocols and tests.
pub struct Mqtt;

/// A cache protocol family, for protocols and tests.
pub struct Cache;

/// A mixed, multi-protocol family, for protocols and tests.
pub struct Mixed;

impl Http {
    /// The marker that stands for this protocol family.
    pub fn marker(&self) -> (r: Transport)
        ensures
            r == (Transport(1)),
    {
        Transport(1)
    }
}

impl Db {
    /// The marker that stands for this protocol family.
    pub fn marker(&self) -> (r: Transport)
        ensures
            r == (Transport(2)),
    {
        Transport(2)
    }
}

impl Mqtt {
    /// The marker that stands for this protocol family.
    pub fn marker(&self) -> (r: Transport)
        ensures
            r == (Transport(3)),
    {
        Transport(3)
    }
}

impl Cache {
    /// The marker that stands for this protocol family.
    pub fn marker(&self) -> (r: Transport)
        ensures
            r == (Transport(4)),
    {
        Transport(4)
    }
}

impl Mixed {
    /// The marker that stands for this protocol family.
    pub fn marker(&self) -> (r: Transport)
        ensures
            r == (Transport(5)),
    {
        Transport(5)
    }
}

} // verus!
