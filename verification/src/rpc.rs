//! The node information that Cobweb nodes exchange over RPC, and how a node
//! settles on its identifier.

use vstd::prelude::*;
use crate::text;
use crate::text::lower_hex;

verus! {

/// The role of a node in the federation.
#[derive(Clone, Copy, PartialEq, Eq, Structural)]
pub enum NodeType {
    Source,
    Link,
}

/// Where a node stands in the exchange: requesting, accepted or rejected.
#[derive(Clone, Copy, PartialEq, Eq, Structural)]
pub enum Status {
    Req,
    Acc,
    Rej,
}

/// What a node tells another about itself.
#[derive(Clone)]
pub struct Info {
    pub uuid: String,
    pub node_type: NodeType,
    pub status: Status,
}

/// How a node type is displayed.
pub open spec fn node_type_text(t: NodeType) -> Seq<char> {
    match t {
        NodeType::Source => "source"@,
        NodeType::Link => "link"@,
    }
}

/// How a node type is debug-printed.
pub open spec fn node_type_debug_text(t: NodeType) -> Seq<char> {
    match t {
        NodeType::Source => "NodeType::Source"@,
        NodeType::Link => "NodeType::Link"@,
    }
}

/// How a status is displayed.
pub open spec fn status_text(s: Status) -> Seq<char> {
    match s {
        Status::Req => "REQUESTING"@,
        Status::Acc => "ACCEPTING"@,
        Status::Rej => "REJECTING"@,
    }
}

/// How a status is debug-printed.
pub open spec fn status_debug_text(s: Status) -> Seq<char> {
    match s {
        Status::Req => "Status::Req"@,
        Status::Acc => "Status::Acc"@,
        Status::Rej => "Status::Rej"@,
    }
}

/// How node information is displayed: the identifier, then the type and the
/// status on lines of their own.
pub open spec fn info_text(uuid: Seq<char>, t: NodeType, s: Status) -> Seq<char> {
    uuid + "\ntype="@ + node_type_text(t) + "\nstats="@ + status_text(s)
}

/// How node information is debug-printed.
pub open spec fn info_debug_text(uuid: Seq<char>, t: NodeType, s: Status) -> Seq<char> {
    "Info {\n uuid: "@ + uuid + "\n node_type="@ + node_type_text(t) + "\n status="@ + status_text(s)
        + "\n}"@
}

/// Whether 16 bytes carry the marks of a random (version 4, RFC 4122 variant)
/// identifier.
pub open spec fn is_random_uuid(b: Seq<u8>) -> bool {
    &&& b.len() == 16
    &&& b[6] / 16 == 4
    &&& b[8] / 64 == 2
}

/// Fresh random identifier bytes (`uuid::Uuid::new_v4`). The crate draws 128
/// random bits and then sets the version nibble to 4 and the variant bits to
/// `10`; the contract states only those marks, which hold of every outcome.
#[verifier::external_body]
fn random_uuid_bytes() -> (b: [u8; 16])
    ensures
        is_random_uuid(b@),
{
    uuid::Uuid::new_v4().into_bytes()
}

impl NodeType {
    /// The displayed form: `source` or `link`.
    pub fn fmt_display(&self) -> (s: String)
        ensures
            s@ == node_type_text(*self),
    {
        match self {
            NodeType::Source => String::from_str("source"),
            NodeType::Link => String::from_str("link"),
        }
    }

    /// The debug form: `NodeType::Source` or `NodeType::Link`.
    pub fn fmt_debug(&self) -> (s: String)
        ensures
            s@ == node_type_debug_text(*self),
    {
        match self {
            NodeType::Source => String::from_str("NodeType::Source"),
            NodeType::Link => String::from_str("NodeType::Link"),
        }
    }
}

impl Status {
    /// The displayed form: `REQUESTING`, `ACCEPTING` or `REJECTING`.
    pub fn fmt_display(&self) -> (s: String)
        ensures
            s@ == status_text(*self),
    {
        match self {
            Status::Req => String::from_str("REQUESTING"),
            Status::Acc => String::from_str("ACCEPTING"),
            Status::Rej => String::from_str("REJECTING"),
        }
    }

    /// The debug form: `Status::Req`, `Status::Acc` or `Status::Rej`.
    pub fn fmt_debug(&self) -> (s: String)
        ensures
            s@ == status_debug_text(*self),
    {
        match self {
            Status::Req => String::from_str("Status::Req"),
            Status::Acc => String::from_str("Status::Acc"),
            Status::Rej => String::from_str("Status::Rej"),
        }
    }
}

impl Info {
    /// The information a node sends when it asks to join: its identifier, its
    /// type, and the requesting status.
    pub fn new(type_arg: NodeType, uuid: String) -> (info: Info)
        ensures
            info.uuid@ == uuid@,
            info.node_type == type_arg,
            info.status == Status::Req,
    {
        Info { uuid, node_type: type_arg, status: Status::Req }
    }

    /// The answer to a request: the answering node's own identifier, the type
    /// it gives, and the accepting status. Nothing of the request is kept.
    pub fn eval(_info: Info, type_arg: NodeType, uuid: String) -> (info: Info)
        ensures
            info.uuid@ == uuid@,
            info.node_type == type_arg,
            info.status == Status::Acc,
    {
        Info { uuid, node_type: type_arg, status: Status::Acc }
    }

    /// The identifier text of identifier bytes: 32 lowercase hexadecimal
    /// characters (the crate's "simple" form).
    pub fn uuid_text(bytes: &[u8; 16]) -> (s: String)
        ensures
            s@ == lower_hex(bytes@),
            s@.len() == 32,
    {
        let mut s = String::new();
        text::push_lower_hex(&mut s, bytes.as_slice());
        proof {
            text::lemma_lower_hex_len(bytes@);
        }
        s
    }

    /// How a node settles on its identifier, given what its identifier file
    /// held (`None` where it could not be read). A stored identifier is kept as
    /// it is; otherwise a fresh random one is made, and returned a second time
    /// as the text to store.
    pub fn choose_uuid(stored: Option<String>) -> (r: (String, Option<String>))
        ensures
            stored matches Some(s) ==> r.0@ == s@ && r.1 is None,
            stored is None ==> {
                &&& r.1 matches Some(t) && t@ == r.0@
                &&& exists|b: Seq<u8>| is_random_uuid(b) && r.0@ == #[trigger] lower_hex(b)
            },
    {
        match stored {
            Some(s) => (s, None),
            None => {
                let bytes = random_uuid_bytes();
                let id = Info::uuid_text(&bytes);
                let copy = id.clone();
                (id, Some(copy))
            },
        }
    }

    /// The displayed form: the identifier, then `type=` and `stats=` lines.
    pub fn fmt_display(&self) -> (s: String)
        ensures
            s@ == info_text(self.uuid@, self.node_type, self.status),
    {
        let mut s = self.uuid.clone();
        s.append("\ntype=");
        s.append(self.node_type.fmt_display().as_str());
        s.append("\nstats=");
        s.append(self.status.fmt_display().as_str());
        s
    }

    /// The debug form, with the type and the status in their displayed forms.
    pub fn fmt_debug(&self) -> (s: String)
        ensures
            s@ == info_debug_text(self.uuid@, self.node_type, self.status),
    {
        let mut s = String::from_str("Info {\n uuid: ");
        s.append(self.uuid.as_str());
        s.append("\n node_type=");
        s.append(self.node_type.fmt_display().as_str());
        s.append("\n status=");
        s.append(self.status.fmt_display().as_str());
        s.append("\n}");
        s
    }
}

/// The RPC service of a node.
pub struct InfoServer;

impl InfoServer {
    /// Answers an information request: whatever was asked, the node accepts,
    /// as a link, under its own identifier.
    pub fn info(&self, info: Info, uuid: String) -> (answer: Info)
        ensures
            answer.uuid@ == uuid@,
            answer.node_type == NodeType::Link,
            answer.status == Status::Acc,
    {
        Info::eval(info, NodeType::Link, uuid)
    }
}

} // verus!
