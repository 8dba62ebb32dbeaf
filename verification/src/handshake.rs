//! The handshake command: what a node says of itself and of its chain.

use crate::msg::{Msg, MsgData, MsgType, MONERO_GENESIS_HASH};
use crate::section::{
    array_of_value, coerce_bytes, coerce_section, coerce_u32, coerce_u64, entry_blob,
    entry_object, entry_u32, entry_u64, entry_value, lookup, no_entries, section_entries,
    section_new, section_put, section_take, u32_of_value, u64_of_value, value_of, Value,
};
use serde_epee::section::SectionEntry;
use serde_epee::Section;
use vstd::prelude::*;
use vstd::slice::slice_to_vec;

verus! {

/// Payload of the handshake command.
#[derive(Debug)]
pub struct Handshake {
    pub node_data: NodeData,
    pub payload_data: PayloadData,
}

/// What a node says of itself. `other` keeps every entry of the source
/// section that is not one of the three fields.
#[derive(Debug)]
pub struct NodeData {
    pub network_id: [u8; 16],
    pub peer_id: u64,
    pub my_port: u32,
    pub other: Section,
}

/// What a node says of its chain. `other` keeps every entry of the source
/// section that is not one of the three fields.
#[derive(Debug)]
pub struct PayloadData {
    pub current_height: u64,
    pub cumulative_difficulty: u64,
    pub top_id: [u8; 32],
    pub other: Section,
}

/// A handshake section lacks a field, or holds one of the wrong type or size.
#[derive(Debug, Clone, Copy, PartialEq, Eq, Structural)]
pub struct InvalidHandshake;

/// Network identifier of the production network.
pub const MAINNET: [u8; 16] = [
    0x12, 0x30, 0xf1, 0x71, 0x61, 0x04, 0x41, 0x61,
    0x17, 0x31, 0x00, 0x82, 0x16, 0xa1, 0xa1, 0x10,
];

/// Peer identifier that this node announces.
pub const PEER_ID: u64 = 0xDAADB00D54AFF1EE;

/// Coerces an entry to `u32`: any integer variant whose number fits.
pub fn to_u32(entry: Option<SectionEntry>) -> (r: Result<u32, InvalidHandshake>)
    ensures
        match r {
            Ok(v) => coerce_u32(entry) == Some(v),
            Err(_) => coerce_u32(entry) is None,
        },
{
    match entry {
        Some(e) => match u32_of_value(value_of(e)) {
            Some(v) => Ok(v),
            None => Err(InvalidHandshake),
        },
        None => Err(InvalidHandshake),
    }
}

/// Coerces an entry to `u64`: any integer variant whose number fits.
pub fn to_u64(entry: Option<SectionEntry>) -> (r: Result<u64, InvalidHandshake>)
    ensures
        match r {
            Ok(v) => coerce_u64(entry) == Some(v),
            Err(_) => coerce_u64(entry) is None,
        },
{
    match entry {
        Some(e) => match u64_of_value(value_of(e)) {
            Some(v) => Ok(v),
            None => Err(InvalidHandshake),
        },
        None => Err(InvalidHandshake),
    }
}

/// Coerces an entry to an array of `N` bytes: a blob of exactly that length.
pub fn to_array<const N: usize>(entry: Option<SectionEntry>) -> (r: Result<[u8; N], InvalidHandshake>)
    ensures
        match r {
            Ok(a) => coerce_bytes(entry, N as nat) == Some(a@),
            Err(_) => coerce_bytes(entry, N as nat) is None,
        },
{
    match entry {
        Some(e) => match array_of_value(value_of(e)) {
            Some(a) => Ok(a),
            None => Err(InvalidHandshake),
        },
        None => Err(InvalidHandshake),
    }
}

/// The three keys of a node-data section are three different strings.
pub proof fn lemma_node_keys_distinct()
    ensures
        "network_id"@ != "peer_id"@,
        "network_id"@ != "my_port"@,
        "peer_id"@ != "my_port"@,
{
    reveal_strlit("network_id");
    reveal_strlit("peer_id");
    reveal_strlit("my_port");
    assert("network_id"@.len() == 10);
    assert("peer_id"@.len() == 7);
    assert("peer_id"@[0] == 'p');
    assert("my_port"@[0] == 'm');
}

impl NodeData {
    /// Whether entries `m` hold the three fields in a form that coerces.
    pub open spec fn decodable(m: Map<Seq<char>, SectionEntry>) -> bool {
        &&& coerce_bytes(lookup(m, "network_id"@), 16) is Some
        &&& coerce_u64(lookup(m, "peer_id"@)) is Some
        &&& coerce_u32(lookup(m, "my_port"@)) is Some
    }

    /// Whether `self` is what the entries `m` decode to: the three fields
    /// coerced, and every other entry kept in `other`.
    pub open spec fn decodes(self, m: Map<Seq<char>, SectionEntry>) -> bool {
        &&& coerce_bytes(lookup(m, "network_id"@), 16) == Some(self.network_id@)
        &&& coerce_u64(lookup(m, "peer_id"@)) == Some(self.peer_id)
        &&& coerce_u32(lookup(m, "my_port"@)) == Some(self.my_port)
        &&& section_entries(self.other) == m.remove("network_id"@).remove("peer_id"@).remove(
            "my_port"@,
        )
    }

    /// Whether `m` is the section written for `self`: the three fields and
    /// no other key.
    pub open spec fn encoded_as(self, m: Map<Seq<char>, SectionEntry>) -> bool {
        &&& m.dom() =~= set!["network_id"@, "peer_id"@, "my_port"@]
        &&& entry_value(m["network_id"@]) matches Value::Blob(b) && b@ == self.network_id@
        &&& entry_value(m["peer_id"@]) == Value::UInt64(self.peer_id)
        &&& entry_value(m["my_port"@]) == Value::UInt32(self.my_port)
    }

    /// Reads the three fields out of a section and keeps the rest.
    pub fn try_from(section: Section) -> (r: Result<NodeData, InvalidHandshake>)
        ensures
            match r {
                Ok(node) => node.decodes(section_entries(section)),
                Err(_) => !NodeData::decodable(section_entries(section)),
            },
    {
        proof {
            lemma_node_keys_distinct();
        }
        let mut section = section;
        let network_id = to_array::<16>(section_take(&mut section, "network_id"))?;
        let peer_id = to_u64(section_take(&mut section, "peer_id"))?;
        let my_port = to_u32(section_take(&mut section, "my_port"))?;
        Ok(NodeData { network_id, peer_id, my_port, other: section })
    }

    /// Writes the three fields into a fresh section; `other` is left out.
    pub fn to_section(&self) -> (section: Section)
        ensures
            self.encoded_as(section_entries(section)),
    {
        proof {
            lemma_node_keys_distinct();
        }
        let mut section = section_new();
        section_put(&mut section, "network_id", entry_blob(slice_to_vec(self.network_id.as_slice())));
        section_put(&mut section, "peer_id", entry_u64(self.peer_id));
        section_put(&mut section, "my_port", entry_u32(self.my_port));
        section
    }
}

/// The three keys of a payload-data section are three different strings.
pub proof fn lemma_payload_keys_distinct()
    ensures
        "current_height"@ != "cumulative_difficulty"@,
        "current_height"@ != "top_id"@,
        "cumulative_difficulty"@ != "top_id"@,
{
    reveal_strlit("current_height");
    reveal_strlit("cumulative_difficulty");
    reveal_strlit("top_id");
    assert("current_height"@.len() == 14);
    assert("cumulative_difficulty"@.len() == 21);
    assert("top_id"@.len() == 6);
}

impl PayloadData {
    /// Whether entries `m` hold the three fields in a form that coerces.
    pub open spec fn decodable(m: Map<Seq<char>, SectionEntry>) -> bool {
        &&& coerce_u64(lookup(m, "current_height"@)) is Some
        &&& coerce_u64(lookup(m, "cumulative_difficulty"@)) is Some
        &&& coerce_bytes(lookup(m, "top_id"@), 32) is Some
    }

    /// Whether `self` is what the entries `m` decode to: the three fields
    /// coerced, and every other entry kept in `other`.
    pub open spec fn decodes(self, m: Map<Seq<char>, SectionEntry>) -> bool {
        &&& coerce_u64(lookup(m, "current_height"@)) == Some(self.current_height)
        &&& coerce_u64(lookup(m, "cumulative_difficulty"@)) == Some(self.cumulative_difficulty)
        &&& coerce_bytes(lookup(m, "top_id"@), 32) == Some(self.top_id@)
        &&& section_entries(self.other) == m.remove("current_height"@).remove(
            "cumulative_difficulty"@,
        ).remove("top_id"@)
    }

    /// Whether `m` is the section written for `self`: the three fields and
    /// no other key.
    pub open spec fn encoded_as(self, m: Map<Seq<char>, SectionEntry>) -> bool {
        &&& m.dom() =~= set!["current_height"@, "cumulative_difficulty"@, "top_id"@]
        &&& entry_value(m["current_height"@]) == Value::UInt64(self.current_height)
        &&& entry_value(m["cumulative_difficulty"@]) == Value::UInt64(self.cumulative_difficulty)
        &&& entry_value(m["top_id"@]) matches Value::Blob(b) && b@ == self.top_id@
    }

    /// Reads the three fields out of a section and keeps the rest.
    pub fn try_from(section: Section) -> (r: Result<PayloadData, InvalidHandshake>)
        ensures
            match r {
                Ok(payload) => payload.decodes(section_entries(section)),
                Err(_) => !PayloadData::decodable(section_entries(section)),
            },
    {
        proof {
            lemma_payload_keys_distinct();
        }
        let mut section = section;
        let current_height = to_u64(section_take(&mut section, "current_height"))?;
        let cumulative_difficulty = to_u64(section_take(&mut section, "cumulative_difficulty"))?;
        let top_id = to_array::<32>(section_take(&mut section, "top_id"))?;
        Ok(PayloadData { current_height, cumulative_difficulty, top_id, other: section })
    }

    /// Writes the three fields into a fresh section; `other` is left out.
    pub fn to_section(&self) -> (section: Section)
        ensures
            self.encoded_as(section_entries(section)),
    {
        proof {
            lemma_payload_keys_distinct();
        }
        let mut section = section_new();
        section_put(&mut section, "current_height", entry_u64(self.current_height));
        section_put(&mut section, "cumulative_difficulty", entry_u64(self.cumulative_difficulty));
        section_put(&mut section, "top_id", entry_blob(slice_to_vec(self.top_id.as_slice())));
        section
    }
}

/// The two keys of a handshake section are two different strings.
pub proof fn lemma_handshake_keys_distinct()
    ensures
        "node_data"@ != "payload_data"@,
{
    reveal_strlit("node_data");
    reveal_strlit("payload_data");
    assert("node_data"@.len() == 9);
    assert("payload_data"@.len() == 12);
}

impl Handshake {
    /// Whether entries `m` hold both sections, each in a form that decodes.
    pub open spec fn decodable(m: Map<Seq<char>, SectionEntry>) -> bool {
        &&& coerce_section(lookup(m, "node_data"@)) matches Some(node)
            && NodeData::decodable(node)
        &&& coerce_section(lookup(m, "payload_data"@)) matches Some(payload)
            && PayloadData::decodable(payload)
    }

    /// Whether `self` is what the entries `m` decode to. Keys of `m` other
    /// than the two sections are not read.
    pub open spec fn decodes(self, m: Map<Seq<char>, SectionEntry>) -> bool {
        &&& coerce_section(lookup(m, "node_data"@)) matches Some(node)
            && self.node_data.decodes(node)
        &&& coerce_section(lookup(m, "payload_data"@)) matches Some(payload)
            && self.payload_data.decodes(payload)
    }

    /// Whether `m` is the section written for `self`: the two sections,
    /// each as its type writes it, and no other key.
    pub open spec fn encoded_as(self, m: Map<Seq<char>, SectionEntry>) -> bool {
        &&& m.dom() =~= set!["node_data"@, "payload_data"@]
        &&& entry_value(m["node_data"@]) matches Value::Object(node)
            && self.node_data.encoded_as(section_entries(node))
        &&& entry_value(m["payload_data"@]) matches Value::Object(payload)
            && self.payload_data.encoded_as(section_entries(payload))
    }

    /// Whether this is the handshake of this node: the production
    /// network, the fixed peer id, no listening port, and a chain that
    /// holds the genesis block alone.
    pub open spec fn announces_local_node(self) -> bool {
        &&& self.node_data.network_id@ == MAINNET@
        &&& self.node_data.peer_id == PEER_ID
        &&& self.node_data.my_port == 0
        &&& section_entries(self.node_data.other) == no_entries()
        &&& self.payload_data.current_height == 1
        &&& self.payload_data.cumulative_difficulty == 1
        &&& self.payload_data.top_id@ == MONERO_GENESIS_HASH@
        &&& section_entries(self.payload_data.other) == no_entries()
    }

    /// Reads a handshake out of the root section of its payload.
    pub fn from_section(section: Section) -> (r: Result<Handshake, InvalidHandshake>)
        ensures
            match r {
                Ok(handshake) => handshake.decodes(section_entries(section)),
                Err(_) => !Handshake::decodable(section_entries(section)),
            },
    {
        proof {
            lemma_handshake_keys_distinct();
        }
        let mut section = section;
        let node_data = match section_take(&mut section, "node_data") {
            Some(entry) => match value_of(entry) {
                Value::Object(node) => NodeData::try_from(node)?,
                _ => return Err(InvalidHandshake),
            },
            None => return Err(InvalidHandshake),
        };
        let payload_data = match section_take(&mut section, "payload_data") {
            Some(entry) => match value_of(entry) {
                Value::Object(payload) => PayloadData::try_from(payload)?,
                _ => return Err(InvalidHandshake),
            },
            None => return Err(InvalidHandshake),
        };
        Ok(Handshake { node_data, payload_data })
    }

    /// Writes a handshake as the root section of its payload.
    pub fn to_section(&self) -> (section: Section)
        ensures
            self.encoded_as(section_entries(section)),
    {
        proof {
            lemma_handshake_keys_distinct();
        }
        let mut section = section_new();
        section_put(&mut section, "node_data", entry_object(self.node_data.to_section()));
        section_put(&mut section, "payload_data", entry_object(self.payload_data.to_section()));
        section
    }
}

/// Decoding the section written for a node gives its three fields back and
/// an empty bag of other entries.
pub proof fn lemma_node_data_roundtrip(
    written: NodeData,
    m: Map<Seq<char>, SectionEntry>,
    read: NodeData,
)
    requires
        written.encoded_as(m),
        read.decodes(m),
    ensures
        read.network_id@ == written.network_id@,
        read.peer_id == written.peer_id,
        read.my_port == written.my_port,
        section_entries(read.other) == no_entries(),
{
    lemma_node_keys_distinct();
    assert(m.contains_key("network_id"@));
    assert(m.contains_key("peer_id"@));
    assert(m.contains_key("my_port"@));
    assert(section_entries(read.other) =~= no_entries());
}

/// Decoding the section written for a chain state gives its three fields
/// back and an empty bag of other entries.
pub proof fn lemma_payload_data_roundtrip(
    written: PayloadData,
    m: Map<Seq<char>, SectionEntry>,
    read: PayloadData,
)
    requires
        written.encoded_as(m),
        read.decodes(m),
    ensures
        read.current_height == written.current_height,
        read.cumulative_difficulty == written.cumulative_difficulty,
        read.top_id@ == written.top_id@,
        section_entries(read.other) == no_entries(),
{
    lemma_payload_keys_distinct();
    assert(m.contains_key("current_height"@));
    assert(m.contains_key("cumulative_difficulty"@));
    assert(m.contains_key("top_id"@));
    assert(section_entries(read.other) =~= no_entries());
}

/// The section written for a node decodes.
pub proof fn lemma_node_data_decodable(written: NodeData, m: Map<Seq<char>, SectionEntry>)
    requires
        written.encoded_as(m),
    ensures
        NodeData::decodable(m),
{
    lemma_node_keys_distinct();
    assert(m.contains_key("network_id"@));
    assert(m.contains_key("peer_id"@));
    assert(m.contains_key("my_port"@));
}

/// The section written for a chain state decodes.
pub proof fn lemma_payload_data_decodable(written: PayloadData, m: Map<Seq<char>, SectionEntry>)
    requires
        written.encoded_as(m),
    ensures
        PayloadData::decodable(m),
{
    lemma_payload_keys_distinct();
    assert(m.contains_key("current_height"@));
    assert(m.contains_key("cumulative_difficulty"@));
    assert(m.contains_key("top_id"@));
}

/// An entry under a key that is none of the three fields is kept in the
/// bag of the node decoded from the section, and is left out of the section
/// written for that node.
pub proof fn lemma_node_extension_kept_not_written(
    m: Map<Seq<char>, SectionEntry>,
    read: NodeData,
    key: Seq<char>,
    written: Map<Seq<char>, SectionEntry>,
)
    requires
        read.decodes(m),
        read.encoded_as(written),
        m.contains_key(key),
        key != "network_id"@,
        key != "peer_id"@,
        key != "my_port"@,
    ensures
        section_entries(read.other).contains_key(key),
        section_entries(read.other)[key] == m[key],
        !written.contains_key(key),
{
}

/// An entry under a key that is none of the three fields is kept in the
/// bag of the chain state decoded from the section, and is left out of the
/// section written for that chain state.
pub proof fn lemma_payload_extension_kept_not_written(
    m: Map<Seq<char>, SectionEntry>,
    read: PayloadData,
    key: Seq<char>,
    written: Map<Seq<char>, SectionEntry>,
)
    requires
        read.decodes(m),
        read.encoded_as(written),
        m.contains_key(key),
        key != "current_height"@,
        key != "cumulative_difficulty"@,
        key != "top_id"@,
    ensures
        section_entries(read.other).contains_key(key),
        section_entries(read.other)[key] == m[key],
        !written.contains_key(key),
{
}

/// The section written for a handshake decodes, and whatever it decodes to
/// has the fields that were written and no other entries.
pub proof fn lemma_handshake_roundtrip(
    written: Handshake,
    m: Map<Seq<char>, SectionEntry>,
    read: Handshake,
)
    requires
        written.encoded_as(m),
    ensures
        Handshake::decodable(m),
        read.decodes(m) ==> {
            &&& read.node_data.network_id@ == written.node_data.network_id@
            &&& read.node_data.peer_id == written.node_data.peer_id
            &&& read.node_data.my_port == written.node_data.my_port
            &&& section_entries(read.node_data.other) == no_entries()
            &&& read.payload_data.current_height == written.payload_data.current_height
            &&& read.payload_data.cumulative_difficulty
                == written.payload_data.cumulative_difficulty
            &&& read.payload_data.top_id@ == written.payload_data.top_id@
            &&& section_entries(read.payload_data.other) == no_entries()
        },
{
    lemma_handshake_keys_distinct();
    assert(m.contains_key("node_data"@));
    assert(m.contains_key("payload_data"@));
    let node = coerce_section(lookup(m, "node_data"@))->Some_0;
    let payload = coerce_section(lookup(m, "payload_data"@))->Some_0;
    lemma_node_data_decodable(written.node_data, node);
    lemma_payload_data_decodable(written.payload_data, payload);
    if read.decodes(m) {
        lemma_node_data_roundtrip(written.node_data, node, read.node_data);
        lemma_payload_data_roundtrip(written.payload_data, payload, read.payload_data);
    }
}

impl Msg {
    /// A handshake that announces this node: a request without a return
    /// code, the response with that code otherwise.
    pub fn cmd_handshake(return_code: Option<u32>) -> (msg: Msg)
        ensures
            msg.msg_type == MsgType::answering(return_code),
            msg.msg_data matches MsgData::Handshake(h) && h.announces_local_node(),
    {
        let data = Handshake {
            node_data: NodeData {
                network_id: MAINNET,
                peer_id: PEER_ID,
                my_port: 0,
                other: section_new(),
            },
            payload_data: PayloadData {
                current_height: 1,
                cumulative_difficulty: 1,
                top_id: MONERO_GENESIS_HASH,
                other: section_new(),
            },
        };
        Msg { msg_type: MsgType::for_return_code(return_code), msg_data: MsgData::Handshake(data) }
    }
}

} // verus!
