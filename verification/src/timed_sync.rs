//! The timed-sync command: the periodic exchange of chain state.

use crate::msg::{Msg, MsgData, MsgType, MONERO_GENESIS_HASH};
use crate::section::{
    array_of_value, coerce_bytes, coerce_section, coerce_u64, entry_blob, entry_object,
    entry_sections, entry_u64, entry_value, lookup, no_entries, section_entries, section_new,
    section_put, section_take, u64_of_value, value_of, Value,
};
use serde_epee::section::SectionEntry;
use serde_epee::Section;
use vstd::prelude::*;
use vstd::slice::slice_to_vec;

verus! {

/// Payload of the timed-sync command.
#[derive(Debug)]
pub struct TimedSync {
    pub payload_data: PayloadData,
    /// Peers to pass on. Never read from the wire, and written empty.
    pub local_peerlist_new: Vec<Section>,
}

/// What a node says of its chain. `other` keeps every entry of the source
/// section that is not one of the three fields.
#[derive(Debug)]
pub struct PayloadData {
    pub current_height: u64,
    pub cumulative_difficulty: u64,
    pub top_id: [u8; 32],
    pub other: Section,
}

/// A timed-sync section lacks a field, or holds one of the wrong type or size.
#[derive(Debug, Clone, Copy, PartialEq, Eq, Structural)]
pub struct InvalidTimedSync;

/// Coerces an entry to `u64`: any integer variant whose number fits.
pub fn to_u64(entry: Option<SectionEntry>) -> (r: Result<u64, InvalidTimedSync>)
    ensures
        match r {
            Ok(v) => coerce_u64(entry) == Some(v),
            Err(_) => coerce_u64(entry) is None,
        },
{
    match entry {
        Some(e) => match u64_of_value(value_of(e)) {
            Some(v) => Ok(v),
            None => Err(InvalidTimedSync),
        },
        None => Err(InvalidTimedSync),
    }
}

/// Coerces an entry to an array of `N` bytes: a blob of exactly that length.
pub fn to_array<const N: usize>(entry: Option<SectionEntry>) -> (r: Result<[u8; N], InvalidTimedSync>)
    ensures
        match r {
            Ok(a) => coerce_bytes(entry, N as nat) == Some(a@),
            Err(_) => coerce_bytes(entry, N as nat) is None,
        },
{
    match entry {
        Some(e) => match array_of_value(value_of(e)) {
            Some(a) => Ok(a),
            None => Err(InvalidTimedSync),
        },
        None => Err(InvalidTimedSync),
    }
}

/// The three keys of a payload-data section are three different strings.
pub proof fn lemma_payload_keys_distinct()
    ensures
        "current_height"@ != "cumulative_difficulty"@,
        "current_height"@ != "top_id"@,
        "cumulative_difficulty"@ != "top_id"@,
{
    reveal_strlit("current_height");
    reveal_strlit("cumulative_difficulty");
    reveal_strlit("top_id");
    assert("current_height"@.len() == 14);
    assert("cumulative_difficulty"@.len() == 21);
    assert("top_id"@.len() == 6);
}

impl PayloadData {
    /// Whether entries `m` hold the three fields in a form that coerces.
    pub open spec fn decodable(m: Map<Seq<char>, SectionEntry>) -> bool {
        &&& coerce_u64(lookup(m, "current_height"@)) is Some
        &&& coerce_u64(lookup(m, "cumulative_difficulty"@)) is Some
        &&& coerce_bytes(lookup(m, "top_id"@), 32) is Some
    }

    /// Whether `self` is what the entries `m` decode to: the three fields
    /// coerced, and every other entry kept in `other`.
    pub open spec fn decodes(self, m: Map<Seq<char>, SectionEntry>) -> bool {
        &&& coerce_u64(lookup(m, "current_height"@)) == Some(self.current_height)
        &&& coerce_u64(lookup(m, "cumulative_difficulty"@)) == Some(self.cumulative_difficulty)
        &&& coerce_bytes(lookup(m, "top_id"@), 32) == Some(self.top_id@)
        &&& section_entries(self.other) == m.remove("current_height"@).remove(
            "cumulative_difficulty"@,
        ).remove("top_id"@)
    }

    /// Whether `m` is the section written for `self`: the three fields and
    /// no other key.
    pub open spec fn encoded_as(self, m: Map<Seq<char>, SectionEntry>) -> bool {
        &&& m.dom() =~= set!["current_height"@, "cumulative_difficulty"@, "top_id"@]
        &&& entry_value(m["current_height"@]) == Value::UInt64(self.current_height)
        &&& entry_value(m["cumulative_difficulty"@]) == Value::UInt64(self.cumulative_difficulty)
        &&& entry_value(m["top_id"@]) matches Value::Blob(b) && b@ == self.top_id@
    }

    /// Reads the three fields out of a section and keeps the rest.
    pub fn try_from(section: Section) -> (r: Result<PayloadData, InvalidTimedSync>)
        ensures
            match r {
                Ok(payload) => payload.decodes(section_entries(section)),
                Err(_) => !PayloadData::decodable(section_entries(section)),
            },
    {
        proof {
            lemma_payload_keys_distinct();
        }
        let mut section = section;
        let current_height = to_u64(section_take(&mut section, "current_height"))?;
        let cumulative_difficulty = to_u64(section_take(&mut section, "cumulative_difficulty"))?;
        let top_id = to_array::<32>(section_take(&mut section, "top_id"))?;
        Ok(PayloadData { current_height, cumulative_difficulty, top_id, other: section })
    }

    /// Writes the three fields into a fresh section; `other` is left out.
    pub fn to_section(&self) -> (section: Section)
        ensures
            self.encoded_as(section_entries(section)),
    {
        proof {
            lemma_payload_keys_distinct();
        }
        let mut section = section_new();
        section_put(&mut section, "current_height", entry_u64(self.current_height));
        section_put(&mut section, "cumulative_difficulty", entry_u64(self.cumulative_difficulty));
        section_put(&mut section, "top_id", entry_blob(slice_to_vec(self.top_id.as_slice())));
        section
    }
}

/// The section written for a chain state decodes.
pub proof fn lemma_payload_data_decodable(written: PayloadData, m: Map<Seq<char>, SectionEntry>)
    requires
        written.encoded_as(m),
    ensures
        PayloadData::decodable(m),
{
    lemma_payload_keys_distinct();
    assert(m.contains_key("current_height"@));
    assert(m.contains_key("cumulative_difficulty"@));
    assert(m.contains_key("top_id"@));
}

/// Decoding the section written for a chain state gives its three fields
/// back and an empty bag of other entries.
pub proof fn lemma_payload_data_roundtrip(
    written: PayloadData,
    m: Map<Seq<char>, SectionEntry>,
    read: PayloadData,
)
    requires
        written.encoded_as(m),
        read.decodes(m),
    ensures
        read.current_height == written.current_height,
        read.cumulative_difficulty == written.cumulative_difficulty,
        read.top_id@ == written.top_id@,
        section_entries(read.other) == no_entries(),
{
    lemma_payload_keys_distinct();
    assert(m.contains_key("current_height"@));
    assert(m.contains_key("cumulative_difficulty"@));
    assert(m.contains_key("top_id"@));
    assert(section_entries(read.other) =~= no_entries());
}

/// The two keys of a timed-sync section are two different strings.
pub proof fn lemma_timed_sync_keys_distinct()
    ensures
        "payload_data"@ != "local_peerlist_new"@,
{
    reveal_strlit("payload_data");
    reveal_strlit("local_peerlist_new");
    assert("payload_data"@.len() == 12);
    assert("local_peerlist_new"@.len() == 18);
}

impl TimedSync {
    /// Whether entries `m` hold the chain state in a form that decodes.
    pub open spec fn decodable(m: Map<Seq<char>, SectionEntry>) -> bool {
        coerce_section(lookup(m, "payload_data"@)) matches Some(payload)
            && PayloadData::decodable(payload)
    }

    /// Whether `self` is what the entries `m` decode to: the chain state
    /// read from its section, and no peers.
    pub open spec fn decodes(self, m: Map<Seq<char>, SectionEntry>) -> bool {
        &&& coerce_section(lookup(m, "payload_data"@)) matches Some(payload)
            && self.payload_data.decodes(payload)
        &&& self.local_peerlist_new@.len() == 0
    }

    /// Whether `m` is the section written for `self`: the chain state as
    /// its type writes it, an empty array in place of the peers, and no
    /// other key.
    pub open spec fn encoded_as(self, m: Map<Seq<char>, SectionEntry>) -> bool {
        &&& m.dom() =~= set!["payload_data"@, "local_peerlist_new"@]
        &&& entry_value(m["payload_data"@]) matches Value::Object(payload)
            && self.payload_data.encoded_as(section_entries(payload))
        &&& entry_value(m["local_peerlist_new"@]) matches Value::Sections(peers)
            && peers@.len() == 0
    }

    /// Whether this is the timed sync of this node: a chain that holds
    /// the genesis block alone, and no peers.
    pub open spec fn announces_local_chain(self) -> bool {
        &&& self.payload_data.current_height == 1
        &&& self.payload_data.cumulative_difficulty == 1
        &&& self.payload_data.top_id@ == MONERO_GENESIS_HASH@
        &&& section_entries(self.payload_data.other) == no_entries()
        &&& self.local_peerlist_new@.len() == 0
    }

    /// Reads a timed sync out of the root section of its payload.
    pub fn from_section(section: Section) -> (r: Result<TimedSync, InvalidTimedSync>)
        ensures
            match r {
                Ok(sync) => sync.decodes(section_entries(section)),
                Err(_) => !TimedSync::decodable(section_entries(section)),
            },
    {
        let mut section = section;
        let payload_data = match section_take(&mut section, "payload_data") {
            Some(entry) => match value_of(entry) {
                Value::Object(payload) => PayloadData::try_from(payload)?,
                _ => return Err(InvalidTimedSync),
            },
            None => return Err(InvalidTimedSync),
        };
        Ok(TimedSync { payload_data, local_peerlist_new: Vec::new() })
    }

    /// Writes a timed sync as the root section of its payload.
    pub fn to_section(&self) -> (section: Section)
        ensures
            self.encoded_as(section_entries(section)),
    {
        proof {
            lemma_timed_sync_keys_distinct();
        }
        let mut section = section_new();
        section_put(&mut section, "payload_data", entry_object(self.payload_data.to_section()));
        section_put(&mut section, "local_peerlist_new", entry_sections(Vec::new()));
        section
    }
}

/// An entry under a key that is none of the three fields is kept in the
/// bag of the chain state decoded from the section, and is left out of the
/// section written for that chain state.
pub proof fn lemma_payload_extension_kept_not_written(
    m: Map<Seq<char>, SectionEntry>,
    read: PayloadData,
    key: Seq<char>,
    written: Map<Seq<char>, SectionEntry>,
)
    requires
        read.decodes(m),
        read.encoded_as(written),
        m.contains_key(key),
        key != "current_height"@,
        key != "cumulative_difficulty"@,
        key != "top_id"@,
    ensures
        section_entries(read.other).contains_key(key),
        section_entries(read.other)[key] == m[key],
        !written.contains_key(key),
{
}

/// The section written for a timed sync decodes, and whatever it decodes to
/// has the chain state that was written, no other entries and no peers.
pub proof fn lemma_timed_sync_roundtrip(
    written: TimedSync,
    m: Map<Seq<char>, SectionEntry>,
    read: TimedSync,
)
    requires
        written.encoded_as(m),
    ensures
        TimedSync::decodable(m),
        read.decodes(m) ==> {
            &&& read.payload_data.current_height == written.payload_data.current_height
            &&& read.payload_data.cumulative_difficulty
                == written.payload_data.cumulative_difficulty
            &&& read.payload_data.top_id@ == written.payload_data.top_id@
            &&& section_entries(read.payload_data.other) == no_entries()
            &&& read.local_peerlist_new@.len() == 0
        },
{
    lemma_timed_sync_keys_distinct();
    assert(m.contains_key("payload_data"@));
    let payload = coerce_section(lookup(m, "payload_data"@))->Some_0;
    lemma_payload_data_decodable(written.payload_data, payload);
    if read.decodes(m) {
        lemma_payload_data_roundtrip(written.payload_data, payload, read.payload_data);
    }
}

impl Msg {
    /// A timed sync that announces this node's chain: a request without a
    /// return code, the response with that code otherwise.
    pub fn cmd_timed_sync(return_code: Option<u32>) -> (msg: Msg)
        ensures
            msg.msg_type == MsgType::answering(return_code),
            msg.msg_data matches MsgData::TimedSync(t) && t.announces_local_chain(),
    {
        let data = TimedSync {
            payload_data: PayloadData {
                current_height: 1,
                cumulative_difficulty: 1,
                top_id: MONERO_GENESIS_HASH,
                other: section_new(),
            },
            local_peerlist_new: Vec::new(),
        };
        Msg { msg_type: MsgType::for_return_code(return_code), msg_data: MsgData::TimedSync(data) }
    }
}

} // verus!
