//! Messages: the kind that three header fields spell, the payload that a
//! command id selects, and the framing of both into bytes and back.

use crate::handshake::Handshake;
use crate::raw_header::{RawHeader, LENGTH, SIGNATURE, VERSION};
use crate::section::{parse_section, parsed_section, write_section};
use crate::support_flags::SupportFlags;
use crate::timed_sync::TimedSync;
use vstd::prelude::*;
use vstd::slice::slice_to_vec;

verus! {

/// The largest payload that [`Msg::accept_header`] lets through by default.
pub const MAX_PAYLOAD_LENGTH: u64 = 8388608;

/// Identifier of the genesis block of the production network.
pub const MONERO_GENESIS_HASH: [u8; 32] = [
    0x41, 0x80, 0x15, 0xbb, 0x9a, 0xe9, 0x82, 0xa1,
    0x97, 0x5d, 0xa7, 0xd7, 0x92, 0x77, 0xc2, 0x70,
    0x57, 0x27, 0xa5, 0x68, 0x94, 0xba, 0x0f, 0xb2,
    0x46, 0xad, 0xaa, 0xbb, 0x1f, 0x46, 0x32, 0xe3,
];

/// Command id of the handshake.
pub const COMMAND_HANDSHAKE: u32 = 1001;

/// Command id of the timed sync.
pub const COMMAND_TIMED_SYNC: u32 = 1002;

/// Command id of the support flags.
pub const COMMAND_SUPPORT_FLAGS: u32 = 1007;

/// Command id of the new-block notification.
pub const COMMAND_NEW_BLOCK: u32 = 2001;

/// Command id of the new-transactions notification.
pub const COMMAND_NEW_TRANSACTIONS: u32 = 2002;

/// A message as sent and received: its kind and its payload.
#[derive(Debug)]
pub struct Msg {
    pub msg_type: MsgType,
    pub msg_data: MsgData,
}

/// The kind of a message, as three header fields spell it.
#[derive(Debug, Clone, Copy, PartialEq, Eq, Structural)]
pub enum MsgType {
    Notification,
    Request,
    Response { return_code: u32 },
    Unknown { expect_response: u8, return_code: u32, flags: u32 },
}

/// The payload of a message, by command.
#[derive(Debug)]
pub enum MsgData {
    Handshake(Handshake),
    TimedSync(TimedSync),
    SupportFlags(SupportFlags),
    NewBlock,
    NewTransactions,
    Unknown { command: u32, data: Vec<u8> },
}

/// Why the payload of a known command was turned down.
#[derive(Debug)]
pub enum PayloadError {
    /// The bytes are no portable-storage section.
    Format(serde_epee::Error),
    /// The section lacks a field, or holds one of the wrong type or size.
    Field,
}

/// `std::io::Error`: the failure of a read from or a write to the
/// transport. The library only carries it.
#[verifier::external_type_specification]
#[verifier::external_body]
pub struct ExIoError(std::io::Error);

/// Why a message was not received or not sent.
#[derive(Debug)]
pub enum MsgError {
    /// The transport failed while a message was read.
    RecvError(std::io::Error),
    /// The transport failed while a message was written.
    SendError(std::io::Error),
    InvalidHeader(RawHeader),
    TooLong(RawHeader),
    InvalidRequest(RawHeader),
    InvalidResponse(RawHeader),
    InvalidHandshake(Vec<u8>, PayloadError),
    InvalidTimedSync(Vec<u8>, PayloadError),
    InvalidSupportFlags(Vec<u8>, PayloadError),
}

/// How a header's three fields were classified.
pub enum Classified {
    Valid(MsgType),
    InvalidRequest,
    InvalidResponse,
}

impl MsgType {
    /// The kind that the three fields spell: with flags 1 a notification or
    /// a request, which must carry return code 0; with flags 2 a response,
    /// which must expect none; with other flags, unknown.
    pub open spec fn classify(expect_response: u8, return_code: u32, flags: u32) -> Classified {
        if flags == 1 {
            if return_code != 0 {
                Classified::InvalidRequest
            } else if expect_response == 0 {
                Classified::Valid(MsgType::Notification)
            } else {
                Classified::Valid(MsgType::Request)
            }
        } else if flags == 2 {
            if expect_response == 0 {
                Classified::Valid(MsgType::Response { return_code })
            } else {
                Classified::InvalidResponse
            }
        } else {
            Classified::Valid(MsgType::Unknown { expect_response, return_code, flags })
        }
    }

    /// The three header fields that spell this kind.
    pub open spec fn triple(self) -> (u8, u32, u32) {
        match self {
            MsgType::Notification => (0u8, 0u32, 1u32),
            MsgType::Request => (1u8, 0u32, 1u32),
            MsgType::Response { return_code } => (0u8, return_code, 2u32),
            MsgType::Unknown { expect_response, return_code, flags } => (
                expect_response,
                return_code,
                flags,
            ),
        }
    }

    /// Whether this kind is one that classifying gives: an unknown kind
    /// carries flags other than 1 and 2.
    pub open spec fn canonical(self) -> bool {
        self matches MsgType::Unknown { flags, .. } ==> flags != 1 && flags != 2
    }

    /// The kind of a message built to go out: a request where no return
    /// code is given, the response with that code otherwise.
    pub open spec fn answering(return_code: Option<u32>) -> MsgType {
        match return_code {
            Some(return_code) => MsgType::Response { return_code },
            None => MsgType::Request,
        }
    }

    /// The kind of a message built to go out.
    pub fn for_return_code(return_code: Option<u32>) -> (t: MsgType)
        ensures
            t == MsgType::answering(return_code),
    {
        match return_code {
            Some(return_code) => MsgType::Response { return_code },
            None => MsgType::Request,
        }
    }

    /// Classifies the three fields of a header.
    pub fn from_header(header: &RawHeader) -> (r: Result<MsgType, MsgError>)
        ensures
            match MsgType::classify(header.expect_response, header.return_code, header.flags) {
                Classified::Valid(t) => r matches Ok(kind) && kind == t,
                Classified::InvalidRequest => r matches Err(MsgError::InvalidRequest(h)) && h
                    == *header,
                Classified::InvalidResponse => r matches Err(MsgError::InvalidResponse(h)) && h
                    == *header,
            },
    {
        let expect_response = header.expect_response;
        let return_code = header.return_code;
        let flags = header.flags;
        if flags == 1 {
            if return_code != 0 {
                Err(MsgError::InvalidRequest(*header))
            } else if expect_response == 0 {
                Ok(MsgType::Notification)
            } else {
                Ok(MsgType::Request)
            }
        } else if flags == 2 {
            if expect_response == 0 {
                Ok(MsgType::Response { return_code })
            } else {
                Err(MsgError::InvalidResponse(*header))
            }
        } else {
            Ok(MsgType::Unknown { expect_response, return_code, flags })
        }
    }

    /// The three header fields that spell this kind.
    pub fn to_triple(&self) -> (t: (u8, u32, u32))
        ensures
            t == self.triple(),
    {
        match *self {
            MsgType::Notification => (0, 0, 1),
            MsgType::Request => (1, 0, 1),
            MsgType::Response { return_code } => (0, return_code, 2),
            MsgType::Unknown { expect_response, return_code, flags } => (
                expect_response,
                return_code,
                flags,
            ),
        }
    }
}

/// The fields written for a kind classify as that kind.
pub proof fn lemma_classify_triple(t: MsgType)
    requires
        t.canonical(),
    ensures
        MsgType::classify(t.triple().0, t.triple().1, t.triple().2) == Classified::Valid(t),
{
}

/// The kind that three fields classify as is written with the same fields,
/// but that a request is always written as expecting response 1.
pub proof fn lemma_triple_classify(expect_response: u8, return_code: u32, flags: u32, t: MsgType)
    requires
        MsgType::classify(expect_response, return_code, flags) == Classified::Valid(t),
    ensures
        t.canonical(),
        t.triple().1 == return_code,
        t.triple().2 == flags,
        t.triple().0 == (if t == MsgType::Request {
            1u8
        } else {
            expect_response
        }),
{
}

impl MsgData {
    /// The command id under which this payload travels.
    pub open spec fn command_id(self) -> u32 {
        match self {
            MsgData::Handshake(_) => COMMAND_HANDSHAKE,
            MsgData::TimedSync(_) => COMMAND_TIMED_SYNC,
            MsgData::SupportFlags(_) => COMMAND_SUPPORT_FLAGS,
            MsgData::NewBlock => COMMAND_NEW_BLOCK,
            MsgData::NewTransactions => COMMAND_NEW_TRANSACTIONS,
            MsgData::Unknown { command, .. } => command,
        }
    }

    /// Whether `self` is what the payload `bytes` of command `command`
    /// decodes to. `parsed` is what the section parser made of the bytes,
    /// read only for the three commands that carry a section.
    pub open spec fn decodes(
        self,
        command: u32,
        bytes: Seq<u8>,
        parsed: Option<Map<Seq<char>, serde_epee::section::SectionEntry>>,
    ) -> bool {
        if command == COMMAND_HANDSHAKE {
            self matches MsgData::Handshake(h) && parsed matches Some(m) && h.decodes(m)
        } else if command == COMMAND_TIMED_SYNC {
            self matches MsgData::TimedSync(t) && parsed matches Some(m) && t.decodes(m)
        } else if command == COMMAND_SUPPORT_FLAGS {
            self matches MsgData::SupportFlags(f) && parsed is Some && f.support_flags == 0
        } else if command == COMMAND_NEW_BLOCK {
            self is NewBlock
        } else if command == COMMAND_NEW_TRANSACTIONS {
            self is NewTransactions
        } else {
            self matches MsgData::Unknown { command: c, data } && c == command && data@ == bytes
        }
    }

    /// Whether a request with this payload is answered at all.
    pub open spec fn is_answered(self) -> bool {
        self is Handshake || self is TimedSync || self is SupportFlags
    }

    /// The command id under which this payload travels.
    pub fn command(&self) -> (id: u32)
        ensures
            id == self.command_id(),
    {
        match self {
            MsgData::Handshake(_) => COMMAND_HANDSHAKE,
            MsgData::TimedSync(_) => COMMAND_TIMED_SYNC,
            MsgData::SupportFlags(_) => COMMAND_SUPPORT_FLAGS,
            MsgData::NewBlock => COMMAND_NEW_BLOCK,
            MsgData::NewTransactions => COMMAND_NEW_TRANSACTIONS,
            MsgData::Unknown { command, .. } => *command,
        }
    }

    /// Decodes the payload of command `command` from what the section
    /// parser made of `data`. A known command whose payload does not
    /// decode is an error that carries the bytes; it never comes back as
    /// `Unknown`.
    pub fn from_parsed(
        command: u32,
        data: Vec<u8>,
        parsed: Result<serde_epee::Section, serde_epee::Error>,
    ) -> (r: Result<MsgData, MsgError>)
        ensures
            match r {
                Ok(payload) => payload.decodes(
                    command,
                    data@,
                    match parsed {
                        Ok(section) => Some(crate::section::section_entries(section)),
                        Err(_) => None,
                    },
                ),
                Err(e) => e.rejects(
                    command,
                    data@,
                    match parsed {
                        Ok(section) => Some(crate::section::section_entries(section)),
                        Err(_) => None,
                    },
                ),
            },
    {
        if command == COMMAND_HANDSHAKE {
            match parsed {
                Ok(section) => match Handshake::from_section(section) {
                    Ok(handshake) => Ok(MsgData::Handshake(handshake)),
                    Err(_) => Err(MsgError::InvalidHandshake(data, PayloadError::Field)),
                },
                Err(e) => Err(MsgError::InvalidHandshake(data, PayloadError::Format(e))),
            }
        } else if command == COMMAND_TIMED_SYNC {
            match parsed {
                Ok(section) => match TimedSync::from_section(section) {
                    Ok(sync) => Ok(MsgData::TimedSync(sync)),
                    Err(_) => Err(MsgError::InvalidTimedSync(data, PayloadError::Field)),
                },
                Err(e) => Err(MsgError::InvalidTimedSync(data, PayloadError::Format(e))),
            }
        } else if command == COMMAND_SUPPORT_FLAGS {
            match parsed {
                Ok(_) => Ok(MsgData::SupportFlags(SupportFlags { support_flags: 0 })),
                Err(e) => Err(MsgError::InvalidSupportFlags(data, PayloadError::Format(e))),
            }
        } else if command == COMMAND_NEW_BLOCK {
            Ok(MsgData::NewBlock)
        } else if command == COMMAND_NEW_TRANSACTIONS {
            Ok(MsgData::NewTransactions)
        } else {
            Ok(MsgData::Unknown { command, data })
        }
    }
}

impl PayloadError {
    /// Whether this is the error for entries `parsed` under a command whose
    /// sections decode where `decodable` holds: `Format` where the parser
    /// gave none, `Field` where it gave entries that do not decode.
    pub open spec fn explains(
        self,
        parsed: Option<Map<Seq<char>, serde_epee::section::SectionEntry>>,
        decodable: bool,
    ) -> bool {
        match self {
            PayloadError::Format(_) => parsed is None,
            PayloadError::Field => parsed is Some && !decodable,
        }
    }
}

impl MsgError {
    /// Whether `self` is the error owed to the payload `bytes` of command
    /// `command`, of which the section parser made `parsed`: the error of
    /// that command, with the bytes and the cause, and only where the
    /// payload does not decode.
    pub open spec fn rejects(
        self,
        command: u32,
        bytes: Seq<u8>,
        parsed: Option<Map<Seq<char>, serde_epee::section::SectionEntry>>,
    ) -> bool {
        match self {
            MsgError::InvalidHandshake(data, cause) => {
                &&& command == COMMAND_HANDSHAKE
                &&& data@ == bytes
                &&& cause.explains(parsed, parsed is Some && Handshake::decodable(parsed->Some_0))
            },
            MsgError::InvalidTimedSync(data, cause) => {
                &&& command == COMMAND_TIMED_SYNC
                &&& data@ == bytes
                &&& cause.explains(parsed, parsed is Some && TimedSync::decodable(parsed->Some_0))
            },
            MsgError::InvalidSupportFlags(data, cause) => {
                &&& command == COMMAND_SUPPORT_FLAGS
                &&& data@ == bytes
                &&& cause.explains(parsed, true)
            },
            _ => false,
        }
    }
}

/// The header that announces a payload of `length` bytes of command
/// `command` in a message of kind `msg_type`.
pub open spec fn header_for(msg_type: MsgType, command: u32, length: u64) -> RawHeader {
    RawHeader {
        signature: SIGNATURE,
        length,
        expect_response: msg_type.triple().0,
        command,
        return_code: msg_type.triple().1,
        flags: msg_type.triple().2,
        version: VERSION,
    }
}

/// The bytes of a message on the wire: the header for the payload, then
/// the payload.
pub open spec fn framed(msg_type: MsgType, command: u32, payload: Seq<u8>) -> Seq<u8> {
    header_for(msg_type, command, payload.len() as u64).encode() + payload
}

/// Framing the payload again under the kind and command that a header
/// spelled gives the header's own bytes and the payload, where the header
/// is the one a sender writes: signed, with the payload's length, and with
/// expect-response 1 on a request.
pub proof fn lemma_reframe(header: RawHeader, payload: Seq<u8>, t: MsgType)
    requires
        header.well_signed(),
        header.length == payload.len(),
        MsgType::classify(header.expect_response, header.return_code, header.flags)
            == Classified::Valid(t),
        t == MsgType::Request ==> header.expect_response == 1,
    ensures
        framed(t, header.command, payload) == header.encode() + payload,
{
    lemma_triple_classify(header.expect_response, header.return_code, header.flags, t);
    assert(header_for(t, header.command, payload.len() as u64) == header);
}

/// Whether `command` is one of the five commands that the registry knows.
pub open spec fn is_known_command(command: u32) -> bool {
    ||| command == COMMAND_HANDSHAKE
    ||| command == COMMAND_TIMED_SYNC
    ||| command == COMMAND_SUPPORT_FLAGS
    ||| command == COMMAND_NEW_BLOCK
    ||| command == COMMAND_NEW_TRANSACTIONS
}

/// A message of a command that the registry does not know keeps its command
/// and its payload when it is decoded, and is encoded to the bytes it came
/// from, where the header is the one a sender writes: signed, with the
/// payload's length, and with expect-response 1 on a request.
pub proof fn lemma_unknown_command_roundtrip(header: RawHeader, payload: Seq<u8>, msg: Msg)
    requires
        !is_known_command(header.command),
        header.well_signed(),
        header.length == payload.len(),
        MsgType::classify(header.expect_response, header.return_code, header.flags)
            == Classified::Valid(msg.msg_type),
        msg.msg_type == MsgType::Request ==> header.expect_response == 1,
        msg.msg_data.decodes(header.command, payload, parsed_section(payload)),
    ensures
        msg.msg_data matches MsgData::Unknown { command, data } && command == header.command
            && data@ == payload && framed(msg.msg_type, command, data@) == header.encode()
            + payload,
{
    lemma_reframe(header, payload, msg.msg_type);
}

impl Msg {
    /// Decodes the 33 bytes of a header and lets it through only if
    /// signature and version are the protocol's and the payload it
    /// announces is no longer than `max_length`. The signature is judged
    /// first.
    pub fn accept_header(bytes: [u8; LENGTH], max_length: u64) -> (r: Result<RawHeader, MsgError>)
        ensures
            ({
                let header = RawHeader::decode(bytes@);
                if !header.well_signed() {
                    r matches Err(MsgError::InvalidHeader(h)) && h == header
                } else if header.length > max_length {
                    r matches Err(MsgError::TooLong(h)) && h == header
                } else {
                    r matches Ok(h) && h == header
                }
            }),
    {
        let header = RawHeader::from(bytes);
        if header.signature != SIGNATURE || header.version != VERSION {
            return Err(MsgError::InvalidHeader(header));
        }
        if header.length > max_length {
            return Err(MsgError::TooLong(header));
        }
        Ok(header)
    }

    /// Builds a message from a header and the payload that followed it:
    /// the kind from the header's three fields, then the payload by the
    /// header's command. An invalid kind is reported before the payload
    /// is looked at.
    pub fn from_raw_parts(header: RawHeader, data: Vec<u8>) -> (r: Result<Msg, MsgError>)
        ensures
            match MsgType::classify(header.expect_response, header.return_code, header.flags) {
                Classified::Valid(t) => match r {
                    Ok(msg) => msg.msg_type == t && msg.msg_data.decodes(
                        header.command,
                        data@,
                        parsed_section(data@),
                    ),
                    Err(e) => e.rejects(header.command, data@, parsed_section(data@)),
                },
                Classified::InvalidRequest => r matches Err(MsgError::InvalidRequest(h)) && h
                    == header,
                Classified::InvalidResponse => r matches Err(MsgError::InvalidResponse(h)) && h
                    == header,
            },
    {
        let msg_type = MsgType::from_header(&header)?;
        let command = header.command;
        let carries_section = command == COMMAND_HANDSHAKE || command == COMMAND_TIMED_SYNC
            || command == COMMAND_SUPPORT_FLAGS;
        let msg_data = if carries_section {
            let parsed = parse_section(data.as_slice());
            MsgData::from_parsed(command, data, parsed)?
        } else if command == COMMAND_NEW_BLOCK {
            MsgData::NewBlock
        } else if command == COMMAND_NEW_TRANSACTIONS {
            MsgData::NewTransactions
        } else {
            MsgData::Unknown { command, data }
        };
        Ok(Msg { msg_type, msg_data })
    }

    /// Whether this message is the reply to a request with payload
    /// `request`: a response with return code 1 under the same command,
    /// filled with this node's state.
    pub open spec fn answers(self, request: MsgData) -> bool {
        &&& self.msg_type == (MsgType::Response { return_code: 1 })
        &&& match request {
            MsgData::Handshake(_) => self.msg_data matches MsgData::Handshake(h)
                && h.announces_local_node(),
            MsgData::TimedSync(_) => self.msg_data matches MsgData::TimedSync(t)
                && t.announces_local_chain(),
            MsgData::SupportFlags(_) => self.msg_data matches MsgData::SupportFlags(f)
                && f.support_flags == 0,
            _ => false,
        }
    }

    /// The reply owed to a request with payload `request`: to a handshake,
    /// a timed sync or support flags, the same command as a response with
    /// return code 1, filled with this node's state; to any other payload,
    /// none.
    pub fn reply_to(request: &MsgData) -> (reply: Option<Msg>)
        ensures
            match reply {
                Some(msg) => msg.answers(*request),
                None => !MsgData::is_answered(*request),
            },
    {
        match request {
            MsgData::Handshake(_) => Some(Msg::cmd_handshake(Some(1))),
            MsgData::TimedSync(_) => Some(Msg::cmd_timed_sync(Some(1))),
            MsgData::SupportFlags(_) => Some(Msg::cmd_support_flags(Some(1))),
            _ => None,
        }
    }

    /// Frames an encoded payload: the header for it, then the payload.
    pub fn frame(msg_type: MsgType, command: u32, payload: Vec<u8>) -> (bytes: Vec<u8>)
        ensures
            bytes@ == framed(msg_type, command, payload@),
    {
        let (expect_response, return_code, flags) = msg_type.to_triple();
        let header = RawHeader {
            signature: SIGNATURE,
            length: payload.len() as u64,
            expect_response,
            command,
            return_code,
            flags,
            version: VERSION,
        };
        let mut bytes = header.to_vec();
        bytes.extend_from_slice(payload.as_slice());
        bytes
    }

    /// Encodes the message: the payload by its command, framed under the
    /// header for it. An unknown payload is framed as it is and always
    /// succeeds. The payload of a new block or of new transactions has no
    /// encoding.
    pub fn to_bytes(&self) -> (r: Result<Vec<u8>, serde_epee::Error>)
        requires
            !(self.msg_data is NewBlock),
            !(self.msg_data is NewTransactions),
        ensures
            r matches Ok(bytes) ==> bytes@.len() >= LENGTH && bytes@ == framed(
                self.msg_type,
                self.msg_data.command_id(),
                bytes@.subrange(LENGTH as int, bytes@.len() as int),
            ),
            self.msg_data matches MsgData::Unknown { command, data } ==> r matches Ok(bytes)
                && bytes@ == framed(self.msg_type, command, data@),
    {
        let payload = match &self.msg_data {
            MsgData::Handshake(handshake) => write_section(&handshake.to_section())?,
            MsgData::TimedSync(sync) => write_section(&sync.to_section())?,
            MsgData::SupportFlags(flags) => write_section(&flags.to_section())?,
            MsgData::Unknown { data, .. } => slice_to_vec(data.as_slice()),
            _ => Vec::new(),
        };
        let bytes = Msg::frame(self.msg_type, self.msg_data.command(), payload);
        proof {
            crate::raw_header::lemma_decode_encode(
                header_for(self.msg_type, self.msg_data.command_id(), payload@.len() as u64),
            );
            assert(bytes@.subrange(LENGTH as int, bytes@.len() as int) =~= payload@);
        }
        Ok(bytes)
    }
}

} // verus!
