//! The support-flags command.

use crate::msg::{Msg, MsgData, MsgType};
use crate::section::{entry_u32, entry_value, section_entries, section_new, section_put, Value};
use serde_epee::section::SectionEntry;
use serde_epee::Section;
use vstd::prelude::*;

verus! {

/// Payload of the support-flags command.
#[derive(Debug, Clone, Copy, PartialEq, Eq, Structural)]
pub struct SupportFlags {
    pub support_flags: u32,
}

impl SupportFlags {
    /// Whether `m` is the section written for `self`: the one field.
    pub open spec fn encoded_as(self, m: Map<Seq<char>, SectionEntry>) -> bool {
        &&& m.dom() =~= set!["support_flags"@]
        &&& entry_value(m["support_flags"@]) == Value::UInt32(self.support_flags)
    }

    /// Writes the flags as the root section of their payload.
    pub fn to_section(&self) -> (section: Section)
        ensures
            self.encoded_as(section_entries(section)),
    {
        let mut section = section_new();
        section_put(&mut section, "support_flags", entry_u32(self.support_flags));
        section
    }
}

impl Msg {
    /// A support-flags message with no flag set: a request without a
    /// return code, the response with that code otherwise.
    pub fn cmd_support_flags(return_code: Option<u32>) -> (msg: Msg)
        ensures
            msg.msg_type == MsgType::answering(return_code),
            msg.msg_data matches MsgData::SupportFlags(f) && f.support_flags == 0,
    {
        let data = SupportFlags { support_flags: 0 };
        Msg {
            msg_type: MsgType::for_return_code(return_code),
            msg_data: MsgData::SupportFlags(data),
        }
    }
}

} // verus!
