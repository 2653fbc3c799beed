//! The record that the startup call fills in, and the packed version word that
//! the call is asked with.

use vstd::prelude::*;

verus! {

/// Length of the description field of a [`WsaData`], terminator included.
pub const DESCRIPTION_LEN: usize = 257;

/// Length of the status field of a [`WsaData`], terminator included.
pub const SYSTEM_STATUS_LEN: usize = 129;

/// What the implementation reports about itself when it starts up.
///
/// The library carries the record from the caller to the startup call and reads
/// nothing in it.
#[derive(Debug, Clone, Copy, PartialEq, Eq)]
pub struct WsaData {
    /// The version that the caller is expected to use.
    pub version: u16,
    /// The highest version that the implementation supports.
    pub high_version: u16,
    /// The most sockets that may be opened.
    pub max_sockets: u16,
    /// The largest datagram message.
    pub max_udp_dg: u16,
    /// A description of the implementation, ended by a zero byte.
    pub description: [u8; DESCRIPTION_LEN],
    /// Status or configuration text, ended by a zero byte.
    pub system_status: [u8; SYSTEM_STATUS_LEN],
}

impl WsaData {
    /// Every field, and every byte of the two texts, is zero.
    pub open spec fn is_zeroed(&self) -> bool {
        &&& self.version == 0
        &&& self.high_version == 0
        &&& self.max_sockets == 0
        &&& self.max_udp_dg == 0
        &&& forall|i: int| 0 <= i < DESCRIPTION_LEN ==> self.description[i] == 0
        &&& forall|i: int| 0 <= i < SYSTEM_STATUS_LEN ==> self.system_status[i] == 0
    }

    /// The record before any startup call has written to it.
    pub fn zeroed() -> (data: Self)
        ensures
            data.is_zeroed(),
    {
        WsaData {
            version: 0,
            high_version: 0,
            max_sockets: 0,
            max_udp_dg: 0,
            description: [0u8; DESCRIPTION_LEN],
            system_status: [0u8; SYSTEM_STATUS_LEN],
        }
    }
}

/// The version word with `major` in its low byte and `minor` in its high byte.
pub open spec fn packed_version(major: u8, minor: u8) -> u16 {
    (major + 256 * minor) as u16
}

/// Packs a version for the startup call: the low byte is the major number, the
/// high byte the minor number.
pub fn make_version(major: u8, minor: u8) -> (word: u16)
    ensures
        word == packed_version(major, minor),
        word % 256 == major,
        word / 256 == minor,
{
    let word = (major as u16) | ((minor as u16) << 8);
    assert(word == major + 256 * minor) by (bit_vector)
        requires
            word == (major as u16) | ((minor as u16) << 8),
    ;
    word
}

} // verus!
