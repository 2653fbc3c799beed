//! Lifecycle guard for the Windows Sockets startup and cleanup handshake.
//!
//! A [`WsaInitializer`] says what the startup call is asked for. The status
//! that the call returns turns it into a [`Wsa`], the handle that stands for
//! one successful startup, or into a [`WsaError`]. The handle is given up
//! once, for a [`WsaRaii`] or by [`Wsa::clean`]: that is the moment at which
//! the one cleanup call is owed.
//!
//! The crate holds the rules of the handshake and makes no call into the
//! operating system. Its caller makes `WSAStartup` with the
//! [`request`](WsaInitializer::request) of a configuration and hands the
//! status to [`init`](WsaInitializer::init); it makes `WSACleanup` after
//! [`clean`](Wsa::clean), or when it lets go of the [`WsaRaii`] that it holds.
//! Each of the three values can be used once and cannot be copied, so one
//! startup call gives at most one handle and one handle at most one cleanup.

use vstd::prelude::*;

pub mod data;
pub mod error;
pub mod util;

pub use data::{make_version, WsaData};
pub use error::WsaError;

verus! {

/// What a [`WsaInitializer`] asks of the startup call.
#[derive(Debug, Clone, Copy, PartialEq, Eq)]
pub struct Request {
    /// The packed version that is asked for.
    pub version: u16,
    /// The record that the call is to fill in.
    pub data: WsaData,
}

/// Configures one startup call, and builds the [`Wsa`] handle from its status.
pub struct WsaInitializer {
    version: u16,
    data: WsaData,
}

/// Stands for one startup that succeeded and has not been cleaned up.
#[must_use]
pub struct Wsa(());

/// Owes the cleanup call: whoever holds it makes the call when it lets go of it.
pub struct WsaRaii(());

impl View for WsaInitializer {
    type V = Request;

    closed spec fn view(&self) -> Request {
        Request { version: self.version, data: self.data }
    }
}

impl Default for WsaInitializer {
    /// Asks for version 2.2 with a zeroed record.
    fn default() -> (init: Self)
        ensures
            init@.version == data::packed_version(2, 2),
            init@.data.is_zeroed(),
    {
        Self { version: make_version(2, 2), data: WsaData::zeroed() }
    }
}

impl WsaInitializer {
    /// Sets the version for WSA to be initialized with. Any two bytes are
    /// taken: whether the version exists is for the startup call to say.
    pub fn version(&mut self, major: u8, minor: u8) -> (this: &mut Self)
        ensures
            this@ == (Request {
                version: data::packed_version(major, minor),
                data: old(self)@.data,
            }),
            *final(self) == *final(this),
    {
        self.version = make_version(major, minor);
        self
    }

    /// Sets the record to be given when WSA is initialized.
    pub fn data(&mut self, new: WsaData) -> (this: &mut Self)
        ensures
            this@ == (Request { version: old(self)@.version, data: new }),
            *final(self) == *final(this),
    {
        self.data = new;
        self
    }

    /// What the startup call is to be made with.
    pub fn request(&self) -> (request: Request)
        ensures
            request == self@,
    {
        Request { version: self.version, data: self.data }
    }

    /// Finishes the startup, given the status that `WSAStartup` returned for
    /// this configuration: the handle for status 0, else the kind of failure
    /// that the status stands for.
    pub fn init(self, status: i32) -> (started: Result<Wsa, WsaError>)
        ensures
            started is Ok <==> status == 0,
            started is Err ==> started->Err_0 == error::classify(status),
    {
        if status == 0 {
            Ok(Wsa(()))
        } else {
            Err(WsaError::from(status))
        }
    }
}

impl Wsa {
    /// Gives the handle up for a guard that owes the cleanup when it is let go of.
    /// Takes ownership of self to assert WSA was initialized and to avoid double cleanup.
    pub fn raii(self) -> WsaRaii {
        WsaRaii(())
    }

    /// Gives the handle up at once: the cleanup is owed now.
    /// Takes self to assert WSA was initialized and to avoid double cleanup.
    pub fn clean(self) {
        let _ = self.raii();
    }
}

} // verus!
