//! Shortcuts for a startup with the default configuration.

use crate::error::classify;
use crate::{Wsa, WsaError, WsaInitializer};
use vstd::prelude::*;

verus! {

/// Finishes a startup with zeroed options and version 2.2, given the status
/// that `WSAStartup` returned: the handle for status 0, else the kind of
/// failure that the status stands for.
pub fn try_wsa_startup(status: i32) -> (started: Result<Wsa, WsaError>)
    ensures
        started is Ok <==> status == 0,
        started is Err ==> started->Err_0 == classify(status),
{
    WsaInitializer::default().init(status)
}

/// Finishes a startup with zeroed options and version 2.2 that is known to
/// have succeeded.
pub fn wsa_startup(status: i32) -> Wsa
    requires
        status == 0,
{
    try_wsa_startup(status).unwrap()
}

} // verus!
