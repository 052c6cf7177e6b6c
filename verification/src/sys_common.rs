//! Extraction of the platform-native handle from a socket-like value.

use vstd::prelude::*;

verus! {

/// The platform-native identifier of an open socket: a file descriptor on
/// POSIX-like systems.
pub type RawSocket = i32;

/// Used to get the underlying OS handle for the socket.
pub trait AsRawSocket {
    /// The handle this value stands for.
    spec fn spec_raw_socket(&self) -> int;

    /// Surfaces the native handle, borrowing it; the socket stays owned by
    /// the caller.
    fn as_raw_socket(&self) -> (r: RawSocket)
        ensures
            r as int == self.spec_raw_socket(),
    ;
}

} // verus!
