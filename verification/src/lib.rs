//! Getting and setting the Don't Fragment (DF) option on UDP sockets.
//!
//! The DF bit tells the network layer not to fragment outgoing packets.
//! Each operating-system family exposes it under a different socket option
//! and value encoding; this crate verifies that translation layer.
//!
//! The crate is organised like the option machinery itself:
//! - [`policy`] holds the per-family option descriptors and the encoding
//!   between the logical DF boolean and the integer the OS stores;
//! - [`sockopt`] holds the raw integer-option accessors, working on an
//!   explicit model of a socket's option table, so that the behaviour of a
//!   set followed by a get is a proved fact rather than a convention;
//! - this root holds the capability surface: the sealed extension trait
//!   through which a socket-like value exposes the four DF operations.

use vstd::prelude::*;

pub mod policy;
pub mod sockopt;
mod private;
pub mod sys_common;

use crate::policy::{spec_get_df, spec_set_df, AddrFamily, Family};
use crate::sockopt::{ModelSocket, OsError};
use crate::sys_common::{AsRawSocket, RawSocket};

verus! {

/// Extension trait that provides methods for getting and setting the
/// Don't Fragment (DF) option on UDP sockets.
///
/// The trait is sealed: only socket-like types this crate vouches for can
/// carry the four operations, so they are never invoked on a handle that is
/// not a UDP socket of a known shape. Each implementor exposes its
/// observable DF-relevant state through the spec functions, and the four
/// operations are contracted against that state.
pub trait UdpSocketExt: crate::private::Sealed {
    /// Whether the implementor's state satisfies its own invariant.
    spec fn wf(&self) -> bool;

    /// Whether the handle still refers to an open socket.
    spec fn sock_open(&self) -> bool;

    /// The operating-system family whose option policy governs the socket.
    spec fn sock_family(&self) -> Family;

    /// The socket's integer-option table, keyed by (level, name).
    spec fn opt_table(&self) -> Map<(int, int), int>;

    /// Gets the value of the `IP_DONTFRAG` (or equivalent) option for this
    /// socket.
    ///
    /// For more information about this option, see
    /// [`UdpSocketExt::set_dontfrag_v4`].
    fn dontfrag_v4(&self) -> (r: Result<bool, OsError>)
        requires
            self.wf(),
        ensures
            self.sock_open() ==> (r matches Ok(b) && b == spec_get_df(
                self.opt_table(),
                self.sock_family(),
                AddrFamily::V4,
            )),
            !self.sock_open() ==> (r matches Err(e) && e.code != 0),
    ;

    /// Gets the value of the `IPV6_DONTFRAG` (or equivalent) option for
    /// this socket.
    ///
    /// For more information about this option, see
    /// [`UdpSocketExt::set_dontfrag_v6`].
    fn dontfrag_v6(&self) -> (r: Result<bool, OsError>)
        requires
            self.wf(),
        ensures
            self.sock_open() ==> (r matches Ok(b) && b == spec_get_df(
                self.opt_table(),
                self.sock_family(),
                AddrFamily::V6,
            )),
            !self.sock_open() ==> (r matches Err(e) && e.code != 0),
    ;

    /// Sets the value of the `IP_DONTFRAG` (or equivalent) option for this
    /// socket.
    ///
    /// This option sets the Don't Fragment flag (DF) on IP packets.
    ///
    /// On BSD-like systems (Darwin included) this is the boolean
    /// `IP_DONTFRAG` option; on Windows the boolean `IP_DONTFRAGMENT`
    /// option; on Linux-like systems the `IP_MTU_DISCOVER` option, set to
    /// one of the two enumerated path-MTU-discovery modes.
    fn set_dontfrag_v4(&mut self, v: bool) -> (r: Result<(), OsError>)
        requires
            old(self).wf(),
        ensures
            final(self).wf(),
            final(self).sock_open() == old(self).sock_open(),
            final(self).sock_family() == old(self).sock_family(),
            old(self).sock_open() ==> r is Ok && final(self).opt_table() == spec_set_df(
                old(self).opt_table(),
                old(self).sock_family(),
                AddrFamily::V4,
                v,
            ),
            !old(self).sock_open() ==> (r matches Err(e) && e.code != 0)
                && final(self).opt_table() == old(self).opt_table(),
    ;

    /// Sets the value of the `IPV6_DONTFRAG` (or equivalent) option for
    /// this socket.
    ///
    /// This option sets the Don't Fragment flag (DF) on IP packets.
    ///
    /// On BSD-like systems (Darwin included) and Windows this is the
    /// boolean `IPV6_DONTFRAG` option; on Linux-like systems the
    /// `IPV6_MTU_DISCOVER` option, set to one of the two enumerated
    /// path-MTU-discovery modes.
    fn set_dontfrag_v6(&mut self, v: bool) -> (r: Result<(), OsError>)
        requires
            old(self).wf(),
        ensures
            final(self).wf(),
            final(self).sock_open() == old(self).sock_open(),
            final(self).sock_family() == old(self).sock_family(),
            old(self).sock_open() ==> r is Ok && final(self).opt_table() == spec_set_df(
                old(self).opt_table(),
                old(self).sock_family(),
                AddrFamily::V6,
                v,
            ),
            !old(self).sock_open() ==> (r matches Err(e) && e.code != 0)
                && final(self).opt_table() == old(self).opt_table(),
    ;
}

impl crate::private::Sealed for ModelSocket {
}

impl UdpSocketExt for ModelSocket {
    open spec fn wf(&self) -> bool {
        self.inv()
    }

    open spec fn sock_open(&self) -> bool {
        self.is_open
    }

    open spec fn sock_family(&self) -> Family {
        self.family
    }

    open spec fn opt_table(&self) -> Map<(int, int), int> {
        self.opt_map()
    }

    fn dontfrag_v4(&self) -> (r: Result<bool, OsError>) {
        crate::policy::dontfrag_v4(self)
    }

    fn dontfrag_v6(&self) -> (r: Result<bool, OsError>) {
        crate::policy::dontfrag_v6(self)
    }

    fn set_dontfrag_v4(&mut self, v: bool) -> (r: Result<(), OsError>) {
        crate::policy::set_dontfrag_v4(self, v)
    }

    fn set_dontfrag_v6(&mut self, v: bool) -> (r: Result<(), OsError>) {
        crate::policy::set_dontfrag_v6(self, v)
    }
}

impl AsRawSocket for ModelSocket {
    open spec fn spec_raw_socket(&self) -> int {
        self.fd as int
    }

    fn as_raw_socket(&self) -> (r: RawSocket) {
        self.fd
    }
}

} // verus!
