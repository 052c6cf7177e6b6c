//! Platform policy tables: which socket option carries the DF bit on each
//! operating-system family, and how the logical boolean is encoded there.
//!
//! Exactly one family applies to a real build target; keeping all three
//! tables as data lets the translation of each family be stated and proved.

use vstd::prelude::*;
use crate::sockopt::{get_integer_option, opt_value, set_integer_option, ModelSocket, OsError};

verus! {

/// The operating-system families whose DF options differ.
#[derive(Clone, Copy, PartialEq, Eq, Structural, Debug)]
pub enum Family {
    /// BSD-derived systems, Darwin included: a boolean don't-fragment option.
    BsdLike,
    /// Linux and its emulation layers: DF rides on the MTU-discovery mode.
    LinuxLike,
    /// Windows: a boolean don't-fragment option.
    WindowsLike,
}

/// The address family whose DF option an operation targets.
#[derive(Clone, Copy, PartialEq, Eq, Structural, Debug)]
pub enum AddrFamily {
    V4,
    V6,
}

/// Option level for IPv4 options (`IPPROTO_IP`); 0 on every supported family.
pub const IPPROTO_IP: i32 = 0;

/// Option level for IPv6 options (`IPPROTO_IPV6`); 41 on every supported family.
pub const IPPROTO_IPV6: i32 = 41;

/// Linux `IP_MTU_DISCOVER`: the IPv4 MTU-discovery mode option.
pub const IP_MTU_DISCOVER: i32 = 10;

/// Linux `IPV6_MTU_DISCOVER`: the IPv6 MTU-discovery mode option.
pub const IPV6_MTU_DISCOVER: i32 = 23;

/// Linux `IP_PMTUDISC_DONT` / `IPV6_PMTUDISC_DONT`: discovery off, DF clear.
pub const PMTUDISC_DONT: i32 = 0;

/// Linux `IP_PMTUDISC_DO` / `IPV6_PMTUDISC_DO`: discovery on, DF set.
pub const PMTUDISC_DO: i32 = 2;

/// `IP_DONTFRAG`: the IPv4 don't-fragment boolean option of the BSD
/// family, with Darwin's option number. The number varies within the
/// family (67 on FreeBSD); a native layer takes it from its own headers,
/// while the policy here only needs it to differ from the IPv6 option.
pub const IP_DONTFRAG: i32 = 28;

/// `IPV6_DONTFRAG`: the IPv6 don't-fragment boolean option, 62 across the
/// BSD family.
pub const IPV6_DONTFRAG: i32 = 62;

/// Windows `IP_DONTFRAGMENT`: the IPv4 don't-fragment boolean option.
pub const IP_DONTFRAGMENT: i32 = 14;

/// Windows `IPV6_DONTFRAG`: the IPv6 don't-fragment boolean option.
pub const WIN_IPV6_DONTFRAG: i32 = 14;

/// A resolved socket-option address: the (level, name) pair handed to the
/// raw integer-option accessors.
#[derive(Clone, Copy, PartialEq, Eq, Structural, Debug)]
pub struct OptionDesc {
    pub level: i32,
    pub name: i32,
}

/// The option that carries the DF bit for one family and address family.
pub open spec fn spec_descriptor(f: Family, af: AddrFamily) -> OptionDesc {
    match (f, af) {
        (Family::BsdLike, AddrFamily::V4) => OptionDesc { level: IPPROTO_IP, name: IP_DONTFRAG },
        (Family::BsdLike, AddrFamily::V6) => OptionDesc { level: IPPROTO_IPV6, name: IPV6_DONTFRAG },
        (Family::LinuxLike, AddrFamily::V4) => OptionDesc { level: IPPROTO_IP, name: IP_MTU_DISCOVER },
        (Family::LinuxLike, AddrFamily::V6) => OptionDesc { level: IPPROTO_IPV6, name: IPV6_MTU_DISCOVER },
        (Family::WindowsLike, AddrFamily::V4) => OptionDesc { level: IPPROTO_IP, name: IP_DONTFRAGMENT },
        (Family::WindowsLike, AddrFamily::V6) => OptionDesc { level: IPPROTO_IPV6, name: WIN_IPV6_DONTFRAG },
    }
}

/// Resolves the option that carries the DF bit for one family and address
/// family.
pub fn option_descriptor(f: Family, af: AddrFamily) -> (d: OptionDesc)
    ensures
        d == spec_descriptor(f, af),
{
    match (f, af) {
        (Family::BsdLike, AddrFamily::V4) => OptionDesc { level: IPPROTO_IP, name: IP_DONTFRAG },
        (Family::BsdLike, AddrFamily::V6) => OptionDesc { level: IPPROTO_IPV6, name: IPV6_DONTFRAG },
        (Family::LinuxLike, AddrFamily::V4) => OptionDesc { level: IPPROTO_IP, name: IP_MTU_DISCOVER },
        (Family::LinuxLike, AddrFamily::V6) => OptionDesc { level: IPPROTO_IPV6, name: IPV6_MTU_DISCOVER },
        (Family::WindowsLike, AddrFamily::V4) => OptionDesc { level: IPPROTO_IP, name: IP_DONTFRAGMENT },
        (Family::WindowsLike, AddrFamily::V6) => OptionDesc { level: IPPROTO_IPV6, name: WIN_IPV6_DONTFRAG },
    }
}

/// The integer a family stores for a logical DF value.
///
/// The BSD and Windows families store the boolean literally as 0 or 1.
/// The Linux family stores one of two enumerated MTU-discovery modes:
/// DF set means "do path-MTU discovery", DF clear means "don't".
pub open spec fn spec_encode(f: Family, v: bool) -> int {
    match f {
        Family::LinuxLike => if v { PMTUDISC_DO as int } else { PMTUDISC_DONT as int },
        _ => if v { 1 } else { 0 },
    }
}

/// The logical DF value read back from a family's stored integer.
///
/// The BSD and Windows families treat any nonzero integer as true.
/// The Linux family reports DF set exactly when the stored mode is
/// "do path-MTU discovery".
pub open spec fn spec_decode(f: Family, raw: int) -> bool {
    match f {
        Family::LinuxLike => raw == PMTUDISC_DO as int,
        _ => raw != 0,
    }
}

/// Encodes a logical DF value as the integer the family's option stores.
pub fn encode_dontfrag(f: Family, v: bool) -> (r: i32)
    ensures
        r as int == spec_encode(f, v),
{
    match f {
        Family::LinuxLike => if v { PMTUDISC_DO } else { PMTUDISC_DONT },
        _ => if v { 1 } else { 0 },
    }
}

/// Decodes the integer read from the family's option into the logical DF
/// value.
pub fn decode_dontfrag(f: Family, raw: i32) -> (r: bool)
    ensures
        r == spec_decode(f, raw as int),
{
    match f {
        Family::LinuxLike => raw == PMTUDISC_DO,
        _ => raw != 0,
    }
}

/// Whatever the family, decoding what was encoded restores the logical
/// value: the two enumerated Linux modes are told apart exactly, and the
/// literal 0/1 of the other families decode to false/true.
pub proof fn lemma_encode_decode_roundtrip(f: Family, v: bool)
    ensures
        spec_decode(f, spec_encode(f, v)) == v,
{
}

/// Within every family the v4 option and the v6 option are distinct, so a
/// write through one descriptor cannot be read back through the other.
pub proof fn lemma_descriptors_distinct(f: Family)
    ensures
        spec_descriptor(f, AddrFamily::V4) != spec_descriptor(f, AddrFamily::V6),
{
}

/// The option-table key the DF bit of one address family sits under.
pub open spec fn df_key(f: Family, af: AddrFamily) -> (int, int) {
    (spec_descriptor(f, af).level as int, spec_descriptor(f, af).name as int)
}

/// The integer a socket's option table holds for the DF bit of one address
/// family (0 where nothing was written).
pub open spec fn stored_df(m: Map<(int, int), int>, f: Family, af: AddrFamily) -> int {
    opt_value(m, df_key(f, af).0, df_key(f, af).1)
}

/// The logical DF value a get-operation reports for a table.
pub open spec fn spec_get_df(m: Map<(int, int), int>, f: Family, af: AddrFamily) -> bool {
    spec_decode(f, stored_df(m, f, af))
}

/// The table a successful set-operation leaves behind.
pub open spec fn spec_set_df(m: Map<(int, int), int>, f: Family, af: AddrFamily, v: bool) -> Map<(int, int), int> {
    m.insert(df_key(f, af), spec_encode(f, v))
}

/// Reads the DF state of one address family: resolves the socket's
/// family's option descriptor, reads that integer option, and decodes it.
/// On a closed handle the OS error comes back unchanged, with its nonzero
/// code.
pub fn get_dontfrag(s: &ModelSocket, af: AddrFamily) -> (r: Result<bool, OsError>)
    requires
        s.inv(),
    ensures
        s.is_open ==> (r matches Ok(b) && b == spec_get_df(s.opt_map(), s.family, af)),
        !s.is_open ==> (r matches Err(e) && e.code == crate::sockopt::EBADF && e.code != 0),
{
    let d = option_descriptor(s.family, af);
    match get_integer_option(s, d.level, d.name) {
        Ok(raw) => Ok(decode_dontfrag(s.family, raw)),
        Err(e) => Err(e),
    }
}

/// Sets the DF state of one address family: encodes the logical value per
/// the socket's family and writes it under that family's option
/// descriptor. Nothing besides that one option changes; on a closed handle
/// the OS error comes back unchanged, with its nonzero code, and the state
/// is left untouched.
pub fn set_dontfrag(s: &mut ModelSocket, af: AddrFamily, v: bool) -> (r: Result<(), OsError>)
    requires
        old(s).inv(),
    ensures
        final(s).inv(),
        final(s).fd == old(s).fd,
        final(s).is_open == old(s).is_open,
        final(s).family == old(s).family,
        old(s).is_open ==> r is Ok
            && final(s).opt_map() == spec_set_df(old(s).opt_map(), old(s).family, af, v),
        !old(s).is_open ==> (r matches Err(e) && e.code == crate::sockopt::EBADF && e.code != 0) && *final(s) == *old(s),
{
    let d = option_descriptor(s.family, af);
    let value = encode_dontfrag(s.family, v);
    set_integer_option(s, d.level, d.name, value)
}

/// Current DF state for IPv4 (`IP_DONTFRAG` or its family's equivalent).
pub fn dontfrag_v4(s: &ModelSocket) -> (r: Result<bool, OsError>)
    requires
        s.inv(),
    ensures
        s.is_open ==> (r matches Ok(b) && b == spec_get_df(s.opt_map(), s.family, AddrFamily::V4)),
        !s.is_open ==> (r matches Err(e) && e.code == crate::sockopt::EBADF && e.code != 0),
{
    get_dontfrag(s, AddrFamily::V4)
}

/// Current DF state for IPv6 (`IPV6_DONTFRAG` or its family's equivalent).
pub fn dontfrag_v6(s: &ModelSocket) -> (r: Result<bool, OsError>)
    requires
        s.inv(),
    ensures
        s.is_open ==> (r matches Ok(b) && b == spec_get_df(s.opt_map(), s.family, AddrFamily::V6)),
        !s.is_open ==> (r matches Err(e) && e.code == crate::sockopt::EBADF && e.code != 0),
{
    get_dontfrag(s, AddrFamily::V6)
}

/// Sets the DF state for IPv4 (`IP_DONTFRAG` or its family's equivalent).
pub fn set_dontfrag_v4(s: &mut ModelSocket, v: bool) -> (r: Result<(), OsError>)
    requires
        old(s).inv(),
    ensures
        final(s).inv(),
        final(s).fd == old(s).fd,
        final(s).is_open == old(s).is_open,
        final(s).family == old(s).family,
        old(s).is_open ==> r is Ok
            && final(s).opt_map() == spec_set_df(old(s).opt_map(), old(s).family, AddrFamily::V4, v),
        !old(s).is_open ==> (r matches Err(e) && e.code == crate::sockopt::EBADF && e.code != 0) && *final(s) == *old(s),
{
    set_dontfrag(s, AddrFamily::V4, v)
}

/// Sets the DF state for IPv6 (`IPV6_DONTFRAG` or its family's equivalent).
pub fn set_dontfrag_v6(s: &mut ModelSocket, v: bool) -> (r: Result<(), OsError>)
    requires
        old(s).inv(),
    ensures
        final(s).inv(),
        final(s).fd == old(s).fd,
        final(s).is_open == old(s).is_open,
        final(s).family == old(s).family,
        old(s).is_open ==> r is Ok
            && final(s).opt_map() == spec_set_df(old(s).opt_map(), old(s).family, AddrFamily::V6, v),
        !old(s).is_open ==> (r matches Err(e) && e.code == crate::sockopt::EBADF && e.code != 0) && *final(s) == *old(s),
{
    set_dontfrag(s, AddrFamily::V6, v)
}

/// Round trip: setting DF to `v` and then reading DF of the same address
/// family yields exactly `v`, for every table, family and address family.
pub proof fn lemma_set_get_roundtrip(m: Map<(int, int), int>, f: Family, af: AddrFamily, v: bool)
    ensures
        spec_get_df(spec_set_df(m, f, af, v), f, af) == v,
{
    lemma_encode_decode_roundtrip(f, v);
}

/// Idempotence: setting DF to `v` twice in succession leaves exactly the
/// table that setting it once leaves.
pub proof fn lemma_set_idempotent(m: Map<(int, int), int>, f: Family, af: AddrFamily, v: bool)
    ensures
        spec_set_df(spec_set_df(m, f, af, v), f, af, v) == spec_set_df(m, f, af, v),
{
    assert(spec_set_df(spec_set_df(m, f, af, v), f, af, v) =~= spec_set_df(m, f, af, v));
}

/// Independence across address families: setting DF of one address family
/// does not change the DF state observed for the other.
pub proof fn lemma_family_independence(m: Map<(int, int), int>, f: Family, af1: AddrFamily, af2: AddrFamily, v: bool)
    requires
        af1 != af2,
    ensures
        spec_get_df(spec_set_df(m, f, af1, v), f, af2) == spec_get_df(m, f, af2),
{
    lemma_descriptors_distinct(f);
    assert(df_key(f, af1) != df_key(f, af2));
}

/// Linux-like encoding correctness: after setting DF, the underlying
/// option holds the enumerated discovery mode — "do discovery" for true,
/// which is not the raw literal 1, and "don't" for false.
pub proof fn lemma_linux_stored_mode(m: Map<(int, int), int>, af: AddrFamily)
    ensures
        stored_df(spec_set_df(m, Family::LinuxLike, af, true), Family::LinuxLike, af) == PMTUDISC_DO as int,
        PMTUDISC_DO != 1,
        stored_df(spec_set_df(m, Family::LinuxLike, af, false), Family::LinuxLike, af) == PMTUDISC_DONT as int,
{
}

/// BSD-like and Windows encoding correctness: after setting DF, the
/// underlying option holds the literal 1 for true and 0 for false.
pub proof fn lemma_literal_stored_value(m: Map<(int, int), int>, f: Family, af: AddrFamily)
    requires
        f != Family::LinuxLike,
    ensures
        stored_df(spec_set_df(m, f, af, true), f, af) == 1,
        stored_df(spec_set_df(m, f, af, false), f, af) == 0,
{
}

} // verus!
