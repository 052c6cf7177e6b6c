//! Raw integer-option accessors over an explicit model of a socket's
//! option table.
//!
//! The OS keeps one integer per (level, name) pair for each open socket.
//! [`ModelSocket`] makes that state explicit, so that what a set leaves
//! behind and what a get reads back are proved facts. An option never
//! written reads as 0, and every operation on a closed handle fails with
//! the OS error code for a bad descriptor.

use vstd::prelude::*;
use crate::policy::Family;

verus! {

/// `EBADF`: the errno a POSIX system reports for an operation on a handle
/// that no longer refers to an open socket.
pub const EBADF: i32 = 9;

/// A failure of a native option call, carrying the raw OS error code
/// unchanged; no reinterpretation into a custom taxonomy.
#[derive(Clone, Copy, PartialEq, Eq, Structural, Debug)]
pub struct OsError {
    pub code: i32,
}

impl OsError {
    /// Wraps a raw OS error code.
    pub fn new(code: i32) -> (r: OsError)
        ensures
            r.code == code,
    {
        OsError { code }
    }

    /// The raw OS error code, as the failing call reported it.
    pub fn raw_os_error(&self) -> (r: i32)
        ensures
            r == self.code,
    {
        self.code
    }
}

/// One entry of a socket's option table: the integer stored under a
/// (level, name) pair.
#[derive(Clone, Copy, PartialEq, Eq, Structural, Debug)]
pub struct OptEntry {
    pub level: i32,
    pub name: i32,
    pub value: i32,
}

/// The (level, name) pair addressing an entry.
pub open spec fn key_of(e: OptEntry) -> (int, int) {
    (e.level as int, e.name as int)
}

/// The entries' keys are pairwise distinct, so each key names one entry.
pub open spec fn distinct_keys(s: Seq<OptEntry>) -> bool {
    forall|p: int, q: int|
        0 <= p < q < s.len() ==> #[trigger] key_of(s[p]) != #[trigger] key_of(s[q])
}

/// The option table of a sequence of entries.
pub open spec fn opts_map_of(s: Seq<OptEntry>) -> Map<(int, int), int>
    decreases s.len(),
{
    if s.len() == 0 {
        Map::empty()
    } else {
        opts_map_of(s.drop_last()).insert(key_of(s.last()), s.last().value as int)
    }
}

/// The integer stored under a key, with the OS default of 0 where nothing
/// was written.
pub open spec fn opt_value(m: Map<(int, int), int>, level: int, name: int) -> int {
    if m.contains_key((level, name)) {
        m[(level, name)]
    } else {
        0
    }
}

/// The per-socket state the OS holds on behalf of one handle: whether the
/// handle is still open, and the integer options written so far. Options
/// never written read as 0.
#[derive(PartialEq, Eq, Debug)]
pub struct ModelSocket {
    /// The native handle this state sits behind.
    pub fd: i32,
    /// Whether the handle still refers to an open socket.
    pub is_open: bool,
    /// The operating-system family whose option policy governs the socket.
    pub family: Family,
    /// The integer options written so far, keyed by (level, name).
    pub opts: Vec<OptEntry>,
}

impl ModelSocket {
    /// Each (level, name) key names at most one entry of the table.
    pub open spec fn inv(&self) -> bool {
        distinct_keys(self.opts@)
    }

    /// The socket's option table.
    pub open spec fn opt_map(&self) -> Map<(int, int), int> {
        opts_map_of(self.opts@)
    }

    /// An open socket with no option written yet, as the OS hands one out.
    pub fn new(fd: i32, family: Family) -> (s: ModelSocket)
        ensures
            s.inv(),
            s.fd == fd,
            s.is_open,
            s.family == family,
            s.opt_map() == Map::<(int, int), int>::empty(),
    {
        ModelSocket { fd, is_open: true, family, opts: Vec::new() }
    }

    /// Invalidates the handle: further option calls fail as the OS fails
    /// them on a closed descriptor. The table itself is left as it was.
    pub fn close(&mut self)
        ensures
            final(self).fd == old(self).fd,
            !final(self).is_open,
            final(self).family == old(self).family,
            final(self).opts == old(self).opts,
    {
        self.is_open = false;
    }
}

/// Under pairwise-distinct keys, entry `i` is exactly what the table holds
/// at its key.
proof fn lemma_opts_map_index(s: Seq<OptEntry>, i: int)
    requires
        0 <= i < s.len(),
        distinct_keys(s),
    ensures
        opts_map_of(s).contains_key(key_of(s[i])),
        opts_map_of(s)[key_of(s[i])] == s[i].value as int,
    decreases s.len(),
{
    if i == s.len() - 1 {
    } else {
        assert(distinct_keys(s.drop_last()));
        lemma_opts_map_index(s.drop_last(), i);
        assert(key_of(s[i]) != key_of(s[s.len() - 1]));
    }
}

/// A key carried by no entry is absent from the table.
proof fn lemma_opts_map_absent(s: Seq<OptEntry>, level: int, name: int)
    requires
        forall|p: int| 0 <= p < s.len() ==> #[trigger] key_of(s[p]) != (level, name),
    ensures
        !opts_map_of(s).contains_key((level, name)),
    decreases s.len(),
{
    if s.len() > 0 {
        lemma_opts_map_absent(s.drop_last(), level, name);
    }
}

/// Overwriting the value of entry `i` changes the table exactly at that
/// entry's key.
proof fn lemma_opts_map_update(s: Seq<OptEntry>, i: int, v: i32)
    requires
        0 <= i < s.len(),
        distinct_keys(s),
    ensures
        opts_map_of(s.update(i, OptEntry { level: s[i].level, name: s[i].name, value: v }))
            == opts_map_of(s).insert(key_of(s[i]), v as int),
    decreases s.len(),
{
    let e = OptEntry { level: s[i].level, name: s[i].name, value: v };
    let t = s.update(i, e);
    if i == s.len() - 1 {
        assert(t.drop_last() =~= s.drop_last());
        assert(opts_map_of(t) =~= opts_map_of(s).insert(key_of(s[i]), v as int));
    } else {
        assert(t.drop_last() =~= s.drop_last().update(i, e));
        assert(distinct_keys(s.drop_last()));
        lemma_opts_map_update(s.drop_last(), i, v);
        assert(t.last() == s.last());
        assert(key_of(s[i]) != key_of(s[s.len() - 1]));
        assert(opts_map_of(t) =~= opts_map_of(s).insert(key_of(s[i]), v as int));
    }
}

/// Appending an entry changes the table exactly at the new entry's key.
proof fn lemma_opts_map_push(s: Seq<OptEntry>, e: OptEntry)
    ensures
        opts_map_of(s.push(e)) == opts_map_of(s).insert(key_of(e), e.value as int),
{
    assert(s.push(e).drop_last() =~= s);
}

/// Reads one integer option from the socket: the value stored under
/// (level, name), or the OS default of 0 where none was written. On a
/// closed handle the OS reports `EBADF` and no value.
///
/// A real get-option call also reports the payload size; the native layer
/// asserts it equals one native integer, so the integer read is the whole
/// observable result and is what this contract pins down.
pub fn get_integer_option(s: &ModelSocket, level: i32, name: i32) -> (r: Result<i32, OsError>)
    requires
        s.inv(),
    ensures
        s.is_open ==> (r matches Ok(v) && v as int == opt_value(s.opt_map(), level as int, name as int)),
        !s.is_open ==> (r matches Err(e) && e.code == EBADF && e.code != 0),
{
    if !s.is_open {
        return Err(OsError { code: EBADF });
    }
    let n = s.opts.len();
    let mut i: usize = 0;
    while i < n
        invariant
            n == s.opts.len(),
            i <= n,
            s.inv(),
            s.is_open,
            forall|p: int| 0 <= p < i ==> #[trigger] key_of(s.opts@[p]) != (level as int, name as int),
        decreases n - i,
    {
        let e = s.opts[i];
        if e.level == level && e.name == name {
            proof {
                lemma_opts_map_index(s.opts@, i as int);
            }
            return Ok(e.value);
        }
        i = i + 1;
    }
    proof {
        lemma_opts_map_absent(s.opts@, level as int, name as int);
    }
    Ok(0)
}

/// Writes one integer option on the socket: afterwards the table holds
/// `value` under (level, name) and nothing else changed. On a closed
/// handle the OS reports `EBADF` and the state is left untouched.
pub fn set_integer_option(s: &mut ModelSocket, level: i32, name: i32, value: i32) -> (r: Result<(), OsError>)
    requires
        old(s).inv(),
    ensures
        final(s).inv(),
        final(s).fd == old(s).fd,
        final(s).is_open == old(s).is_open,
        final(s).family == old(s).family,
        old(s).is_open ==> r is Ok
            && final(s).opt_map() == old(s).opt_map().insert((level as int, name as int), value as int),
        !old(s).is_open ==> (r matches Err(e) && e.code == EBADF && e.code != 0)
            && *final(s) == *old(s),
{
    if !s.is_open {
        return Err(OsError { code: EBADF });
    }
    let n = s.opts.len();
    let mut i: usize = 0;
    while i < n
        invariant
            n == s.opts.len(),
            i <= n,
            *s == *old(s),
            s.inv(),
            s.is_open,
            forall|p: int| 0 <= p < i ==> #[trigger] key_of(s.opts@[p]) != (level as int, name as int),
        decreases n - i,
    {
        let e = s.opts[i];
        if e.level == level && e.name == name {
            proof {
                lemma_opts_map_update(s.opts@, i as int, value);
            }
            let ghost pre = s.opts@;
            s.opts[i] = OptEntry { level, name, value };
            proof {
                assert(s.opts@ =~= pre.update(i as int, OptEntry { level, name, value }));
                assert forall|p: int, q: int|
                    0 <= p < q < s.opts@.len() implies #[trigger] key_of(s.opts@[p])
                    != #[trigger] key_of(s.opts@[q]) by {
                    assert(key_of(pre[p]) != key_of(pre[q]));
                }
            }
            return Ok(());
        }
        i = i + 1;
    }
    proof {
        lemma_opts_map_push(s.opts@, OptEntry { level, name, value });
    }
    let ghost pre = s.opts@;
    s.opts.push(OptEntry { level, name, value });
    proof {
        assert forall|p: int, q: int|
            0 <= p < q < s.opts@.len() implies #[trigger] key_of(s.opts@[p])
            != #[trigger] key_of(s.opts@[q]) by {
            if q == s.opts@.len() - 1 {
                assert(key_of(pre[p]) != (level as int, name as int));
            } else {
                assert(key_of(pre[p]) != key_of(pre[q]));
            }
        }
    }
    Ok(())
}

} // verus!
