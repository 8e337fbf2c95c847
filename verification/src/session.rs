//! The session registry: one entry per user, each with a unique
//! backend port.
//!
//! The registry is the broker's single source of truth.  It keeps
//! usernames unique and ports unique, never exceeds the configured
//! session cap, and hands out the lowest free port of the configured
//! range.  The on-disk persistence (JSON, written atomically) lives
//! outside the library; the registry exchanges plain entry lists with
//! it and drops entries whose process is no longer alive on reload.

use vstd::prelude::*;

verus! {

broadcast use vstd::utf8::encode_utf8_decode_utf8;

/// Serializable session state.
#[derive(Debug, Clone, Copy, PartialEq, Eq, Structural)]
pub enum SessionStateSerde {
    /// The backend is being spawned and has not accepted yet.
    Starting,
    /// A client is connected.
    Active,
    /// The client disconnected; the backend is kept for reconnection.
    Idle,
    /// The backend is being stopped.
    Stopping,
}

/// Persisted session entry.
#[derive(Debug)]
pub struct SessionEntry {
    /// Primary key: the routed username.
    pub username: String,
    /// TCP port of the per-user backend, unique per active session.
    pub port: u16,
    /// OS process id of the backend (0 until known).
    pub pid: u32,
    /// Lifecycle state.
    pub state: SessionStateSerde,
    /// Unix epoch seconds at creation.
    pub created_at: i64,
    /// Last known peer address, or empty when disconnected.
    pub client_addr: String,
    /// Opaque spawn-system handle used to stop the backend.
    pub unit_name: String,
}

/// Compare two string slices by value.
pub fn str_eq(a: &str, b: &str) -> (r: bool)
    ensures
        r <==> a@ == b@,
{
    let ab = a.as_bytes();
    let bb = b.as_bytes();
    if ab.len() != bb.len() {
        proof {
            assert(a@ != b@) by {
                if a@ == b@ {
                    assert(vstd::utf8::encode_utf8(a@) == vstd::utf8::encode_utf8(b@));
                }
            }
        }
        return false;
    }
    let n = ab.len();
    let mut i: usize = 0;
    while i < n
        invariant
            0 <= i <= n,
            n == ab@.len() == bb@.len(),
            ab@ == vstd::utf8::encode_utf8(a@),
            bb@ == vstd::utf8::encode_utf8(b@),
            forall|j: int| 0 <= j < i ==> ab@[j] == bb@[j],
        decreases n - i,
    {
        if ab[i] != bb[i] {
            proof {
                assert(a@ != b@) by {
                    if a@ == b@ {
                        assert(vstd::utf8::encode_utf8(a@) == vstd::utf8::encode_utf8(b@));
                    }
                }
            }
            return false;
        }
        i += 1;
    }
    proof {
        assert(ab@ =~= bb@);
        assert(vstd::utf8::decode_utf8(vstd::utf8::encode_utf8(a@)) == a@);
        assert(vstd::utf8::decode_utf8(vstd::utf8::encode_utf8(b@)) == b@);
    }
    true
}

/// The first index in `s` whose entry has username `name`, searching
/// from `i`.
pub open spec fn spec_find_user_from(s: Seq<SessionEntry>, name: Seq<char>, i: int) -> Option<
    int,
>
    decreases s.len() - i,
{
    if i < 0 || i >= s.len() {
        None
    } else if s[i].username@ == name {
        Some(i)
    } else {
        spec_find_user_from(s, name, i + 1)
    }
}

/// The index of the entry with username `name`, if present.
pub open spec fn spec_find_user(s: Seq<SessionEntry>, name: Seq<char>) -> Option<int> {
    spec_find_user_from(s, name, 0)
}

/// Whether some entry holds port `p`.
pub open spec fn spec_port_used(s: Seq<SessionEntry>, p: int) -> bool {
    exists|i: int| 0 <= i < s.len() && (#[trigger] s[i]).port == p
}

/// Errors the registry reports.
#[derive(Debug, Clone, Copy, PartialEq, Eq, Structural)]
pub enum RegistryError {
    /// The configured maximum number of sessions is reached.
    MaxSessionsReached,
    /// Every port of the configured range is taken.
    NoPortsAvailable,
}

/// In-memory session registry.
///
/// All mutation goes through its methods, which preserve the
/// registry's well-formedness: usernames unique, ports unique, and at
/// most `max_sessions` entries.
pub struct SessionRegistry {
    sessions: Vec<SessionEntry>,
    port_range_start: u16,
    port_range_end: u16,
    max_sessions: usize,
}

impl SessionRegistry {
    /// The entries currently registered, in insertion order.
    pub closed spec fn entries(&self) -> Seq<SessionEntry> {
        self.sessions@
    }

    /// The first allocatable port.
    pub closed spec fn range_start(&self) -> u16 {
        self.port_range_start
    }

    /// The last allocatable port (inclusive).
    pub closed spec fn range_end(&self) -> u16 {
        self.port_range_end
    }

    /// The session cap.
    pub closed spec fn cap(&self) -> usize {
        self.max_sessions
    }

    /// Well-formedness: no two entries share a username, no two
    /// entries share a port, and the cap is respected.
    pub open spec fn wf(&self) -> bool {
        &&& forall|i: int, j: int|
            0 <= i < j < self.entries().len() ==> (#[trigger] self.entries()[i]).username@ != (
            #[trigger] self.entries()[j]).username@
        &&& forall|i: int, j: int|
            0 <= i < j < self.entries().len() ==> (#[trigger] self.entries()[i]).port != (
            #[trigger] self.entries()[j]).port
        &&& self.entries().len() <= self.cap()
    }

    /// Create an empty registry over the given port range and cap.
    pub fn new(port_range_start: u16, port_range_end: u16, max_sessions: usize) -> (r: Self)
        ensures
            r.wf(),
            r.entries().len() == 0,
            r.range_start() == port_range_start,
            r.range_end() == port_range_end,
            r.cap() == max_sessions,
    {
        SessionRegistry {
            sessions: Vec::new(),
            port_range_start,
            port_range_end,
            max_sessions,
        }
    }

    /// Find the position of a username's entry.
    fn find(&self, username: &str) -> (r: Option<usize>)
        ensures
            match r {
                Some(i) => spec_find_user(self.entries(), username@) == Some(i as int) && i
                    < self.entries().len() && self.entries()[i as int].username@ == username@,
                None => spec_find_user(self.entries(), username@) is None,
            },
    {
        let n = self.sessions.len();
        let mut i: usize = 0;
        while i < n
            invariant
                0 <= i <= n,
                n == self.entries().len(),
                spec_find_user(self.entries(), username@) == spec_find_user_from(
                    self.entries(),
                    username@,
                    i as int,
                ),
            decreases n - i,
        {
            if str_eq(self.sessions[i].username.as_str(), username) {
                return Some(i);
            }
            i += 1;
        }
        None
    }

    /// Look up a session by username.
    pub fn get(&self, username: &str) -> (r: Option<&SessionEntry>)
        ensures
            match r {
                Some(e) => {
                    &&& spec_find_user(self.entries(), username@) matches Some(i)
                    &&& *e == self.entries()[spec_find_user(self.entries(), username@).unwrap()]
                    &&& e.username@ == username@
                },
                None => spec_find_user(self.entries(), username@) is None,
            },
    {
        match self.find(username) {
            Some(i) => Some(&self.sessions[i]),
            None => None,
        }
    }

    /// Register a session, replacing any entry of the same username.
    ///
    /// The caller allocates the port through [`Self::allocate_port`]
    /// under the same exclusive access, which is what discharges the
    /// preconditions: the port is free and the cap not yet reached.
    pub fn insert(&mut self, entry: SessionEntry)
        requires
            old(self).wf(),
            forall|i: int|
                0 <= i < old(self).entries().len() && (#[trigger] old(self).entries()[i]).username@
                    != entry.username@ ==> old(self).entries()[i].port != entry.port,
            spec_find_user(old(self).entries(), entry.username@) is None ==> old(
                self,
            ).entries().len() < old(self).cap(),
        ensures
            final(self).wf(),
            final(self).range_start() == old(self).range_start(),
            final(self).range_end() == old(self).range_end(),
            final(self).cap() == old(self).cap(),
            match spec_find_user(old(self).entries(), entry.username@) {
                Some(i) => final(self).entries() == old(self).entries().update(i, entry),
                None => final(self).entries() == old(self).entries().push(entry),
            },
    {
        let ghost name = entry.username@;
        match self.find(entry.username.as_str()) {
            Some(i) => {
                self.sessions.set(i, entry);
                proof {
                    lemma_find_user_is_first(old(self).entries(), name);
                    assert forall|p: int, q: int|
                        0 <= p < q < self.entries().len() implies (#[trigger] self.entries()[p]).username@
                        != (#[trigger] self.entries()[q]).username@ && self.entries()[p].port
                        != self.entries()[q].port by {
                        assert(old(self).entries()[p].username@ != old(
                            self,
                        ).entries()[q].username@);
                    }
                }
            },
            None => {
                self.sessions.push(entry);
                proof {
                    lemma_find_user_none_means_absent(old(self).entries(), name);
                    assert forall|p: int, q: int|
                        0 <= p < q < self.entries().len() implies (#[trigger] self.entries()[p]).username@
                        != (#[trigger] self.entries()[q]).username@ && self.entries()[p].port
                        != self.entries()[q].port by {
                        if q == self.entries().len() - 1 {
                            assert(old(self).entries()[p] == self.entries()[p]);
                        } else {
                            assert(old(self).entries()[p].username@ != old(
                                self,
                            ).entries()[q].username@);
                        }
                    }
                }
            },
        }
    }

    /// Remove a session, returning its entry.
    pub fn remove(&mut self, username: &str) -> (r: Option<SessionEntry>)
        requires
            old(self).wf(),
        ensures
            final(self).wf(),
            final(self).range_start() == old(self).range_start(),
            final(self).range_end() == old(self).range_end(),
            final(self).cap() == old(self).cap(),
            match spec_find_user(old(self).entries(), username@) {
                Some(i) => r == Some(old(self).entries()[i]) && final(self).entries() == old(
                    self,
                ).entries().remove(i),
                None => r is None && final(self).entries() == old(self).entries(),
            },
    {
        match self.find(username) {
            Some(i) => {
                let e = self.sessions.remove(i);
                proof {
                    assert forall|p: int, q: int|
                        0 <= p < q < self.entries().len() implies (#[trigger] self.entries()[p]).username@
                        != (#[trigger] self.entries()[q]).username@ && self.entries()[p].port
                        != self.entries()[q].port by {
                        let p0 = if p < i { p } else { p + 1 };
                        let q0 = if q < i { q } else { q + 1 };
                        assert(self.entries()[p] == old(self).entries()[p0]);
                        assert(self.entries()[q] == old(self).entries()[q0]);
                    }
                }
                Some(e)
            },
            None => None,
        }
    }

    /// Update the state of a session; unknown usernames are ignored.
    pub fn set_state(&mut self, username: &str, state: SessionStateSerde)
        requires
            old(self).wf(),
        ensures
            final(self).wf(),
            final(self).range_start() == old(self).range_start(),
            final(self).range_end() == old(self).range_end(),
            final(self).cap() == old(self).cap(),
            match spec_find_user(old(self).entries(), username@) {
                Some(i) => final(self).entries() == old(self).entries().update(
                    i,
                    SessionEntry { state, ..old(self).entries()[i] },
                ),
                None => final(self).entries() == old(self).entries(),
            },
    {
        match self.find(username) {
            Some(i) => {
                let old_entry = self.sessions.remove(i);
                let new_entry = SessionEntry { state, ..old_entry };
                self.sessions.insert(i, new_entry);
                proof {
                    assert(self.entries() =~= old(self).entries().update(
                        i as int,
                        SessionEntry { state, ..old(self).entries()[i as int] },
                    ));
                    assert forall|p: int, q: int|
                        0 <= p < q < self.entries().len() implies (#[trigger] self.entries()[p]).username@
                        != (#[trigger] self.entries()[q]).username@ && self.entries()[p].port
                        != self.entries()[q].port by {
                        assert(old(self).entries()[p].username@ != old(
                            self,
                        ).entries()[q].username@);
                    }
                }
            },
            None => {},
        }
    }

    /// Update the client address of a session; unknown usernames are
    /// ignored.
    pub fn set_client_addr(&mut self, username: &str, addr: &str)
        requires
            old(self).wf(),
        ensures
            final(self).wf(),
            final(self).range_start() == old(self).range_start(),
            final(self).range_end() == old(self).range_end(),
            final(self).cap() == old(self).cap(),
            match spec_find_user(old(self).entries(), username@) {
                Some(i) => {
                    &&& final(self).entries().len() == old(self).entries().len()
                    &&& final(self).entries()[i].client_addr@ == addr@
                    &&& final(self).entries()[i].username == old(self).entries()[i].username
                    &&& final(self).entries()[i].port == old(self).entries()[i].port
                    &&& final(self).entries()[i].pid == old(self).entries()[i].pid
                    &&& final(self).entries()[i].state == old(self).entries()[i].state
                    &&& final(self).entries()[i].created_at == old(self).entries()[i].created_at
                    &&& final(self).entries()[i].unit_name == old(self).entries()[i].unit_name
                    &&& forall|j: int|
                        0 <= j < old(self).entries().len() && j != i ==> final(self).entries()[j]
                            == old(self).entries()[j]
                },
                None => final(self).entries() == old(self).entries(),
            },
    {
        match self.find(username) {
            Some(i) => {
                let old_entry = self.sessions.remove(i);
                let new_entry = SessionEntry { client_addr: addr.to_owned(), ..old_entry };
                self.sessions.insert(i, new_entry);
                proof {
                    assert(self.entries() =~= old(self).entries().update(i as int, new_entry));
                    assert forall|p: int, q: int|
                        0 <= p < q < self.entries().len() implies (#[trigger] self.entries()[p]).username@
                        != (#[trigger] self.entries()[q]).username@ && self.entries()[p].port
                        != self.entries()[q].port by {
                        assert(old(self).entries()[p].username@ != old(
                            self,
                        ).entries()[q].username@);
                    }
                }
            },
            None => {},
        }
    }

    /// Whether some entry holds port `p`.
    fn port_used(&self, p: u16) -> (r: bool)
        ensures
            r == spec_port_used(self.entries(), p as int),
    {
        let n = self.sessions.len();
        let mut i: usize = 0;
        while i < n
            invariant
                0 <= i <= n,
                n == self.entries().len(),
                forall|j: int| 0 <= j < i ==> (#[trigger] self.entries()[j]).port != p,
            decreases n - i,
        {
            if self.sessions[i].port == p {
                return true;
            }
            i += 1;
        }
        false
    }

    /// Allocate the lowest unused port of the configured range.
    ///
    /// Fails when the session cap is reached or every port of the
    /// range is held.
    pub fn allocate_port(&self) -> (r: Result<u16, RegistryError>)
        ensures
            self.entries().len() >= self.cap() ==> r == Err::<u16, RegistryError>(
                RegistryError::MaxSessionsReached,
            ),
            r matches Ok(p) ==> {
                &&& self.entries().len() < self.cap()
                &&& self.range_start() <= p <= self.range_end()
                &&& !spec_port_used(self.entries(), p as int)
                &&& forall|q: int|
                    self.range_start() <= q < p ==> spec_port_used(self.entries(), q)
            },
            self.entries().len() < self.cap() ==> (r is Ok <==> exists|p: int|
                self.range_start() <= p <= self.range_end() && !spec_port_used(
                    self.entries(),
                    p,
                )),
    {
        if self.sessions.len() >= self.max_sessions {
            return Err(RegistryError::MaxSessionsReached);
        }
        let mut p: u32 = self.port_range_start as u32;
        while p <= self.port_range_end as u32
            invariant
                self.range_start() <= p,
                p == self.range_start() || p <= self.range_end() + 1,
                self.entries().len() < self.cap(),
                forall|q: int|
                    self.range_start() <= q < p ==> spec_port_used(self.entries(), q),
            decreases self.range_end() + 1 - p,
        {
            if !self.port_used(p as u16) {
                return Ok(p as u16);
            }
            p += 1;
        }
        Err(RegistryError::NoPortsAvailable)
    }

    /// The registered entries, for listing or persisting.
    pub fn list(&self) -> (r: &Vec<SessionEntry>)
        ensures
            r@ == self.entries(),
    {
        &self.sessions
    }

    /// Number of registered sessions.
    pub fn count(&self) -> (r: usize)
        ensures
            r == self.entries().len(),
    {
        self.sessions.len()
    }
}

/// The idle time of an entry at `now`, under saturating arithmetic:
/// the difference clamped into `[0, i64::MAX]`.
pub open spec fn spec_idle_elapsed(e: SessionEntry, now: int) -> int {
    let d = now - e.created_at;
    if d < 0 {
        0
    } else if d > i64::MAX {
        i64::MAX as int
    } else {
        d
    }
}

/// Whether an entry is idle and has been so longer than the timeout.
pub open spec fn spec_idle_expired(e: SessionEntry, now: int, timeout_secs: int) -> bool {
    e.state is Idle && spec_idle_elapsed(e, now) > timeout_secs
}

/// The usernames of the expired idle entries of `s`, in registry
/// order.
pub open spec fn spec_idle_names(s: Seq<SessionEntry>, now: int, timeout_secs: int) -> Seq<
    Seq<char>,
>
    decreases s.len(),
{
    if s.len() == 0 {
        Seq::empty()
    } else {
        let rest = spec_idle_names(s.drop_last(), now, timeout_secs);
        if spec_idle_expired(s.last(), now, timeout_secs) {
            rest.push(s.last().username@)
        } else {
            rest
        }
    }
}

/// The entries kept on reload: those whose liveness flag is set, in
/// their original order.
pub open spec fn spec_filter_alive(entries: Seq<SessionEntry>, alive: Seq<bool>) -> Seq<
    SessionEntry,
>
    decreases entries.len(),
{
    if entries.len() == 0 {
        Seq::empty()
    } else {
        let rest = spec_filter_alive(entries.drop_last(), alive.drop_last());
        if alive[entries.len() - 1] {
            rest.push(entries.last())
        } else {
            rest
        }
    }
}

/// Every kept entry on reload is one of the saved entries.
proof fn lemma_filter_alive_membership(entries: Seq<SessionEntry>, alive: Seq<bool>)
    requires
        alive.len() == entries.len(),
    ensures
        spec_filter_alive(entries, alive).len() <= entries.len(),
        forall|k: int|
            0 <= k < spec_filter_alive(entries, alive).len() ==> exists|j: int|
                0 <= j < entries.len() && #[trigger] spec_filter_alive(entries, alive)[k]
                    == entries[j],
    decreases entries.len(),
{
    if entries.len() > 0 {
        lemma_filter_alive_membership(entries.drop_last(), alive.drop_last());
        let f = spec_filter_alive(entries, alive);
        let rest = spec_filter_alive(entries.drop_last(), alive.drop_last());
        assert forall|k: int| 0 <= k < f.len() implies exists|j: int|
            0 <= j < entries.len() && #[trigger] f[k] == entries[j] by {
            if k < rest.len() {
                let j = choose|j: int|
                    0 <= j < entries.drop_last().len() && #[trigger] rest[k]
                        == entries.drop_last()[j];
                assert(f[k] == entries[j]);
            } else {
                assert(f[k] == entries[entries.len() - 1]);
            }
        }
    }
}

/// Reloading a state whose processes are all alive restores exactly
/// the saved entries: the round trip of saving and loading the
/// registry is the identity when every pid is still running.
pub proof fn lemma_reload_all_alive(entries: Seq<SessionEntry>, alive: Seq<bool>)
    requires
        alive.len() == entries.len(),
        forall|i: int| 0 <= i < alive.len() ==> alive[i],
    ensures
        spec_filter_alive(entries, alive) == entries,
    decreases entries.len(),
{
    if entries.len() > 0 {
        lemma_reload_all_alive(entries.drop_last(), alive.drop_last());
        assert(spec_filter_alive(entries, alive) =~= entries);
    } else {
        assert(spec_filter_alive(entries, alive) =~= entries);
    }
}

/// In a well-formed registry no two session entries share a port, and
/// the session count never exceeds the configured maximum.
pub proof fn lemma_registry_invariant(r: &SessionRegistry)
    requires
        r.wf(),
    ensures
        forall|i: int, j: int|
            0 <= i < j < r.entries().len() ==> (#[trigger] r.entries()[i]).port != (
            #[trigger] r.entries()[j]).port,
        r.entries().len() <= r.cap(),
{
}

/// Relies on `nix::sys::signal::kill` with the null signal: reports
/// whether a process with the given pid currently exists.  The result
/// depends on the machine's process table, so nothing is promised of
/// it.
#[verifier::external_body]
fn pid_is_alive(pid: u32) -> bool {
    let pid = nix::unistd::Pid::from_raw(pid as i32);
    nix::sys::signal::kill(pid, None).is_ok()
}

/// Relies on `std::time::SystemTime`: seconds since the Unix epoch,
/// saturated into the non-negative `i64` range.
#[verifier::external_body]
pub fn now_unix() -> (r: i64)
    ensures
        r >= 0,
{
    let secs = std::time::SystemTime::now()
        .duration_since(std::time::UNIX_EPOCH)
        .unwrap_or_default()
        .as_secs();
    i64::try_from(secs).unwrap_or(i64::MAX)
}

impl SessionRegistry {
    /// The usernames of sessions that are `Idle` and have exceeded the
    /// given timeout at time `now`.
    pub fn idle_sessions_at(&self, now: i64, timeout_secs: u64) -> (r: Vec<String>)
        ensures
            r@.map_values(|u: String| u@) == spec_idle_names(
                self.entries(),
                now as int,
                timeout_secs as int,
            ),
    {
        let mut out: Vec<String> = Vec::new();
        let n = self.sessions.len();
        let mut i: usize = 0;
        while i < n
            invariant
                0 <= i <= n,
                n == self.entries().len(),
                out@.map_values(|u: String| u@) == spec_idle_names(
                    self.entries().take(i as int),
                    now as int,
                    timeout_secs as int,
                ),
            decreases n - i,
        {
            let e = &self.sessions[i];
            let diff: i128 = (now as i128) - (e.created_at as i128);
            let elapsed: i64 = if diff < 0 {
                0
            } else if diff > (i64::MAX as i128) {
                i64::MAX
            } else {
                diff as i64
            };
            let expired = match e.state {
                SessionStateSerde::Idle => (elapsed as u64) > timeout_secs,
                _ => false,
            };
            if expired {
                out.push(e.username.as_str().to_owned());
            }
            proof {
                assert(self.entries().take(i + 1).drop_last() =~= self.entries().take(i as int));
                assert(self.entries().take(i + 1).last() == self.entries()[i as int]);
                assert(out@.map_values(|u: String| u@) =~= spec_idle_names(
                    self.entries().take(i + 1),
                    now as int,
                    timeout_secs as int,
                ));
            }
            i += 1;
        }
        proof {
            assert(self.entries().take(n as int) =~= self.entries());
        }
        out
    }

    /// The usernames of sessions that are `Idle` and have exceeded the
    /// given timeout, measured against the current clock.
    ///
    /// The clock decides which sessions have expired: whatever time it
    /// reports, the result is exactly the expired idle set at that
    /// time.
    pub fn idle_sessions(&self, timeout_secs: u64) -> (r: Vec<String>)
        ensures
            exists|now: int|
                0 <= now && r@.map_values(|u: String| u@) == spec_idle_names(
                    self.entries(),
                    now,
                    timeout_secs as int,
                ),
    {
        let now = now_unix();
        self.idle_sessions_at(now, timeout_secs)
    }

    /// Restore a saved entry list into an empty registry, keeping
    /// exactly the entries whose liveness flag is set.
    ///
    /// A list written from a well-formed registry has pairwise
    /// distinct usernames and ports and fits the cap, which is what
    /// the preconditions ask.
    pub fn restore_entries(&mut self, mut entries: Vec<SessionEntry>, alive: &Vec<bool>)
        requires
            old(self).wf(),
            old(self).entries().len() == 0,
            alive@.len() == entries@.len(),
            entries@.len() <= old(self).cap(),
            forall|i: int, j: int|
                0 <= i < j < entries@.len() ==> (#[trigger] entries@[i]).username@ != (
                #[trigger] entries@[j]).username@,
            forall|i: int, j: int|
                0 <= i < j < entries@.len() ==> (#[trigger] entries@[i]).port != (
                #[trigger] entries@[j]).port,
        ensures
            final(self).wf(),
            final(self).range_start() == old(self).range_start(),
            final(self).range_end() == old(self).range_end(),
            final(self).cap() == old(self).cap(),
            final(self).entries() == spec_filter_alive(entries@, alive@),
    {
        let ghost orig = entries@;
        let n = entries.len();
        let mut i: usize = 0;
        while i < n
            invariant
                0 <= i <= n,
                n == orig.len() == alive@.len(),
                n <= self.cap(),
                entries@ == orig.skip(i as int),
                self.range_start() == old(self).range_start(),
                self.range_end() == old(self).range_end(),
                self.cap() == old(self).cap(),
                forall|p: int, q: int|
                    0 <= p < q < orig.len() ==> (#[trigger] orig[p]).username@ != (
                    #[trigger] orig[q]).username@,
                forall|p: int, q: int|
                    0 <= p < q < orig.len() ==> (#[trigger] orig[p]).port != (
                    #[trigger] orig[q]).port,
                self.entries() == spec_filter_alive(orig.take(i as int), alive@.take(i as int)),
                self.entries().len() <= i,
                forall|k: int|
                    0 <= k < self.entries().len() ==> exists|j: int|
                        0 <= j < i && #[trigger] self.entries()[k] == orig[j],
            decreases n - i,
        {
            let e = entries.remove(0);
            proof {
                assert(entries@ =~= orig.skip(i + 1));
                assert(e == orig[i as int]);
            }
            let ghost before = self.entries();
            if alive[i] {
                self.sessions.push(e);
                proof {
                    lemma_filter_alive_membership(
                        orig.take(i as int),
                        alive@.take(i as int),
                    );
                    assert forall|k: int| 0 <= k < self.entries().len() implies exists|j: int|
                        0 <= j < i + 1 && #[trigger] self.entries()[k] == orig[j] by {
                        if k < before.len() {
                            let j = choose|j: int|
                                0 <= j < i && #[trigger] before[k] == orig[j];
                            assert(self.entries()[k] == orig[j]);
                        } else {
                            assert(self.entries()[k] == orig[i as int]);
                        }
                    }
                }
            }
            proof {
                assert(orig.take(i + 1).drop_last() =~= orig.take(i as int));
                assert(alive@.take(i + 1).drop_last() =~= alive@.take(i as int));
                assert(orig.take(i + 1).last() == orig[i as int]);
                assert(self.entries() == spec_filter_alive(orig.take(i + 1), alive@.take(i + 1)));
            }
            i += 1;
        }
        proof {
            assert(orig.take(n as int) =~= orig);
            assert(alive@.take(n as int) =~= alive@);
            assert forall|p: int, q: int|
                0 <= p < q < self.entries().len() implies (#[trigger] self.entries()[p]).username@
                != (#[trigger] self.entries()[q]).username@ && self.entries()[p].port
                != self.entries()[q].port by {
                let jp = choose|j: int| 0 <= j < n && #[trigger] self.entries()[p] == orig[j];
                let jq = choose|j: int| 0 <= j < n && #[trigger] self.entries()[q] == orig[j];
                lemma_filter_alive_distinct_indices(orig, alive@, p, q);
            }
        }
    }

    /// Load a saved entry list, probing each entry's pid and dropping
    /// the entries whose process is gone.
    ///
    /// Which entries survive depends on the machine's process table:
    /// whatever the probes report, the result is the saved list
    /// filtered by some set of liveness flags, and the registry is
    /// well-formed.
    pub fn load_state(&mut self, entries: Vec<SessionEntry>)
        requires
            old(self).wf(),
            old(self).entries().len() == 0,
            entries@.len() <= old(self).cap(),
            forall|i: int, j: int|
                0 <= i < j < entries@.len() ==> (#[trigger] entries@[i]).username@ != (
                #[trigger] entries@[j]).username@,
            forall|i: int, j: int|
                0 <= i < j < entries@.len() ==> (#[trigger] entries@[i]).port != (
                #[trigger] entries@[j]).port,
        ensures
            final(self).wf(),
            final(self).range_start() == old(self).range_start(),
            final(self).range_end() == old(self).range_end(),
            final(self).cap() == old(self).cap(),
            exists|alive: Seq<bool>|
                alive.len() == entries@.len() && final(self).entries() == spec_filter_alive(
                    entries@,
                    alive,
                ),
    {
        let mut alive: Vec<bool> = Vec::new();
        let n = entries.len();
        let mut i: usize = 0;
        while i < n
            invariant
                0 <= i <= n,
                n == entries@.len(),
                alive@.len() == i,
            decreases n - i,
        {
            let flag = pid_is_alive(entries[i].pid);
            alive.push(flag);
            i += 1;
        }
        let ghost flags = alive@;
        self.restore_entries(entries, &alive);
        proof {
            assert(flags.len() == entries@.len() && final(self).entries() == spec_filter_alive(
                entries@,
                flags,
            ));
        }
    }
}

/// Two distinct positions of the kept entries come from distinct saved
/// entries, in order.
proof fn lemma_filter_alive_distinct_indices(
    entries: Seq<SessionEntry>,
    alive: Seq<bool>,
    p: int,
    q: int,
)
    requires
        alive.len() == entries.len(),
        0 <= p < q < spec_filter_alive(entries, alive).len(),
        forall|i: int, j: int|
            0 <= i < j < entries.len() ==> (#[trigger] entries[i]).username@ != (
            #[trigger] entries[j]).username@,
        forall|i: int, j: int|
            0 <= i < j < entries.len() ==> (#[trigger] entries[i]).port != (
            #[trigger] entries[j]).port,
    ensures
        spec_filter_alive(entries, alive)[p].username@ != spec_filter_alive(
            entries,
            alive,
        )[q].username@,
        spec_filter_alive(entries, alive)[p].port != spec_filter_alive(entries, alive)[q].port,
    decreases entries.len(),
{
    let f = spec_filter_alive(entries, alive);
    let rest = spec_filter_alive(entries.drop_last(), alive.drop_last());
    if q < rest.len() {
        lemma_filter_alive_distinct_indices(entries.drop_last(), alive.drop_last(), p, q);
    } else {
        // q is the freshly kept last entry; p comes from an earlier one.
        lemma_filter_alive_membership(entries.drop_last(), alive.drop_last());
        let j = choose|j: int|
            0 <= j < entries.drop_last().len() && #[trigger] rest[p] == entries.drop_last()[j];
        assert(f[q] == entries.last());
        assert(f[p] == entries[j]);
        assert(entries[j].username@ != entries[entries.len() - 1].username@);
    }
}

/// When a username is found, it is at the first matching index.
proof fn lemma_find_user_is_first(s: Seq<SessionEntry>, name: Seq<char>)
    ensures
        spec_find_user(s, name) matches Some(i) ==> 0 <= i < s.len() && s[i].username@ == name,
{
    lemma_find_user_from_props(s, name, 0);
}

/// A `None` search result means no entry has the username.
proof fn lemma_find_user_none_means_absent(s: Seq<SessionEntry>, name: Seq<char>)
    ensures
        spec_find_user(s, name) is None ==> forall|i: int|
            0 <= i < s.len() ==> (#[trigger] s[i]).username@ != name,
{
    lemma_find_user_from_props(s, name, 0);
}

proof fn lemma_find_user_from_props(s: Seq<SessionEntry>, name: Seq<char>, from: int)
    requires
        0 <= from,
    ensures
        spec_find_user_from(s, name, from) matches Some(i) ==> from <= i < s.len()
            && s[i].username@ == name,
        spec_find_user_from(s, name, from) is None ==> forall|i: int|
            from <= i < s.len() ==> (#[trigger] s[i]).username@ != name,
    decreases s.len() - from,
{
    if from < s.len() {
        lemma_find_user_from_props(s, name, from + 1);
    }
}

} // verus!
