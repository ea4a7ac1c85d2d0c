//! The orchestration state: the instance registry, the port book, and the
//! snapshot/restore of persistent instance definitions.
//!
//! The registry keeps instances in registration order and never admits two
//! with the same id. The port book records every allocated port once; the
//! allocator scans a fixed candidate range in ascending order. A snapshot
//! keeps only persistent definitions, with live status stripped; a restore
//! rebuilds a well-formed daemon from whatever definitions were persisted.

use crate::errors::CloudError;
use crate::instance::Instance;
use crate::instance::spec_reset;
use vstd::prelude::*;

verus! {

/// First port of the candidate range the allocator scans.
pub const PORT_RANGE_START: u16 = 25570;

/// One past the last port of the candidate range.
pub const PORT_RANGE_END: u16 = 25590;

/// Whether `p` lies in the allocator's candidate range.
pub open spec fn port_in_range(p: u16) -> bool {
    PORT_RANGE_START <= p && p < PORT_RANGE_END
}

/// Whether some instance of `s` carries the id `id`.
pub open spec fn has_id(s: Seq<Instance>, id: Seq<char>) -> bool {
    exists|j: int| 0 <= j < s.len() && s[j].server_id@ == id
}

/// Whether no two instances of `s` share an id.
pub open spec fn unique_ids(s: Seq<Instance>) -> bool {
    forall|j: int, k: int| 0 <= j < k < s.len() ==> s[j].server_id@ != s[k].server_id@
}

/// Whether `ports` records no port twice.
pub open spec fn no_dup_ports(ports: Seq<u16>) -> bool {
    forall|j: int, k: int| 0 <= j < k < ports.len() ==> ports[j] != ports[k]
}

/// The registry after a registration attempt: unchanged if the id is
/// already present, extended at the end otherwise.
pub open spec fn spec_register(s: Seq<Instance>, inst: Instance) -> Seq<Instance> {
    if has_id(s, inst.server_id@) {
        s
    } else {
        s.push(inst)
    }
}

/// The first free candidate port at or above `p`: the least port of
/// `[p, PORT_RANGE_END)` that `used` does not record, if any.
pub open spec fn first_free(used: Seq<u16>, p: u16) -> Option<u16>
    decreases PORT_RANGE_END as int - p as int,
{
    if p >= PORT_RANGE_END {
        None
    } else if !used.contains(p) {
        Some(p)
    } else {
        first_free(used, (p + 1) as u16)
    }
}

/// The persistent definitions of `s`, in order, each with live status
/// stripped: what a snapshot holds.
pub open spec fn spec_snapshot(s: Seq<Instance>) -> Seq<Instance>
    decreases s.len(),
{
    if s.len() == 0 {
        Seq::empty()
    } else {
        spec_snapshot(s.drop_last()) + (if s.last().is_persistent {
            seq![spec_reset(s.last())]
        } else {
            Seq::<Instance>::empty()
        })
    }
}

/// The registry rebuilt from persisted definitions: each definition in
/// order, live status reset, and any definition whose id was already
/// restored dropped, so the result is well formed whatever was read.
pub open spec fn spec_restore(defs: Seq<Instance>) -> Seq<Instance>
    decreases defs.len(),
{
    if defs.len() == 0 {
        Seq::empty()
    } else {
        let prev = spec_restore(defs.drop_last());
        if has_id(prev, defs.last().server_id@) {
            prev
        } else {
            prev.push(spec_reset(defs.last()))
        }
    }
}

/// Whether `ports` records exactly the ports of the instances of `s`.
pub open spec fn ports_of(s: Seq<Instance>, ports: Seq<u16>) -> bool {
    forall|q: u16| #[trigger] ports.contains(q) <==> exists|j: int|
        0 <= j < s.len() && s[j].port == q
}

/// A port book extended by a port it does not record still records no
/// port twice.
proof fn lemma_push_keeps_no_dup(ports: Seq<u16>, v: u16)
    requires
        no_dup_ports(ports),
        !ports.contains(v),
    ensures
        no_dup_ports(ports.push(v)),
{
    assert forall|a: int, b: int|
        0 <= a < b < ports.push(v).len() implies ports.push(v)[a] != ports.push(v)[b] by {
        if b == ports.len() {
            if ports[a] == v {
                assert(ports.contains(v));
            }
        }
    }
}

/// Process-wide orchestration state: the registry and the port book.
pub struct Daemon {
    /// The registered instances, in registration order.
    pub server_list: Vec<Instance>,
    /// The ports currently allocated, each recorded once.
    pub used_ports: Vec<u16>,
}

/// Whether `v@.contains(p)`.
fn contains_port(v: &Vec<u16>, p: u16) -> (r: bool)
    ensures
        r == v@.contains(p),
{
    let mut j: usize = 0;
    while j < v.len()
        invariant
            j <= v@.len(),
            forall|k: int| 0 <= k < j ==> v@[k] != p,
        decreases v@.len() - j,
    {
        if v[j] == p {
            return true;
        }
        j = j + 1;
    }
    false
}

impl Default for Daemon {
    /// An empty daemon: no instances, no allocated ports.
    fn default() -> (d: Self)
        ensures
            d.server_list@ == Seq::<Instance>::empty(),
            d.used_ports@ == Seq::<u16>::empty(),
            d.wf(),
    {
        Daemon { server_list: Vec::new(), used_ports: Vec::new() }
    }
}

impl Daemon {
    /// Well-formedness: ids are unique across the registry, and the port
    /// book records each port once.
    pub open spec fn wf(&self) -> bool {
        unique_ids(self.server_list@) && no_dup_ports(self.used_ports@)
    }

    /// Registers an instance: refused, with the registry unchanged, if its
    /// id is already present; appended in registration order otherwise.
    pub fn register(&mut self, instance: Instance) -> (r: Result<(), CloudError>)
        ensures
            final(self).used_ports == old(self).used_ports,
            final(self).server_list@ == spec_register(old(self).server_list@, instance),
            r is Ok <==> !has_id(old(self).server_list@, instance.server_id@),
            r is Err ==> r == Err::<(), CloudError>(CloudError::InstanceAlreadyExists) && *final(self) == *old(self),
            old(self).wf() ==> final(self).wf(),
    {
        let n = self.server_list.len();
        let mut j: usize = 0;
        while j < n
            invariant
                *self == *old(self),
                n == self.server_list@.len(),
                j <= n,
                forall|k: int|
                    0 <= k < j ==> self.server_list@[k].server_id@ != instance.server_id@,
            decreases n - j,
        {
            if self.server_list[j].server_id == instance.server_id {
                return Err(CloudError::InstanceAlreadyExists);
            }
            j = j + 1;
        }
        self.server_list.push(instance);
        Ok(())
    }

    /// Finds the instance registered under `server_id`: the index of its
    /// first (and, in a well-formed daemon, only) occurrence.
    pub fn get_instance(&self, server_id: &String) -> (r: Option<usize>)
        ensures
            match r {
                Some(j) => j < self.server_list@.len() && self.server_list@[j as int].server_id@
                    == server_id@ && forall|k: int|
                    0 <= k < j ==> self.server_list@[k].server_id@ != server_id@,
                None => !has_id(self.server_list@, server_id@),
            },
    {
        let mut j: usize = 0;
        while j < self.server_list.len()
            invariant
                j <= self.server_list@.len(),
                forall|k: int| 0 <= k < j ==> self.server_list@[k].server_id@ != server_id@,
            decreases self.server_list@.len() - j,
        {
            if self.server_list[j].server_id == *server_id {
                return Some(j);
            }
            j = j + 1;
        }
        None
    }

    /// Whether an instance is registered under `server_id`.
    pub fn has_instance(&self, server_id: &String) -> (r: bool)
        ensures
            r == has_id(self.server_list@, server_id@),
    {
        match self.get_instance(server_id) {
            Some(_) => true,
            None => false,
        }
    }

    /// Allocates the lowest free port of the candidate range at or above
    /// `lo`, marking it used; nothing if that part of the range is
    /// exhausted. The bind probe that defends the book against outside
    /// processes is the control shell's: on a port the probe rejects, the
    /// shell frees it and retries from the next candidate.
    pub fn allocate_port_from(&mut self, lo: u16) -> (r: Option<u16>)
        ensures
            r == first_free(
                old(self).used_ports@,
                if lo < PORT_RANGE_START {
                    PORT_RANGE_START
                } else {
                    lo
                },
            ),
            final(self).server_list == old(self).server_list,
            r is None ==> *final(self) == *old(self),
            r matches Some(p) ==> port_in_range(p) && !old(self).used_ports@.contains(p) && final(self).used_ports@ == old(self).used_ports@.push(p),
            old(self).wf() ==> final(self).wf(),
    {
        let mut p: u16 = if lo < PORT_RANGE_START {
            PORT_RANGE_START
        } else {
            lo
        };
        let ghost start: u16 = p;
        while p < PORT_RANGE_END
            invariant
                *self == *old(self),
                start == (if lo < PORT_RANGE_START {
                    PORT_RANGE_START
                } else {
                    lo
                }),
                PORT_RANGE_START <= start <= p,
                first_free(self.used_ports@, start) == first_free(self.used_ports@, p),
            decreases PORT_RANGE_END as int - p as int,
        {
            if !contains_port(&self.used_ports, p) {
                proof {
                    assert(self.used_ports@ == old(self).used_ports@);
                    assert(first_free(old(self).used_ports@, p) == Some(p));
                    assert(first_free(old(self).used_ports@, start) == Some(p));
                    if no_dup_ports(self.used_ports@) {
                        lemma_push_keeps_no_dup(self.used_ports@, p);
                    }
                }
                self.used_ports.push(p);
                return Some(p);
            }
            proof {
                assert(first_free(self.used_ports@, p) == first_free(
                    self.used_ports@,
                    (p + 1) as u16,
                ));
            }
            p = p + 1;
        }
        proof {
            assert(first_free(self.used_ports@, p) is None);
        }
        None
    }

    /// Allocates the lowest free port of the whole candidate range.
    pub fn allocate_port(&mut self) -> (r: Option<u16>)
        ensures
            r == first_free(old(self).used_ports@, PORT_RANGE_START),
            final(self).server_list == old(self).server_list,
            r is None ==> *final(self) == *old(self),
            r matches Some(p) ==> port_in_range(p) && !old(self).used_ports@.contains(p) && final(self).used_ports@ == old(self).used_ports@.push(p),
            old(self).wf() ==> final(self).wf(),
    {
        self.allocate_port_from(PORT_RANGE_START)
    }

    /// Claims a specific requested port: it must lie in the candidate range
    /// and be free, else the request is refused and nothing changes.
    pub fn claim_port(&mut self, port: u16) -> (r: Result<(), CloudError>)
        ensures
            final(self).server_list == old(self).server_list,
            r is Ok <==> port_in_range(port) && !old(self).used_ports@.contains(port),
            r is Ok ==> final(self).used_ports@ == old(self).used_ports@.push(port),
            r is Err ==> r == Err::<(), CloudError>(CloudError::UnavailablePort) && *final(self)
                == *old(self),
            old(self).wf() ==> final(self).wf(),
    {
        if port < PORT_RANGE_START || port >= PORT_RANGE_END {
            return Err(CloudError::UnavailablePort);
        }
        if contains_port(&self.used_ports, port) {
            return Err(CloudError::UnavailablePort);
        }
        self.used_ports.push(port);
        Ok(())
    }

    /// Frees a port: afterwards the book does not record it, whatever it
    /// recorded before, so freeing twice is the same as freeing once.
    pub fn free_port(&mut self, port: u16)
        ensures
            final(self).server_list == old(self).server_list,
            forall|q: u16| #[trigger]
                final(self).used_ports@.contains(q) <==> (old(self).used_ports@.contains(q) && q
                    != port),
            old(self).wf() ==> final(self).wf(),
    {
        let n = self.used_ports.len();
        let mut kept: Vec<u16> = Vec::new();
        let mut j: usize = 0;
        while j < n
            invariant
                *self == *old(self),
                n == self.used_ports@.len(),
                j <= n,
                forall|q: u16| #[trigger]
                    kept@.contains(q) <==> (self.used_ports@.take(j as int).contains(q) && q
                        != port),
                no_dup_ports(self.used_ports@) ==> no_dup_ports(kept@),
            decreases n - j,
        {
            broadcast use vstd::seq_lib::lemma_seq_contains_after_push;

            let v = self.used_ports[j];
            let ghost pre = self.used_ports@.take(j as int);
            proof {
                assert(self.used_ports@.take(j as int + 1) =~= pre.push(v));
            }
            if v != port {
                proof {
                    if no_dup_ports(self.used_ports@) {
                        if pre.contains(v) {
                            let i = choose|i: int| 0 <= i < pre.len() && pre[i] == v;
                            assert(self.used_ports@[i] == v);
                            assert(self.used_ports@[j as int] == v);
                            assert(false);
                        }
                        assert(!kept@.contains(v));
                        lemma_push_keeps_no_dup(kept@, v);
                    }
                }
                kept.push(v);
            }
            j = j + 1;
        }
        proof {
            assert(self.used_ports@.take(n as int) =~= self.used_ports@);
        }
        self.used_ports = kept;
    }

    /// The snapshot the daemon persists: its persistent instances, in
    /// order, with live status stripped.
    pub fn snapshot(&self) -> (r: Vec<Instance>)
        ensures
            r@ == spec_snapshot(self.server_list@),
    {
        let mut out: Vec<Instance> = Vec::new();
        let mut j: usize = 0;
        proof {
            assert(self.server_list@.take(0) =~= Seq::<Instance>::empty());
        }
        while j < self.server_list.len()
            invariant
                j <= self.server_list@.len(),
                out@ == spec_snapshot(self.server_list@.take(j as int)),
            decreases self.server_list@.len() - j,
        {
            let ghost pre = self.server_list@.take(j as int);
            proof {
                assert(self.server_list@.take(j as int + 1).drop_last() =~= pre);
                assert(self.server_list@.take(j as int + 1).last() == self.server_list@[j as int]);
            }
            let inst = &self.server_list[j];
            if inst.is_persistent {
                out.push(inst.with_status_reset());
                proof {
                    assert(out@ =~= spec_snapshot(pre) + seq![
                        spec_reset(self.server_list@[j as int]),
                    ]);
                }
            } else {
                proof {
                    assert(out@ =~= spec_snapshot(pre) + Seq::<Instance>::empty());
                }
            }
            j = j + 1;
        }
        proof {
            assert(self.server_list@.take(self.server_list@.len() as int) =~= self.server_list@);
        }
        out
    }

    /// Rebuilds a daemon from persisted definitions: live status reset on
    /// every instance, duplicate ids dropped, and the port book holding
    /// exactly the restored instances' ports. Never fails: whatever was
    /// read back yields a well-formed daemon.
    pub fn restore(defs: &Vec<Instance>) -> (d: Daemon)
        ensures
            d.server_list@ == spec_restore(defs@),
            ports_of(d.server_list@, d.used_ports@),
            d.wf(),
    {
        let mut d = Daemon { server_list: Vec::new(), used_ports: Vec::new() };
        let mut j: usize = 0;
        proof {
            assert(defs@.take(0) =~= Seq::<Instance>::empty());
        }
        while j < defs.len()
            invariant
                j <= defs@.len(),
                d.server_list@ == spec_restore(defs@.take(j as int)),
                ports_of(d.server_list@, d.used_ports@),
                d.wf(),
            decreases defs@.len() - j,
        {
            broadcast use vstd::seq_lib::lemma_seq_contains_after_push;

            proof {
                assert(defs@.take(j as int + 1).drop_last() =~= defs@.take(j as int));
                assert(defs@.take(j as int + 1).last() == defs@[j as int]);
            }
            let def = &defs[j];
            if !d.has_instance(&def.server_id) {
                let ghost prev_list = d.server_list@;
                let ghost prev_ports = d.used_ports@;
                let fresh = def.with_status_reset();
                let already = contains_port(&d.used_ports, def.port);
                if !already {
                    proof {
                        lemma_push_keeps_no_dup(d.used_ports@, def.port);
                    }
                    d.used_ports.push(def.port);
                }
                d.server_list.push(fresh);
                proof {
                    // The registry step matches `spec_restore` on the next prefix.
                    assert(d.server_list@ == spec_restore(defs@.take(j as int + 1)));
                    // Ids stay unique: the one appended was not present.
                    assert forall|a: int, b: int|
                        0 <= a < b < d.server_list@.len() implies d.server_list@[a].server_id@
                        != d.server_list@[b].server_id@ by {
                        if b == prev_list.len() {
                            if prev_list[a].server_id@ == fresh.server_id@ {
                                assert(has_id(prev_list, fresh.server_id@));
                            }
                        }
                    }
                    // The port book still records exactly the registry's ports.
                    assert forall|q: u16| #[trigger]
                        d.used_ports@.contains(q) implies exists|k: int|
                        0 <= k < d.server_list@.len() && d.server_list@[k].port == q by {
                        if prev_ports.contains(q) {
                            let k = choose|k: int|
                                0 <= k < prev_list.len() && prev_list[k].port == q;
                            assert(d.server_list@[k].port == q);
                        } else {
                            assert(q == def.port);
                            assert(d.server_list@[prev_list.len() as int].port == q);
                        }
                    }
                    assert forall|q: u16|
                        (exists|k: int|
                            0 <= k < d.server_list@.len() && d.server_list@[k].port
                                == q) implies #[trigger] d.used_ports@.contains(q) by {
                        let k = choose|k: int|
                            0 <= k < d.server_list@.len() && d.server_list@[k].port == q;
                        if k < prev_list.len() {
                            assert(prev_list[k].port == q);
                            assert(prev_ports.contains(q));
                        } else {
                            assert(q == def.port);
                            if already {
                                assert(prev_ports.contains(q));
                            }
                        }
                    }
                }
            }
            j = j + 1;
        }
        proof {
            assert(defs@.take(defs@.len() as int) =~= defs@);
        }
        d
    }
}

/// What an unregistration attempt found.
#[derive(Clone, Copy, Debug, PartialEq, Eq, Structural)]
pub enum UnregisterOutcome {
    /// No instance carries the id: nothing to act on.
    NotFound,
    /// The instance is still started: it must be stopped before removal,
    /// so the registry is left untouched.
    StillStarted,
    /// The instance was removed and its port freed.
    Removed,
}

impl Daemon {
    /// Removes the instance registered under `server_id`, but only once it
    /// is stopped; its port leaves the book with it. A started instance is
    /// never removed, so no port or process claim is orphaned.
    pub fn unregister(&mut self, server_id: &String) -> (r: UnregisterOutcome)
        ensures
            r == UnregisterOutcome::NotFound <==> !has_id(old(self).server_list@, server_id@),
            r == UnregisterOutcome::NotFound ==> *final(self) == *old(self),
            r == UnregisterOutcome::StillStarted ==> *final(self) == *old(self) && (exists|i: int|
                0 <= i < old(self).server_list@.len()
                    && old(self).server_list@[i].server_id@ == server_id@ && old(
                    self,
                ).server_list@[i].started),
            r == UnregisterOutcome::Removed ==> exists|i: int|
                0 <= i < old(self).server_list@.len() && #[trigger] old(
                    self,
                ).server_list@[i].server_id@ == server_id@ && !old(self).server_list@[i].started
                    && final(self).server_list@ == old(self).server_list@.remove(i) && (forall|
                    q: u16,
                |
                    #[trigger] final(self).used_ports@.contains(q) <==> (old(
                        self,
                    ).used_ports@.contains(q) && q != old(self).server_list@[i].port)),
            old(self).wf() ==> final(self).wf(),
    {
        let found = self.get_instance(server_id);
        match found {
            None => UnregisterOutcome::NotFound,
            Some(i) => {
                if self.server_list[i].started {
                    UnregisterOutcome::StillStarted
                } else {
                    let removed = self.server_list.remove(i);
                    self.free_port(removed.port);
                    proof {
                        if unique_ids(old(self).server_list@) {
                            assert forall|a: int, b: int|
                                0 <= a < b < self.server_list@.len() implies self.server_list@[a].server_id@
                                != self.server_list@[b].server_id@ by {
                                assert(self.server_list@ == old(self).server_list@.remove(i as int));
                                let s0 = old(self).server_list@;
                                let a0: int = if a < i { a } else { a + 1 };
                                let b0: int = if b < i { b } else { b + 1 };
                                assert(self.server_list@[a] == s0[a0]);
                                assert(self.server_list@[b] == s0[b0]);
                            }
                        }
                    }
                    UnregisterOutcome::Removed
                }
            },
        }
    }
}

/// Law: registration never erases an id: an id present in the registry is
/// still present after any registration attempt.
pub proof fn lemma_register_keeps_ids(s: Seq<Instance>, inst: Instance, id: Seq<char>)
    requires
        has_id(s, id),
    ensures
        has_id(spec_register(s, inst), id),
{
    let j = choose|j: int| 0 <= j < s.len() && s[j].server_id@ == id;
    if !has_id(s, inst.server_id@) {
        assert(s.push(inst)[j] == s[j]);
    }
}

/// Law: no two registrations with the same id both succeed. Once a
/// registration with a given id has gone through, a second attempt with
/// that id is refused and leaves the registry exactly as it was.
pub proof fn lemma_second_registration_refused(s: Seq<Instance>, first: Instance, second: Instance)
    requires
        !has_id(s, first.server_id@),
        second.server_id@ == first.server_id@,
    ensures
        spec_register(s, first) == s.push(first),
        has_id(spec_register(s, first), second.server_id@),
        spec_register(spec_register(s, first), second) == spec_register(s, first),
{
    assert(s.push(first)[s.len() as int].server_id@ == second.server_id@);
}

/// Law: an allocation never returns a port already recorded used; what it
/// returns lies in the candidate range at or above where the scan began.
pub proof fn lemma_first_free_fresh(used: Seq<u16>, lo: u16)
    requires
        PORT_RANGE_START <= lo,
    ensures
        first_free(used, lo) matches Some(q) ==> port_in_range(q) && !used.contains(q) && lo <= q,
    decreases PORT_RANGE_END as int - lo as int,
{
    if lo < PORT_RANGE_END && used.contains(lo) {
        lemma_first_free_fresh(used, (lo + 1) as u16);
    }
}

/// Law: consecutive allocations are distinct. After an allocation returns
/// `p1` and records it used, no later allocation returns `p1` again while
/// it stays recorded.
pub proof fn lemma_allocations_distinct(used: Seq<u16>, p1: u16, lo2: u16)
    requires
        first_free(used, PORT_RANGE_START) == Some(p1),
        PORT_RANGE_START <= lo2,
    ensures
        first_free(used.push(p1), lo2) != Some(p1),
{
    assert(used.push(p1)[used.len() as int] == p1);
    lemma_first_free_fresh(used.push(p1), lo2);
}

/// Law: exhaustion is deterministic. An allocation scanning from `lo`
/// fails exactly when every candidate at or above `lo` is recorded used.
pub proof fn lemma_alloc_exhaustion(used: Seq<u16>, lo: u16)
    ensures
        first_free(used, lo) is None <==> (forall|q: u16|
            lo <= q < PORT_RANGE_END ==> used.contains(q)),
    decreases PORT_RANGE_END as int - lo as int,
{
    if lo >= PORT_RANGE_END {
    } else if !used.contains(lo) {
        assert(lo <= lo < PORT_RANGE_END && !used.contains(lo));
    } else {
        lemma_alloc_exhaustion(used, (lo + 1) as u16);
    }
}

/// The scan from `lo` lands exactly on `p` when everything below `p` is
/// used and `p` is free.
proof fn lemma_first_free_exact(used: Seq<u16>, lo: u16, p: u16)
    requires
        lo <= p < PORT_RANGE_END,
        !used.contains(p),
        forall|q: u16| lo <= q < p ==> used.contains(q),
    ensures
        first_free(used, lo) == Some(p),
    decreases p as int - lo as int,
{
    if lo < p {
        assert(used.contains(lo));
        lemma_first_free_exact(used, (lo + 1) as u16, p);
    }
}

/// Law: a freed port is not leaked. Once `p` is out of the book, the next
/// allocation succeeds, and if every other candidate is still in use it
/// returns exactly `p`.
pub proof fn lemma_freed_port_reallocatable(used: Seq<u16>, p: u16)
    requires
        port_in_range(p),
        !used.contains(p),
    ensures
        first_free(used, PORT_RANGE_START) is Some,
        (forall|q: u16| port_in_range(q) && q != p ==> used.contains(q)) ==> first_free(
            used,
            PORT_RANGE_START,
        ) == Some(p),
{
    lemma_alloc_exhaustion(used, PORT_RANGE_START);
    assert(PORT_RANGE_START <= p < PORT_RANGE_END && !used.contains(p));
    if forall|q: u16| port_in_range(q) && q != p ==> used.contains(q) {
        assert forall|q: u16| PORT_RANGE_START <= q < p implies used.contains(q) by {
            assert(port_in_range(q) && q != p);
        }
        lemma_first_free_exact(used, PORT_RANGE_START, p);
    }
}

/// Law: a port fresh out of the book never collides with a started
/// instance's port. Where every started instance's port is recorded used
/// (the claim-before-start discipline), any port the book does not record
/// - in particular one just handed out by `allocate_port` or admitted by
/// `claim_port`, both of which guarantee it was unrecorded - differs from
/// the port of every started instance, so two started instances never
/// share a port.
pub proof fn lemma_fresh_port_not_started(s: Seq<Instance>, used: Seq<u16>, p: u16)
    requires
        forall|j: int| 0 <= j < s.len() && #[trigger] s[j].started ==> used.contains(s[j].port),
        !used.contains(p),
    ensures
        forall|j: int| 0 <= j < s.len() && #[trigger] s[j].started ==> s[j].port != p,
{
}

/// Law: the save/load round trip. Restoring the snapshot of a registry
/// holding only persistent instances yields the same instances, in the
/// same order, definitions untouched and live status reset.
pub proof fn lemma_snapshot_restore_roundtrip(s: Seq<Instance>)
    requires
        forall|j: int| 0 <= j < s.len() ==> s[j].is_persistent,
        unique_ids(s),
    ensures
        spec_restore(spec_snapshot(s)).len() == s.len(),
        forall|j: int| 0 <= j < s.len() ==> spec_restore(spec_snapshot(s))[j] == spec_reset(s[j]),
    decreases s.len(),
{
    if s.len() == 0 {
    } else {
        let s0 = s.drop_last();
        lemma_snapshot_restore_roundtrip(s0);
        let snap = spec_snapshot(s);
        assert(s.last().is_persistent);
        assert(snap == spec_snapshot(s0) + seq![spec_reset(s.last())]);
        assert(snap.drop_last() =~= spec_snapshot(s0));
        assert(snap.last() == spec_reset(s.last()));
        let r0 = spec_restore(spec_snapshot(s0));
        if has_id(r0, spec_reset(s.last()).server_id@) {
            let k = choose|k: int|
                0 <= k < r0.len() && r0[k].server_id@ == spec_reset(s.last()).server_id@;
            assert(r0[k] == spec_reset(s0[k]));
            assert(s[k].server_id@ == s[s.len() - 1].server_id@);
            assert(false);
        }
        assert(spec_restore(snap) == r0.push(spec_reset(s.last())));
    }
}

} // verus!
