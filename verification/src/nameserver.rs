//! The name server: a table of eight service names and the task ids that
//! registered them.
use vstd::prelude::*;
use crate::task::IpcMessage;
use crate::ipc::{NS_CMD_REGISTER, NS_CMD_LOOKUP, NS_RESP_SUCCESS, NS_RESP_ERROR, le_bytes_u32, put_u32};

verus! {

/// A registered service.
#[derive(Copy, Clone, Debug)]
pub struct ServiceEntry {
    pub name: [u8; 16],
    pub task_id: usize,
}

/// Number of service slots.
pub const MAX_SERVICES: usize = 8;

/// The first slot at index `k` or above that holds a service named `name`.
pub open spec fn first_named(slots: Seq<Option<ServiceEntry>>, name: Seq<u8>, k: int) -> Option<int>
    decreases slots.len() - k,
{
    if k < 0 || k >= slots.len() {
        None
    } else if slots[k] is Some && slots[k]->0.name@ == name {
        Some(k)
    } else {
        first_named(slots, name, k + 1)
    }
}

/// A match found by `first_named` is a slot at or above `k` holding `name`.
pub proof fn lemma_first_named_range(slots: Seq<Option<ServiceEntry>>, name: Seq<u8>, k: int)
    ensures
        match first_named(slots, name, k) {
            Some(i) => 0 <= k <= i < slots.len() && slots[i] is Some && slots[i]->0.name@ == name,
            None => true,
        },
    decreases slots.len() - k,
{
    if 0 <= k < slots.len() && !(slots[k] is Some && slots[k]->0.name@ == name) {
        lemma_first_named_range(slots, name, k + 1);
    }
}

/// The first empty slot at index `k` or above.
pub open spec fn first_free(slots: Seq<Option<ServiceEntry>>, k: int) -> Option<int>
    decreases slots.len() - k,
{
    if k < 0 || k >= slots.len() {
        None
    } else if slots[k] is None {
        Some(k)
    } else {
        first_free(slots, k + 1)
    }
}

/// Registering `name` for `task_id`: the first slot with that name gets the
/// new id; without one, the first empty slot gets the entry; with neither,
/// registration fails and nothing changes.
pub open spec fn register_spec(slots: Seq<Option<ServiceEntry>>, name: [u8; 16], task_id: usize) -> (
    Seq<Option<ServiceEntry>>,
    bool,
) {
    let e = Some(ServiceEntry { name, task_id });
    match first_named(slots, name@, 0) {
        Some(i) => (slots.update(i, e), true),
        None => match first_free(slots, 0) {
            Some(i) => (slots.update(i, e), true),
            None => (slots, false),
        },
    }
}

/// Looking `name` up: the id in the first slot with that name.
pub open spec fn lookup_spec(slots: Seq<Option<ServiceEntry>>, name: Seq<u8>) -> Option<usize> {
    match first_named(slots, name, 0) {
        Some(i) => Some(slots[i]->0.task_id),
        None => None,
    }
}

/// Whether two 16-byte names are equal.
pub fn names_equal(a: &[u8; 16], b: &[u8; 16]) -> (r: bool)
    ensures
        r == (a@ == b@),
{
    let mut i: usize = 0;
    while i < 16
        invariant
            i <= 16,
            forall|k: int| 0 <= k < i ==> a@[k] == b@[k],
        decreases 16 - i,
    {
        if a[i] != b[i] {
            return false;
        }
        i = i + 1;
    }
    assert(a@ =~= b@);
    true
}

/// The service table.
pub struct ServiceTable {
    pub slots: [Option<ServiceEntry>; 8],
}

impl ServiceTable {
    /// No name is registered twice.
    pub open spec fn wf(&self) -> bool {
        unique_names(self.slots@)
    }

    /// An empty table.
    pub fn new() -> (r: Self)
        ensures
            forall|i: int| 0 <= i < 8 ==> #[trigger] r.slots@[i] is None,
            r.wf(),
    {
        let r = ServiceTable { slots: [None; 8] };
        assert(r.wf());
        r
    }

    /// The slot holding `name`, if any.
    fn find(&self, name: &[u8; 16]) -> (r: Option<usize>)
        ensures
            match r {
                Some(i) => first_named(self.slots@, name@, 0) == Some(i as int) && i < 8
                    && self.slots@[i as int] is Some,
                None => first_named(self.slots@, name@, 0) is None,
            },
    {
        proof {
            lemma_first_named_range(self.slots@, name@, 0);
        }
        let mut i: usize = 0;
        while i < MAX_SERVICES
            invariant
                i <= 8,
                self.slots@.len() == 8,
                first_named(self.slots@, name@, 0) == first_named(self.slots@, name@, i as int),
            decreases 8 - i,
        {
            if let Some(e) = self.slots[i] {
                if names_equal(&e.name, name) {
                    return Some(i);
                }
            }
            i = i + 1;
        }
        None
    }

    /// Registers `name` for `task_id`: see `register_spec`.
    pub fn register(&mut self, name: [u8; 16], task_id: usize) -> (r: bool)
        ensures
            (final(self).slots@, r) == register_spec(old(self).slots@, name, task_id),
            old(self).wf() ==> final(self).wf(),
    {
        proof {
            if old(self).wf() {
                law_names_stay_unique(old(self).slots@, name, task_id);
            }
        }
        match self.find(&name) {
            Some(i) => {
                self.slots[i] = Some(ServiceEntry { name, task_id });
                true
            },
            None => {
                let mut i: usize = 0;
                while i < MAX_SERVICES
                    invariant
                        i <= 8,
                        self.slots@.len() == 8,
                        self.slots@ == old(self).slots@,
                        first_named(old(self).slots@, name@, 0) is None,
                        first_free(self.slots@, 0) == first_free(self.slots@, i as int),
                        old(self).wf() ==> unique_names(register_spec(old(self).slots@, name, task_id).0),
                    decreases 8 - i,
                {
                    if self.slots[i].is_none() {
                        assert(first_free(self.slots@, i as int) == Some(i as int));
                        self.slots[i] = Some(ServiceEntry { name, task_id });
                        assert(self.slots@ == old(self).slots@.update(
                            i as int,
                            Some(ServiceEntry { name, task_id }),
                        ));
                        assert(first_free(old(self).slots@, 0) == Some(i as int));
                        return true;
                    }
                    i = i + 1;
                }
                false
            },
        }
    }

    /// Looks `name` up: see `lookup_spec`.
    pub fn lookup(&self, name: &[u8; 16]) -> (r: Option<usize>)
        ensures
            r == lookup_spec(self.slots@, name@),
    {
        match self.find(name) {
            Some(i) => match self.slots[i] {
                Some(e) => Some(e.task_id),
                None => None,
            },
            None => None,
        }
    }

    /// Serves one request `msg` of the name-server loop and returns the task
    /// to reply to and the reply.  A registration takes the name from
    /// payload bytes 0..16 and the id of the sender, and answers success or
    /// error with length 0; a lookup answers success with the id in payload
    /// bytes 16..20 (length 4), or error; any other command is an error.  The
    /// reply's sender field names the name server (3).
    pub fn handle_request(&mut self, msg: &IpcMessage) -> (r: (usize, IpcMessage))
        ensures
            old(self).wf() ==> final(self).wf(),
            r.0 == msg.sender as usize,
            r.1.sender == 3,
            r.1.reserved == 0,
            ({
                let name = msg.payload@.subrange(0, 16);
                if msg.msg_type == NS_CMD_REGISTER {
                    exists|a: [u8; 16]|
                        a@ == name && {
                            let (s, ok) = register_spec(old(self).slots@, a, msg.sender as usize);
                            &&& final(self).slots@ == s
                            &&& r.1.msg_type == (if ok {
                                NS_RESP_SUCCESS
                            } else {
                                NS_RESP_ERROR
                            })
                            &&& r.1.length == 0
                            &&& r.1.payload@ == Seq::new(32, |i: int| 0u8)
                        }
                } else if msg.msg_type == NS_CMD_LOOKUP {
                    &&& final(self).slots@ == old(self).slots@
                    &&& r.1.length == 4
                    &&& match lookup_spec(old(self).slots@, name) {
                        Some(id) => r.1.msg_type == NS_RESP_SUCCESS && r.1.payload@ == Seq::new(
                            32,
                            |i: int| 0u8,
                        ).update(16, le_bytes_u32(id as u32)[0]).update(
                            17,
                            le_bytes_u32(id as u32)[1],
                        ).update(18, le_bytes_u32(id as u32)[2]).update(
                            19,
                            le_bytes_u32(id as u32)[3],
                        ),
                        None => r.1.msg_type == NS_RESP_ERROR && r.1.payload@ == Seq::new(
                            32,
                            |i: int| 0u8,
                        ),
                    }
                } else {
                    &&& final(self).slots@ == old(self).slots@
                    &&& r.1.msg_type == NS_RESP_ERROR
                    &&& r.1.length == 0
                    &&& r.1.payload@ == Seq::new(32, |i: int| 0u8)
                }
            }),
    {
        let mut name = [0u8; 16];
        let mut i: usize = 0;
        while i < 16
            invariant
                i <= 16,
                forall|k: int| 0 <= k < i ==> #[trigger] name@[k] == msg.payload@[k],
            decreases 16 - i,
        {
            name[i] = msg.payload[i];
            i = i + 1;
        }
        assert(name@ =~= msg.payload@.subrange(0, 16));
        let mut reply = IpcMessage { sender: 3, msg_type: NS_RESP_ERROR, length: 0, reserved: 0, payload: [0u8; 32] };
        assert(reply.payload@ =~= Seq::new(32, |i: int| 0u8));
        if msg.msg_type == NS_CMD_REGISTER {
            let ok = self.register(name, msg.sender as usize);
            if ok {
                reply.msg_type = NS_RESP_SUCCESS;
            }
        } else if msg.msg_type == NS_CMD_LOOKUP {
            reply.length = 4;
            match self.lookup(&name) {
                Some(tid) => {
                    reply.msg_type = NS_RESP_SUCCESS;
                    put_u32(&mut reply.payload, 16, tid as u32);
                },
                None => {},
            }
        }
        (msg.sender as usize, reply)
    }
}

/// Registration is visible to lookup: after a registration that succeeds, a
/// lookup of the same name gives the registered id.
pub proof fn lemma_register_then_lookup(slots: Seq<Option<ServiceEntry>>, name: [u8; 16], task_id: usize)
    requires
        register_spec(slots, name, task_id).1,
    ensures
        lookup_spec(register_spec(slots, name, task_id).0, name@) == Some(task_id),
{
    let s = register_spec(slots, name, task_id).0;
    match first_named(slots, name@, 0) {
        Some(i) => {
            lemma_first_named_range(slots, name@, 0);
            lemma_first_named_update(slots, name@, 0, i, name, task_id);
        },
        None => {
            let i = first_free(slots, 0)->0;
            lemma_first_free_is_free(slots, 0);
            lemma_first_named_insert(slots, name@, 0, i, name, task_id);
        },
    }
}

/// Registration of one name leaves the lookup of every other name as it was.
pub proof fn lemma_register_other(
    slots: Seq<Option<ServiceEntry>>,
    name: [u8; 16],
    task_id: usize,
    other: Seq<u8>,
)
    requires
        other != name@,
    ensures
        lookup_spec(register_spec(slots, name, task_id).0, other) == lookup_spec(slots, other),
{
    let e = Some(ServiceEntry { name, task_id });
    match first_named(slots, name@, 0) {
        Some(i) => {
            lemma_first_named_range(slots, name@, 0);
            lemma_first_named_unmatched_update(slots, other, 0, i, e);
            lemma_first_named_range(slots, other, 0);
        },
        None => match first_free(slots, 0) {
            Some(i) => {
                lemma_first_free_is_free(slots, 0);
                lemma_first_named_unmatched_update(slots, other, 0, i, e);
                lemma_first_named_range(slots, other, 0);
            },
            None => {},
        },
    }
}

/// No two slots hold entries with the same name.
pub open spec fn unique_names(slots: Seq<Option<ServiceEntry>>) -> bool {
    forall|i: int, j: int|
        0 <= i < j < slots.len() && #[trigger] slots[i] is Some && #[trigger] slots[j] is Some
            ==> slots[i]->0.name@ != slots[j]->0.name@
}

/// Without a match from `k` on, no slot at or above `k` holds `name`.
proof fn lemma_first_named_none(slots: Seq<Option<ServiceEntry>>, name: Seq<u8>, k: int)
    requires
        0 <= k,
        first_named(slots, name, k) is None,
    ensures
        forall|i: int| k <= i < slots.len() ==> !(#[trigger] slots[i] is Some && slots[i]->0.name@ == name),
    decreases slots.len() - k,
{
    if k < slots.len() {
        lemma_first_named_none(slots, name, k + 1);
    }
}

/// The table never holds a name twice: registration keeps the names of the
/// slots distinct, so each name is served by exactly one task.
pub proof fn law_names_stay_unique(slots: Seq<Option<ServiceEntry>>, name: [u8; 16], task_id: usize)
    requires
        unique_names(slots),
    ensures
        unique_names(register_spec(slots, name, task_id).0),
{
    let e = Some(ServiceEntry { name, task_id });
    let s = register_spec(slots, name, task_id).0;
    match first_named(slots, name@, 0) {
        Some(k) => {
            lemma_first_named_range(slots, name@, 0);
            assert forall|i: int, j: int|
                0 <= i < j < s.len() && #[trigger] s[i] is Some && #[trigger] s[j] is Some implies s[i]->0.name@
                    != s[j]->0.name@ by {
                if i != k && j != k {
                    assert(slots[i] is Some && slots[j] is Some);
                } else if i == k {
                    assert(slots[j] is Some);
                    assert(slots[i] is Some);
                } else {
                    assert(slots[i] is Some);
                    assert(slots[j] is Some);
                }
            }
        },
        None => match first_free(slots, 0) {
            Some(k) => {
                lemma_first_free_is_free(slots, 0);
                lemma_first_named_none(slots, name@, 0);
                assert forall|i: int, j: int|
                    0 <= i < j < s.len() && #[trigger] s[i] is Some && #[trigger] s[j] is Some implies s[i]->0.name@
                        != s[j]->0.name@ by {
                    if i != k && j != k {
                        assert(slots[i] is Some && slots[j] is Some);
                    } else if i == k {
                        assert(slots[j] is Some);
                    } else {
                        assert(slots[i] is Some);
                    }
                }
            },
            None => {},
        },
    }
}

/// The name server's round trip, on every well-formed table
/// (`ServiceTable::wf`, which `new` establishes and every request keeps):
/// when `name` already has a slot or a slot is free, a registration of `name` by task `t` succeeds (answered with
/// success by `handle_request`); a later lookup of `name`, with no other
/// registration of it in between, finds `t` (answered with success and `t`
/// in payload bytes 16..20), every other name is found as before, and the
/// table still holds each name at most once.
pub proof fn law_register_then_lookup(
    slots: Seq<Option<ServiceEntry>>,
    name: [u8; 16],
    t: usize,
    other: Seq<u8>,
)
    requires
        unique_names(slots),
        first_named(slots, name@, 0) is Some || first_free(slots, 0) is Some,
        other != name@,
    ensures
        register_spec(slots, name, t).1,
        lookup_spec(register_spec(slots, name, t).0, name@) == Some(t),
        lookup_spec(register_spec(slots, name, t).0, other) == lookup_spec(slots, other),
        unique_names(register_spec(slots, name, t).0),
{
    lemma_register_then_lookup(slots, name, t);
    lemma_register_other(slots, name, t, other);
    law_names_stay_unique(slots, name, t);
}

/// A name that no slot holds is not found: its lookup is answered with an
/// error by `handle_request`.
pub proof fn law_unregistered_name_not_found(slots: Seq<Option<ServiceEntry>>, name: Seq<u8>)
    requires
        forall|i: int| 0 <= i < slots.len() ==> !(#[trigger] slots[i] is Some && slots[i]->0.name@ == name),
    ensures
        lookup_spec(slots, name) is None,
{
    lemma_first_named_range(slots, name, 0);
}

/// A name never registered is not found: on the empty table every lookup
/// fails.
pub proof fn law_empty_table_finds_nothing(name: Seq<u8>)
    ensures
        lookup_spec(Seq::new(8, |i: int| None::<ServiceEntry>), name) is None,
        unique_names(Seq::new(8, |i: int| None::<ServiceEntry>)),
{
    let slots = Seq::new(8, |i: int| None::<ServiceEntry>);
    lemma_first_named_range(slots, name, 0);
}

/// Overwriting a slot that does not hold `name` with an entry that does not
/// either keeps the first match of `name`, and the id found there.
proof fn lemma_first_named_unmatched_update(
    slots: Seq<Option<ServiceEntry>>,
    name: Seq<u8>,
    k: int,
    i: int,
    e: Option<ServiceEntry>,
)
    requires
        0 <= k,
        0 <= i < slots.len(),
        !(slots[i] is Some && slots[i]->0.name@ == name),
        !(e is Some && e->0.name@ == name),
    ensures
        first_named(slots.update(i, e), name, k) == first_named(slots, name, k),
    decreases slots.len() - k,
{
    if k < slots.len() {
        lemma_first_named_unmatched_update(slots, name, k + 1, i, e);
    }
}

/// Writing an entry for `name` into the first slot that holds `name` keeps
/// it the first.
proof fn lemma_first_named_update(
    slots: Seq<Option<ServiceEntry>>,
    name: Seq<u8>,
    k: int,
    i: int,
    n: [u8; 16],
    id: usize,
)
    requires
        first_named(slots, name, k) == Some(i),
        n@ == name,
        0 <= k,
    ensures
        first_named(slots.update(i, Some(ServiceEntry { name: n, task_id: id })), name, k) == Some(i),
    decreases slots.len() - k,
{
    lemma_first_named_range(slots, name, k);
    if k < slots.len() && k != i {
        lemma_first_named_update(slots, name, k + 1, i, n, id);
    }
}

/// Writing an entry for `name` into a slot beyond every earlier match makes
/// it the first match when there was none.
proof fn lemma_first_named_insert(
    slots: Seq<Option<ServiceEntry>>,
    name: Seq<u8>,
    k: int,
    i: int,
    n: [u8; 16],
    id: usize,
)
    requires
        first_named(slots, name, k) is None,
        n@ == name,
        0 <= k <= i < slots.len(),
    ensures
        first_named(slots.update(i, Some(ServiceEntry { name: n, task_id: id })), name, k) == Some(i),
    decreases slots.len() - k,
{
    if k != i {
        lemma_first_named_insert(slots, name, k + 1, i, n, id);
    }
}

/// The first free slot is a slot of the table.
proof fn lemma_first_free_is_free(slots: Seq<Option<ServiceEntry>>, k: int)
    requires
        0 <= k,
    ensures
        match first_free(slots, k) {
            Some(i) => k <= i < slots.len() && slots[i] is None,
            None => true,
        },
    decreases slots.len() - k,
{
    if k < slots.len() && slots[k] is Some {
        lemma_first_free_is_free(slots, k + 1);
    }
}

} // verus!
