use vstd::prelude::*;
use crate::ids::{HostPointer, InstanceId};

verus! {

/// A request that the embedding side has issued to the host's counting
/// primitive, named by the identity of the object it concerns.
#[derive(Clone, Copy, Debug, PartialEq, Eq, Structural)]
pub enum HostRequest {
    /// One more share of the object is held.
    Reference { id: u64 },
    /// One share of the object was given up.
    Unreference { id: u64 },
    /// The last share is gone: the host is asked to deallocate the object.
    Free { id: u64 },
}

/// What the host knows of one native object.
pub struct ObjectModel {
    pub id: u64,
    pub class_name: Seq<char>,
    pub count: nat,
    pub alive: bool,
    pub has_storage: bool,
}

/// The host object system as a mathematical value: its objects in the order
/// of their creation (the object at address `a` is `objects[a - 1]`), and the
/// requests received so far, oldest first.
pub struct HostModel {
    pub objects: Seq<ObjectModel>,
    pub log: Seq<HostRequest>,
}

/// How often `r` occurs in `log`.
pub open spec fn occurrences(log: Seq<HostRequest>, r: HostRequest) -> nat
    decreases log.len(),
{
    if log.len() == 0 {
        0
    } else {
        occurrences(log.drop_last(), r) + if log.last() == r {
            1nat
        } else {
            0nat
        }
    }
}

/// Appending one request raises the number of occurrences of that request by
/// one and leaves every other number as it was.
pub proof fn lemma_occurrences_push(log: Seq<HostRequest>, x: HostRequest, r: HostRequest)
    ensures
        occurrences(log.push(x), r) == occurrences(log, r) + if x == r {
            1nat
        } else {
            0nat
        },
{
    assert(log.push(x).drop_last() =~= log);
    assert(log.push(x).last() == x);
}

impl HostModel {
    pub open spec fn has(self, ptr: HostPointer) -> bool {
        1 <= ptr.addr <= self.objects.len()
    }

    pub open spec fn object(self, ptr: HostPointer) -> ObjectModel {
        self.objects[ptr.addr - 1]
    }

    /// The pointer names an object that the host has not destroyed.
    pub open spec fn is_live(self, ptr: HostPointer) -> bool {
        self.has(ptr) && self.object(ptr).alive
    }

    /// The host's count of shares of the object.
    pub open spec fn count(self, ptr: HostPointer) -> nat {
        self.object(ptr).count
    }

    /// Some live object carries this identity.
    pub open spec fn id_in_use(self, id: u64) -> bool {
        exists|i: int|
            0 <= i < self.objects.len() && (#[trigger] self.objects[i]).alive
                && self.objects[i].id == id
    }

    /// How many requests equal to `r` the host has received.
    pub open spec fn requests(self, r: HostRequest) -> nat {
        occurrences(self.log, r)
    }

    /// Every live object is held by at least one share, and no two live
    /// objects carry the same identity.
    pub open spec fn wf(self) -> bool {
        &&& forall|i: int|
            0 <= i < self.objects.len() && (#[trigger] self.objects[i]).alive
                ==> self.objects[i].count >= 1
        &&& forall|i: int, j: int|
            0 <= i < j < self.objects.len() && (#[trigger] self.objects[i]).alive && (
            #[trigger] self.objects[j]).alive ==> self.objects[i].id != self.objects[j].id
    }

    pub open spec fn with_object(self, ptr: HostPointer, o: ObjectModel) -> HostModel {
        HostModel { objects: self.objects.update(ptr.addr - 1, o), log: self.log }
    }

    /// The host allocates an object: it is live, without instance storage,
    /// and its count is 1, a share that the host itself owns.
    pub open spec fn create(self, id: u64, class_name: Seq<char>) -> HostModel {
        HostModel {
            objects: self.objects.push(
                ObjectModel { id, class_name, count: 1, alive: true, has_storage: false },
            ),
            log: self.log,
        }
    }

    /// One increment of the object's count.
    pub open spec fn reference(self, ptr: HostPointer) -> HostModel {
        let o = self.object(ptr);
        HostModel {
            objects: self.objects.update(
                ptr.addr - 1,
                ObjectModel { count: o.count + 1, ..o },
            ),
            log: self.log.push(HostRequest::Reference { id: o.id }),
        }
    }

    /// One decrement of the object's count. Where it takes the count to
    /// zero, a deallocation request follows and the object is no longer live.
    pub open spec fn unreference(self, ptr: HostPointer) -> HostModel {
        let o = self.object(ptr);
        if o.count == 1 {
            HostModel {
                objects: self.objects.update(
                    ptr.addr - 1,
                    ObjectModel { count: 0, alive: false, ..o },
                ),
                log: self.log.push(HostRequest::Unreference { id: o.id }).push(
                    HostRequest::Free { id: o.id },
                ),
            }
        } else {
            HostModel {
                objects: self.objects.update(
                    ptr.addr - 1,
                    ObjectModel { count: (o.count - 1) as nat, ..o },
                ),
                log: self.log.push(HostRequest::Unreference { id: o.id }),
            }
        }
    }

    /// Instance storage is associated with the object. Nothing is requested
    /// of the host.
    pub open spec fn attach_storage(self, ptr: HostPointer) -> HostModel {
        self.with_object(ptr, ObjectModel { has_storage: true, ..self.object(ptr) })
    }

    /// The host has destroyed the object and said so: the object is no
    /// longer live and has no instance storage. Nothing is requested of the
    /// host.
    pub open spec fn notify_destroyed(self, ptr: HostPointer) -> HostModel {
        self.with_object(
            ptr,
            ObjectModel { alive: false, has_storage: false, ..self.object(ptr) },
        )
    }
}

/// One native object as the host keeps it.
pub struct HostObject {
    id: u64,
    class_name: String,
    count: u64,
    alive: bool,
    has_storage: bool,
}

impl HostObject {
    pub closed spec fn model(self) -> ObjectModel {
        ObjectModel {
            id: self.id,
            class_name: self.class_name@,
            count: self.count as nat,
            alive: self.alive,
            has_storage: self.has_storage,
        }
    }
}

/// The host object system: the objects it has allocated, with the count of
/// each, and the record of every request made of its counting primitive.
pub struct Host {
    objects: Vec<HostObject>,
    log: Vec<HostRequest>,
}

impl View for Host {
    type V = HostModel;

    closed spec fn view(&self) -> HostModel {
        HostModel {
            objects: self.objects@.map_values(|o: HostObject| o.model()),
            log: self.log@,
        }
    }
}

impl Host {
    /// A host without objects and without requests.
    pub fn new() -> (host: Host)
        ensures
            host@.objects.len() == 0,
            host@.log.len() == 0,
            host@.wf(),
    {
        Host { objects: Vec::new(), log: Vec::new() }
    }

    /// Whether a live object carries the identity `id`.
    pub fn id_in_use(&self, id: InstanceId) -> (used: bool)
        ensures
            used == self@.id_in_use(id.value),
    {
        let mut i: usize = 0;
        while i < self.objects.len()
            invariant
                i <= self.objects.len(),
                forall|k: int|
                    0 <= k < i ==> !((#[trigger] self@.objects[k]).alive && self@.objects[k].id
                        == id.value),
            decreases self.objects.len() - i,
        {
            if self.objects[i].alive && self.objects[i].id == id.value {
                assert(self@.objects[i as int].alive && self@.objects[i as int].id == id.value);
                return true;
            }
            i += 1;
        }
        false
    }

    /// The host allocates an object of class `class_name` under the identity
    /// `id`. An identity that a live object carries is not handed out again:
    /// then nothing changes and no pointer is returned.
    pub fn create_object(&mut self, id: InstanceId, class_name: String) -> (ptr: Option<
        HostPointer,
    >)
        requires
            old(self)@.wf(),
        ensures
            final(self)@.wf(),
            old(self)@.id_in_use(id.value) ==> ptr.is_none() && final(self)@ == old(self)@,
            !old(self)@.id_in_use(id.value) ==> ptr.is_some() && final(self)@ == old(self)@.create(
                id.value,
                class_name@,
            ) && ptr.unwrap().addr == old(self)@.objects.len() + 1 && final(self)@.is_live(
                ptr.unwrap(),
            ),
    {
        if self.id_in_use(id) {
            return None;
        }
        let ghost before = self@;
        self.objects.push(
            HostObject { id: id.value, class_name, count: 1, alive: true, has_storage: false },
        );
        let addr: usize = self.objects.len();
        proof {
            assert(self@.objects =~= before.create(id.value, class_name@).objects);
            assert forall|i: int, j: int|
                0 <= i < j < self@.objects.len() && (#[trigger] self@.objects[i]).alive && (
                #[trigger] self@.objects[j]).alive implies self@.objects[i].id
                != self@.objects[j].id by {
                if j == before.objects.len() {
                    assert(before.objects[i].alive);
                }
            }
        }
        Some(HostPointer { addr })
    }

    /// Whether the pointer names an object of this host, live or destroyed.
    pub fn has(&self, ptr: HostPointer) -> (known: bool)
        ensures
            known == self@.has(ptr),
    {
        1 <= ptr.addr && ptr.addr <= self.objects.len()
    }

    /// Whether the pointer names an object that the host has not destroyed.
    pub fn is_live(&self, ptr: HostPointer) -> (live: bool)
        ensures
            live == self@.is_live(ptr),
    {
        1 <= ptr.addr && ptr.addr <= self.objects.len() && self.objects[ptr.addr - 1].alive
    }

    /// The identity of the object at `ptr`.
    pub fn instance_id(&self, ptr: HostPointer) -> (id: InstanceId)
        requires
            self@.has(ptr),
        ensures
            id.value == self@.object(ptr).id,
    {
        InstanceId { value: self.objects[ptr.addr - 1].id }
    }

    /// The class that the object at `ptr` was created with.
    pub fn class_name(&self, ptr: HostPointer) -> (name: &String)
        requires
            self@.has(ptr),
        ensures
            name@ == self@.object(ptr).class_name,
    {
        &self.objects[ptr.addr - 1].class_name
    }

    /// The host's count of shares of the object at `ptr`.
    pub fn ref_count(&self, ptr: HostPointer) -> (count: u64)
        requires
            self@.has(ptr),
        ensures
            count == self@.count(ptr),
    {
        self.objects[ptr.addr - 1].count
    }

    /// Whether instance storage is associated with the object at `ptr`.
    pub fn has_storage(&self, ptr: HostPointer) -> (has: bool)
        requires
            self@.has(ptr),
        ensures
            has == self@.object(ptr).has_storage,
    {
        self.objects[ptr.addr - 1].has_storage
    }

    /// The requests received so far, oldest first.
    pub fn requests(&self) -> (log: &Vec<HostRequest>)
        ensures
            log@ == self@.log,
    {
        &self.log
    }

    fn put(&mut self, ptr: HostPointer, count: u64, alive: bool, has_storage: bool)
        requires
            old(self)@.has(ptr),
        ensures
            final(self)@ == old(self)@.with_object(
                ptr,
                ObjectModel { count: count as nat, alive, has_storage, ..old(self)@.object(ptr) },
            ),
    {
        let ghost before = self@;
        let current = &self.objects[ptr.addr - 1];
        let updated = HostObject {
            id: current.id,
            class_name: current.class_name.clone(),
            count,
            alive,
            has_storage,
        };
        self.objects.set(ptr.addr - 1, updated);
        proof {
            assert(self@.objects =~= before.with_object(
                ptr,
                ObjectModel { count: count as nat, alive, has_storage, ..before.object(ptr) },
            ).objects);
        }
    }

    /// Increments the count of the live object at `ptr` and records the
    /// request.
    pub fn reference(&mut self, ptr: HostPointer)
        requires
            old(self)@.wf(),
            old(self)@.is_live(ptr),
            old(self)@.count(ptr) < u64::MAX,
        ensures
            final(self)@ == old(self)@.reference(ptr),
            final(self)@.wf(),
    {
        let o = &self.objects[ptr.addr - 1];
        let id: u64 = o.id;
        let count: u64 = o.count + 1;
        let has_storage = o.has_storage;
        self.put(ptr, count, true, has_storage);
        self.log.push(HostRequest::Reference { id });
    }

    /// Decrements the count of the live object at `ptr` and records the
    /// request. Where the count reaches zero, a deallocation request is
    /// recorded too and the object is no longer live; the result says
    /// whether that happened.
    pub fn unreference(&mut self, ptr: HostPointer) -> (freed: bool)
        requires
            old(self)@.wf(),
            old(self)@.is_live(ptr),
        ensures
            final(self)@ == old(self)@.unreference(ptr),
            final(self)@.wf(),
            freed == (old(self)@.count(ptr) == 1),
    {
        let o = &self.objects[ptr.addr - 1];
        let id: u64 = o.id;
        let count: u64 = o.count;
        let has_storage = o.has_storage;
        if count == 1 {
            self.put(ptr, 0, false, has_storage);
            self.log.push(HostRequest::Unreference { id });
            self.log.push(HostRequest::Free { id });
            true
        } else {
            self.put(ptr, count - 1, true, has_storage);
            self.log.push(HostRequest::Unreference { id });
            false
        }
    }

    /// Records that instance storage now exists for the live object at
    /// `ptr`. Neither the count nor the record of requests changes.
    pub(crate) fn attach_storage(&mut self, ptr: HostPointer)
        requires
            old(self)@.wf(),
            old(self)@.is_live(ptr),
        ensures
            final(self)@ == old(self)@.attach_storage(ptr),
            final(self)@.wf(),
    {
        let o = &self.objects[ptr.addr - 1];
        let count: u64 = o.count;
        self.put(ptr, count, true, true);
    }

    /// Records the host's notification that it has destroyed the object at
    /// `ptr`. Neither the count nor the record of requests changes.
    pub(crate) fn notify_destroyed(&mut self, ptr: HostPointer)
        requires
            old(self)@.wf(),
            old(self)@.has(ptr),
        ensures
            final(self)@ == old(self)@.notify_destroyed(ptr),
            final(self)@.wf(),
    {
        let o = &self.objects[ptr.addr - 1];
        let count: u64 = o.count;
        self.put(ptr, count, false, false);
    }
}

} // verus!
