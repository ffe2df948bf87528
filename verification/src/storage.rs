use vstd::prelude::*;
use crate::base::Base;
use crate::gd::GdModel;
use crate::host::Host;
use crate::ids::HostPointer;
use crate::registry::{find_class, resolve, PluginRegistry};

verus! {

/// Where an instance storage stands in its life.
#[derive(Clone, Copy, Debug, PartialEq, Eq, Structural)]
pub enum Lifecycle {
    /// No host object is associated yet.
    Uninitialized,
    /// The user instance exists and its base handle is wired to the host
    /// object.
    Live,
    /// The host has destroyed the object. Nothing follows this state.
    TornDown,
}

/// What a dispatched method call comes to.
#[derive(Clone, Copy, Debug, PartialEq, Eq, Structural)]
pub enum Dispatch {
    /// The callback with this token serves the method.
    Handled { callback: u64 },
    /// Neither the class nor an ancestor exports the method.
    NotHandled,
}

/// The cell that owns a user instance of type `U` together with the base
/// handle of that instance, and follows the host object from its
/// construction to its destruction.
pub struct InstanceStorage<U> {
    state: Lifecycle,
    base: Option<Base>,
    user: Option<U>,
}

impl<U> InstanceStorage<U> {
    pub closed spec fn state(&self) -> Lifecycle {
        self.state
    }

    /// The base handle of a live storage.
    pub closed spec fn base(&self) -> GdModel {
        self.base.unwrap()@
    }

    /// The user instance of a live storage.
    pub closed spec fn user(&self) -> U {
        self.user.unwrap()
    }

    /// A live storage holds an instance and a base handle; a storage in
    /// another state holds neither.
    pub closed spec fn wf(&self) -> bool {
        &&& self.base.is_some() == (self.state == Lifecycle::Live)
        &&& self.user.is_some() == (self.state == Lifecycle::Live)
    }

    /// A storage that waits for the host to request a construction.
    pub fn new() -> (storage: InstanceStorage<U>)
        ensures
            storage.wf(),
            storage.state() == Lifecycle::Uninitialized,
    {
        InstanceStorage { state: Lifecycle::Uninitialized, base: None, user: None }
    }

    /// The host has constructed an object of the registered class
    /// `class_name` at `ptr`, and `user` is the instance made for it. The
    /// storage becomes live and wires the base handle to the object. The
    /// host only learns that the object now has a storage: its counts and
    /// its record of requests stay as they are. An object takes one storage
    /// only, and only a registered class is constructed.
    pub fn construct(
        &mut self,
        host: &mut Host,
        registry: &PluginRegistry,
        ptr: HostPointer,
        class_name: String,
        user: U,
    )
        requires
            old(self).wf(),
            old(self).state() == Lifecycle::Uninitialized,
            old(host)@.wf(),
            old(host)@.is_live(ptr),
            !old(host)@.object(ptr).has_storage,
            find_class(registry.classes(), class_name@).is_some(),
        ensures
            final(self).wf(),
            final(self).state() == Lifecycle::Live,
            final(self).user() == user,
            final(self).base() == (GdModel {
                ptr,
                id: old(host)@.object(ptr).id,
                class_name: class_name@,
            }),
            final(host)@ == old(host)@.attach_storage(ptr),
            final(host)@.wf(),
    {
        let base = Base::from_sys(host, ptr, class_name);
        host.attach_storage(ptr);
        self.base = Some(base);
        self.user = Some(user);
        self.state = Lifecycle::Live;
    }

    /// The host says that it has destroyed the object. The storage is torn
    /// down: the user instance leaves it first and is handed to the caller,
    /// then the base handle goes, without a request to the host. The host's
    /// counts and its record of requests stay as they are.
    pub fn on_destroy(&mut self, host: &mut Host) -> (user: U)
        requires
            old(self).wf(),
            old(self).state() == Lifecycle::Live,
            old(host)@.wf(),
            old(host)@.has(old(self).base().ptr),
        ensures
            final(self).wf(),
            final(self).state() == Lifecycle::TornDown,
            user == old(self).user(),
            final(host)@ == old(host)@.notify_destroyed(old(self).base().ptr),
            final(host)@.wf(),
    {
        let user = self.user.take().unwrap();
        let base = self.base.take().unwrap();
        host.notify_destroyed(base.deref().sys());
        self.state = Lifecycle::TornDown;
        user
    }

    /// Where the storage stands in its life.
    pub fn lifecycle(&self) -> (state: Lifecycle)
        ensures
            state == self.state(),
    {
        self.state
    }

    /// The base handle of the instance.
    pub fn base_handle(&self) -> (base: &Base)
        requires
            self.wf(),
            self.state() == Lifecycle::Live,
        ensures
            base@ == self.base(),
    {
        self.base.as_ref().unwrap()
    }

    /// The user instance.
    pub fn instance(&self) -> (user: &U)
        requires
            self.wf(),
            self.state() == Lifecycle::Live,
        ensures
            *user == self.user(),
    {
        self.user.as_ref().unwrap()
    }

    /// Routes a method call of the host to the callback that serves it: the
    /// one that the class of the instance exports, else the one of its
    /// nearest ancestor that does. Where there is none the call is not
    /// handled. The storage is only read.
    pub fn dispatch(&self, registry: &PluginRegistry, method_id: u64) -> (outcome: Dispatch)
        requires
            self.wf(),
            self.state() == Lifecycle::Live,
        ensures
            outcome == match resolve(registry.classes(), self.base().class_name, method_id) {
                Some(callback) => (Dispatch::Handled { callback }),
                None => Dispatch::NotHandled,
            },
    {
        let class_name = self.base.as_ref().unwrap().deref().class_name();
        match registry.resolve_method(class_name, method_id) {
            Some(callback) => Dispatch::Handled { callback },
            None => Dispatch::NotHandled,
        }
    }
}

} // verus!
