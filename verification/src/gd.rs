use vstd::prelude::*;
use crate::host::{Host, HostModel};
use crate::ids::{HostPointer, InstanceId};
use crate::registry::{inherits, PluginRegistry};
use crate::text::{decimal, decimal_string};

verus! {

/// What a handle holds: the pointer it was made from, the identity of the
/// object, and the class under which the handle presents the object.
pub struct GdModel {
    pub ptr: HostPointer,
    pub id: u64,
    pub class_name: Seq<char>,
}

/// The outcome of a cast that cannot be made.
#[derive(Clone, Copy, Debug, PartialEq, Eq, Structural)]
pub enum CastError {
    /// The target class is not among the ancestors of the object's class.
    TypeMismatch,
}

/// Owning handle to a host object. It stands for one share of the object in
/// the host's count: `clone_handle` takes one more share for the new handle,
/// and `drop_handle` gives this handle's share back.
pub struct Gd {
    ptr: HostPointer,
    id: InstanceId,
    class_name: String,
}

impl View for Gd {
    type V = GdModel;

    closed spec fn view(&self) -> GdModel {
        GdModel { ptr: self.ptr, id: self.id.value, class_name: self.class_name@ }
    }
}

/// The handle points at a live object of `host` and carries its identity.
pub open spec fn handle_valid(handle: GdModel, host: HostModel) -> bool {
    host.is_live(handle.ptr) && host.object(handle.ptr).id == handle.id
}

/// How a handle of kind `kind` (`Gd` or `Base`) renders for debugging: the
/// identity of the object, never its address.
pub open spec fn debug_text(kind: Seq<char>, id: u64) -> Seq<char> {
    kind + " { id: "@ + decimal(id as nat) + " }"@
}

pub(crate) fn render_debug(kind: &str, id: u64) -> (text: String)
    ensures
        text@ == debug_text(kind@, id),
{
    let digits = decimal_string(id);
    String::from_str(kind).concat(" { id: ").concat(digits.as_str()).concat(" }")
}

impl Gd {
    /// Turns a pointer received from the host into a handle, under the class
    /// `class_name`. The host's count is not touched: the handle stands for a
    /// share that already exists and that the caller hands over with the
    /// pointer. A null pointer, or one to no live object, is not accepted.
    pub fn from_obj_sys(host: &Host, ptr: HostPointer, class_name: String) -> (handle: Gd)
        requires
            host@.is_live(ptr),
        ensures
            handle@ == (GdModel { ptr, id: host@.object(ptr).id, class_name: class_name@ }),
            handle@.ptr.addr != 0,
            handle_valid(handle@, host@),
    {
        let id = host.instance_id(ptr);
        Gd { ptr, id, class_name }
    }

    /// Tests the pointer before anything is made of it: a null pointer, or
    /// one to no live object, gives no handle; a pointer to a live object
    /// gives the handle that `from_obj_sys` makes. The host is only read.
    pub fn try_from_obj_sys(host: &Host, ptr: HostPointer, class_name: String) -> (handle: Option<
        Gd,
    >)
        ensures
            handle.is_some() == host@.is_live(ptr),
            ptr.addr == 0 ==> handle.is_none(),
            handle.is_some() ==> handle.unwrap()@ == (GdModel {
                ptr,
                id: host@.object(ptr).id,
                class_name: class_name@,
            }) && handle_valid(handle.unwrap()@, host@),
    {
        if host.is_live(ptr) {
            Some(Gd::from_obj_sys(host, ptr, class_name))
        } else {
            None
        }
    }

    /// Makes one more handle to an object that is already held elsewhere:
    /// the pointer is turned into a handle as by `from_obj_sys`, and the
    /// host's count of the object goes up by one for it.
    pub fn from_sys(host: &mut Host, ptr: HostPointer, class_name: String) -> (handle: Gd)
        requires
            old(host)@.wf(),
            old(host)@.is_live(ptr),
            old(host)@.count(ptr) < u64::MAX,
        ensures
            handle@ == (GdModel { ptr, id: old(host)@.object(ptr).id, class_name: class_name@ }),
            final(host)@ == old(host)@.reference(ptr),
            final(host)@.wf(),
            handle_valid(handle@, final(host)@),
    {
        let handle = Gd::from_obj_sys(host, ptr, class_name);
        host.reference(ptr);
        handle
    }

    /// A second handle to the same object, of the same class. The host's
    /// count of the object goes up by one.
    pub fn clone_handle(&self, host: &mut Host) -> (handle: Gd)
        requires
            old(host)@.wf(),
            handle_valid(self@, old(host)@),
            old(host)@.count(self@.ptr) < u64::MAX,
        ensures
            handle@ == self@,
            final(host)@ == old(host)@.reference(self@.ptr),
            final(host)@.wf(),
            handle_valid(handle@, final(host)@),
    {
        host.reference(self.ptr);
        Gd { ptr: self.ptr, id: self.id, class_name: self.class_name.clone() }
    }

    /// Gives the handle up. The host's count of the object goes down by
    /// one, once; where that was the last share, one deallocation request
    /// follows, and the result is `true`.
    pub fn drop_handle(self, host: &mut Host) -> (freed: bool)
        requires
            old(host)@.wf(),
            handle_valid(self@, old(host)@),
        ensures
            final(host)@ == old(host)@.unreference(self@.ptr),
            final(host)@.wf(),
            freed == (old(host)@.count(self@.ptr) == 1),
    {
        host.unreference(self.ptr)
    }

    /// The identity of the object.
    pub fn instance_id(&self) -> (id: InstanceId)
        ensures
            id.value == self@.id,
    {
        self.id
    }

    /// The pointer to hand back to the host in a call on the object.
    pub fn sys(&self) -> (ptr: HostPointer)
        ensures
            ptr == self@.ptr,
    {
        self.ptr
    }

    /// The class under which the handle presents the object.
    pub fn class_name(&self) -> (name: &String)
        ensures
            name@ == self@.class_name,
    {
        &self.class_name
    }

    /// Presents the object under `target`, an ancestor of the handle's
    /// class. The handle keeps its pointer, its identity and its share.
    pub fn upcast(self, registry: &PluginRegistry, target: String) -> (handle: Gd)
        requires
            inherits(registry.classes(), self@.class_name, target@),
        ensures
            handle@ == (GdModel { class_name: target@, ..self@ }),
    {
        Gd { ptr: self.ptr, id: self.id, class_name: target }
    }

    /// Presents the object under `target` where the class that the object
    /// was created with is `target` or descends from it: the new handle
    /// keeps the pointer, the identity and the share, and the host is left
    /// as it was. Otherwise the cast fails with `TypeMismatch`, no handle
    /// comes back, and the share of the handle that was given is released as
    /// by `drop_handle`.
    pub fn downcast(self, host: &mut Host, registry: &PluginRegistry, target: String) -> (outcome:
        Result<Gd, CastError>)
        requires
            old(host)@.wf(),
            handle_valid(self@, old(host)@),
        ensures
            final(host)@.wf(),
            outcome.is_ok() == inherits(
                registry.classes(),
                old(host)@.object(self@.ptr).class_name,
                target@,
            ),
            outcome.is_ok() ==> outcome.unwrap()@ == (GdModel { class_name: target@, ..self@ })
                && final(host)@ == old(host)@,
            outcome.is_err() ==> outcome == Err::<Gd, CastError>(CastError::TypeMismatch)
                && final(host)@ == old(host)@.unreference(self@.ptr),
    {
        if registry.inherits(host.class_name(self.ptr), &target) {
            Ok(Gd { ptr: self.ptr, id: self.id, class_name: target })
        } else {
            host.unreference(self.ptr);
            Err(CastError::TypeMismatch)
        }
    }

    /// The handle as shown when debugging: `Gd { id: .. }` with the
    /// identity in base ten.
    pub fn debug_string(&self) -> (text: String)
        ensures
            text@ == debug_text("Gd"@, self@.id),
    {
        render_debug("Gd", self.id.value)
    }
}

} // verus!
