use vstd::prelude::*;
use crate::gd::{debug_text, handle_valid, render_debug, Gd, GdModel};
use crate::host::Host;
use crate::ids::HostPointer;

verus! {

/// Handle that a user instance holds to the host object it belongs to. It
/// refers to the object as a `Gd` does, but stands for no share: making it
/// asks nothing of the host, and it has no operation that gives a share
/// back. That breaks the cycle from the host object over the instance to
/// the object again.
pub struct Base {
    obj: Gd,
}

impl View for Base {
    type V = GdModel;

    closed spec fn view(&self) -> GdModel {
        self.obj@
    }
}

impl Base {
    /// Wraps the pointer of a freshly associated host object. The host is
    /// only read: its count and its record of requests stay as they are. A
    /// null pointer, or one to no live object, is not accepted.
    pub fn from_sys(host: &Host, base_ptr: HostPointer, class_name: String) -> (base: Base)
        requires
            host@.is_live(base_ptr),
        ensures
            base@ == (GdModel {
                ptr: base_ptr,
                id: host@.object(base_ptr).id,
                class_name: class_name@,
            }),
            base@.ptr.addr != 0,
            handle_valid(base@, host@),
    {
        let obj = Gd::from_obj_sys(host, base_ptr, class_name);
        Base::from_obj(obj)
    }

    /// Tests the pointer before anything is made of it: a null pointer, or
    /// one to no live object, gives no handle; a pointer to a live object
    /// gives the handle that `from_sys` makes. The host is only read.
    pub fn try_from_sys(host: &Host, base_ptr: HostPointer, class_name: String) -> (base: Option<
        Base,
    >)
        ensures
            base.is_some() == host@.is_live(base_ptr),
            base_ptr.addr == 0 ==> base.is_none(),
            base.is_some() ==> base.unwrap()@ == (GdModel {
                ptr: base_ptr,
                id: host@.object(base_ptr).id,
                class_name: class_name@,
            }) && handle_valid(base.unwrap()@, host@),
    {
        match Gd::try_from_obj_sys(host, base_ptr, class_name) {
            Some(obj) => Some(Base::from_obj(obj)),
            None => None,
        }
    }

    /// Holds `obj` as a base handle. The share that `obj` stood for is not
    /// given back by this handle.
    pub fn from_obj(obj: Gd) -> (base: Base)
        ensures
            base@ == obj@,
    {
        Base { obj }
    }

    /// The handle through which the object is used.
    pub fn deref(&self) -> (obj: &Gd)
        ensures
            obj@ == self@,
    {
        &self.obj
    }

    /// The handle for replacing: what the caller leaves in it is what the
    /// base handle holds afterwards.
    pub fn deref_mut(&mut self) -> (obj: &mut Gd)
        ensures
            (*obj)@ == old(self)@,
            final(self)@ == (*final(obj))@,
    {
        &mut self.obj
    }

    /// The handle as shown when debugging: `Base { id: .. }` with the
    /// identity in base ten.
    pub fn debug_string(&self) -> (text: String)
        ensures
            text@ == debug_text("Base"@, self@.id),
    {
        render_debug("Base", self.obj.instance_id().to_u64())
    }
}

} // verus!
