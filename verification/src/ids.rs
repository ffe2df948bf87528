use vstd::prelude::*;

verus! {

/// Identity that the host assigns to a native object. It stays the same for
/// the whole life of the object and is not handed to a second live object.
#[derive(Clone, Copy, Debug, PartialEq, Eq, Structural)]
pub struct InstanceId {
    pub value: u64,
}

impl InstanceId {
    pub fn from_u64(value: u64) -> (id: InstanceId)
        ensures
            id.value == value,
    {
        InstanceId { value }
    }

    pub fn to_u64(&self) -> (value: u64)
        ensures
            value == self.value,
    {
        self.value
    }
}

/// Opaque address of host-managed object memory. Address zero is the null
/// pointer; every other address is a token that only the host can interpret.
#[derive(Clone, Copy, Debug, PartialEq, Eq, Structural)]
pub struct HostPointer {
    pub addr: usize,
}

impl HostPointer {
    pub fn null() -> (ptr: HostPointer)
        ensures
            ptr.addr == 0,
    {
        HostPointer { addr: 0 }
    }

    pub fn from_addr(addr: usize) -> (ptr: HostPointer)
        ensures
            ptr.addr == addr,
    {
        HostPointer { addr }
    }

    pub fn is_null(&self) -> (null: bool)
        ensures
            null == (self.addr == 0),
    {
        self.addr == 0
    }
}

} // verus!
