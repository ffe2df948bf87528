use godot_core::base::Base;
use godot_core::gd::{CastError, Gd};
use godot_core::host::{Host, HostRequest};
use godot_core::ids::{HostPointer, InstanceId};
use godot_core::registry::{ClassPlugin, MethodEntry, PluginRegistry};
use godot_core::storage::{Dispatch, InstanceStorage, Lifecycle};

fn class(name: &str, parent: &str, methods: Vec<MethodEntry>) -> ClassPlugin {
    ClassPlugin {
        class_name: name.to_string(),
        parent_name: parent.to_string(),
        constructor: 0,
        methods,
    }
}

fn family() -> PluginRegistry {
    let mut registry = PluginRegistry::new();
    assert!(registry.register(class("Child", "Parent", vec![])).is_ok());
    assert!(registry.register(class("Parent", "RefCounted", vec![])).is_ok());
    registry
}

fn count_of(host: &Host, request: HostRequest) -> usize {
    host.requests().iter().filter(|r| **r == request).count()
}

#[test]
fn fresh_object_is_live_with_count_one() {
    let mut host = Host::new();
    let ptr = host.create_object(InstanceId::from_u64(7), "Node".to_string()).unwrap();
    assert_eq!(ptr, HostPointer::from_addr(1));
    assert!(host.is_live(ptr));
    assert_eq!(host.ref_count(ptr), 1);
    assert_eq!(host.instance_id(ptr), InstanceId::from_u64(7));
    assert_eq!(host.class_name(ptr), "Node");
    assert!(!host.has_storage(ptr));
    assert!(host.requests().is_empty());
}

#[test]
fn identity_of_a_live_object_is_not_reused() {
    let mut host = Host::new();
    let first = host.create_object(InstanceId::from_u64(7), "Node".to_string()).unwrap();
    assert!(host.id_in_use(InstanceId::from_u64(7)));
    assert_eq!(host.create_object(InstanceId::from_u64(7), "Node".to_string()), None);
    let handle = Gd::from_obj_sys(&host, first, "Node".to_string());
    assert!(handle.drop_handle(&mut host));
    assert!(!host.id_in_use(InstanceId::from_u64(7)));
    let second = host.create_object(InstanceId::from_u64(7), "Node".to_string());
    assert_eq!(second, Some(HostPointer::from_addr(2)));
}

#[test]
fn null_pointer_names_no_live_object() {
    let mut host = Host::new();
    assert!(HostPointer::null().is_null());
    assert!(!host.is_live(HostPointer::null()));
    let ptr = host.create_object(InstanceId::from_u64(1), "Node".to_string()).unwrap();
    assert!(!ptr.is_null());
    assert!(!host.is_live(HostPointer::null()));
    assert!(!host.is_live(HostPointer::from_addr(2)));
    assert!(!host.has(HostPointer::null()));
    assert!(host.has(ptr));
    assert!(!host.has(HostPointer::from_addr(2)));
    let handle = Gd::from_obj_sys(&host, ptr, "Node".to_string());
    assert!(!handle.sys().is_null());
}

#[test]
fn ingestion_does_not_touch_the_count() {
    let mut host = Host::new();
    let ptr = host.create_object(InstanceId::from_u64(9), "Node".to_string()).unwrap();
    let handle = Gd::from_obj_sys(&host, ptr, "Node".to_string());
    assert_eq!(host.ref_count(ptr), 1);
    assert!(host.requests().is_empty());
    assert_eq!(handle.instance_id(), InstanceId::from_u64(9));
    assert_eq!(handle.sys(), ptr);
    assert_eq!(handle.class_name(), "Node");
}

#[test]
fn later_wrap_takes_a_share() {
    let mut host = Host::new();
    let ptr = host.create_object(InstanceId::from_u64(9), "Node".to_string()).unwrap();
    let first = Gd::from_obj_sys(&host, ptr, "Node".to_string());
    let second = Gd::from_sys(&mut host, ptr, "Node".to_string());
    assert_eq!(host.ref_count(ptr), 2);
    assert_eq!(host.requests(), &vec![HostRequest::Reference { id: 9 }]);
    assert_eq!(second.instance_id(), first.instance_id());
    assert!(!second.drop_handle(&mut host));
    assert!(first.drop_handle(&mut host));
}

#[test]
fn clone_then_drop_restores_the_count() {
    let mut host = Host::new();
    let ptr = host.create_object(InstanceId::from_u64(5), "Node".to_string()).unwrap();
    let handle = Gd::from_obj_sys(&host, ptr, "Node".to_string());
    let extra = handle.clone_handle(&mut host);
    let before = host.ref_count(ptr);
    assert_eq!(before, 2);
    let copy = handle.clone_handle(&mut host);
    assert_eq!(host.ref_count(ptr), 3);
    assert_eq!(copy.instance_id(), handle.instance_id());
    assert!(!copy.drop_handle(&mut host));
    assert_eq!(host.ref_count(ptr), before);
    assert_eq!(count_of(&host, HostRequest::Free { id: 5 }), 0);
    assert!(!extra.drop_handle(&mut host));
    assert!(handle.drop_handle(&mut host));
}

#[test]
fn last_drop_requests_one_deallocation() {
    let mut host = Host::new();
    let other = host.create_object(InstanceId::from_u64(1), "Node".to_string()).unwrap();
    let ptr = host.create_object(InstanceId::from_u64(2), "Node".to_string()).unwrap();
    let handle = Gd::from_obj_sys(&host, ptr, "Node".to_string());
    assert!(handle.drop_handle(&mut host));
    assert_eq!(count_of(&host, HostRequest::Free { id: 2 }), 1);
    assert_eq!(count_of(&host, HostRequest::Free { id: 1 }), 0);
    assert_eq!(
        host.requests(),
        &vec![HostRequest::Unreference { id: 2 }, HostRequest::Free { id: 2 }]
    );
    assert!(!host.is_live(ptr));
    assert!(host.has(ptr));
    assert_eq!(host.ref_count(ptr), 0);
    assert!(host.is_live(other));
    assert_eq!(host.ref_count(other), 1);
}

#[test]
fn two_handles_then_teardown() {
    let registry = family();
    let mut host = Host::new();
    let ptr = host.create_object(InstanceId::from_u64(42), "Child".to_string()).unwrap();
    let mut storage: InstanceStorage<u32> = InstanceStorage::new();
    storage.construct(&mut host, &registry, ptr, "Child".to_string(), 11);
    let a = Gd::from_obj_sys(&host, ptr, "Child".to_string());
    assert_eq!(a.instance_id().to_u64(), 42);
    assert_eq!(host.ref_count(ptr), 1);
    let b = a.clone_handle(&mut host);
    assert_eq!(host.ref_count(ptr), 2);
    assert!(!a.drop_handle(&mut host));
    assert_eq!(host.ref_count(ptr), 1);
    assert!(b.drop_handle(&mut host));
    assert_eq!(host.ref_count(ptr), 0);
    assert_eq!(count_of(&host, HostRequest::Free { id: 42 }), 1);
    let requests_before = host.requests().clone();
    let user = storage.on_destroy(&mut host);
    assert_eq!(user, 11);
    assert_eq!(storage.lifecycle(), Lifecycle::TornDown);
    assert_eq!(host.requests(), &requests_before);
    assert_eq!(count_of(&host, HostRequest::Free { id: 42 }), 1);
    assert_eq!(
        requests_before,
        vec![
            HostRequest::Reference { id: 42 },
            HostRequest::Unreference { id: 42 },
            HostRequest::Unreference { id: 42 },
            HostRequest::Free { id: 42 },
        ]
    );
}

#[test]
fn storage_and_base_issue_no_request() {
    let registry = family();
    let mut host = Host::new();
    let ptr = host.create_object(InstanceId::from_u64(3), "Parent".to_string()).unwrap();
    let mut storage: InstanceStorage<String> = InstanceStorage::new();
    assert_eq!(storage.lifecycle(), Lifecycle::Uninitialized);
    storage.construct(&mut host, &registry, ptr, "Parent".to_string(), "user".to_string());
    assert_eq!(storage.lifecycle(), Lifecycle::Live);
    assert!(host.has_storage(ptr));
    assert_eq!(host.ref_count(ptr), 1);
    assert!(host.requests().is_empty());
    assert_eq!(storage.instance(), "user");
    assert_eq!(storage.base_handle().deref().instance_id(), InstanceId::from_u64(3));
    assert_eq!(storage.base_handle().deref().sys(), ptr);
    let user = storage.on_destroy(&mut host);
    assert_eq!(user, "user");
    assert_eq!(storage.lifecycle(), Lifecycle::TornDown);
    assert!(host.requests().is_empty());
    assert_eq!(host.ref_count(ptr), 1);
    assert!(!host.is_live(ptr));
    assert!(!host.has_storage(ptr));
}

#[test]
fn base_renders_identity_only() {
    let mut host = Host::new();
    let _ = host.create_object(InstanceId::from_u64(1), "Node".to_string()).unwrap();
    let ptr = host.create_object(InstanceId::from_u64(42), "Node".to_string()).unwrap();
    let base = Base::from_sys(&host, ptr, "Node".to_string());
    assert_eq!(base.debug_string(), "Base { id: 42 }");
    assert_eq!(base.deref().debug_string(), "Gd { id: 42 }");
    assert_eq!(host.ref_count(ptr), 1);
    assert!(host.requests().is_empty());
    let plain = Base::from_obj(Gd::from_obj_sys(&host, ptr, "Node".to_string()));
    assert_eq!(plain.deref().instance_id(), InstanceId::from_u64(42));
    assert_eq!(plain.debug_string(), "Base { id: 42 }");
}

#[test]
fn base_handle_can_be_replaced() {
    let mut host = Host::new();
    let one = host.create_object(InstanceId::from_u64(10), "Node".to_string()).unwrap();
    let two = host.create_object(InstanceId::from_u64(20), "Node".to_string()).unwrap();
    let mut base = Base::from_sys(&host, one, "Node".to_string());
    *base.deref_mut() = Gd::from_obj_sys(&host, two, "Node".to_string());
    assert_eq!(base.deref().instance_id(), InstanceId::from_u64(20));
    assert_eq!(base.deref().sys(), two);
    assert!(host.requests().is_empty());
}

#[test]
fn downcast_to_unrelated_class_is_a_type_mismatch() {
    let registry = family();
    let mut host = Host::new();
    let ptr = host.create_object(InstanceId::from_u64(8), "Parent".to_string()).unwrap();
    let handle = Gd::from_obj_sys(&host, ptr, "Parent".to_string());
    let keep = handle.clone_handle(&mut host);
    match handle.downcast(&mut host, &registry, "Child".to_string()) {
        Ok(_) => panic!("a Parent is no Child"),
        Err(e) => assert_eq!(e, CastError::TypeMismatch),
    }
    assert_eq!(host.ref_count(ptr), 1);
    assert!(keep.drop_handle(&mut host));
}

#[test]
fn downcast_to_runtime_class_keeps_identity() {
    let registry = family();
    let mut host = Host::new();
    let ptr = host.create_object(InstanceId::from_u64(8), "Child".to_string()).unwrap();
    let handle = Gd::from_obj_sys(&host, ptr, "Child".to_string());
    let up = handle.upcast(&registry, "Parent".to_string());
    assert_eq!(up.class_name(), "Parent");
    assert_eq!(up.instance_id(), InstanceId::from_u64(8));
    let down = match up.downcast(&mut host, &registry, "Child".to_string()) {
        Ok(h) => h,
        Err(_) => panic!("a Child is a Child"),
    };
    assert_eq!(down.instance_id(), InstanceId::from_u64(8));
    assert_eq!(down.sys(), ptr);
    assert_eq!(down.class_name(), "Child");
    assert_eq!(host.ref_count(ptr), 1);
    assert!(host.requests().is_empty());
    let engine = match down.downcast(&mut host, &registry, "RefCounted".to_string()) {
        Ok(h) => h,
        Err(_) => panic!("a Child is a RefCounted"),
    };
    assert_eq!(engine.class_name(), "RefCounted");
}

#[test]
fn dispatch_walks_the_ancestor_chain() {
    let mut registry = PluginRegistry::new();
    let own = vec![MethodEntry { method_id: 1, callback: 100 }];
    let inherited = vec![
        MethodEntry { method_id: 1, callback: 200 },
        MethodEntry { method_id: 2, callback: 201 },
        MethodEntry { method_id: 2, callback: 202 },
    ];
    assert!(registry.register(class("Child", "Parent", own)).is_ok());
    assert!(registry.register(class("Parent", "Node", inherited)).is_ok());
    let mut host = Host::new();
    let ptr = host.create_object(InstanceId::from_u64(4), "Child".to_string()).unwrap();
    let mut storage: InstanceStorage<()> = InstanceStorage::new();
    storage.construct(&mut host, &registry, ptr, "Child".to_string(), ());
    assert_eq!(storage.dispatch(&registry, 1), Dispatch::Handled { callback: 100 });
    assert_eq!(storage.dispatch(&registry, 2), Dispatch::Handled { callback: 201 });
    assert_eq!(storage.dispatch(&registry, 3), Dispatch::NotHandled);
    assert_eq!(storage.lifecycle(), Lifecycle::Live);
    assert!(host.requests().is_empty());
}

#[test]
fn checked_ingestion_refuses_null_and_dead_pointers() {
    let mut host = Host::new();
    assert!(Gd::try_from_obj_sys(&host, HostPointer::null(), "Node".to_string()).is_none());
    assert!(Base::try_from_sys(&host, HostPointer::null(), "Node".to_string()).is_none());
    let ptr = host.create_object(InstanceId::from_u64(6), "Node".to_string()).unwrap();
    assert!(Gd::try_from_obj_sys(&host, HostPointer::from_addr(2), "Node".to_string()).is_none());
    let base = match Base::try_from_sys(&host, ptr, "Node".to_string()) {
        Some(base) => base,
        None => panic!("the object is live"),
    };
    assert_eq!(base.deref().instance_id(), InstanceId::from_u64(6));
    assert_eq!(base.deref().sys(), ptr);
    let handle = match Gd::try_from_obj_sys(&host, ptr, "Node".to_string()) {
        Some(handle) => handle,
        None => panic!("the object is live"),
    };
    assert_eq!(host.ref_count(ptr), 1);
    assert!(host.requests().is_empty());
    assert!(handle.drop_handle(&mut host));
    assert!(Gd::try_from_obj_sys(&host, ptr, "Node".to_string()).is_none());
    assert!(Base::try_from_sys(&host, ptr, "Node".to_string()).is_none());
    assert_eq!(host.requests().len(), 2);
}

#[test]
fn clone_through_base_then_drop_restores_the_count() {
    let mut host = Host::new();
    let ptr = host.create_object(InstanceId::from_u64(12), "Node".to_string()).unwrap();
    let base = Base::from_sys(&host, ptr, "Node".to_string());
    let before = host.ref_count(ptr);
    let copy = base.deref().clone_handle(&mut host);
    assert_eq!(host.ref_count(ptr), before + 1);
    assert_eq!(copy.instance_id(), base.deref().instance_id());
    assert!(!copy.drop_handle(&mut host));
    assert_eq!(host.ref_count(ptr), before);
    assert_eq!(
        host.requests(),
        &vec![HostRequest::Reference { id: 12 }, HostRequest::Unreference { id: 12 }]
    );
}

#[test]
fn base_of_a_parent_cannot_be_cast_down() {
    let registry = family();
    let mut host = Host::new();
    let ptr = host.create_object(InstanceId::from_u64(30), "Parent".to_string()).unwrap();
    let base = Base::from_sys(&host, ptr, "Parent".to_string());
    let probe = base.deref().clone_handle(&mut host);
    assert!(matches!(
        probe.downcast(&mut host, &registry, "Child".to_string()),
        Err(CastError::TypeMismatch)
    ));
    assert_eq!(base.deref().instance_id(), InstanceId::from_u64(30));
    assert_eq!(base.deref().class_name(), "Parent");
    assert_eq!(host.ref_count(ptr), 1);
    assert!(host.is_live(ptr));
}
