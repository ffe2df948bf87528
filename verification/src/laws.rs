use vstd::prelude::*;
use crate::gd::{handle_valid, GdModel};
use crate::host::{lemma_occurrences_push, HostModel, HostRequest};
use crate::ids::HostPointer;
use crate::private::visit_chain;
use crate::registry::ClassPlugin;

verus! {

/// As long as a handle is valid, the host counts at least one share of the
/// object that it refers to.
pub proof fn law_valid_handle_has_share(host: HostModel, handle: GdModel)
    requires
        host.wf(),
        handle_valid(handle, host),
    ensures
        host.count(handle.ptr) >= 1,
{
}

/// Two live objects never carry the same identity, so an identity names at
/// most one object that can have an instance storage.
pub proof fn law_live_identities_differ(host: HostModel, first: HostPointer, second: HostPointer)
    requires
        host.wf(),
        host.is_live(first),
        host.is_live(second),
        first != second,
    ensures
        host.object(first).id != host.object(second).id,
{
    let i = first.addr - 1;
    let j = second.addr - 1;
    if i < j {
        assert(host.objects[i].alive && host.objects[j].alive);
    } else {
        assert(host.objects[j].alive && host.objects[i].alive);
    }
}

/// Taking one more share of a live object and giving one share back leaves
/// every object of the host, and so every count, as it was before; no
/// deallocation is requested on the way.
pub proof fn law_clone_then_drop_restores_count(host: HostModel, ptr: HostPointer)
    requires
        host.wf(),
        host.is_live(ptr),
    ensures
        host.reference(ptr).unreference(ptr).objects == host.objects,
        host.reference(ptr).unreference(ptr).count(ptr) == host.count(ptr),
        forall|id: u64|
            host.reference(ptr).unreference(ptr).requests(HostRequest::Free { id })
                == host.requests(HostRequest::Free { id }),
{
    let o = host.object(ptr);
    let after = host.reference(ptr).unreference(ptr);
    assert(after.objects =~= host.objects);
    assert forall|id: u64|
        after.requests(HostRequest::Free { id }) == host.requests(HostRequest::Free { id }) by {
        let r = HostRequest::Free { id };
        let first = HostRequest::Reference { id: o.id };
        let second = HostRequest::Unreference { id: o.id };
        lemma_occurrences_push(host.log, first, r);
        lemma_occurrences_push(host.log.push(first), second, r);
    }
}

/// Giving back the last share of a live object requests the deallocation of
/// that object exactly once, and of no other object; afterwards the object
/// is not live, so that no handle can give a share of it back again.
pub proof fn law_last_drop_frees_once(host: HostModel, ptr: HostPointer)
    requires
        host.wf(),
        host.is_live(ptr),
        host.count(ptr) == 1,
    ensures
        host.unreference(ptr).requests(HostRequest::Free { id: host.object(ptr).id })
            == host.requests(HostRequest::Free { id: host.object(ptr).id }) + 1,
        forall|id: u64|
            id != host.object(ptr).id ==> host.unreference(ptr).requests(
                HostRequest::Free { id },
            ) == host.requests(HostRequest::Free { id }),
        !host.unreference(ptr).is_live(ptr),
{
    let o = host.object(ptr);
    let second = HostRequest::Unreference { id: o.id };
    let third = HostRequest::Free { id: o.id };
    assert forall|id: u64|
        host.unreference(ptr).requests(HostRequest::Free { id }) == host.requests(
            HostRequest::Free { id },
        ) + if id == o.id {
            1nat
        } else {
            0nat
        } by {
        let r = HostRequest::Free { id };
        lemma_occurrences_push(host.log, second, r);
        lemma_occurrences_push(host.log.push(second), third, r);
    }
}

/// Giving back a share that is not the last one requests no deallocation,
/// and the object stays live.
pub proof fn law_earlier_drop_frees_nothing(host: HostModel, ptr: HostPointer)
    requires
        host.wf(),
        host.is_live(ptr),
        host.count(ptr) > 1,
    ensures
        forall|id: u64|
            host.unreference(ptr).requests(HostRequest::Free { id }) == host.requests(
                HostRequest::Free { id },
            ),
        host.unreference(ptr).is_live(ptr),
        host.unreference(ptr).count(ptr) == host.count(ptr) - 1,
{
    let o = host.object(ptr);
    assert forall|id: u64|
        host.unreference(ptr).requests(HostRequest::Free { id }) == host.requests(
            HostRequest::Free { id },
        ) by {
        lemma_occurrences_push(
            host.log,
            HostRequest::Unreference { id: o.id },
            HostRequest::Free { id },
        );
    }
}

/// Associating an instance storage with an object and tearing it down on
/// the host's notification asks nothing of the host: the record of requests
/// is the same afterwards, so no decrement and no deallocation request can
/// be laid to the base handle; and no count has changed.
pub proof fn law_storage_issues_no_request(host: HostModel, ptr: HostPointer)
    requires
        host.wf(),
        host.is_live(ptr),
    ensures
        host.attach_storage(ptr).notify_destroyed(ptr).log == host.log,
        forall|r: HostRequest|
            host.attach_storage(ptr).notify_destroyed(ptr).requests(r) == host.requests(r),
        forall|p: HostPointer|
            host.has(p) ==> host.attach_storage(ptr).notify_destroyed(ptr).count(p) == host.count(
                p,
            ),
{
}

/// No host has a live object at the null pointer. A handle is made only
/// from a pointer to a live object, so none is ever made from null.
pub proof fn law_null_is_never_live(host: HostModel)
    ensures
        !host.is_live(HostPointer { addr: 0 }),
{
}

/// Where every call of the visitor adds the entry it was called on to a
/// trace kept in its state, the trace after the first `k` calls is the trace
/// before the first call followed by the first `k` entries.
pub proof fn lemma_trace_after<S, F: Fn(S, &ClassPlugin) -> S>(
    visitor: F,
    entries: Seq<ClassPlugin>,
    states: Seq<S>,
    trace: spec_fn(S) -> Seq<ClassPlugin>,
    k: int,
)
    requires
        visit_chain(visitor, entries, states),
        forall|s: S, p: ClassPlugin, r: S| #[trigger]
            call_ensures(visitor, (s, &p), r) ==> trace(r) == trace(s).push(p),
        0 <= k <= entries.len(),
    ensures
        trace(states[k]) == trace(states[0]) + entries.subrange(0, k),
    decreases k,
{
    if k == 0 {
        assert(trace(states[0]) + entries.subrange(0, 0) =~= trace(states[0]));
    } else {
        lemma_trace_after(visitor, entries, states, trace, k - 1);
        assert(call_ensures(visitor, (states[k - 1], &entries[k - 1]), states[k - 1 + 1]));
        assert(entries.subrange(0, k) =~= entries.subrange(0, k - 1).push(entries[k - 1]));
        assert(trace(states[k]) =~= trace(states[0]) + entries.subrange(0, k));
    }
}

/// A visitor that records each entry it is called on has, after the
/// iteration, recorded the registered entries and nothing else: every entry
/// once, none twice, in the order of registration.
pub proof fn law_visits_are_the_entries<S, F: Fn(S, &ClassPlugin) -> S>(
    visitor: F,
    entries: Seq<ClassPlugin>,
    states: Seq<S>,
    trace: spec_fn(S) -> Seq<ClassPlugin>,
)
    requires
        visit_chain(visitor, entries, states),
        forall|s: S, p: ClassPlugin, r: S| #[trigger]
            call_ensures(visitor, (s, &p), r) ==> trace(r) == trace(s).push(p),
    ensures
        trace(states.last()) == trace(states[0]) + entries,
{
    lemma_trace_after(visitor, entries, states, trace, entries.len() as int);
    assert(entries.subrange(0, entries.len() as int) =~= entries);
}

/// Two iterations with a recording visitor, over catalogues that hold the
/// same descriptions in whatever order, record each description as often:
/// what is visited, and how often, does not depend on the order of
/// registration. Over the same catalogue the two records are the same
/// sequence.
pub proof fn law_visits_do_not_depend_on_order<S, F: Fn(S, &ClassPlugin) -> S>(
    visitor: F,
    first: Seq<ClassPlugin>,
    first_states: Seq<S>,
    second: Seq<ClassPlugin>,
    second_states: Seq<S>,
    trace: spec_fn(S) -> Seq<ClassPlugin>,
)
    requires
        visit_chain(visitor, first, first_states),
        visit_chain(visitor, second, second_states),
        forall|s: S, p: ClassPlugin, r: S| #[trigger]
            call_ensures(visitor, (s, &p), r) ==> trace(r) == trace(s).push(p),
        trace(first_states[0]).len() == 0,
        trace(second_states[0]).len() == 0,
        first.to_multiset() == second.to_multiset(),
    ensures
        trace(first_states.last()) == first,
        trace(second_states.last()) == second,
        trace(first_states.last()).to_multiset() == trace(second_states.last()).to_multiset(),
        first == second ==> trace(first_states.last()) == trace(second_states.last()),
{
    law_visits_are_the_entries(visitor, first, first_states, trace);
    law_visits_are_the_entries(visitor, second, second_states, trace);
    assert(trace(first_states[0]) + first =~= first);
    assert(trace(second_states[0]) + second =~= second);
}

/// Where every call of the visitor raises a count kept in its state by
/// one, the count after the first `k` calls is `k` above the count before
/// the first call.
pub proof fn lemma_count_after<S, F: Fn(S, &ClassPlugin) -> S>(
    visitor: F,
    entries: Seq<ClassPlugin>,
    states: Seq<S>,
    count: spec_fn(S) -> int,
    k: int,
)
    requires
        visit_chain(visitor, entries, states),
        forall|s: S, p: ClassPlugin, r: S| #[trigger]
            call_ensures(visitor, (s, &p), r) ==> count(r) == count(s) + 1,
        0 <= k <= entries.len(),
    ensures
        count(states[k]) == count(states[0]) + k,
    decreases k,
{
    if k > 0 {
        lemma_count_after(visitor, entries, states, count, k - 1);
        assert(call_ensures(visitor, (states[k - 1], &entries[k - 1]), states[k - 1 + 1]));
    }
}

/// A visitor that counts its calls ends the iteration with the number of
/// registered entries: the visitor is called exactly that often.
pub proof fn law_visitor_is_called_once_per_entry<S, F: Fn(S, &ClassPlugin) -> S>(
    visitor: F,
    entries: Seq<ClassPlugin>,
    states: Seq<S>,
    count: spec_fn(S) -> int,
)
    requires
        visit_chain(visitor, entries, states),
        forall|s: S, p: ClassPlugin, r: S| #[trigger]
            call_ensures(visitor, (s, &p), r) ==> count(r) == count(s) + 1,
    ensures
        count(states.last()) == count(states[0]) + entries.len(),
{
    lemma_count_after(visitor, entries, states, count, entries.len() as int);
}

} // verus!
