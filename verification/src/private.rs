use vstd::prelude::*;
use crate::registry::{ClassPlugin, PluginRegistry};

verus! {

/// Marker that a class gets together with its exported methods. A class
/// without it has no dispatch table to register.
#[allow(non_camel_case_types)]
pub trait You_forgot_the_attribute__godot_api {

}

/// What a failed callback left behind.
pub enum PanicPayload {
    /// A message that was a string literal.
    Literal(String),
    /// A message that was built at run time.
    Message(String),
    /// A value of another type, named by the rendering of its type's
    /// identifier.
    Other(String),
}

/// The line that reports a failed callback.
pub open spec fn panic_line(err: PanicPayload) -> Seq<char> {
    match err {
        PanicPayload::Literal(s) => "rust-panic:  "@ + s@,
        PanicPayload::Message(s) => "rust-panic:  "@ + s@,
        PanicPayload::Other(type_id) => "rust-panic of type ID "@ + type_id@,
    }
}

/// Renders the report of a failure that was caught at the boundary to the
/// host: the message where the payload carries one, else the identifier of
/// the payload's type. The caller writes the line to the host's error log.
pub fn print_panic(err: PanicPayload) -> (line: String)
    ensures
        line@ == panic_line(err),
{
    match err {
        PanicPayload::Literal(s) => String::from_str("rust-panic:  ").concat(s.as_str()),
        PanicPayload::Message(s) => String::from_str("rust-panic:  ").concat(s.as_str()),
        PanicPayload::Other(type_id) => String::from_str("rust-panic of type ID ").concat(
            type_id.as_str(),
        ),
    }
}

/// `states` is what a visitor makes of `entries` when it is called on
/// them one after the other, once each: it starts with the state before the
/// first call, and each later state is the visitor's answer to the state
/// before it and the entry at that place.
pub open spec fn visit_chain<S, F: Fn(S, &ClassPlugin) -> S>(
    visitor: F,
    entries: Seq<ClassPlugin>,
    states: Seq<S>,
) -> bool {
    &&& states.len() == entries.len() + 1
    &&& forall|k: int|
        0 <= k < entries.len() ==> call_ensures(
            visitor,
            (#[trigger] states[k], &entries[k]),
            states[k + 1],
        )
}

/// Ends the registration phase and calls `visitor` on every registered
/// class, in the order of registration. The state that the caller hands in
/// goes into the first call, the answer of each call goes into the next,
/// and the answer of the last call is the result: so the calls are as many
/// as the entries, one on each.
pub fn iterate_plugins<S, F: Fn(S, &ClassPlugin) -> S>(
    registry: &mut PluginRegistry,
    init: S,
    visitor: F,
) -> (last: S)
    requires
        forall|s: S, k: int|
            0 <= k < old(registry).entries().len() ==> #[trigger] call_requires(
                visitor,
                (s, &old(registry).entries()[k]),
            ),
    ensures
        final(registry).sealed(),
        final(registry).entries() == old(registry).entries(),
        exists|states: Seq<S>|
            visit_chain(visitor, old(registry).entries(), states) && states[0] == init
                && states.last() == last,
{
    registry.seal();
    let ghost mut states: Seq<S> = seq![init];
    let mut state = init;
    let mut next: usize = 0;
    while next < registry.len()
        invariant
            next <= registry.entries().len(),
            registry.sealed(),
            registry.entries() == old(registry).entries(),
            forall|s: S, k: int|
                0 <= k < registry.entries().len() ==> #[trigger] call_requires(
                    visitor,
                    (s, &registry.entries()[k]),
                ),
            states.len() == next + 1,
            states[0] == init,
            states[next as int] == state,
            forall|k: int|
                0 <= k < next ==> call_ensures(
                    visitor,
                    (#[trigger] states[k], &registry.entries()[k]),
                    states[k + 1],
                ),
        decreases registry.entries().len() - next,
    {
        state = visitor(state, registry.plugin(next));
        proof {
            states = states.push(state);
        }
        next += 1;
    }
    proof {
        assert(next == registry.entries().len());
        assert(states.last() == state);
        assert(visit_chain(visitor, old(registry).entries(), states) && states[0] == init
            && states.last() == state);
    }
    state
}

} // verus!
