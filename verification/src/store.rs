use vstd::prelude::*;

use crate::callback::CallbackError;
use crate::stack::LuaStack;

verus! {

/// The uniform shape of a registered host callable: the one entry point the
/// interpreter invokes, handing it a frame that holds the call's arguments
/// and receiving the number of return values left in that frame.
///
/// `vm_ready` says that the callable may be handed any argument frame; it
/// must hold when the callable enters the store and is preserved by every
/// invocation, so the store may keep invoking what it holds.
pub trait NativeCallable {
    /// Whether the interpreter may invoke this callable, whatever is on
    /// the argument frame.
    spec fn vm_ready(&self) -> bool;

    /// Invoked by the interpreter. On entry `frame` holds the actual
    /// arguments; on `Ok(n)` it holds exactly the `n` return values.
    fn call_from_vm(&mut self, frame: &mut LuaStack) -> (r: Result<usize, CallbackError>)
        requires
            old(self).vm_ready(),
        ensures
            final(self).vm_ready(),
            r matches Ok(n) ==> final(frame)@.len() == n,
    ;
}

/// Owner of the captured state of every registered host callable.
///
/// Verus cannot declare a collection of trait objects, so the vector of
/// erased callables lives behind this opaque struct; `store_size` names how
/// many callables it holds, and the functions below are the only ways in
/// or out.
#[verifier::external_body]
pub struct ClosureStore {
    items: Vec<Box<dyn NativeCallable>>,
}

/// How many callables the store holds.
pub uninterp spec fn store_size(s: ClosureStore) -> nat;

/// Relies on `Vec::new` only: an empty store holds no callables.
#[verifier::external_body]
pub fn store_new() -> (r: ClosureStore)
    ensures
        store_size(r) == 0,
{
    ClosureStore { items: Vec::new() }
}

/// Relies on `Box::new` and `Vec::push` only: the callable is moved into the
/// store's next free slot and that slot is handed back. Only callables that
/// are `vm_ready` enter the store.
#[verifier::external_body]
pub fn store_push<T: NativeCallable + 'static>(store: &mut ClosureStore, f: T) -> (id: usize)
    requires
        f.vm_ready(),
    ensures
        store_size(*final(store)) == store_size(*old(store)) + 1,
        id == store_size(*old(store)),
{
    store.items.push(Box::new(f));
    store.items.len() - 1
}

/// Relies on `Vec::get_mut` and trait-object dispatch only: the call lands
/// in the `call_from_vm` of the callable stored at `id`, and an out-of-range
/// slot answers with a runtime error instead. Every item entered through
/// `store_push`, which demands `vm_ready`, and `call_from_vm` preserves
/// `vm_ready`; the target is an implementation verified against that
/// trait's contract, which is restated here.
#[verifier::external_body]
pub fn store_call(store: &mut ClosureStore, id: usize, frame: &mut LuaStack) -> (r: Result<
    usize,
    CallbackError,
>)
    ensures
        store_size(*final(store)) == store_size(*old(store)),
        r matches Ok(n) ==> final(frame)@.len() == n,
        id >= store_size(*old(store)) ==> (r matches Err(e)
            && e.message@ == crate::callback::INVALID_SLOT_MSG@),
{
    match store.items.get_mut(id) {
        Some(c) => c.call_from_vm(frame),
        None => Err(CallbackError::invalid_slot()),
    }
}

} // verus!
