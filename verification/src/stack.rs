use vstd::prelude::*;

use crate::value::{LuaVal, LuaValue};

verus! {

/// A frame of the interpreter's value stack.
///
/// A host callable sees exactly one such frame per invocation: on entry it
/// holds the call's actual arguments, in order; on a successful return it
/// holds the return values that the callable produced, in order.
pub struct LuaStack {
    slots: Vec<LuaValue>,
}

impl View for LuaStack {
    type V = Seq<LuaVal>;

    closed spec fn view(&self) -> Seq<LuaVal> {
        self.slots@.map(|i: int, v: LuaValue| v@)
    }
}

impl LuaStack {
    /// An empty frame.
    pub fn new() -> (r: LuaStack)
        ensures
            r@ =~= Seq::<LuaVal>::empty(),
    {
        LuaStack { slots: Vec::new() }
    }

    /// Number of slots the frame holds.
    pub fn len(&self) -> (n: usize)
        ensures
            n == self@.len(),
    {
        self.slots.len()
    }

    /// Writes one value into the next free slot.
    pub fn push(&mut self, v: LuaValue)
        ensures
            final(self)@ =~= old(self)@.push(v@),
    {
        self.slots.push(v);
    }

    /// Reads the slot at `i` without consuming it.
    pub fn get(&self, i: usize) -> (r: &LuaValue)
        requires
            i < self@.len(),
        ensures
            r@ == self@[i as int],
    {
        &self.slots[i]
    }

    /// Hands the slots out as a plain vector, in stack order.
    pub fn into_values(self) -> (r: Vec<LuaValue>)
        ensures
            r@.map(|i: int, v: LuaValue| v@) =~= self@,
    {
        self.slots
    }

    /// Builds a frame that holds exactly the given values, in order.
    pub fn from_values(vals: Vec<LuaValue>) -> (r: LuaStack)
        ensures
            r@ =~= vals@.map(|i: int, v: LuaValue| v@),
    {
        LuaStack { slots: vals }
    }
}

} // verus!
