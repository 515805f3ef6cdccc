use vstd::prelude::*;

use crate::stack::LuaStack;
use crate::value::{LuaVal, LuaValue};

verus! {

/// The fixed diagnostic carried by a callback whose arguments could not be
/// decoded.
pub const WRONG_PARAMS_MSG: &'static str = "wrong parameter types for callback function";

/// The diagnostic for a call aimed at a slot that names no callable.
pub const INVALID_SLOT_MSG: &'static str = "attempt to call an invalid native slot";

/// Why a callback invocation failed before it produced return values.
///
/// The interpreter converts this into its own runtime error: the failed
/// call unwinds out of the script that made it, and script execution
/// reports the message.
#[derive(Debug)]
pub struct CallbackError {
    pub message: String,
}

impl CallbackError {
    /// The error raised when the arguments on the stack do not match the
    /// callable's declared parameter types or arity.
    pub fn wrong_params() -> (r: CallbackError)
        ensures
            r.message@ == WRONG_PARAMS_MSG@,
    {
        CallbackError { message: WRONG_PARAMS_MSG.to_owned() }
    }

    /// The error raised when a call aims at a slot that holds no
    /// callable.
    pub fn invalid_slot() -> (r: CallbackError)
        ensures
            r.message@ == INVALID_SLOT_MSG@,
    {
        CallbackError { message: INVALID_SLOT_MSG.to_owned() }
    }
}

/// The marshaling scope that exists only while a callback invocation is
/// encoding its return values.
///
/// Some value shapes — an outcome that may carry a failure message — are
/// meaningful only as a callback's result. They become encodable through
/// this type alone, and nothing outside the trampoline can construct it,
/// so such values cannot be produced anywhere else.
///
/// Its view is the sequence of return slots written so far.
pub struct InsideCallback {
    out: LuaStack,
}

impl View for InsideCallback {
    type V = Seq<LuaVal>;

    closed spec fn view(&self) -> Seq<LuaVal> {
        self.out@
    }
}

impl InsideCallback {
    /// A fresh scope with no return slots written. Only the trampoline
    /// opens one.
    pub(crate) fn new() -> (r: InsideCallback)
        ensures
            r@ =~= Seq::<LuaVal>::empty(),
    {
        InsideCallback { out: LuaStack::new() }
    }

    /// Writes one return slot.
    pub(crate) fn push_value(&mut self, v: LuaValue)
        ensures
            final(self)@ =~= old(self)@.push(v@),
    {
        self.out.push(v);
    }

    /// Number of return slots written so far.
    pub fn written(&self) -> (n: usize)
        ensures
            n == self@.len(),
    {
        self.out.len()
    }

    /// Closes the scope, handing back the finished return frame.
    pub(crate) fn into_stack(self) -> (r: LuaStack)
        ensures
            r@ == self@,
    {
        self.out
    }
}

} // verus!
