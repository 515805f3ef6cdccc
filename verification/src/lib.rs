//! A native function bridge for an embedded, dynamically-typed, stack-based
//! interpreter.
//!
//! The host registers ordinary functions and closures of any fixed arity as
//! callables inside the interpreter, and scripts invoke them through the
//! interpreter's uniform calling convention: every call is a frame of
//! dynamically-typed slots with a variable argument count. The bridge wraps
//! a host closure into a uniform callable object ([`Function`]), moves it
//! into interpreter-owned storage when it is pushed, and dispatches each
//! invocation through a per-instantiation [`trampoline`] that decodes the
//! argument frame, invokes the closure, and encodes the result back —
//! including fixed-size tuples as multiple return values and
//! success/failure outcomes as either the payload or the two-value
//! nil-plus-message convention.

use vstd::prelude::*;

pub mod callback;
pub mod functions;
mod interp;
pub mod marshal;
mod script;
pub mod stack;
pub mod store;
pub mod tuples;
pub mod value;
pub mod vm;

pub use callback::{CallbackError, InsideCallback};
pub use functions::{
    function, function0, function1, function10, function2, function3, function4, function5,
    function6, function7, function8, function9, trampoline, Function, FunctionExt,
};
pub use marshal::{CallbackReturn, FailureMessage, Pushable, Readable};
pub use stack::LuaStack;
pub use store::NativeCallable;
pub use value::{BuiltinFn, LuaVal, LuaValue};
pub use vm::{
    ExecutionError, Globals, Index, Lua, LuaModel, NativeMeta, VariableAccessor, VariableLocation,
};
