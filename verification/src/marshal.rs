use vstd::prelude::*;
use vstd::string::StringSliceAdditionalSpecFns;
use vstd::string::StrSliceExecFns;
use vstd::utf8::encode_utf8;

use crate::callback::InsideCallback;
use crate::stack::LuaStack;
use crate::value::{LuaVal, LuaValue};
use crate::vm::{Lua, NativeMeta};

verus! {

/// Decoding half of the marshaling contract: a host type that can be read
/// back from a sequence of interpreter slots.
///
/// `readable` says which slot sequences decode at all; `read_rel` relates a
/// slot sequence to the host value it decodes to. Decoding is exact: a
/// sequence with too few, too many or wrongly-typed slots is not readable.
pub trait Readable: Sized {
    /// Whether `slots` decode to a value of this type.
    spec fn readable(slots: Seq<LuaVal>) -> bool;

    /// Whether `slots` decode to exactly `v`.
    spec fn read_rel(slots: Seq<LuaVal>, v: Self) -> bool;

    /// A decodable slot sequence decodes to exactly one value.
    proof fn lemma_read_deterministic(slots: Seq<LuaVal>, v1: Self, v2: Self)
        requires
            Self::read_rel(slots, v1),
            Self::read_rel(slots, v2),
        ensures
            v1 == v2,
    ;

    /// `read_rel` only relates readable sequences.
    proof fn lemma_read_rel_readable(slots: Seq<LuaVal>, v: Self)
        requires
            Self::read_rel(slots, v),
        ensures
            Self::readable(slots),
    ;

    /// Decodes one value out of a single slot, if this type occupies
    /// single slots at all.
    fn read_slot(v: &LuaValue) -> (r: Option<Self>)
        ensures
            match r {
                Some(x) => Self::read_rel(seq![v@], x),
                None => !Self::readable(seq![v@]),
            },
    ;

    /// Decodes one value out of the whole frame.
    fn read_from_lua(stack: &LuaStack) -> (r: Option<Self>)
        ensures
            match r {
                Some(x) => Self::read_rel(stack@, x),
                None => !Self::readable(stack@),
            },
    ;
}

impl Readable for i64 {
    open spec fn readable(slots: Seq<LuaVal>) -> bool {
        &&& slots.len() == 1
        &&& slots[0] is Int
    }

    open spec fn read_rel(slots: Seq<LuaVal>, v: Self) -> bool {
        &&& slots.len() == 1
        &&& slots[0] == LuaVal::Int(v as int)
    }

    proof fn lemma_read_deterministic(slots: Seq<LuaVal>, v1: Self, v2: Self) {
    }

    proof fn lemma_read_rel_readable(slots: Seq<LuaVal>, v: Self) {
    }

    fn read_slot(v: &LuaValue) -> (r: Option<Self>) {
        match v {
            LuaValue::Int(n) => Some(*n),
            _ => None,
        }
    }

    fn read_from_lua(stack: &LuaStack) -> (r: Option<Self>) {
        if stack.len() == 1 {
            Self::read_slot(stack.get(0))
        } else {
            None
        }
    }
}

impl Readable for i32 {
    open spec fn readable(slots: Seq<LuaVal>) -> bool {
        &&& slots.len() == 1
        &&& slots[0] matches LuaVal::Int(n) && i32::MIN <= n <= i32::MAX
    }

    open spec fn read_rel(slots: Seq<LuaVal>, v: Self) -> bool {
        &&& slots.len() == 1
        &&& slots[0] == LuaVal::Int(v as int)
    }

    proof fn lemma_read_deterministic(slots: Seq<LuaVal>, v1: Self, v2: Self) {
    }

    proof fn lemma_read_rel_readable(slots: Seq<LuaVal>, v: Self) {
    }

    fn read_slot(v: &LuaValue) -> (r: Option<Self>) {
        match v {
            LuaValue::Int(n) => {
                if *n >= i32::MIN as i64 && *n <= i32::MAX as i64 {
                    Some(*n as i32)
                } else {
                    None
                }
            },
            _ => None,
        }
    }

    fn read_from_lua(stack: &LuaStack) -> (r: Option<Self>) {
        if stack.len() == 1 {
            Self::read_slot(stack.get(0))
        } else {
            None
        }
    }
}

impl Readable for bool {
    open spec fn readable(slots: Seq<LuaVal>) -> bool {
        &&& slots.len() == 1
        &&& slots[0] is Bool
    }

    open spec fn read_rel(slots: Seq<LuaVal>, v: Self) -> bool {
        &&& slots.len() == 1
        &&& slots[0] == LuaVal::Bool(v)
    }

    proof fn lemma_read_deterministic(slots: Seq<LuaVal>, v1: Self, v2: Self) {
    }

    proof fn lemma_read_rel_readable(slots: Seq<LuaVal>, v: Self) {
    }

    fn read_slot(v: &LuaValue) -> (r: Option<Self>) {
        match v {
            LuaValue::Bool(b) => Some(*b),
            _ => None,
        }
    }

    fn read_from_lua(stack: &LuaStack) -> (r: Option<Self>) {
        if stack.len() == 1 {
            Self::read_slot(stack.get(0))
        } else {
            None
        }
    }
}

/// The failure half of an outcome: a type whose value can stand as the
/// human-readable message of a failed callback.
pub trait FailureMessage: Sized {
    /// The message, as the interpreter's byte string.
    spec fn msg_bytes(&self) -> Seq<u8>;

    /// Turns the failure into its message.
    fn into_message(self) -> (b: Vec<u8>)
        ensures
            b@ == self.msg_bytes(),
    ;
}

impl FailureMessage for &str {
    open spec fn msg_bytes(&self) -> Seq<u8> {
        self.spec_bytes()
    }

    fn into_message(self) -> (b: Vec<u8>) {
        self.as_bytes_vec()
    }
}

impl FailureMessage for String {
    open spec fn msg_bytes(&self) -> Seq<u8> {
        encode_utf8(self@)
    }

    fn into_message(self) -> (b: Vec<u8>) {
        self.as_str().as_bytes_vec()
    }
}

/// Encoding half of the marshaling contract for callback results: a host
/// value that a callback may hand back to the interpreter.
///
/// `ret_repr` is the exact sequence of return slots the value encodes to:
/// a scalar is one slot, a tuple is its members' slots in declaration
/// order, and an outcome is its success payload's slots or, on failure,
/// exactly an absent value followed by the failure's message. Encoding a
/// value of one of these types cannot fail.
pub trait CallbackReturn: Sized {
    /// The return slots this value encodes to.
    spec fn ret_repr(self) -> Seq<LuaVal>;

    /// Writes the value's return slots, in order.
    fn push_to_callback(self, ctx: &mut InsideCallback)
        ensures
            final(ctx)@ == old(ctx)@ + self.ret_repr(),
    ;
}

impl CallbackReturn for i64 {
    open spec fn ret_repr(self) -> Seq<LuaVal> {
        seq![LuaVal::Int(self as int)]
    }

    fn push_to_callback(self, ctx: &mut InsideCallback) {
        ctx.push_value(LuaValue::Int(self));
        proof {
            assert(final(ctx)@ =~= old(ctx)@ + self.ret_repr());
        }
    }
}

impl CallbackReturn for i32 {
    open spec fn ret_repr(self) -> Seq<LuaVal> {
        seq![LuaVal::Int(self as int)]
    }

    fn push_to_callback(self, ctx: &mut InsideCallback) {
        ctx.push_value(LuaValue::Int(self as i64));
        proof {
            assert(final(ctx)@ =~= old(ctx)@ + self.ret_repr());
        }
    }
}

impl CallbackReturn for bool {
    open spec fn ret_repr(self) -> Seq<LuaVal> {
        seq![LuaVal::Bool(self)]
    }

    fn push_to_callback(self, ctx: &mut InsideCallback) {
        ctx.push_value(LuaValue::Bool(self));
        proof {
            assert(final(ctx)@ =~= old(ctx)@ + self.ret_repr());
        }
    }
}

impl CallbackReturn for &str {
    open spec fn ret_repr(self) -> Seq<LuaVal> {
        seq![LuaVal::Str(self.spec_bytes())]
    }

    fn push_to_callback(self, ctx: &mut InsideCallback) {
        ctx.push_value(LuaValue::Str(self.as_bytes_vec()));
        proof {
            assert(final(ctx)@ =~= old(ctx)@ + self.ret_repr());
        }
    }
}

impl CallbackReturn for String {
    open spec fn ret_repr(self) -> Seq<LuaVal> {
        seq![LuaVal::Str(encode_utf8(self@))]
    }

    fn push_to_callback(self, ctx: &mut InsideCallback) {
        ctx.push_value(LuaValue::Str(self.as_str().as_bytes_vec()));
        proof {
            assert(final(ctx)@ =~= old(ctx)@ + self.ret_repr());
        }
    }
}

impl<T: CallbackReturn, E: FailureMessage> CallbackReturn for Result<T, E> {
    open spec fn ret_repr(self) -> Seq<LuaVal> {
        match self {
            Ok(v) => v.ret_repr(),
            Err(e) => seq![LuaVal::Nil, LuaVal::Str(e.msg_bytes())],
        }
    }

    fn push_to_callback(self, ctx: &mut InsideCallback) {
        match self {
            Ok(v) => {
                v.push_to_callback(ctx);
            },
            Err(e) => {
                let ghost repr = self.ret_repr();
                ctx.push_value(LuaValue::Nil);
                ctx.push_value(LuaValue::Str(e.into_message()));
                proof {
                    assert(final(ctx)@ =~= old(ctx)@ + repr);
                }
            },
        }
    }
}

/// Encoding half of the marshaling contract for interpreter values: a host
/// value that can be pushed into the interpreter as a single slot, for
/// instance to bind it to a global.
///
/// `pushed_val` is the slot the push produces, as a function of the
/// callables registered so far; `push_effect` says what the push does to
/// the registered callables (a scalar registers nothing; a callable
/// wrapper registers itself). A push never touches the globals and never
/// opens libraries. `push_requires` is what the value asks of its own
/// shape before it may be pushed; for a callable wrapper it asks that the
/// wrapped host function accept every decodable argument tuple.
pub trait Pushable: Sized {
    /// What the value asks before it may be pushed.
    spec fn push_requires(self) -> bool;

    /// The slot the push produces.
    spec fn pushed_val(self, pre: Seq<NativeMeta>) -> LuaVal;

    /// What the push does to the registered callables.
    spec fn push_effect(self, pre: Seq<NativeMeta>, post: Seq<NativeMeta>) -> bool;

    /// Pushes the value, handing back the slot it became.
    fn push_to_lua(self, lua: &mut Lua) -> (v: LuaValue)
        requires
            self.push_requires(),
        ensures
            v@ == self.pushed_val(old(lua)@.natives),
            self.push_effect(old(lua)@.natives, final(lua)@.natives),
            final(lua)@.globals == old(lua)@.globals,
            final(lua)@.libs == old(lua)@.libs,
    ;
}

impl Pushable for i64 {
    open spec fn push_requires(self) -> bool {
        true
    }

    open spec fn pushed_val(self, pre: Seq<NativeMeta>) -> LuaVal {
        LuaVal::Int(self as int)
    }

    open spec fn push_effect(self, pre: Seq<NativeMeta>, post: Seq<NativeMeta>) -> bool {
        post == pre
    }

    fn push_to_lua(self, lua: &mut Lua) -> (v: LuaValue) {
        LuaValue::Int(self)
    }
}

impl Pushable for i32 {
    open spec fn push_requires(self) -> bool {
        true
    }

    open spec fn pushed_val(self, pre: Seq<NativeMeta>) -> LuaVal {
        LuaVal::Int(self as int)
    }

    open spec fn push_effect(self, pre: Seq<NativeMeta>, post: Seq<NativeMeta>) -> bool {
        post == pre
    }

    fn push_to_lua(self, lua: &mut Lua) -> (v: LuaValue) {
        LuaValue::Int(self as i64)
    }
}

impl Pushable for bool {
    open spec fn push_requires(self) -> bool {
        true
    }

    open spec fn pushed_val(self, pre: Seq<NativeMeta>) -> LuaVal {
        LuaVal::Bool(self)
    }

    open spec fn push_effect(self, pre: Seq<NativeMeta>, post: Seq<NativeMeta>) -> bool {
        post == pre
    }

    fn push_to_lua(self, lua: &mut Lua) -> (v: LuaValue) {
        LuaValue::Bool(self)
    }
}

impl Pushable for &str {
    open spec fn push_requires(self) -> bool {
        true
    }

    open spec fn pushed_val(self, pre: Seq<NativeMeta>) -> LuaVal {
        LuaVal::Str(self.spec_bytes())
    }

    open spec fn push_effect(self, pre: Seq<NativeMeta>, post: Seq<NativeMeta>) -> bool {
        post == pre
    }

    fn push_to_lua(self, lua: &mut Lua) -> (v: LuaValue) {
        LuaValue::Str(self.as_bytes_vec())
    }
}

impl Pushable for String {
    open spec fn push_requires(self) -> bool {
        true
    }

    open spec fn pushed_val(self, pre: Seq<NativeMeta>) -> LuaVal {
        LuaVal::Str(encode_utf8(self@))
    }

    open spec fn push_effect(self, pre: Seq<NativeMeta>, post: Seq<NativeMeta>) -> bool {
        post == pre
    }

    fn push_to_lua(self, lua: &mut Lua) -> (v: LuaValue) {
        LuaValue::Str(self.as_str().as_bytes_vec())
    }
}

/// A failure outcome encodes to exactly two return slots: the absent
/// value, then the failure's message — whatever the message is and
/// whatever the success payload's type would have encoded to.
pub proof fn lemma_failure_encodes_two_values<T: CallbackReturn, E: FailureMessage>(e: E)
    ensures
        (Err::<T, E>(e)).ret_repr() =~= seq![LuaVal::Nil, LuaVal::Str(e.msg_bytes())],
        (Err::<T, E>(e)).ret_repr().len() == 2,
{
}

/// A success outcome encodes to exactly its payload's return slots.
pub proof fn lemma_success_encodes_payload<T: CallbackReturn, E: FailureMessage>(v: T)
    ensures
        (Ok::<T, E>(v)).ret_repr() == v.ret_repr(),
{
}

} // verus!
