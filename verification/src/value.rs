use vstd::prelude::*;

verus! {

/// Identifies one of the interpreter's built-in functions.
#[derive(Clone, Copy, PartialEq, Eq, Structural)]
pub enum BuiltinFn {
    /// `assert(v)`: raises a runtime error when `v` is `nil` or `false`.
    Assert,
}

/// Mathematical model of a single value held by the embedded interpreter.
///
/// Strings are byte strings, as in the interpreted language; a `Native`
/// value names a registered host callable by its slot in the closure store,
/// and a `Builtin` names one of the interpreter's own functions.
pub enum LuaVal {
    Nil,
    Bool(bool),
    Int(int),
    Str(Seq<u8>),
    Native(nat),
    Builtin(BuiltinFn),
}

/// A dynamically-typed value of the embedded interpreter.
pub enum LuaValue {
    Nil,
    Bool(bool),
    Int(i64),
    Str(Vec<u8>),
    Native(usize),
    Builtin(BuiltinFn),
}

impl View for LuaValue {
    type V = LuaVal;

    open spec fn view(&self) -> LuaVal {
        match self {
            LuaValue::Nil => LuaVal::Nil,
            LuaValue::Bool(b) => LuaVal::Bool(*b),
            LuaValue::Int(n) => LuaVal::Int(*n as int),
            LuaValue::Str(s) => LuaVal::Str(s@),
            LuaValue::Native(id) => LuaVal::Native(*id as nat),
            LuaValue::Builtin(b) => LuaVal::Builtin(*b),
        }
    }
}

impl LuaValue {
    /// Structural copy of a value.
    pub fn duplicate(&self) -> (r: LuaValue)
        ensures
            r@ == self@,
    {
        match self {
            LuaValue::Nil => LuaValue::Nil,
            LuaValue::Bool(b) => LuaValue::Bool(*b),
            LuaValue::Int(n) => LuaValue::Int(*n),
            LuaValue::Str(s) => LuaValue::Str(copy_bytes(s)),
            LuaValue::Native(id) => LuaValue::Native(*id),
            LuaValue::Builtin(b) => LuaValue::Builtin(*b),
        }
    }

    /// Raw equality of two interpreter values, as the embedded language's
    /// `==` operator decides it: equal kind and equal payload; byte strings
    /// compare bytewise, native callables by identity.
    pub fn raw_equals(&self, other: &LuaValue) -> (r: bool)
        ensures
            r == (self@ == other@),
    {
        let r = match (self, other) {
            (LuaValue::Nil, LuaValue::Nil) => true,
            (LuaValue::Bool(a), LuaValue::Bool(b)) => *a == *b,
            (LuaValue::Int(a), LuaValue::Int(b)) => *a == *b,
            (LuaValue::Str(a), LuaValue::Str(b)) => bytes_eq(a, b),
            (LuaValue::Native(a), LuaValue::Native(b)) => *a == *b,
            (LuaValue::Builtin(a), LuaValue::Builtin(b)) => *a == *b,
            _ => false,
        };
        proof {
            if r {
                assert(self@ =~= other@);
            }
        }
        r
    }

    /// Truthiness as the embedded language defines it: everything but
    /// `nil` and `false` counts as true.
    pub fn is_truthy(&self) -> (r: bool)
        ensures
            r == self@.truthy(),
    {
        match self {
            LuaValue::Nil => false,
            LuaValue::Bool(b) => *b,
            _ => true,
        }
    }
}

impl LuaVal {
    /// Truthiness of a model value.
    pub open spec fn truthy(self) -> bool {
        match self {
            LuaVal::Nil => false,
            LuaVal::Bool(b) => b,
            _ => true,
        }
    }
}

/// Bytewise copy of a byte string.
pub fn copy_bytes(b: &Vec<u8>) -> (r: Vec<u8>)
    ensures
        r@ == b@,
{
    let mut out: Vec<u8> = Vec::new();
    let mut i: usize = 0;
    while i < b.len()
        invariant
            i <= b.len(),
            out@ == b@.subrange(0, i as int),
        decreases b.len() - i,
    {
        out.push(b[i]);
        i += 1;
        proof {
            assert(out@ =~= b@.subrange(0, i as int));
        }
    }
    proof {
        assert(out@ =~= b@);
    }
    out
}

/// Bytewise equality of two byte strings.
pub fn bytes_eq(a: &Vec<u8>, b: &Vec<u8>) -> (r: bool)
    ensures
        r == (a@ == b@),
{
    if a.len() != b.len() {
        return false;
    }
    let mut i: usize = 0;
    while i < a.len()
        invariant
            i <= a.len(),
            a.len() == b.len(),
            forall|j: int| 0 <= j < i ==> a@[j] == b@[j],
        decreases a.len() - i,
    {
        if a[i] != b[i] {
            return false;
        }
        i += 1;
    }
    proof {
        assert(a@ =~= b@);
    }
    true
}

} // verus!
