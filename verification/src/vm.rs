use vstd::prelude::*;

use crate::callback::CallbackError;
use crate::marshal::{Pushable, Readable};
use crate::stack::LuaStack;
use crate::store::{store_call, store_new, store_push, ClosureStore, NativeCallable};
use crate::value::{BuiltinFn, LuaVal, LuaValue};
use vstd::string::StrSliceExecFns;
use vstd::string::StringSliceAdditionalSpecFns;

verus! {

/// Metadata the interpreter keeps about one registered host callable.
///
/// `needs_block` records whether registering it allocated a captured-state
/// block: a callable whose captured state is zero-sized allocates none.
#[derive(Clone, Copy, PartialEq, Eq, Structural, Debug)]
pub struct NativeMeta {
    pub needs_block: bool,
}

/// Mathematical model of an interpreter instance: its global variables as
/// the sequence of bindings made so far (latest binding wins), the
/// metadata of its registered host callables in registration order, and
/// whether its standard functions have been opened.
pub struct LuaModel {
    pub globals: Seq<(Seq<u8>, LuaVal)>,
    pub natives: Seq<NativeMeta>,
    pub libs: bool,
}

/// The value bound to `k` by a binding sequence: the latest binding of `k`
/// wins, and a never-bound name has no value.
pub open spec fn assoc_find(s: Seq<(Seq<u8>, LuaVal)>, k: Seq<u8>) -> Option<LuaVal>
    decreases s.len(),
{
    if s.len() == 0 {
        None
    } else if s.last().0 == k {
        Some(s.last().1)
    } else {
        assoc_find(s.drop_last(), k)
    }
}

/// Number of captured-state blocks the interpreter has allocated: one for
/// each registered callable whose captured state is not zero-sized.
pub open spec fn blocks_of(natives: Seq<NativeMeta>) -> nat
    decreases natives.len(),
{
    if natives.len() == 0 {
        0
    } else {
        blocks_of(natives.drop_last()) + if natives.last().needs_block {
            1nat
        } else {
            0nat
        }
    }
}

/// An interpreter instance: the owner of the global environment and of
/// every registered host callable's captured state.
pub struct Lua {
    store: ClosureStore,
    metas: Vec<NativeMeta>,
    globals: Vec<(Vec<u8>, LuaValue)>,
    libs: bool,
}

impl View for Lua {
    type V = LuaModel;

    closed spec fn view(&self) -> LuaModel {
        LuaModel {
            globals: self.globals@.map(|i: int, e: (Vec<u8>, LuaValue)| (e.0@, e.1@)),
            natives: self.metas@,
            libs: self.libs,
        }
    }
}

impl Lua {
    #[verifier::type_invariant]
    closed spec fn wf(self) -> bool {
        self.metas@.len() == crate::store::store_size(self.store)
    }

    /// Builds a fresh interpreter with no globals, no registered
    /// callables and no standard functions.
    pub fn new() -> (r: Lua)
        ensures
            r@.globals =~= Seq::<(Seq<u8>, LuaVal)>::empty(),
            r@.natives =~= Seq::<NativeMeta>::empty(),
            !r@.libs,
    {
        Lua { store: store_new(), metas: Vec::new(), globals: Vec::new(), libs: false }
    }

    /// Opens the interpreter's standard functions; for this core that is
    /// the global `assert`.
    pub fn openlibs(&mut self)
        ensures
            final(self)@.globals =~= old(self)@.globals.push(
                (("assert").spec_bytes(), LuaVal::Builtin(BuiltinFn::Assert)),
            ),
            final(self)@.natives == old(self)@.natives,
            final(self)@.libs,
    {
        let name = ("assert").as_bytes_vec();
        proof {
            use_type_invariant(&*self);
        }
        let mut shell = Lua::new();
        core::mem::swap(self, &mut shell);
        let Lua { store, metas, mut globals, libs: _ } = shell;
        globals.push((name, LuaValue::Builtin(BuiltinFn::Assert)));
        let mut built = Lua { store, metas, globals, libs: true };
        core::mem::swap(self, &mut built);
        proof {
            assert(final(self)@.globals =~= old(self)@.globals.push(
                (("assert").spec_bytes(), LuaVal::Builtin(BuiltinFn::Assert)),
            ));
        }
    }

    /// Moves a host callable into the interpreter: its captured state now
    /// lives in interpreter-owned storage, a block is allocated for it
    /// exactly when `needs_block` says the state is not zero-sized, and
    /// the callable's slot is handed back. Teardown of the captured state
    /// now happens with the interpreter, not with the host scope that
    /// built the callable.
    pub(crate) fn register_native<T: NativeCallable + 'static>(
        &mut self,
        f: T,
        needs_block: bool,
    ) -> (id: usize)
        requires
            f.vm_ready(),
        ensures
            final(self)@.natives =~= old(self)@.natives.push(NativeMeta { needs_block }),
            final(self)@.globals == old(self)@.globals,
            final(self)@.libs == old(self)@.libs,
            id == old(self)@.natives.len(),
    {
        proof {
            use_type_invariant(&*self);
        }
        let mut shell = Lua::new();
        core::mem::swap(self, &mut shell);
        let Lua { mut store, mut metas, globals, libs } = shell;
        let id = store_push(&mut store, f);
        metas.push(NativeMeta { needs_block });
        let mut built = Lua { store, metas, globals, libs };
        core::mem::swap(self, &mut built);
        id
    }

    /// Invokes the registered callable in slot `id` on the given argument
    /// frame. The interpreter's own observable state is untouched; on
    /// `Ok(n)` the frame holds exactly the `n` return values, and a slot
    /// that names no callable answers with a runtime error.
    pub(crate) fn native_call(&mut self, id: usize, frame: &mut LuaStack) -> (r: Result<
        usize,
        CallbackError,
    >)
        ensures
            final(self)@.globals == old(self)@.globals,
            final(self)@.natives == old(self)@.natives,
            final(self)@.libs == old(self)@.libs,
            r matches Ok(n) ==> final(frame)@.len() == n,
    {
        proof {
            use_type_invariant(&*self);
        }
        let mut shell = Lua::new();
        core::mem::swap(self, &mut shell);
        let Lua { mut store, metas, globals, libs } = shell;
        let r = store_call(&mut store, id, frame);
        let mut built = Lua { store, metas, globals, libs };
        core::mem::swap(self, &mut built);
        r
    }

    /// Binds a global: the new binding shadows every earlier one of the
    /// same name.
    pub(crate) fn global_bind(&mut self, name: Vec<u8>, v: LuaValue)
        ensures
            final(self)@.globals =~= old(self)@.globals.push((name@, v@)),
            final(self)@.natives == old(self)@.natives,
            final(self)@.libs == old(self)@.libs,
    {
        proof {
            use_type_invariant(&*self);
        }
        let mut shell = Lua::new();
        core::mem::swap(self, &mut shell);
        let Lua { store, metas, mut globals, libs } = shell;
        globals.push((name, v));
        let mut built = Lua { store, metas, globals, libs };
        core::mem::swap(self, &mut built);
        proof {
            assert(final(self)@.globals =~= old(self)@.globals.push((name@, v@)));
        }
    }

    /// Looks a global up: the latest binding of the name, if any.
    pub(crate) fn global_lookup(&self, name: &Vec<u8>) -> (r: Option<LuaValue>)
        ensures
            match r {
                Some(v) => assoc_find(self@.globals, name@) == Some(v@),
                None => assoc_find(self@.globals, name@) is None,
            },
    {
        let ghost gs = self@.globals;
        let mut i: usize = self.globals.len();
        proof {
            assert(gs.take(i as int) =~= gs);
        }
        while i > 0
            invariant
                i <= self.globals.len(),
                gs == self@.globals,
                self.globals.len() == gs.len(),
                assoc_find(gs, name@) == assoc_find(gs.take(i as int), name@),
            decreases i,
        {
            i -= 1;
            let entry_matches = crate::value::bytes_eq(&self.globals[i].0, name);
            proof {
                let t = gs.take(i as int + 1);
                assert(t.last() == gs[i as int]);
                assert(t.drop_last() =~= gs.take(i as int));
                assert(gs[i as int].0 == self.globals@[i as int].0@);
            }
            if entry_matches {
                return Some(self.globals[i].1.duplicate());
            }
        }
        proof {
            assert(gs.take(0) =~= Seq::<(Seq<u8>, LuaVal)>::empty());
        }
        None
    }

    /// Executes source text on this interpreter and reads the script's
    /// return values back as a host value.
    ///
    /// Source that does not lex or parse is rejected as a syntax error
    /// with the interpreter untouched. A runtime failure — a callback
    /// whose arguments do not decode, a failed assertion, a call of a
    /// non-function — is an execution error. On success the script ran to
    /// its first `return` (or to the end), its global assignments extend
    /// the globals, nothing was registered or unregistered, and the
    /// result decodes from the returned values by the marshaling
    /// contract.
    pub fn execute<T: Readable>(&mut self, code: &str) -> (r: Result<T, ExecutionError>)
        ensures
            final(self)@.natives == old(self)@.natives,
            final(self)@.libs == old(self)@.libs,
            old(self)@.globals.is_prefix_of(final(self)@.globals),
            r matches Err(e) && e is SyntaxError ==> final(self)@.globals == old(self)@.globals,
            r matches Ok(v) ==> exists|rets: Seq<LuaVal>| T::read_rel(rets, v),
    {
        let bytes = code.as_bytes();
        let tokens = match crate::script::lex(bytes) {
            Some(t) => t,
            None => {
                return Err(ExecutionError::SyntaxError(("invalid token in source").to_owned()));
            },
        };
        let stats = match crate::script::parse(&tokens) {
            Some(s) => s,
            None => {
                return Err(ExecutionError::SyntaxError(("cannot parse source").to_owned()));
            },
        };
        let vals = match crate::interp::exec_stats(self, &stats) {
            Ok(v) => v,
            Err(e) => {
                return Err(e);
            },
        };
        let frame = LuaStack::from_values(vals);
        let r: Result<T, ExecutionError> = match T::read_from_lua(&frame) {
            Some(v) => Ok(v),
            None => Err(ExecutionError::ExecError(("return value has the wrong type").to_owned())),
        };
        proof {
            if r is Ok {
                assert(T::read_rel(frame@, r->Ok_0));
                assert(exists|rets: Seq<LuaVal>| T::read_rel(rets, r->Ok_0));
            }
        }
        r
    }

    /// Builds an accessor for the global variable `index` names.
    pub fn access<'a, I: Index>(&'a mut self, index: I) -> (r: VariableAccessor<
        'a,
        VariableLocation<I, Globals>,
    >)
        ensures
            *final(self) == *final(r.lua),
            r.target() == *old(self),
            r.key() == index.key_bytes(),
    {
        VariableAccessor { lua: self, location: VariableLocation { index, prev: Globals } }
    }

    /// Reads the global variable `index` names back as a host value:
    /// the latest binding of that name, decoded, or nothing when the name
    /// is unbound or its value does not decode as `V`.
    pub fn get<I: Index, V: Readable>(&mut self, index: I) -> (r: Option<V>)
        ensures
            final(self)@.globals == old(self)@.globals,
            final(self)@.natives == old(self)@.natives,
            final(self)@.libs == old(self)@.libs,
            match assoc_find(old(self)@.globals, index.key_bytes()) {
                Some(lv) => match r {
                    Some(v) => V::read_rel(seq![lv], v),
                    None => !V::readable(seq![lv]),
                },
                None => r is None,
            },
    {
        Globals.read(self, &index)
    }

    /// Binds the global variable `index` names to `value`: the value is
    /// pushed — registering it, if it is a callable wrapper — and the
    /// produced slot becomes the latest binding of that name.
    pub fn set<I: Index, V: Pushable>(&mut self, index: I, value: V) -> (r: Result<
        (),
        &'static str,
    >)
        requires
            value.push_requires(),
        ensures
            r is Ok,
            final(self)@.globals =~= old(self)@.globals.push(
                (index.key_bytes(), value.pushed_val(old(self)@.natives)),
            ),
            value.push_effect(old(self)@.natives, final(self)@.natives),
            final(self)@.libs == old(self)@.libs,
    {
        Globals.store(self, &index, value)
    }

    /// How many captured-state blocks this interpreter has allocated for
    /// registered callables.
    pub fn allocated_blocks(&self) -> (n: usize)
        ensures
            n == blocks_of(self@.natives),
    {
        let ghost ms = self@.natives;
        let mut n: usize = 0;
        let mut i: usize = 0;
        proof {
            assert(ms.take(0) =~= Seq::<NativeMeta>::empty());
        }
        while i < self.metas.len()
            invariant
                i <= self.metas.len(),
                ms == self@.natives,
                self.metas.len() == ms.len(),
                n == blocks_of(ms.take(i as int)),
                n <= i,
            decreases self.metas.len() - i,
        {
            proof {
                let t = ms.take(i as int + 1);
                assert(t.last() == ms[i as int]);
                assert(t.drop_last() =~= ms.take(i as int));
            }
            if self.metas[i].needs_block {
                n += 1;
            }
            i += 1;
        }
        proof {
            assert(ms.take(ms.len() as int) =~= ms);
        }
        n
    }
}

/// Error that can come out of executing interpreter code.
#[derive(Debug)]
pub enum ExecutionError {
    /// The source text does not lex or parse.
    SyntaxError(String),
    /// The source text failed while running: a raised runtime error.
    ExecError(String),
}

/// Types usable as names of interpreter variables.
pub trait Index: Pushable {
    /// The variable name these index values denote.
    spec fn key_bytes(&self) -> Seq<u8>;

    /// The name as the interpreter's byte string.
    fn as_key(&self) -> (k: Vec<u8>)
        ensures
            k@ == self.key_bytes(),
    ;

    /// Binds a global variable of this name: pushes the value, then binds
    /// the produced slot.
    fn lua_set_global<T: Pushable>(&self, lua: &mut Lua, value: T)
        requires
            value.push_requires(),
        ensures
            final(lua)@.globals =~= old(lua)@.globals.push(
                (self.key_bytes(), value.pushed_val(old(lua)@.natives)),
            ),
            value.push_effect(old(lua)@.natives, final(lua)@.natives),
            final(lua)@.libs == old(lua)@.libs,
    {
        let v = value.push_to_lua(lua);
        let k = self.as_key();
        lua.global_bind(k, v);
    }

    /// Reads the global variable of this name back as a host value.
    fn lua_get_global<T: Readable>(&self, lua: &Lua) -> (r: Option<T>)
        ensures
            match assoc_find(lua@.globals, self.key_bytes()) {
                Some(lv) => match r {
                    Some(v) => T::read_rel(seq![lv], v),
                    None => !T::readable(seq![lv]),
                },
                None => r is None,
            },
    {
        let k = self.as_key();
        match lua.global_lookup(&k) {
            Some(v) => T::read_slot(&v),
            None => None,
        }
    }
}

impl Index for &str {
    open spec fn key_bytes(&self) -> Seq<u8> {
        self.spec_bytes()
    }

    fn as_key(&self) -> (k: Vec<u8>) {
        self.as_bytes_vec()
    }
}

impl Index for String {
    open spec fn key_bytes(&self) -> Seq<u8> {
        vstd::utf8::encode_utf8(self@)
    }

    fn as_key(&self) -> (k: Vec<u8>) {
        self.as_str().as_bytes_vec()
    }
}

/// Represents the global variables.
pub struct Globals;

/// Somewhere a variable can be stored.
pub trait Dropbox<I: Index, V: Pushable> {
    /// Stores `value` under `index`.
    fn store(&self, lua: &mut Lua, index: &I, value: V) -> (r: Result<(), &'static str>)
        requires
            value.push_requires(),
        ensures
            r is Ok,
            final(lua)@.globals =~= old(lua)@.globals.push(
                (index.key_bytes(), value.pushed_val(old(lua)@.natives)),
            ),
            value.push_effect(old(lua)@.natives, final(lua)@.natives),
            final(lua)@.libs == old(lua)@.libs,
    ;
}

/// Somewhere variables can be read from.
pub trait Readbox<I: Index, V: Readable> {
    /// Reads the variable under `index`.
    fn read(&self, lua: &Lua, index: &I) -> (r: Option<V>)
        ensures
            match assoc_find(lua@.globals, index.key_bytes()) {
                Some(lv) => match r {
                    Some(v) => V::read_rel(seq![lv], v),
                    None => !V::readable(seq![lv]),
                },
                None => r is None,
            },
    ;
}

impl<I: Index, V: Pushable> Dropbox<I, V> for Globals {
    fn store(&self, lua: &mut Lua, index: &I, value: V) -> (r: Result<(), &'static str>) {
        index.lua_set_global(lua, value);
        Ok(())
    }
}

impl<I: Index, V: Readable> Readbox<I, V> for Globals {
    fn read(&self, lua: &Lua, index: &I) -> (r: Option<V>) {
        index.lua_get_global(lua)
    }
}

/// One step of a variable's location: an index inside whatever `prev`
/// denotes.
pub struct VariableLocation<I, Prev> {
    /// The name within whatever `prev` denotes.
    pub index: I,
    /// The enclosing location.
    pub prev: Prev,
}

/// Access to one interpreter variable, borrowed from the interpreter that
/// owns it.
pub struct VariableAccessor<'a, L> {
    /// The borrowed interpreter this accessor reads and writes.
    pub lua: &'a mut Lua,
    /// Where the variable lives.
    pub location: L,
}

impl<'a, I: Index, DB> VariableAccessor<'a, VariableLocation<I, DB>> {
    /// The interpreter state this accessor currently sees.
    pub open spec fn target(self) -> Lua {
        *self.lua
    }

    /// The name this accessor denotes.
    pub open spec fn key(self) -> Seq<u8> {
        self.location.index.key_bytes()
    }
}

impl<'a, I: Index, DB> VariableAccessor<'a, VariableLocation<I, DB>> {
    /// Stores a value in the variable this accessor denotes.
    pub fn set<V: Pushable>(self, value: V) -> (r: Result<(), &'static str>) where
        DB: Dropbox<I, V>,

        requires
            value.push_requires(),
        ensures
            r is Ok,
            (*final(self.lua))@.globals =~= self.target()@.globals.push(
                (self.key(), value.pushed_val(self.target()@.natives)),
            ),
            value.push_effect(self.target()@.natives, (*final(self.lua))@.natives),
            (*final(self.lua))@.libs == self.target()@.libs,
    {
        let loc = &self.location;
        loc.prev.store(self.lua, &loc.index, value)
    }

    /// Reads the variable this accessor denotes.
    pub fn get<V: Readable>(&self) -> (r: Option<V>) where DB: Readbox<I, V>
        ensures
            match assoc_find(self.target()@.globals, self.key()) {
                Some(lv) => match r {
                    Some(v) => V::read_rel(seq![lv], v),
                    None => !V::readable(seq![lv]),
                },
                None => r is None,
            },
    {
        let loc = &self.location;
        loc.prev.read(self.lua, &loc.index)
    }
}

} // verus!
