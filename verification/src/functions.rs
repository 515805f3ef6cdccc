use vstd::prelude::*;

use core::marker::PhantomData;

use crate::callback::{CallbackError, InsideCallback, WRONG_PARAMS_MSG};
use crate::marshal::{CallbackReturn, Pushable, Readable};
use crate::stack::LuaStack;
use crate::store::NativeCallable;
use crate::value::{LuaVal, LuaValue};
use crate::vm::{Lua, NativeMeta};
use vstd::layout::size_of;

verus! {

/// Opaque wrapper holding a host function or closure, together with the
/// parameter-tuple shape and return type it was registered under.
///
/// A wrapper is built by one of the `function0` .. `function10`
/// constructors (one per supported arity) or by the arity-generic
/// [`function`], and is consumed exactly once when it is pushed into the
/// interpreter as a callable value.
pub struct Function<F, P, R> {
    function: F,
    marker: PhantomData<(P, R)>,
}

impl<F, P, R> Function<F, P, R> {
    /// The host callable this wrapper carries.
    pub closed spec fn host_fn(self) -> F {
        self.function
    }
}

/// The uniform call interface over a wrapper: one operation, "invoke with
/// an argument tuple of the declared arity, yielding the declared return
/// value", whatever the arity is.
///
/// `callable` is the wrapped callable's own precondition on an argument
/// tuple; `call_rel` relates an argument tuple to the outputs the
/// callable may produce for it. Repeated calls are permitted; the wrapper
/// itself never changes.
pub trait FunctionExt<P>: Sized {
    type Output;

    /// Whether the wrapped callable accepts `params`.
    spec fn callable(&self, params: P) -> bool;

    /// Relates `params` to the outputs the wrapped callable may produce.
    spec fn call_rel(&self, params: P, out: Self::Output) -> bool;

    /// Invokes the wrapped callable with a decoded argument tuple.
    fn call_mut(&mut self, params: P) -> (out: Self::Output)
        requires
            old(self).callable(params),
        ensures
            old(self).call_rel(params, out),
            *final(self) == *old(self),
    ;
}

/// The per-instantiation entry point the interpreter invokes: the strict
/// linear state machine decode → invoke → encode.
///
/// On entry `frame` holds the call's actual arguments. If they do not
/// decode to the wrapper's declared parameter tuple — too few, too many or
/// wrongly-typed values — the call fails fast with the fixed diagnostic and
/// the wrapped callable is never invoked. Otherwise the callable runs once
/// on the decoded tuple and its result is encoded back, so that on return
/// `frame` holds exactly the produced return slots. Encoding a declared
/// return type cannot fail, so no fatal path exists here.
pub fn trampoline<T, P, R>(f: &mut T, frame: &mut LuaStack) -> (r: Result<usize, CallbackError>)
    where
        T: FunctionExt<P, Output = R>,
        P: Readable,
        R: CallbackReturn,
    requires
        forall|p: P| P::read_rel(old(frame)@, p) ==> old(f).callable(p),
    ensures
        *final(f) == *old(f),
        match r {
            Ok(n) => {
                &&& P::readable(old(frame)@)
                &&& exists|p: P, out: R|
                    {
                        &&& #[trigger] P::read_rel(old(frame)@, p)
                        &&& #[trigger] old(f).call_rel(p, out)
                        &&& final(frame)@ == out.ret_repr()
                        &&& n == out.ret_repr().len()
                    }
            },
            Err(e) => {
                &&& !P::readable(old(frame)@)
                &&& e.message@ == WRONG_PARAMS_MSG@
                &&& final(frame)@ == old(frame)@
            },
        },
{
    let args = match P::read_from_lua(frame) {
        Some(p) => p,
        None => {
            return Err(CallbackError::wrong_params());
        },
    };
    let ghost gargs = args;
    proof {
        P::lemma_read_rel_readable(frame@, gargs);
    }
    let out = f.call_mut(args);
    let ghost gout = out;
    let mut ctx = InsideCallback::new();
    out.push_to_callback(&mut ctx);
    let n = ctx.written();
    let rets = ctx.into_stack();
    *frame = rets;
    proof {
        assert(final(frame)@ =~= gout.ret_repr());
        assert(P::read_rel(old(frame)@, gargs) && old(f).call_rel(gargs, gout)
            && final(frame)@ == gout.ret_repr() && n == gout.ret_repr().len());
    }
    Ok(n)
}

impl<Z, P, R> NativeCallable for Function<Z, P, R> where
    Function<Z, P, R>: FunctionExt<P, Output = R>,
    P: Readable,
    R: CallbackReturn,
 {
    open spec fn vm_ready(&self) -> bool {
        forall|p: P| self.callable(p)
    }

    fn call_from_vm(&mut self, frame: &mut LuaStack) -> (r: Result<usize, CallbackError>) {
        let r = trampoline(self, frame);
        proof {
            if r is Ok {
                let (p, out) = choose|p: P, out: R|
                    {
                        &&& #[trigger] P::read_rel(old(frame)@, p)
                        &&& #[trigger] old(self).call_rel(p, out)
                        &&& final(frame)@ == out.ret_repr()
                        &&& r->Ok_0 == out.ret_repr().len()
                    };
            }
        }
        r
    }
}

/// Builds the wrapper for a zero-parameter host callable.
pub fn function0<Z, R>(f: Z) -> (r: Function<Z, (), R>) where Z: Fn() -> R
    ensures
        r.host_fn() == f,
{
    Function { function: f, marker: PhantomData }
}

/// Builds the wrapper for a one-parameter host callable.
pub fn function1<Z, R, A>(f: Z) -> (r: Function<Z, (A,), R>) where Z: Fn(A) -> R
    ensures
        r.host_fn() == f,
{
    Function { function: f, marker: PhantomData }
}

/// Builds the wrapper for a two-parameter host callable.
pub fn function2<Z, R, A, B>(f: Z) -> (r: Function<Z, (A, B), R>) where Z: Fn(A, B) -> R
    ensures
        r.host_fn() == f,
{
    Function { function: f, marker: PhantomData }
}

impl<Z, R> FunctionExt<()> for Function<Z, (), R> where Z: Fn() -> R {
    type Output = R;

    open spec fn callable(&self, params: ()) -> bool {
        call_requires(self.host_fn(), params)
    }

    open spec fn call_rel(&self, params: (), out: R) -> bool {
        call_ensures(self.host_fn(), params, out)
    }

    fn call_mut(&mut self, params: ()) -> (out: R) {
        (self.function)()
    }
}

impl<Z, R, A> FunctionExt<(A,)> for Function<Z, (A,), R> where Z: Fn(A) -> R {
    type Output = R;

    open spec fn callable(&self, params: (A,)) -> bool {
        call_requires(self.host_fn(), params)
    }

    open spec fn call_rel(&self, params: (A,), out: R) -> bool {
        call_ensures(self.host_fn(), params, out)
    }

    fn call_mut(&mut self, params: (A,)) -> (out: R) {
        let (a,) = params;
        (self.function)(a)
    }
}

impl<Z, R, A, B> FunctionExt<(A, B)> for Function<Z, (A, B), R> where Z: Fn(A, B) -> R {
    type Output = R;

    open spec fn callable(&self, params: (A, B)) -> bool {
        call_requires(self.host_fn(), params)
    }

    open spec fn call_rel(&self, params: (A, B), out: R) -> bool {
        call_ensures(self.host_fn(), params, out)
    }

    fn call_mut(&mut self, params: (A, B)) -> (out: R) {
        let (a, b) = params;
        (self.function)(a, b)
    }
}

/// Turning a wrapper into an interpreter-resident callable value: the
/// wrapper is moved into the interpreter, which from then on owns its
/// captured state and tears it down when the interpreter itself goes
/// away. A captured state that is zero-sized allocates no block — the
/// interpreter records `needs_block` accordingly — and the produced slot
/// names the new callable.
///
/// `push_requires` asks that the wrapped host callable accept every
/// decodable argument tuple: the interpreter may hand a registered
/// callable any decoded arguments, so nothing with a narrower
/// precondition can become interpreter-resident.
impl<Z, P, R> Pushable for Function<Z, P, R> where
    Function<Z, P, R>: FunctionExt<P, Output = R> + 'static,
    P: Readable,
    R: CallbackReturn,
 {
    open spec fn push_requires(self) -> bool {
        self.vm_ready()
    }

    open spec fn pushed_val(self, pre: Seq<NativeMeta>) -> LuaVal {
        LuaVal::Native(pre.len())
    }

    open spec fn push_effect(self, pre: Seq<NativeMeta>, post: Seq<NativeMeta>) -> bool {
        post == pre.push(NativeMeta { needs_block: size_of::<Z>() != 0 })
    }

    fn push_to_lua(self, lua: &mut Lua) -> (v: LuaValue) {
        let needs_block = core::mem::size_of::<Z>() != 0;
        let id = lua.register_native(self, needs_block);
        LuaValue::Native(id)
    }
}

/// Builds the wrapper for a host callable of any supported arity, going
/// through the wrapper's `From` conversion.
pub fn function<F, P, R, S: Into<Function<F, P, R>>>(func: S) -> (r: Function<F, P, R>)
    ensures
        <S as vstd::std_specs::convert::IntoSpec<Function<F, P, R>>>::obeys_into_spec()
            ==> r == <S as vstd::std_specs::convert::IntoSpec<Function<F, P, R>>>::into_spec(func),
{
    func.into()
}

/// Builds the wrapper for a three-parameter host callable.
pub fn function3<Z, R, A, B, C>(f: Z) -> (r: Function<Z, (A, B, C), R>) where Z: Fn(A, B, C) -> R
    ensures
        r.host_fn() == f,
{
    Function { function: f, marker: PhantomData }
}

/// Builds the wrapper for a four-parameter host callable.
pub fn function4<Z, R, A, B, C, D>(f: Z) -> (r: Function<Z, (A, B, C, D), R>) where Z: Fn(A, B, C, D) -> R
    ensures
        r.host_fn() == f,
{
    Function { function: f, marker: PhantomData }
}

/// Builds the wrapper for a five-parameter host callable.
pub fn function5<Z, R, A, B, C, D, E>(f: Z) -> (r: Function<Z, (A, B, C, D, E), R>) where Z: Fn(A, B, C, D, E) -> R
    ensures
        r.host_fn() == f,
{
    Function { function: f, marker: PhantomData }
}

/// Builds the wrapper for a six-parameter host callable.
pub fn function6<Z, R, A, B, C, D, E, F>(f: Z) -> (r: Function<Z, (A, B, C, D, E, F), R>) where Z: Fn(A, B, C, D, E, F) -> R
    ensures
        r.host_fn() == f,
{
    Function { function: f, marker: PhantomData }
}

/// Builds the wrapper for a seven-parameter host callable.
pub fn function7<Z, R, A, B, C, D, E, F, G>(f: Z) -> (r: Function<Z, (A, B, C, D, E, F, G), R>) where Z: Fn(A, B, C, D, E, F, G) -> R
    ensures
        r.host_fn() == f,
{
    Function { function: f, marker: PhantomData }
}

/// Builds the wrapper for an eight-parameter host callable.
pub fn function8<Z, R, A, B, C, D, E, F, G, H>(f: Z) -> (r: Function<Z, (A, B, C, D, E, F, G, H), R>) where Z: Fn(A, B, C, D, E, F, G, H) -> R
    ensures
        r.host_fn() == f,
{
    Function { function: f, marker: PhantomData }
}

/// Builds the wrapper for a nine-parameter host callable.
pub fn function9<Z, R, A, B, C, D, E, F, G, H, I>(f: Z) -> (r: Function<Z, (A, B, C, D, E, F, G, H, I), R>) where Z: Fn(A, B, C, D, E, F, G, H, I) -> R
    ensures
        r.host_fn() == f,
{
    Function { function: f, marker: PhantomData }
}

/// Builds the wrapper for a ten-parameter host callable.
pub fn function10<Z, R, A, B, C, D, E, F, G, H, I, J>(f: Z) -> (r: Function<Z, (A, B, C, D, E, F, G, H, I, J), R>) where Z: Fn(A, B, C, D, E, F, G, H, I, J) -> R
    ensures
        r.host_fn() == f,
{
    Function { function: f, marker: PhantomData }
}

impl<Z, R, A, B, C> FunctionExt<(A, B, C)> for Function<Z, (A, B, C), R> where Z: Fn(A, B, C) -> R {
    type Output = R;

    open spec fn callable(&self, params: (A, B, C)) -> bool {
        call_requires(self.host_fn(), params)
    }

    open spec fn call_rel(&self, params: (A, B, C), out: R) -> bool {
        call_ensures(self.host_fn(), params, out)
    }

    fn call_mut(&mut self, params: (A, B, C)) -> (out: R) {
        let (a, b, c) = params;
        (self.function)(a, b, c)
    }
}

impl<Z, R, A, B, C, D> FunctionExt<(A, B, C, D)> for Function<Z, (A, B, C, D), R> where Z: Fn(A, B, C, D) -> R {
    type Output = R;

    open spec fn callable(&self, params: (A, B, C, D)) -> bool {
        call_requires(self.host_fn(), params)
    }

    open spec fn call_rel(&self, params: (A, B, C, D), out: R) -> bool {
        call_ensures(self.host_fn(), params, out)
    }

    fn call_mut(&mut self, params: (A, B, C, D)) -> (out: R) {
        let (a, b, c, d) = params;
        (self.function)(a, b, c, d)
    }
}

impl<Z, R, A, B, C, D, E> FunctionExt<(A, B, C, D, E)> for Function<Z, (A, B, C, D, E), R> where Z: Fn(A, B, C, D, E) -> R {
    type Output = R;

    open spec fn callable(&self, params: (A, B, C, D, E)) -> bool {
        call_requires(self.host_fn(), params)
    }

    open spec fn call_rel(&self, params: (A, B, C, D, E), out: R) -> bool {
        call_ensures(self.host_fn(), params, out)
    }

    fn call_mut(&mut self, params: (A, B, C, D, E)) -> (out: R) {
        let (a, b, c, d, e) = params;
        (self.function)(a, b, c, d, e)
    }
}

impl<Z, R, A, B, C, D, E, F> FunctionExt<(A, B, C, D, E, F)> for Function<Z, (A, B, C, D, E, F), R> where Z: Fn(A, B, C, D, E, F) -> R {
    type Output = R;

    open spec fn callable(&self, params: (A, B, C, D, E, F)) -> bool {
        call_requires(self.host_fn(), params)
    }

    open spec fn call_rel(&self, params: (A, B, C, D, E, F), out: R) -> bool {
        call_ensures(self.host_fn(), params, out)
    }

    fn call_mut(&mut self, params: (A, B, C, D, E, F)) -> (out: R) {
        let (a, b, c, d, e, f) = params;
        (self.function)(a, b, c, d, e, f)
    }
}

impl<Z, R, A, B, C, D, E, F, G> FunctionExt<(A, B, C, D, E, F, G)> for Function<Z, (A, B, C, D, E, F, G), R> where Z: Fn(A, B, C, D, E, F, G) -> R {
    type Output = R;

    open spec fn callable(&self, params: (A, B, C, D, E, F, G)) -> bool {
        call_requires(self.host_fn(), params)
    }

    open spec fn call_rel(&self, params: (A, B, C, D, E, F, G), out: R) -> bool {
        call_ensures(self.host_fn(), params, out)
    }

    fn call_mut(&mut self, params: (A, B, C, D, E, F, G)) -> (out: R) {
        let (a, b, c, d, e, f, g) = params;
        (self.function)(a, b, c, d, e, f, g)
    }
}

impl<Z, R, A, B, C, D, E, F, G, H> FunctionExt<(A, B, C, D, E, F, G, H)> for Function<Z, (A, B, C, D, E, F, G, H), R> where Z: Fn(A, B, C, D, E, F, G, H) -> R {
    type Output = R;

    open spec fn callable(&self, params: (A, B, C, D, E, F, G, H)) -> bool {
        call_requires(self.host_fn(), params)
    }

    open spec fn call_rel(&self, params: (A, B, C, D, E, F, G, H), out: R) -> bool {
        call_ensures(self.host_fn(), params, out)
    }

    fn call_mut(&mut self, params: (A, B, C, D, E, F, G, H)) -> (out: R) {
        let (a, b, c, d, e, f, g, h) = params;
        (self.function)(a, b, c, d, e, f, g, h)
    }
}

impl<Z, R, A, B, C, D, E, F, G, H, I> FunctionExt<(A, B, C, D, E, F, G, H, I)> for Function<Z, (A, B, C, D, E, F, G, H, I), R> where Z: Fn(A, B, C, D, E, F, G, H, I) -> R {
    type Output = R;

    open spec fn callable(&self, params: (A, B, C, D, E, F, G, H, I)) -> bool {
        call_requires(self.host_fn(), params)
    }

    open spec fn call_rel(&self, params: (A, B, C, D, E, F, G, H, I), out: R) -> bool {
        call_ensures(self.host_fn(), params, out)
    }

    fn call_mut(&mut self, params: (A, B, C, D, E, F, G, H, I)) -> (out: R) {
        let (a, b, c, d, e, f, g, h, i) = params;
        (self.function)(a, b, c, d, e, f, g, h, i)
    }
}

impl<Z, R, A, B, C, D, E, F, G, H, I, J> FunctionExt<(A, B, C, D, E, F, G, H, I, J)> for Function<Z, (A, B, C, D, E, F, G, H, I, J), R> where Z: Fn(A, B, C, D, E, F, G, H, I, J) -> R {
    type Output = R;

    open spec fn callable(&self, params: (A, B, C, D, E, F, G, H, I, J)) -> bool {
        call_requires(self.host_fn(), params)
    }

    open spec fn call_rel(&self, params: (A, B, C, D, E, F, G, H, I, J), out: R) -> bool {
        call_ensures(self.host_fn(), params, out)
    }

    fn call_mut(&mut self, params: (A, B, C, D, E, F, G, H, I, J)) -> (out: R) {
        let (a, b, c, d, e, f, g, h, i, j) = params;
        (self.function)(a, b, c, d, e, f, g, h, i, j)
    }
}

impl<Z, R> From<Z> for Function<Z, (), R> where Z: Fn() -> R {
    fn from(func: Z) -> (r: Self) {
        Function { function: func, marker: PhantomData }
    }
}

impl<Z, R> vstd::std_specs::convert::FromSpecImpl<Z> for Function<Z, (), R> where Z: Fn() -> R {
    open spec fn obeys_from_spec() -> bool {
        true
    }

    closed spec fn from_spec(v: Z) -> Self {
        Function { function: v, marker: PhantomData }
    }
}

impl<Z, R, A> From<Z> for Function<Z, (A,), R> where Z: Fn(A) -> R {
    fn from(func: Z) -> (r: Self) {
        Function { function: func, marker: PhantomData }
    }
}

impl<Z, R, A> vstd::std_specs::convert::FromSpecImpl<Z> for Function<Z, (A,), R> where Z: Fn(A) -> R {
    open spec fn obeys_from_spec() -> bool {
        true
    }

    closed spec fn from_spec(v: Z) -> Self {
        Function { function: v, marker: PhantomData }
    }
}

impl<Z, R, A, B> From<Z> for Function<Z, (A, B), R> where Z: Fn(A, B) -> R {
    fn from(func: Z) -> (r: Self) {
        Function { function: func, marker: PhantomData }
    }
}

impl<Z, R, A, B> vstd::std_specs::convert::FromSpecImpl<Z> for Function<Z, (A, B), R> where Z: Fn(A, B) -> R {
    open spec fn obeys_from_spec() -> bool {
        true
    }

    closed spec fn from_spec(v: Z) -> Self {
        Function { function: v, marker: PhantomData }
    }
}

impl<Z, R, A, B, C> From<Z> for Function<Z, (A, B, C), R> where Z: Fn(A, B, C) -> R {
    fn from(func: Z) -> (r: Self) {
        Function { function: func, marker: PhantomData }
    }
}

impl<Z, R, A, B, C> vstd::std_specs::convert::FromSpecImpl<Z> for Function<Z, (A, B, C), R> where Z: Fn(A, B, C) -> R {
    open spec fn obeys_from_spec() -> bool {
        true
    }

    closed spec fn from_spec(v: Z) -> Self {
        Function { function: v, marker: PhantomData }
    }
}

impl<Z, R, A, B, C, D> From<Z> for Function<Z, (A, B, C, D), R> where Z: Fn(A, B, C, D) -> R {
    fn from(func: Z) -> (r: Self) {
        Function { function: func, marker: PhantomData }
    }
}

impl<Z, R, A, B, C, D> vstd::std_specs::convert::FromSpecImpl<Z> for Function<Z, (A, B, C, D), R> where Z: Fn(A, B, C, D) -> R {
    open spec fn obeys_from_spec() -> bool {
        true
    }

    closed spec fn from_spec(v: Z) -> Self {
        Function { function: v, marker: PhantomData }
    }
}

impl<Z, R, A, B, C, D, E> From<Z> for Function<Z, (A, B, C, D, E), R> where Z: Fn(A, B, C, D, E) -> R {
    fn from(func: Z) -> (r: Self) {
        Function { function: func, marker: PhantomData }
    }
}

impl<Z, R, A, B, C, D, E> vstd::std_specs::convert::FromSpecImpl<Z> for Function<Z, (A, B, C, D, E), R> where Z: Fn(A, B, C, D, E) -> R {
    open spec fn obeys_from_spec() -> bool {
        true
    }

    closed spec fn from_spec(v: Z) -> Self {
        Function { function: v, marker: PhantomData }
    }
}

impl<Z, R, A, B, C, D, E, F> From<Z> for Function<Z, (A, B, C, D, E, F), R> where Z: Fn(A, B, C, D, E, F) -> R {
    fn from(func: Z) -> (r: Self) {
        Function { function: func, marker: PhantomData }
    }
}

impl<Z, R, A, B, C, D, E, F> vstd::std_specs::convert::FromSpecImpl<Z> for Function<Z, (A, B, C, D, E, F), R> where Z: Fn(A, B, C, D, E, F) -> R {
    open spec fn obeys_from_spec() -> bool {
        true
    }

    closed spec fn from_spec(v: Z) -> Self {
        Function { function: v, marker: PhantomData }
    }
}

impl<Z, R, A, B, C, D, E, F, G> From<Z> for Function<Z, (A, B, C, D, E, F, G), R> where Z: Fn(A, B, C, D, E, F, G) -> R {
    fn from(func: Z) -> (r: Self) {
        Function { function: func, marker: PhantomData }
    }
}

impl<Z, R, A, B, C, D, E, F, G> vstd::std_specs::convert::FromSpecImpl<Z> for Function<Z, (A, B, C, D, E, F, G), R> where Z: Fn(A, B, C, D, E, F, G) -> R {
    open spec fn obeys_from_spec() -> bool {
        true
    }

    closed spec fn from_spec(v: Z) -> Self {
        Function { function: v, marker: PhantomData }
    }
}

impl<Z, R, A, B, C, D, E, F, G, H> From<Z> for Function<Z, (A, B, C, D, E, F, G, H), R> where Z: Fn(A, B, C, D, E, F, G, H) -> R {
    fn from(func: Z) -> (r: Self) {
        Function { function: func, marker: PhantomData }
    }
}

impl<Z, R, A, B, C, D, E, F, G, H> vstd::std_specs::convert::FromSpecImpl<Z> for Function<Z, (A, B, C, D, E, F, G, H), R> where Z: Fn(A, B, C, D, E, F, G, H) -> R {
    open spec fn obeys_from_spec() -> bool {
        true
    }

    closed spec fn from_spec(v: Z) -> Self {
        Function { function: v, marker: PhantomData }
    }
}

impl<Z, R, A, B, C, D, E, F, G, H, I> From<Z> for Function<Z, (A, B, C, D, E, F, G, H, I), R> where Z: Fn(A, B, C, D, E, F, G, H, I) -> R {
    fn from(func: Z) -> (r: Self) {
        Function { function: func, marker: PhantomData }
    }
}

impl<Z, R, A, B, C, D, E, F, G, H, I> vstd::std_specs::convert::FromSpecImpl<Z> for Function<Z, (A, B, C, D, E, F, G, H, I), R> where Z: Fn(A, B, C, D, E, F, G, H, I) -> R {
    open spec fn obeys_from_spec() -> bool {
        true
    }

    closed spec fn from_spec(v: Z) -> Self {
        Function { function: v, marker: PhantomData }
    }
}

impl<Z, R, A, B, C, D, E, F, G, H, I, J> From<Z> for Function<Z, (A, B, C, D, E, F, G, H, I, J), R> where Z: Fn(A, B, C, D, E, F, G, H, I, J) -> R {
    fn from(func: Z) -> (r: Self) {
        Function { function: func, marker: PhantomData }
    }
}

impl<Z, R, A, B, C, D, E, F, G, H, I, J> vstd::std_specs::convert::FromSpecImpl<Z> for Function<Z, (A, B, C, D, E, F, G, H, I, J), R> where Z: Fn(A, B, C, D, E, F, G, H, I, J) -> R {
    open spec fn obeys_from_spec() -> bool {
        true
    }

    closed spec fn from_spec(v: Z) -> Self {
        Function { function: v, marker: PhantomData }
    }
}

/// Registering a callable allocates a captured-state block exactly when
/// the captured state is not zero-sized: pushing a wrapper whose closure
/// captures nothing leaves the interpreter's block count unchanged.
pub proof fn lemma_zero_sized_allocates_no_block<Z, P, R>(
    f: Function<Z, P, R>,
    pre: Seq<NativeMeta>,
    post: Seq<NativeMeta>,
) where
    Function<Z, P, R>: FunctionExt<P, Output = R> + 'static,
    P: Readable,
    R: CallbackReturn,

    requires
        f.push_effect(pre, post),
    ensures
        crate::vm::blocks_of(post) == crate::vm::blocks_of(pre) + (
        if size_of::<Z>() == 0 {
            0nat
        } else {
            1nat
        }),
{
    assert(post.drop_last() =~= pre);
}

/// Round-trip correctness: when the argument frame decodes to `p`, every
/// successful trampoline outcome is the encoding of a result the wrapped
/// callable may produce for `p` itself — invoking through the bridge
/// agrees with calling the host callable directly on the decoded
/// arguments.
pub proof fn lemma_round_trip<T, P, R>(fpre: T, pre: Seq<LuaVal>, post: Seq<LuaVal>, n: usize, p: P)
    where
        T: FunctionExt<P, Output = R>,
        P: Readable,
        R: CallbackReturn,

    requires
        exists|q: P, out: R|
            {
                &&& #[trigger] P::read_rel(pre, q)
                &&& #[trigger] fpre.call_rel(q, out)
                &&& post == out.ret_repr()
                &&& n == out.ret_repr().len()
            },
        P::read_rel(pre, p),
    ensures
        exists|out: R|
            {
                &&& #[trigger] fpre.call_rel(p, out)
                &&& post == out.ret_repr()
                &&& n == out.ret_repr().len()
            },
{
    let (q, out) = choose|q: P, out: R|
        {
            &&& #[trigger] P::read_rel(pre, q)
            &&& #[trigger] fpre.call_rel(q, out)
            &&& post == out.ret_repr()
            &&& n == out.ret_repr().len()
        };
    P::lemma_read_deterministic(pre, q, p);
}

} // verus!
