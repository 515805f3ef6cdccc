use vstd::prelude::*;

use crate::script::{CallExpr, EqExpr, Expr, SimpleExpr, Stat};
use crate::stack::LuaStack;
use crate::value::{bytes_eq, copy_bytes, BuiltinFn, LuaValue};
use crate::vm::{ExecutionError, Lua};

verus! {

/// The interpreter's runtime error for calling something that is not a
/// function.
fn err_not_callable() -> (r: ExecutionError)
    ensures
        r is ExecError,
{
    ExecutionError::ExecError(("attempt to call a non-function value").to_owned())
}

/// Looks a name up among the locals, latest binding first.
fn local_lookup(locals: &Vec<(Vec<u8>, LuaValue)>, name: &Vec<u8>) -> (r: Option<LuaValue>) {
    let mut i: usize = locals.len();
    while i > 0
        invariant
            i <= locals.len(),
        decreases i,
    {
        i -= 1;
        if bytes_eq(&locals[i].0, name) {
            return Some(locals[i].1.duplicate());
        }
    }
    None
}

/// The value a name denotes: the innermost local of that name, else the
/// latest global binding, else the absent value.
fn var_value(lua: &Lua, locals: &Vec<(Vec<u8>, LuaValue)>, name: &Vec<u8>) -> (r: LuaValue) {
    match local_lookup(locals, name) {
        Some(v) => v,
        None => match lua.global_lookup(name) {
            Some(v) => v,
            None => LuaValue::Nil,
        },
    }
}

fn eval_simple(lua: &Lua, locals: &Vec<(Vec<u8>, LuaValue)>, e: &SimpleExpr) -> (r: LuaValue) {
    match e {
        SimpleExpr::Nil => LuaValue::Nil,
        SimpleExpr::True => LuaValue::Bool(true),
        SimpleExpr::False => LuaValue::Bool(false),
        SimpleExpr::Int(n) => LuaValue::Int(*n),
        SimpleExpr::Str(s) => LuaValue::Str(copy_bytes(s)),
        SimpleExpr::Var(n) => var_value(lua, locals, n),
    }
}

fn eval_eqexpr(lua: &Lua, locals: &Vec<(Vec<u8>, LuaValue)>, e: &EqExpr) -> (r: LuaValue) {
    match e {
        EqExpr::Simple(s) => eval_simple(lua, locals, s),
        EqExpr::Eq(a, b) => {
            let va = eval_simple(lua, locals, a);
            let vb = eval_simple(lua, locals, b);
            LuaValue::Bool(va.raw_equals(&vb))
        },
    }
}

/// Runs one call: resolves the callee, evaluates the arguments, and either
/// dispatches into the registered host callable's trampoline or runs the
/// built-in. On success the call's return values come back in order.
fn eval_call(lua: &mut Lua, locals: &Vec<(Vec<u8>, LuaValue)>, c: &CallExpr) -> (r: Result<
    Vec<LuaValue>,
    ExecutionError,
>)
    ensures
        final(lua)@.globals == old(lua)@.globals,
        final(lua)@.natives == old(lua)@.natives,
        final(lua)@.libs == old(lua)@.libs,
        r matches Err(e) ==> e is ExecError,
{
    let callee = var_value(lua, locals, &c.name);
    let mut args: Vec<LuaValue> = Vec::new();
    let mut i: usize = 0;
    while i < c.args.len()
        invariant
            i <= c.args@.len(),
        decreases c.args@.len() - i,
    {
        args.push(eval_eqexpr(lua, locals, &c.args[i]));
        i += 1;
    }
    match callee {
        LuaValue::Native(id) => {
            let mut frame = LuaStack::from_values(args);
            match lua.native_call(id, &mut frame) {
                Ok(_) => Ok(frame.into_values()),
                Err(e) => Err(ExecutionError::ExecError(e.message)),
            }
        },
        LuaValue::Builtin(BuiltinFn::Assert) => {
            if args.len() == 0 {
                return Err(
                    ExecutionError::ExecError(
                        ("bad argument to 'assert' (value expected)").to_owned(),
                    ),
                );
            }
            if args[0].is_truthy() {
                Ok(args)
            } else {
                Err(ExecutionError::ExecError(("assertion failed!").to_owned()))
            }
        },
        _ => Err(err_not_callable()),
    }
}

/// Evaluates an expression list to its flat value sequence: every
/// expression contributes one value, except a call in the last position,
/// which contributes all of its return values, and a call elsewhere, which
/// is truncated to its first return value (or the absent value).
fn eval_explist(lua: &mut Lua, locals: &Vec<(Vec<u8>, LuaValue)>, exprs: &Vec<Expr>) -> (r: Result<
    Vec<LuaValue>,
    ExecutionError,
>)
    ensures
        final(lua)@.globals == old(lua)@.globals,
        final(lua)@.natives == old(lua)@.natives,
        final(lua)@.libs == old(lua)@.libs,
        r matches Err(e) ==> e is ExecError,
{
    let mut vals: Vec<LuaValue> = Vec::new();
    let mut i: usize = 0;
    while i < exprs.len()
        invariant
            i <= exprs@.len(),
            lua@.globals == old(lua)@.globals,
            lua@.natives == old(lua)@.natives,
            lua@.libs == old(lua)@.libs,
        decreases exprs@.len() - i,
    {
        let last = i + 1 == exprs.len();
        match &exprs[i] {
            Expr::Plain(e) => {
                vals.push(eval_eqexpr(lua, locals, e));
            },
            Expr::Call(c) => {
                let mut rets = match eval_call(lua, locals, c) {
                    Ok(v) => v,
                    Err(e) => {
                        return Err(e);
                    },
                };
                if last {
                    let mut j: usize = 0;
                    while j < rets.len()
                        invariant
                            j <= rets@.len(),
                        decreases rets@.len() - j,
                    {
                        vals.push(rets[j].duplicate());
                        j += 1;
                    }
                } else {
                    if rets.len() > 0 {
                        vals.push(rets[0].duplicate());
                    } else {
                        vals.push(LuaValue::Nil);
                    }
                }
            },
        }
        i += 1;
    }
    Ok(vals)
}

/// Runs the statements in order. The result is the value sequence of the
/// first `return` statement reached, or the empty sequence when the
/// program ends without one. Global bindings made by the program extend
/// the interpreter's globals; nothing is ever registered or unregistered.
pub(crate) fn exec_stats(lua: &mut Lua, stats: &Vec<Stat>) -> (r: Result<
    Vec<LuaValue>,
    ExecutionError,
>)
    ensures
        old(lua)@.globals.is_prefix_of(final(lua)@.globals),
        final(lua)@.natives == old(lua)@.natives,
        final(lua)@.libs == old(lua)@.libs,
        r matches Err(e) ==> e is ExecError,
{
    let mut locals: Vec<(Vec<u8>, LuaValue)> = Vec::new();
    let mut si: usize = 0;
    while si < stats.len()
        invariant
            si <= stats@.len(),
            old(lua)@.globals.is_prefix_of(lua@.globals),
            lua@.natives == old(lua)@.natives,
            lua@.libs == old(lua)@.libs,
        decreases stats@.len() - si,
    {
        match &stats[si] {
            Stat::Local(names, exprs) => {
                let vals = match eval_explist(lua, &locals, exprs) {
                    Ok(v) => v,
                    Err(e) => {
                        return Err(e);
                    },
                };
                let mut i: usize = 0;
                while i < names.len()
                    invariant
                        i <= names@.len(),
                    decreases names@.len() - i,
                {
                    let v = if i < vals.len() {
                        vals[i].duplicate()
                    } else {
                        LuaValue::Nil
                    };
                    locals.push((copy_bytes(&names[i]), v));
                    i += 1;
                }
            },
            Stat::Assign(names, exprs) => {
                let vals = match eval_explist(lua, &locals, exprs) {
                    Ok(v) => v,
                    Err(e) => {
                        return Err(e);
                    },
                };
                let mut i: usize = 0;
                while i < names.len()
                    invariant
                        i <= names@.len(),
                        old(lua)@.globals.is_prefix_of(lua@.globals),
                        lua@.natives == old(lua)@.natives,
                        lua@.libs == old(lua)@.libs,
                    decreases names@.len() - i,
                {
                    let v = if i < vals.len() {
                        vals[i].duplicate()
                    } else {
                        LuaValue::Nil
                    };
                    let name = copy_bytes(&names[i]);
                    if local_lookup(&locals, &name).is_some() {
                        locals.push((name, v));
                    } else {
                        lua.global_bind(name, v);
                    }
                    i += 1;
                }
            },
            Stat::Return(exprs) => {
                return eval_explist(lua, &locals, exprs);
            },
            Stat::CallStat(c) => {
                match eval_call(lua, &locals, c) {
                    Ok(_) => {},
                    Err(e) => {
                        return Err(e);
                    },
                };
            },
        }
        si += 1;
    }
    Ok(Vec::new())
}

} // verus!
