use std::sync::atomic::{AtomicU32, Ordering};
use std::sync::Arc;

use lua::{
    function, function0, function1, function10, function2, function3, function4, function5,
    function6, function7, function8, function9, trampoline, ExecutionError, Function, Lua,
    LuaStack, LuaValue,
};

#[test]
fn round_trip_every_arity() {
    let mut lua = Lua::new();
    lua.set("f0", function0(|| 0i64)).unwrap();
    lua.set("f1", function1(|a: i64| a)).unwrap();
    lua.set("f2", function2(|a: i64, b: i64| a + b)).unwrap();
    lua.set("f3", function3(|a: i64, b: i64, c: i64| a + b + c)).unwrap();
    lua.set("f4", function4(|a: i64, b: i64, c: i64, d: i64| a + b + c + d)).unwrap();
    lua.set("f5", function5(|a: i64, b: i64, c: i64, d: i64, e: i64| a + b + c + d + e)).unwrap();
    lua.set(
        "f6",
        function6(|a: i64, b: i64, c: i64, d: i64, e: i64, f: i64| a + b + c + d + e + f),
    )
    .unwrap();
    lua.set(
        "f7",
        function7(|a: i64, b: i64, c: i64, d: i64, e: i64, f: i64, g: i64| {
            a + b + c + d + e + f + g
        }),
    )
    .unwrap();
    lua.set(
        "f8",
        function8(|a: i64, b: i64, c: i64, d: i64, e: i64, f: i64, g: i64, h: i64| {
            a + b + c + d + e + f + g + h
        }),
    )
    .unwrap();
    lua.set(
        "f9",
        function9(|a: i64, b: i64, c: i64, d: i64, e: i64, f: i64, g: i64, h: i64, i: i64| {
            a + b + c + d + e + f + g + h + i
        }),
    )
    .unwrap();
    lua.set(
        "f10",
        function10(
            |a: i64, b: i64, c: i64, d: i64, e: i64, f: i64, g: i64, h: i64, i: i64, j: i64| {
                a + b + c + d + e + f + g + h + i + j
            },
        ),
    )
    .unwrap();

    assert_eq!(lua.execute::<i64>("return f0()").unwrap(), 0);
    assert_eq!(lua.execute::<i64>("return f1(1)").unwrap(), 1);
    assert_eq!(lua.execute::<i64>("return f2(1, 2)").unwrap(), 3);
    assert_eq!(lua.execute::<i64>("return f3(1, 2, 3)").unwrap(), 6);
    assert_eq!(lua.execute::<i64>("return f4(1, 2, 3, 4)").unwrap(), 10);
    assert_eq!(lua.execute::<i64>("return f5(1, 2, 3, 4, 5)").unwrap(), 15);
    assert_eq!(lua.execute::<i64>("return f6(1, 2, 3, 4, 5, 6)").unwrap(), 21);
    assert_eq!(lua.execute::<i64>("return f7(1, 2, 3, 4, 5, 6, 7)").unwrap(), 28);
    assert_eq!(lua.execute::<i64>("return f8(1, 2, 3, 4, 5, 6, 7, 8)").unwrap(), 36);
    assert_eq!(lua.execute::<i64>("return f9(1, 2, 3, 4, 5, 6, 7, 8, 9)").unwrap(), 45);
    assert_eq!(lua.execute::<i64>("return f10(1, 2, 3, 4, 5, 6, 7, 8, 9, 10)").unwrap(), 55);
}

#[test]
fn decode_error_skips_closure_body() {
    let calls = Arc::new(AtomicU32::new(0));
    let mut lua = Lua::new();

    let c = Arc::clone(&calls);
    lua.set(
        "watched",
        function2(move |a: i64, b: i64| {
            c.fetch_add(1, Ordering::SeqCst);
            a + b
        }),
    )
    .unwrap();

    assert!(lua.execute::<i64>("return watched(1)").is_err());
    assert!(lua.execute::<i64>("return watched(1, 2, 3)").is_err());
    assert!(lua.execute::<i64>("return watched(1, \"two\")").is_err());
    assert!(lua.execute::<i64>("return watched(true, 2)").is_err());
    assert_eq!(calls.load(Ordering::SeqCst), 0);

    assert_eq!(lua.execute::<i64>("return watched(1, 2)").unwrap(), 3);
    assert_eq!(calls.load(Ordering::SeqCst), 1);
}

#[test]
fn tuple_return_binds_three_values() {
    let mut lua = Lua::new();

    lua.set("values", function0(|| (12i32, 24i32, 48i32))).unwrap();

    lua.execute::<()>("a, b, c = values()").unwrap();
    assert_eq!(lua.get::<&str, i32>("a").unwrap(), 12);
    assert_eq!(lua.get::<&str, i32>("b").unwrap(), 24);
    assert_eq!(lua.get::<&str, i32>("c").unwrap(), 48);

    let t: (i32, i32, i32) = lua.execute("return values()").unwrap();
    assert_eq!(t, (12, 24, 48));
}

#[test]
fn failure_outcome_is_nil_plus_message() {
    let mut lua = Lua::new();
    lua.openlibs();

    lua.set("always_fails", function0(|| -> Result<i64, &'static str> { Err("oops, problem") }))
        .unwrap();

    lua.execute::<()>("local r, e = always_fails(); assert(r == nil); assert(e == 'oops, problem')")
        .unwrap();
}

#[test]
fn failure_outcome_raises_under_assert() {
    let mut lua = Lua::new();
    lua.openlibs();

    lua.set("always_fails", function0(|| -> Result<i64, &'static str> { Err("oops, problem") }))
        .unwrap();

    assert!(lua.execute::<()>("local r = assert(always_fails())").is_err());
}

struct Teardown {
    count: Arc<AtomicU32>,
}

impl Drop for Teardown {
    fn drop(&mut self) {
        self.count.fetch_add(1, Ordering::SeqCst);
    }
}

#[test]
fn teardown_runs_once_after_vm_destroyed() {
    let teardowns = Arc::new(AtomicU32::new(0));

    {
        let resource = Teardown { count: Arc::clone(&teardowns) };
        let mut lua = Lua::new();
        lua.set(
            "holds_resource",
            function0(move || {
                let _ = &resource;
                7i64
            }),
        )
        .unwrap();
        // The callable is never invoked.
        assert_eq!(teardowns.load(Ordering::SeqCst), 0);
    }

    assert_eq!(teardowns.load(Ordering::SeqCst), 1);
}

#[test]
fn zero_sized_closure_allocates_no_block() {
    let mut lua = Lua::new();
    assert_eq!(lua.allocated_blocks(), 0);

    lua.set("add", function2(|a: i64, b: i64| a + b)).unwrap();
    assert_eq!(lua.allocated_blocks(), 0);

    let base: i64 = 40;
    lua.set("offset", function1(move |x: i64| x + base)).unwrap();
    assert_eq!(lua.allocated_blocks(), 1);

    assert_eq!(lua.execute::<i64>("return offset(2)").unwrap(), 42);
}

#[test]
fn add_scenario() {
    let mut lua = Lua::new();
    lua.set("add", function2(|a: i64, b: i64| a + b)).unwrap();
    assert_eq!(lua.execute::<i64>("return add(3, 7)").unwrap(), 10);
}

#[test]
fn syntax_error_reported() {
    let mut lua = Lua::new();
    match lua.execute::<()>("local = @") {
        Err(ExecutionError::SyntaxError(_)) => {},
        _ => panic!(),
    }
    match lua.execute::<()>("return add(") {
        Err(ExecutionError::SyntaxError(_)) => {},
        _ => panic!(),
    }
}

#[test]
fn calling_a_non_function_fails() {
    let mut lua = Lua::new();
    match lua.execute::<()>("return nothing_here(1)") {
        Err(ExecutionError::ExecError(_)) => {},
        _ => panic!(),
    }
    lua.set("five", 5i64).unwrap();
    match lua.execute::<()>("return five(1)") {
        Err(ExecutionError::ExecError(_)) => {},
        _ => panic!(),
    }
}

#[test]
fn wrong_return_type_fails() {
    let mut lua = Lua::new();
    match lua.execute::<i32>("return") {
        Err(ExecutionError::ExecError(_)) => {},
        _ => panic!(),
    }
    lua.set("truth", function0(|| true)).unwrap();
    match lua.execute::<i32>("return truth()") {
        Err(ExecutionError::ExecError(_)) => {},
        _ => panic!(),
    }
    assert_eq!(lua.execute::<bool>("return truth()").unwrap(), true);
}

#[test]
fn assert_builtin_behaviour() {
    let mut lua = Lua::new();
    lua.openlibs();

    lua.execute::<()>("assert(true)").unwrap();
    assert_eq!(lua.execute::<i64>("return assert(5)").unwrap(), 5);
    assert!(lua.execute::<()>("assert(false)").is_err());
    assert!(lua.execute::<()>("assert(nil)").is_err());
    assert!(lua.execute::<()>("assert()").is_err());
}

#[test]
fn globals_set_and_get() {
    let mut lua = Lua::new();

    lua.set("x", 42i64).unwrap();
    assert_eq!(lua.get::<&str, i64>("x").unwrap(), 42);

    lua.set("x", 43i64).unwrap();
    assert_eq!(lua.get::<&str, i64>("x").unwrap(), 43);

    lua.set("flag", true).unwrap();
    assert_eq!(lua.get::<&str, bool>("flag").unwrap(), true);

    assert!(lua.get::<&str, i64>("missing").is_none());
    assert!(lua.get::<&str, bool>("x").is_none());
}

#[test]
fn accessor_set_and_get() {
    let mut lua = Lua::new();

    lua.access("y").set(9i64).unwrap();
    let got: Option<i64> = lua.access("y").get();
    assert_eq!(got.unwrap(), 9);
}

#[test]
fn string_values_cross_the_bridge() {
    let mut lua = Lua::new();
    lua.openlibs();

    lua.set("greet", function0(|| "hi there")).unwrap();
    lua.execute::<()>("local s = greet(); assert(s == 'hi there')").unwrap();

    lua.set("owned", function0(|| String::from("made here"))).unwrap();
    lua.execute::<()>("local s = owned(); assert(s == 'made here')").unwrap();

    lua.set("motto", "carpe diem").unwrap();
    lua.execute::<()>("assert(motto == 'carpe diem')").unwrap();
}

#[test]
fn generic_function_constructor() {
    let mut lua = Lua::new();

    let wrapped: Function<_, _, _> = function(|a: i64, b: i64| a * b);
    lua.set("mul3", wrapped).unwrap();
    assert_eq!(lua.execute::<i64>("return mul3(6, 7)").unwrap(), 42);
}

#[test]
fn scripts_observe_host_state_changes() {
    let counter = Arc::new(AtomicU32::new(0));
    let mut lua = Lua::new();

    let c = Arc::clone(&counter);
    lua.set(
        "next_value",
        function0(move || c.fetch_add(1, Ordering::SeqCst) as i64),
    )
    .unwrap();

    assert_eq!(lua.execute::<i64>("return next_value()").unwrap(), 0);
    assert_eq!(lua.execute::<i64>("return next_value()").unwrap(), 1);
    assert_eq!(lua.execute::<i64>("return next_value()").unwrap(), 2);
}

#[test]
fn nested_outcome_success_flattens() {
    let mut lua = Lua::new();
    lua.openlibs();

    lua.set("pair_ok", function0(|| -> Result<(i64, i64), &'static str> { Ok((4, 5)) })).unwrap();
    lua.execute::<()>("local a, b = pair_ok(); assert(a == 4); assert(b == 5)").unwrap();
}

#[test]
fn locals_shadow_globals() {
    let mut lua = Lua::new();
    lua.openlibs();

    lua.set("v", 1i64).unwrap();
    lua.execute::<()>("local v = 2; assert(v == 2)").unwrap();
    assert_eq!(lua.get::<&str, i64>("v").unwrap(), 1);
}

#[test]
fn trampoline_decodes_invokes_encodes() {
    let mut f = function2(|a: i64, b: i64| a + b);

    let mut frame = LuaStack::from_values(vec![LuaValue::Int(30), LuaValue::Int(12)]);
    let n = trampoline(&mut f, &mut frame).unwrap();
    assert_eq!(n, 1);
    let rets = frame.into_values();
    assert_eq!(rets.len(), 1);
    assert!(matches!(rets[0], LuaValue::Int(42)));

    let mut bad = LuaStack::from_values(vec![LuaValue::Int(30), LuaValue::Bool(true)]);
    let e = trampoline(&mut f, &mut bad).unwrap_err();
    assert_eq!(e.message, "wrong parameter types for callback function");
}
