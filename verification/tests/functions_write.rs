use std::sync::atomic::{AtomicBool, AtomicI32, Ordering};
use std::sync::Arc;

use lua::{function0, function1, function2, ExecutionError, Lua};

fn ret5() -> i32 {
    5
}

fn plus_one(val: i32) -> i32 {
    val + 1
}

fn add(val1: i32, val2: i32) -> i32 {
    val1 + val2
}

#[test]
fn simple_function() {
    let mut lua = Lua::new();

    lua.set("ret5", function0(ret5)).unwrap();

    let val: i32 = lua.execute("return ret5()").unwrap();
    assert_eq!(val, 5);
}

#[test]
fn one_argument() {
    let mut lua = Lua::new();

    lua.set("plus_one", function1(plus_one)).unwrap();

    let val: i32 = lua.execute("return plus_one(3)").unwrap();
    assert_eq!(val, 4);
}

#[test]
fn two_arguments() {
    let mut lua = Lua::new();

    lua.set("add", function2(add)).unwrap();

    let val: i32 = lua.execute("return add(3, 7)").unwrap();
    assert_eq!(val, 10);
}

#[test]
fn wrong_arguments_types() {
    let mut lua = Lua::new();

    lua.set("add", function2(add)).unwrap();

    match lua.execute::<i32>("return add(3, \"hello\")") {
        Err(ExecutionError::ExecError(_)) => (),
        _ => panic!(),
    }
}

fn always_fails() -> Result<i32, &'static str> {
    Err("oops, problem")
}

#[test]
fn return_result() {
    let mut lua = Lua::new();
    lua.openlibs();

    lua.set("always_fails", function0(always_fails)).unwrap();

    match lua.execute::<()>(
        r#"
        local res, err = always_fails();
        assert(res == nil);
        assert(err == "oops, problem");
    "#,
    ) {
        Ok(()) => {},
        Err(e) => panic!("{:?}", e),
    }
}

#[test]
fn closures() {
    let mut lua = Lua::new();

    lua.set("add", function2(|a: i32, b: i32| a + b)).unwrap();
    lua.set("sub", function2(|a: i32, b: i32| a - b)).unwrap();

    let val1: i32 = lua.execute("return add(3, 7)").unwrap();
    assert_eq!(val1, 10);

    let val2: i32 = lua.execute("return sub(5, 2)").unwrap();
    assert_eq!(val2, 3);
}

fn closures_lifetime_t<F>(f: F)
where
    F: Fn(i32, i32) -> i32 + 'static,
{
    let mut lua = Lua::new();

    lua.set("add", function2(f)).unwrap();

    let val1: i32 = lua.execute("return add(3, 7)").unwrap();
    assert_eq!(val1, 10);
}

#[test]
fn closures_lifetime() {
    closures_lifetime_t(|a, b| a + b);
}

#[test]
fn closures_extern_access() {
    let a = Arc::new(AtomicI32::new(5));

    {
        let mut lua = Lua::new();

        let a2 = Arc::clone(&a);
        lua.set(
            "inc",
            function0(move || {
                a2.fetch_add(1, Ordering::SeqCst);
            }),
        )
        .unwrap();
        for _ in 0..15 {
            lua.execute::<()>("inc()").unwrap();
        }
    }

    assert_eq!(a.load(Ordering::SeqCst), 20)
}

#[derive(Debug)]
struct Foo {
    flag: Arc<AtomicBool>,
}

impl Drop for Foo {
    fn drop(&mut self) {
        self.flag.store(true, Ordering::SeqCst);
    }
}

#[test]
fn closures_drop_env() {
    let did_destructor_run = Arc::new(AtomicBool::new(false));

    {
        let foo = Arc::new(Foo { flag: Arc::clone(&did_destructor_run) });

        {
            let mut lua = Lua::new();

            lua.set("print_foo", function0(move || println!("{:?}", foo))).unwrap();
        }
    }
    assert_eq!(did_destructor_run.load(Ordering::SeqCst), true);
}
