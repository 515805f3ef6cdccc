use vstd::prelude::*;

use crate::callback::InsideCallback;
use crate::marshal::{CallbackReturn, Readable};
use crate::stack::LuaStack;
use crate::value::{LuaVal, LuaValue};

verus! {

impl Readable for () {
    open spec fn readable(slots: Seq<LuaVal>) -> bool {
        slots.len() == 0
    }

    open spec fn read_rel(slots: Seq<LuaVal>, v: Self) -> bool {
        slots.len() == 0
    }

    proof fn lemma_read_deterministic(slots: Seq<LuaVal>, v1: Self, v2: Self) {
    }

    proof fn lemma_read_rel_readable(slots: Seq<LuaVal>, v: Self) {
    }

    fn read_slot(v: &LuaValue) -> (r: Option<Self>) {
        None
    }

    fn read_from_lua(stack: &LuaStack) -> (r: Option<Self>) {
        if stack.len() == 0 {
            Some(())
        } else {
            None
        }
    }
}

impl<A: Readable> Readable for (A,) {
    open spec fn readable(slots: Seq<LuaVal>) -> bool {
        &&& slots.len() == 1
        &&& A::readable(seq![slots[0]])
    }

    open spec fn read_rel(slots: Seq<LuaVal>, v: Self) -> bool {
        &&& slots.len() == 1
        &&& A::read_rel(seq![slots[0]], v.0)
    }

    proof fn lemma_read_deterministic(slots: Seq<LuaVal>, v1: Self, v2: Self) {
        A::lemma_read_deterministic(seq![slots[0]], v1.0, v2.0);
    }

    proof fn lemma_read_rel_readable(slots: Seq<LuaVal>, v: Self) {
        A::lemma_read_rel_readable(seq![slots[0]], v.0);
    }

    fn read_slot(v: &LuaValue) -> (r: Option<Self>) {
        match A::read_slot(v) {
            Some(a) => Some((a,)),
            None => None,
        }
    }

    fn read_from_lua(stack: &LuaStack) -> (r: Option<Self>) {
        if stack.len() == 1 {
            proof {
                assert(seq![stack@[0]] =~= stack@);
            }
            Self::read_slot(stack.get(0))
        } else {
            None
        }
    }
}

impl<A: Readable, B: Readable> Readable for (A, B) {
    open spec fn readable(slots: Seq<LuaVal>) -> bool {
        &&& slots.len() == 2
        &&& A::readable(seq![slots[0]])
        &&& B::readable(seq![slots[1]])
    }

    open spec fn read_rel(slots: Seq<LuaVal>, v: Self) -> bool {
        &&& slots.len() == 2
        &&& A::read_rel(seq![slots[0]], v.0)
        &&& B::read_rel(seq![slots[1]], v.1)
    }

    proof fn lemma_read_deterministic(slots: Seq<LuaVal>, v1: Self, v2: Self) {
        A::lemma_read_deterministic(seq![slots[0]], v1.0, v2.0);
        B::lemma_read_deterministic(seq![slots[1]], v1.1, v2.1);
    }

    proof fn lemma_read_rel_readable(slots: Seq<LuaVal>, v: Self) {
        A::lemma_read_rel_readable(seq![slots[0]], v.0);
        B::lemma_read_rel_readable(seq![slots[1]], v.1);
    }

    fn read_slot(v: &LuaValue) -> (r: Option<Self>) {
        None
    }

    fn read_from_lua(stack: &LuaStack) -> (r: Option<Self>) {
        if stack.len() == 2 {
            let a = match A::read_slot(stack.get(0)) {
                Some(a) => a,
                None => {
                    return None;
                },
            };
            let b = match B::read_slot(stack.get(1)) {
                Some(b) => b,
                None => {
                    return None;
                },
            };
            Some((a, b))
        } else {
            None
        }
    }
}

impl<A: Readable, B: Readable, C: Readable> Readable for (A, B, C) {
    open spec fn readable(slots: Seq<LuaVal>) -> bool {
        &&& slots.len() == 3
        &&& A::readable(seq![slots[0]])
        &&& B::readable(seq![slots[1]])
        &&& C::readable(seq![slots[2]])
    }

    open spec fn read_rel(slots: Seq<LuaVal>, v: Self) -> bool {
        &&& slots.len() == 3
        &&& A::read_rel(seq![slots[0]], v.0)
        &&& B::read_rel(seq![slots[1]], v.1)
        &&& C::read_rel(seq![slots[2]], v.2)
    }

    proof fn lemma_read_deterministic(slots: Seq<LuaVal>, v1: Self, v2: Self) {
        A::lemma_read_deterministic(seq![slots[0]], v1.0, v2.0);
        B::lemma_read_deterministic(seq![slots[1]], v1.1, v2.1);
        C::lemma_read_deterministic(seq![slots[2]], v1.2, v2.2);
    }

    proof fn lemma_read_rel_readable(slots: Seq<LuaVal>, v: Self) {
        A::lemma_read_rel_readable(seq![slots[0]], v.0);
        B::lemma_read_rel_readable(seq![slots[1]], v.1);
        C::lemma_read_rel_readable(seq![slots[2]], v.2);
    }

    fn read_slot(v: &LuaValue) -> (r: Option<Self>) {
        None
    }

    fn read_from_lua(stack: &LuaStack) -> (r: Option<Self>) {
        if stack.len() == 3 {
            let a = match A::read_slot(stack.get(0)) {
                Some(a) => a,
                None => {
                    return None;
                },
            };
            let b = match B::read_slot(stack.get(1)) {
                Some(b) => b,
                None => {
                    return None;
                },
            };
            let c = match C::read_slot(stack.get(2)) {
                Some(c) => c,
                None => {
                    return None;
                },
            };
            Some((a, b, c))
        } else {
            None
        }
    }
}

impl CallbackReturn for () {
    open spec fn ret_repr(self) -> Seq<LuaVal> {
        Seq::empty()
    }

    fn push_to_callback(self, ctx: &mut InsideCallback) {
        proof {
            assert(final(ctx)@ =~= old(ctx)@ + self.ret_repr());
        }
    }
}

impl<A: CallbackReturn, B: CallbackReturn> CallbackReturn for (A, B) {
    open spec fn ret_repr(self) -> Seq<LuaVal> {
        self.0.ret_repr() + self.1.ret_repr()
    }

    fn push_to_callback(self, ctx: &mut InsideCallback) {
        let ghost repr = self.ret_repr();
        let (a, b) = self;
        a.push_to_callback(ctx);
        b.push_to_callback(ctx);
        proof {
            assert(final(ctx)@ =~= old(ctx)@ + repr);
        }
    }
}

impl<A: CallbackReturn, B: CallbackReturn, C: CallbackReturn> CallbackReturn for (A, B, C) {
    open spec fn ret_repr(self) -> Seq<LuaVal> {
        self.0.ret_repr() + self.1.ret_repr() + self.2.ret_repr()
    }

    fn push_to_callback(self, ctx: &mut InsideCallback) {
        let ghost repr = self.ret_repr();
        let (a, b, c) = self;
        a.push_to_callback(ctx);
        b.push_to_callback(ctx);
        c.push_to_callback(ctx);
        proof {
            assert(final(ctx)@ =~= old(ctx)@ + repr);
        }
    }
}

impl<A: CallbackReturn, B: CallbackReturn, C: CallbackReturn, D: CallbackReturn> CallbackReturn for (
    A,
    B,
    C,
    D,
) {
    open spec fn ret_repr(self) -> Seq<LuaVal> {
        self.0.ret_repr() + self.1.ret_repr() + self.2.ret_repr() + self.3.ret_repr()
    }

    fn push_to_callback(self, ctx: &mut InsideCallback) {
        let ghost repr = self.ret_repr();
        let (a, b, c, d) = self;
        a.push_to_callback(ctx);
        b.push_to_callback(ctx);
        c.push_to_callback(ctx);
        d.push_to_callback(ctx);
        proof {
            assert(final(ctx)@ =~= old(ctx)@ + repr);
        }
    }
}

impl<A: Readable, B: Readable, C: Readable, D: Readable> Readable for (A, B, C, D) {
    open spec fn readable(slots: Seq<LuaVal>) -> bool {
        &&& slots.len() == 4
        &&& A::readable(seq![slots[0]])
        &&& B::readable(seq![slots[1]])
        &&& C::readable(seq![slots[2]])
        &&& D::readable(seq![slots[3]])
    }

    open spec fn read_rel(slots: Seq<LuaVal>, v: Self) -> bool {
        &&& slots.len() == 4
        &&& A::read_rel(seq![slots[0]], v.0)
        &&& B::read_rel(seq![slots[1]], v.1)
        &&& C::read_rel(seq![slots[2]], v.2)
        &&& D::read_rel(seq![slots[3]], v.3)
    }

    proof fn lemma_read_deterministic(slots: Seq<LuaVal>, v1: Self, v2: Self) {
        A::lemma_read_deterministic(seq![slots[0]], v1.0, v2.0);
        B::lemma_read_deterministic(seq![slots[1]], v1.1, v2.1);
        C::lemma_read_deterministic(seq![slots[2]], v1.2, v2.2);
        D::lemma_read_deterministic(seq![slots[3]], v1.3, v2.3);
    }

    proof fn lemma_read_rel_readable(slots: Seq<LuaVal>, v: Self) {
        A::lemma_read_rel_readable(seq![slots[0]], v.0);
        B::lemma_read_rel_readable(seq![slots[1]], v.1);
        C::lemma_read_rel_readable(seq![slots[2]], v.2);
        D::lemma_read_rel_readable(seq![slots[3]], v.3);
    }

    fn read_slot(v: &LuaValue) -> (r: Option<Self>) {
        None
    }

    fn read_from_lua(stack: &LuaStack) -> (r: Option<Self>) {
        if stack.len() == 4 {
            let x0 = match A::read_slot(stack.get(0)) {
                Some(x) => x,
                None => {
                    return None;
                },
            };
            let x1 = match B::read_slot(stack.get(1)) {
                Some(x) => x,
                None => {
                    return None;
                },
            };
            let x2 = match C::read_slot(stack.get(2)) {
                Some(x) => x,
                None => {
                    return None;
                },
            };
            let x3 = match D::read_slot(stack.get(3)) {
                Some(x) => x,
                None => {
                    return None;
                },
            };
            Some((x0, x1, x2, x3))
        } else {
            None
        }
    }
}

impl<A: Readable, B: Readable, C: Readable, D: Readable, E: Readable> Readable for (A, B, C, D, E) {
    open spec fn readable(slots: Seq<LuaVal>) -> bool {
        &&& slots.len() == 5
        &&& A::readable(seq![slots[0]])
        &&& B::readable(seq![slots[1]])
        &&& C::readable(seq![slots[2]])
        &&& D::readable(seq![slots[3]])
        &&& E::readable(seq![slots[4]])
    }

    open spec fn read_rel(slots: Seq<LuaVal>, v: Self) -> bool {
        &&& slots.len() == 5
        &&& A::read_rel(seq![slots[0]], v.0)
        &&& B::read_rel(seq![slots[1]], v.1)
        &&& C::read_rel(seq![slots[2]], v.2)
        &&& D::read_rel(seq![slots[3]], v.3)
        &&& E::read_rel(seq![slots[4]], v.4)
    }

    proof fn lemma_read_deterministic(slots: Seq<LuaVal>, v1: Self, v2: Self) {
        A::lemma_read_deterministic(seq![slots[0]], v1.0, v2.0);
        B::lemma_read_deterministic(seq![slots[1]], v1.1, v2.1);
        C::lemma_read_deterministic(seq![slots[2]], v1.2, v2.2);
        D::lemma_read_deterministic(seq![slots[3]], v1.3, v2.3);
        E::lemma_read_deterministic(seq![slots[4]], v1.4, v2.4);
    }

    proof fn lemma_read_rel_readable(slots: Seq<LuaVal>, v: Self) {
        A::lemma_read_rel_readable(seq![slots[0]], v.0);
        B::lemma_read_rel_readable(seq![slots[1]], v.1);
        C::lemma_read_rel_readable(seq![slots[2]], v.2);
        D::lemma_read_rel_readable(seq![slots[3]], v.3);
        E::lemma_read_rel_readable(seq![slots[4]], v.4);
    }

    fn read_slot(v: &LuaValue) -> (r: Option<Self>) {
        None
    }

    fn read_from_lua(stack: &LuaStack) -> (r: Option<Self>) {
        if stack.len() == 5 {
            let x0 = match A::read_slot(stack.get(0)) {
                Some(x) => x,
                None => {
                    return None;
                },
            };
            let x1 = match B::read_slot(stack.get(1)) {
                Some(x) => x,
                None => {
                    return None;
                },
            };
            let x2 = match C::read_slot(stack.get(2)) {
                Some(x) => x,
                None => {
                    return None;
                },
            };
            let x3 = match D::read_slot(stack.get(3)) {
                Some(x) => x,
                None => {
                    return None;
                },
            };
            let x4 = match E::read_slot(stack.get(4)) {
                Some(x) => x,
                None => {
                    return None;
                },
            };
            Some((x0, x1, x2, x3, x4))
        } else {
            None
        }
    }
}

impl<A: Readable, B: Readable, C: Readable, D: Readable, E: Readable, F: Readable> Readable for (A, B, C, D, E, F) {
    open spec fn readable(slots: Seq<LuaVal>) -> bool {
        &&& slots.len() == 6
        &&& A::readable(seq![slots[0]])
        &&& B::readable(seq![slots[1]])
        &&& C::readable(seq![slots[2]])
        &&& D::readable(seq![slots[3]])
        &&& E::readable(seq![slots[4]])
        &&& F::readable(seq![slots[5]])
    }

    open spec fn read_rel(slots: Seq<LuaVal>, v: Self) -> bool {
        &&& slots.len() == 6
        &&& A::read_rel(seq![slots[0]], v.0)
        &&& B::read_rel(seq![slots[1]], v.1)
        &&& C::read_rel(seq![slots[2]], v.2)
        &&& D::read_rel(seq![slots[3]], v.3)
        &&& E::read_rel(seq![slots[4]], v.4)
        &&& F::read_rel(seq![slots[5]], v.5)
    }

    proof fn lemma_read_deterministic(slots: Seq<LuaVal>, v1: Self, v2: Self) {
        A::lemma_read_deterministic(seq![slots[0]], v1.0, v2.0);
        B::lemma_read_deterministic(seq![slots[1]], v1.1, v2.1);
        C::lemma_read_deterministic(seq![slots[2]], v1.2, v2.2);
        D::lemma_read_deterministic(seq![slots[3]], v1.3, v2.3);
        E::lemma_read_deterministic(seq![slots[4]], v1.4, v2.4);
        F::lemma_read_deterministic(seq![slots[5]], v1.5, v2.5);
    }

    proof fn lemma_read_rel_readable(slots: Seq<LuaVal>, v: Self) {
        A::lemma_read_rel_readable(seq![slots[0]], v.0);
        B::lemma_read_rel_readable(seq![slots[1]], v.1);
        C::lemma_read_rel_readable(seq![slots[2]], v.2);
        D::lemma_read_rel_readable(seq![slots[3]], v.3);
        E::lemma_read_rel_readable(seq![slots[4]], v.4);
        F::lemma_read_rel_readable(seq![slots[5]], v.5);
    }

    fn read_slot(v: &LuaValue) -> (r: Option<Self>) {
        None
    }

    fn read_from_lua(stack: &LuaStack) -> (r: Option<Self>) {
        if stack.len() == 6 {
            let x0 = match A::read_slot(stack.get(0)) {
                Some(x) => x,
                None => {
                    return None;
                },
            };
            let x1 = match B::read_slot(stack.get(1)) {
                Some(x) => x,
                None => {
                    return None;
                },
            };
            let x2 = match C::read_slot(stack.get(2)) {
                Some(x) => x,
                None => {
                    return None;
                },
            };
            let x3 = match D::read_slot(stack.get(3)) {
                Some(x) => x,
                None => {
                    return None;
                },
            };
            let x4 = match E::read_slot(stack.get(4)) {
                Some(x) => x,
                None => {
                    return None;
                },
            };
            let x5 = match F::read_slot(stack.get(5)) {
                Some(x) => x,
                None => {
                    return None;
                },
            };
            Some((x0, x1, x2, x3, x4, x5))
        } else {
            None
        }
    }
}

impl<A: Readable, B: Readable, C: Readable, D: Readable, E: Readable, F: Readable, G: Readable> Readable for (A, B, C, D, E, F, G) {
    open spec fn readable(slots: Seq<LuaVal>) -> bool {
        &&& slots.len() == 7
        &&& A::readable(seq![slots[0]])
        &&& B::readable(seq![slots[1]])
        &&& C::readable(seq![slots[2]])
        &&& D::readable(seq![slots[3]])
        &&& E::readable(seq![slots[4]])
        &&& F::readable(seq![slots[5]])
        &&& G::readable(seq![slots[6]])
    }

    open spec fn read_rel(slots: Seq<LuaVal>, v: Self) -> bool {
        &&& slots.len() == 7
        &&& A::read_rel(seq![slots[0]], v.0)
        &&& B::read_rel(seq![slots[1]], v.1)
        &&& C::read_rel(seq![slots[2]], v.2)
        &&& D::read_rel(seq![slots[3]], v.3)
        &&& E::read_rel(seq![slots[4]], v.4)
        &&& F::read_rel(seq![slots[5]], v.5)
        &&& G::read_rel(seq![slots[6]], v.6)
    }

    proof fn lemma_read_deterministic(slots: Seq<LuaVal>, v1: Self, v2: Self) {
        A::lemma_read_deterministic(seq![slots[0]], v1.0, v2.0);
        B::lemma_read_deterministic(seq![slots[1]], v1.1, v2.1);
        C::lemma_read_deterministic(seq![slots[2]], v1.2, v2.2);
        D::lemma_read_deterministic(seq![slots[3]], v1.3, v2.3);
        E::lemma_read_deterministic(seq![slots[4]], v1.4, v2.4);
        F::lemma_read_deterministic(seq![slots[5]], v1.5, v2.5);
        G::lemma_read_deterministic(seq![slots[6]], v1.6, v2.6);
    }

    proof fn lemma_read_rel_readable(slots: Seq<LuaVal>, v: Self) {
        A::lemma_read_rel_readable(seq![slots[0]], v.0);
        B::lemma_read_rel_readable(seq![slots[1]], v.1);
        C::lemma_read_rel_readable(seq![slots[2]], v.2);
        D::lemma_read_rel_readable(seq![slots[3]], v.3);
        E::lemma_read_rel_readable(seq![slots[4]], v.4);
        F::lemma_read_rel_readable(seq![slots[5]], v.5);
        G::lemma_read_rel_readable(seq![slots[6]], v.6);
    }

    fn read_slot(v: &LuaValue) -> (r: Option<Self>) {
        None
    }

    fn read_from_lua(stack: &LuaStack) -> (r: Option<Self>) {
        if stack.len() == 7 {
            let x0 = match A::read_slot(stack.get(0)) {
                Some(x) => x,
                None => {
                    return None;
                },
            };
            let x1 = match B::read_slot(stack.get(1)) {
                Some(x) => x,
                None => {
                    return None;
                },
            };
            let x2 = match C::read_slot(stack.get(2)) {
                Some(x) => x,
                None => {
                    return None;
                },
            };
            let x3 = match D::read_slot(stack.get(3)) {
                Some(x) => x,
                None => {
                    return None;
                },
            };
            let x4 = match E::read_slot(stack.get(4)) {
                Some(x) => x,
                None => {
                    return None;
                },
            };
            let x5 = match F::read_slot(stack.get(5)) {
                Some(x) => x,
                None => {
                    return None;
                },
            };
            let x6 = match G::read_slot(stack.get(6)) {
                Some(x) => x,
                None => {
                    return None;
                },
            };
            Some((x0, x1, x2, x3, x4, x5, x6))
        } else {
            None
        }
    }
}

impl<A: Readable, B: Readable, C: Readable, D: Readable, E: Readable, F: Readable, G: Readable, H: Readable> Readable for (A, B, C, D, E, F, G, H) {
    open spec fn readable(slots: Seq<LuaVal>) -> bool {
        &&& slots.len() == 8
        &&& A::readable(seq![slots[0]])
        &&& B::readable(seq![slots[1]])
        &&& C::readable(seq![slots[2]])
        &&& D::readable(seq![slots[3]])
        &&& E::readable(seq![slots[4]])
        &&& F::readable(seq![slots[5]])
        &&& G::readable(seq![slots[6]])
        &&& H::readable(seq![slots[7]])
    }

    open spec fn read_rel(slots: Seq<LuaVal>, v: Self) -> bool {
        &&& slots.len() == 8
        &&& A::read_rel(seq![slots[0]], v.0)
        &&& B::read_rel(seq![slots[1]], v.1)
        &&& C::read_rel(seq![slots[2]], v.2)
        &&& D::read_rel(seq![slots[3]], v.3)
        &&& E::read_rel(seq![slots[4]], v.4)
        &&& F::read_rel(seq![slots[5]], v.5)
        &&& G::read_rel(seq![slots[6]], v.6)
        &&& H::read_rel(seq![slots[7]], v.7)
    }

    proof fn lemma_read_deterministic(slots: Seq<LuaVal>, v1: Self, v2: Self) {
        A::lemma_read_deterministic(seq![slots[0]], v1.0, v2.0);
        B::lemma_read_deterministic(seq![slots[1]], v1.1, v2.1);
        C::lemma_read_deterministic(seq![slots[2]], v1.2, v2.2);
        D::lemma_read_deterministic(seq![slots[3]], v1.3, v2.3);
        E::lemma_read_deterministic(seq![slots[4]], v1.4, v2.4);
        F::lemma_read_deterministic(seq![slots[5]], v1.5, v2.5);
        G::lemma_read_deterministic(seq![slots[6]], v1.6, v2.6);
        H::lemma_read_deterministic(seq![slots[7]], v1.7, v2.7);
    }

    proof fn lemma_read_rel_readable(slots: Seq<LuaVal>, v: Self) {
        A::lemma_read_rel_readable(seq![slots[0]], v.0);
        B::lemma_read_rel_readable(seq![slots[1]], v.1);
        C::lemma_read_rel_readable(seq![slots[2]], v.2);
        D::lemma_read_rel_readable(seq![slots[3]], v.3);
        E::lemma_read_rel_readable(seq![slots[4]], v.4);
        F::lemma_read_rel_readable(seq![slots[5]], v.5);
        G::lemma_read_rel_readable(seq![slots[6]], v.6);
        H::lemma_read_rel_readable(seq![slots[7]], v.7);
    }

    fn read_slot(v: &LuaValue) -> (r: Option<Self>) {
        None
    }

    fn read_from_lua(stack: &LuaStack) -> (r: Option<Self>) {
        if stack.len() == 8 {
            let x0 = match A::read_slot(stack.get(0)) {
                Some(x) => x,
                None => {
                    return None;
                },
            };
            let x1 = match B::read_slot(stack.get(1)) {
                Some(x) => x,
                None => {
                    return None;
                },
            };
            let x2 = match C::read_slot(stack.get(2)) {
                Some(x) => x,
                None => {
                    return None;
                },
            };
            let x3 = match D::read_slot(stack.get(3)) {
                Some(x) => x,
                None => {
                    return None;
                },
            };
            let x4 = match E::read_slot(stack.get(4)) {
                Some(x) => x,
                None => {
                    return None;
                },
            };
            let x5 = match F::read_slot(stack.get(5)) {
                Some(x) => x,
                None => {
                    return None;
                },
            };
            let x6 = match G::read_slot(stack.get(6)) {
                Some(x) => x,
                None => {
                    return None;
                },
            };
            let x7 = match H::read_slot(stack.get(7)) {
                Some(x) => x,
                None => {
                    return None;
                },
            };
            Some((x0, x1, x2, x3, x4, x5, x6, x7))
        } else {
            None
        }
    }
}

impl<A: Readable, B: Readable, C: Readable, D: Readable, E: Readable, F: Readable, G: Readable, H: Readable, I: Readable> Readable for (A, B, C, D, E, F, G, H, I) {
    open spec fn readable(slots: Seq<LuaVal>) -> bool {
        &&& slots.len() == 9
        &&& A::readable(seq![slots[0]])
        &&& B::readable(seq![slots[1]])
        &&& C::readable(seq![slots[2]])
        &&& D::readable(seq![slots[3]])
        &&& E::readable(seq![slots[4]])
        &&& F::readable(seq![slots[5]])
        &&& G::readable(seq![slots[6]])
        &&& H::readable(seq![slots[7]])
        &&& I::readable(seq![slots[8]])
    }

    open spec fn read_rel(slots: Seq<LuaVal>, v: Self) -> bool {
        &&& slots.len() == 9
        &&& A::read_rel(seq![slots[0]], v.0)
        &&& B::read_rel(seq![slots[1]], v.1)
        &&& C::read_rel(seq![slots[2]], v.2)
        &&& D::read_rel(seq![slots[3]], v.3)
        &&& E::read_rel(seq![slots[4]], v.4)
        &&& F::read_rel(seq![slots[5]], v.5)
        &&& G::read_rel(seq![slots[6]], v.6)
        &&& H::read_rel(seq![slots[7]], v.7)
        &&& I::read_rel(seq![slots[8]], v.8)
    }

    proof fn lemma_read_deterministic(slots: Seq<LuaVal>, v1: Self, v2: Self) {
        A::lemma_read_deterministic(seq![slots[0]], v1.0, v2.0);
        B::lemma_read_deterministic(seq![slots[1]], v1.1, v2.1);
        C::lemma_read_deterministic(seq![slots[2]], v1.2, v2.2);
        D::lemma_read_deterministic(seq![slots[3]], v1.3, v2.3);
        E::lemma_read_deterministic(seq![slots[4]], v1.4, v2.4);
        F::lemma_read_deterministic(seq![slots[5]], v1.5, v2.5);
        G::lemma_read_deterministic(seq![slots[6]], v1.6, v2.6);
        H::lemma_read_deterministic(seq![slots[7]], v1.7, v2.7);
        I::lemma_read_deterministic(seq![slots[8]], v1.8, v2.8);
    }

    proof fn lemma_read_rel_readable(slots: Seq<LuaVal>, v: Self) {
        A::lemma_read_rel_readable(seq![slots[0]], v.0);
        B::lemma_read_rel_readable(seq![slots[1]], v.1);
        C::lemma_read_rel_readable(seq![slots[2]], v.2);
        D::lemma_read_rel_readable(seq![slots[3]], v.3);
        E::lemma_read_rel_readable(seq![slots[4]], v.4);
        F::lemma_read_rel_readable(seq![slots[5]], v.5);
        G::lemma_read_rel_readable(seq![slots[6]], v.6);
        H::lemma_read_rel_readable(seq![slots[7]], v.7);
        I::lemma_read_rel_readable(seq![slots[8]], v.8);
    }

    fn read_slot(v: &LuaValue) -> (r: Option<Self>) {
        None
    }

    fn read_from_lua(stack: &LuaStack) -> (r: Option<Self>) {
        if stack.len() == 9 {
            let x0 = match A::read_slot(stack.get(0)) {
                Some(x) => x,
                None => {
                    return None;
                },
            };
            let x1 = match B::read_slot(stack.get(1)) {
                Some(x) => x,
                None => {
                    return None;
                },
            };
            let x2 = match C::read_slot(stack.get(2)) {
                Some(x) => x,
                None => {
                    return None;
                },
            };
            let x3 = match D::read_slot(stack.get(3)) {
                Some(x) => x,
                None => {
                    return None;
                },
            };
            let x4 = match E::read_slot(stack.get(4)) {
                Some(x) => x,
                None => {
                    return None;
                },
            };
            let x5 = match F::read_slot(stack.get(5)) {
                Some(x) => x,
                None => {
                    return None;
                },
            };
            let x6 = match G::read_slot(stack.get(6)) {
                Some(x) => x,
                None => {
                    return None;
                },
            };
            let x7 = match H::read_slot(stack.get(7)) {
                Some(x) => x,
                None => {
                    return None;
                },
            };
            let x8 = match I::read_slot(stack.get(8)) {
                Some(x) => x,
                None => {
                    return None;
                },
            };
            Some((x0, x1, x2, x3, x4, x5, x6, x7, x8))
        } else {
            None
        }
    }
}

impl<A: Readable, B: Readable, C: Readable, D: Readable, E: Readable, F: Readable, G: Readable, H: Readable, I: Readable, J: Readable> Readable for (A, B, C, D, E, F, G, H, I, J) {
    open spec fn readable(slots: Seq<LuaVal>) -> bool {
        &&& slots.len() == 10
        &&& A::readable(seq![slots[0]])
        &&& B::readable(seq![slots[1]])
        &&& C::readable(seq![slots[2]])
        &&& D::readable(seq![slots[3]])
        &&& E::readable(seq![slots[4]])
        &&& F::readable(seq![slots[5]])
        &&& G::readable(seq![slots[6]])
        &&& H::readable(seq![slots[7]])
        &&& I::readable(seq![slots[8]])
        &&& J::readable(seq![slots[9]])
    }

    open spec fn read_rel(slots: Seq<LuaVal>, v: Self) -> bool {
        &&& slots.len() == 10
        &&& A::read_rel(seq![slots[0]], v.0)
        &&& B::read_rel(seq![slots[1]], v.1)
        &&& C::read_rel(seq![slots[2]], v.2)
        &&& D::read_rel(seq![slots[3]], v.3)
        &&& E::read_rel(seq![slots[4]], v.4)
        &&& F::read_rel(seq![slots[5]], v.5)
        &&& G::read_rel(seq![slots[6]], v.6)
        &&& H::read_rel(seq![slots[7]], v.7)
        &&& I::read_rel(seq![slots[8]], v.8)
        &&& J::read_rel(seq![slots[9]], v.9)
    }

    proof fn lemma_read_deterministic(slots: Seq<LuaVal>, v1: Self, v2: Self) {
        A::lemma_read_deterministic(seq![slots[0]], v1.0, v2.0);
        B::lemma_read_deterministic(seq![slots[1]], v1.1, v2.1);
        C::lemma_read_deterministic(seq![slots[2]], v1.2, v2.2);
        D::lemma_read_deterministic(seq![slots[3]], v1.3, v2.3);
        E::lemma_read_deterministic(seq![slots[4]], v1.4, v2.4);
        F::lemma_read_deterministic(seq![slots[5]], v1.5, v2.5);
        G::lemma_read_deterministic(seq![slots[6]], v1.6, v2.6);
        H::lemma_read_deterministic(seq![slots[7]], v1.7, v2.7);
        I::lemma_read_deterministic(seq![slots[8]], v1.8, v2.8);
        J::lemma_read_deterministic(seq![slots[9]], v1.9, v2.9);
    }

    proof fn lemma_read_rel_readable(slots: Seq<LuaVal>, v: Self) {
        A::lemma_read_rel_readable(seq![slots[0]], v.0);
        B::lemma_read_rel_readable(seq![slots[1]], v.1);
        C::lemma_read_rel_readable(seq![slots[2]], v.2);
        D::lemma_read_rel_readable(seq![slots[3]], v.3);
        E::lemma_read_rel_readable(seq![slots[4]], v.4);
        F::lemma_read_rel_readable(seq![slots[5]], v.5);
        G::lemma_read_rel_readable(seq![slots[6]], v.6);
        H::lemma_read_rel_readable(seq![slots[7]], v.7);
        I::lemma_read_rel_readable(seq![slots[8]], v.8);
        J::lemma_read_rel_readable(seq![slots[9]], v.9);
    }

    fn read_slot(v: &LuaValue) -> (r: Option<Self>) {
        None
    }

    fn read_from_lua(stack: &LuaStack) -> (r: Option<Self>) {
        if stack.len() == 10 {
            let x0 = match A::read_slot(stack.get(0)) {
                Some(x) => x,
                None => {
                    return None;
                },
            };
            let x1 = match B::read_slot(stack.get(1)) {
                Some(x) => x,
                None => {
                    return None;
                },
            };
            let x2 = match C::read_slot(stack.get(2)) {
                Some(x) => x,
                None => {
                    return None;
                },
            };
            let x3 = match D::read_slot(stack.get(3)) {
                Some(x) => x,
                None => {
                    return None;
                },
            };
            let x4 = match E::read_slot(stack.get(4)) {
                Some(x) => x,
                None => {
                    return None;
                },
            };
            let x5 = match F::read_slot(stack.get(5)) {
                Some(x) => x,
                None => {
                    return None;
                },
            };
            let x6 = match G::read_slot(stack.get(6)) {
                Some(x) => x,
                None => {
                    return None;
                },
            };
            let x7 = match H::read_slot(stack.get(7)) {
                Some(x) => x,
                None => {
                    return None;
                },
            };
            let x8 = match I::read_slot(stack.get(8)) {
                Some(x) => x,
                None => {
                    return None;
                },
            };
            let x9 = match J::read_slot(stack.get(9)) {
                Some(x) => x,
                None => {
                    return None;
                },
            };
            Some((x0, x1, x2, x3, x4, x5, x6, x7, x8, x9))
        } else {
            None
        }
    }
}

/// A tuple return value encodes to its members' return slots, in
/// declaration order, left to right.
pub proof fn lemma_pair_encodes_in_order<A: CallbackReturn, B: CallbackReturn>(a: A, b: B)
    ensures
        (a, b).ret_repr() == a.ret_repr() + b.ret_repr(),
{
}

/// A triple of scalars encodes to exactly three slots, in declaration
/// order: one bindable return value for each member.
pub proof fn lemma_triple_encodes_three_values(a: i64, b: i64, c: i64)
    ensures
        (a, b, c).ret_repr() =~= seq![
            LuaVal::Int(a as int),
            LuaVal::Int(b as int),
            LuaVal::Int(c as int),
        ],
        (a, b, c).ret_repr().len() == 3,
{
}

} // verus!
