//! The mathematical model shared by the stacks: a stack is a `Seq<T>` whose
//! element at index 0 is the top.

use vstd::prelude::*;

verus! {

/// The stack after pushing `v` onto `s`.
pub open spec fn pushed<T>(s: Seq<T>, v: T) -> Seq<T> {
    seq![v] + s
}

/// The value a pop or a peek reports on `s`: the top, if there is one.
pub open spec fn top<T>(s: Seq<T>) -> Option<T> {
    if s.len() == 0 {
        None
    } else {
        Some(s[0])
    }
}

/// The stack after popping `s`: unchanged when empty, else without its top.
pub open spec fn popped<T>(s: Seq<T>) -> Seq<T> {
    if s.len() == 0 {
        s
    } else {
        s.drop_first()
    }
}

/// The stack after its top (which must exist) has been overwritten with `v`.
pub open spec fn replaced_top<T>(s: Seq<T>, v: T) -> Seq<T> {
    s.update(0, v)
}

/// The stack after pushing the values of `vs` onto `s`, first to last.
pub open spec fn push_all<T>(s: Seq<T>, vs: Seq<T>) -> Seq<T>
    decreases vs.len(),
{
    if vs.len() == 0 {
        s
    } else {
        pushed(push_all(s, vs.drop_last()), vs.last())
    }
}

/// What `n` pops in a row on `s` report, in the order reported.
pub open spec fn pop_results<T>(s: Seq<T>, n: nat) -> Seq<Option<T>>
    decreases n,
{
    if n == 0 {
        Seq::empty()
    } else {
        seq![top(s)] + pop_results(popped(s), (n - 1) as nat)
    }
}

/// The stack left after `n` pops in a row on `s`.
pub open spec fn pop_n<T>(s: Seq<T>, n: nat) -> Seq<T>
    decreases n,
{
    if n == 0 {
        s
    } else {
        pop_n(popped(s), (n - 1) as nat)
    }
}

/// Last in, first out: after pushing `vs` onto `s`, as many pops report the
/// values of `vs` last to first and leave `s`; on an empty stack every
/// further pop reports nothing.
pub proof fn lemma_lifo<T>(s: Seq<T>, vs: Seq<T>)
    ensures
        pop_results(push_all(s, vs), vs.len()) == vs.reverse().map_values(|v: T| Some(v)),
        pop_n(push_all(s, vs), vs.len()) == s,
        s.len() == 0 ==> top(pop_n(push_all(s, vs), vs.len())) is None,
        s.len() == 0 ==> popped(pop_n(push_all(s, vs), vs.len())) == s,
    decreases vs.len(),
{
    if vs.len() > 0 {
        let init = vs.drop_last();
        lemma_lifo(s, init);
        lemma_push_then_pop(push_all(s, init), vs.last());
        assert(pop_results(push_all(s, vs), vs.len()) =~= vs.reverse().map_values(
            |v: T| Some(v),
        ));
    }
}

/// A pop right after pushing `v` reports `v` and restores the stack.
pub proof fn lemma_push_then_pop<T>(s: Seq<T>, v: T)
    ensures
        top(pushed(s, v)) == Some(v),
        popped(pushed(s, v)) == s,
{
    assert(popped(pushed(s, v)) =~= s);
}

/// A value written through a reference to the top is what the next peek or
/// pop reports, and the pop leaves what was below it untouched.
pub proof fn lemma_top_write_observed<T>(s: Seq<T>, v: T)
    requires
        s.len() > 0,
    ensures
        top(replaced_top(s, v)) == Some(v),
        popped(replaced_top(s, v)) == popped(s),
{
    assert(popped(replaced_top(s, v)) =~= popped(s));
}

} // verus!
