//! General laws of the operand stack, stated over the spec functions
//! that the stack methods are proved against.

use vstd::prelude::*;
use crate::data::Data;
use crate::data::Pair;
use crate::data::Error;
use crate::stack::spec_pop;
use crate::stack::spec_pop_two;
use crate::stack::spec_dup;
use crate::stack::spec_swap;
use crate::stack::spec_add;
use crate::stack::spec_sub;
use crate::interp::MState;
use crate::interp::Step;
use crate::interp::step_spec;

verus! {

/// Pushing integers `a` and `b`, adding, pushing `b` again and
/// subtracting leaves `a` on top of the untouched remainder:
/// subtraction with the same second operand undoes addition, for every
/// starting stack and all integer values, overflow included.
pub proof fn lemma_add_then_sub_is_identity(s: Seq<Data>, a: i64, b: i64)
    ensures
        ({
            let added = spec_add(s.push(Data::Int(a)).push(Data::Int(b)));
            let subbed = spec_sub(added.0.push(Data::Int(b)));
            added.1 == Ok::<(), Error>(()) && subbed.1 == Ok::<(), Error>(()) && subbed.0 == s.push(
                Data::Int(a),
            )
        }),
{
    let s1 = s.push(Data::Int(a)).push(Data::Int(b));
    assert(s1.drop_last().drop_last() =~= s);
    let added = spec_add(s1);
    let s2 = added.0.push(Data::Int(b));
    assert(s2.drop_last().drop_last() =~= s);
    let subbed = spec_sub(s2);
    assert(a.wrapping_add(b).wrapping_sub(b) == a);
    assert(subbed.0 =~= s.push(Data::Int(a)));
}

/// Duplicating the top of a non-empty stack and popping twice returns
/// the same value twice, whatever its tag, and leaves the stack as it
/// was before the duplicate.
pub proof fn lemma_dup_then_two_pops(s: Seq<Data>)
    requires
        s.len() >= 1,
    ensures
        ({
            let dupped = spec_dup(s);
            let first = spec_pop(dupped.0);
            let second = spec_pop(first.0);
            dupped.1 == Ok::<(), Error>(()) && first.1 == Ok::<Data, Error>(s.last()) && second.1
                == Ok::<Data, Error>(s.last()) && second.0 == s.drop_last()
        }),
{
    let dupped = spec_dup(s);
    assert(dupped.0.drop_last() =~= s);
}

/// Popping a pair from a stack holding exactly one integer and one
/// float, in either order, always fails with `TypeMismatch`: the values
/// are never coerced.
pub proof fn lemma_pop_two_mixed_pair_fails(x: Data, y: Data)
    requires
        (x is Int && y is Float) || (x is Float && y is Int),
    ensures
        spec_pop_two(Seq::<Data>::empty().push(y).push(x)).1 == Err::<Pair, Error>(
            Error::TypeMismatch,
        ),
{
}

/// `swap` is its own inverse: swapping twice restores the original
/// order on any stack with at least two elements.
pub proof fn lemma_swap_involutive(s: Seq<Data>)
    requires
        s.len() >= 2,
    ensures
        ({
            let once = spec_swap(s);
            let twice = spec_swap(once.0);
            once.1 == Ok::<(), Error>(()) && twice.1 == Ok::<(), Error>(()) && twice.0 == s
        }),
{
    let once = spec_swap(s);
    assert(once.0.drop_last().drop_last() =~= s.drop_last().drop_last());
    let twice = spec_swap(once.0);
    assert(twice.0 =~= s);
}

/// A call opcode saves as resume point exactly the position one byte
/// past itself, and a return opcode taken with saved addresses present
/// resumes at the most recently saved one. So a call whose saved
/// address is still on top of the return-address stack when a return
/// opcode fires resumes execution exactly one byte past the call site.
pub proof fn lemma_call_saves_next_and_return_resumes_there(
    code: Seq<u8>,
    s: MState,
    t: MState,
    a: i64,
)
    requires
        s.pc < code.len(),
        code[s.pc as int] == 99,
        s.stack.len() >= 1,
        s.stack.last() == Data::Int(a),
        t.pc < code.len(),
        code[t.pc as int] == 59,
        t.rstack.len() >= 1,
    ensures
        step_spec(code, s) matches Step::Next(s2) && s2.pc == a as usize && s2.rstack
            == s.rstack.push((s.pc + 1) as usize),
        step_spec(code, t) matches Step::Next(t2) && t2.pc == t.rstack.last() && t2.rstack
            == t.rstack.drop_last(),
        t.rstack == s.rstack.push((s.pc + 1) as usize) ==> (step_spec(code, t) matches Step::Next(
            t2,
        ) && t2.pc == (s.pc + 1) as usize),
{
}

} // verus!
