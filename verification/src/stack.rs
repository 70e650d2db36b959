//! The typed operand stack and its operations.
//!
//! Each operation is specified by a spec function from the stack's
//! abstract sequence to the pair of the sequence after the call and the
//! returned result. An operation that fails midway still records its
//! partial pops: a failed pop is never undone, exactly as the methods
//! behave.

use vstd::prelude::*;
use crate::data::Data;
use crate::data::Pair;
use crate::data::Error;
use crate::fbits::f64_add;
use crate::fbits::f64_sub;
use crate::fbits::f64_mul;
use crate::fbits::f64_div;
use crate::fbits::f64_rem;
use crate::fbits::f64_of_i64;
use crate::fbits::i64_of_f64;
use crate::fbits::f64_add_bits;
use crate::fbits::f64_sub_bits;
use crate::fbits::f64_mul_bits;
use crate::fbits::f64_div_bits;
use crate::fbits::f64_rem_bits;
use crate::fbits::f64_of_i64_bits;
use crate::fbits::i64_of_f64_bits;

verus! {

/// The operand stack: an ordered sequence of typed values. The last
/// element of the view is the top of the stack.
pub struct Stack {
    stack: Vec<Data>,
}

impl View for Stack {
    type V = Seq<Data>;

    closed spec fn view(&self) -> Seq<Data> {
        self.stack@
    }
}

/// Effect of `pop`: removes and returns the last element, or reports
/// `StackUnderflow` on an empty stack.
pub open spec fn spec_pop(s: Seq<Data>) -> (Seq<Data>, Result<Data, Error>) {
    if s.len() == 0 {
        (s, Err(Error::StackUnderflow))
    } else {
        (s.drop_last(), Ok(s.last()))
    }
}

/// Effect of `pop_two`: removes the top two values (top first), and
/// pairs them if their tags agree. With one element present, that
/// element is still popped before `StackUnderflow` is reported; with a
/// mixed pair, both are popped before `TypeMismatch` is reported.
pub open spec fn spec_pop_two(s: Seq<Data>) -> (Seq<Data>, Result<Pair, Error>) {
    if s.len() == 0 {
        (s, Err(Error::StackUnderflow))
    } else if s.len() == 1 {
        (s.drop_last(), Err(Error::StackUnderflow))
    } else {
        let x = s.last();
        let y = s[s.len() - 2];
        let t = s.drop_last().drop_last();
        match (x, y) {
            (Data::Int(a), Data::Int(b)) => (t, Ok(Pair::Int(a, b))),
            (Data::Float(a), Data::Float(b)) => (t, Ok(Pair::Float(a, b))),
            _ => (t, Err(Error::TypeMismatch)),
        }
    }
}

/// Effect of `dup`: duplicates the top value.
pub open spec fn spec_dup(s: Seq<Data>) -> (Seq<Data>, Result<(), Error>) {
    if s.len() == 0 {
        (s, Err(Error::StackUnderflow))
    } else {
        (s.push(s.last()), Ok(()))
    }
}

/// Effect of `swap`: exchanges the top two values. With exactly one
/// element present, that element is popped and lost before
/// `StackUnderflow` is reported.
pub open spec fn spec_swap(s: Seq<Data>) -> (Seq<Data>, Result<(), Error>) {
    if s.len() == 0 {
        (s, Err(Error::StackUnderflow))
    } else if s.len() == 1 {
        (s.drop_last(), Err(Error::StackUnderflow))
    } else {
        let x = s.last();
        let y = s[s.len() - 2];
        (s.drop_last().drop_last().push(x).push(y), Ok(()))
    }
}

/// Effect of `over`: duplicates the second-from-top value above the
/// top. With exactly one element present, that element is popped and
/// lost before `StackUnderflow` is reported.
pub open spec fn spec_over(s: Seq<Data>) -> (Seq<Data>, Result<(), Error>) {
    if s.len() == 0 {
        (s, Err(Error::StackUnderflow))
    } else if s.len() == 1 {
        (s.drop_last(), Err(Error::StackUnderflow))
    } else {
        let x = s.last();
        let y = s[s.len() - 2];
        (s.drop_last().drop_last().push(y).push(x).push(y), Ok(()))
    }
}

/// Effect of `cast_to_int`: an integer top is left unchanged; a float
/// top is replaced by its truncation toward zero (saturating, NaN to
/// zero).
pub open spec fn spec_cast_to_int(s: Seq<Data>) -> (Seq<Data>, Result<(), Error>) {
    if s.len() == 0 {
        (s, Err(Error::StackUnderflow))
    } else {
        match s.last() {
            Data::Int(_) => (s, Ok(())),
            Data::Float(b) => (s.drop_last().push(Data::Int(i64_of_f64(b))), Ok(())),
        }
    }
}

/// Effect of `cast_to_float`: a float top is left unchanged; an integer
/// top is replaced by the nearest binary64 float.
pub open spec fn spec_cast_to_float(s: Seq<Data>) -> (Seq<Data>, Result<(), Error>) {
    if s.len() == 0 {
        (s, Err(Error::StackUnderflow))
    } else {
        match s.last() {
            Data::Int(n) => (s.drop_last().push(Data::Float(f64_of_i64(n))), Ok(())),
            Data::Float(_) => (s, Ok(())),
        }
    }
}

/// Truncating quotient of `a / b` for `b != 0`, as `i64` division
/// behaves, with the single overflowing case `i64::MIN / -1` wrapping
/// back to `i64::MIN`.
pub open spec fn div_trunc(a: i64, b: i64) -> i64
    recommends
        b != 0,
{
    if a == i64::MIN && b == -1 {
        i64::MIN
    } else {
        let x = a as int;
        let d = b as int;
        if x == 0 {
            0i64
        } else if x > 0 && d > 0 {
            (x / d) as i64
        } else if x < 0 && d < 0 {
            ((x * -1) / (d * -1)) as i64
        } else if x < 0 {
            (((x * -1) / d) * -1) as i64
        } else {
            ((x / (d * -1)) * -1) as i64
        }
    }
}

/// Truncating remainder of `a % b` for `b != 0`: the sign follows the
/// dividend, and `i64::MIN % -1` is zero.
pub open spec fn rem_trunc(a: i64, b: i64) -> i64
    recommends
        b != 0,
{
    let x = a as int;
    let d = b as int;
    if x == 0 {
        0i64
    } else if x > 0 && d > 0 {
        (x % d) as i64
    } else if x < 0 && d < 0 {
        (((x * -1) % (d * -1)) * -1) as i64
    } else if x < 0 {
        (((x * -1) % d) * -1) as i64
    } else {
        (x % (d * -1)) as i64
    }
}

/// Effect of `add`: pops a same-typed pair `(x, y)` and pushes `x + y`.
/// Integer addition wraps on overflow; float addition follows IEEE 754.
pub open spec fn spec_add(s: Seq<Data>) -> (Seq<Data>, Result<(), Error>) {
    let popped = spec_pop_two(s);
    match popped.1 {
        Err(e) => (popped.0, Err(e)),
        Ok(Pair::Int(x, y)) => (popped.0.push(Data::Int(x.wrapping_add(y))), Ok(())),
        Ok(Pair::Float(x, y)) => (popped.0.push(Data::Float(f64_add(x, y))), Ok(())),
    }
}

/// Effect of `sub`: pops `(x, y)` with `x` the old top and pushes
/// `y - x`, so the second-from-top value is the left operand. Integer
/// subtraction wraps on overflow.
pub open spec fn spec_sub(s: Seq<Data>) -> (Seq<Data>, Result<(), Error>) {
    let popped = spec_pop_two(s);
    match popped.1 {
        Err(e) => (popped.0, Err(e)),
        Ok(Pair::Int(x, y)) => (popped.0.push(Data::Int(y.wrapping_sub(x))), Ok(())),
        Ok(Pair::Float(x, y)) => (popped.0.push(Data::Float(f64_sub(y, x))), Ok(())),
    }
}

/// Effect of `mul`: pops `(x, y)` and pushes `y * x`. Integer
/// multiplication wraps on overflow.
pub open spec fn spec_mul(s: Seq<Data>) -> (Seq<Data>, Result<(), Error>) {
    let popped = spec_pop_two(s);
    match popped.1 {
        Err(e) => (popped.0, Err(e)),
        Ok(Pair::Int(x, y)) => (popped.0.push(Data::Int(y.wrapping_mul(x))), Ok(())),
        Ok(Pair::Float(x, y)) => (popped.0.push(Data::Float(f64_mul(y, x))), Ok(())),
    }
}

/// Effect of `div`: pops `(x, y)` and pushes `y / x`. Integer division
/// truncates toward zero, reports `DivisionByZero` on a zero divisor
/// (with both operands already popped), and wraps on `i64::MIN / -1`.
/// Float division follows IEEE 754 and never fails.
pub open spec fn spec_div(s: Seq<Data>) -> (Seq<Data>, Result<(), Error>) {
    let popped = spec_pop_two(s);
    match popped.1 {
        Err(e) => (popped.0, Err(e)),
        Ok(Pair::Int(x, y)) => if x == 0 {
            (popped.0, Err(Error::DivisionByZero))
        } else {
            (popped.0.push(Data::Int(div_trunc(y, x))), Ok(()))
        },
        Ok(Pair::Float(x, y)) => (popped.0.push(Data::Float(f64_div(y, x))), Ok(())),
    }
}

/// Effect of `modulus`: pops `(x, y)` and pushes `y % x`. The integer
/// remainder takes the dividend's sign, reports `DivisionByZero` on a
/// zero divisor (with both operands already popped), and `i64::MIN % -1`
/// is zero. The float remainder has C `fmod` semantics and never fails.
pub open spec fn spec_modulus(s: Seq<Data>) -> (Seq<Data>, Result<(), Error>) {
    let popped = spec_pop_two(s);
    match popped.1 {
        Err(e) => (popped.0, Err(e)),
        Ok(Pair::Int(x, y)) => if x == 0 {
            (popped.0, Err(Error::DivisionByZero))
        } else {
            (popped.0.push(Data::Int(rem_trunc(y, x))), Ok(()))
        },
        Ok(Pair::Float(x, y)) => (popped.0.push(Data::Float(f64_rem(y, x))), Ok(())),
    }
}

impl Stack {
    /// Initialize an empty stack.
    pub fn new() -> (s: Stack)
        ensures
            s@ == Seq::<Data>::empty(),
    {
        Stack { stack: Vec::new() }
    }

    /// Get the length of the stack.
    pub fn len(&self) -> (n: usize)
        ensures
            n == self@.len(),
    {
        self.stack.len()
    }

    /// Push an item to the stack.
    pub fn push(&mut self, value: Data)
        ensures
            final(self)@ == old(self)@.push(value),
    {
        self.stack.push(value);
    }

    /// Pop an item from the stack.
    pub fn pop(&mut self) -> (r: Result<Data, Error>)
        ensures
            final(self)@ == spec_pop(old(self)@).0,
            r == spec_pop(old(self)@).1,
    {
        match self.stack.pop() {
            Some(n) => Ok(n),
            None => Err(Error::StackUnderflow),
        }
    }

    /// Pop two items of the same type.
    pub fn pop_two(&mut self) -> (r: Result<Pair, Error>)
        ensures
            final(self)@ == spec_pop_two(old(self)@).0,
            r == spec_pop_two(old(self)@).1,
    {
        let a = self.stack.pop();
        let b = self.stack.pop();
        match (a, b) {
            (None, _) => Err(Error::StackUnderflow),
            (Some(_), None) => Err(Error::StackUnderflow),
            (Some(Data::Float(x)), Some(Data::Float(y))) => Ok(Pair::Float(x, y)),
            (Some(Data::Int(x)), Some(Data::Int(y))) => Ok(Pair::Int(x, y)),
            (Some(_), Some(_)) => Err(Error::TypeMismatch),
        }
    }

    /// Cast the top of the stack to an integer; an integer top is valid
    /// and left as it is.
    pub fn cast_to_int(&mut self) -> (r: Result<(), Error>)
        ensures
            final(self)@ == spec_cast_to_int(old(self)@).0,
            r == spec_cast_to_int(old(self)@).1,
    {
        let value = match self.pop() {
            Err(n) => {
                return Err(n);
            },
            Ok(n) => n,
        };
        match value {
            Data::Int(_) => {
                self.push(value);
                proof {
                    assert(self@ =~= old(self)@);
                }
            },
            Data::Float(n) => {
                let v = i64_of_f64_bits(n);
                self.push(Data::Int(v));
            },
        }
        Ok(())
    }

    /// Cast the top of the stack to a float; a float top is valid and
    /// left as it is.
    pub fn cast_to_float(&mut self) -> (r: Result<(), Error>)
        ensures
            final(self)@ == spec_cast_to_float(old(self)@).0,
            r == spec_cast_to_float(old(self)@).1,
    {
        let value = match self.pop() {
            Err(n) => {
                return Err(n);
            },
            Ok(n) => n,
        };
        match value {
            Data::Int(n) => {
                let v = f64_of_i64_bits(n);
                self.push(Data::Float(v));
            },
            Data::Float(_) => {
                self.push(value);
                proof {
                    assert(self@ =~= old(self)@);
                }
            },
        }
        Ok(())
    }

    /// Duplicate the top of the stack.
    pub fn dup(&mut self) -> (r: Result<(), Error>)
        ensures
            final(self)@ == spec_dup(old(self)@).0,
            r == spec_dup(old(self)@).1,
    {
        let value = match self.pop() {
            Err(n) => {
                return Err(n);
            },
            Ok(n) => n,
        };
        self.push(value);
        self.push(value);
        proof {
            assert(self@ =~= old(self)@.push(value));
        }
        Ok(())
    }

    /// Swap the top of the stack with the value beneath it.
    pub fn swap(&mut self) -> (r: Result<(), Error>)
        ensures
            final(self)@ == spec_swap(old(self)@).0,
            r == spec_swap(old(self)@).1,
    {
        let x = self.pop();
        let y = self.pop();
        let x = match x {
            Err(n) => {
                return Err(n);
            },
            Ok(n) => n,
        };
        let y = match y {
            Err(n) => {
                return Err(n);
            },
            Ok(n) => n,
        };
        self.push(x);
        self.push(y);
        Ok(())
    }

    /// Duplicate the second-from-top value, placing the duplicate above
    /// the top of the stack.
    pub fn over(&mut self) -> (r: Result<(), Error>)
        ensures
            final(self)@ == spec_over(old(self)@).0,
            r == spec_over(old(self)@).1,
    {
        let x = self.pop();
        let y = self.pop();
        let x = match x {
            Err(n) => {
                return Err(n);
            },
            Ok(n) => n,
        };
        let y = match y {
            Err(n) => {
                return Err(n);
            },
            Ok(n) => n,
        };
        self.push(y);
        self.push(x);
        self.push(y);
        Ok(())
    }

    /// Pop a same-typed pair and push its sum.
    pub fn add(&mut self) -> (r: Result<(), Error>)
        ensures
            final(self)@ == spec_add(old(self)@).0,
            r == spec_add(old(self)@).1,
    {
        let values = match self.pop_two() {
            Err(n) => {
                return Err(n);
            },
            Ok(n) => n,
        };
        match values {
            Pair::Int(x, y) => {
                self.push(Data::Int(x.wrapping_add(y)));
            },
            Pair::Float(x, y) => {
                let v = f64_add_bits(x, y);
                self.push(Data::Float(v));
            },
        }
        Ok(())
    }

    /// Pop a same-typed pair `(x, y)` and push `y - x`.
    pub fn sub(&mut self) -> (r: Result<(), Error>)
        ensures
            final(self)@ == spec_sub(old(self)@).0,
            r == spec_sub(old(self)@).1,
    {
        let values = match self.pop_two() {
            Err(n) => {
                return Err(n);
            },
            Ok(n) => n,
        };
        match values {
            Pair::Int(x, y) => {
                self.push(Data::Int(y.wrapping_sub(x)));
            },
            Pair::Float(x, y) => {
                let v = f64_sub_bits(y, x);
                self.push(Data::Float(v));
            },
        }
        Ok(())
    }

    /// Pop a same-typed pair and push its product.
    pub fn mul(&mut self) -> (r: Result<(), Error>)
        ensures
            final(self)@ == spec_mul(old(self)@).0,
            r == spec_mul(old(self)@).1,
    {
        let values = match self.pop_two() {
            Err(n) => {
                return Err(n);
            },
            Ok(n) => n,
        };
        match values {
            Pair::Int(x, y) => {
                self.push(Data::Int(y.wrapping_mul(x)));
            },
            Pair::Float(x, y) => {
                let v = f64_mul_bits(y, x);
                self.push(Data::Float(v));
            },
        }
        Ok(())
    }

    /// Pop a same-typed pair `(x, y)` and push `y / x`. A zero integer
    /// divisor reports `DivisionByZero`; float division never fails.
    pub fn div(&mut self) -> (r: Result<(), Error>)
        ensures
            final(self)@ == spec_div(old(self)@).0,
            r == spec_div(old(self)@).1,
    {
        let values = match self.pop_two() {
            Err(n) => {
                return Err(n);
            },
            Ok(n) => n,
        };
        match values {
            Pair::Int(x, y) => {
                if x == 0 {
                    return Err(Error::DivisionByZero);
                }
                match y.checked_div(x) {
                    Some(q) => {
                        self.push(Data::Int(q));
                    },
                    None => {
                        proof {
                            if !(y == i64::MIN && x == -1) {
                                lemma_div_trunc_in_range(y, x);
                            }
                        }
                        self.push(Data::Int(i64::MIN));
                    },
                }
            },
            Pair::Float(x, y) => {
                let v = f64_div_bits(y, x);
                self.push(Data::Float(v));
            },
        }
        Ok(())
    }

    /// Pop a same-typed pair `(x, y)` and push `y % x`. A zero integer
    /// divisor reports `DivisionByZero`; the float remainder never
    /// fails.
    pub fn modulus(&mut self) -> (r: Result<(), Error>)
        ensures
            final(self)@ == spec_modulus(old(self)@).0,
            r == spec_modulus(old(self)@).1,
    {
        let values = match self.pop_two() {
            Err(n) => {
                return Err(n);
            },
            Ok(n) => n,
        };
        match values {
            Pair::Int(x, y) => {
                if x == 0 {
                    return Err(Error::DivisionByZero);
                }
                match y.checked_rem(x) {
                    Some(q) => {
                        self.push(Data::Int(q));
                    },
                    None => {
                        proof {
                            assert(rem_trunc(y, x) == 0);
                        }
                        self.push(Data::Int(0));
                    },
                }
            },
            Pair::Float(x, y) => {
                let v = f64_rem_bits(y, x);
                self.push(Data::Float(v));
            },
        }
        Ok(())
    }
}

/// For a nonzero divisor outside the single overflowing case
/// `i64::MIN / -1`, the truncating quotient lies in the `i64` range.
proof fn lemma_div_trunc_in_range(a: i64, b: i64)
    requires
        b != 0,
        !(a == i64::MIN && b == -1),
    ensures
        ({
            let x = a as int;
            let d = b as int;
            let q = if x == 0 {
                0int
            } else if x > 0 && d > 0 {
                x / d
            } else if x < 0 && d < 0 {
                (x * -1) / (d * -1)
            } else if x < 0 {
                ((x * -1) / d) * -1
            } else {
                (x / (d * -1)) * -1
            };
            i64::MIN <= q <= i64::MAX
        }),
{
    let x = a as int;
    let d = b as int;
    if x > 0 && d > 0 {
        assert(0 <= x / d <= x) by (nonlinear_arith)
            requires x > 0 && d > 0;
    } else if x < 0 && d < 0 {
        if d == -1 {
            assert((x * -1) / (d * -1) == x * -1) by (nonlinear_arith)
                requires d == -1;
        } else {
            assert(0 <= (x * -1) / (d * -1) <= 0x4000_0000_0000_0000int) by (nonlinear_arith)
                requires 0 < x * -1 <= 0x8000_0000_0000_0000int && d * -1 >= 2;
        }
    } else if x < 0 {
        assert(0 <= (x * -1) / d <= x * -1) by (nonlinear_arith)
            requires x * -1 > 0 && d > 0;
    } else if x > 0 {
        assert(0 <= x / (d * -1) <= x) by (nonlinear_arith)
            requires x > 0 && d * -1 > 0;
    }
}

} // verus!
