//! The interpreter loop and its specification.
//!
//! The machine's whole per-run state is modelled by [`MState`];
//! [`step_spec`] decodes and executes one built-in opcode on that
//! model, [`step_rel`] widens it to admit, at an opcode of the
//! extension point, exactly the outcomes an extension can produce, and
//! [`run_to_rel`] chains such steps. The executable [`run`] is proved
//! to realise some finite chain: whatever it returns and leaves in the
//! stack and the memory is an outcome that chain allows.

use vstd::prelude::*;
use std::io::Write;
use rustc_apfloat::Float;
use rustc_apfloat::ieee::Double;
use crate::data::Data;
use crate::data::Error;
use crate::stack::Stack;
use crate::stack::spec_pop;
use crate::stack::spec_add;
use crate::stack::spec_sub;
use crate::stack::spec_mul;
use crate::stack::spec_div;
use crate::stack::spec_modulus;
use crate::stack::spec_dup;
use crate::stack::spec_swap;
use crate::stack::spec_over;
use crate::fbits::f64_add;
use crate::fbits::f64_mul;
use crate::fbits::f64_div;
use crate::fbits::f64_of_i64;
use crate::fbits::f64_of_i64_bits;
use crate::fbits::f64_div_bits;
use crate::fbits::f64_mul_bits;

verus! {

/// The extension point: a capability invoked for any opcode byte the
/// core does not recognize, given the raw opcode and mutable access to
/// the operand stack. Its result is propagated exactly as a built-in
/// failure would be.
pub trait AtomExtender {
    fn atom(&mut self, instruction: u8, stack: &mut Stack) -> Result<(), Error>;
}

/// The default extension: rejects every opcode with
/// `InvalidInstruction`.
pub struct NullExtender {}

impl AtomExtender for NullExtender {
    fn atom(&mut self, _instruction: u8, stack: &mut Stack) -> (r: Result<(), Error>)
        ensures
            r == Err::<(), Error>(Error::InvalidInstruction),
            final(stack)@ == old(stack)@,
    {
        Err(Error::InvalidInstruction)
    }
}

/// The whole state of one run of the model machine: program counter,
/// operand stack, return-address stack, the two literal-accumulator
/// registers, and the memory contents.
pub struct MState {
    pub pc: usize,
    pub stack: Seq<Data>,
    pub rstack: Seq<usize>,
    pub value: i64,
    pub divider: u64,
    pub mem: Seq<Data>,
}

/// The outcome of one decoded opcode: a next state, normal termination,
/// a failure with the program counter as it stood immediately after the
/// faulting opcode, or an opcode handed to the extension point.
pub enum Step {
    Next(MState),
    Halt(MState),
    Fail(usize, Error, MState),
    Ext(u8, usize, MState),
}

/// The state a run starts from: caller-supplied program counter, stack
/// and memory; an empty return-address stack; the literal accumulator
/// at zero over a divider of one.
pub open spec fn init_state(pc: usize, stack: Seq<Data>, mem: Seq<Data>) -> MState {
    MState { pc, stack, rstack: Seq::empty(), value: 0, divider: f64_of_i64(1), mem }
}

/// Numeric truthiness: not equal to zero, for both tags. A float is
/// zero exactly when its bits are one of the two IEEE 754 zeros.
pub open spec fn data_nonzero(v: Data) -> bool {
    match v {
        Data::Int(n) => n != 0,
        Data::Float(b) => !(b == 0 || b == 0x8000_0000_0000_0000u64),
    }
}

/// Lifts a stack operation's effect into a step: on success execution
/// continues past the opcode; on failure the error is wrapped with the
/// advanced program counter, the partial pops kept.
pub open spec fn lift_stack_op(
    s: MState,
    pc1: usize,
    outcome: (Seq<Data>, Result<(), Error>),
) -> Step {
    match outcome.1 {
        Ok(u) => Step::Next(MState { pc: pc1, stack: outcome.0, ..s }),
        Err(e) => Step::Fail(pc1, e, MState { pc: pc1, stack: outcome.0, ..s }),
    }
}

/// Decodes and executes the single opcode at `s.pc`, or halts if the
/// program counter has reached the end of the program.
pub open spec fn step_spec(code: Seq<u8>, s: MState) -> Step {
    if s.pc >= code.len() {
        Step::Halt(s)
    } else {
        let op = code[s.pc as int];
        let pc1 = (s.pc + 1) as usize;
        if op == 10 || op == 13 || op == 32 {
            // Line feed, carriage return, space: no-ops.
            Step::Next(MState { pc: pc1, ..s })
        } else if op == 34 {
            // Double quote: push the accumulated literal as a float,
            // scaled down by the divider.
            Step::Next(
                MState {
                    pc: pc1,
                    stack: s.stack.push(Data::Float(f64_div(f64_of_i64(s.value), s.divider))),
                    ..s
                },
            )
        } else if op == 35 {
            // Pound sign: reset the literal accumulator.
            Step::Next(MState { pc: pc1, value: 0, divider: f64_of_i64(1), ..s })
        } else if op == 36 {
            // Dollar sign: negate the accumulated literal.
            Step::Next(MState { pc: pc1, value: (0i64).wrapping_sub(s.value), ..s })
        } else if op == 37 {
            lift_stack_op(s, pc1, spec_modulus(s.stack))
        } else if op == 39 {
            // Single quote: push the accumulated literal as an integer.
            Step::Next(MState { pc: pc1, stack: s.stack.push(Data::Int(s.value)), ..s })
        } else if op == 42 {
            lift_stack_op(s, pc1, spec_mul(s.stack))
        } else if op == 43 {
            lift_stack_op(s, pc1, spec_add(s.stack))
        } else if op == 45 {
            lift_stack_op(s, pc1, spec_sub(s.stack))
        } else if op == 46 {
            // Period: widen the divider by three orders of magnitude.
            Step::Next(MState { pc: pc1, divider: f64_mul(s.divider, f64_of_i64(1000)), ..s })
        } else if op == 47 {
            lift_stack_op(s, pc1, spec_div(s.stack))
        } else if 48 <= op && op <= 57 {
            // Numeral: append a decimal digit to the accumulator.
            Step::Next(
                MState {
                    pc: pc1,
                    value: s.value.wrapping_mul(10).wrapping_add((op - 48) as i64),
                    ..s
                },
            )
        } else if op == 59 {
            // Semicolon: return. An empty return-address stack is
            // ordinary termination, not an error.
            if s.rstack.len() == 0 {
                Step::Halt(MState { pc: pc1, ..s })
            } else {
                Step::Next(MState { pc: s.rstack.last(), rstack: s.rstack.drop_last(), ..s })
            }
        } else if op == 82 {
            // "R": read from memory at an integer address, modulo the
            // memory's length; empty memory is a modulus by zero.
            let popped = spec_pop(s.stack);
            match popped.1 {
                Err(e) => Step::Fail(pc1, e, MState { pc: pc1, stack: popped.0, ..s }),
                Ok(Data::Float(b)) => Step::Fail(
                    pc1,
                    Error::TypeMismatch,
                    MState { pc: pc1, stack: popped.0, ..s },
                ),
                Ok(Data::Int(n)) => if s.mem.len() == 0 {
                    Step::Fail(pc1, Error::DivisionByZero, MState { pc: pc1, stack: popped.0, ..s })
                } else {
                    Step::Next(
                        MState {
                            pc: pc1,
                            stack: popped.0.push(
                                s.mem[(n as usize) as int % (s.mem.len() as int)],
                            ),
                            ..s
                        },
                    )
                },
            }
        } else if op == 87 {
            // "W": write a value to memory at an integer address,
            // modulo the memory's length; the address is the top pop,
            // the value the pop beneath it.
            let addr_popped = spec_pop(s.stack);
            match addr_popped.1 {
                Err(e) => Step::Fail(pc1, e, MState { pc: pc1, stack: addr_popped.0, ..s }),
                Ok(addr) => {
                    let val_popped = spec_pop(addr_popped.0);
                    match val_popped.1 {
                        Err(e) => Step::Fail(pc1, e, MState { pc: pc1, stack: val_popped.0, ..s }),
                        Ok(value) => match addr {
                            Data::Float(b) => Step::Fail(
                                pc1,
                                Error::TypeMismatch,
                                MState { pc: pc1, stack: val_popped.0, ..s },
                            ),
                            Data::Int(n) => if s.mem.len() == 0 {
                                Step::Fail(
                                    pc1,
                                    Error::DivisionByZero,
                                    MState { pc: pc1, stack: val_popped.0, ..s },
                                )
                            } else {
                                Step::Next(
                                    MState {
                                        pc: pc1,
                                        stack: val_popped.0,
                                        mem: s.mem.update(
                                            (n as usize) as int % (s.mem.len() as int),
                                            value,
                                        ),
                                        ..s
                                    },
                                )
                            },
                        },
                    }
                },
            }
        } else if op == 98 {
            // "b": unconditional branch to an integer address.
            let popped = spec_pop(s.stack);
            match popped.1 {
                Err(e) => Step::Fail(pc1, e, MState { pc: pc1, stack: popped.0, ..s }),
                Ok(Data::Float(b)) => Step::Fail(
                    pc1,
                    Error::TypeMismatch,
                    MState { pc: pc1, stack: popped.0, ..s },
                ),
                Ok(Data::Int(n)) => Step::Next(
                    MState { pc: n as usize, stack: popped.0, ..s },
                ),
            }
        } else if op == 99 {
            // "c": call an integer address, saving the resume point on
            // the return-address stack.
            let popped = spec_pop(s.stack);
            match popped.1 {
                Err(e) => Step::Fail(pc1, e, MState { pc: pc1, stack: popped.0, ..s }),
                Ok(Data::Float(b)) => Step::Fail(
                    pc1,
                    Error::TypeMismatch,
                    MState { pc: pc1, stack: popped.0, ..s },
                ),
                Ok(Data::Int(n)) => Step::Next(
                    MState {
                        pc: n as usize,
                        stack: popped.0,
                        rstack: s.rstack.push(pc1),
                        ..s
                    },
                ),
            }
        } else if op == 100 {
            lift_stack_op(s, pc1, spec_dup(s.stack))
        } else if op == 112 {
            // "p": debug print; pops one value, its rendering is a side
            // effect outside the model.
            let popped = spec_pop(s.stack);
            match popped.1 {
                Err(e) => Step::Fail(pc1, e, MState { pc: pc1, stack: popped.0, ..s }),
                Ok(v) => Step::Next(MState { pc: pc1, stack: popped.0, ..s }),
            }
        } else if op == 114 {
            // "r": drop the top of the stack.
            let popped = spec_pop(s.stack);
            match popped.1 {
                Err(e) => Step::Fail(pc1, e, MState { pc: pc1, stack: popped.0, ..s }),
                Ok(v) => Step::Next(MState { pc: pc1, stack: popped.0, ..s }),
            }
        } else if op == 115 {
            lift_stack_op(s, pc1, spec_swap(s.stack))
        } else if op == 118 {
            lift_stack_op(s, pc1, spec_over(s.stack))
        } else if op == 121 || op == 122 {
            // "y"/"z": jump to an integer address if the data value
            // beneath it is nonzero ("y") or zero ("z").
            let addr_popped = spec_pop(s.stack);
            match addr_popped.1 {
                Err(e) => Step::Fail(pc1, e, MState { pc: pc1, stack: addr_popped.0, ..s }),
                Ok(addr) => {
                    let data_popped = spec_pop(addr_popped.0);
                    match data_popped.1 {
                        Err(e) => Step::Fail(
                            pc1,
                            e,
                            MState { pc: pc1, stack: data_popped.0, ..s },
                        ),
                        Ok(cond) => match addr {
                            Data::Float(b) => Step::Fail(
                                pc1,
                                Error::TypeMismatch,
                                MState { pc: pc1, stack: data_popped.0, ..s },
                            ),
                            Data::Int(n) => {
                                let taken = if op == 121 {
                                    data_nonzero(cond)
                                } else {
                                    !data_nonzero(cond)
                                };
                                Step::Next(
                                    MState {
                                        pc: if taken {
                                            n as usize
                                        } else {
                                            pc1
                                        },
                                        stack: data_popped.0,
                                        ..s
                                    },
                                )
                            },
                        },
                    }
                },
            }
        } else {
            Step::Ext(op, pc1, MState { pc: pc1, ..s })
        }
    }
}

/// What a chain of steps can end in: still running, halted normally,
/// or failed.
pub enum RunOut {
    Running(MState),
    Halted(MState),
    Failed(usize, Error, MState),
}

/// Whether `op` is one of the opcodes the core itself decodes; every
/// other byte goes to the extension point.
pub open spec fn builtin_opcode(op: u8) -> bool {
    op == 10 || op == 13 || op == 32 || op == 34 || op == 35 || op == 36 || op == 37 || op == 39
        || op == 42 || op == 43 || op == 45 || op == 46 || op == 47 || (48 <= op && op <= 57)
        || op == 59 || op == 82 || op == 87 || op == 98 || op == 99 || op == 100 || op == 112
        || op == 114 || op == 115 || op == 118 || op == 121 || op == 122
}

/// Whether one decoded opcode can turn the machine from `s` into the
/// step outcome `st`. A built-in opcode (and the end of the program)
/// acts exactly as [`step_spec`] says. An opcode of the extension
/// point is decided by the extension: it may succeed with any operand
/// stack, or fail with any error, and either way the position advances
/// one byte past the opcode, the return-address stack, the literal
/// registers and the memory are untouched, and a failure is wrapped
/// with that advanced position.
pub open spec fn step_rel(code: Seq<u8>, s: MState, st: Step) -> bool {
    if s.pc >= code.len() || builtin_opcode(code[s.pc as int]) {
        st == step_spec(code, s)
    } else {
        let pc1 = (s.pc + 1) as usize;
        match st {
            Step::Next(s2) => s2.pc == pc1 && s2.rstack == s.rstack && s2.value == s.value
                && s2.divider == s.divider && s2.mem == s.mem,
            Step::Fail(p, e, s2) => p == pc1 && s2.pc == pc1 && s2.rstack == s.rstack && s2.value
                == s.value && s2.divider == s.divider && s2.mem == s.mem,
            _ => false,
        }
    }
}

/// Whether a chain of exactly `n` allowed steps from `s` reaches `out`:
/// `n - 1` continuing steps and, for a halted or failed outcome, a
/// final terminal step.
pub open spec fn run_to_rel(code: Seq<u8>, s: MState, n: nat, out: RunOut) -> bool
    decreases n,
{
    if n == 0 {
        out == RunOut::Running(s)
    } else {
        exists|st: Step|
            #[trigger] step_rel(code, s, st) && match st {
                Step::Next(s2) => run_to_rel(code, s2, (n - 1) as nat, out),
                Step::Halt(s2) => out == RunOut::Halted(s2),
                Step::Fail(p, e, s2) => out == RunOut::Failed(p, e, s2),
                Step::Ext(op, p, s2) => false,
            }
    }
}

/// A chain that is still running after `n` steps extends by any single
/// allowed step.
pub proof fn lemma_chain_step(code: Seq<u8>, s0: MState, n: nat, cur: MState, st: Step)
    requires
        run_to_rel(code, s0, n, RunOut::Running(cur)),
        step_rel(code, cur, st),
    ensures
        match st {
            Step::Next(s2) => run_to_rel(code, s0, n + 1, RunOut::Running(s2)),
            Step::Halt(s2) => run_to_rel(code, s0, n + 1, RunOut::Halted(s2)),
            Step::Fail(p, e, s2) => run_to_rel(code, s0, n + 1, RunOut::Failed(p, e, s2)),
            Step::Ext(op, p, s2) => true,
        },
    decreases n,
{
    reveal_with_fuel(run_to_rel, 2);
    if n > 0 {
        let out0 = RunOut::Running(cur);
        let st0 = choose|st0: Step|
            #[trigger] step_rel(code, s0, st0) && match st0 {
                Step::Next(s2) => run_to_rel(code, s2, (n - 1) as nat, out0),
                Step::Halt(s2) => out0 == RunOut::Halted(s2),
                Step::Fail(p, e, s2) => out0 == RunOut::Failed(p, e, s2),
                Step::Ext(op, p, s2) => false,
            };
        match st0 {
            Step::Next(s2) => {
                lemma_chain_step(code, s2, (n - 1) as nat, cur, st);
            },
            _ => {},
        }
    }
}

/// What a run promises of a completed call, witnessed by a step count
/// `n` and a model outcome `out`: a chain of `n` allowed steps reaches
/// `out`, and `out` matches the returned result together with the
/// final stack and memory. A machine still running after the whole
/// opcode budget `limit` is reported as `StepLimit` at the position it
/// reached.
pub open spec fn run_outcome(
    code: Seq<u8>,
    init: MState,
    n: nat,
    limit: nat,
    out: RunOut,
    r: Result<(), (usize, Error)>,
    stack_after: Seq<Data>,
    mem_after: Seq<Data>,
) -> bool {
    run_to_rel(code, init, n, out) && match out {
        RunOut::Halted(s) => r == Ok::<(), (usize, Error)>(()) && stack_after == s.stack
            && mem_after == s.mem,
        RunOut::Failed(p, e, s) => r == Err::<(), (usize, Error)>((p, e)) && stack_after == s.stack
            && mem_after == s.mem,
        RunOut::Running(s) => n == limit && r == Err::<(), (usize, Error)>(
            (s.pc, Error::StepLimit),
        ) && stack_after == s.stack && mem_after == s.mem,
    }
}

/// The promise a run makes: some finite chain of allowed steps reaches
/// an outcome that matches the returned result together with the final
/// stack and memory. Built-in opcodes act exactly as the model's step
/// function says; at an opcode of the extension point the chain admits
/// exactly the outcomes [`step_rel`] allows the extension, so every
/// failure anywhere in the chain carries the position immediately
/// after its faulting opcode.
pub open spec fn run_matches(
    code: Seq<u8>,
    init: MState,
    limit: nat,
    r: Result<(), (usize, Error)>,
    stack_after: Seq<Data>,
    mem_after: Seq<Data>,
) -> bool {
    exists|n: nat, out: RunOut|
        run_outcome(code, init, n, limit, out, r, stack_after, mem_after)
}

/// A step count and a model outcome at which the chain matches the
/// returned result are a witness for the promise a run makes.
proof fn witness_outcome(
    code: Seq<u8>,
    init: MState,
    k: nat,
    limit: nat,
    out: RunOut,
    r: Result<(), (usize, Error)>,
    stack_after: Seq<Data>,
    mem_after: Seq<Data>,
)
    requires
        run_outcome(code, init, k, limit, out, r, stack_after, mem_after),
    ensures
        run_matches(code, init, limit, r, stack_after, mem_after),
{
}

/// Relies on `writeln!` to standard output: renders an integer value
/// with its tag for the debug opcode.
#[verifier::external_body]
fn print_int(n: i64) {
    let _ = writeln!(std::io::stdout(), "Int:{}", n);
}

/// Relies on `writeln!` to standard output, rendering the float through
/// rustc_apfloat's `Double`: prints a float value with its tag for the
/// debug opcode.
#[verifier::external_body]
fn print_float(bits: u64) {
    let _ = writeln!(std::io::stdout(), "Float:{}", Double::from_bits(bits as u128));
}

/// The live registers of one run: the program counter, the
/// return-address stack, and the literal accumulator's two registers.
struct Frame {
    pc: usize,
    rstack: Vec<usize>,
    value: i64,
    divider: u64,
}

/// The model state that a frame, an operand stack and a memory stand
/// for.
spec fn frame_state(f: Frame, stack: Seq<Data>, mem: Seq<Data>) -> MState {
    MState { pc: f.pc, stack, rstack: f.rstack@, value: f.value, divider: f.divider, mem }
}

/// What executing one opcode reports back to the loop: go on, ordinary
/// termination, or a failure wrapped with the program counter.
enum StepRes {
    Continue,
    Done,
    Failed(usize, Error),
}

/// Decode and execute the single opcode under the program counter,
/// advancing the frame, the stack and the memory exactly as the model's
/// [`step_spec`] says; an opcode the core does not recognize goes to
/// the extension point, whose outcome decides and is passed through.
#[verifier::rlimit(100)]
#[verifier::spinoff_prover]
fn step_exec<T: AtomExtender>(
    code: &Vec<u8>,
    f: &mut Frame,
    stack: &mut Stack,
    memory: &mut Vec<Data>,
    extender: &mut T,
) -> (r: StepRes)
    requires
        old(f).pc < code@.len(),
    ensures
        match step_spec(code@, frame_state(*old(f), old(stack)@, old(memory)@)) {
            Step::Next(s2) => r is Continue && frame_state(*final(f), final(stack)@, final(memory)@)
                == s2,
            Step::Halt(s2) => r is Done && frame_state(*final(f), final(stack)@, final(memory)@)
                == s2,
            Step::Fail(p, e, s2) => r == StepRes::Failed(p, e) && frame_state(
                *final(f),
                final(stack)@,
                final(memory)@,
            ) == s2,
            Step::Ext(op, p, s2) => final(f).pc == p && final(f).rstack@ == old(f).rstack@
                && final(f).value == old(f).value && final(f).divider == old(f).divider
                && final(memory)@ == old(memory)@ && !(r is Done) && (r matches StepRes::Failed(
                p2,
                e2,
            ) ==> p2 == p),
        },
        code@[old(f).pc as int] != 87 ==> final(memory)@ == old(memory)@,
        r matches StepRes::Failed(p2, e2) ==> p2 == old(f).pc + 1,
{
    // The length call puts the program's length below usize::MAX in
    // scope, so advancing the program counter cannot overflow.
    let code_len = code.len();
    let instruction = code[f.pc];
    f.pc = f.pc + 1;
    let pc = f.pc;

    match instruction {
        10 => StepRes::Continue,
        13 => StepRes::Continue,  // carriage returns and line feeds are ignored
        32 => StepRes::Continue,  // spaces are allowed
        34 => {  // double quote: push constant as float
            let v = f64_of_i64_bits(f.value);
            let q = f64_div_bits(v, f.divider);
            stack.push(Data::Float(q));
            StepRes::Continue
        },
        35 => {  // pound sign: load constant
            f.value = 0;
            f.divider = f64_of_i64_bits(1);
            StepRes::Continue
        },
        36 => {  // dollar sign: invert constant
            f.value = (0i64).wrapping_sub(f.value);
            StepRes::Continue
        },
        37 => {  // percent sign: modulus
            match stack.modulus() {
                Err(n) => StepRes::Failed(pc, n),
                Ok(()) => StepRes::Continue,
            }
        },
        39 => {  // single quote: push constant as integer
            stack.push(Data::Int(f.value));
            StepRes::Continue
        },
        42 => {  // asterisk: multiply
            match stack.mul() {
                Err(n) => StepRes::Failed(pc, n),
                Ok(()) => StepRes::Continue,
            }
        },
        43 => {  // plus sign: add
            match stack.add() {
                Err(n) => StepRes::Failed(pc, n),
                Ok(()) => StepRes::Continue,
            }
        },
        45 => {  // minus sign: subtract
            match stack.sub() {
                Err(n) => StepRes::Failed(pc, n),
                Ok(()) => StepRes::Continue,
            }
        },
        46 => {  // period: widen the divider by three orders of magnitude
            let t = f64_of_i64_bits(1000);
            f.divider = f64_mul_bits(f.divider, t);
            StepRes::Continue
        },
        47 => {  // slash: divide
            match stack.div() {
                Err(n) => StepRes::Failed(pc, n),
                Ok(()) => StepRes::Continue,
            }
        },
        48..=57 => {  // numeral
            f.value = f.value.wrapping_mul(10).wrapping_add((instruction as i64) - 48);
            StepRes::Continue
        },
        59 => {  // semicolon: return; an empty return stack ends the run
            match f.rstack.pop() {
                Some(home) => {
                    f.pc = home;
                    StepRes::Continue
                },
                None => StepRes::Done,
            }
        },
        82 => {  // "R": read from memory
            let addr = match stack.pop() {
                Err(n) => {
                    return StepRes::Failed(pc, n);
                },
                Ok(n) => n,
            };
            match addr {
                Data::Float(_) => StepRes::Failed(pc, Error::TypeMismatch),
                Data::Int(n) => {
                    if memory.len() == 0 {
                        return StepRes::Failed(pc, Error::DivisionByZero);
                    }
                    let idx = (#[verifier::truncate] (n as usize)) % memory.len();
                    let val = memory[idx];
                    stack.push(val);
                    StepRes::Continue
                },
            }
        },
        87 => {  // "W": write to memory
            let addr = match stack.pop() {
                Err(n) => {
                    return StepRes::Failed(pc, n);
                },
                Ok(n) => n,
            };
            let val = match stack.pop() {
                Err(n) => {
                    return StepRes::Failed(pc, n);
                },
                Ok(n) => n,
            };
            match addr {
                Data::Float(_) => StepRes::Failed(pc, Error::TypeMismatch),
                Data::Int(n) => {
                    if memory.len() == 0 {
                        return StepRes::Failed(pc, Error::DivisionByZero);
                    }
                    let idx = (#[verifier::truncate] (n as usize)) % memory.len();
                    memory[idx] = val;
                    StepRes::Continue
                },
            }
        },
        98 => {  // "b": jump to address
            let addr = match stack.pop() {
                Err(n) => {
                    return StepRes::Failed(pc, n);
                },
                Ok(n) => n,
            };
            match addr {
                Data::Float(_) => StepRes::Failed(pc, Error::TypeMismatch),
                Data::Int(n) => {
                    f.pc = #[verifier::truncate] (n as usize);
                    StepRes::Continue
                },
            }
        },
        99 => {  // "c": call address
            let addr = match stack.pop() {
                Err(n) => {
                    return StepRes::Failed(pc, n);
                },
                Ok(n) => n,
            };
            match addr {
                Data::Float(_) => StepRes::Failed(pc, Error::TypeMismatch),
                Data::Int(n) => {
                    f.rstack.push(pc);
                    f.pc = #[verifier::truncate] (n as usize);
                    StepRes::Continue
                },
            }
        },
        100 => {  // "d": duplicate
            match stack.dup() {
                Err(n) => StepRes::Failed(pc, n),
                Ok(()) => StepRes::Continue,
            }
        },
        112 => {  // "p": debug print of the top value's tag and content
            let val = match stack.pop() {
                Err(n) => {
                    return StepRes::Failed(pc, n);
                },
                Ok(n) => n,
            };
            match val {
                Data::Int(n) => print_int(n),
                Data::Float(b) => print_float(b),
            }
            StepRes::Continue
        },
        114 => {  // "r": drop
            match stack.pop() {
                Err(n) => StepRes::Failed(pc, n),
                Ok(_) => StepRes::Continue,
            }
        },
        115 => {  // "s": swap
            match stack.swap() {
                Err(n) => StepRes::Failed(pc, n),
                Ok(()) => StepRes::Continue,
            }
        },
        118 => {  // "v": over
            match stack.over() {
                Err(n) => StepRes::Failed(pc, n),
                Ok(()) => StepRes::Continue,
            }
        },
        121 | 122 => {  // "y"/"z": jump if nonzero / jump if zero
            let addr = match stack.pop() {
                Err(n) => {
                    return StepRes::Failed(pc, n);
                },
                Ok(n) => n,
            };
            let cond = match stack.pop() {
                Err(n) => {
                    return StepRes::Failed(pc, n);
                },
                Ok(n) => n,
            };
            let address = match addr {
                Data::Float(_) => {
                    return StepRes::Failed(pc, Error::TypeMismatch);
                },
                Data::Int(n) => #[verifier::truncate] (n as usize),
            };
            let nonzero = match cond {
                Data::Int(n) => n != 0,
                Data::Float(b) => !(b == 0 || b == 0x8000_0000_0000_0000u64),
            };
            let taken = if instruction == 121 {
                nonzero
            } else {
                !nonzero
            };
            if taken {
                f.pc = address;
            }
            StepRes::Continue
        },
        _ => {
            match extender.atom(instruction, stack) {
                Err(n) => StepRes::Failed(pc, n),
                Ok(()) => StepRes::Continue,
            }
        },
    }
}

/// Run some code, executing at most `limit` opcodes. The stack and
/// memory parameters can be non-empty; this is how data is passed to a
/// program, and since they are only borrowed, results can be read back
/// out of them after the run.
///
/// `pc` should be set to the beginning of one of the words in the
/// program. A return opcode with no saved address is ordinary
/// termination, not a return-stack underflow.
///
/// The contract: some chain of allowed steps, started on the given
/// program counter, stack and memory, reaches exactly the returned
/// outcome, with the stack and the memory as the run left them. A
/// built-in opcode steps exactly as the model says; an opcode of the
/// extension point may leave any operand stack and succeed or fail
/// with any error, but advances the position one byte, leaves the
/// registers, the return-address stack and the memory untouched, and
/// has its failure wrapped with that position. So every failure other
/// than the budget's own carries the position immediately after its
/// faulting opcode, and a program without the write opcode leaves the
/// memory untouched. A program still running after `limit` opcodes is
/// reported as `StepLimit` at the position it reached.
pub fn run_with_limit<T: AtomExtender>(
    code: &Vec<u8>,
    stack: &mut Stack,
    pc: usize,
    extender: T,
    memory: &mut Vec<Data>,
    limit: u64,
) -> (r: Result<(), (usize, Error)>)
    ensures
        run_matches(
            code@,
            init_state(pc, old(stack)@, old(memory)@),
            limit as nat,
            r,
            final(stack)@,
            final(memory)@,
        ),
        (forall|i: int| 0 <= i < code@.len() ==> code@[i] != 87) ==> final(memory)@
            == old(memory)@,
        r matches Err((p, e)) ==> e == Error::StepLimit || 1 <= p <= code@.len(),
{
    let ghost init = init_state(pc, old(stack)@, old(memory)@);
    let mut extender = extender;
    let mut f = Frame { pc, rstack: Vec::new(), value: 0, divider: f64_of_i64_bits(1) };
    let mut fuel: u64 = limit;
    let ghost mut steps: nat = 0;

    while f.pc < code.len() && fuel > 0
        invariant
            init == init_state(pc, old(stack)@, old(memory)@),
            steps + fuel == limit,
            run_to_rel(code@, init, steps, RunOut::Running(frame_state(f, stack@, memory@))),
            (forall|i: int| 0 <= i < code@.len() ==> code@[i] != 87) ==> memory@ == old(memory)@,
        decreases fuel,
    {
        fuel = fuel - 1;
        let ghost pre = frame_state(f, stack@, memory@);
        let res = step_exec(code, &mut f, stack, memory, &mut extender);
        proof {
            let post = frame_state(f, stack@, memory@);
            let st = match res {
                StepRes::Continue => Step::Next(post),
                StepRes::Done => Step::Halt(post),
                StepRes::Failed(p, e) => Step::Fail(p, e, post),
            };
            assert(step_rel(code@, pre, st));
            lemma_chain_step(code@, init, steps, pre, st);
            steps = steps + 1;
        }
        match res {
            StepRes::Continue => {},
            StepRes::Done => {
                proof {
                    witness_outcome(
                        code@,
                        init,
                        steps,
                        limit as nat,
                        RunOut::Halted(frame_state(f, stack@, memory@)),
                        Ok::<(), (usize, Error)>(()),
                        stack@,
                        memory@,
                    );
                }
                return Ok(());
            },
            StepRes::Failed(p, e) => {
                proof {
                    witness_outcome(
                        code@,
                        init,
                        steps,
                        limit as nat,
                        RunOut::Failed(p, e, frame_state(f, stack@, memory@)),
                        Err::<(), (usize, Error)>((p, e)),
                        stack@,
                        memory@,
                    );
                }
                return Err((p, e));
            },
        }
    }
    if fuel == 0 && f.pc < code.len() {
        proof {
            witness_outcome(
                code@,
                init,
                steps,
                limit as nat,
                RunOut::Running(frame_state(f, stack@, memory@)),
                Err::<(), (usize, Error)>((f.pc, Error::StepLimit)),
                stack@,
                memory@,
            );
        }
        return Err((f.pc, Error::StepLimit));
    }
    proof {
        let cur = frame_state(f, stack@, memory@);
        assert(step_rel(code@, cur, Step::Halt(cur)));
        lemma_chain_step(code@, init, steps, cur, Step::Halt(cur));
        witness_outcome(
            code@,
            init,
            steps + 1,
            limit as nat,
            RunOut::Halted(cur),
            Ok::<(), (usize, Error)>(()),
            stack@,
            memory@,
        );
    }
    Ok(())
}

/// Run some code with the default opcode budget of `u64::MAX`, which is
/// beyond reach of any real execution: in practice a run ends only at
/// end-of-program, at a return with no saved address, or at the first
/// error.
///
/// See [`run_with_limit`] for the full contract.
pub fn run<T: AtomExtender>(
    code: &Vec<u8>,
    stack: &mut Stack,
    pc: usize,
    extender: T,
    memory: &mut Vec<Data>,
) -> (r: Result<(), (usize, Error)>)
    ensures
        run_matches(
            code@,
            init_state(pc, old(stack)@, old(memory)@),
            u64::MAX as nat,
            r,
            final(stack)@,
            final(memory)@,
        ),
        (forall|i: int| 0 <= i < code@.len() ==> code@[i] != 87) ==> final(memory)@
            == old(memory)@,
        r matches Err((p, e)) ==> e == Error::StepLimit || 1 <= p <= code@.len(),
{
    run_with_limit(code, stack, pc, extender, memory, u64::MAX)
}

} // verus!
