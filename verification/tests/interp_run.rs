use stackvm::AtomExtender;
use stackvm::Data;
use stackvm::Error;
use stackvm::NullExtender;
use stackvm::Stack;
use stackvm::run;
use stackvm::run_with_limit;

fn run_program(code: &[u8], stack: &mut Stack, memory: &mut Vec<Data>) -> Result<(), (usize, Error)> {
    let code: Vec<u8> = code.to_vec();
    run(&code, stack, 0, NullExtender {}, memory)
}

#[test]
fn literal_encoding_pushes_int() {
    let mut s = Stack::new();
    let mut mem: Vec<Data> = Vec::new();
    assert_eq!(run_program(b"#12'", &mut s, &mut mem), Ok(()));
    assert_eq!(s.len(), 1);
    assert_eq!(s.pop(), Ok(Data::Int(12)));
}

#[test]
fn literal_encoding_with_scaling_pushes_float() {
    let mut s = Stack::new();
    let mut mem: Vec<Data> = Vec::new();
    assert_eq!(run_program(b"#5.\"", &mut s, &mut mem), Ok(()));
    assert_eq!(s.pop(), Ok(Data::Float((0.005f64).to_bits())));
}

#[test]
fn scaling_compounds_three_orders_per_period() {
    let mut s = Stack::new();
    let mut mem: Vec<Data> = Vec::new();
    assert_eq!(run_program(b"#5..\"", &mut s, &mut mem), Ok(()));
    assert_eq!(s.pop(), Ok(Data::Float((5.0f64 / 1000000.0f64).to_bits())));
}

#[test]
fn negate_inverts_the_accumulated_literal() {
    let mut s = Stack::new();
    let mut mem: Vec<Data> = Vec::new();
    assert_eq!(run_program(b"#12$'", &mut s, &mut mem), Ok(()));
    assert_eq!(s.pop(), Ok(Data::Int(-12)));
}

#[test]
fn push_does_not_reset_the_accumulator() {
    let mut s = Stack::new();
    let mut mem: Vec<Data> = Vec::new();
    assert_eq!(run_program(b"#5''", &mut s, &mut mem), Ok(()));
    assert_eq!(s.pop(), Ok(Data::Int(5)));
    assert_eq!(s.pop(), Ok(Data::Int(5)));
}

#[test]
fn whitespace_opcodes_are_no_ops() {
    let mut s = Stack::new();
    let mut mem: Vec<Data> = Vec::new();
    assert_eq!(run_program(b" \n\r", &mut s, &mut mem), Ok(()));
    assert_eq!(s.len(), 0);
}

#[test]
fn memory_wraparound_write_seven_read_three() {
    let mut s = Stack::new();
    s.push(Data::Int(42));
    s.push(Data::Int(7));
    let mut mem: Vec<Data> = vec![Data::Int(0); 4];
    assert_eq!(run_program(b"W#3'R", &mut s, &mut mem), Ok(()));
    assert_eq!(s.pop(), Ok(Data::Int(42)));
    assert_eq!(mem[3], Data::Int(42));
}

#[test]
fn memory_persists_between_runs() {
    let mut mem: Vec<Data> = vec![Data::Int(0); 2];

    let mut s = Stack::new();
    s.push(Data::Int(7));
    s.push(Data::Int(1));
    assert_eq!(run_program(b"W", &mut s, &mut mem), Ok(()));

    let mut t = Stack::new();
    assert_eq!(run_program(b"#1'R", &mut t, &mut mem), Ok(()));
    assert_eq!(t.pop(), Ok(Data::Int(7)));
}

#[test]
fn read_with_float_address_is_a_type_mismatch() {
    let mut s = Stack::new();
    s.push(Data::Float((1.0f64).to_bits()));
    let mut mem: Vec<Data> = vec![Data::Int(0); 2];
    assert_eq!(run_program(b"R", &mut s, &mut mem), Err((1, Error::TypeMismatch)));
}

#[test]
fn read_with_empty_memory_is_a_division_by_zero() {
    let mut s = Stack::new();
    s.push(Data::Int(0));
    let mut mem: Vec<Data> = Vec::new();
    assert_eq!(run_program(b"R", &mut s, &mut mem), Err((1, Error::DivisionByZero)));
}

#[test]
fn unknown_opcode_reports_position_after_the_byte() {
    let mut s = Stack::new();
    let mut mem: Vec<Data> = Vec::new();
    assert_eq!(run_program(b"A", &mut s, &mut mem), Err((1, Error::InvalidInstruction)));
}

#[test]
fn unknown_opcode_mid_program_reports_its_own_position() {
    let mut s = Stack::new();
    let mut mem: Vec<Data> = Vec::new();
    assert_eq!(run_program(b"#1'A", &mut s, &mut mem), Err((4, Error::InvalidInstruction)));
}

#[test]
fn call_resumes_one_byte_past_the_call_site() {
    let mut s = Stack::new();
    let mut mem: Vec<Data> = Vec::new();
    // Call the subroutine at offset 8 (a bare return), then push 42.
    assert_eq!(run_program(b"#8'c#42';", &mut s, &mut mem), Ok(()));
    assert_eq!(s.len(), 1);
    assert_eq!(s.pop(), Ok(Data::Int(42)));
}

#[test]
fn return_with_empty_return_stack_ends_the_run() {
    let mut s = Stack::new();
    let mut mem: Vec<Data> = Vec::new();
    assert_eq!(run_program(b";#1'", &mut s, &mut mem), Ok(()));
    assert_eq!(s.len(), 0);
}

#[test]
fn branch_jumps_unconditionally() {
    let mut s = Stack::new();
    let mut mem: Vec<Data> = Vec::new();
    assert_eq!(run_program(b"#6'b12'", &mut s, &mut mem), Ok(()));
    assert_eq!(s.pop(), Ok(Data::Int(6)));
    assert_eq!(s.len(), 0);
}

#[test]
fn jump_if_zero_takes_the_jump_on_zero() {
    let mut s = Stack::new();
    let mut mem: Vec<Data> = Vec::new();
    assert_eq!(run_program(b"#0'#9'z#5'", &mut s, &mut mem), Ok(()));
    assert_eq!(s.pop(), Ok(Data::Int(9)));
    assert_eq!(s.len(), 0);
}

#[test]
fn jump_if_zero_falls_through_on_nonzero() {
    let mut s = Stack::new();
    let mut mem: Vec<Data> = Vec::new();
    assert_eq!(run_program(b"#1'#9'z#5'", &mut s, &mut mem), Ok(()));
    assert_eq!(s.pop(), Ok(Data::Int(5)));
    assert_eq!(s.len(), 0);
}

#[test]
fn jump_if_nonzero_takes_the_jump_on_nonzero_float() {
    let mut s = Stack::new();
    s.push(Data::Float((0.5f64).to_bits()));
    let mut mem: Vec<Data> = Vec::new();
    // The address comes from the literal; the condition is pre-seeded.
    assert_eq!(run_program(b"#8'y#5';#7'", &mut s, &mut mem), Ok(()));
    assert_eq!(s.pop(), Ok(Data::Int(7)));
    assert_eq!(s.len(), 0);
}

#[test]
fn jump_if_nonzero_falls_through_on_zero_float() {
    let mut s = Stack::new();
    s.push(Data::Float((-0.0f64).to_bits()));
    let mut mem: Vec<Data> = Vec::new();
    assert_eq!(run_program(b"#8'y#5';#7'", &mut s, &mut mem), Ok(()));
    assert_eq!(s.pop(), Ok(Data::Int(5)));
    assert_eq!(s.len(), 0);
}

#[test]
fn arithmetic_opcodes_dispatch_to_the_stack() {
    let mut s = Stack::new();
    let mut mem: Vec<Data> = Vec::new();
    assert_eq!(run_program(b"#6'#7'*#2'/#10'+#3'-#4'%", &mut s, &mut mem), Ok(()));
    // 6 * 7 = 42, 42 / 2 = 21, 21 + 10 = 31, 31 - 3 = 28, 28 % 4 = 0.
    assert_eq!(s.pop(), Ok(Data::Int(0)));
    assert_eq!(s.len(), 0);
}

#[test]
fn division_by_zero_opcode_reports_its_position() {
    let mut s = Stack::new();
    let mut mem: Vec<Data> = Vec::new();
    assert_eq!(run_program(b"#5'#0'/", &mut s, &mut mem), Err((7, Error::DivisionByZero)));
}

#[test]
fn modulus_by_zero_opcode_reports_the_same_kind() {
    let mut s = Stack::new();
    let mut mem: Vec<Data> = Vec::new();
    assert_eq!(run_program(b"#5'#0'%", &mut s, &mut mem), Err((7, Error::DivisionByZero)));
}

#[test]
fn add_on_empty_stack_underflows_at_position_one() {
    let mut s = Stack::new();
    let mut mem: Vec<Data> = Vec::new();
    assert_eq!(run_program(b"+", &mut s, &mut mem), Err((1, Error::StackUnderflow)));
}

#[test]
fn dup_swap_over_drop_opcodes() {
    let mut s = Stack::new();
    let mut mem: Vec<Data> = Vec::new();
    assert_eq!(run_program(b"#1'#2'dsvr", &mut s, &mut mem), Ok(()));
    // 1 2 -> dup: 1 2 2 -> swap: 1 2 2 -> over: 1 2 2 2 -> drop: 1 2 2.
    assert_eq!(s.pop(), Ok(Data::Int(2)));
    assert_eq!(s.pop(), Ok(Data::Int(2)));
    assert_eq!(s.pop(), Ok(Data::Int(1)));
    assert_eq!(s.len(), 0);
}

#[test]
fn debug_opcode_pops_one_value() {
    let mut s = Stack::new();
    let mut mem: Vec<Data> = Vec::new();
    assert_eq!(run_program(b"#5'p", &mut s, &mut mem), Ok(()));
    assert_eq!(s.len(), 0);
}

#[test]
fn starting_program_counter_is_respected() {
    let mut s = Stack::new();
    let mut mem: Vec<Data> = Vec::new();
    let code: Vec<u8> = b"#9'#5'".to_vec();
    assert_eq!(run(&code, &mut s, 3, NullExtender {}, &mut mem), Ok(()));
    assert_eq!(s.pop(), Ok(Data::Int(5)));
    assert_eq!(s.len(), 0);
}

#[test]
fn step_limit_reports_a_looping_program() {
    let mut s = Stack::new();
    let mut mem: Vec<Data> = Vec::new();
    let code: Vec<u8> = b"#0'b".to_vec();
    let r = run_with_limit(&code, &mut s, 0, NullExtender {}, &mut mem, 100);
    assert!(matches!(r, Err((_, Error::StepLimit))));
}

#[test]
fn step_limit_zero_stops_before_the_first_opcode() {
    let mut s = Stack::new();
    let mut mem: Vec<Data> = Vec::new();
    let code: Vec<u8> = b"#1'".to_vec();
    let r = run_with_limit(&code, &mut s, 0, NullExtender {}, &mut mem, 0);
    assert_eq!(r, Err((0, Error::StepLimit)));
    assert_eq!(s.len(), 0);
}

struct PushingExtender {}

impl AtomExtender for PushingExtender {
    fn atom(&mut self, instruction: u8, stack: &mut Stack) -> Result<(), Error> {
        if instruction == b'Q' {
            stack.push(Data::Int(99));
            Ok(())
        } else {
            Err(Error::InvalidInstruction)
        }
    }
}

#[test]
fn extension_point_handles_unknown_opcodes() {
    let mut s = Stack::new();
    let mut mem: Vec<Data> = Vec::new();
    let code: Vec<u8> = b"Q#1'+".to_vec();
    assert_eq!(run(&code, &mut s, 0, PushingExtender {}, &mut mem), Ok(()));
    assert_eq!(s.pop(), Ok(Data::Int(100)));
}

#[test]
fn extension_point_failures_are_wrapped_like_built_ins() {
    let mut s = Stack::new();
    let mut mem: Vec<Data> = Vec::new();
    let code: Vec<u8> = b"#1'X".to_vec();
    assert_eq!(
        run(&code, &mut s, 0, PushingExtender {}, &mut mem),
        Err((4, Error::InvalidInstruction)),
    );
}

#[test]
fn null_extender_rejects_every_opcode_and_leaves_the_stack() {
    let mut s = Stack::new();
    s.push(Data::Int(3));
    let mut e = NullExtender {};
    assert_eq!(e.atom(65, &mut s), Err(Error::InvalidInstruction));
    assert_eq!(e.atom(0, &mut s), Err(Error::InvalidInstruction));
    assert_eq!(s.len(), 1);
    assert_eq!(s.pop(), Ok(Data::Int(3)));
}

#[test]
fn memory_is_untouched_without_the_write_opcode() {
    let mut s = Stack::new();
    let mut mem: Vec<Data> = vec![Data::Int(5), Data::Int(6)];
    let r = run_program(b"#1'A", &mut s, &mut mem);
    assert_eq!(r, Err((4, Error::InvalidInstruction)));
    assert_eq!(mem[0], Data::Int(5));
    assert_eq!(mem[1], Data::Int(6));
}
