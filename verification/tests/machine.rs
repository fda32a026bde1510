use ledstrip_vm::runtime::{Runtime, RuntimeError, RuntimeErrorKind, StepOutcome};

const OFF_FRAME: [u8; 4] = [0x71, 0x24, 0x0F, 0xA4];
const ON_FRAME: [u8; 4] = [0x71, 0x23, 0x0F, 0xA3];

fn run_program(bytes: Vec<u8>) -> (Runtime, Result<u8, RuntimeError>) {
    let mut rt = Runtime::new();
    rt.parse_bytecode(bytes).expect("program must decode");
    let result = rt.run();
    (rt, result)
}

#[test]
fn empty_program_exits_with_zero_and_sends_off() {
    let (rt, result) = run_program(vec![]);
    assert_eq!(result, Ok(0));
    assert_eq!(rt.strip_controller.sent, vec![OFF_FRAME.to_vec()]);
}

#[test]
fn copy_same_width_preserves_the_value() {
    // set 123 into data, copy data -> input, exit with input
    let (_, result) = run_program(vec![0x02, 123, 0x05, 0x03, 0x05, 0x07, 0x01, 0x07]);
    assert_eq!(result, Ok(123));
}

#[test]
fn copy_narrow_to_wide_zero_extends() {
    // set 200 into red channel, copy red -> data, exit with data
    let (_, result) = run_program(vec![0x02, 200, 0x02, 0x03, 0x02, 0x05, 0x01, 0x02]);
    assert_eq!(result, Ok(200));
}

#[test]
fn copy_wide_to_narrow_truncates_to_low_byte() {
    // data = 200, input = 2, mul -> output = 400, copy output -> red channel
    let mut rt = Runtime::new();
    rt.parse_bytecode(vec![
        0x02, 200, 0x05, // set 200 rgd
        0x02, 2, 0x07, // set 2 rgi
        0x12, // mul
        0x03, 0x08, 0x02, // copy rgo -> rcr
    ])
    .unwrap();
    assert_eq!(rt.run(), Ok(0));
    assert_eq!(rt.rgo.value, 400);
    assert_eq!(rt.rcr.value, (400 % 256) as u8);
}

#[test]
fn load_from_unwritten_address_yields_zero() {
    // pointer = 9, data = 5, load (overwrites data with memory[9] = 0), exit with data
    let (_, result) = run_program(vec![0x02, 9, 0x06, 0x02, 5, 0x05, 0x04, 0x01, 0x05]);
    assert_eq!(result, Ok(0));
}

#[test]
fn store_then_load_reads_back_the_stored_value() {
    // pointer = 9, data = 42, write, clear data, load, exit with data
    let (rt, result) = run_program(vec![
        0x02, 9, 0x06, // set 9 rgp
        0x02, 42, 0x05, // set 42 rgd
        0x06, // write
        0x05, 0x05, // clear rgd
        0x04, // load
        0x01, 0x05, // exit rgd
    ]);
    assert_eq!(result, Ok(42));
    assert_eq!(rt.memory.get(&9), Some(&42));
}

#[test]
fn store_overwrites_unconditionally() {
    let (rt, result) = run_program(vec![
        0x02, 9, 0x06, // set 9 rgp
        0x02, 1, 0x05, // set 1 rgd
        0x06, // write
        0x02, 2, 0x05, // set 2 rgd
        0x06, // write
    ]);
    assert_eq!(result, Ok(0));
    assert_eq!(rt.memory.get(&9), Some(&2));
}

#[test]
fn greater_than_jump_fires_and_lands_after_the_label() {
    // data = 5, input = 3: the jump skips the write to the red channel.
    let (rt, result) = run_program(vec![
        0x02, 5, 0x05, // set 5 rgd
        0x02, 3, 0x07, // set 3 rgi
        0x02, 1, 0x09, // set 1 rgl
        0x20, // jg
        0x02, 99, 0x02, // set 99 rcr (skipped when the jump fires)
        0x07, 0, 0, 0, 1, // label 1
        0x01, 0x02, // exit rcr
    ]);
    assert_eq!(result, Ok(0));
    assert_eq!(rt.rcr.value, 0);
}

#[test]
fn greater_than_jump_does_not_fire_on_smaller_data() {
    // data = 3, input = 5: execution falls through to the channel write.
    let (rt, result) = run_program(vec![
        0x02, 3, 0x05, // set 3 rgd
        0x02, 5, 0x07, // set 5 rgi
        0x02, 1, 0x09, // set 1 rgl
        0x20, // jg
        0x02, 99, 0x02, // set 99 rcr
        0x07, 0, 0, 0, 1, // label 1
        0x01, 0x02, // exit rcr
    ]);
    assert_eq!(result, Ok(99));
    assert_eq!(rt.rcr.value, 99);
}

#[test]
fn backward_jump_loops_until_the_condition_flips() {
    // Counts data down from 3 by repeated subtraction: label 1; data - input
    // -> output; copy output -> data; jg back to the label while data > input.
    let (rt, result) = run_program(vec![
        0x02, 3, 0x05, // set 3 rgd
        0x02, 1, 0x07, // set 1 rgi
        0x02, 1, 0x09, // set 1 rgl
        0x07, 0, 0, 0, 1, // label 1
        0x11, // sub: rgo = rgd - rgi
        0x03, 0x08, 0x05, // copy rgo -> rgd
        0x20, // jg: back while rgd > rgi
        0x01, 0x05, // exit rgd
    ]);
    assert_eq!(result, Ok(1));
    assert_eq!(rt.rgd.value, 1);
}

#[test]
fn divide_by_zero_is_fatal_and_returns_no_value() {
    let (rt, result) = run_program(vec![0x02, 4, 0x05, 0x13]); // set 4 rgd, div
    assert_eq!(result, Err(RuntimeError { pc: 1, kind: RuntimeErrorKind::DivideByZero }));
    assert_eq!(rt.rgo.value, 0, "no quotient may be written");
    assert!(rt.exit.is_none());
}

#[test]
fn modulo_by_zero_is_fatal() {
    let (_, result) = run_program(vec![0x14]);
    assert_eq!(result, Err(RuntimeError { pc: 0, kind: RuntimeErrorKind::DivideByZero }));
}

#[test]
fn exit_with_data_register_seven_yields_seven_and_one_off_command() {
    let (rt, result) = run_program(vec![0x02, 7, 0x05, 0x01, 0x05]); // set 7 rgd, exit rgd
    assert_eq!(result, Ok(7));
    assert_eq!(rt.exit, Some(7));
    let off_count = rt.strip_controller.sent.iter().filter(|f| **f == OFF_FRAME.to_vec()).count();
    assert_eq!(off_count, 1);
    assert_eq!(rt.strip_controller.sent.last(), Some(&OFF_FRAME.to_vec()));
}

#[test]
fn exit_sends_exactly_one_off_command_even_after_prior_state_commands() {
    // set 0 rcs turns the strip on (a zero byte means on), then exit.
    let (rt, result) = run_program(vec![0x02, 0, 0x01, 0x02, 7, 0x05, 0x01, 0x05]);
    assert_eq!(result, Ok(7));
    assert_eq!(rt.strip_controller.sent, vec![ON_FRAME.to_vec(), OFF_FRAME.to_vec()]);
}

#[test]
fn arithmetic_operations_compute_exact_values() {
    let cases: Vec<(u8, u8, u8, u32)> = vec![
        (0x10, 200, 14, 214),  // add
        (0x11, 200, 14, 186),  // sub
        (0x12, 20, 11, 220),   // mul
        (0x13, 200, 14, 14),   // div
        (0x14, 200, 14, 4),    // mod
        (0x15, 3, 4, 48),      // lsh
        (0x16, 200, 3, 25),    // rsh
    ];
    for (opcode, d, i, expected) in cases {
        let (rt, result) = run_program(vec![0x02, d, 0x05, 0x02, i, 0x07, opcode]);
        assert_eq!(result, Ok(0), "opcode {:#x}", opcode);
        assert_eq!(rt.rgo.value, expected, "opcode {:#x}", opcode);
    }
}

#[test]
fn subtraction_below_zero_is_fatal() {
    let (_, result) = run_program(vec![0x02, 1, 0x07, 0x11]); // input = 1, sub on data = 0
    assert_eq!(result, Err(RuntimeError { pc: 1, kind: RuntimeErrorKind::ArithmeticUnderflow }));
}

#[test]
fn addition_past_the_32_bit_range_is_fatal() {
    // data = 1 << 31 twice, added together overflows.
    let (_, result) = run_program(vec![
        0x02, 1, 0x05, // set 1 rgd
        0x02, 31, 0x07, // set 31 rgi
        0x15, // lsh: rgo = 1 << 31
        0x03, 0x08, 0x05, // copy rgo -> rgd
        0x03, 0x08, 0x07, // copy rgo -> rgi
        0x10, // add
    ]);
    assert_eq!(result, Err(RuntimeError { pc: 5, kind: RuntimeErrorKind::ArithmeticOverflow }));
}

#[test]
fn shifting_by_32_or_more_is_fatal() {
    let (_, result) = run_program(vec![0x02, 32, 0x07, 0x15]);
    assert_eq!(result, Err(RuntimeError { pc: 1, kind: RuntimeErrorKind::ArithmeticOverflow }));
}

#[test]
fn unknown_register_in_exit_is_fatal() {
    let (_, result) = run_program(vec![0x01, 0x77]);
    assert_eq!(
        result,
        Err(RuntimeError { pc: 0, kind: RuntimeErrorKind::UnknownRegister(0x77) })
    );
}

#[test]
fn unknown_register_in_set_is_fatal() {
    let (_, result) = run_program(vec![0x02, 1, 0x00]);
    assert_eq!(
        result,
        Err(RuntimeError { pc: 0, kind: RuntimeErrorKind::UnknownRegister(0x00) })
    );
}

#[test]
fn jump_to_an_undeclared_label_is_fatal() {
    let (_, result) = run_program(vec![0x02, 9, 0x09, 0x08]); // set 9 rgl, goto
    assert_eq!(result, Err(RuntimeError { pc: 1, kind: RuntimeErrorKind::UnknownLabel(9) }));
}

#[test]
fn cmd_operation_is_fatal() {
    let (_, result) = run_program(vec![0xF1]);
    assert_eq!(
        result,
        Err(RuntimeError { pc: 0, kind: RuntimeErrorKind::UnsupportedOperation })
    );
}

#[test]
fn stepping_reports_pause_and_debug_to_the_host() {
    let mut rt = Runtime::new();
    rt.parse_bytecode(vec![0x02, 50, 0x05, 0xF0, 0x09]).unwrap(); // set 50 rgd, pause, debug
    assert_eq!(rt.step(), Ok(StepOutcome::Continue));
    assert_eq!(rt.step(), Ok(StepOutcome::Pause(50)));
    assert_eq!(rt.step(), Ok(StepOutcome::Debug));
    assert_eq!(rt.step(), Ok(StepOutcome::Exit(0)));
    assert!(rt.done);
    assert_eq!(rt.strip_controller.sent, vec![OFF_FRAME.to_vec()]);
}

#[test]
fn setting_the_state_register_sends_state_commands() {
    // A zero byte switches the strip on; anything else switches it off.
    let (rt, result) = run_program(vec![0x02, 0, 0x01, 0x02, 1, 0x01]);
    assert_eq!(result, Ok(0));
    assert_eq!(
        rt.strip_controller.sent,
        vec![ON_FRAME.to_vec(), OFF_FRAME.to_vec(), OFF_FRAME.to_vec()]
    );
}

#[test]
fn clearing_the_state_register_switches_the_strip_off() {
    let (rt, result) = run_program(vec![0x05, 0x01]); // clear rcs
    assert_eq!(result, Ok(0));
    assert_eq!(rt.strip_controller.sent, vec![OFF_FRAME.to_vec(), OFF_FRAME.to_vec()]);
    assert!(!rt.rcs.value);
}

#[test]
fn exit_reads_the_boolean_register_as_a_number() {
    // set 0 rcs turns the strip on; exit with rcs reads 1.
    let (_, result) = run_program(vec![0x02, 0, 0x01, 0x01, 0x01]);
    assert_eq!(result, Ok(1));
}

#[test]
fn label_declaration_is_a_no_op_when_executed() {
    let (rt, result) = run_program(vec![0x07, 0, 0, 0, 5, 0x02, 3, 0x05, 0x01, 0x05]);
    assert_eq!(result, Ok(3));
    assert_eq!(rt.labels.get(&5), Some(&0usize));
}

#[test]
fn faulted_machine_is_left_unchanged_at_the_fault() {
    let mut rt = Runtime::new();
    rt.parse_bytecode(vec![0x02, 4, 0x05, 0x13]).unwrap();
    let result = rt.run();
    assert!(result.is_err());
    assert_eq!(rt.current_index, 1, "the counter stays on the faulting operation");
    assert_eq!(rt.rgd.value, 4);
    assert!(!rt.done);
    assert_eq!(rt.strip_controller.sent.len(), 0, "no off command on a fault");
}
