use ledstrip_vm::ledstrip_controller::{create_message, LedStripController, ProgramStripCommand,
    StateStripCommand};
use ledstrip_vm::runtime::Runtime;

#[test]
fn a_message_is_payload_terminator_and_checksum() {
    // 0x31 + 10 + 20 + 30 + 0xF0 + 0x0F = 0x16C; its low byte is 0x6C.
    let message = create_message(&[0x31, 10, 20, 30, 0xF0]);
    assert_eq!(message, vec![0x31, 10, 20, 30, 0xF0, 0x0F, 0x6C]);
}

#[test]
fn the_checksum_keeps_only_the_low_byte_of_the_sum() {
    let message = create_message(&[0xFF, 0xFF, 0xFF]);
    // 3 * 0xFF + 0x0F = 0x30C; its low byte is 0x0C.
    assert_eq!(message, vec![0xFF, 0xFF, 0xFF, 0x0F, 0x0C]);
}

#[test]
fn an_empty_payload_still_gets_terminator_and_checksum() {
    assert_eq!(create_message(&[]), vec![0x0F, 0x0F]);
}

#[test]
fn state_commands_frame_on_and_off() {
    let mut controller = LedStripController::new();
    controller.set_state(StateStripCommand::On);
    controller.set_state(StateStripCommand::Off);
    assert_eq!(
        controller.sent,
        vec![vec![0x71, 0x23, 0x0F, 0xA3], vec![0x71, 0x24, 0x0F, 0xA4]]
    );
}

#[test]
fn color_commands_carry_the_three_channels() {
    let mut controller = LedStripController::new();
    controller.send_rgb_color(10, 20, 30);
    assert_eq!(controller.sent, vec![vec![0x31, 10, 20, 30, 0xF0, 0x0F, 0x6C]]);
    assert_eq!((controller.r, controller.g, controller.b), (10, 20, 30));
}

#[test]
fn program_commands_carry_code_and_speed() {
    let mut controller = LedStripController::new();
    controller.send_command(ProgramStripCommand::SevenCrossFade, 0x06);
    // 0x61 + 0x25 + 0x06 + 0x0F = 0x9B.
    assert_eq!(controller.sent, vec![vec![0x61, 0x25, 0x06, 0x0F, 0x9B]]);
}

#[test]
fn end_to_end_color_program_sends_one_color_command_and_exits_with_red() {
    // set 10 red, set 20 green, set 30 blue, send, exit with red channel.
    let mut rt = Runtime::new();
    rt.parse_bytecode(vec![
        0x02, 10, 0x02, // set 10 rcr
        0x02, 20, 0x03, // set 20 rcg
        0x02, 30, 0x04, // set 30 rcb
        0xF2, // send
        0x01, 0x02, // exit rcr
    ])
    .unwrap();
    assert_eq!(rt.run(), Ok(10));
    assert_eq!(
        rt.strip_controller.sent,
        vec![
            vec![0x31, 10, 20, 30, 0xF0, 0x0F, 0x6C],
            vec![0x71, 0x24, 0x0F, 0xA4], // the final off command
        ]
    );
}

#[test]
fn channel_writes_alone_send_nothing() {
    let mut rt = Runtime::new();
    rt.parse_bytecode(vec![0x02, 10, 0x02, 0x02, 20, 0x03, 0x02, 30, 0x04]).unwrap();
    assert_eq!(rt.run(), Ok(0));
    // Only the final off command: a channel value reaches hardware only
    // through an explicit send.
    assert_eq!(rt.strip_controller.sent, vec![vec![0x71, 0x24, 0x0F, 0xA4]]);
}

#[test]
fn send_uses_the_current_channel_registers() {
    let mut rt = Runtime::new();
    rt.parse_bytecode(vec![
        0x02, 1, 0x02, // set 1 rcr
        0xF2, // send
        0x02, 2, 0x02, // set 2 rcr
        0xF2, // send
    ])
    .unwrap();
    assert_eq!(rt.run(), Ok(0));
    assert_eq!(rt.strip_controller.sent.len(), 3);
    assert_eq!(rt.strip_controller.sent[0][1], 1);
    assert_eq!(rt.strip_controller.sent[1][1], 2);
}
