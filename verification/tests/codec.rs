use ledstrip_vm::runtime::Runtime;
use ledstrip_vm::tokens::DecodeError;
use ledstrip_vm::tokens::{AddToken, ClearToken, CmdToken, CopyToken, DebugToken, DivToken,
    ExitToken, GotoToken, JeToken, JgToken, JlToken, LabelToken, LoadToken, LshToken, ModToken,
    MulToken, NopToken, Operation, PauseToken, RshToken, SendToken, SetToken, SubToken,
    WriteToken};

fn all_operations() -> Vec<Operation> {
    vec![
        Operation::Nop(NopToken),
        Operation::Exit(ExitToken { register: 0x05 }),
        Operation::SetImm(SetToken { value: 42, register: 0x02 }),
        Operation::Copy(CopyToken { register_1: 0x05, register_2: 0x08 }),
        Operation::Load(LoadToken),
        Operation::Clear(ClearToken { register: 0x07 }),
        Operation::Write(WriteToken),
        Operation::Label(LabelToken { value: 0xDEADBEEF }),
        Operation::Goto(GotoToken),
        Operation::Debug(DebugToken),
        Operation::Add(AddToken),
        Operation::Sub(SubToken),
        Operation::Mul(MulToken),
        Operation::Div(DivToken),
        Operation::Mod(ModToken),
        Operation::Lsh(LshToken),
        Operation::Rsh(RshToken),
        Operation::Jg(JgToken),
        Operation::Jl(JlToken),
        Operation::Je(JeToken),
        Operation::Pause(PauseToken),
        Operation::Cmd(CmdToken),
        Operation::Send(SendToken),
    ]
}

#[test]
fn encodings_are_exact() {
    assert_eq!(NopToken.to_bytecode(), vec![0x00]);
    assert_eq!(ExitToken { register: 0x05 }.to_bytecode(), vec![0x01, 0x05]);
    assert_eq!(SetToken { value: 42, register: 0x02 }.to_bytecode(), vec![0x02, 42, 0x02]);
    assert_eq!(
        CopyToken { register_1: 0x05, register_2: 0x08 }.to_bytecode(),
        vec![0x03, 0x05, 0x08]
    );
    assert_eq!(LoadToken.to_bytecode(), vec![0x04]);
    assert_eq!(ClearToken { register: 0x07 }.to_bytecode(), vec![0x05, 0x07]);
    assert_eq!(WriteToken.to_bytecode(), vec![0x06]);
    assert_eq!(
        LabelToken { value: 0xDEADBEEF }.to_bytecode(),
        vec![0x07, 0xDE, 0xAD, 0xBE, 0xEF]
    );
    assert_eq!(GotoToken.to_bytecode(), vec![0x08]);
    assert_eq!(DebugToken.to_bytecode(), vec![0x09]);
    assert_eq!(AddToken.to_bytecode(), vec![0x10]);
    assert_eq!(SubToken.to_bytecode(), vec![0x11]);
    assert_eq!(MulToken.to_bytecode(), vec![0x12]);
    assert_eq!(DivToken.to_bytecode(), vec![0x13]);
    assert_eq!(ModToken.to_bytecode(), vec![0x14]);
    assert_eq!(LshToken.to_bytecode(), vec![0x15]);
    assert_eq!(RshToken.to_bytecode(), vec![0x16]);
    assert_eq!(JgToken.to_bytecode(), vec![0x20]);
    assert_eq!(JlToken.to_bytecode(), vec![0x21]);
    assert_eq!(JeToken.to_bytecode(), vec![0x22]);
    assert_eq!(PauseToken.to_bytecode(), vec![0xF0]);
    assert_eq!(CmdToken.to_bytecode(), vec![0xF1]);
    assert_eq!(SendToken.to_bytecode(), vec![0xF2]);
}

#[test]
fn every_operation_round_trips_through_bytecode() {
    for op in all_operations() {
        let bytes = op.to_bytecode();
        let mut rt = Runtime::new();
        assert_eq!(rt.parse_bytecode(bytes.clone()), Ok(()));
        assert_eq!(rt.text.len(), 1, "one instruction expected for {:?}", op);
        assert_eq!(rt.text[0], op);
        assert_eq!(rt.text[0].to_bytecode(), bytes);
    }
}

#[test]
fn decoding_a_stream_keeps_order_and_positions() {
    let mut bytes = Vec::new();
    bytes.extend(vec![0x02, 10, 0x02]); // set 10 into red channel
    bytes.extend(vec![0x07, 0, 0, 0, 1]); // label 1
    bytes.extend(vec![0x10]); // add
    bytes.extend(vec![0x01, 0x05]); // exit with data register
    let mut rt = Runtime::new();
    assert_eq!(rt.parse_bytecode(bytes), Ok(()));
    assert_eq!(rt.text.len(), 4);
    assert_eq!(rt.text[0], Operation::SetImm(SetToken { value: 10, register: 0x02 }));
    assert_eq!(rt.text[1], Operation::Label(LabelToken { value: 1 }));
    assert_eq!(rt.text[2], Operation::Add(AddToken));
    assert_eq!(rt.text[3], Operation::Exit(ExitToken { register: 0x05 }));
    assert_eq!(rt.labels.get(&1), Some(&1usize));
}

#[test]
fn later_label_declaration_wins() {
    let mut bytes = Vec::new();
    bytes.extend(vec![0x07, 0, 0, 0, 7]); // label 7 at position 0
    bytes.extend(vec![0x00]); // nop
    bytes.extend(vec![0x07, 0, 0, 0, 7]); // label 7 again at position 2
    let mut rt = Runtime::new();
    assert_eq!(rt.parse_bytecode(bytes), Ok(()));
    assert_eq!(rt.labels.get(&7), Some(&2usize));
}

#[test]
fn unknown_opcode_is_a_decode_error() {
    let mut rt = Runtime::new();
    assert_eq!(rt.parse_bytecode(vec![0xAB]), Err(DecodeError::UnknownOpcode(0xAB)));
    assert_eq!(rt.text.len(), 0);
}

#[test]
fn truncated_operands_are_a_decode_error() {
    let mut rt = Runtime::new();
    assert_eq!(rt.parse_bytecode(vec![0x02, 1]), Err(DecodeError::UnexpectedEnd));
    let mut rt2 = Runtime::new();
    assert_eq!(rt2.parse_bytecode(vec![0x07, 0, 0]), Err(DecodeError::UnexpectedEnd));
}

#[test]
fn from_bytecode_reads_operands() {
    let exit = ExitToken::from_bytecode(&[0x01, 0x09]);
    assert_eq!(exit.register, 0x09);
    let set = SetToken::from_bytecode(&[0x02, 99, 0x03]);
    assert_eq!((set.value, set.register), (99, 0x03));
    let copy = CopyToken::from_bytecode(&[0x03, 0x01, 0x04]);
    assert_eq!((copy.register_1, copy.register_2), (0x01, 0x04));
    let clear = ClearToken::from_bytecode(&[0x05, 0x06]);
    assert_eq!(clear.register, 0x06);
    let label = LabelToken::from_bytecode(&[0x07, 0x12, 0x34, 0x56, 0x78]);
    assert_eq!(label.value, 0x12345678);
}
