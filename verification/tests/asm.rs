use ledstrip_vm::assembler::{get_token, parse_value};
use ledstrip_vm::registers::get_register_by_name;
use ledstrip_vm::tokens::{AddToken, ClearToken, CmdToken, CopyToken, DebugToken, DivToken,
    ExitToken, GotoToken, JeToken, JgToken, JlToken, LabelToken, LoadToken, LshToken, ModToken,
    MulToken, Operation, PauseToken, RshToken, SendToken, SetToken, SubToken, WriteToken};

#[test]
fn register_names_map_to_their_codes() {
    assert_eq!(get_register_by_name("rcs"), Some(0x01));
    assert_eq!(get_register_by_name("rcr"), Some(0x02));
    assert_eq!(get_register_by_name("rcg"), Some(0x03));
    assert_eq!(get_register_by_name("rcb"), Some(0x04));
    assert_eq!(get_register_by_name("rgd"), Some(0x05));
    assert_eq!(get_register_by_name("rgp"), Some(0x06));
    assert_eq!(get_register_by_name("rgi"), Some(0x07));
    assert_eq!(get_register_by_name("rgo"), Some(0x08));
    assert_eq!(get_register_by_name("rgl"), Some(0x09));
    assert_eq!(get_register_by_name("rgx"), None);
    assert_eq!(get_register_by_name("r"), None);
    assert_eq!(get_register_by_name(""), None);
}

#[test]
fn decimal_constants_parse_exactly() {
    assert_eq!(parse_value("0"), Some(0));
    assert_eq!(parse_value("123"), Some(123));
    assert_eq!(parse_value("4294967295"), Some(u32::MAX));
    assert_eq!(parse_value("4294967296"), None);
    assert_eq!(parse_value(""), None);
    assert_eq!(parse_value("12a"), None);
    assert_eq!(parse_value("-1"), None);
}

#[test]
fn hex_constants_parse_exactly() {
    assert_eq!(parse_value("0x0"), Some(0));
    assert_eq!(parse_value("0xff"), Some(255));
    assert_eq!(parse_value("0xFF"), Some(255));
    assert_eq!(parse_value("0xDEADBEEF"), Some(0xDEADBEEF));
    assert_eq!(parse_value("0x"), None);
    assert_eq!(parse_value("0xg"), None);
}

#[test]
fn hex_values_keep_their_low_32_bits() {
    assert_eq!(parse_value("0x1FFFFFFFF"), Some(0xFFFFFFFF));
    assert_eq!(parse_value("0x100000001"), Some(1));
}

#[test]
fn hex_values_past_the_signed_64_bit_range_do_not_parse() {
    assert_eq!(parse_value("0x7FFFFFFFFFFFFFFF"), Some(0xFFFFFFFF));
    assert_eq!(parse_value("0x8000000000000000"), None);
    assert_eq!(parse_value("0xFFFFFFFFFFFFFFFF"), None);
}

#[test]
fn repeated_hex_prefixes_are_stripped() {
    assert_eq!(parse_value("0x0xff"), Some(255));
}

#[test]
fn each_mnemonic_line_yields_its_operation() {
    assert_eq!(
        get_token("exit rgd"),
        Some(Operation::Exit(ExitToken { register: 0x05 }))
    );
    assert_eq!(
        get_token("set 10 rcr"),
        Some(Operation::SetImm(SetToken { value: 10, register: 0x02 }))
    );
    assert_eq!(
        get_token("copy rgd rgo"),
        Some(Operation::Copy(CopyToken { register_1: 0x05, register_2: 0x08 }))
    );
    assert_eq!(get_token("load"), Some(Operation::Load(LoadToken)));
    assert_eq!(
        get_token("clear rgi"),
        Some(Operation::Clear(ClearToken { register: 0x07 }))
    );
    assert_eq!(get_token("write"), Some(Operation::Write(WriteToken)));
    assert_eq!(get_token("label 7"), Some(Operation::Label(LabelToken { value: 7 })));
    assert_eq!(get_token("goto"), Some(Operation::Goto(GotoToken)));
    assert_eq!(get_token("debug"), Some(Operation::Debug(DebugToken)));
    assert_eq!(get_token("add"), Some(Operation::Add(AddToken)));
    assert_eq!(get_token("sub"), Some(Operation::Sub(SubToken)));
    assert_eq!(get_token("mul"), Some(Operation::Mul(MulToken)));
    assert_eq!(get_token("div"), Some(Operation::Div(DivToken)));
    assert_eq!(get_token("mod"), Some(Operation::Mod(ModToken)));
    assert_eq!(get_token("lsh"), Some(Operation::Lsh(LshToken)));
    assert_eq!(get_token("rsh"), Some(Operation::Rsh(RshToken)));
    assert_eq!(get_token("jg"), Some(Operation::Jg(JgToken)));
    assert_eq!(get_token("jl"), Some(Operation::Jl(JlToken)));
    assert_eq!(get_token("je"), Some(Operation::Je(JeToken)));
    assert_eq!(get_token("pause"), Some(Operation::Pause(PauseToken)));
    assert_eq!(get_token("cmd"), Some(Operation::Cmd(CmdToken)));
    assert_eq!(get_token("send"), Some(Operation::Send(SendToken)));
}

#[test]
fn set_values_are_truncated_to_one_byte() {
    assert_eq!(
        get_token("set 300 rcr"),
        Some(Operation::SetImm(SetToken { value: 44, register: 0x02 }))
    );
    assert_eq!(
        get_token("set 0xff rgd"),
        Some(Operation::SetImm(SetToken { value: 255, register: 0x05 }))
    );
}

#[test]
fn label_values_keep_all_four_bytes() {
    assert_eq!(
        get_token("label 0xDEADBEEF"),
        Some(Operation::Label(LabelToken { value: 0xDEADBEEF }))
    );
}

#[test]
fn malformed_lines_yield_no_operation() {
    assert_eq!(get_token(""), None);
    assert_eq!(get_token("   "), None);
    assert_eq!(get_token("bogus"), None);
    assert_eq!(get_token("# a comment"), None);
    assert_eq!(get_token("set"), None);
    assert_eq!(get_token("set 10"), None);
    assert_eq!(get_token("set xyz rcr"), None);
    assert_eq!(get_token("set 10 nowhere"), None);
    assert_eq!(get_token("copy rgd"), None);
    assert_eq!(get_token("exit"), None);
    assert_eq!(get_token("label"), None);
    assert_eq!(get_token("label sixteen"), None);
}

#[test]
fn blanks_split_words_and_trailing_words_are_ignored() {
    assert_eq!(
        get_token("  set\t10   rcr  trailing words"),
        Some(Operation::SetImm(SetToken { value: 10, register: 0x02 }))
    );
    assert_eq!(get_token("add anything"), Some(Operation::Add(AddToken)));
}

#[test]
fn assembled_lines_encode_to_the_wire_format() {
    let program = ["set 10 rcr", "set 20 rcg", "set 30 rcb", "send", "exit rcr"];
    let mut bytes = Vec::new();
    for line in program {
        bytes.extend(get_token(line).expect("line must assemble").to_bytecode());
    }
    assert_eq!(
        bytes,
        vec![0x02, 10, 0x02, 0x02, 20, 0x03, 0x02, 30, 0x04, 0xF2, 0x01, 0x02]
    );
}
