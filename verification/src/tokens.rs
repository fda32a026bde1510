//! The instruction set: one token type per operation, the binary encoding
//! of each token, and the decoding of a flat byte stream.
//!
//! Every instruction starts with a one-byte opcode followed by a fixed
//! number of operand bytes that depends only on the opcode.  The label
//! declaration carries its four-byte label id big-endian; all other
//! operands are single bytes.

use vstd::prelude::*;

verus! {

pub const T_NOP: u8 = 0x00;

pub const T_EXIT: u8 = 0x01;

pub const T_SET: u8 = 0x02;

pub const T_COPY: u8 = 0x03;

pub const T_LOAD: u8 = 0x04;

pub const T_CLEAR: u8 = 0x05;

pub const T_WRITE: u8 = 0x06;

pub const T_LABEL: u8 = 0x07;

pub const T_GOTO: u8 = 0x08;

pub const T_DEBUG: u8 = 0x09;

pub const T_ADD: u8 = 0x10;

pub const T_SUB: u8 = 0x11;

pub const T_MUL: u8 = 0x12;

pub const T_DIV: u8 = 0x13;

pub const T_MOD: u8 = 0x14;

pub const T_LSH: u8 = 0x15;

pub const T_RSH: u8 = 0x16;

pub const T_JG: u8 = 0x20;

pub const T_JL: u8 = 0x21;

pub const T_JE: u8 = 0x22;

pub const T_PAUSE: u8 = 0xF0;

pub const T_CMD: u8 = 0xF1;

pub const T_SEND: u8 = 0xF2;

/// Does nothing.
#[derive(Debug, Clone, Copy, PartialEq, Eq, Structural)]
pub struct NopToken;

/// Ends the run with the value of the addressed register as exit state.
#[derive(Debug, Clone, Copy, PartialEq, Eq, Structural)]
pub struct ExitToken {
    pub register: u8,
}

/// Writes an immediate byte into the addressed register.
#[derive(Debug, Clone, Copy, PartialEq, Eq, Structural)]
pub struct SetToken {
    pub value: u8,
    pub register: u8,
}

/// Copies the first register's value into the second register.
#[derive(Debug, Clone, Copy, PartialEq, Eq, Structural)]
pub struct CopyToken {
    pub register_1: u8,
    pub register_2: u8,
}

/// Reads memory at the pointer register's address into the data register.
#[derive(Debug, Clone, Copy, PartialEq, Eq, Structural)]
pub struct LoadToken;

/// Resets the addressed register to zero (false for the boolean register).
#[derive(Debug, Clone, Copy, PartialEq, Eq, Structural)]
pub struct ClearToken {
    pub register: u8,
}

/// Writes the data register's value to memory at the pointer register's
/// address.
#[derive(Debug, Clone, Copy, PartialEq, Eq, Structural)]
pub struct WriteToken;

/// Declares a jump target; the id is bound to this instruction's position
/// while decoding.
#[derive(Debug, Clone, Copy, PartialEq, Eq, Structural)]
pub struct LabelToken {
    pub value: u32,
}

/// Jumps unconditionally to the label named by the label-target register.
#[derive(Debug, Clone, Copy, PartialEq, Eq, Structural)]
pub struct GotoToken;

/// Asks the host to show the machine state; the machine itself is unchanged.
#[derive(Debug, Clone, Copy, PartialEq, Eq, Structural)]
pub struct DebugToken;

/// output := data + input.
#[derive(Debug, Clone, Copy, PartialEq, Eq, Structural)]
pub struct AddToken;

/// output := data - input.
#[derive(Debug, Clone, Copy, PartialEq, Eq, Structural)]
pub struct SubToken;

/// output := data * input.
#[derive(Debug, Clone, Copy, PartialEq, Eq, Structural)]
pub struct MulToken;

/// output := data / input.
#[derive(Debug, Clone, Copy, PartialEq, Eq, Structural)]
pub struct DivToken;

/// output := data % input.
#[derive(Debug, Clone, Copy, PartialEq, Eq, Structural)]
pub struct ModToken;

/// output := data << input.
#[derive(Debug, Clone, Copy, PartialEq, Eq, Structural)]
pub struct LshToken;

/// output := data >> input.
#[derive(Debug, Clone, Copy, PartialEq, Eq, Structural)]
pub struct RshToken;

/// Jumps to the label-target register's label if data > input.
#[derive(Debug, Clone, Copy, PartialEq, Eq, Structural)]
pub struct JgToken;

/// Jumps to the label-target register's label if data < input.
#[derive(Debug, Clone, Copy, PartialEq, Eq, Structural)]
pub struct JlToken;

/// Jumps to the label-target register's label if data == input.
#[derive(Debug, Clone, Copy, PartialEq, Eq, Structural)]
pub struct JeToken;

/// Suspends the run for as many milliseconds as the data register holds.
#[derive(Debug, Clone, Copy, PartialEq, Eq, Structural)]
pub struct PauseToken;

/// Reserved; executing it is a runtime fault.
#[derive(Debug, Clone, Copy, PartialEq, Eq, Structural)]
pub struct CmdToken;

/// Sends the three channel registers as one color command.
#[derive(Debug, Clone, Copy, PartialEq, Eq, Structural)]
pub struct SendToken;

/// One decoded unit of execution, dispatched exhaustively by the execution
/// loop.
#[derive(Debug, Clone, Copy, PartialEq, Eq, Structural)]
pub enum Operation {
    Nop(NopToken),
    Exit(ExitToken),
    SetImm(SetToken),
    Copy(CopyToken),
    Load(LoadToken),
    Clear(ClearToken),
    Write(WriteToken),
    Label(LabelToken),
    Goto(GotoToken),
    Debug(DebugToken),
    Add(AddToken),
    Sub(SubToken),
    Mul(MulToken),
    Div(DivToken),
    Mod(ModToken),
    Lsh(LshToken),
    Rsh(RshToken),
    Jg(JgToken),
    Jl(JlToken),
    Je(JeToken),
    Pause(PauseToken),
    Cmd(CmdToken),
    Send(SendToken),
}

/// A fault while turning a byte stream into operations.
#[derive(Debug, Clone, Copy, PartialEq, Eq, Structural)]
pub enum DecodeError {
    /// The byte is no opcode.
    UnknownOpcode(u8),
    /// The stream ended inside an instruction's operand bytes.
    UnexpectedEnd,
}

/// How many operand bytes follow the given opcode, or `None` for a byte
/// that is no opcode.
pub open spec fn spec_operand_count(opcode: u8) -> Option<nat> {
    if opcode == T_NOP {
        Some(0)
    } else if opcode == T_EXIT {
        Some(1)
    } else if opcode == T_SET {
        Some(2)
    } else if opcode == T_COPY {
        Some(2)
    } else if opcode == T_LOAD {
        Some(0)
    } else if opcode == T_CLEAR {
        Some(1)
    } else if opcode == T_WRITE {
        Some(0)
    } else if opcode == T_LABEL {
        Some(4)
    } else if opcode == T_GOTO {
        Some(0)
    } else if opcode == T_DEBUG {
        Some(0)
    } else if opcode == T_ADD {
        Some(0)
    } else if opcode == T_SUB {
        Some(0)
    } else if opcode == T_MUL {
        Some(0)
    } else if opcode == T_DIV {
        Some(0)
    } else if opcode == T_MOD {
        Some(0)
    } else if opcode == T_LSH {
        Some(0)
    } else if opcode == T_RSH {
        Some(0)
    } else if opcode == T_JG {
        Some(0)
    } else if opcode == T_JL {
        Some(0)
    } else if opcode == T_JE {
        Some(0)
    } else if opcode == T_PAUSE {
        Some(0)
    } else if opcode == T_CMD {
        Some(0)
    } else if opcode == T_SEND {
        Some(0)
    } else {
        None
    }
}

/// How many operand bytes follow the given opcode, or `None` for a byte
/// that is no opcode.
pub fn operand_count(opcode: u8) -> (r: Option<usize>)
    ensures
        match r {
            Some(n) => n <= 4 && spec_operand_count(opcode) == Some(n as nat),
            None => spec_operand_count(opcode) is None,
        },
{
    if opcode == T_EXIT || opcode == T_CLEAR {
        Some(1)
    } else if opcode == T_SET || opcode == T_COPY {
        Some(2)
    } else if opcode == T_LABEL {
        Some(4)
    } else if opcode == T_NOP || opcode == T_LOAD || opcode == T_WRITE || opcode == T_GOTO
        || opcode == T_DEBUG || opcode == T_ADD || opcode == T_SUB || opcode == T_MUL || opcode
        == T_DIV || opcode == T_MOD || opcode == T_LSH || opcode == T_RSH || opcode == T_JG
        || opcode == T_JL || opcode == T_JE || opcode == T_PAUSE || opcode == T_CMD || opcode
        == T_SEND {
        Some(0)
    } else {
        None
    }
}

/// The number a big-endian four-byte operand denotes.
pub open spec fn spec_u32_be(b0: u8, b1: u8, b2: u8, b3: u8) -> u32 {
    ((b0 as u32) << 24) | ((b1 as u32) << 16) | ((b2 as u32) << 8) | (b3 as u32)
}

/// The four big-endian bytes of a 32-bit value.
pub open spec fn spec_be_bytes(v: u32) -> Seq<u8> {
    seq![
        ((v >> 24) & 0xff) as u8,
        ((v >> 16) & 0xff) as u8,
        ((v >> 8) & 0xff) as u8,
        (v & 0xff) as u8,
    ]
}

/// The operation an opcode and its operand bytes denote.
pub open spec fn spec_make_op(opcode: u8, operands: Seq<u8>) -> Operation
    recommends
        spec_operand_count(opcode) == Some(operands.len()),
{
    if opcode == T_EXIT {
        Operation::Exit(ExitToken { register: operands[0] })
    } else if opcode == T_SET {
        Operation::SetImm(SetToken { value: operands[0], register: operands[1] })
    } else if opcode == T_COPY {
        Operation::Copy(CopyToken { register_1: operands[0], register_2: operands[1] })
    } else if opcode == T_LOAD {
        Operation::Load(LoadToken)
    } else if opcode == T_CLEAR {
        Operation::Clear(ClearToken { register: operands[0] })
    } else if opcode == T_WRITE {
        Operation::Write(WriteToken)
    } else if opcode == T_LABEL {
        Operation::Label(
            LabelToken { value: spec_u32_be(operands[0], operands[1], operands[2], operands[3]) },
        )
    } else if opcode == T_GOTO {
        Operation::Goto(GotoToken)
    } else if opcode == T_DEBUG {
        Operation::Debug(DebugToken)
    } else if opcode == T_ADD {
        Operation::Add(AddToken)
    } else if opcode == T_SUB {
        Operation::Sub(SubToken)
    } else if opcode == T_MUL {
        Operation::Mul(MulToken)
    } else if opcode == T_DIV {
        Operation::Div(DivToken)
    } else if opcode == T_MOD {
        Operation::Mod(ModToken)
    } else if opcode == T_LSH {
        Operation::Lsh(LshToken)
    } else if opcode == T_RSH {
        Operation::Rsh(RshToken)
    } else if opcode == T_JG {
        Operation::Jg(JgToken)
    } else if opcode == T_JL {
        Operation::Jl(JlToken)
    } else if opcode == T_JE {
        Operation::Je(JeToken)
    } else if opcode == T_PAUSE {
        Operation::Pause(PauseToken)
    } else if opcode == T_CMD {
        Operation::Cmd(CmdToken)
    } else if opcode == T_SEND {
        Operation::Send(SendToken)
    } else {
        Operation::Nop(NopToken)
    }
}

/// The byte sequence that encodes an operation.
pub open spec fn spec_encode(op: Operation) -> Seq<u8> {
    match op {
        Operation::Nop(_) => seq![T_NOP],
        Operation::Exit(t) => seq![T_EXIT, t.register],
        Operation::SetImm(t) => seq![T_SET, t.value, t.register],
        Operation::Copy(t) => seq![T_COPY, t.register_1, t.register_2],
        Operation::Load(_) => seq![T_LOAD],
        Operation::Clear(t) => seq![T_CLEAR, t.register],
        Operation::Write(_) => seq![T_WRITE],
        Operation::Label(t) => seq![T_LABEL] + spec_be_bytes(t.value),
        Operation::Goto(_) => seq![T_GOTO],
        Operation::Debug(_) => seq![T_DEBUG],
        Operation::Add(_) => seq![T_ADD],
        Operation::Sub(_) => seq![T_SUB],
        Operation::Mul(_) => seq![T_MUL],
        Operation::Div(_) => seq![T_DIV],
        Operation::Mod(_) => seq![T_MOD],
        Operation::Lsh(_) => seq![T_LSH],
        Operation::Rsh(_) => seq![T_RSH],
        Operation::Jg(_) => seq![T_JG],
        Operation::Jl(_) => seq![T_JL],
        Operation::Je(_) => seq![T_JE],
        Operation::Pause(_) => seq![T_PAUSE],
        Operation::Cmd(_) => seq![T_CMD],
        Operation::Send(_) => seq![T_SEND],
    }
}

/// The operations a byte stream denotes from position `i` on, or the first
/// fault met while reading it.
pub open spec fn spec_decode(bytes: Seq<u8>, i: int) -> Result<Seq<Operation>, DecodeError>
    decreases bytes.len() - i,
{
    if i < 0 || bytes.len() <= i {
        Ok(Seq::empty())
    } else {
        match spec_operand_count(bytes[i]) {
            Option::None => Err(DecodeError::UnknownOpcode(bytes[i])),
            Option::Some(n) => {
                if i + 1 + n > bytes.len() {
                    Err(DecodeError::UnexpectedEnd)
                } else {
                    let op = spec_make_op(bytes[i], bytes.subrange(i + 1, i + 1 + n));
                    match spec_decode(bytes, i + 1 + n) {
                        Ok(rest) => Ok(seq![op] + rest),
                        Err(e) => Err(e),
                    }
                }
            },
        }
    }
}

impl NopToken {
    pub fn to_bytecode(&self) -> (r: Vec<u8>)
        ensures
            r@ == spec_encode(Operation::Nop(*self)),
    {
        let r = vec![T_NOP];
        assert(r@ =~= spec_encode(Operation::Nop(*self)));
        r
    }

    pub fn from_bytecode(_code: &[u8]) -> (r: Self) {
        NopToken
    }
}

impl ExitToken {
    pub fn to_bytecode(&self) -> (r: Vec<u8>)
        ensures
            r@ == spec_encode(Operation::Exit(*self)),
    {
        let r = vec![T_EXIT, self.register];
        assert(r@ =~= spec_encode(Operation::Exit(*self)));
        r
    }

    pub fn from_bytecode(code: &[u8]) -> (r: Self)
        requires
            code@.len() >= 2,
        ensures
            r == (ExitToken { register: code@[1] }),
    {
        ExitToken { register: code[1] }
    }
}

impl SetToken {
    pub fn to_bytecode(&self) -> (r: Vec<u8>)
        ensures
            r@ == spec_encode(Operation::SetImm(*self)),
    {
        let r = vec![T_SET, self.value, self.register];
        assert(r@ =~= spec_encode(Operation::SetImm(*self)));
        r
    }

    pub fn from_bytecode(code: &[u8]) -> (r: Self)
        requires
            code@.len() >= 3,
        ensures
            r == (SetToken { value: code@[1], register: code@[2] }),
    {
        SetToken { value: code[1], register: code[2] }
    }
}

impl CopyToken {
    pub fn to_bytecode(&self) -> (r: Vec<u8>)
        ensures
            r@ == spec_encode(Operation::Copy(*self)),
    {
        let r = vec![T_COPY, self.register_1, self.register_2];
        assert(r@ =~= spec_encode(Operation::Copy(*self)));
        r
    }

    pub fn from_bytecode(code: &[u8]) -> (r: Self)
        requires
            code@.len() >= 3,
        ensures
            r == (CopyToken { register_1: code@[1], register_2: code@[2] }),
    {
        CopyToken { register_1: code[1], register_2: code[2] }
    }
}

impl LoadToken {
    pub fn to_bytecode(&self) -> (r: Vec<u8>)
        ensures
            r@ == spec_encode(Operation::Load(*self)),
    {
        let r = vec![T_LOAD];
        assert(r@ =~= spec_encode(Operation::Load(*self)));
        r
    }

    pub fn from_bytecode(_code: &[u8]) -> (r: Self) {
        LoadToken
    }
}

impl ClearToken {
    pub fn to_bytecode(&self) -> (r: Vec<u8>)
        ensures
            r@ == spec_encode(Operation::Clear(*self)),
    {
        let r = vec![T_CLEAR, self.register];
        assert(r@ =~= spec_encode(Operation::Clear(*self)));
        r
    }

    pub fn from_bytecode(code: &[u8]) -> (r: Self)
        requires
            code@.len() >= 2,
        ensures
            r == (ClearToken { register: code@[1] }),
    {
        ClearToken { register: code[1] }
    }
}

impl WriteToken {
    pub fn to_bytecode(&self) -> (r: Vec<u8>)
        ensures
            r@ == spec_encode(Operation::Write(*self)),
    {
        let r = vec![T_WRITE];
        assert(r@ =~= spec_encode(Operation::Write(*self)));
        r
    }

    pub fn from_bytecode(_code: &[u8]) -> (r: Self) {
        WriteToken
    }
}

impl LabelToken {
    pub fn to_bytecode(&self) -> (r: Vec<u8>)
        ensures
            r@ == spec_encode(Operation::Label(*self)),
    {
        let v = self.value;
        assert((v >> 24) & 0xff < 256 && (v >> 16) & 0xff < 256 && (v >> 8) & 0xff < 256 && v
            & 0xff < 256) by (bit_vector);
        let r = vec![
            T_LABEL,
            ((v >> 24) & 0xff) as u8,
            ((v >> 16) & 0xff) as u8,
            ((v >> 8) & 0xff) as u8,
            (v & 0xff) as u8,
        ];
        assert(r@ =~= spec_encode(Operation::Label(*self)));
        r
    }

    pub fn from_bytecode(code: &[u8]) -> (r: Self)
        requires
            code@.len() >= 5,
        ensures
            r == (LabelToken { value: spec_u32_be(code@[1], code@[2], code@[3], code@[4]) }),
    {
        let value = ((code[1] as u32) << 24) | ((code[2] as u32) << 16) | ((code[3] as u32) << 8)
            | (code[4] as u32);
        LabelToken { value }
    }
}

impl GotoToken {
    pub fn to_bytecode(&self) -> (r: Vec<u8>)
        ensures
            r@ == spec_encode(Operation::Goto(*self)),
    {
        let r = vec![T_GOTO];
        assert(r@ =~= spec_encode(Operation::Goto(*self)));
        r
    }

    pub fn from_bytecode(_code: &[u8]) -> (r: Self) {
        GotoToken
    }
}

impl DebugToken {
    pub fn to_bytecode(&self) -> (r: Vec<u8>)
        ensures
            r@ == spec_encode(Operation::Debug(*self)),
    {
        let r = vec![T_DEBUG];
        assert(r@ =~= spec_encode(Operation::Debug(*self)));
        r
    }

    pub fn from_bytecode(_code: &[u8]) -> (r: Self) {
        DebugToken
    }
}

impl AddToken {
    pub fn to_bytecode(&self) -> (r: Vec<u8>)
        ensures
            r@ == spec_encode(Operation::Add(*self)),
    {
        let r = vec![T_ADD];
        assert(r@ =~= spec_encode(Operation::Add(*self)));
        r
    }

    pub fn from_bytecode(_code: &[u8]) -> (r: Self) {
        AddToken
    }
}

impl SubToken {
    pub fn to_bytecode(&self) -> (r: Vec<u8>)
        ensures
            r@ == spec_encode(Operation::Sub(*self)),
    {
        let r = vec![T_SUB];
        assert(r@ =~= spec_encode(Operation::Sub(*self)));
        r
    }

    pub fn from_bytecode(_code: &[u8]) -> (r: Self) {
        SubToken
    }
}

impl MulToken {
    pub fn to_bytecode(&self) -> (r: Vec<u8>)
        ensures
            r@ == spec_encode(Operation::Mul(*self)),
    {
        let r = vec![T_MUL];
        assert(r@ =~= spec_encode(Operation::Mul(*self)));
        r
    }

    pub fn from_bytecode(_code: &[u8]) -> (r: Self) {
        MulToken
    }
}

impl DivToken {
    pub fn to_bytecode(&self) -> (r: Vec<u8>)
        ensures
            r@ == spec_encode(Operation::Div(*self)),
    {
        let r = vec![T_DIV];
        assert(r@ =~= spec_encode(Operation::Div(*self)));
        r
    }

    pub fn from_bytecode(_code: &[u8]) -> (r: Self) {
        DivToken
    }
}

impl ModToken {
    pub fn to_bytecode(&self) -> (r: Vec<u8>)
        ensures
            r@ == spec_encode(Operation::Mod(*self)),
    {
        let r = vec![T_MOD];
        assert(r@ =~= spec_encode(Operation::Mod(*self)));
        r
    }

    pub fn from_bytecode(_code: &[u8]) -> (r: Self) {
        ModToken
    }
}

impl LshToken {
    pub fn to_bytecode(&self) -> (r: Vec<u8>)
        ensures
            r@ == spec_encode(Operation::Lsh(*self)),
    {
        let r = vec![T_LSH];
        assert(r@ =~= spec_encode(Operation::Lsh(*self)));
        r
    }

    pub fn from_bytecode(_code: &[u8]) -> (r: Self) {
        LshToken
    }
}

impl RshToken {
    pub fn to_bytecode(&self) -> (r: Vec<u8>)
        ensures
            r@ == spec_encode(Operation::Rsh(*self)),
    {
        let r = vec![T_RSH];
        assert(r@ =~= spec_encode(Operation::Rsh(*self)));
        r
    }

    pub fn from_bytecode(_code: &[u8]) -> (r: Self) {
        RshToken
    }
}

impl JgToken {
    pub fn to_bytecode(&self) -> (r: Vec<u8>)
        ensures
            r@ == spec_encode(Operation::Jg(*self)),
    {
        let r = vec![T_JG];
        assert(r@ =~= spec_encode(Operation::Jg(*self)));
        r
    }

    pub fn from_bytecode(_code: &[u8]) -> (r: Self) {
        JgToken
    }
}

impl JlToken {
    pub fn to_bytecode(&self) -> (r: Vec<u8>)
        ensures
            r@ == spec_encode(Operation::Jl(*self)),
    {
        let r = vec![T_JL];
        assert(r@ =~= spec_encode(Operation::Jl(*self)));
        r
    }

    pub fn from_bytecode(_code: &[u8]) -> (r: Self) {
        JlToken
    }
}

impl JeToken {
    pub fn to_bytecode(&self) -> (r: Vec<u8>)
        ensures
            r@ == spec_encode(Operation::Je(*self)),
    {
        let r = vec![T_JE];
        assert(r@ =~= spec_encode(Operation::Je(*self)));
        r
    }

    pub fn from_bytecode(_code: &[u8]) -> (r: Self) {
        JeToken
    }
}

impl PauseToken {
    pub fn to_bytecode(&self) -> (r: Vec<u8>)
        ensures
            r@ == spec_encode(Operation::Pause(*self)),
    {
        let r = vec![T_PAUSE];
        assert(r@ =~= spec_encode(Operation::Pause(*self)));
        r
    }

    pub fn from_bytecode(_code: &[u8]) -> (r: Self) {
        PauseToken
    }
}

impl CmdToken {
    pub fn to_bytecode(&self) -> (r: Vec<u8>)
        ensures
            r@ == spec_encode(Operation::Cmd(*self)),
    {
        let r = vec![T_CMD];
        assert(r@ =~= spec_encode(Operation::Cmd(*self)));
        r
    }

    pub fn from_bytecode(_code: &[u8]) -> (r: Self) {
        CmdToken
    }
}

impl SendToken {
    pub fn to_bytecode(&self) -> (r: Vec<u8>)
        ensures
            r@ == spec_encode(Operation::Send(*self)),
    {
        let r = vec![T_SEND];
        assert(r@ =~= spec_encode(Operation::Send(*self)));
        r
    }
}

impl Operation {
    /// The byte sequence this operation encodes to.
    pub fn to_bytecode(&self) -> (r: Vec<u8>)
        ensures
            r@ == spec_encode(*self),
    {
        match self {
            Operation::Nop(t) => t.to_bytecode(),
            Operation::Exit(t) => t.to_bytecode(),
            Operation::SetImm(t) => t.to_bytecode(),
            Operation::Copy(t) => t.to_bytecode(),
            Operation::Load(t) => t.to_bytecode(),
            Operation::Clear(t) => t.to_bytecode(),
            Operation::Write(t) => t.to_bytecode(),
            Operation::Label(t) => t.to_bytecode(),
            Operation::Goto(t) => t.to_bytecode(),
            Operation::Debug(t) => t.to_bytecode(),
            Operation::Add(t) => t.to_bytecode(),
            Operation::Sub(t) => t.to_bytecode(),
            Operation::Mul(t) => t.to_bytecode(),
            Operation::Div(t) => t.to_bytecode(),
            Operation::Mod(t) => t.to_bytecode(),
            Operation::Lsh(t) => t.to_bytecode(),
            Operation::Rsh(t) => t.to_bytecode(),
            Operation::Jg(t) => t.to_bytecode(),
            Operation::Jl(t) => t.to_bytecode(),
            Operation::Je(t) => t.to_bytecode(),
            Operation::Pause(t) => t.to_bytecode(),
            Operation::Cmd(t) => t.to_bytecode(),
            Operation::Send(t) => t.to_bytecode(),
        }
    }

    /// Builds the operation a whole instruction (opcode and operand bytes)
    /// denotes.
    pub fn from_bytecode(code: &[u8]) -> (r: Operation)
        requires
            code@.len() >= 1,
            spec_operand_count(code@[0]) == Some((code@.len() - 1) as nat),
        ensures
            r == spec_make_op(code@[0], code@.subrange(1, code@.len() as int)),
    {
        let opcode = code[0];
        if opcode == T_NOP {
            Operation::Nop(NopToken)
        } else if opcode == T_EXIT {
            Operation::Exit(ExitToken::from_bytecode(code))
        } else if opcode == T_SET {
            Operation::SetImm(SetToken::from_bytecode(code))
        } else if opcode == T_COPY {
            Operation::Copy(CopyToken::from_bytecode(code))
        } else if opcode == T_LOAD {
            Operation::Load(LoadToken)
        } else if opcode == T_CLEAR {
            Operation::Clear(ClearToken::from_bytecode(code))
        } else if opcode == T_WRITE {
            Operation::Write(WriteToken)
        } else if opcode == T_LABEL {
            Operation::Label(LabelToken::from_bytecode(code))
        } else if opcode == T_GOTO {
            Operation::Goto(GotoToken)
        } else if opcode == T_DEBUG {
            Operation::Debug(DebugToken)
        } else if opcode == T_ADD {
            Operation::Add(AddToken)
        } else if opcode == T_SUB {
            Operation::Sub(SubToken)
        } else if opcode == T_MUL {
            Operation::Mul(MulToken)
        } else if opcode == T_DIV {
            Operation::Div(DivToken)
        } else if opcode == T_MOD {
            Operation::Mod(ModToken)
        } else if opcode == T_LSH {
            Operation::Lsh(LshToken)
        } else if opcode == T_RSH {
            Operation::Rsh(RshToken)
        } else if opcode == T_JG {
            Operation::Jg(JgToken)
        } else if opcode == T_JL {
            Operation::Jl(JlToken)
        } else if opcode == T_JE {
            Operation::Je(JeToken)
        } else if opcode == T_PAUSE {
            Operation::Pause(PauseToken)
        } else if opcode == T_CMD {
            Operation::Cmd(CmdToken)
        } else {
            Operation::Send(SendToken)
        }
    }
}

/// Recomposing the four big-endian bytes of a value yields the value.
pub proof fn lemma_u32_be_roundtrip(v: u32)
    ensures
        spec_u32_be(
            ((v >> 24) & 0xff) as u8,
            ((v >> 16) & 0xff) as u8,
            ((v >> 8) & 0xff) as u8,
            (v & 0xff) as u8,
        ) == v,
{
    assert((((((v >> 24) & 0xff) as u8) as u32) << 24) | (((((v >> 16) & 0xff) as u8) as u32)
        << 16) | (((((v >> 8) & 0xff) as u8) as u32) << 8) | (((v & 0xff) as u8) as u32)
        == v) by (bit_vector);
}

/// Splitting a value read from four big-endian bytes back into bytes yields
/// the same four bytes.
pub proof fn lemma_be_bytes_of_u32(b0: u8, b1: u8, b2: u8, b3: u8)
    ensures
        spec_be_bytes(spec_u32_be(b0, b1, b2, b3)) =~= seq![b0, b1, b2, b3],
{
    let v = spec_u32_be(b0, b1, b2, b3);
    assert(((((b0 as u32) << 24) | ((b1 as u32) << 16) | ((b2 as u32) << 8) | (b3 as u32)) >> 24)
        & 0xff == b0 as u32) by (bit_vector);
    assert(((((b0 as u32) << 24) | ((b1 as u32) << 16) | ((b2 as u32) << 8) | (b3 as u32)) >> 16)
        & 0xff == b1 as u32) by (bit_vector);
    assert(((((b0 as u32) << 24) | ((b1 as u32) << 16) | ((b2 as u32) << 8) | (b3 as u32)) >> 8)
        & 0xff == b2 as u32) by (bit_vector);
    assert((((b0 as u32) << 24) | ((b1 as u32) << 16) | ((b2 as u32) << 8) | (b3 as u32)) & 0xff
        == b3 as u32) by (bit_vector);
}

/// Decoding one instruction out of a byte stream and re-encoding the
/// operation yields exactly the bytes the instruction occupied.
pub proof fn lemma_decode_then_encode(bytes: Seq<u8>, i: int)
    requires
        0 <= i < bytes.len(),
        spec_operand_count(bytes[i]) is Some,
        i + 1 + spec_operand_count(bytes[i])->Some_0 <= bytes.len(),
    ensures
        ({
            let n = spec_operand_count(bytes[i])->Some_0;
            spec_encode(spec_make_op(bytes[i], bytes.subrange(i + 1, i + 1 + n)))
                == bytes.subrange(i, i + 1 + n)
        }),
{
    let n = spec_operand_count(bytes[i])->Some_0;
    let operands = bytes.subrange(i + 1, i + 1 + n);
    let op = spec_make_op(bytes[i], operands);
    if bytes[i] == T_LABEL {
        lemma_be_bytes_of_u32(operands[0], operands[1], operands[2], operands[3]);
        assert(spec_encode(op) =~= bytes.subrange(i, i + 1 + n));
    } else {
        assert(spec_encode(op) =~= bytes.subrange(i, i + 1 + n));
    }
}

/// Encoding an operation and decoding the result yields the operation back,
/// with the whole encoding consumed.
pub proof fn lemma_encode_then_decode(op: Operation)
    ensures
        ({
            let bytes = spec_encode(op);
            &&& bytes.len() >= 1
            &&& spec_operand_count(bytes[0]) == Some((bytes.len() - 1) as nat)
            &&& spec_make_op(bytes[0], bytes.subrange(1, bytes.len() as int)) == op
        }),
{
    let bytes = spec_encode(op);
    match op {
        Operation::Label(t) => {
            let v = t.value;
            assert(bytes.subrange(1, bytes.len() as int) =~= spec_be_bytes(v));
            lemma_u32_be_roundtrip(v);
        },
        _ => {},
    }
}

} // verus!
