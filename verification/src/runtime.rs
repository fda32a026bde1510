//! The execution core: machine state, the decoder from bytecode to
//! operations, and the fetch-decode-execute loop.
//!
//! The whole machine is modelled by the ghost [`MachineView`]; one step of
//! execution is the mathematical function [`spec_step`], and the executable
//! [`Runtime::step`] is proved to follow it exactly.  A run ends in one of
//! two ways: normally, with an exit byte and a final "off" command for the
//! strip, or faulted, with the machine left as it was when the fault was
//! met.

use crate::ledstrip_controller::{spec_color_frame, spec_state_frame, LedStripController,
    StateStripCommand};
use crate::registers::{Rcb, Rcg, Rcr, Rcs, Register, Rgd, Rgi, Rgl, Rgo, Rgp, RCB, RCG, RCR, RCS,
    RGD, RGI, RGL, RGO, RGP};
use crate::tokens::{operand_count, spec_decode, spec_make_op, spec_operand_count, CopyToken,
    DecodeError, ExitToken, Operation};
use std::collections::HashMap;
use vstd::prelude::*;
use vstd::slice::slice_subrange;

verus! {

broadcast use vstd::std_specs::hash::group_hash_axioms;

/// What went wrong while executing an operation.
#[derive(Debug, Clone, Copy, PartialEq, Eq, Structural)]
pub enum RuntimeErrorKind {
    /// The code names no register.
    UnknownRegister(u8),
    /// A jump named a label id that no label declaration bound.
    UnknownLabel(u32),
    /// Divide or modulo with a zero input register.
    DivideByZero,
    /// Add, multiply or shift left the 32-bit range, or a shift by 32 or
    /// more places.
    ArithmeticOverflow,
    /// Subtraction below zero.
    ArithmeticUnderflow,
    /// A decoded operation that this machine cannot execute.
    UnsupportedOperation,
    /// The run did not end within [`Runtime::run`]'s step budget.
    StepLimitExceeded,
}

/// A fatal runtime fault, with the position of the operation that caused
/// it.
#[derive(Debug, Clone, Copy, PartialEq, Eq, Structural)]
pub struct RuntimeError {
    /// Index of the offending operation in the decoded sequence.
    pub pc: usize,
    pub kind: RuntimeErrorKind,
}

/// What one execution step asks of the host.
#[derive(Debug, Clone, Copy, PartialEq, Eq, Structural)]
pub enum StepOutcome {
    /// Go on with the next step.
    Continue,
    /// Suspend for the given number of milliseconds, then go on.
    Pause(u32),
    /// Show the machine state, then go on.
    Debug,
    /// The run is over with this exit byte; the final "off" command is
    /// already on the log.
    Exit(u8),
}

/// The mathematical state of the whole machine.
#[verifier::ext_equal]
pub ghost struct MachineView {
    /// The boolean strip-state register.
    pub rcs: bool,
    /// The three one-byte channel registers.
    pub rcr: u8,
    pub rcg: u8,
    pub rcb: u8,
    /// The five four-byte general registers.
    pub rgd: u32,
    pub rgp: u32,
    pub rgi: u32,
    pub rgo: u32,
    pub rgl: u32,
    /// The sparse memory store; an absent address reads as zero.
    pub memory: Map<u32, u32>,
    /// The decoded operation sequence.
    pub text: Seq<Operation>,
    /// Label id to the position of its declaration.
    pub labels: Map<u32, usize>,
    /// Every command framed for the strip so far, oldest first.
    pub sent: Seq<Seq<u8>>,
    /// The exit byte, once an exit operation has run.
    pub exit: Option<u8>,
    /// The program counter.
    pub pc: usize,
    /// Whether the run is over and the final "off" command logged.
    pub done: bool,
    /// Whether the host is asked to trace execution; no operation reads or
    /// writes it.
    pub debug: bool,
}

impl MachineView {
    /// The operation sequence is addressable and every label points into
    /// it.
    pub open spec fn wf(self) -> bool {
        &&& self.text.len() <= usize::MAX
        &&& forall|id: u32| #[trigger]
            self.labels.contains_key(id) ==> (self.labels[id] as int) < self.text.len()
    }
}

/// The machine state of a fresh runtime: everything zero and empty.
pub open spec fn spec_initial() -> MachineView {
    MachineView {
        rcs: false,
        rcr: 0,
        rcg: 0,
        rcb: 0,
        rgd: 0,
        rgp: 0,
        rgi: 0,
        rgo: 0,
        rgl: 0,
        memory: Map::empty(),
        text: Seq::empty(),
        labels: Map::empty(),
        sent: Seq::empty(),
        exit: None,
        pc: 0,
        done: false,
        debug: false,
    }
}

/// The label table a decoded operation sequence defines: each label id is
/// bound to the position of its declaration, the last one when an id is
/// declared more than once.
pub open spec fn spec_labels(ops: Seq<Operation>) -> Map<u32, usize>
    decreases ops.len(),
{
    if ops.len() == 0 {
        Map::empty()
    } else {
        let prefix = spec_labels(ops.drop_last());
        match ops.last() {
            Operation::Label(t) => prefix.insert(t.value, (ops.len() - 1) as usize),
            _ => prefix,
        }
    }
}

/// Already-decoded operations in front of the rest of a decode: a fault in
/// the rest is a fault of the whole.
pub open spec fn spec_prepend(
    prefix: Seq<Operation>,
    rest: Result<Seq<Operation>, DecodeError>,
) -> Result<Seq<Operation>, DecodeError> {
    match rest {
        Ok(ops) => Ok(prefix + ops),
        Err(e) => Err(e),
    }
}

/// The numeric value of the register a code names: channel registers
/// zero-extended, the boolean register as 0 or 1, or `None` for an unknown
/// code.
pub open spec fn spec_reg_read(s: MachineView, code: u8) -> Option<u32> {
    if code == RCS {
        Some(
            if s.rcs {
                1u32
            } else {
                0u32
            },
        )
    } else if code == RCR {
        Some(s.rcr as u32)
    } else if code == RCG {
        Some(s.rcg as u32)
    } else if code == RCB {
        Some(s.rcb as u32)
    } else if code == RGD {
        Some(s.rgd)
    } else if code == RGP {
        Some(s.rgp)
    } else if code == RGI {
        Some(s.rgi)
    } else if code == RGO {
        Some(s.rgo)
    } else if code == RGL {
        Some(s.rgl)
    } else {
        None
    }
}

/// Whether a code names a one-byte channel register.
pub open spec fn spec_is_narrow(code: u8) -> bool {
    code == RCR || code == RCG || code == RCB
}

/// Whether a code names a four-byte general register.
pub open spec fn spec_is_wide(code: u8) -> bool {
    code == RGD || code == RGP || code == RGI || code == RGO || code == RGL
}

/// The machine after writing a numeric value to the register a code names:
/// channel registers take the low byte, the boolean register becomes true
/// exactly on a zero value and logs its state command, or `None` for an
/// unknown code.
pub open spec fn spec_reg_write(s: MachineView, code: u8, value: u32) -> Option<MachineView> {
    if code == RCS {
        Some(
            MachineView {
                rcs: value == 0,
                sent: s.sent.push(spec_state_frame(value == 0)),
                ..s
            },
        )
    } else if code == RCR {
        Some(MachineView { rcr: (value % 256) as u8, ..s })
    } else if code == RCG {
        Some(MachineView { rcg: (value % 256) as u8, ..s })
    } else if code == RCB {
        Some(MachineView { rcb: (value % 256) as u8, ..s })
    } else if code == RGD {
        Some(MachineView { rgd: value, ..s })
    } else if code == RGP {
        Some(MachineView { rgp: value, ..s })
    } else if code == RGI {
        Some(MachineView { rgi: value, ..s })
    } else if code == RGO {
        Some(MachineView { rgo: value, ..s })
    } else if code == RGL {
        Some(MachineView { rgl: value, ..s })
    } else {
        None
    }
}

/// The machine after placing the program counter on a label's declaration,
/// or a fault when the id is unbound.  The following advance then resumes
/// execution at the operation after the declaration.
pub open spec fn spec_jump(s: MachineView, id: u32) -> Result<
    (MachineView, StepOutcome),
    RuntimeErrorKind,
> {
    if s.labels.contains_key(id) {
        Ok((MachineView { pc: s.labels[id], ..s }, StepOutcome::Continue))
    } else {
        Err(RuntimeErrorKind::UnknownLabel(id))
    }
}

/// The effect of one operation on the machine, before the program counter
/// moves: the changed state and the outcome handed to the host, or the
/// fault it raises.
pub open spec fn spec_exec_op(s: MachineView, op: Operation) -> Result<
    (MachineView, StepOutcome),
    RuntimeErrorKind,
> {
    match op {
        Operation::Nop(_) => Ok((s, StepOutcome::Continue)),
        Operation::Exit(t) => match spec_reg_read(s, t.register) {
            Some(v) => Ok(
                (MachineView { exit: Some((v % 256) as u8), ..s }, StepOutcome::Continue),
            ),
            None => Err(RuntimeErrorKind::UnknownRegister(t.register)),
        },
        Operation::SetImm(t) => match spec_reg_write(s, t.register, t.value as u32) {
            Some(s1) => Ok((s1, StepOutcome::Continue)),
            None => Err(RuntimeErrorKind::UnknownRegister(t.register)),
        },
        Operation::Copy(t) => match spec_reg_read(s, t.register_1) {
            Some(v) => match spec_reg_write(s, t.register_2, v) {
                Some(s1) => Ok((s1, StepOutcome::Continue)),
                None => Err(RuntimeErrorKind::UnknownRegister(t.register_2)),
            },
            None => Err(RuntimeErrorKind::UnknownRegister(t.register_1)),
        },
        Operation::Load(_) => Ok(
            (
                MachineView {
                    rgd: if s.memory.contains_key(s.rgp) {
                        s.memory[s.rgp]
                    } else {
                        0u32
                    },
                    ..s
                },
                StepOutcome::Continue,
            ),
        ),
        Operation::Clear(t) => if t.register == RCS {
            Ok(
                (
                    MachineView { rcs: false, sent: s.sent.push(spec_state_frame(false)), ..s },
                    StepOutcome::Continue,
                ),
            )
        } else {
            match spec_reg_write(s, t.register, 0) {
                Some(s1) => Ok((s1, StepOutcome::Continue)),
                None => Err(RuntimeErrorKind::UnknownRegister(t.register)),
            }
        },
        Operation::Write(_) => Ok(
            (MachineView { memory: s.memory.insert(s.rgp, s.rgd), ..s }, StepOutcome::Continue),
        ),
        Operation::Label(_) => Ok((s, StepOutcome::Continue)),
        Operation::Goto(_) => spec_jump(s, s.rgl),
        Operation::Debug(_) => Ok((s, StepOutcome::Debug)),
        Operation::Add(_) => if s.rgd + s.rgi > u32::MAX {
            Err(RuntimeErrorKind::ArithmeticOverflow)
        } else {
            Ok((MachineView { rgo: (s.rgd + s.rgi) as u32, ..s }, StepOutcome::Continue))
        },
        Operation::Sub(_) => if s.rgd < s.rgi {
            Err(RuntimeErrorKind::ArithmeticUnderflow)
        } else {
            Ok((MachineView { rgo: (s.rgd - s.rgi) as u32, ..s }, StepOutcome::Continue))
        },
        Operation::Mul(_) => if s.rgd * s.rgi > u32::MAX {
            Err(RuntimeErrorKind::ArithmeticOverflow)
        } else {
            Ok((MachineView { rgo: (s.rgd * s.rgi) as u32, ..s }, StepOutcome::Continue))
        },
        Operation::Div(_) => if s.rgi == 0 {
            Err(RuntimeErrorKind::DivideByZero)
        } else {
            Ok((MachineView { rgo: s.rgd / s.rgi, ..s }, StepOutcome::Continue))
        },
        Operation::Mod(_) => if s.rgi == 0 {
            Err(RuntimeErrorKind::DivideByZero)
        } else {
            Ok((MachineView { rgo: s.rgd % s.rgi, ..s }, StepOutcome::Continue))
        },
        Operation::Lsh(_) => if s.rgi >= 32 {
            Err(RuntimeErrorKind::ArithmeticOverflow)
        } else {
            Ok((MachineView { rgo: s.rgd << s.rgi, ..s }, StepOutcome::Continue))
        },
        Operation::Rsh(_) => if s.rgi >= 32 {
            Err(RuntimeErrorKind::ArithmeticOverflow)
        } else {
            Ok((MachineView { rgo: s.rgd >> s.rgi, ..s }, StepOutcome::Continue))
        },
        Operation::Jg(_) => if s.rgd > s.rgi {
            spec_jump(s, s.rgl)
        } else {
            Ok((s, StepOutcome::Continue))
        },
        Operation::Jl(_) => if s.rgd < s.rgi {
            spec_jump(s, s.rgl)
        } else {
            Ok((s, StepOutcome::Continue))
        },
        Operation::Je(_) => if s.rgd == s.rgi {
            spec_jump(s, s.rgl)
        } else {
            Ok((s, StepOutcome::Continue))
        },
        Operation::Pause(_) => Ok((s, StepOutcome::Pause(s.rgd))),
        Operation::Cmd(_) => Err(RuntimeErrorKind::UnsupportedOperation),
        Operation::Send(_) => Ok(
            (
                MachineView { sent: s.sent.push(spec_color_frame(s.rcr, s.rcg, s.rcb)), ..s },
                StepOutcome::Continue,
            ),
        ),
    }
}

/// The operation executed, with this state and outcome.
pub open spec fn exec_op_gives(
    s: MachineView,
    op: Operation,
    s1: MachineView,
    out: StepOutcome,
) -> bool {
    spec_exec_op(s, op) == Ok::<(MachineView, StepOutcome), RuntimeErrorKind>((s1, out))
}

/// The machine after the run has ended: the final "off" command is logged
/// and the machine is marked done.
pub open spec fn spec_finish(s: MachineView) -> MachineView {
    MachineView { sent: s.sent.push(spec_state_frame(false)), done: true, ..s }
}

/// The machine with the program counter moved to the next operation.
pub open spec fn spec_advance(s: MachineView) -> MachineView {
    MachineView { pc: (s.pc + 1) as usize, ..s }
}

/// One step of the execution loop: with the program counter past the end
/// the run ends with exit byte zero; otherwise the operation under the
/// counter executes, and either the run ends (exit state set), or a fault
/// leaves the machine unchanged, or the counter advances.
pub open spec fn spec_step(s: MachineView) -> (MachineView, Result<StepOutcome, RuntimeError>) {
    if s.pc >= s.text.len() {
        (spec_finish(s), Ok(StepOutcome::Exit(0)))
    } else {
        match spec_exec_op(s, s.text[s.pc as int]) {
            Err(kind) => (s, Err(RuntimeError { pc: s.pc, kind })),
            Ok((s1, out)) => match s1.exit {
                Some(code) => (spec_finish(s1), Ok(StepOutcome::Exit(code))),
                None => (spec_advance(s1), Ok(out)),
            },
        }
    }
}

/// The machine after `n` steps, stopping early once the run is done.
pub open spec fn spec_iterate(s: MachineView, n: nat) -> MachineView
    decreases n,
{
    if n == 0 || s.done {
        s
    } else {
        spec_iterate(spec_step(s).0, (n - 1) as nat)
    }
}

/// Appending one step: `n + 1` steps are `n` steps followed by one step of
/// the state those reached.
pub proof fn lemma_iterate_snoc(s: MachineView, n: nat)
    ensures
        spec_iterate(s, n + 1) == (if spec_iterate(s, n).done {
            spec_iterate(s, n)
        } else {
            spec_step(spec_iterate(s, n)).0
        }),
    decreases n,
{
    if s.done {
        assert(spec_iterate(s, n + 1) == s);
        assert(spec_iterate(s, n) == s);
    } else if n == 0 {
        assert(spec_iterate(s, n + 1) == spec_iterate(spec_step(s).0, 0));
    } else {
        lemma_iterate_snoc(spec_step(s).0, (n - 1) as nat);
        assert(spec_iterate(s, n + 1) == spec_iterate(spec_step(s).0, ((n + 1) - 1) as nat));
        assert(((n + 1) - 1) as nat == ((n - 1) as nat) + 1);
        assert(spec_iterate(s, n) == spec_iterate(spec_step(s).0, (n - 1) as nat));
    }
}

/// An operation changes neither the operation sequence nor the label
/// table, keeps the machine well formed, and leaves the program counter
/// where it was or on a label declaration.
pub proof fn lemma_exec_op_frame(s: MachineView, op: Operation)
    requires
        s.wf(),
    ensures
        match spec_exec_op(s, op) {
            Ok((s1, _)) => s1.wf() && s1.text == s.text && s1.labels == s.labels && s1.done
                == s.done && (s1.pc == s.pc || (s1.pc as int) < s.text.len()),
            Err(_) => true,
        },
{
}

/// The register machine: the register bank, the memory store, the decoded
/// program with its label table, the hardware bridge handle, and the
/// execution loop's own state.
pub struct Runtime {
    pub rcs: Rcs,
    pub rcr: Rcr,
    pub rcg: Rcg,
    pub rcb: Rcb,
    pub rgd: Rgd,
    pub rgp: Rgp,
    pub rgi: Rgi,
    pub rgo: Rgo,
    pub rgl: Rgl,
    pub memory: HashMap<u32, u32>,
    pub text: Vec<Operation>,
    pub labels: HashMap<u32, usize>,
    pub strip_controller: LedStripController,
    pub exit: Option<u8>,
    pub current_index: usize,
    pub debug: bool,
    pub done: bool,
}

impl View for Runtime {
    type V = MachineView;

    open spec fn view(&self) -> MachineView {
        MachineView {
            rcs: self.rcs.spec_get(),
            rcr: self.rcr.spec_get(),
            rcg: self.rcg.spec_get(),
            rcb: self.rcb.spec_get(),
            rgd: self.rgd.spec_get(),
            rgp: self.rgp.spec_get(),
            rgi: self.rgi.spec_get(),
            rgo: self.rgo.spec_get(),
            rgl: self.rgl.spec_get(),
            memory: self.memory@,
            text: self.text@,
            labels: self.labels@,
            sent: self.strip_controller@,
            exit: self.exit,
            pc: self.current_index,
            done: self.done,
            debug: self.debug,
        }
    }
}

impl Runtime {
    /// A fresh machine: all registers zero, memory, program and label table
    /// empty, nothing sent yet.
    pub fn new() -> (r: Runtime)
        ensures
            r@ == spec_initial(),
            r@.wf(),
    {
        let r = Runtime {
            rcs: Rcs::new(),
            rcr: Rcr::new(),
            rcg: Rcg::new(),
            rcb: Rcb::new(),
            rgd: Rgd::new(),
            rgp: Rgp::new(),
            rgi: Rgi::new(),
            rgo: Rgo::new(),
            rgl: Rgl::new(),
            memory: HashMap::new(),
            text: Vec::new(),
            labels: HashMap::new(),
            strip_controller: LedStripController::new(),
            exit: None,
            current_index: 0,
            debug: false,
            done: false,
        };
        assert(r@ =~= spec_initial());
        r
    }

    /// Sets debug to the specified value; the machine state is untouched.
    pub fn set_debug(&mut self, debug: bool)
        ensures
            final(self)@ == (MachineView { debug, ..old(self)@ }),
    {
        self.debug = debug;
        assert(self@ =~= (MachineView { debug, ..old(self)@ }));
    }

    /// Marks the run as ending with the specified exit byte.
    pub fn exit(&mut self, code: u8)
        ensures
            final(self)@ == (MachineView { exit: Some(code), ..old(self)@ }),
    {
        self.exit = Some(code);
        assert(self@ =~= (MachineView { exit: Some(code), ..old(self)@ }));
    }

    /// The numeric value of the register the code names, or `None` for an
    /// unknown code.
    pub fn read_register(&self, code: u8) -> (r: Option<u32>)
        ensures
            r == spec_reg_read(self@, code),
    {
        if code == RCS {
            Some(
                if self.rcs.get() {
                    1
                } else {
                    0
                },
            )
        } else if code == RCR {
            Some(self.rcr.get() as u32)
        } else if code == RCG {
            Some(self.rcg.get() as u32)
        } else if code == RCB {
            Some(self.rcb.get() as u32)
        } else if code == RGD {
            Some(self.rgd.get())
        } else if code == RGP {
            Some(self.rgp.get())
        } else if code == RGI {
            Some(self.rgi.get())
        } else if code == RGO {
            Some(self.rgo.get())
        } else if code == RGL {
            Some(self.rgl.get())
        } else {
            None
        }
    }

    /// Writes the boolean strip-state register and logs the matching state
    /// command for the strip.
    fn set_rcs(&mut self, on: bool)
        ensures
            final(self)@ == (MachineView {
                rcs: on,
                sent: old(self)@.sent.push(spec_state_frame(on)),
                ..old(self)@
            }),
    {
        self.rcs.set(on);
        if on {
            self.strip_controller.set_state(StateStripCommand::On);
        } else {
            self.strip_controller.set_state(StateStripCommand::Off);
        }
        assert(self@ =~= (MachineView {
            rcs: on,
            sent: old(self)@.sent.push(spec_state_frame(on)),
            ..old(self)@
        }));
    }

    /// Writes a numeric value to the register the code names; `false` means
    /// the code names no register and nothing changed.
    fn write_register(&mut self, code: u8, value: u32) -> (ok: bool)
        ensures
            match spec_reg_write(old(self)@, code, value) {
                Some(s1) => ok && final(self)@ == s1,
                None => !ok && final(self)@ == old(self)@,
            },
    {
        if code == RCS {
            self.set_rcs(value == 0);
            assert(self@ =~= spec_reg_write(old(self)@, code, value)->Some_0);
            true
        } else if code == RCR {
            self.rcr.set((value % 256) as u8);
            assert(self@ =~= spec_reg_write(old(self)@, code, value)->Some_0);
            true
        } else if code == RCG {
            self.rcg.set((value % 256) as u8);
            assert(self@ =~= spec_reg_write(old(self)@, code, value)->Some_0);
            true
        } else if code == RCB {
            self.rcb.set((value % 256) as u8);
            assert(self@ =~= spec_reg_write(old(self)@, code, value)->Some_0);
            true
        } else if code == RGD {
            self.rgd.set(value);
            assert(self@ =~= spec_reg_write(old(self)@, code, value)->Some_0);
            true
        } else if code == RGP {
            self.rgp.set(value);
            assert(self@ =~= spec_reg_write(old(self)@, code, value)->Some_0);
            true
        } else if code == RGI {
            self.rgi.set(value);
            assert(self@ =~= spec_reg_write(old(self)@, code, value)->Some_0);
            true
        } else if code == RGO {
            self.rgo.set(value);
            assert(self@ =~= spec_reg_write(old(self)@, code, value)->Some_0);
            true
        } else if code == RGL {
            self.rgl.set(value);
            assert(self@ =~= spec_reg_write(old(self)@, code, value)->Some_0);
            true
        } else {
            false
        }
    }

    /// Places the program counter on the declaration of the given label, so
    /// that execution resumes with the operation after it; a fault when the
    /// id is unbound.
    pub fn jump(&mut self, label: u32) -> (r: Result<(), RuntimeError>)
        ensures
            match r {
                Ok(_) => old(self)@.labels.contains_key(label) && final(self)@ == (MachineView {
                    pc: old(self)@.labels[label],
                    ..old(self)@
                }),
                Err(e) => !old(self)@.labels.contains_key(label) && final(self)@ == old(self)@
                    && e == (RuntimeError {
                    pc: old(self)@.pc,
                    kind: RuntimeErrorKind::UnknownLabel(label),
                }),
            },
    {
        match self.labels.get(&label) {
            Some(target) => {
                self.current_index = *target;
                assert(self@ =~= (MachineView { pc: old(self)@.labels[label], ..old(self)@ }));
                Ok(())
            },
            None => Err(
                RuntimeError {
                    pc: self.current_index,
                    kind: RuntimeErrorKind::UnknownLabel(label),
                },
            ),
        }
    }

    /// Binds a label id to the current position of the program counter.
    pub fn create_label(&mut self, id: u32)
        requires
            (old(self)@.pc as int) < old(self)@.text.len(),
        ensures
            final(self)@ == (MachineView {
                labels: old(self)@.labels.insert(id, old(self)@.pc),
                ..old(self)@
            }),
    {
        let here = self.current_index;
        self.labels.insert(id, here);
        assert(self@ =~= (MachineView {
            labels: old(self)@.labels.insert(id, old(self)@.pc),
            ..old(self)@
        }));
    }

    /// Decodes a byte stream in one forward pass into the operation
    /// sequence and the label table, replacing whatever program the machine
    /// held.  A byte that is no opcode, or a stream that ends inside an
    /// instruction's operand bytes, is a fatal decode error and leaves the
    /// machine untouched.
    pub fn parse_bytecode(&mut self, bytecode: Vec<u8>) -> (r: Result<(), DecodeError>)
        ensures
            match r {
                Ok(_) => spec_decode(bytecode@, 0) is Ok && final(self)@ == (MachineView {
                    text: spec_decode(bytecode@, 0)->Ok_0,
                    labels: spec_labels(spec_decode(bytecode@, 0)->Ok_0),
                    ..old(self)@
                }) && final(self)@.wf(),
                Err(e) => spec_decode(bytecode@, 0) == Err::<Seq<Operation>, DecodeError>(e)
                    && final(self)@ == old(self)@,
            },
    {
        let mut text: Vec<Operation> = Vec::new();
        let mut labels: HashMap<u32, usize> = HashMap::new();
        let mut i: usize = 0;
        while i < bytecode.len()
            invariant
                i <= bytecode@.len(),
                spec_decode(bytecode@, 0) == spec_prepend(
                    text@,
                    spec_decode(bytecode@, i as int),
                ),
                labels@ == spec_labels(text@),
                forall|id: u32| #[trigger]
                    labels@.contains_key(id) ==> (labels@[id] as int) < text@.len(),
            decreases bytecode@.len() - i,
        {
            let opcode = bytecode[i];
            let n = match operand_count(opcode) {
                Some(n) => n,
                None => {
                    return Err(DecodeError::UnknownOpcode(opcode));
                },
            };
            if bytecode.len() - i < n + 1 {
                return Err(DecodeError::UnexpectedEnd);
            }
            let part = slice_subrange(bytecode.as_slice(), i, i + n + 1);
            let op = Operation::from_bytecode(part);
            proof {
                assert(part@.subrange(1, part@.len() as int) =~= bytecode@.subrange(
                    i + 1,
                    i + 1 + n,
                ));
                assert(op == spec_make_op(bytecode@[i as int], bytecode@.subrange(
                    i + 1,
                    i + 1 + n,
                )));
            }
            if let Operation::Label(t) = op {
                let here = text.len();
                labels.insert(t.value, here);
            }
            let ghost text_before = text@;
            text.push(op);
            proof {
                assert(text_before.push(op).drop_last() =~= text_before);
                let rest = spec_decode(bytecode@, i + 1 + n);
                if rest is Ok {
                    assert(text_before + (seq![op] + rest->Ok_0) =~= text_before.push(op)
                        + rest->Ok_0);
                }
            }
            i = i + n + 1;
        }
        proof {
            assert(text@ + Seq::<Operation>::empty() =~= text@);
            assert(vstd::std_specs::vec::spec_vec_len(&text) == text@.len());
        }
        self.text = text;
        self.labels = labels;
        assert(self@ =~= (MachineView {
            text: spec_decode(bytecode@, 0)->Ok_0,
            labels: spec_labels(spec_decode(bytecode@, 0)->Ok_0),
            ..old(self)@
        }));
        Ok(())
    }

    /// Executes the operation under the program counter and moves it; the
    /// returned outcome asks the host for whatever the machine itself
    /// cannot do (suspend, show state), or hands over the exit byte when
    /// the run is over.  A fault leaves the machine unchanged.
    #[verifier::rlimit(100)]
    pub fn step(&mut self) -> (r: Result<StepOutcome, RuntimeError>)
        requires
            old(self)@.wf(),
            !old(self)@.done,
        ensures
            final(self)@.wf(),
            final(self)@ == spec_step(old(self)@).0,
            r == spec_step(old(self)@).1,
    {
        let ghost s0 = self@;
        if self.current_index >= self.text.len() {
            self.strip_controller.set_state(StateStripCommand::Off);
            self.done = true;
            assert(self@ =~= spec_finish(s0));
            return Ok(StepOutcome::Exit(0));
        }
        let op = self.text[self.current_index];
        let mut outcome = StepOutcome::Continue;
        match op {
            Operation::Nop(_) => {
                assert(exec_op_gives(s0, op, self@, outcome));
            },
            Operation::Exit(t) => {
                match self.read_register(t.register) {
                    Some(v) => {
                        self.exit((v % 256) as u8);
                        assert(exec_op_gives(s0, op, self@, outcome));
                    },
                    None => {
                        return Err(
                            RuntimeError {
                                pc: self.current_index,
                                kind: RuntimeErrorKind::UnknownRegister(t.register),
                            },
                        );
                    },
                }
            },
            Operation::SetImm(t) => {
                if !self.write_register(t.register, t.value as u32) {
                    return Err(
                        RuntimeError {
                            pc: self.current_index,
                            kind: RuntimeErrorKind::UnknownRegister(t.register),
                        },
                    );
                }
                assert(exec_op_gives(s0, op, self@, outcome));
            },
            Operation::Copy(t) => {
                match self.read_register(t.register_1) {
                    Some(v) => {
                        if !self.write_register(t.register_2, v) {
                            return Err(
                                RuntimeError {
                                    pc: self.current_index,
                                    kind: RuntimeErrorKind::UnknownRegister(t.register_2),
                                },
                            );
                        }
                        assert(exec_op_gives(s0, op, self@, outcome));
                    },
                    None => {
                        return Err(
                            RuntimeError {
                                pc: self.current_index,
                                kind: RuntimeErrorKind::UnknownRegister(t.register_1),
                            },
                        );
                    },
                }
            },
            Operation::Load(_) => {
                let pointer = self.rgp.get();
                let value = match self.memory.get(&pointer) {
                    Some(v) => *v,
                    None => 0,
                };
                self.rgd.set(value);
                assert(exec_op_gives(s0, op, self@, outcome));
            },
            Operation::Clear(t) => {
                if t.register == RCS {
                    self.set_rcs(false);
                    assert(exec_op_gives(s0, op, self@, outcome));
                } else {
                    if !self.write_register(t.register, 0) {
                        return Err(
                            RuntimeError {
                                pc: self.current_index,
                                kind: RuntimeErrorKind::UnknownRegister(t.register),
                            },
                        );
                    }
                    assert(exec_op_gives(s0, op, self@, outcome));
                }
            },
            Operation::Write(_) => {
                let address = self.rgp.get();
                let value = self.rgd.get();
                self.memory.insert(address, value);
                assert(exec_op_gives(s0, op, self@, outcome));
            },
            Operation::Label(_) => {
                assert(exec_op_gives(s0, op, self@, outcome));
            },
            Operation::Goto(_) => {
                let label = self.rgl.get();
                match self.jump(label) {
                    Ok(_) => {
                        assert(exec_op_gives(s0, op, self@, outcome));
                    },
                    Err(e) => {
                        return Err(e);
                    },
                }
            },
            Operation::Debug(_) => {
                outcome = StepOutcome::Debug;
                assert(exec_op_gives(s0, op, self@, outcome));
            },
            Operation::Add(_) => {
                let d = self.rgd.get();
                let i = self.rgi.get();
                if d as u64 + i as u64 > u32::MAX as u64 {
                    return Err(
                        RuntimeError {
                            pc: self.current_index,
                            kind: RuntimeErrorKind::ArithmeticOverflow,
                        },
                    );
                }
                self.rgo.set(d + i);
                assert(exec_op_gives(s0, op, self@, outcome));
            },
            Operation::Sub(_) => {
                let d = self.rgd.get();
                let i = self.rgi.get();
                if d < i {
                    return Err(
                        RuntimeError {
                            pc: self.current_index,
                            kind: RuntimeErrorKind::ArithmeticUnderflow,
                        },
                    );
                }
                self.rgo.set(d - i);
                assert(exec_op_gives(s0, op, self@, outcome));
            },
            Operation::Mul(_) => {
                let d = self.rgd.get();
                let i = self.rgi.get();
                assert((d as u64) * (i as u64) <= u64::MAX) by (nonlinear_arith)
                    requires
                        d <= u32::MAX,
                        i <= u32::MAX,
                ;
                if (d as u64) * (i as u64) > u32::MAX as u64 {
                    return Err(
                        RuntimeError {
                            pc: self.current_index,
                            kind: RuntimeErrorKind::ArithmeticOverflow,
                        },
                    );
                }
                self.rgo.set(d * i);
                assert(exec_op_gives(s0, op, self@, outcome));
            },
            Operation::Div(_) => {
                let d = self.rgd.get();
                let i = self.rgi.get();
                if i == 0 {
                    return Err(
                        RuntimeError {
                            pc: self.current_index,
                            kind: RuntimeErrorKind::DivideByZero,
                        },
                    );
                }
                self.rgo.set(d / i);
                assert(exec_op_gives(s0, op, self@, outcome));
            },
            Operation::Mod(_) => {
                let d = self.rgd.get();
                let i = self.rgi.get();
                if i == 0 {
                    return Err(
                        RuntimeError {
                            pc: self.current_index,
                            kind: RuntimeErrorKind::DivideByZero,
                        },
                    );
                }
                self.rgo.set(d % i);
                assert(exec_op_gives(s0, op, self@, outcome));
            },
            Operation::Lsh(_) => {
                let d = self.rgd.get();
                let i = self.rgi.get();
                if i >= 32 {
                    return Err(
                        RuntimeError {
                            pc: self.current_index,
                            kind: RuntimeErrorKind::ArithmeticOverflow,
                        },
                    );
                }
                self.rgo.set(d << i);
                assert(exec_op_gives(s0, op, self@, outcome));
            },
            Operation::Rsh(_) => {
                let d = self.rgd.get();
                let i = self.rgi.get();
                if i >= 32 {
                    return Err(
                        RuntimeError {
                            pc: self.current_index,
                            kind: RuntimeErrorKind::ArithmeticOverflow,
                        },
                    );
                }
                self.rgo.set(d >> i);
                assert(exec_op_gives(s0, op, self@, outcome));
            },
            Operation::Jg(_) => {
                if self.rgd.get() > self.rgi.get() {
                    let label = self.rgl.get();
                    match self.jump(label) {
                        Ok(_) => {
                            assert(exec_op_gives(s0, op, self@, outcome));
                        },
                        Err(e) => {
                            return Err(e);
                        },
                    }
                } else {
                    assert(exec_op_gives(s0, op, self@, outcome));
                }
            },
            Operation::Jl(_) => {
                if self.rgd.get() < self.rgi.get() {
                    let label = self.rgl.get();
                    match self.jump(label) {
                        Ok(_) => {
                            assert(exec_op_gives(s0, op, self@, outcome));
                        },
                        Err(e) => {
                            return Err(e);
                        },
                    }
                } else {
                    assert(exec_op_gives(s0, op, self@, outcome));
                }
            },
            Operation::Je(_) => {
                if self.rgd.get() == self.rgi.get() {
                    let label = self.rgl.get();
                    match self.jump(label) {
                        Ok(_) => {
                            assert(exec_op_gives(s0, op, self@, outcome));
                        },
                        Err(e) => {
                            return Err(e);
                        },
                    }
                } else {
                    assert(exec_op_gives(s0, op, self@, outcome));
                }
            },
            Operation::Pause(_) => {
                outcome = StepOutcome::Pause(self.rgd.get());
                assert(exec_op_gives(s0, op, self@, outcome));
            },
            Operation::Cmd(_) => {
                return Err(
                    RuntimeError {
                        pc: self.current_index,
                        kind: RuntimeErrorKind::UnsupportedOperation,
                    },
                );
            },
            Operation::Send(_) => {
                let r = self.rcr.get();
                let g = self.rcg.get();
                let b = self.rcb.get();
                self.strip_controller.send_rgb_color(r, g, b);
                assert(exec_op_gives(s0, op, self@, outcome));
            },
        }
        assert(exec_op_gives(s0, op, self@, outcome));
        let ghost s1 = self@;
        proof {
            lemma_exec_op_frame(s0, op);
        }
        if let Some(code) = self.exit {
            self.strip_controller.set_state(StateStripCommand::Off);
            self.done = true;
            assert(self@ =~= spec_finish(s1));
            return Ok(StepOutcome::Exit(code));
        }
        self.current_index = self.current_index + 1;
        assert(self@ =~= spec_advance(s1));
        Ok(outcome)
    }

    /// Executes the stored program to completion: steps until the run ends,
    /// then returns the exit byte; the final "off" command is on the log by
    /// then.  A fault stops execution at once and leaves the machine in the
    /// state that could not step.  A program still running after 2^64 - 1
    /// steps stops with a step-limit fault.  Hosts that honor pause
    /// operations drive [`Runtime::step`] themselves instead.
    #[verifier::loop_isolation(false)]
    pub fn run(&mut self) -> (r: Result<u8, RuntimeError>)
        requires
            old(self)@.wf(),
            !old(self)@.done,
            old(self)@.exit is None,
        ensures
            final(self)@.wf(),
            exists|n: nat| final(self)@ == spec_iterate(old(self)@, n),
            match r {
                Ok(code) => final(self)@.done && final(self)@.sent.len() >= 1
                    && final(self)@.sent.last() == spec_state_frame(false) && (match final(
                    self)@.exit {
                    Some(c) => code == c,
                    None => code == 0 && final(self)@.pc >= final(self)@.text.len(),
                }),
                Err(e) => !final(self)@.done && (if e.kind
                    == RuntimeErrorKind::StepLimitExceeded {
                    final(self)@ == spec_iterate(old(self)@, u64::MAX as nat)
                } else {
                    spec_step(final(self)@).1 == Err::<StepOutcome, RuntimeError>(e)
                }),
            },
    {
        let ghost s0 = self@;
        let ghost mut n: nat = 0;
        let mut budget: u64 = u64::MAX;
        loop
            invariant
                self@.wf(),
                !self@.done,
                self@.exit is None,
                self@ == spec_iterate(s0, n),
                n + budget == u64::MAX as nat,
            decreases budget,
        {
            if budget == 0 {
                return Err(
                    RuntimeError {
                        pc: self.current_index,
                        kind: RuntimeErrorKind::StepLimitExceeded,
                    },
                );
            }
            budget = budget - 1;
            proof {
                lemma_iterate_snoc(s0, n);
            }
            let ghost pre = self@;
            match self.step() {
                Ok(StepOutcome::Exit(code)) => {
                    proof {
                        n = n + 1;
                    }
                    assert(self@ == spec_iterate(s0, n));
                    assert(self@.done && self@.sent.len() >= 1 && self@.sent.last()
                        == spec_state_frame(false));
                    return Ok(code);
                },
                Ok(_) => {
                    proof {
                        if (pre.pc as int) < pre.text.len() {
                            lemma_exec_op_frame(pre, pre.text[pre.pc as int]);
                        }
                        n = n + 1;
                    }
                },
                Err(e) => {
                    assert(self@ == pre);
                    return Err(e);
                },
            }
        }
    }
}

/// Copying register `a` to register `b` and then reading `b` yields the
/// value `a` held before the copy: unchanged whenever that value fits `b`,
/// else its low byte (a wide value copied into a channel register is
/// truncated).
pub proof fn lemma_copy_then_get(s: MachineView, a: u8, b: u8)
    requires
        s.wf(),
        !s.done,
        s.exit is None,
        (s.pc as int) < s.text.len(),
        s.text[s.pc as int] == Operation::Copy(CopyToken { register_1: a, register_2: b }),
        spec_reg_read(s, a) is Some,
        spec_is_narrow(b) || spec_is_wide(b),
    ensures
        ({
            let v = spec_reg_read(s, a)->Some_0;
            let s1 = spec_step(s).0;
            &&& spec_step(s).1 == Ok::<StepOutcome, RuntimeError>(StepOutcome::Continue)
            &&& spec_reg_read(s1, b) is Some
            &&& (spec_reg_read(s1, b)->Some_0 as int) == (if spec_is_narrow(b) {
                (v as int) % 256
            } else {
                v as int
            })
            &&& v < 256 ==> spec_reg_read(s1, b) == Some(v)
        }),
{
}

/// Loading from an address that was never written yields zero.
pub proof fn lemma_load_unwritten_zero(s: MachineView)
    requires
        s.wf(),
        !s.done,
        s.exit is None,
        (s.pc as int) < s.text.len(),
        s.text[s.pc as int] is Load,
        !s.memory.contains_key(s.rgp),
    ensures
        spec_step(s).1 == Ok::<StepOutcome, RuntimeError>(StepOutcome::Continue),
        spec_step(s).0.rgd == 0,
{
}

/// A store immediately followed by a load reads back the stored value: the
/// store binds the data register's value to the pointer register's address,
/// and the load leaves the data register as it was.
pub proof fn lemma_store_then_load(s: MachineView)
    requires
        s.wf(),
        !s.done,
        s.exit is None,
        s.pc + 1 < s.text.len(),
        s.text[s.pc as int] is Write,
        s.text[s.pc as int + 1] is Load,
    ensures
        ({
            let s1 = spec_step(s).0;
            let s2 = spec_step(s1).0;
            &&& spec_step(s).1 == Ok::<StepOutcome, RuntimeError>(StepOutcome::Continue)
            &&& s1.memory == s.memory.insert(s.rgp, s.rgd)
            &&& spec_step(s1).1 == Ok::<StepOutcome, RuntimeError>(StepOutcome::Continue)
            &&& s2.rgd == s.rgd
        }),
{
}

/// A greater-than jump with data > input places execution on the operation
/// immediately after the label's declaration; with data <= input it simply
/// advances.
pub proof fn lemma_conditional_jump_greater(s: MachineView)
    requires
        s.wf(),
        !s.done,
        s.exit is None,
        (s.pc as int) < s.text.len(),
        s.text[s.pc as int] is Jg,
        s.labels.contains_key(s.rgl),
    ensures
        spec_step(s).1 == Ok::<StepOutcome, RuntimeError>(StepOutcome::Continue),
        s.rgd > s.rgi ==> (spec_step(s).0.pc as int) == s.labels[s.rgl] + 1,
        s.rgd <= s.rgi ==> (spec_step(s).0.pc as int) == s.pc + 1,
{
}

/// A divide with a zero input register is fatal: the step faults and the
/// machine is left exactly as it was, with no value written.
pub proof fn lemma_divide_by_zero_faults(s: MachineView)
    requires
        s.wf(),
        !s.done,
        (s.pc as int) < s.text.len(),
        s.text[s.pc as int] is Div,
        s.rgi == 0,
    ensures
        spec_step(s).0 == s,
        spec_step(s).1 == Err::<StepOutcome, RuntimeError>(
            RuntimeError { pc: s.pc, kind: RuntimeErrorKind::DivideByZero },
        ),
{
}

/// An exit operation ends the run with the addressed register's low byte
/// and puts exactly one "off" state command on the log, whatever was sent
/// before.
pub proof fn lemma_exit_sends_off(s: MachineView, reg: u8)
    requires
        s.wf(),
        !s.done,
        (s.pc as int) < s.text.len(),
        s.text[s.pc as int] == Operation::Exit(ExitToken { register: reg }),
        spec_reg_read(s, reg) is Some,
    ensures
        ({
            let v = spec_reg_read(s, reg)->Some_0;
            let code = (v % 256) as u8;
            &&& spec_step(s).1 == Ok::<StepOutcome, RuntimeError>(StepOutcome::Exit(code))
            &&& spec_step(s).0.exit == Some(code)
            &&& spec_step(s).0.done
            &&& spec_step(s).0.sent == s.sent.push(spec_state_frame(false))
        }),
{
}

} // verus!
