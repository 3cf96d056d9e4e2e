//! Bytecode, the pointer into it, and the machine that runs it.

use crate::pl::stack::{PlEntry, PlStack, PlStackElement, PlStackView};
use crate::pv::{Pv, PvValue};
use std::rc::Rc;
use vstd::prelude::*;

verus! {

/// One instruction of the machine.
#[derive(Debug, Clone, Copy, PartialEq, Eq, Structural)]
pub enum PlInstruction {
    /// Does nothing.
    Nop,
    /// Emits a greeting.
    Hey,
    /// Moves the program counter by the offset, counted from the instruction
    /// that follows the jump.
    Jump(isize),
    /// Ends the run with the value on top of the stack, which stays there.
    Return,
    /// Ends the run with the null value.
    ReturnNull,
    /// Pushes the integer.
    PushInt(isize),
    /// Pushes the null value.
    PushNull,
    /// Emits the value on top of the stack.
    PrintTop,
    /// Emits the whole stack.
    Debug,
    /// Pushes a frame marker that holds the program counter.
    PushFrame,
    /// Drops the stack down to and including the last frame marker that is
    /// left, and emits the program counter it held.
    PopFrame,
}

/// A position in a program. Clones share the program; each has a counter of
/// its own.
#[derive(Debug)]
pub struct PlInstructionPointer {
    pub(crate) bytecode: Rc<Vec<PlInstruction>>,
    pub(crate) counter: isize,
}

/// What an instruction pointer stands for: the program and the position.
pub struct PlPosition {
    pub code: Seq<PlInstruction>,
    pub counter: int,
}

impl View for PlInstructionPointer {
    type V = PlPosition;

    open(crate) spec fn view(&self) -> PlPosition {
        PlPosition { code: self.bytecode@, counter: self.counter as int }
    }
}

impl PlInstructionPointer {
    /// A pointer to the first instruction of `bytecode`.
    pub fn new<const N: usize>(bytecode: [PlInstruction; N]) -> (r: Self)
        ensures
            r@.code == bytecode@,
            r@.counter == 0,
    {
        let mut code: Vec<PlInstruction> = Vec::with_capacity(N);
        let mut i: usize = 0;
        while i < N
            invariant
                i <= N,
                code@ == bytecode@.take(i as int),
            decreases N - i,
        {
            code.push(bytecode[i]);
            proof {
                assert(bytecode@.take(i as int).push(bytecode@[i as int]) =~= bytecode@.take(
                    i + 1,
                ));
            }
            i = i + 1;
        }
        proof {
            assert(bytecode@.take(N as int) =~= bytecode@);
        }
        PlInstructionPointer { bytecode: Rc::new(code), counter: 0 }
    }

    /// The instruction pointed to.
    pub fn get(&self) -> (r: PlInstruction)
        requires
            0 <= self@.counter < self@.code.len(),
        ensures
            r == self@.code[self@.counter],
    {
        self.bytecode[self.counter as usize]
    }

    /// The position, counted from the first instruction.
    pub fn counter(&self) -> (r: isize)
        ensures
            r == self@.counter,
    {
        self.counter
    }

    /// Moves the pointer by `n` instructions.
    pub fn advance(&mut self, n: isize)
        requires
            isize::MIN <= old(self)@.counter + n <= isize::MAX,
        ensures
            final(self)@.code == old(self)@.code,
            final(self)@.counter == old(self)@.counter + n,
    {
        self.counter = self.counter + n;
    }
}

impl Clone for PlInstructionPointer {
    /// A pointer to the same position of the same program.
    fn clone(&self) -> (r: Self)
        ensures
            r == *self,
    {
        PlInstructionPointer { bytecode: self.bytecode.clone(), counter: self.counter }
    }
}


/// What a step hands to the outside to be shown. The machine itself shows
/// nothing.
#[derive(Debug)]
pub enum PlOutput {
    /// Nothing.
    Nothing,
    /// The greeting.
    Hey,
    /// The value on top of the stack.
    Top(Pv),
    /// The whole stack.
    Stack(PlStack),
    /// The position that a popped frame held, `None` where there was no
    /// frame to pop.
    Frame(Option<PlInstructionPointer>),
}

/// What an output stands for.
pub enum PlEmitted {
    Nothing,
    Hey,
    Top(PvValue),
    Stack(PlStackView),
    Frame(Option<PlPosition>),
}

impl View for PlOutput {
    type V = PlEmitted;

    open spec fn view(&self) -> PlEmitted {
        match self {
            PlOutput::Nothing => PlEmitted::Nothing,
            PlOutput::Hey => PlEmitted::Hey,
            PlOutput::Top(v) => PlEmitted::Top(v@),
            PlOutput::Stack(s) => PlEmitted::Stack(s@),
            PlOutput::Frame(Some(p)) => PlEmitted::Frame(Some(p@)),
            PlOutput::Frame(None) => PlEmitted::Frame(None),
        }
    }
}

/// What one step gave: what is to be shown, and the result of the run where
/// the step ended it.
#[derive(Debug)]
pub struct PlStep {
    pub output: PlOutput,
    pub result: Option<Pv>,
}

/// What an optional value stands for.
pub open spec fn result_of(r: Option<Pv>) -> Option<PvValue> {
    match r {
        Some(v) => Some(v@),
        None => None,
    }
}

/// What a machine stands for: the position in the program, and the stack.
pub struct PlStateView {
    pub position: PlPosition,
    pub stack: PlStackView,
}

impl PlStateView {
    /// The instruction that the next step executes.
    pub open spec fn instruction(self) -> PlInstruction {
        self.position.code[self.position.counter]
    }

    /// Whether the next step can be taken: the stack is in order, the
    /// program counter points to an instruction, and that instruction finds
    /// what it needs. `Return` and `PrintTop` need an operand on top; a push
    /// needs a stack that can still grow; a jump needs a target that a
    /// program counter can hold.
    pub open spec fn can_step(self) -> bool {
        &&& self.stack.wf()
        &&& 0 <= self.position.counter < self.position.code.len()
        &&& self.position.counter + 1 <= isize::MAX
        &&& match self.instruction() {
            PlInstruction::Jump(offset) => isize::MIN <= self.position.counter + 1 + offset
                <= isize::MAX,
            PlInstruction::Return | PlInstruction::PrintTop => self.stack.has_top(),
            PlInstruction::PushInt(_) | PlInstruction::PushNull => self.stack.entries.len()
                < usize::MAX,
            PlInstruction::PushFrame => self.stack.entries.len() <= isize::MAX,
            _ => true,
        }
    }

    /// The position of the instruction that follows.
    pub open spec fn following(self) -> PlPosition {
        PlPosition { code: self.position.code, counter: self.position.counter + 1 }
    }

    /// The machine after the next step.
    pub open spec fn next(self) -> PlStateView {
        match self.instruction() {
            PlInstruction::Jump(offset) => PlStateView {
                position: PlPosition {
                    code: self.position.code,
                    counter: self.position.counter + 1 + offset,
                },
                stack: self.stack,
            },
            PlInstruction::PushInt(n) => PlStateView {
                position: self.following(),
                stack: self.stack.push(PvValue::Int(n)),
            },
            PlInstruction::PushNull => PlStateView {
                position: self.following(),
                stack: self.stack.push(PvValue::Null),
            },
            PlInstruction::PushFrame => PlStateView {
                position: self.following(),
                stack: self.stack.push_frame(self.following()),
            },
            PlInstruction::PopFrame => PlStateView {
                position: self.following(),
                stack: self.stack.pop_frame(),
            },
            _ => PlStateView { position: self.following(), stack: self.stack },
        }
    }

    /// The operand on top of the stack.
    pub open spec fn top(self) -> PvValue
        recommends
            self.stack.has_top(),
    {
        self.stack.entries.last()->Value_0
    }

    /// The result of the run where the next step ends it.
    pub open spec fn result(self) -> Option<PvValue> {
        match self.instruction() {
            PlInstruction::Return => Some(self.top()),
            PlInstruction::ReturnNull => Some(PvValue::Null),
            _ => None,
        }
    }

    /// What the next step hands out to be shown.
    pub open spec fn output(self) -> PlEmitted {
        match self.instruction() {
            PlInstruction::Hey => PlEmitted::Hey,
            PlInstruction::PrintTop => PlEmitted::Top(self.top()),
            PlInstruction::Debug => PlEmitted::Stack(self.stack),
            PlInstruction::PopFrame => PlEmitted::Frame(self.stack.return_address()),
            _ => PlEmitted::Nothing,
        }
    }

    /// Whether up to `n` steps can be taken from here, one after the other,
    /// the last of them no later than the step that ends the run.
    pub open spec fn runs(self, n: nat) -> bool
        decreases n,
    {
        n == 0 || (self.can_step() && (self.result() is Some || self.next().runs((n - 1) as nat)))
    }

    /// The result of taking up to `n` steps: that of the step that ends the
    /// run, `None` where none of them does.
    pub open spec fn run_result(self, n: nat) -> Option<PvValue>
        decreases n,
    {
        if n == 0 {
            None
        } else if self.result() is Some {
            self.result()
        } else {
            self.next().run_result((n - 1) as nat)
        }
    }

    /// The machine after up to `n` steps, none taken after the step that
    /// ends the run.
    pub open spec fn run_state(self, n: nat) -> PlStateView
        decreases n,
    {
        if n == 0 {
            self
        } else if self.result() is Some {
            self.next()
        } else {
            self.next().run_state((n - 1) as nat)
        }
    }

    /// Whether the run ends within `n` steps, each of which can be taken.
    pub open spec fn halts_in(self, n: nat) -> bool {
        self.runs(n) && self.run_result(n) is Some
    }
}

/// The machine: a program, a position in it, and a stack.
#[derive(Debug)]
pub struct PlState {
    pub(crate) instruction_pointer: PlInstructionPointer,
    pub(crate) stack: PlStack,
}

impl View for PlState {
    type V = PlStateView;

    open(crate) spec fn view(&self) -> PlStateView {
        PlStateView { position: self.instruction_pointer@, stack: self.stack@ }
    }
}

impl PlState {
    /// A machine at the start of `bytecode`, with an empty stack.
    pub fn new<const N: usize>(bytecode: [PlInstruction; N]) -> (r: Self)
        ensures
            r@.position.code == bytecode@,
            r@.position.counter == 0,
            r@.stack.entries == Seq::<PlEntry>::empty(),
            r@.stack.topframe == -1,
            r@.stack.wf(),
    {
        PlState { instruction_pointer: PlInstructionPointer::new(bytecode), stack: PlStack::new() }
    }

    /// The position in the program.
    pub fn instruction_pointer(&self) -> (r: &PlInstructionPointer)
        ensures
            r@ == self@.position,
    {
        &self.instruction_pointer
    }

    /// The stack.
    pub fn stack(&self) -> (r: &PlStack)
        ensures
            r@ == self@.stack,
    {
        &self.stack
    }

    /// Whether the next step can be taken.
    pub fn can_step(&self) -> (r: bool)
        requires
            self@.stack.wf(),
        ensures
            r == self@.can_step(),
    {
        let counter = self.instruction_pointer.counter;
        if counter < 0 || counter == isize::MAX {
            return false;
        }
        if counter as usize >= self.instruction_pointer.bytecode.len() {
            return false;
        }
        match self.instruction_pointer.get() {
            PlInstruction::Jump(offset) => (counter + 1).checked_add(offset).is_some(),
            PlInstruction::Return | PlInstruction::PrintTop => {
                self.stack.len() > 0 && match self.stack.topelement() {
                    PlStackElement::Value(_) => true,
                    PlStackElement::Frame(_) => false,
                }
            },
            PlInstruction::PushInt(_) | PlInstruction::PushNull => self.stack.len() < usize::MAX,
            PlInstruction::PushFrame => self.stack.len() <= isize::MAX as usize,
            _ => true,
        }
    }

    /// Executes one instruction and says what is to be shown for it.
    pub fn step(&mut self) -> (r: PlStep)
        requires
            old(self)@.can_step(),
        ensures
            final(self)@ == old(self)@.next(),
            final(self)@.stack.wf(),
            result_of(r.result) == old(self)@.result(),
            r.output@ == old(self)@.output(),
    {
        let instruction = self.instruction_pointer.get();
        self.instruction_pointer.advance(1);
        match instruction {
            PlInstruction::Nop => PlStep { output: PlOutput::Nothing, result: None },
            PlInstruction::Hey => PlStep { output: PlOutput::Hey, result: None },
            PlInstruction::Jump(offset) => {
                self.instruction_pointer.advance(offset);
                PlStep { output: PlOutput::Nothing, result: None }
            },
            PlInstruction::Return => PlStep {
                output: PlOutput::Nothing,
                result: Some(self.stack.top()),
            },
            PlInstruction::ReturnNull => PlStep {
                output: PlOutput::Nothing,
                result: Some(Pv::null()),
            },
            PlInstruction::PushInt(n) => {
                self.stack.push(Pv::integer(n));
                PlStep { output: PlOutput::Nothing, result: None }
            },
            PlInstruction::PushNull => {
                self.stack.push(Pv::null());
                PlStep { output: PlOutput::Nothing, result: None }
            },
            PlInstruction::PrintTop => PlStep {
                output: PlOutput::Top(self.stack.top()),
                result: None,
            },
            PlInstruction::Debug => PlStep {
                output: PlOutput::Stack(self.stack.clone()),
                result: None,
            },
            PlInstruction::PushFrame => {
                self.stack.push_frame(self.instruction_pointer.clone());
                PlStep { output: PlOutput::Nothing, result: None }
            },
            PlInstruction::PopFrame => {
                proof {
                    crate::pl::stack::lemma_pop_frame_linked(self.stack@);
                }
                PlStep { output: PlOutput::Frame(self.stack.pop_frame()), result: None }
            },
        }
    }

    /// Executes one instruction. Returns the result of the run where the
    /// instruction ends it.
    pub fn executeone(&mut self) -> (r: Option<Pv>)
        requires
            old(self)@.can_step(),
        ensures
            final(self)@ == old(self)@.next(),
            final(self)@.stack.wf(),
            result_of(r) == old(self)@.result(),
    {
        self.step().result
    }

    /// Executes up to `steps` instructions and stops after the one that ends
    /// the run. Returns the result of the run where it ended.
    pub fn executesteps(&mut self, steps: u32) -> (r: Option<Pv>)
        requires
            old(self)@.stack.wf(),
            old(self)@.runs(steps as nat),
        ensures
            final(self)@ == old(self)@.run_state(steps as nat),
            final(self)@.stack.wf(),
            result_of(r) == old(self)@.run_result(steps as nat),
    {
        let mut done: u32 = 0;
        while done < steps
            invariant
                done <= steps,
                self@.stack.wf(),
                self@.runs((steps - done) as nat),
                old(self)@.run_state(steps as nat) == self@.run_state((steps - done) as nat),
                old(self)@.run_result(steps as nat) == self@.run_result((steps - done) as nat),
            decreases steps - done,
        {
            if let Some(value) = self.executeone() {
                return Some(value);
            }
            done = done + 1;
        }
        None
    }

    /// Executes instructions until one ends the run, and returns the result.
    /// The run must end: `n` steps are taken where it ends with the `n`-th.
    pub fn execute(&mut self) -> (r: Pv)
        requires
            exists|n: nat| old(self)@.halts_in(n),
        ensures
            forall|n: nat| #[trigger]
                old(self)@.halts_in(n) ==> Some(r@) == old(self)@.run_result(n) && final(self)@
                    == old(self)@.run_state(n),
            final(self)@.stack.wf(),
    {
        let ghost start = self@;
        let ghost bound = choose|n: nat| start.halts_in(n);
        let ghost mut done: nat = 0;
        loop
            invariant
                start == old(self)@,
                done < bound,
                start.halts_in(bound),
                forall|n: nat| #[trigger]
                    start.halts_in(n) ==> n >= done && self@.halts_in((n - done) as nat)
                        && start.run_result(n) == self@.run_result((n - done) as nat)
                        && start.run_state(n) == self@.run_state((n - done) as nat),
            decreases bound - done,
        {
            proof {
                assert(self@.halts_in((bound - done) as nat));
            }
            let ghost before = self@;
            if let Some(value) = self.executeone() {
                proof {
                    assert forall|n: nat| #[trigger] start.halts_in(n) implies Some(value@)
                        == start.run_result(n) && self@ == start.run_state(n) by {
                        assert(before.halts_in((n - done) as nat));
                    }
                }
                return value;
            }
            proof {
                assert forall|n: nat| #[trigger] start.halts_in(n) implies n >= done + 1
                    && self@.halts_in((n - (done + 1)) as nat) && start.run_result(n)
                    == self@.run_result((n - (done + 1)) as nat) && start.run_state(n)
                    == self@.run_state((n - (done + 1)) as nat) by {
                    assert(before.halts_in((n - done) as nat));
                }
                done = done + 1;
            }
        }
    }
}

}
