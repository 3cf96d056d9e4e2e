use plrs::pl::bytecode::{PlInstructionPointer, PlOutput};
use plrs::pl::stack::PlStack;
use plrs::{PlInstruction, PlState, Pv};

fn pointer_at(counter: isize) -> PlInstructionPointer {
    let mut pointer = PlInstructionPointer::new([PlInstruction::Nop; 8]);
    pointer.advance(counter);
    pointer
}

#[test]
fn instruction_pointer_reads_and_moves() {
    let mut pointer = PlInstructionPointer::new([
        PlInstruction::Hey,
        PlInstruction::PushInt(4),
        PlInstruction::Return,
    ]);
    assert_eq!(pointer.counter(), 0);
    assert_eq!(pointer.get(), PlInstruction::Hey);
    pointer.advance(2);
    assert_eq!(pointer.get(), PlInstruction::Return);
    let kept = pointer.clone();
    pointer.advance(-1);
    assert_eq!(pointer.get(), PlInstruction::PushInt(4));
    assert_eq!(kept.counter(), 2);
    assert_eq!(kept.get(), PlInstruction::Return);
}

#[test]
fn stack_pushes_and_pops_operands() {
    let mut stack = PlStack::new();
    assert_eq!(stack.len(), 0);
    stack.push(Pv::integer(1));
    stack.push(Pv::from("two"));
    assert_eq!(stack.len(), 2);
    assert_eq!(stack.top(), Pv::from("two"));
    stack.pop();
    assert_eq!(stack.top(), Pv::integer(1));
    stack.pop();
    assert_eq!(stack.len(), 0);
}

#[test]
fn stack_frames_nest_and_unwind() {
    let mut stack = PlStack::new();
    stack.push(Pv::integer(14));
    stack.push(Pv::integer(3));
    stack.push_frame(pointer_at(1));
    stack.push(Pv::integer(23));
    stack.push_frame(pointer_at(5));
    stack.push(Pv::integer(8));
    assert_eq!(stack.len(), 6);
    assert_eq!(stack.top(), Pv::integer(8));

    let second = stack.pop_frame().expect("the second frame is active");
    assert_eq!(second.counter(), 5);
    assert_eq!(stack.len(), 4);
    assert_eq!(stack.top(), Pv::integer(23));

    let first = stack.pop_frame().expect("the first frame is active");
    assert_eq!(first.counter(), 1);
    assert_eq!(stack.len(), 2);
    assert_eq!(stack.top(), Pv::integer(3));

    assert!(stack.pop_frame().is_none());
    assert_eq!(stack.len(), 2);
    assert_eq!(stack.top(), Pv::integer(3));
}

#[test]
fn popping_a_frame_drops_all_that_was_pushed_since() {
    let mut stack = PlStack::new();
    stack.push_frame(pointer_at(2));
    stack.push(Pv::integer(1));
    stack.push(Pv::integer(2));
    stack.push(Pv::integer(3));
    let back = stack.pop_frame().expect("a frame is active");
    assert_eq!(back.counter(), 2);
    assert_eq!(stack.len(), 0);
    assert!(stack.pop_frame().is_none());
}

#[test]
fn pop_frame_on_a_new_stack_gives_nothing() {
    let mut stack = PlStack::new();
    assert!(stack.pop_frame().is_none());
    assert_eq!(stack.len(), 0);
    stack.push(Pv::null());
    assert!(stack.pop_frame().is_none());
    assert_eq!(stack.top(), Pv::null());
}

#[test]
fn stack_clone_is_not_touched_by_later_pushes() {
    let mut stack = PlStack::new();
    stack.push(Pv::integer(1));
    let kept = stack.clone();
    stack.push(Pv::integer(2));
    stack.push_frame(pointer_at(0));
    assert_eq!(kept.len(), 1);
    assert_eq!(kept.top(), Pv::integer(1));
    assert_eq!(stack.len(), 3);
}

fn sample() -> PlState {
    PlState::new([
        PlInstruction::Hey,
        PlInstruction::PushInt(14),
        PlInstruction::PrintTop,
        PlInstruction::PushInt(3),
        PlInstruction::PrintTop,
        PlInstruction::Debug,
        PlInstruction::PushFrame,
        PlInstruction::PushInt(23),
        PlInstruction::Debug,
        PlInstruction::PushFrame,
        PlInstruction::PushInt(8),
        PlInstruction::Debug,
        PlInstruction::PopFrame,
        PlInstruction::PushInt(17),
        PlInstruction::Debug,
        PlInstruction::PopFrame,
        PlInstruction::Debug,
        PlInstruction::Return,
    ])
}

#[test]
fn sample_program_returns_three() {
    let mut state = sample();
    assert_eq!(state.execute(), Pv::integer(3));
    assert_eq!(state.instruction_pointer().counter(), 18);
    // the result stays on the stack
    assert_eq!(state.stack().len(), 2);
    assert_eq!(state.stack().top(), Pv::integer(3));
}

#[test]
fn sample_program_step_by_step() {
    let mut state = sample();
    let mut shown = Vec::new();
    let result = loop {
        assert!(state.can_step());
        let step = state.step();
        match step.output {
            PlOutput::Nothing => {}
            PlOutput::Hey => shown.push(String::from("hey")),
            PlOutput::Top(value) => shown.push(format!("top {:?}", value)),
            PlOutput::Stack(stack) => shown.push(format!("stack of {}", stack.len())),
            PlOutput::Frame(Some(back)) => shown.push(format!("back to {}", back.counter())),
            PlOutput::Frame(None) => shown.push(String::from("no frame")),
        }
        if let Some(value) = step.result {
            break value;
        }
    };
    assert_eq!(result, Pv::integer(3));
    assert_eq!(
        shown,
        vec![
            "hey",
            "top Int(PvInt(14))",
            "top Int(PvInt(3))",
            "stack of 2",
            "stack of 4",
            "stack of 6",
            "back to 10",
            "stack of 5",
            "back to 7",
            "stack of 2",
        ]
    );
    assert!(!state.can_step());
}

#[test]
fn bounded_run_stops_at_the_limit_or_at_the_end() {
    let mut state = sample();
    assert_eq!(state.executesteps(0), None);
    assert_eq!(state.instruction_pointer().counter(), 0);
    assert_eq!(state.executesteps(5), None);
    assert_eq!(state.instruction_pointer().counter(), 5);
    assert_eq!(state.stack().len(), 2);
    assert_eq!(state.executesteps(12), None);
    assert_eq!(state.instruction_pointer().counter(), 17);
    assert_eq!(state.executesteps(1), Some(Pv::integer(3)));

    let mut whole = sample();
    assert_eq!(whole.executesteps(1000), Some(Pv::integer(3)));
    assert_eq!(whole.instruction_pointer().counter(), 18);
}

#[test]
fn executeone_returns_only_at_the_end() {
    let mut state = PlState::new([
        PlInstruction::Nop,
        PlInstruction::PushInt(7),
        PlInstruction::Return,
    ]);
    assert_eq!(state.executeone(), None);
    assert_eq!(state.executeone(), None);
    assert_eq!(state.executeone(), Some(Pv::integer(7)));
}

#[test]
fn jump_counts_from_the_instruction_that_follows() {
    let mut forward = PlState::new([
        PlInstruction::Jump(1),
        PlInstruction::PushInt(1),
        PlInstruction::PushInt(2),
        PlInstruction::Return,
    ]);
    assert_eq!(forward.executeone(), None);
    assert_eq!(forward.instruction_pointer().counter(), 2);
    assert_eq!(forward.execute(), Pv::integer(2));
    assert_eq!(forward.stack().len(), 1);

    let mut back = PlState::new([
        PlInstruction::PushInt(5),
        PlInstruction::Jump(1),
        PlInstruction::Return,
        PlInstruction::Jump(-2),
    ]);
    assert_eq!(back.execute(), Pv::integer(5));

    let mut still = PlState::new([PlInstruction::Jump(0), PlInstruction::ReturnNull]);
    assert_eq!(still.executeone(), None);
    assert_eq!(still.instruction_pointer().counter(), 1);
}

#[test]
fn return_null_ends_with_null() {
    let mut state = PlState::new([PlInstruction::PushInt(1), PlInstruction::ReturnNull]);
    assert_eq!(state.execute(), Pv::null());
    assert_eq!(state.stack().len(), 1);
    let mut empty = PlState::new([PlInstruction::ReturnNull]);
    assert_eq!(empty.executeone(), Some(Pv::null()));
}

#[test]
fn push_null_pushes_null() {
    let mut state = PlState::new([PlInstruction::PushNull, PlInstruction::Return]);
    assert_eq!(state.execute(), Pv::null());
}

#[test]
fn pop_frame_at_the_start_is_no_fault() {
    let mut state = PlState::new([
        PlInstruction::PopFrame,
        PlInstruction::PushInt(1),
        PlInstruction::Return,
    ]);
    assert!(state.can_step());
    let step = state.step();
    assert!(matches!(step.output, PlOutput::Frame(None)));
    assert!(step.result.is_none());
    assert_eq!(state.stack().len(), 0);
    assert_eq!(state.execute(), Pv::integer(1));
}

#[test]
fn push_frame_holds_the_position_after_it() {
    let mut state = PlState::new([
        PlInstruction::Nop,
        PlInstruction::PushFrame,
        PlInstruction::PopFrame,
        PlInstruction::ReturnNull,
    ]);
    state.executesteps(2);
    let step = state.step();
    match step.output {
        PlOutput::Frame(Some(back)) => assert_eq!(back.counter(), 2),
        _ => panic!("a frame was active"),
    }
    // the program counter goes on where it was
    assert_eq!(state.instruction_pointer().counter(), 3);
}

#[test]
fn debug_output_is_the_stack_as_it_was() {
    let mut state = PlState::new([
        PlInstruction::PushInt(1),
        PlInstruction::Debug,
        PlInstruction::PushInt(2),
        PlInstruction::Return,
    ]);
    state.executeone();
    let step = state.step();
    let seen = match step.output {
        PlOutput::Stack(stack) => stack,
        _ => panic!("the stack is shown"),
    };
    assert_eq!(state.execute(), Pv::integer(2));
    assert_eq!(seen.len(), 1);
    assert_eq!(seen.top(), Pv::integer(1));
}

#[test]
fn machine_says_when_it_cannot_go_on() {
    let empty = PlState::new([]);
    assert!(!empty.can_step());

    let nothing_to_return = PlState::new([PlInstruction::Return]);
    assert!(!nothing_to_return.can_step());
    let nothing_to_print = PlState::new([PlInstruction::PrintTop]);
    assert!(!nothing_to_print.can_step());

    let mut frame_on_top = PlState::new([PlInstruction::PushFrame, PlInstruction::Return]);
    assert!(frame_on_top.can_step());
    frame_on_top.executeone();
    assert!(!frame_on_top.can_step());

    let mut past_the_end = PlState::new([PlInstruction::Nop]);
    assert!(past_the_end.can_step());
    past_the_end.executeone();
    assert!(!past_the_end.can_step());

    let mut before_the_start = PlState::new([PlInstruction::Jump(-2)]);
    assert!(before_the_start.can_step());
    before_the_start.executeone();
    assert_eq!(before_the_start.instruction_pointer().counter(), -1);
    assert!(!before_the_start.can_step());

    let too_far = PlState::new([PlInstruction::Jump(isize::MAX)]);
    assert!(!too_far.can_step());
    let far_back = PlState::new([PlInstruction::Jump(isize::MIN)]);
    assert!(far_back.can_step());
}
