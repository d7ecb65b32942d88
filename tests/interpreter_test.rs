use libheadugh::brackets::{validate, StructuralError};
use libheadugh::instruction::{instruction_of_str, Instruction};
use libheadugh::interpreter::{Action, ExecError, Interpreter, ReadResult, BUFFER_SIZE};
use libheadugh::interpreter_config::{EOFBehaviour, InterpreterConfig};
use libheadugh::parser::{parse, parse_graphemes};
use libheadugh::runner::{execute_program, RunReport, RunStatus};
use libheadugh::{execute, execute_with_default_config};

const STEPS: usize = 10_000_000;

fn finished(report: RunReport) -> Vec<u8> {
    assert_eq!(report.status, RunStatus::Finished);
    report.output
}

/// Runs a program that must never read, driving the engine directly.
fn run_without_input(program: &str) -> Vec<u8> {
    let mut engine = Interpreter::new(parse(program).unwrap(), InterpreterConfig::default());
    let mut out = Vec::new();
    loop {
        match engine.execute() {
            Ok(Action::Continue) => {}
            Ok(Action::Emit(mut b)) => out.append(&mut b),
            Ok(Action::Halted(mut b)) => {
                out.append(&mut b);
                return out;
            }
            Ok(Action::NeedInput) => panic!("Program read but was not meant to!"),
            Err(e) => panic!("run failed: {:?}", e),
        }
    }
}

fn plus(n: usize) -> String {
    "+".repeat(n)
}

#[test]
fn test_thirty_three_increments() {
    let program = format!("{}.", plus(33));
    let out = finished(execute_with_default_config(&program, &[], STEPS));
    assert_eq!(out, vec![33u8]);
}

#[test]
fn test_exclamation_mark() {
    // 3 * 3 * 4 - 3 == 33, built with nested loops from a zero cell.
    let program = "+++[>+++[>++++<-]<-]>>---.";
    let out = run_without_input(program);
    assert_eq!(std::str::from_utf8(&out).unwrap(), "!");
}

#[test]
fn test_wikipedia_hello_world() {
    let program = "++++++++[>++++[>++>+++>+++>+<<<<-]>+>+>->>+[<]<-]>>.>---.+++++++..+++.>>.<-.<.+++.------.--------.>>+.>++.";
    let out = run_without_input(program);
    assert_eq!(std::str::from_utf8(&out).unwrap(), "Hello World!\n");
}

#[test]
fn test_obscure_issue_h() {
    let program = "[]++++++++++[>>+>+>++++++[<<+<+++>>>-]<<<<-]\n\"A*$\";?@![#>>+<<]>[>>]<<<<[>++<[-]]>.>.";
    let out = run_without_input(program);
    assert_eq!(std::str::from_utf8(&out).unwrap(), "H\n");
}

#[test]
fn test_rot13_io() {
    // Ends when a read leaves its cell at 255, so end of input must leave the
    // cell unchanged.
    let program = "-,+[-[>>++++[>++++++++<-]<+<-[>+>+>-[>>>]<[[>+<-]>>+>]<<<<<-]]>>>[-]+>--[-[<->+++[-]]]<[++++++++++++<[>-[>+>>]>[+[<+>-]>+>>]<<<<<-]>>[<+>-]>[-[-<<[-]>>]<<[<<->>-]>>]<<[<<+>>-]]<[-]<.[-]<-,+]";
    let config = InterpreterConfig::new(EOFBehaviour::Unchanged);
    let out = finished(execute(program, b"~mlk zyx", config, STEPS));
    assert_eq!(std::str::from_utf8(&out).unwrap(), "~zyx mlk");
}

#[test]
fn test_echo_until_zero() {
    let out = finished(execute_with_default_config(",[.,]", b"~mlk zyx", STEPS));
    assert_eq!(std::str::from_utf8(&out).unwrap(), "~mlk zyx");
}

#[test]
fn test_read_none() {
    let program = format!("{},.", plus(33));
    let config = InterpreterConfig::new(EOFBehaviour::Unchanged);
    let out = finished(execute(&program, &[], config, STEPS));
    assert_eq!(std::str::from_utf8(&out).unwrap(), "!");
}

#[test]
fn test_read_zero() {
    let program = format!(",{}.", plus(33));
    let config = InterpreterConfig::new(EOFBehaviour::Zero);
    let out = finished(execute(&program, &[], config, STEPS));
    assert_eq!(std::str::from_utf8(&out).unwrap(), "!");
}

#[test]
fn test_read_max() {
    let config = InterpreterConfig::new(EOFBehaviour::MaxValue);
    let out = finished(execute("+,.", &[], config, STEPS));
    assert_eq!(out[0], 255);
}

#[test]
fn test_read_takes_input_before_policy() {
    let config = InterpreterConfig::new(EOFBehaviour::MaxValue);
    let out = finished(execute(",.,.,.", &[7, 8], config, STEPS));
    assert_eq!(out, vec![7, 8, 255]);
}

#[test]
fn test_default_config_is_zero() {
    let config: InterpreterConfig = Default::default();
    assert_eq!(config.eof, EOFBehaviour::Zero);
    assert_eq!(InterpreterConfig::new(EOFBehaviour::MaxValue).eof, EOFBehaviour::MaxValue);
}

#[test]
fn test_decrement_wraps_below_zero() {
    let out = finished(execute_with_default_config("-.", &[], STEPS));
    assert_eq!(out, vec![255]);
}

#[test]
fn test_increment_wraps_above_max() {
    let program = format!("{}.{}.", plus(255), plus(1));
    let out = finished(execute_with_default_config(&program, &[], STEPS));
    assert_eq!(out, vec![255, 0]);
}

#[test]
fn test_left_of_origin_without_travel_fails() {
    let report = execute_with_default_config("<+", &[], STEPS);
    assert_eq!(report.status, RunStatus::Failed(ExecError::OutOfRange));
}

#[test]
fn test_left_of_origin_as_deep_as_travelled() {
    // Travelled one cell right, so one cell left of the origin is reachable:
    // it is the last cell of memory.
    let report = execute_with_default_config(">+<<+++.", &[], STEPS);
    assert_eq!(finished(report), vec![3]);
    let report = execute_with_default_config(">+<<<+", &[], STEPS);
    assert_eq!(report.status, RunStatus::Failed(ExecError::OutOfRange));
}

#[test]
fn test_moving_without_access_never_fails() {
    let program = format!("{}{}+.", ">".repeat(300), "<".repeat(300));
    let out = finished(execute_with_default_config(&program, &[], STEPS));
    assert_eq!(out, vec![1]);
}

#[test]
fn test_last_cell_reachable_and_past_it_fails() {
    let program = format!("{}+.", ">".repeat(255));
    assert_eq!(finished(execute_with_default_config(&program, &[], STEPS)), vec![1]);
    let program = format!("{}+", ">".repeat(256));
    let report = execute_with_default_config(&program, &[], STEPS);
    assert_eq!(report.status, RunStatus::Failed(ExecError::OutOfRange));
}

#[test]
fn test_far_left_reaches_cell_one() {
    // After travelling 255 cells right, the pointer may go 255 cells left of
    // the origin, which is cell 1, but not 256.
    let program = format!("{}{}+.", ">".repeat(255), "<".repeat(510));
    assert_eq!(finished(execute_with_default_config(&program, &[], STEPS)), vec![1]);
    let program = format!("{}{}+", ">".repeat(300), "<".repeat(556));
    let report = execute_with_default_config(&program, &[], STEPS);
    assert_eq!(report.status, RunStatus::Failed(ExecError::OutOfRange));
}

#[test]
fn test_negative_address_shares_cell_with_wrap() {
    // Cell 255 reached from the right and from the left is the same cell.
    let program = format!("{}+{}+.", ">".repeat(255), "<".repeat(256));
    assert_eq!(finished(execute_with_default_config(&program, &[], STEPS)), vec![2]);
}

#[test]
fn test_unmatched_open() {
    let report = execute_with_default_config("[+", &[], STEPS);
    assert_eq!(report.status, RunStatus::Failed(ExecError::UnmatchedOpen));
}

#[test]
fn test_unmatched_close() {
    let report = execute_with_default_config("+]", &[], STEPS);
    assert_eq!(report.status, RunStatus::Failed(ExecError::UnmatchedClose));
}

#[test]
fn test_unmatched_brackets_unseen_when_not_taken() {
    assert_eq!(finished(execute_with_default_config("+[.-", &[], STEPS)), vec![1]);
    assert_eq!(finished(execute_with_default_config("].", &[], STEPS)), vec![0]);
}

#[test]
fn test_loop_skipped_on_zero_cell() {
    let out = finished(execute_with_default_config("[+.[.]]+.", &[], STEPS));
    assert_eq!(out, vec![1]);
}

#[test]
fn test_loop_runs_until_cell_is_zero() {
    let out = finished(execute_with_default_config("+++[.-]", &[], STEPS));
    assert_eq!(out, vec![3, 2, 1]);
}

#[test]
fn test_endless_loop_hits_step_limit() {
    let report = execute_with_default_config("+.[]", &[], 1000);
    assert_eq!(report.status, RunStatus::StepLimitReached);
    assert!(report.output.len() <= 1);
}

#[test]
fn test_output_is_the_same_across_buffer_flushes() {
    let input: Vec<u8> = (0..1000u32).map(|k| (k % 255 + 1) as u8).collect();
    let out = finished(execute_with_default_config(",[.,]", &input, STEPS));
    assert_eq!(out, input);
}

#[test]
fn test_failure_keeps_only_emitted_output() {
    let mut program = ".".repeat(300);
    program.push_str("<+");
    let report = execute_with_default_config(&program, &[], STEPS);
    assert_eq!(report.status, RunStatus::Failed(ExecError::OutOfRange));
    assert_eq!(report.output, vec![0u8; BUFFER_SIZE - 1]);
}

#[test]
fn test_engine_emits_full_buffer_in_batches() {
    let program = parse(&".".repeat(600)).unwrap();
    let mut engine = Interpreter::new(program, InterpreterConfig::default());
    let mut batches: Vec<usize> = Vec::new();
    loop {
        match engine.execute() {
            Ok(Action::Continue) => {}
            Ok(Action::Emit(b)) => batches.push(b.len()),
            Ok(Action::Halted(b)) => {
                batches.push(b.len());
                break;
            }
            other => panic!("unexpected {:?}", other),
        }
    }
    assert_eq!(batches, vec![255, 255, 90]);
}

#[test]
fn test_engine_asks_for_input_at_read() {
    let program = parse(",.").unwrap();
    let mut engine = Interpreter::new(program, InterpreterConfig::new(EOFBehaviour::Unchanged));
    assert_eq!(engine.execute(), Ok(Action::NeedInput));
    assert_eq!(engine.execute(), Ok(Action::NeedInput));
    engine.provide_input(ReadResult::Byte(42));
    assert_eq!(engine.execute(), Ok(Action::Continue));
    assert!(engine.is_finished());
    assert_eq!(engine.execute(), Ok(Action::Halted(vec![42])));
}

#[test]
fn test_engine_read_out_of_range_fails_before_input() {
    let program = parse("<,").unwrap();
    let mut engine = Interpreter::new(program, InterpreterConfig::default());
    assert_eq!(engine.execute(), Ok(Action::Continue));
    assert_eq!(engine.execute(), Err(ExecError::OutOfRange));
}

#[test]
fn test_execute_program_on_instructions() {
    let program = vec![Instruction::Increment, Instruction::Write, Instruction::Read, Instruction::Write];
    let report = execute_program(program, &[9], InterpreterConfig::default(), STEPS);
    assert_eq!(finished(report), vec![1, 9]);
}

#[test]
fn test_instruction_of_str_table() {
    let table = [
        (">", Instruction::MoveRight),
        ("<", Instruction::MoveLeft),
        ("+", Instruction::Increment),
        ("-", Instruction::Decrement),
        (".", Instruction::Write),
        (",", Instruction::Read),
        ("[", Instruction::JumpIfZero),
        ("]", Instruction::JumpUnlessZero),
    ];
    for (s, i) in table.iter() {
        assert_eq!(instruction_of_str(s), Some(*i));
        assert_eq!(i.symbol().to_string(), *s);
    }
    assert_eq!(instruction_of_str("a"), None);
    assert_eq!(instruction_of_str(""), None);
    assert_eq!(instruction_of_str("++"), None);
}

#[test]
fn test_parse_drops_commentary() {
    let program = parse("a+b-c\n. é,").unwrap();
    assert_eq!(
        program,
        vec![Instruction::Increment, Instruction::Decrement, Instruction::Write, Instruction::Read]
    );
}

#[test]
fn test_parse_keeps_clusters_whole() {
    // A plus sign followed by a combining accent is one cluster, and not an
    // operation.
    let program = parse("+\u{301}.").unwrap();
    assert_eq!(program, vec![Instruction::Write]);
    let units = vec!["+\u{301}", "+", "x"];
    assert_eq!(parse_graphemes(&units), vec![Instruction::Increment]);
}

#[test]
fn test_validate_balanced_programs() {
    assert_eq!(validate(&parse("").unwrap()), Ok(()));
    assert_eq!(validate(&parse("+[>[-]<-]").unwrap()), Ok(()));
    assert_eq!(validate(&parse("[][[]]").unwrap()), Ok(()));
}

#[test]
fn test_validate_reports_unmatched_brackets() {
    assert_eq!(validate(&parse("[[]").unwrap()), Err(StructuralError::UnmatchedOpen));
    assert_eq!(validate(&parse("[]]").unwrap()), Err(StructuralError::UnmatchedClose));
    assert_eq!(validate(&parse("][").unwrap()), Err(StructuralError::UnmatchedClose));
    assert_eq!(validate(&parse("+[.-").unwrap()), Err(StructuralError::UnmatchedOpen));
}
