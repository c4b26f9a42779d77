use async_patterns::coroutine::{
    CoroutineManager, CoroutineState, LineRead, ManagerStep, ReadCoroutine, WriteCoroutine,
};

fn line(text: &str) -> LineRead {
    LineRead::Line(text.to_string())
}

fn run(reads: Vec<LineRead>) -> String {
    let mut text = String::new();
    for read in reads {
        match CoroutineManager::run_step(read) {
            ManagerStep::Write(line) => text.push_str(&line),
            ManagerStep::Stop => return text,
        }
    }
    text
}

#[test]
fn reader_yields_numbers() {
    assert_eq!(ReadCoroutine::resume(line("17")), CoroutineState::Yielded(17));
    assert_eq!(ReadCoroutine::resume(line("-2147483648")), CoroutineState::Yielded(i32::MIN));
    assert_eq!(ReadCoroutine::resume_with_input(line("17")), Some(17));
}

#[test]
fn reader_completes_without_a_number() {
    for text in ["", "seventeen", "17 ", "2147483648"] {
        assert_eq!(ReadCoroutine::resume(line(text)), CoroutineState::Complete(()));
        assert_eq!(ReadCoroutine::resume_with_input(line(text)), None);
    }
    assert_eq!(ReadCoroutine::resume(LineRead::Failed), CoroutineState::Complete(()));
    assert_eq!(ReadCoroutine::resume(LineRead::End), CoroutineState::Complete(()));
    assert_eq!(ReadCoroutine::resume_with_input(LineRead::Failed), None);
    assert_eq!(ReadCoroutine::resume_with_input(LineRead::End), None);
}

#[test]
fn writer_writes_one_number_to_a_line() {
    assert_eq!(WriteCoroutine::resume(0), "0\n");
    assert_eq!(WriteCoroutine::resume(-15), "-15\n");
    assert_eq!(WriteCoroutine::resume(i32::MAX), "2147483647\n");
}

#[test]
fn manager_copies_a_written_file() {
    let numbers = [5, -6, 0, i32::MIN, i32::MAX, 100];
    let mut file = String::new();
    for number in numbers.iter() {
        file.push_str(&WriteCoroutine::resume(*number));
    }
    let lines: Vec<&str> = file.lines().collect();
    assert_eq!(lines, vec!["5", "-6", "0", "-2147483648", "2147483647", "100"]);
    let mut reads: Vec<LineRead> = lines.into_iter().map(line).collect();
    reads.push(LineRead::End);
    assert_eq!(reads.len(), numbers.len() + 1);
    assert_eq!(run(reads), file);
}

#[test]
fn manager_stops_at_the_first_line_without_a_number() {
    assert_eq!(run(vec![line("+1"), line("002"), line("x"), line("3")]), "1\n2\n");
    assert_eq!(run(vec![line("1"), LineRead::Failed, line("2")]), "1\n");
    assert_eq!(run(vec![LineRead::End]), "");
    assert!(matches!(CoroutineManager::run_step(LineRead::End), ManagerStep::Stop));
}
