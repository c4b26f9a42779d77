//! Coroutines over files of numbers, one number to a line: what a line read yields, what
//! is written for a number, and when copying from one file to another stops.

use vstd::prelude::*;
use vstd::string::*;

use crate::decimal;

verus! {

/// What a coroutine gave back when it was resumed.
#[derive(Debug, PartialEq, Eq)]
pub enum CoroutineState<Y, R> {
    /// A value; the coroutine can be resumed again.
    Yielded(Y),
    /// The last value.
    Complete(R),
}

/// What asking a file for its next line gave.
#[derive(Debug)]
pub enum LineRead {
    /// A line, without its end.
    Line(String),
    /// The line could not be read.
    Failed,
    /// There are no more lines.
    End,
}

impl LineRead {
    /// The number that the line holds, if there is a line and it holds a number.
    pub open spec fn number(self) -> Option<i32> {
        match self {
            LineRead::Line(text) => decimal::parsed_i32(text@),
            LineRead::Failed => None,
            LineRead::End => None,
        }
    }
}

/// The line that is written for a number, with its end.
pub open spec fn line_of(number: i32) -> Seq<char> {
    decimal::signed_decimal(number as int).push('\n')
}

/// Reads numbers from a file.
pub struct ReadCoroutine;

impl ReadCoroutine {
    /// Yields the number of the line that was read, and completes where there is none.
    pub fn resume(read: LineRead) -> (state: CoroutineState<i32, ()>)
        ensures
            state == (match read.number() {
                Some(number) => CoroutineState::<i32, ()>::Yielded(number),
                None => CoroutineState::Complete(()),
            }),
    {
        match ReadCoroutine::resume_with_input(read) {
            Some(number) => CoroutineState::Yielded(number),
            None => CoroutineState::Complete(()),
        }
    }

    /// Gives the number of the line that was read.
    pub fn resume_with_input(read: LineRead) -> (number: Option<i32>)
        ensures
            number == read.number(),
    {
        match read {
            LineRead::Line(text) => decimal::parse_i32(text.as_str()),
            LineRead::Failed => None,
            LineRead::End => None,
        }
    }
}

/// Writes numbers to a file.
pub struct WriteCoroutine;

impl WriteCoroutine {
    /// The text to append to the file for a number.
    pub fn resume(number: i32) -> (text: String)
        ensures
            text@ == line_of(number),
    {
        let mut text = decimal::signed_decimal_text(number);
        proof {
            reveal_strlit("\n");
        }
        text.append("\n");
        assert(text@ =~= line_of(number));
        text
    }
}

/// What the manager does after it resumed the reader.
#[derive(Debug)]
pub enum ManagerStep {
    /// Append this text to the file that is written, and resume the reader again.
    Write(String),
    /// Stop.
    Stop,
}

/// Copies numbers from the reader to the writer.
pub struct CoroutineManager;

impl CoroutineManager {
    /// Hands a number that was read on to the writer, and stops at the first line that
    /// gives none.
    pub fn run_step(read: LineRead) -> (step: ManagerStep)
        ensures
            match read.number() {
                Some(number) => step matches ManagerStep::Write(text) && text@ == line_of(number),
                None => step == ManagerStep::Stop,
            },
    {
        match ReadCoroutine::resume(read) {
            CoroutineState::Yielded(number) => ManagerStep::Write(WriteCoroutine::resume(number)),
            CoroutineState::Complete(()) => ManagerStep::Stop,
        }
    }
}

/// What the writer appends for some numbers, one after the other.
pub open spec fn text_of(numbers: Seq<i32>) -> Seq<char>
    decreases numbers.len(),
{
    if numbers.len() == 0 {
        Seq::empty()
    } else {
        line_of(numbers[0]) + text_of(numbers.skip(1))
    }
}

/// What a whole run of the manager appends, where the reader is given these lines one
/// after the other.
pub open spec fn run_text(reads: Seq<LineRead>) -> Seq<char>
    decreases reads.len(),
{
    if reads.len() == 0 {
        Seq::empty()
    } else {
        match reads[0].number() {
            Some(number) => line_of(number) + run_text(reads.skip(1)),
            None => Seq::empty(),
        }
    }
}

/// Where the first line of a text ends: at its first line feed, or at its own end.
pub open spec fn line_end(text: Seq<char>) -> nat
    decreases text.len(),
{
    if text.len() == 0 || text[0] == '\n' {
        0
    } else {
        1 + line_end(text.skip(1))
    }
}

/// A line without the carriage return that may stand before its line feed.
pub open spec fn without_return(line: Seq<char>) -> Seq<char> {
    if line.len() > 0 && line.last() == '\r' {
        line.drop_last()
    } else {
        line
    }
}

/// The lines of a text, without their ends. Behind the last line feed there is a line only
/// where the text goes on.
pub open spec fn lines_of(text: Seq<char>) -> Seq<Seq<char>>
    decreases text.len(),
{
    if text.len() == 0 {
        Seq::empty()
    } else if line_end(text) < text.len() {
        seq![without_return(text.take(line_end(text) as int))] + lines_of(
            text.skip(line_end(text) as int + 1),
        )
    } else {
        seq![text]
    }
}

/// Whether these are the reads of a file that holds a text: its lines, then the end of the
/// file.
pub open spec fn reads_of(text: Seq<char>, reads: Seq<LineRead>) -> bool {
    let lines = lines_of(text);
    &&& reads.len() == lines.len() + 1
    &&& forall|i: int|
        0 <= i < lines.len() ==> (#[trigger] reads[i] matches LineRead::Line(line) && line@
            == lines[i])
    &&& reads[lines.len() as int] is End
}

/// A line that was written for a number is read as that number.
pub proof fn written_line_is_read_back(number: i32, text: String)
    requires
        text@.push('\n') == line_of(number),
    ensures
        LineRead::Line(text).number() == Some(number),
{
    assert(text@ =~= text@.push('\n').drop_last());
    assert(text@ =~= decimal::signed_decimal(number as int)) by {
        assert(line_of(number).drop_last() =~= decimal::signed_decimal(number as int));
    }
    decimal::i32_text_is_read_back(number);
}

/// A line without a line feed ends where the line feed behind it stands.
proof fn line_ends_at_its_line_feed(line: Seq<char>, rest: Seq<char>)
    requires
        !line.contains('\n'),
    ensures
        line_end(line.push('\n') + rest) == line.len(),
    decreases line.len(),
{
    let text = line.push('\n') + rest;
    if line.len() > 0 {
        assert(text[0] == line[0]);
        assert(line.contains(line[0]));
        assert forall|c: char| line.skip(1).contains(c) implies line.contains(c) by {
            let k = choose|k: int| 0 <= k < line.skip(1).len() && line.skip(1)[k] == c;
            assert(line[k + 1] == c);
        }
        assert(text.skip(1) =~= line.skip(1).push('\n') + rest);
        line_ends_at_its_line_feed(line.skip(1), rest);
    } else {
        assert(text[0] == '\n');
    }
}

/// The lines of a file that was written for some numbers are the numbers in decimal, one to
/// a line and in their order.
pub proof fn written_lines_are_the_numbers(numbers: Seq<i32>)
    ensures
        lines_of(text_of(numbers)) == numbers.map_values(
            |number: i32| decimal::signed_decimal(number as int),
        ),
    decreases numbers.len(),
{
    let texts = numbers.map_values(|number: i32| decimal::signed_decimal(number as int));
    if numbers.len() > 0 {
        let rest = numbers.skip(1);
        let line = decimal::signed_decimal(numbers[0] as int);
        let text = text_of(numbers);
        decimal::number_text_is_one_line(numbers[0] as int);
        line_ends_at_its_line_feed(line, text_of(rest));
        written_lines_are_the_numbers(rest);
        assert(text.take(line.len() as int) =~= line);
        assert(text.skip(line.len() as int + 1) =~= text_of(rest));
        assert(without_return(line) == line) by {
            if line.len() > 0 {
                assert(line.contains(line.last()));
            }
        }
        assert(lines_of(text) =~= texts);
    } else {
        assert(lines_of(text_of(numbers)) =~= texts);
    }
}

/// What a run appends whose reads are the lines of a file that was written for some numbers.
proof fn run_copies_written_lines(numbers: Seq<i32>, reads: Seq<LineRead>)
    requires
        reads.len() == numbers.len() + 1,
        forall|i: int|
            0 <= i < numbers.len() ==> (#[trigger] reads[i] matches LineRead::Line(text)
                && text@.push('\n') == line_of(numbers[i])),
        reads[numbers.len() as int] is End,
    ensures
        run_text(reads) == text_of(numbers),
    decreases numbers.len(),
{
    if numbers.len() > 0 {
        assert(reads[0] is Line);
        written_line_is_read_back(numbers[0], reads[0]->Line_0);
        assert forall|i: int| 0 <= i < numbers.skip(1).len() implies (#[trigger] reads.skip(1)[i] matches
            LineRead::Line(text) && text@.push('\n') == line_of(numbers.skip(1)[i])) by {
            assert(reads.skip(1)[i] == reads[i + 1]);
        }
        run_copies_written_lines(numbers.skip(1), reads.skip(1));
    } else {
        assert(reads[0] is End);
    }
}

/// A run over a file that the writer has written copies it, character by character.
pub proof fn run_copies_a_written_file(numbers: Seq<i32>, reads: Seq<LineRead>)
    requires
        reads_of(text_of(numbers), reads),
    ensures
        run_text(reads) == text_of(numbers),
{
    written_lines_are_the_numbers(numbers);
    assert forall|i: int| 0 <= i < numbers.len() implies (#[trigger] reads[i] matches LineRead::Line(
        text,
    ) && text@.push('\n') == line_of(numbers[i])) by {
        assert(reads[i] is Line);
    }
    run_copies_written_lines(numbers, reads);
}

/// A run ends at the first line that gives no number: nothing behind it matters.
pub proof fn run_stops_where_no_number_is(reads: Seq<LineRead>, stop: int)
    requires
        0 <= stop < reads.len(),
        reads[stop].number() is None,
    ensures
        run_text(reads) == run_text(reads.take(stop)),
    decreases stop,
{
    if stop > 0 {
        assert(reads.take(stop).skip(1) =~= reads.skip(1).take(stop - 1));
        run_stops_where_no_number_is(reads.skip(1), stop - 1);
    }
}

/// What is written for a number is its digits and a line feed: a minus sign first exactly
/// where the number is negative, then digits whose positional value in base ten is the size
/// of the number. `value` stands for the positional value: nothing is worth zero, and a
/// further digit makes ten times as much and the digit.
pub proof fn written_line_is_worth_the_number(
    number: i32,
    line: String,
    value: spec_fn(Seq<char>) -> int,
)
    requires
        value(Seq::<char>::empty()) == 0,
        forall|s: Seq<char>, c: char| #[trigger]
            value(s.push(c)) == 10 * value(s) + (c as int - '0' as int),
        call_ensures(WriteCoroutine::resume, (number,), line),
    ensures
        line@.len() > 1,
        line@.last() == '\n',
        line@[0] == '-' <==> number < 0,
        ({
            let digits = if number < 0 { line@.drop_last().skip(1) } else { line@.drop_last() };
            &&& digits.len() > 0
            &&& forall|k: int|
                0 <= k < digits.len() ==> '0' as int <= (#[trigger] digits[k]) as int <= '9' as int
            &&& value(digits) == if number < 0 { -(number as int) } else { number as int }
        }),
{
    let text = decimal::signed_decimal(number as int);
    decimal::signed_decimal_is_worth_the_number(number as int, value);
    assert(line@.drop_last() =~= text);
    let digits = if number < 0 { text.skip(1) } else { text };
    assert forall|k: int| 0 <= k < digits.len() implies '0' as int <= (
    #[trigger] digits[k]) as int <= '9' as int by {
        assert(digits[k] == text[if number < 0 { k + 1 } else { k }]);
    }
}

/// A line gives a number exactly where it holds one or more digits, with nothing else but
/// one sign before them, and their positional value, taken negative behind a minus sign,
/// fits in 32 bits; and it gives that value. The two ways to resume the reader agree.
pub proof fn line_is_read_as_its_worth(
    line: String,
    state: CoroutineState<i32, ()>,
    given: Option<i32>,
    digits: Seq<char>,
    worth: int,
    value: spec_fn(Seq<char>) -> int,
)
    requires
        value(Seq::<char>::empty()) == 0,
        forall|s: Seq<char>, c: char| #[trigger]
            value(s.push(c)) == 10 * value(s) + (c as int - '0' as int),
        digits == if line@.len() > 0 && (line@[0] == '-' || line@[0] == '+') {
            line@.skip(1)
        } else {
            line@
        },
        worth == if line@.len() > 0 && line@[0] == '-' {
            -value(digits)
        } else {
            value(digits)
        },
        call_ensures(ReadCoroutine::resume, (LineRead::Line(line),), state),
        call_ensures(ReadCoroutine::resume_with_input, (LineRead::Line(line),), given),
    ensures
        given is Some <==> {
            &&& digits.len() > 0
            &&& forall|k: int|
                0 <= k < digits.len() ==> '0' as int <= (#[trigger] digits[k]) as int <= '9' as int
            &&& -2147483648 <= worth <= 2147483647
        },
        given matches Some(number) ==> {
            &&& number == worth
            &&& state == CoroutineState::<i32, ()>::Yielded(number)
        },
        given is None ==> state == CoroutineState::<i32, ()>::Complete(()),
{
    decimal::parsed_i32_is_the_worth(line@, digits, worth, value);
}

/// Where there is no line, or it could not be read, there is no number.
pub proof fn without_a_line_there_is_no_number(
    read: LineRead,
    state: CoroutineState<i32, ()>,
    given: Option<i32>,
)
    requires
        read is Failed || read is End,
        call_ensures(ReadCoroutine::resume, (read,), state),
        call_ensures(ReadCoroutine::resume_with_input, (read,), given),
    ensures
        state == CoroutineState::<i32, ()>::Complete(()),
        given == None::<i32>,
{
}

/// The line that is written for a number, without its line feed, is read as that number.
pub proof fn number_survives_its_line(
    number: i32,
    written: String,
    line: String,
    state: CoroutineState<i32, ()>,
)
    requires
        call_ensures(WriteCoroutine::resume, (number,), written),
        line@ == written@.drop_last(),
        call_ensures(ReadCoroutine::resume, (LineRead::Line(line),), state),
    ensures
        state == CoroutineState::<i32, ()>::Yielded(number),
{
    assert(line@.push('\n') =~= line_of(number));
    written_line_is_read_back(number, line);
}

/// The manager writes what the writer writes for the number that the reader yields, and
/// stops exactly where the reader completes.
pub proof fn manager_joins_reader_and_writer(
    read: LineRead,
    state: CoroutineState<i32, ()>,
    step: ManagerStep,
    number: i32,
    written: String,
)
    requires
        call_ensures(ReadCoroutine::resume, (read,), state),
        call_ensures(CoroutineManager::run_step, (read,), step),
        call_ensures(WriteCoroutine::resume, (number,), written),
    ensures
        state is Complete <==> step is Stop,
        state == CoroutineState::<i32, ()>::Yielded(number) ==> (step matches ManagerStep::Write(
            text,
        ) && text@ == written@),
{
}

} // verus!
