use trace_to_job_input::convert::{Converter, HEADER};
use trace_to_job_input::error::ConversionError;
use trace_to_job_input::field::Field;
use trace_to_job_input::parser::{Progress, RecordParser};
use trace_to_job_input::record::{Number, TraceRecord};
use trace_to_job_input::scan::scan_line;
use trace_to_job_input::text::{chars_of, split_ranges};

fn number(value: f32) -> Number {
    Number::new(value.to_bits(), &value.to_string()).unwrap()
}

fn read_number(token: &str) -> Option<Number> {
    token.parse::<f32>().ok().map(number)
}

fn duration(record: &TraceRecord) -> Number {
    let (time_done, time_started) = record.duration_operands();
    number(f32::from_bits(time_done) - f32::from_bits(time_started))
}

/// Runs a whole trace through the library, doing the arithmetic on floats
/// here. Gives what was written, and the error that ended the run, if any.
fn convert(trace: &str, can_borrow: bool) -> (Vec<String>, Option<ConversionError>) {
    let (mut run, header) = Converter::begin(can_borrow);
    let mut written = vec![header.to_string()];
    for line in trace.lines() {
        let tokens = match run.read(line) {
            Ok(None) => continue,
            Ok(Some(tokens)) => tokens,
            Err(error) => return (written, Some(error)),
        };
        let mut parser = RecordParser::new(tokens);
        let record = loop {
            let outcome = read_number(parser.token());
            match parser.supply(outcome) {
                Ok(Progress::More(next)) => parser = next,
                Ok(Progress::Done(record)) => break record,
                Err(error) => return (written, Some(error)),
            }
        };
        let duration = duration(&record);
        written.push(run.emit(record, duration));
    }
    (written, None)
}

fn header() -> String {
    "#uid:usize;cores:f32;memory:f32;duration:f32;borrow:y/n;time_created:f32".to_string()
}

#[test]
fn the_header_is_the_fixed_line() {
    assert_eq!(HEADER, header());
    let (_, first) = Converter::begin(true);
    assert_eq!(first, header());
    let (_, first) = Converter::begin(false);
    assert_eq!(first, header());
}

#[test]
fn a_run_begins_with_no_line_read() {
    let (run, _) = Converter::begin(true);
    assert!(run.can_borrow());
    assert_eq!(run.line_count(), 0);
    let (run, _) = Converter::begin(false);
    assert!(!run.can_borrow());
    assert_eq!(run.line_count(), 0);
}

#[test]
fn a_task_that_may_borrow() {
    let (written, error) = convert("10.0; 1.0; 5.0; 2.0; 4.0", true);
    assert_eq!(error, None);
    assert_eq!(written, vec![header(), "?;2;4;4;y;10".to_string()]);
}

#[test]
fn a_task_of_zeros_that_may_not_borrow() {
    let (written, error) = convert("0;0;0;0;0", false);
    assert_eq!(error, None);
    assert_eq!(written, vec![header(), "?;0;0;0;n;0".to_string()]);
}

#[test]
fn a_line_of_three_values_ends_the_run() {
    let (written, error) = convert("1;2;3", true);
    assert_eq!(written, vec![header()]);
    assert_eq!(
        error,
        Some(ConversionError::FieldCount { ordinal: 1, line: "1;2;3".to_string(), found: 3 })
    );
}

#[test]
fn a_value_that_is_no_number_ends_the_run() {
    let (written, error) = convert("a;1;2;3;4", true);
    assert_eq!(written, vec![header()]);
    assert_eq!(
        error,
        Some(ConversionError::FieldParse { field: Field::TimeCreated, text: "a".to_string() })
    );
}

#[test]
fn a_trace_of_comments_and_blanks_gives_the_header_alone() {
    let (written, error) = convert("# nothing here\n\n", true);
    assert_eq!(error, None);
    assert_eq!(written, vec![header()]);
    let (written, error) = convert("", false);
    assert_eq!(error, None);
    assert_eq!(written, vec![header()]);
}

#[test]
fn the_duration_is_end_minus_start() {
    let (written, error) = convert("0; 1.5; 4.25; 1; 1\n0; 0.1; 0.3; 1; 1", false);
    assert_eq!(error, None);
    assert_eq!(written[1], "?;1;1;2.75;n;0");
    let fields: Vec<&str> = written[2].split(';').collect();
    assert_eq!(fields[3].parse::<f32>().unwrap(), 0.3f32 - 0.1f32);
}

#[test]
fn a_task_that_ends_before_it_starts_keeps_its_duration() {
    let (written, error) = convert("3;5;2;1;1", true);
    assert_eq!(error, None);
    assert_eq!(written, vec![header(), "?;1;1;-3;y;3".to_string()]);
}

#[test]
fn every_line_of_a_run_has_the_same_borrow_mark() {
    let trace = "1;2;3;4;5\n# note\n6;7;8;9;10\n\n11;12;13;14;15";
    for (can_borrow, mark) in [(true, "y"), (false, "n")] {
        let (written, error) = convert(trace, can_borrow);
        assert_eq!(error, None);
        assert_eq!(written.len(), 4);
        for line in &written[1..] {
            let fields: Vec<&str> = line.split(';').collect();
            assert_eq!(fields.len(), 6);
            assert_eq!(fields[0], "?");
            assert_eq!(fields[4], mark);
        }
    }
}

#[test]
fn a_line_that_was_written_reads_back_as_six_values() {
    let (written, _) = convert("10.0; 1.0; 5.0; 2.0; 4.0\n-1;-2;-3;-4;-5", true);
    assert_eq!(
        scan_line(&written[1], 1),
        Err(ConversionError::FieldCount { ordinal: 1, line: "?;2;4;4;y;10".to_string(), found: 6 })
    );
    let chars = chars_of(&written[2]);
    let pieces: Vec<String> = split_ranges(&chars, ';')
        .into_iter()
        .map(|(from, to)| chars[from..to].iter().collect())
        .collect();
    assert_eq!(pieces, vec!["?", "-4", "-5", "-1", "y", "-1"]);
}

#[test]
fn lines_come_out_in_the_order_of_the_trace() {
    let (written, error) = convert("1;0;1;1;1\n2;0;2;2;2\n  # two done\n3;0;3;3;3", false);
    assert_eq!(error, None);
    assert_eq!(
        written,
        vec![
            header(),
            "?;1;1;1;n;1".to_string(),
            "?;2;2;2;n;2".to_string(),
            "?;3;3;3;n;3".to_string(),
        ]
    );
}

#[test]
fn skipped_lines_count_towards_the_number_of_a_line() {
    let (written, error) = convert("# first\n\n1;2;3;4;5\n   \n# fifth\n1;2;3\n1;2;3;4;5", true);
    assert_eq!(written, vec![header(), "?;4;5;1;y;1".to_string()]);
    assert_eq!(
        error,
        Some(ConversionError::FieldCount { ordinal: 6, line: "1;2;3".to_string(), found: 3 })
    );
}

#[test]
fn every_line_read_is_counted() {
    let (mut run, _) = Converter::begin(true);
    assert_eq!(run.read("# a comment"), Ok(None));
    assert_eq!(run.line_count(), 1);
    assert_eq!(run.read(""), Ok(None));
    assert_eq!(run.line_count(), 2);
    assert!(matches!(run.read("1;2;3;4;5"), Ok(Some(_))));
    assert_eq!(run.line_count(), 3);
    assert!(run.read("1;2").is_err());
    assert_eq!(run.line_count(), 4);
    assert_eq!(run.read("x"), scan_line("x", 5));
    assert_eq!(run.line_count(), 5);
    assert!(run.can_borrow());
}

#[test]
fn what_was_written_before_an_error_stays() {
    let (written, error) = convert("1;1;2;1;1\n2;x;2;2;2\n3;0;3;3;3", false);
    assert_eq!(written, vec![header(), "?;1;1;1;n;1".to_string()]);
    assert_eq!(
        error,
        Some(ConversionError::FieldParse { field: Field::TimeStarted, text: "x".to_string() })
    );
}

#[test]
fn the_first_bad_value_of_a_line_is_named() {
    let (_, error) = convert("1;2;three;four;5", true);
    assert_eq!(
        error,
        Some(ConversionError::FieldParse { field: Field::TimeDone, text: "three".to_string() })
    );
    let (_, error) = convert("1;2;3;4;", true);
    assert_eq!(
        error,
        Some(ConversionError::FieldParse { field: Field::Memory, text: "".to_string() })
    );
}

#[test]
fn numbers_are_written_the_short_way() {
    let (written, error) = convert("1e3; 0.50; 2.5; +7; .25", true);
    assert_eq!(error, None);
    assert_eq!(written[1], "?;7;0.25;2;y;1000");
}

#[test]
fn numbers_that_are_not_finite_pass_through() {
    let (written, error) = convert("inf; 1; NaN; -inf; 0", false);
    assert_eq!(error, None);
    assert_eq!(written[1], "?;-inf;0;NaN;n;inf");
}

#[test]
fn emit_gives_the_line_of_the_job() {
    let (mut run, _) = Converter::begin(false);
    let tokens = run.read(" 8 ; 2 ; 6 ; 0.5 ; 16 ").unwrap().unwrap();
    let mut parser = RecordParser::new(tokens);
    let record = loop {
        let outcome = read_number(parser.token());
        match parser.supply(outcome).unwrap() {
            Progress::More(next) => parser = next,
            Progress::Done(record) => break record,
        }
    };
    assert_eq!(run.emit(record, number(4.0)), "?;0.5;16;4;n;8");
    assert_eq!(run.line_count(), 1);
    assert!(!run.can_borrow());
}
