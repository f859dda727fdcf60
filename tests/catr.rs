use catr::{
    decimal_string, format_numbered, open_failure_message, pad_number, render_lines, render_run,
    Config, InputOutcome, InputSource, LineNumberer, Mode, UsageError,
};

fn strings(v: &[&str]) -> Vec<String> {
    v.iter().map(|s| s.to_string()).collect()
}

#[test]
fn decimal_digits() {
    assert_eq!(decimal_string(0), "0");
    assert_eq!(decimal_string(7), "7");
    assert_eq!(decimal_string(10), "10");
    assert_eq!(decimal_string(1234567), "1234567");
    assert_eq!(decimal_string(u64::MAX), u64::MAX.to_string());
}

#[test]
fn number_padding() {
    assert_eq!(pad_number(1), "     1");
    assert_eq!(pad_number(42), "    42");
    assert_eq!(pad_number(999999), "999999");
    assert_eq!(pad_number(1234567), "1234567");
}

#[test]
fn numbered_line_format() {
    assert_eq!(format_numbered(1, "hello"), "     1\thello");
    assert_eq!(format_numbered(12, ""), "    12\t");
    assert_eq!(format_numbered(3, "a\tb"), format!("{:>6}\t{}", 3, "a\tb"));
}

#[test]
fn config_defaults_to_stdin() {
    let c = Config::new(vec![], false, false).unwrap();
    assert_eq!(c.files, strings(&["-"]));
    assert_eq!(c.mode, Mode::Plain);
    assert!(!c.number_lines());
    assert!(!c.number_nonblank_lines());
}

#[test]
fn config_keeps_names_in_order() {
    let c = Config::new(strings(&["b.txt", "-", "a.txt"]), true, false).unwrap();
    assert_eq!(c.files, strings(&["b.txt", "-", "a.txt"]));
    assert_eq!(c.mode, Mode::NumberAll);
    assert!(c.number_lines());
    assert!(!c.number_nonblank_lines());
    let c = Config::new(strings(&["x"]), false, true).unwrap();
    assert_eq!(c.mode, Mode::NumberNonBlank);
    assert!(c.number_nonblank_lines());
}

#[test]
fn config_rejects_both_numbering_flags() {
    let r = Config::new(strings(&["poem.txt"]), true, true);
    assert_eq!(r.unwrap_err(), UsageError::ConflictingNumberFlags);
    assert_eq!(
        UsageError::ConflictingNumberFlags.message(),
        "the argument '--number' cannot be used with '--number-nonblank'"
    );
}

#[test]
fn input_source_from_name() {
    assert!(matches!(InputSource::from_name("-"), InputSource::Stdin));
    match InputSource::from_name("poem.txt") {
        InputSource::File(name) => assert_eq!(name, "poem.txt"),
        InputSource::Stdin => panic!("a file name is not standard input"),
    }
    assert!(matches!(InputSource::from_name("--"), InputSource::File(_)));
    assert!(matches!(InputSource::from_name(""), InputSource::File(_)));
}

#[test]
fn plain_mode_is_verbatim() {
    let lines = strings(&["first", "", "  third\t", "last"]);
    assert_eq!(render_lines(Mode::Plain, &lines), lines);
}

#[test]
fn number_all_mode() {
    let lines = strings(&["a", "", "c"]);
    assert_eq!(
        render_lines(Mode::NumberAll, &lines),
        strings(&["     1\ta", "     2\t", "     3\tc"])
    );
}

#[test]
fn number_nonblank_mode() {
    let lines = strings(&["", "a", "", "", "b", "c", ""]);
    assert_eq!(
        render_lines(Mode::NumberNonBlank, &lines),
        strings(&["", "     1\ta", "", "", "     2\tb", "     3\tc", ""])
    );
}

#[test]
fn poem_number_nonblank() {
    let lines = strings(&["La la la", "", "La la"]);
    assert_eq!(
        render_lines(Mode::NumberNonBlank, &lines),
        strings(&["     1\tLa la la", "", "     2\tLa la"])
    );
}

#[test]
fn empty_input_gives_no_output() {
    for mode in [Mode::Plain, Mode::NumberAll, Mode::NumberNonBlank] {
        assert!(render_lines(mode, &vec![]).is_empty());
    }
}

#[test]
fn numbering_beyond_field_width() {
    let lines: Vec<String> = (0..1_000_001).map(|i| format!("l{}", i)).collect();
    let out = render_lines(Mode::NumberAll, &lines);
    assert_eq!(out[999_998], "999999\tl999998");
    assert_eq!(out[999_999], "1000000\tl999999");
    assert_eq!(out[1_000_000], "1000001\tl1000000");
}

#[test]
fn numberer_counts_and_resets() {
    let mut n = LineNumberer::new(Mode::NumberNonBlank);
    assert_eq!(n.render("x"), "     1\tx");
    assert_eq!(n.render(""), "");
    assert_eq!(n.render("y"), "     2\ty");
    assert_eq!(n.lines_seen, 3);
    assert_eq!(n.nonblank_seen, 2);
    n.start_input();
    assert_eq!(n.lines_seen, 0);
    assert_eq!(n.nonblank_seen, 0);
    assert_eq!(n.render("z"), "     1\tz");

    let mut n = LineNumberer::new(Mode::NumberAll);
    assert_eq!(n.render(""), "     1\t");
    assert_eq!(n.render("q"), "     2\tq");
    let mut n = LineNumberer::new(Mode::Plain);
    assert_eq!(n.render("q"), "q");
}

#[test]
fn open_failure_diagnostic() {
    assert_eq!(
        open_failure_message("missing.txt", "No such file or directory (os error 2)"),
        "Failed to open missing.txt: No such file or directory (os error 2)"
    );
}

#[test]
fn counters_reset_per_input() {
    let inputs = vec![
        InputOutcome::Opened(strings(&["a", "b", "c", "d"])),
        InputOutcome::Opened(strings(&["e", "f"])),
    ];
    let out = render_run(Mode::NumberAll, &inputs);
    assert_eq!(
        out.stdout,
        strings(&["     1\ta", "     2\tb", "     3\tc", "     4\td", "     1\te", "     2\tf"])
    );
    assert!(out.stderr.is_empty());
    let out = render_run(Mode::NumberNonBlank, &inputs);
    assert_eq!(out.stdout[4], "     1\te");
}

#[test]
fn failed_input_is_isolated() {
    let inputs = vec![
        InputOutcome::OpenFailed("A".to_string(), "No such file or directory (os error 2)".to_string()),
        InputOutcome::Opened(strings(&["one", "", "three"])),
    ];
    let out = render_run(Mode::NumberAll, &inputs);
    assert_eq!(out.stdout, strings(&["     1\tone", "     2\t", "     3\tthree"]));
    assert_eq!(
        out.stderr,
        strings(&["Failed to open A: No such file or directory (os error 2)"])
    );
    let out = render_run(Mode::NumberNonBlank, &inputs);
    assert_eq!(out.stdout, strings(&["     1\tone", "", "     2\tthree"]));
    let out = render_run(Mode::Plain, &inputs);
    assert_eq!(out.stdout, strings(&["one", "", "three"]));
    assert_eq!(out.stderr.len(), 1);
}

#[test]
fn plain_run_concatenates_and_is_idempotent() {
    let inputs = vec![
        InputOutcome::Opened(strings(&["a", ""])),
        InputOutcome::OpenFailed("gone".to_string(), "denied".to_string()),
        InputOutcome::Opened(strings(&["b"])),
    ];
    let first = render_run(Mode::Plain, &inputs);
    assert_eq!(first.stdout, strings(&["a", "", "b"]));
    assert_eq!(first.stderr, strings(&["Failed to open gone: denied"]));
    let again = render_run(Mode::Plain, &vec![InputOutcome::Opened(first.stdout.clone())]);
    assert_eq!(again.stdout, first.stdout);
    assert!(again.stderr.is_empty());
}
