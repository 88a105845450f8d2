use catr::config::Config;
use catr::format::format_numbered;
use catr::numbering::{number_line, process_data, Numbering};

fn reads(lines: &[&str]) -> Vec<Option<String>> {
    lines.iter().map(|l| Some(l.to_string())).collect()
}

fn strings(lines: &[&str]) -> Vec<String> {
    lines.iter().map(|l| l.to_string()).collect()
}

fn config(number_lines: bool, number_nonblank_lines: bool) -> Config {
    Config::new(vec!["-".to_string()], number_lines, number_nonblank_lines)
}

#[test]
fn no_number_leaves_lines_unchanged() {
    let input = ["first", "", "  indented", "\tTab", ""];
    let out = process_data(reads(&input), Numbering::new_no_number());
    assert_eq!(out, strings(&input));
}

#[test]
fn number_counts_every_line_including_blank() {
    let out = process_data(reads(&["x", "", "", "y"]), Numbering::new_number());
    assert_eq!(out, strings(&["     1\tx", "     2\t", "     3\t", "     4\ty"]));
}

#[test]
fn nonblank_skips_consecutive_blank_lines() {
    let out = process_data(reads(&["", "x", "", "", "y", ""]), Numbering::new_number_nonblank());
    assert_eq!(out, strings(&["", "     1\tx", "", "", "     2\ty", ""]));
}

#[test]
fn failed_reads_are_dropped_without_consuming_numbers() {
    let input = vec![Some("a".to_string()), None, Some("b".to_string()), None];
    let out = process_data(input, Numbering::new_number());
    assert_eq!(out, strings(&["     1\ta", "     2\tb"]));
}

#[test]
fn empty_source_gives_no_lines() {
    assert!(process_data(Vec::new(), Numbering::new_number()).is_empty());
    assert!(process_data(Vec::new(), Numbering::new_no_number()).is_empty());
}

#[test]
fn same_input_twice_gives_identical_output() {
    let input = ["a", "", "b", "c"];
    for (n, b) in [(true, false), (false, true), (false, false)] {
        let c = config(n, b);
        let first = c.render_source("f.txt", Ok(reads(&input)));
        let second = c.render_source("f.txt", Ok(reads(&input)));
        assert_eq!(first, second);
    }
}

#[test]
fn field_width_pads_small_numbers() {
    assert_eq!(format_numbered(7, "..."), "     7\t...");
    assert_eq!(format_numbered(0, ""), "     0\t");
    assert_eq!(format_numbered(42, "z"), "    42\tz");
}

#[test]
fn field_width_never_truncates() {
    assert_eq!(format_numbered(1234567, "..."), "1234567\t...");
    assert_eq!(format_numbered(123456, "a"), "123456\ta");
    assert_eq!(format_numbered(u32::MAX, "m"), "4294967295\tm");
}

#[test]
fn flag_n_numbers_all_lines() {
    let out = config(true, false).render_source("in", Ok(reads(&["a", "", "b"])));
    assert_eq!(out, Ok(strings(&["     1\ta", "     2\t", "     3\tb"])));
}

#[test]
fn flag_b_numbers_nonblank_lines() {
    let out = config(false, true).render_source("in", Ok(reads(&["a", "", "b"])));
    assert_eq!(out, Ok(strings(&["     1\ta", "", "     2\tb"])));
}

#[test]
fn no_flag_copies_lines() {
    let out = config(false, false).render_source("in", Ok(reads(&["a", "", "b"])));
    assert_eq!(out, Ok(strings(&["a", "", "b"])));
}

#[test]
fn missing_source_then_valid_source_restarts_count() {
    let c = Config::new(vec!["missing.txt".to_string(), "x.txt".to_string()], true, false);
    let first = c.render_source(
        "missing.txt",
        Err("No such file or directory (os error 2)".to_string()),
    );
    assert_eq!(
        first,
        Err("Failed to open missing.txt: No such file or directory (os error 2)".to_string())
    );
    let second = c.render_source("x.txt", Ok(reads(&["x"])));
    assert_eq!(second, Ok(strings(&["     1\tx"])));
}

#[test]
fn both_flags_fall_back_to_plain_output() {
    assert_eq!(config(true, true).numbering(), Numbering::NoNumber);
    let out = config(true, true).render_source("in", Ok(reads(&["a", "", "b"])));
    assert_eq!(out, Ok(strings(&["a", "", "b"])));
}

#[test]
fn numbering_follows_flags() {
    assert_eq!(config(true, false).numbering(), Numbering::Number(1));
    assert_eq!(config(false, true).numbering(), Numbering::NumberNonblank(1));
    assert_eq!(config(false, false).numbering(), Numbering::NoNumber);
}

#[test]
fn constructors_start_at_one() {
    assert_eq!(Numbering::new_number(), Numbering::Number(1));
    assert_eq!(Numbering::new_number_nonblank(), Numbering::NumberNonblank(1));
    assert_eq!(Numbering::new_no_number(), Numbering::NoNumber);
}

#[test]
fn increment_advances_by_mode() {
    assert_eq!(Numbering::Number(3).increment(String::new()), Numbering::Number(4));
    assert_eq!(Numbering::Number(3).increment("a".to_string()), Numbering::Number(4));
    assert_eq!(
        Numbering::NumberNonblank(3).increment(String::new()),
        Numbering::NumberNonblank(3)
    );
    assert_eq!(
        Numbering::NumberNonblank(3).increment("a".to_string()),
        Numbering::NumberNonblank(4)
    );
    assert_eq!(Numbering::NoNumber.increment("a".to_string()), Numbering::NoNumber);
}

#[test]
fn number_line_renders_and_advances() {
    assert_eq!(
        number_line("hi".to_string(), Numbering::Number(9)),
        ("     9\thi".to_string(), Numbering::Number(10))
    );
    assert_eq!(
        number_line(String::new(), Numbering::NumberNonblank(5)),
        (String::new(), Numbering::NumberNonblank(5))
    );
    assert_eq!(
        number_line("hi".to_string(), Numbering::NumberNonblank(5)),
        ("     5\thi".to_string(), Numbering::NumberNonblank(6))
    );
    assert_eq!(
        number_line("hi".to_string(), Numbering::NoNumber),
        ("hi".to_string(), Numbering::NoNumber)
    );
}

#[test]
fn config_keeps_its_fields() {
    let c = Config::new(vec!["a".to_string(), "-".to_string()], false, true);
    assert_eq!(c.files, vec!["a".to_string(), "-".to_string()]);
    assert!(!c.number_lines);
    assert!(c.number_nonblank_lines);
}

#[test]
fn blank_line_at_largest_counter_keeps_it() {
    assert_eq!(
        Numbering::NumberNonblank(u32::MAX).increment(String::new()),
        Numbering::NumberNonblank(u32::MAX)
    );
    assert_eq!(
        number_line(String::new(), Numbering::NumberNonblank(u32::MAX)),
        (String::new(), Numbering::NumberNonblank(u32::MAX))
    );
}
