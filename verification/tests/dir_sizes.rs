use iron_bin::dir_sizes::{corrected_timestamp, DirSize, DirSizes, LineError, TIMESTAMP_LIMIT};

fn fields(values: &[&str]) -> Vec<String> {
    values.iter().map(|value| value.to_string()).collect()
}

#[test]
fn corrected_timestamp_keeps_seconds() {
    assert_eq!(corrected_timestamp(0), 0);
    assert_eq!(corrected_timestamp(1_739_800_000), 1_739_800_000);
    assert_eq!(corrected_timestamp(4_200_000_001), 4_200_000_001);
}

#[test]
fn corrected_timestamp_divides_milliseconds() {
    assert_eq!(corrected_timestamp(9_999_999_999), 9_999_999);
    assert_eq!(corrected_timestamp(1_739_800_000_123), 1_739_800_000);
    assert_eq!(corrected_timestamp(u64::MAX), u64::MAX / 1000);
}

#[test]
fn corrected_timestamp_at_the_limit() {
    assert_eq!(TIMESTAMP_LIMIT, 7_258_122_000);
    assert_eq!(corrected_timestamp(7_258_122_000), 7_258_122_000);
    assert_eq!(corrected_timestamp(7_258_122_001), 7_258_122);
}

#[test]
fn read_from_line_reads_three_fields() {
    let dir_size = DirSize::read_from_line("4096 1739800000 my%20dir").unwrap();
    assert_eq!(dir_size.name(), "my dir");
    assert_eq!(dir_size.size(), 4096);
    assert_eq!(dir_size.mtime(), 1_739_800_000);
}

#[test]
fn read_from_line_corrects_milliseconds() {
    let dir_size = DirSize::read_from_line("1 9999999999 name").unwrap();
    assert_eq!(dir_size.mtime(), 9_999_999);
    let dir_size = DirSize::read_from_line("1 1739800000 name").unwrap();
    assert_eq!(dir_size.mtime(), 1_739_800_000);
}

#[test]
fn read_from_line_ignores_further_fields_and_extra_whitespace() {
    let dir_size = DirSize::read_from_line("  12\t 34   name  more and more \r").unwrap();
    assert_eq!(dir_size.name(), "name");
    assert_eq!(dir_size.size(), 12);
    assert_eq!(dir_size.mtime(), 34);
}

#[test]
fn read_from_line_names_what_is_wrong() {
    assert_eq!(DirSize::read_from_line("").unwrap_err(), LineError::MissingSize);
    assert_eq!(DirSize::read_from_line("   ").unwrap_err(), LineError::MissingSize);
    assert_eq!(DirSize::read_from_line("abc 1 name").unwrap_err(), LineError::InvalidSize);
    assert_eq!(DirSize::read_from_line("-1 1 name").unwrap_err(), LineError::InvalidSize);
    assert_eq!(DirSize::read_from_line("12").unwrap_err(), LineError::MissingMtime);
    assert_eq!(DirSize::read_from_line("12 x name").unwrap_err(), LineError::InvalidMtime);
    assert_eq!(DirSize::read_from_line("12 34").unwrap_err(), LineError::MissingName);
    assert_eq!(DirSize::read_from_line("12 34 %FF").unwrap_err(), LineError::InvalidName);
    assert_eq!(DirSize::read_from_line("x y").unwrap_err(), LineError::InvalidSize);
}

#[test]
fn from_fields_reads_the_fields() {
    let dir_size = DirSize::from_fields(&fields(&["7", "8000000000", "a%2Fb", "ignored"])).unwrap();
    assert_eq!(dir_size.name(), "a/b");
    assert_eq!(dir_size.size(), 7);
    assert_eq!(dir_size.mtime(), 8_000_000);
    assert_eq!(DirSize::from_fields(&fields(&[])).unwrap_err(), LineError::MissingSize);
    assert_eq!(DirSize::from_fields(&fields(&["7", "8"])).unwrap_err(), LineError::MissingName);
}

#[test]
fn dir_sizes_new_is_empty() {
    let dir_sizes = DirSizes::new();
    assert!(dir_sizes.get("name").is_none());
}

#[test]
fn dir_sizes_insert_replaces_a_record_of_the_same_name() {
    let mut dir_sizes = DirSizes::new();
    dir_sizes.insert(DirSize::read_from_line("1 10 name").unwrap());
    dir_sizes.insert(DirSize::read_from_line("2 20 other").unwrap());
    dir_sizes.insert(DirSize::read_from_line("3 30 name").unwrap());
    assert_eq!(dir_sizes.get("name").unwrap().size(), 3);
    assert_eq!(dir_sizes.get("name").unwrap().mtime(), 30);
    assert_eq!(dir_sizes.get("other").unwrap().size(), 2);
    assert!(dir_sizes.get("none").is_none());
}

#[test]
fn read_from_skips_lines_that_cannot_be_read() {
    let dir_sizes = DirSizes::read_from("10 100 first\nnot a record\n\n20 200 second%20dir\r\n30 300\n");
    assert_eq!(dir_sizes.get("first").unwrap().size(), 10);
    assert_eq!(dir_sizes.get("first").unwrap().mtime(), 100);
    assert_eq!(dir_sizes.get("second dir").unwrap().size(), 20);
    assert_eq!(dir_sizes.get("second dir").unwrap().mtime(), 200);
    assert!(dir_sizes.get("a").is_none());
    assert!(dir_sizes.get("second%20dir").is_none());
}

#[test]
fn read_from_lets_the_last_occurrence_win() {
    let dir_sizes = DirSizes::read_from("1 100 name\n2 200 name\n");
    assert_eq!(dir_sizes.get("name").unwrap().size(), 2);
    assert_eq!(dir_sizes.get("name").unwrap().mtime(), 200);
}

#[test]
fn read_from_an_empty_file_is_empty() {
    let dir_sizes = DirSizes::read_from("");
    assert!(dir_sizes.get("").is_none());
}

#[test]
fn read_lines_reads_each_line() {
    let dir_sizes = DirSizes::read_lines(&fields(&["5 50 five", "bad", "6 9999999999 six"]));
    assert_eq!(dir_sizes.get("five").unwrap().size(), 5);
    assert_eq!(dir_sizes.get("six").unwrap().mtime(), 9_999_999);
    assert!(dir_sizes.get("bad").is_none());
}

#[test]
fn read_from_ends_a_line_at_a_line_feed() {
    let dir_sizes = DirSizes::read_from("1 10 one\r\n2 20 two\n\n3 30 three");
    assert_eq!(dir_sizes.get("one").unwrap().size(), 1);
    assert_eq!(dir_sizes.get("two").unwrap().size(), 2);
    assert_eq!(dir_sizes.get("three").unwrap().size(), 3);
    // A carriage return without a line feed ends no line
    let dir_sizes = DirSizes::read_from("1 10 one\r2 20 two\n");
    assert_eq!(dir_sizes.get("one").unwrap().size(), 1);
    assert!(dir_sizes.get("two").is_none());
    let lines = |text: &str| text.lines().map(String::from).collect::<Vec<String>>();
    assert_eq!(lines(""), Vec::<String>::new());
    assert_eq!(lines("\n"), vec![""]);
    assert_eq!(lines("a"), vec!["a"]);
    assert_eq!(lines("a\n"), vec!["a"]);
    assert_eq!(lines("a\r"), vec!["a\r"]);
    assert_eq!(lines("a\r\n\nb\rc\r\r\n\r"), vec!["a", "", "b\rc\r", "\r"]);
}

#[test]
fn dir_sizes_are_equal_when_they_hold_the_same_records() {
    let first = DirSizes::read_from("1 10 one\n2 20 two\n");
    let second = DirSizes::read_from("2 20 two\nbad line\n1 10 one\n");
    let third = DirSizes::read_from("9 90 one\n2 20 two\n1 10 one\n");
    assert!(first == second);
    assert!(second == first);
    assert!(first == third);
    assert!(first == first.clone());
    assert!(DirSizes::new() == DirSizes::read_from("no record"));
}

#[test]
fn dir_sizes_differ_when_a_record_differs() {
    let first = DirSizes::read_from("1 10 one\n2 20 two\n");
    assert!(first != DirSizes::read_from("1 10 one\n"));
    assert!(DirSizes::read_from("1 10 one\n") != first);
    assert!(first != DirSizes::read_from("1 10 one\n2 21 two\n"));
    assert!(first != DirSizes::read_from("1 10 one\n3 20 two\n"));
    assert!(first != DirSizes::read_from("1 10 one\n2 20 too\n"));
    assert!(first != DirSizes::new());
    assert!(DirSizes::read_from("1 10 one\n2 20 two\n1 11 one\n") != first);
}

#[test]
fn dir_size_and_trash_compare_and_clone() {
    let dir_size = DirSize::read_from_line("1 10 one").unwrap();
    assert_eq!(dir_size, dir_size.clone());
    assert_ne!(dir_size, DirSize::read_from_line("1 10 two").unwrap());
    let mut trash = iron_bin::Trash::new("/data/Trash");
    assert_eq!(trash, trash.clone());
    assert_ne!(trash, iron_bin::Trash::new("/data/Other"));
    let fresh = trash.clone();
    trash.load_dir_sizes(Some("1 10 one\n"));
    assert_ne!(trash, fresh);
    let mut other = fresh.clone();
    other.load_dir_sizes(Some("5 50 one\n1 10 one\n"));
    assert_eq!(trash, other);
}
