use iron_bin::actions::DirEntry;
use iron_bin::app::{is_yes, App, Selection, Task};
use iron_bin::cli::{Cli, Command, EmptyArgs, ListArgs, PutArgs, RestoreArgs, SortOrder};
use iron_bin::trash::{EntryError, Payload, RecordFile, Trash, TrashEntry};

fn results(items: &[(&str, &str)]) -> Vec<Result<TrashEntry, EntryError>> {
    let trash = Trash::new("/data/Trash");
    items
        .iter()
        .enumerate()
        .map(|(number, (path, time))| {
            trash.new_entry(&RecordFile {
                entry: DirEntry { file_name: format!("item_{number}.trashinfo"), is_file: true },
                contents: Some(format!("[Trash Info]\nPath={path}\nDeletionDate={time}\n").into_bytes()),
                mtime: None,
                payload: Some(Payload { is_dir: false, len: 1 }),
            })
        })
        .collect()
}

fn paths(values: &[&str]) -> Vec<String> {
    values.iter().map(|value| value.to_string()).collect()
}

fn list_args(patterns: &[&str]) -> ListArgs {
    ListArgs { verbose: false, human_readable: false, sort_order: SortOrder::Path, patterns: paths(patterns) }
}

#[test]
fn run_lists_with_quotes_on_a_terminal() {
    let cli = Cli { command: Command::List(list_args(&[])) };
    assert_eq!(App::run(&cli, true), Task::List { quote: true });
    assert_eq!(App::run(&cli, false), Task::List { quote: false });
}

#[test]
fn run_prompts_only_when_asked_and_on_a_terminal() {
    for interactive in [false, true] {
        for is_terminal in [false, true] {
            let args = PutArgs { interactive, verbose: false, paths: paths(&["a"]) };
            assert_eq!(
                App::run(&Cli { command: Command::Put(args) }, is_terminal),
                Task::Put { prompt: interactive && is_terminal }
            );
            let args = RestoreArgs { interactive, verbose: true, paths: Vec::new() };
            assert_eq!(
                App::run(&Cli { command: Command::Restore(args) }, is_terminal),
                Task::Restore { prompt: interactive && is_terminal }
            );
        }
    }
}

#[test]
fn run_prompts_before_emptying_unless_forced() {
    let cli = |force: bool| Cli { command: Command::Empty(EmptyArgs { force, verbose: false }) };
    assert_eq!(App::run(&cli(false), true), Task::Empty { prompt: true });
    assert_eq!(App::run(&cli(true), true), Task::Empty { prompt: false });
    assert_eq!(App::run(&cli(false), false), Task::Empty { prompt: false });
    assert_eq!(App::run(&cli(true), false), Task::Empty { prompt: false });
}

#[test]
fn sort_order_defaults_to_path() {
    assert_eq!(SortOrder::default(), SortOrder::Path);
}

#[test]
fn is_yes_wants_a_leading_y() {
    assert!(is_yes("y"));
    assert!(is_yes("Y"));
    assert!(is_yes("yes\n"));
    assert!(is_yes("Yup"));
    assert!(is_yes("y\u{e9}"));
    assert!(!is_yes(""));
    assert!(!is_yes("\n"));
    assert!(!is_yes("n"));
    assert!(!is_yes(" y"));
    assert!(!is_yes("no, yes"));
    assert!(!is_yes("\u{e9}y"));
}

#[test]
fn is_listed_without_pattern() {
    assert!(App::is_listed(&Vec::new(), "/tmp/a.txt"));
}

#[test]
fn is_listed_with_patterns() {
    assert!(App::is_listed(&paths(&["/tmp/*.txt"]), "/tmp/a.txt"));
    assert!(App::is_listed(&paths(&["/home/**", "/tmp/*.txt"]), "/tmp/a.txt"));
    assert!(!App::is_listed(&paths(&["/home/**", "/tmp/*.rs"]), "/tmp/a.txt"));
}

#[test]
fn list_discards_results_in_error() {
    let results = results(&[
        ("%2Ftmp%2Fa", "2025-02-17T13:14:15"),
        ("%2Ftmp%2Fb", "never"),
        ("%2Ftmp%2Fc", "2025-02-17T13:14:15"),
        ("%FF", "2025-02-17T13:14:15"),
    ]);
    assert_eq!(App::list(&results, &list_args(&[])), vec![0, 2]);
}

#[test]
fn list_keeps_the_entries_that_match_a_pattern() {
    let results = results(&[
        ("%2Ftmp%2Fa.txt", "2025-02-17T13:14:15"),
        ("%2Ftmp%2Fb.rs", "2025-02-17T13:14:15"),
        ("%2Fhome%2Fc.txt", "2025-02-17T13:14:15"),
        ("%2Ftmp%2Fd.txt", "2025-02-17T13:14:15"),
    ]);
    assert_eq!(App::list(&results, &list_args(&["/tmp/*.txt"])), vec![0, 3]);
    assert_eq!(App::list(&results, &list_args(&["/tmp/*.rs", "/home/*"])), vec![2, 1]);
    assert_eq!(App::shown(&results, &paths(&["/tmp/*.rs", "/home/*"])), vec![1, 2]);
    assert_eq!(App::list(&results, &list_args(&["/none/*"])), Vec::<usize>::new());
}

#[test]
fn list_of_nothing_is_nothing() {
    assert_eq!(App::list(&Vec::new(), &list_args(&[])), Vec::<usize>::new());
}

#[test]
fn most_recent_is_the_latest_deletion() {
    let results = results(&[
        ("a", "2025-02-17T13:14:15"),
        ("b", "2025-02-17T13:14:16"),
        ("c", "2025-02-16T23:59:59"),
    ]);
    assert_eq!(App::most_recent(&results, None), Some(1));
}

#[test]
fn most_recent_takes_the_first_of_equals() {
    let results = results(&[
        ("a", "2025-02-17T13:14:15"),
        ("b", "2025-02-17T13:14:16"),
        ("c", "2025-02-17T13:14:16"),
        ("d", "2025-02-17T13:14:16"),
    ]);
    assert_eq!(App::most_recent(&results, None), Some(1));
}

#[test]
fn most_recent_passes_over_results_in_error() {
    let results = results(&[("a", "never"), ("b", "2025-02-17T13:14:16"), ("%FF", "2099-01-01T00:00:00")]);
    assert_eq!(App::most_recent(&results, None), Some(1));
    assert_eq!(App::most_recent(&results[..1].to_vec(), None), None);
    assert_eq!(App::most_recent(&Vec::new(), None), None);
}

#[test]
fn most_recent_of_a_path() {
    let results = results(&[
        ("%2Ftmp%2Fa", "2025-02-17T13:14:15"),
        ("%2Ftmp%2Fb", "2025-02-19T00:00:00"),
        ("%2Ftmp%2Fa", "2025-02-18T00:00:00"),
        ("%2Ftmp%2F%2Fa%2F", "2025-02-18T00:00:00"),
    ]);
    assert_eq!(App::most_recent(&results, Some("/tmp/a")), Some(2));
    assert_eq!(App::most_recent(&results, Some("/tmp/b")), Some(1));
    assert_eq!(App::most_recent(&results, Some("/tmp/c")), None);
}

#[test]
fn restore_from_an_empty_trash() {
    assert_eq!(App::restore(&Vec::new(), "/tmp", &Vec::new()), Selection::EmptyTrash);
    assert_eq!(App::restore(&results(&[("a", "never")]), "/tmp", &Vec::new()), Selection::EmptyTrash);
    assert_eq!(App::restore(&Vec::new(), "/tmp", &paths(&["a"])), Selection::Entries(vec![None]));
}

#[test]
fn restore_takes_the_most_recent_entry_of_each_path() {
    let results = results(&[
        ("%2Ftmp%2Fa", "2025-02-17T13:14:15"),
        ("%2Ftmp%2Fb", "2025-02-19T00:00:00"),
        ("%2Ftmp%2Fa", "2025-02-18T00:00:00"),
        ("%2Fhome%2Fc", "2025-02-18T00:00:00"),
    ]);
    assert_eq!(
        App::restore(&results, "/tmp", &paths(&["a", "missing", "/home/c", "b"])),
        Selection::Entries(vec![Some(2), None, Some(3), Some(1)])
    );
    assert_eq!(App::restore(&results, "/tmp", &Vec::new()), Selection::Entries(vec![Some(1)]));
}

fn by_date(patterns: &[&str]) -> ListArgs {
    ListArgs { sort_order: SortOrder::Date, ..list_args(patterns) }
}

#[test]
fn list_by_path_is_in_ascending_order() {
    let results = results(&[
        ("%2Ftmp%2Fb", "2025-02-17T13:14:15"),
        ("%2Ftmp%2Fa%2Fz", "2025-02-17T13:14:16"),
        ("%2Ftmp%2Fa.b", "never"),
        ("%2Fhome%2Fz", "2025-02-17T13:14:17"),
        ("%2Ftmp%2Fa", "2025-02-17T13:14:18"),
        ("%2Ftmp%2Fb", "2025-02-17T13:14:19"),
        ("%2Ftmp%2Fa.b", "2025-02-17T13:14:20"),
    ]);
    let listed = App::list(&results, &list_args(&[]));
    let shown: Vec<&str> = listed.iter().map(|index| results[*index].as_ref().unwrap().original_path()).collect();
    assert_eq!(shown, vec!["/home/z", "/tmp/a", "/tmp/a/z", "/tmp/a.b", "/tmp/b", "/tmp/b"]);
    assert_eq!(listed, vec![3, 4, 1, 6, 0, 5]);
    assert_eq!(App::sort_by_path(&results, &vec![5, 0]), vec![5, 0]);
}

#[test]
fn list_by_date_is_in_descending_order() {
    let results = results(&[
        ("a", "2025-02-17T13:14:15"),
        ("b", "2025-02-18T00:00:00"),
        ("c", "never"),
        ("d", "2024-12-31T23:59:59"),
        ("e", "2025-02-18T00:00:00"),
        ("f", "2025-02-18T00:00:01"),
    ]);
    assert_eq!(App::list(&results, &by_date(&[])), vec![5, 1, 4, 0, 3]);
    assert_eq!(App::list(&results, &by_date(&["[a-d]"])), vec![1, 0, 3]);
}

#[test]
fn sort_by_date_keeps_every_index() {
    let results = results(&[("a", "2025-02-17T13:14:15"), ("b", "2025-02-18T00:00:00"), ("c", "never")]);
    assert_eq!(App::sort_by_date(&results, &vec![0, 1, 0, 2, 7, 1]), vec![1, 1, 0, 0, 2, 7]);
    assert_eq!(App::sort_by_date(&results, &Vec::new()), Vec::<usize>::new());
}
