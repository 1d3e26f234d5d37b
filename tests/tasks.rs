use tasky::codec::{decode_tasks, encode_tasks, frame_quoted, tasks_from_records, DecodeError};
use tasky::command::{run_command, Command};
use tasky::store::{load_tasks, save_fault_message, save_text, SaveFault, StoredFile};
use tasky::task::{add_task, join_words, remove_task, RemoveError, Task};
use tasky::text::{decimal_string, list_lines};

fn tasks_of(texts: &[&str]) -> Vec<Task> {
    texts.iter().map(|t| Task::new(t.to_string())).collect()
}

fn texts_of(tasks: &[Task]) -> Vec<String> {
    tasks.iter().map(|t| t.to_string()).collect()
}

fn words(ws: &[&str]) -> Vec<String> {
    ws.iter().map(|w| w.to_string()).collect()
}

#[test]
fn round_trip_keeps_texts_and_order() {
    let lists: Vec<Vec<&str>> = vec![
        vec![],
        vec!["buy milk"],
        vec!["a", "b", "c"],
        vec!["say \"hi\"", "back\\slash", "line\nbreak", "tab\there", "caf\u{e9} \u{2713}"],
        vec!["", "same", "same"],
    ];
    for list in lists {
        let tasks = tasks_of(&list);
        let stored = encode_tasks(&tasks);
        let back = decode_tasks(&stored).ok().expect("decodes");
        assert_eq!(texts_of(&back), words(&list));
    }
}

#[test]
fn encode_writes_compact_array_of_objects() {
    let tasks = tasks_of(&["buy milk", "call Sam"]);
    assert_eq!(encode_tasks(&tasks), r#"[{"text":"buy milk"},{"text":"call Sam"}]"#);
    assert_eq!(save_text(&tasks_of(&[])), "[]");
}

#[test]
fn encode_escapes_quotes_and_backslashes() {
    let tasks = tasks_of(&["a\"b\\c"]);
    assert_eq!(encode_tasks(&tasks), r#"[{"text":"a\"b\\c"}]"#);
}

#[test]
fn frame_quoted_joins_objects_with_commas() {
    let qs = words(&["\"x\"", "\"y\""]);
    assert_eq!(frame_quoted(&qs), r#"[{"text":"x"},{"text":"y"}]"#);
}

#[test]
fn decode_reads_stored_file() {
    let back = decode_tasks(" [ {\"text\" : \"buy milk\"} ,\n {\"text\":\"call Sam\"} ] ").ok().expect("decodes");
    assert_eq!(texts_of(&back), words(&["buy milk", "call Sam"]));
}

#[test]
fn decode_ignores_other_string_fields() {
    let back = decode_tasks(r#"[{"note":"x","text":"a"}]"#).ok().expect("decodes");
    assert_eq!(texts_of(&back), words(&["a"]));
}

#[test]
fn decode_reports_missing_text_by_index() {
    let r = decode_tasks(r#"[{"text":"a"},{"note":"b"}]"#);
    assert!(matches!(r, Err(DecodeError::MissingText(1))));
}

#[test]
fn decode_rejects_malformed_json() {
    assert!(matches!(decode_tasks("not json"), Err(DecodeError::Syntax(_))));
    assert!(matches!(decode_tasks("[{\"text\":\"a\"}"), Err(DecodeError::Syntax(_))));
    assert!(matches!(decode_tasks("{\"text\":\"a\"}"), Err(DecodeError::Syntax(_))));
}

#[test]
fn records_without_text_are_refused() {
    let recs = vec![
        vec![("text".to_string(), "a".to_string())],
        vec![("name".to_string(), "b".to_string())],
    ];
    assert!(matches!(tasks_from_records(&recs), Err(1)));
    let good = vec![vec![("a".to_string(), "x".to_string()), ("text".to_string(), "y".to_string())]];
    let tasks = tasks_from_records(&good).ok().expect("has text");
    assert_eq!(texts_of(&tasks), words(&["y"]));
}

#[test]
fn first_run_loads_empty_without_report() {
    let loaded = load_tasks(StoredFile::Missing);
    assert!(loaded.tasks.is_empty());
    assert!(loaded.report.is_none());
}

#[test]
fn malformed_storage_loads_empty_with_report() {
    let loaded = load_tasks(StoredFile::Contents("{oops".to_string()));
    assert!(loaded.tasks.is_empty());
    let report = loaded.report.expect("reported");
    assert!(report.starts_with("Failed to deserialize "));
    assert!(report.len() > "Failed to deserialize ".len());
}

#[test]
fn missing_text_field_loads_empty_with_report() {
    let loaded = load_tasks(StoredFile::Contents(r#"[{"a":"b"}]"#.to_string()));
    assert!(loaded.tasks.is_empty());
    assert_eq!(loaded.report.as_deref(), Some("Failed to deserialize missing field `text` in task 0"));
}

#[test]
fn unreadable_storage_loads_empty_with_report() {
    let loaded = load_tasks(StoredFile::OpenFailed("permission denied".to_string()));
    assert!(loaded.tasks.is_empty());
    assert_eq!(loaded.report.as_deref(), Some("Error opening file: permission denied"));
    let loaded = load_tasks(StoredFile::ReadFailed("bad utf-8".to_string()));
    assert!(loaded.tasks.is_empty());
    assert_eq!(loaded.report.as_deref(), Some("Failed to read file: bad utf-8"));
}

#[test]
fn valid_storage_loads_tasks() {
    let loaded = load_tasks(StoredFile::Contents(r#"[{"text":"a"},{"text":"b"}]"#.to_string()));
    assert_eq!(texts_of(&loaded.tasks), words(&["a", "b"]));
    assert!(loaded.report.is_none());
}

#[test]
fn add_appends_at_end() {
    let r = run_command(Command::Add(words(&["c"])), tasks_of(&["a", "b"]));
    assert_eq!(texts_of(&r.save.expect("saved")), words(&["a", "b", "c"]));
    assert_eq!(r.out, words(&["\u{2713} Task added: c"]));
    assert!(r.err.is_empty());
}

#[test]
fn add_joins_words_with_spaces() {
    let r = run_command(Command::Add(words(&["buy", "milk"])), tasks_of(&[]));
    let saved = r.save.expect("saved");
    assert_eq!(texts_of(&saved), words(&["buy milk"]));
    assert_eq!(r.out, words(&["\u{2713} Task added: buy milk"]));
    assert_eq!(join_words(&words(&["a", "b", "c"])), "a b c");
    assert_eq!(join_words(&words(&["one"])), "one");
    assert_eq!(join_words(&words(&[])), "");
}

#[test]
fn add_task_mutates_list() {
    let mut tasks = tasks_of(&["x"]);
    let text = add_task(&mut tasks, &words(&["y", "z"]));
    assert_eq!(text, "y z");
    assert_eq!(texts_of(&tasks), words(&["x", "y z"]));
}

#[test]
fn remove_out_of_range_is_refused() {
    for p in [0usize, 3] {
        let r = run_command(Command::Remove(p), tasks_of(&["a", "b"]));
        assert!(r.save.is_none());
        assert!(r.out.is_empty());
        assert_eq!(r.err, vec![format!("Error: Task {p} doesn't exist")]);
        let mut tasks = tasks_of(&["a", "b"]);
        assert!(matches!(remove_task(&mut tasks, p), Err(RemoveError::NoSuchTask(q)) if q == p));
        assert_eq!(texts_of(&tasks), words(&["a", "b"]));
    }
}

#[test]
fn remove_by_position() {
    let r = run_command(Command::Remove(2), tasks_of(&["a", "b", "c"]));
    assert_eq!(texts_of(&r.save.expect("saved")), words(&["a", "c"]));
    assert_eq!(r.out, words(&["\u{2713} Task 2 removed"]));
    assert!(r.err.is_empty());
    let mut tasks = tasks_of(&["a", "b", "c"]);
    let removed = remove_task(&mut tasks, 3).ok().expect("removed");
    assert_eq!(removed.to_string(), "c");
    assert_eq!(texts_of(&tasks), words(&["a", "b"]));
}

#[test]
fn list_empty_shows_hint() {
    let r = run_command(Command::List, tasks_of(&[]));
    assert!(r.save.is_none());
    assert_eq!(r.out, words(&["No tasks yet! Add one with: tasky add <task>"]));
    assert!(r.err.is_empty());
}

#[test]
fn list_numbers_from_one() {
    let lines = list_lines(&tasks_of(&["buy milk", "call Sam"]));
    assert_eq!(lines, words(&["All Tasks:", "", "1. buy milk", "2. call Sam", ""]));
    let many: Vec<String> = (0..12).map(|i| format!("t{i}")).collect();
    let refs: Vec<&str> = many.iter().map(|s| s.as_str()).collect();
    let lines = list_lines(&tasks_of(&refs));
    assert_eq!(lines[13], "12. t11");
}

#[test]
fn decimal_forms() {
    assert_eq!(decimal_string(0), "0");
    assert_eq!(decimal_string(7), "7");
    assert_eq!(decimal_string(10), "10");
    assert_eq!(decimal_string(1234), "1234");
    assert_eq!(decimal_string(usize::MAX), usize::MAX.to_string());
}

#[test]
fn save_faults_are_described() {
    assert_eq!(save_fault_message(&SaveFault::Create("denied".to_string())), "Failed to create file: denied");
    assert_eq!(save_fault_message(&SaveFault::Write("disk full".to_string())), "Failed to write file: disk full");
}
