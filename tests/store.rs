use todo_cli::journal::{encode_task, encode_tasks};
use todo_cli::store::{DecodeFault, TaskError, Tasks};
use todo_cli::task::Task;
use todo_cli::text::{decimal_string, pad_text, signed_decimal_string};

fn task(text: &str, created_at: i64) -> Task {
    Task { text: text.to_string(), created_at }
}

fn texts(store: &Tasks) -> Vec<String> {
    store.tasks().iter().map(|t| t.text.clone()).collect()
}

/// Reads journal text back with serde_json, as the journal file is read.
fn decode(content: &str) -> Result<Vec<Task>, DecodeFault> {
    match serde_json::from_str::<serde_json::Value>(content) {
        Ok(value) => {
            let mut out = Vec::new();
            for item in value.as_array().expect("an array") {
                let text = item["text"].as_str().expect("text").to_string();
                let created_at = item["created_at"].as_i64().expect("created_at");
                out.push(Task { text, created_at });
            }
            Ok(out)
        }
        Err(e) if e.is_eof() => Err(DecodeFault::NoData),
        Err(_) => Err(DecodeFault::Invalid),
    }
}

#[test]
fn decimal_numerals() {
    assert_eq!(decimal_string(0), "0");
    assert_eq!(decimal_string(7), "7");
    assert_eq!(decimal_string(1600000000), "1600000000");
    assert_eq!(decimal_string(u64::MAX), "18446744073709551615");
    assert_eq!(signed_decimal_string(-42), "-42");
    assert_eq!(signed_decimal_string(i64::MIN), "-9223372036854775808");
    assert_eq!(signed_decimal_string(i64::MAX), "9223372036854775807");
}

#[test]
fn padding_to_fifty_columns() {
    assert_eq!(pad_text(""), " ".repeat(50));
    assert_eq!(pad_text("buy milk"), format!("buy milk{}", " ".repeat(42)));
    let long = "x".repeat(60);
    assert_eq!(pad_text(&long), long);
    let wide = "é".repeat(10);
    assert_eq!(pad_text(&wide).chars().count(), 50);
}

#[test]
fn render_with_label_layout() {
    let t = task("buy milk", 1600000000);
    assert_eq!(
        t.render_with_label("2020-09-13 12:26"),
        format!("buy milk{} [2020-09-13 12:26]", " ".repeat(42))
    );
}

#[test]
fn render_shows_local_minute() {
    let t = task("walk dog", 1600000000);
    let r = t.render();
    let head = format!("walk dog{} [", " ".repeat(42));
    assert!(r.starts_with(&head));
    assert!(r.ends_with(']'));
    let label = &r[head.len()..r.len() - 1];
    assert_eq!(label.len(), 16);
    assert_eq!(&label[4..5], "-");
    assert_eq!(&label[10..11], " ");
}

#[test]
fn new_task_keeps_text_and_takes_current_time() {
    let t = Task::new("anything at all".to_string());
    assert_eq!(t.text, "anything at all");
    assert!(t.created_at > 1600000000);
    let empty = Task::new(String::new());
    assert_eq!(empty.text, "");
}

#[test]
fn encode_one_record() {
    assert_eq!(
        encode_task(&task("buy milk", 1600000000)),
        r#"{"text":"buy milk","created_at":1600000000}"#
    );
}

#[test]
fn encode_escapes_text() {
    assert_eq!(
        encode_task(&task("say \"hi\"\n", -5)),
        r#"{"text":"say \"hi\"\n","created_at":-5}"#
    );
}

#[test]
fn encode_sequences() {
    assert_eq!(encode_tasks(&Vec::new()), "[]");
    let ts = vec![task("a", 1), task("b", 2)];
    assert_eq!(
        encode_tasks(&ts),
        r#"[{"text":"a","created_at":1},{"text":"b","created_at":2}]"#
    );
}

#[test]
fn round_trip_one_task() {
    let mut store = Tasks::new();
    let t = Task::new("buy milk".to_string());
    let created_at = t.created_at;
    assert_eq!(store.add(t), Ok(()));
    let text = store.journal_text();
    let reopened = Tasks::with_journal(decode(&text)).unwrap();
    assert_eq!(reopened.len(), 1);
    assert_eq!(reopened.tasks()[0].text, "buy milk");
    assert_eq!(reopened.tasks()[0].created_at, created_at);
}

#[test]
fn complete_is_one_based() {
    let mut store = Tasks::new();
    for (i, s) in ["a", "b", "c"].iter().enumerate() {
        store.add(task(s, i as i64)).unwrap();
    }
    assert_eq!(store.complete(0), Err(TaskError::InvalidInput));
    assert_eq!(store.complete(4), Err(TaskError::InvalidInput));
    assert_eq!(texts(&store), vec!["a", "b", "c"]);
    assert_eq!(store.complete(2), Ok(()));
    assert_eq!(texts(&store), vec!["a", "c"]);
    assert_eq!(store.complete(2), Ok(()));
    assert_eq!(store.complete(1), Ok(()));
    assert_eq!(store.len(), 0);
    assert_eq!(store.complete(1), Err(TaskError::InvalidInput));
}

#[test]
fn empty_file_gives_empty_store() {
    let store = Tasks::with_journal(decode("")).unwrap();
    assert_eq!(store.len(), 0);
    let store = Tasks::with_journal(Err(DecodeFault::NoData)).unwrap();
    assert_eq!(store.len(), 0);
}

#[test]
fn malformed_file_is_an_error() {
    assert_eq!(decode("not json").err(), Some(DecodeFault::Invalid));
    assert!(matches!(
        Tasks::with_journal(Err(DecodeFault::Invalid)),
        Err(TaskError::InvalidData)
    ));
}

#[test]
fn persist_overwrites_previous_content() {
    let before = r#"[{"text":"old","created_at":3}]"#;
    let mut store = Tasks::with_journal(decode(before)).unwrap();
    store.complete(1).unwrap();
    store.add(task("new", 9)).unwrap();
    let text = store.journal_text();
    assert_eq!(text, r#"[{"text":"new","created_at":9}]"#);
    let back = decode(&text).unwrap();
    assert_eq!(back.len(), 1);
    assert_eq!(back[0].text, "new");
    assert_eq!(back[0].created_at, 9);
}

#[test]
fn listing_empty_and_ordered() {
    let store = Tasks::new();
    assert_eq!(store.list(), vec!["Task list is empty".to_string()]);
    assert_eq!(store.list_with_labels(&Vec::new()), vec!["Task list is empty".to_string()]);

    let mut store = Tasks::new();
    store.add(task("a", 1)).unwrap();
    store.add(task("b", 2)).unwrap();
    store.add(task("c", 3)).unwrap();
    store.complete(2).unwrap();
    let labels = vec!["L1".to_string(), "L3".to_string()];
    let lines = store.list_with_labels(&labels);
    assert_eq!(
        lines,
        vec![
            format!("1: a{} [L1]", " ".repeat(49)),
            format!("2: c{} [L3]", " ".repeat(49)),
        ]
    );
    let shown = store.list();
    assert_eq!(shown.len(), 2);
    assert!(shown[0].starts_with("1: a "));
    assert!(shown[1].starts_with("2: c "));
}

#[test]
fn end_to_end_journal() {
    let mut file = String::new();

    let mut store = Tasks::with_journal(decode(&file)).unwrap();
    store.add(task("buy milk", 100)).unwrap();
    file = store.journal_text();
    assert_eq!(decode(&file).unwrap().len(), 1);

    let mut store = Tasks::with_journal(decode(&file)).unwrap();
    store.add(task("walk dog", 200)).unwrap();
    file = store.journal_text();
    let store = Tasks::with_journal(decode(&file)).unwrap();
    assert_eq!(texts(&store), vec!["buy milk", "walk dog"]);
    let lines = store.list_with_labels(&vec!["t1".to_string(), "t2".to_string()]);
    assert!(lines[0].starts_with("1: buy milk "));
    assert!(lines[1].starts_with("2: walk dog "));

    let mut store = Tasks::with_journal(decode(&file)).unwrap();
    assert_eq!(store.complete(1), Ok(()));
    file = store.journal_text();
    let store = Tasks::with_journal(decode(&file)).unwrap();
    assert_eq!(texts(&store), vec!["walk dog"]);
    assert!(store.list_with_labels(&vec!["t".to_string()])[0].starts_with("1: walk dog "));

    let mut store = Tasks::with_journal(decode(&file)).unwrap();
    assert_eq!(store.complete(5), Err(TaskError::InvalidInput));
    let after = store.journal_text();
    assert_eq!(after, file);
    assert_eq!(texts(&Tasks::with_journal(decode(&after)).unwrap()), vec!["walk dog"]);
}
