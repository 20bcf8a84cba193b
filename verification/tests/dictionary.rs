use meetily::dictionary::{
    add_dictionary_entry, copy_strings, edit_entry, find_entry, import_voiceink_dictionary,
    push_entry, remove_dictionary_entry, update_dictionary_entry, voiceink_json_error,
    voiceink_read_error, DictionaryEntry, VoiceInkEntry,
};

fn entry(id: &str, display: &str, aliases: &[&str]) -> DictionaryEntry {
    DictionaryEntry {
        id: id.to_string(),
        display: display.to_string(),
        aliases: aliases.iter().map(|a| a.to_string()).collect(),
        source: "meetily".to_string(),
        updated_at: "2024-01-01T00:00:00+00:00".to_string(),
    }
}

fn is_uuid_v4(s: &str) -> bool {
    let c: Vec<char> = s.chars().collect();
    c.len() == 36
        && c.iter().enumerate().all(|(i, ch)| {
            if [8, 13, 18, 23].contains(&i) { *ch == '-' } else { ch.is_ascii_digit() || ('a'..='f').contains(ch) }
        })
        && c[14] == '4'
        && "89ab".contains(c[19])
}

fn is_rfc3339_utc(s: &str) -> bool {
    s.ends_with("+00:00") && s.len() >= 25 && s.as_bytes()[4] == b'-' && s.as_bytes()[10] == b'T'
}

fn ids(entries: &[DictionaryEntry]) -> Vec<&str> {
    entries.iter().map(|e| e.id.as_str()).collect()
}

fn vi(word: Option<&str>, replacement: Option<&str>, original: Option<&str>) -> VoiceInkEntry {
    VoiceInkEntry {
        word: word.map(|s| s.to_string()),
        replacement: replacement.map(|s| s.to_string()),
        original_word: original.map(|s| s.to_string()),
    }
}

#[test]
fn add_entry_appends_fresh_term() {
    let mut entries = vec![entry("1", "Kubernetes", &["kube"])];
    let added = add_dictionary_entry(&mut entries, "Meetily".to_string(), vec!["meet ily".to_string(), "mealy".to_string()]);
    assert_eq!(entries.len(), 2);
    assert_eq!(added.display, "Meetily");
    assert_eq!(added.aliases, vec!["meet ily", "mealy"]);
    assert_eq!(added.source, "meetily");
    assert!(is_uuid_v4(&added.id));
    assert!(is_rfc3339_utc(&added.updated_at));
    assert_eq!(entries[1].id, added.id);
    assert_eq!(entries[0].id, "1");
}

#[test]
fn added_entries_get_distinct_ids() {
    let mut entries = Vec::new();
    let a = add_dictionary_entry(&mut entries, "A".to_string(), Vec::new());
    let b = add_dictionary_entry(&mut entries, "B".to_string(), Vec::new());
    assert_ne!(a.id, b.id);
}

#[test]
fn push_entry_keeps_given_parts() {
    let mut entries = Vec::new();
    let e = push_entry(&mut entries, "id-1".to_string(), "D".to_string(), vec!["d".to_string()], "src".to_string(), "t".to_string());
    assert_eq!(e.id, "id-1");
    assert_eq!(e.source, "src");
    assert_eq!(e.updated_at, "t");
    assert_eq!(entries[0].display, "D");
}

#[test]
fn remove_entry_drops_every_match() {
    let mut entries = vec![entry("a", "A", &[]), entry("b", "B", &[]), entry("a", "A2", &[]), entry("c", "C", &[])];
    remove_dictionary_entry(&mut entries, "a");
    assert_eq!(ids(&entries), vec!["b", "c"]);
    remove_dictionary_entry(&mut entries, "a");
    assert_eq!(ids(&entries), vec!["b", "c"]);
    remove_dictionary_entry(&mut entries, "zzz");
    assert_eq!(ids(&entries), vec!["b", "c"]);
}

#[test]
fn remove_undoes_add() {
    let mut entries = vec![entry("a", "A", &["x"])];
    let added = add_dictionary_entry(&mut entries, "New".to_string(), Vec::new());
    remove_dictionary_entry(&mut entries, &added.id);
    assert_eq!(ids(&entries), vec!["a"]);
    assert_eq!(entries[0].aliases, vec!["x"]);
}

#[test]
fn find_entry_gives_first_match() {
    let entries = vec![entry("a", "A", &[]), entry("b", "B", &[]), entry("b", "B2", &[])];
    assert_eq!(find_entry(&entries, "b"), Some(1));
    assert_eq!(find_entry(&entries, "q"), None);
}

#[test]
fn edit_changes_only_first_match() {
    let mut entries = vec![entry("a", "A", &["a1"]), entry("b", "B", &["b1"]), entry("b", "B2", &["b2"])];
    let edited = edit_entry(&mut entries, "b", Some("Bee".to_string()), None, "stamp".to_string()).unwrap();
    assert_eq!(edited.display, "Bee");
    assert_eq!(edited.aliases, vec!["b1"]);
    assert_eq!(edited.updated_at, "stamp");
    assert_eq!(edited.id, "b");
    assert_eq!(entries[1].display, "Bee");
    assert_eq!(entries[2].display, "B2");
    assert_eq!(entries[0].display, "A");
    let edited = edit_entry(&mut entries, "a", None, Some(vec!["x".to_string(), "y".to_string()]), "s2".to_string()).unwrap();
    assert_eq!(edited.display, "A");
    assert_eq!(edited.aliases, vec!["x", "y"]);
    assert_eq!(entries[0].aliases, vec!["x", "y"]);
}

#[test]
fn edit_missing_entry_is_refused() {
    let mut entries = vec![entry("a", "A", &[])];
    let r = edit_entry(&mut entries, "nope", Some("X".to_string()), None, "t".to_string());
    assert_eq!(r.unwrap_err(), "Entry not found");
    assert_eq!(entries[0].display, "A");
    assert_eq!(entries[0].updated_at, "2024-01-01T00:00:00+00:00");
}

#[test]
fn update_stamps_current_time() {
    let mut entries = vec![entry("a", "A", &[])];
    let u = update_dictionary_entry(&mut entries, "a", Some("Alpha".to_string()), None).unwrap();
    assert_eq!(u.display, "Alpha");
    assert_ne!(u.updated_at, "2024-01-01T00:00:00+00:00");
    assert!(is_rfc3339_utc(&u.updated_at));
    let same = update_dictionary_entry(&mut entries, "a", None, None).unwrap();
    assert_eq!(same.display, "Alpha");
    assert!(is_rfc3339_utc(&same.updated_at));
    assert!(update_dictionary_entry(&mut entries, "b", None, None).is_err());
}

#[test]
fn import_takes_complete_records() {
    let mut entries = vec![entry("keep", "K", &[])];
    let records = vec![
        vi(Some("kube"), Some("Kubernetes"), None),
        vi(Some("gpt"), None, None),
        vi(None, Some("Rust"), Some("rust lang")),
        vi(None, None, None),
        vi(Some("word"), Some(""), None),
        vi(None, Some("Only"), None),
        vi(Some("w"), None, Some("orig")),
    ];
    let n = import_voiceink_dictionary(&mut entries, &records);
    assert_eq!(n, 4);
    assert_eq!(entries.len(), 5);
    assert_eq!(entries[0].id, "keep");
    let got: Vec<(&str, Vec<String>, &str)> = entries[1..]
        .iter()
        .map(|e| (e.display.as_str(), e.aliases.clone(), e.source.as_str()))
        .collect();
    assert_eq!(
        got,
        vec![
            ("Kubernetes", vec!["kube".to_string()], "voiceink-import"),
            ("gpt", vec!["gpt".to_string()], "voiceink-import"),
            ("Rust", vec!["rust lang".to_string()], "voiceink-import"),
            ("w", vec!["orig".to_string()], "voiceink-import"),
        ]
    );
    assert!(entries[1..].iter().all(|e| is_uuid_v4(&e.id) && is_rfc3339_utc(&e.updated_at)));
}

#[test]
fn import_of_nothing_adds_nothing() {
    let mut entries = vec![entry("keep", "K", &[])];
    assert_eq!(import_voiceink_dictionary(&mut entries, &Vec::new()), 0);
    assert_eq!(entries.len(), 1);
}

#[test]
fn import_error_messages() {
    assert_eq!(voiceink_read_error("No such file"), "Cannot read VoiceInk dictionary: No such file");
    assert_eq!(voiceink_json_error("EOF while parsing"), "Invalid JSON: EOF while parsing");
}

#[test]
fn copies_are_equal() {
    let e = entry("a", "A", &["x", "y"]);
    let c = e.duplicate();
    assert_eq!((c.id, c.display, c.aliases, c.source), ("a".to_string(), "A".to_string(), vec!["x".to_string(), "y".to_string()], "meetily".to_string()));
    assert_eq!(copy_strings(&vec!["p".to_string()]), vec!["p".to_string()]);
}

#[test]
fn edit_back_restores_term() {
    let mut entries = vec![entry("a", "A", &["a1", "a2"])];
    edit_entry(&mut entries, "a", Some("Changed".to_string()), Some(vec!["c".to_string()]), "t1".to_string()).unwrap();
    let back = edit_entry(&mut entries, "a", Some("A".to_string()), Some(vec!["a1".to_string(), "a2".to_string()]), "t2".to_string()).unwrap();
    assert_eq!(back.display, "A");
    assert_eq!(back.aliases, vec!["a1", "a2"]);
    assert_eq!(back.id, "a");
    assert_eq!(back.source, "meetily");
    assert_eq!(back.updated_at, "t2");
}

#[test]
fn added_entry_is_found_and_ids_stay_unique() {
    let mut entries = vec![entry("a", "A", &[]), entry("b", "B", &[])];
    let added = add_dictionary_entry(&mut entries, "C".to_string(), Vec::new());
    assert_eq!(find_entry(&entries, &added.id), Some(2));
    update_dictionary_entry(&mut entries, &added.id, Some("C2".to_string()), None).unwrap();
    remove_dictionary_entry(&mut entries, "a");
    let mut seen: Vec<&str> = ids(&entries);
    seen.sort();
    seen.dedup();
    assert_eq!(seen.len(), entries.len());
    assert_eq!(entries[1].display, "C2");
}
