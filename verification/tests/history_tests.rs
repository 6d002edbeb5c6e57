use mac_clip::history::History;
use mac_clip::history::MAX_HISTORY_SIZE;

fn record(h: &mut History, s: &str, t: u64) -> bool {
    h.record(String::from(s), t)
}

#[test]
fn empty_history() {
    let h = History::new();
    assert_eq!(h.len(), 0);
    assert!(h.get(0).is_none());
}

#[test]
fn record_inserts_newest_first() {
    let mut h = History::new();
    assert!(record(&mut h, "a", 1));
    assert!(record(&mut h, "b", 2));
    assert_eq!(h.len(), 2);
    let newest = h.get(0).unwrap();
    assert_eq!(newest.content, "b");
    assert_eq!(newest.timestamp, 2);
    let older = h.get(1).unwrap();
    assert_eq!(older.content, "a");
    assert_eq!(older.timestamp, 1);
}

#[test]
fn adjacent_duplicate_suppressed() {
    let mut h = History::new();
    assert!(record(&mut h, "same", 1));
    assert!(!record(&mut h, "same", 2));
    assert_eq!(h.len(), 1);
    assert_eq!(h.get(0).unwrap().timestamp, 1);
}

#[test]
fn nonadjacent_duplicate_kept() {
    let mut h = History::new();
    assert!(record(&mut h, "a", 1));
    assert!(record(&mut h, "b", 2));
    assert!(record(&mut h, "a", 3));
    assert_eq!(h.len(), 3);
    assert_eq!(h.get(0).unwrap().content, "a");
    assert_eq!(h.get(1).unwrap().content, "b");
    assert_eq!(h.get(2).unwrap().content, "a");
}

#[test]
fn blank_content_ignored() {
    let mut h = History::new();
    assert!(!record(&mut h, "", 1));
    assert!(!record(&mut h, "   ", 2));
    assert!(!record(&mut h, " \t\r\n ", 3));
    assert!(!record(&mut h, "\u{00a0}\u{3000}", 4));
    assert_eq!(h.len(), 0);
    assert!(record(&mut h, " x ", 5));
    assert_eq!(h.len(), 1);
}

#[test]
fn bound_holds_and_oldest_evicted() {
    let mut h = History::new();
    for i in 0..MAX_HISTORY_SIZE {
        assert!(record(&mut h, &format!("entry {}", i), i as u64));
    }
    assert_eq!(h.len(), MAX_HISTORY_SIZE);
    assert_eq!(h.get(MAX_HISTORY_SIZE - 1).unwrap().content, "entry 0");

    assert!(record(&mut h, "one more", 99));
    assert_eq!(h.len(), MAX_HISTORY_SIZE);
    assert_eq!(h.get(0).unwrap().content, "one more");
    // the previous oldest entry is gone; everything else moved back one place
    assert_eq!(h.get(MAX_HISTORY_SIZE - 1).unwrap().content, "entry 1");
}

#[test]
fn load_missing_file_gives_empty() {
    let h = History::load_from_data(None);
    assert_eq!(h.len(), 0);
}

#[test]
fn load_malformed_gives_empty() {
    assert_eq!(History::load_from_data(Some("not json")).len(), 0);
    assert_eq!(History::load_from_data(Some("{")).len(), 0);
    assert_eq!(History::load_from_data(Some("{\"a\": 1}")).len(), 0);
    assert_eq!(History::load_from_data(Some("[[\"x\", -1]]")).len(), 0);
    assert_eq!(History::load_from_data(Some("")).len(), 0);
}

#[test]
fn load_reads_entries() {
    let h = History::load_from_data(Some("[[\"hi\", 5], [\"older\", 3]]"));
    assert_eq!(h.len(), 2);
    assert_eq!(h.get(0).unwrap().content, "hi");
    assert_eq!(h.get(0).unwrap().timestamp, 5);
    assert_eq!(h.get(1).unwrap().content, "older");
    assert_eq!(h.get(1).unwrap().timestamp, 3);
}

#[test]
fn load_truncates_oversized_data() {
    let mut data = String::from("[");
    for i in 0..(MAX_HISTORY_SIZE + 10) {
        if i > 0 {
            data.push(',');
        }
        data.push_str(&format!("[\"e{}\",{}]", i, i));
    }
    data.push(']');
    let h = History::load_from_data(Some(&data));
    assert_eq!(h.len(), MAX_HISTORY_SIZE);
    assert_eq!(h.get(0).unwrap().content, "e0");
    assert_eq!(
        h.get(MAX_HISTORY_SIZE - 1).unwrap().content,
        format!("e{}", MAX_HISTORY_SIZE - 1)
    );
}

#[test]
fn preview_labels_list_entries_newest_first() {
    let mut h = History::new();
    assert!(record(&mut h, "plain", 1));
    assert!(record(&mut h, "two\nlines", 2));
    let labels = h.preview_labels();
    assert_eq!(labels.len(), 2);
    assert_eq!(labels[0], "two\u{21b5}lines");
    assert_eq!(labels[1], "plain");
}

#[test]
fn save_then_load_roundtrip() {
    let mut h = History::new();
    assert!(record(&mut h, "first \"quoted\" text", 1));
    assert!(record(&mut h, "second\nline", 2));
    let data = h.serialize();
    let reloaded = History::load_from_data(Some(&data));
    assert_eq!(reloaded.len(), 2);
    assert_eq!(reloaded.get(0).unwrap().content, "second\nline");
    assert_eq!(reloaded.get(0).unwrap().timestamp, 2);
    assert_eq!(reloaded.get(1).unwrap().content, "first \"quoted\" text");
    assert_eq!(reloaded.get(1).unwrap().timestamp, 1);
}

#[test]
fn serialized_form_is_json_pairs() {
    let mut h = History::new();
    assert!(record(&mut h, "a", 7));
    let data = h.serialize();
    let parsed: Vec<(String, u64)> = serde_json::from_str(&data).unwrap();
    assert_eq!(parsed, vec![(String::from("a"), 7)]);
}
