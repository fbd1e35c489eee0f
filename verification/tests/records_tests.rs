use lyrics_plus::laboratory::{LaboratoryClientRecord, LaboratoryServerRecord};
use lyrics_plus::records::{
    mark_clients_offline, note_discovered, promote_server_record, save_server_record, sort_server_records,
    update_client_record,
};

fn server(id: &str, last: Option<u64>) -> LaboratoryServerRecord {
    LaboratoryServerRecord {
        server_id: id.into(),
        name: format!("name-{id}"),
        address: "10.0.0.1".into(),
        port: 8787,
        protocol_version: 1,
        requires_password: false,
        web_available: true,
        last_connected_at_ms: last,
        discovered: false,
    }
}

fn ids(records: &[LaboratoryServerRecord]) -> Vec<&str> {
    records.iter().map(|r| r.server_id.as_str()).collect()
}

#[test]
fn servers_are_sorted_by_recency_stably() {
    let sorted = sort_server_records(&vec![
        server("a", None),
        server("b", Some(5)),
        server("c", Some(9)),
        server("d", Some(5)),
        server("e", None),
    ]);
    assert_eq!(ids(&sorted), vec!["c", "b", "d", "a", "e"]);
}

#[test]
fn saving_merges_and_keeps_the_older_time() {
    let records = vec![server("a", Some(3)), server("b", Some(7))];
    let mut updated = server("a", None);
    updated.name = "renamed".into();
    let saved = save_server_record(&records, updated);
    assert_eq!(ids(&saved), vec!["b", "a"]);
    assert_eq!(saved[1].name, "renamed");
    assert_eq!(saved[1].last_connected_at_ms, Some(3));
    let saved = save_server_record(&saved, server("c", Some(10)));
    assert_eq!(ids(&saved), vec!["c", "b", "a"]);
}

#[test]
fn saving_keeps_at_most_32_servers() {
    let records: Vec<_> = (0..40u64).map(|i| server(&format!("s{i}"), Some(i))).collect();
    let saved = save_server_record(&records, server("new", Some(100)));
    assert_eq!(saved.len(), 32);
    assert_eq!(saved[0].server_id, "new");
    assert_eq!(saved[31].server_id, "s9");
}

#[test]
fn promotion_renames_the_server() {
    let records = vec![server("old", Some(1)), server("new", Some(2)), server("x", Some(3))];
    let mut record = server("old", Some(1));
    let (previous, list) = promote_server_record(&records, &mut record, " new ", 50).unwrap();
    assert_eq!(previous, "old");
    assert_eq!(record.server_id, "new");
    assert_eq!(record.last_connected_at_ms, Some(50));
    assert_eq!(ids(&list), vec!["new", "x"]);
    let mut same = server("x", Some(3));
    assert!(promote_server_record(&records, &mut same, "x", 60).is_none());
    assert!(promote_server_record(&records, &mut same, "  ", 60).is_none());
    assert_eq!(same.last_connected_at_ms, Some(3));
}

fn client(id: &str, online: bool) -> LaboratoryClientRecord {
    LaboratoryClientRecord { client_id: id.into(), name: "c".into(), online, last_connected_at_ms: Some(1) }
}

#[test]
fn client_records_are_updated() {
    let records = vec![client("a", false)];
    let updated = update_client_record(&records, "a", true, Some("  Phone "), 9);
    assert_eq!(updated[0].name, "Phone");
    assert!(updated[0].online);
    assert_eq!(updated[0].last_connected_at_ms, Some(9));
    let left = update_client_record(&updated, "a", false, Some(" "), 10);
    assert_eq!(left[0].name, "Phone");
    assert_eq!(left[0].last_connected_at_ms, Some(9));
    let added = update_client_record(&records, "b", false, None, 11);
    assert_eq!(added.len(), 2);
    assert_eq!(added[1].name, "Lyrics Plus 客户端");
    assert_eq!(added[1].last_connected_at_ms, None);
    let (offline, changed) = mark_clients_offline(&updated);
    assert!(changed && !offline[0].online);
    let (_, unchanged) = mark_clients_offline(&offline);
    assert!(!unchanged);
}

#[test]
fn discovery_keeps_one_answer_per_server() {
    let mut found = Vec::new();
    note_discovered(&mut found, server("a", None));
    note_discovered(&mut found, server("b", None));
    let mut newer = server("a", None);
    newer.port = 9000;
    note_discovered(&mut found, newer);
    let mut other_protocol = server("c", None);
    other_protocol.protocol_version = 2;
    note_discovered(&mut found, other_protocol);
    assert_eq!(ids(&found), vec!["b", "a"]);
    assert_eq!(found[1].port, 9000);
}
