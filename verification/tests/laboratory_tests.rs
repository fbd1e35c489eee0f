use lyrics_plus::laboratory::{
    build_mdns_announcement, build_mdns_query, hex_value, ipv4_octets,
    is_mdns_service_query, laboratory_phase_is_active, parse_mdns_record, percent_decode,
    percent_encode, LaboratoryPhase, LaboratoryServerRecord, RuntimeView, PROTOCOL_VERSION,
};
use lyrics_plus::config::LaboratoryRole;

fn record() -> LaboratoryServerRecord {
    LaboratoryServerRecord {
        server_id: "server-abc".into(),
        name: "Living Room".into(),
        address: "192.168.1.20".into(),
        port: 8787,
        protocol_version: PROTOCOL_VERSION,
        requires_password: true,
        web_available: false,
        last_connected_at_ms: Some(5),
        discovered: false,
    }
}

#[test]
fn announcement_reads_back_as_the_announced_server() {
    let packet = build_mdns_announcement(&record());
    let parsed = parse_mdns_record(&packet).expect("announcement parses");
    assert_eq!(parsed.server_id, "server-abc");
    assert_eq!(parsed.name, "Living Room");
    assert_eq!(parsed.address, "192.168.1.20");
    assert_eq!(parsed.port, 8787);
    assert_eq!(parsed.protocol_version, 1);
    assert!(parsed.requires_password);
    assert!(!parsed.web_available);
    assert_eq!(parsed.last_connected_at_ms, None);
    assert!(parsed.discovered);
}

#[test]
fn packets_without_the_fields_are_not_servers() {
    assert!(parse_mdns_record(b"nothing here").is_none());
    assert!(parse_mdns_record(b"id=x&name=y").is_none());
}

#[test]
fn the_query_asks_for_the_service() {
    let query = build_mdns_query();
    assert!(is_mdns_service_query(&query));
    assert!(!is_mdns_service_query(b"hello"));
    assert_eq!(&query[..12], &[0, 0, 0, 0, 0, 1, 0, 0, 0, 0, 0, 0]);
}

#[test]
fn ipv4_text_is_parsed_strictly() {
    assert_eq!(ipv4_octets("192.168.1.20"), Some((192, 168, 1, 20)));
    assert_eq!(ipv4_octets("256.1.1.1"), None);
    assert_eq!(ipv4_octets("1.2.3"), None);
    assert_eq!(ipv4_octets("a.b.c.d"), None);
}

#[test]
fn percent_encoding_round_trip() {
    assert_eq!(percent_encode("a b/ü"), "a%20b%2F%C3%BC");
    assert_eq!(percent_decode("a%20b%2F%C3%BC"), "a b/ü");
    assert_eq!(percent_decode("100%"), "100%");
    assert_eq!(percent_decode("%zz"), "%zz");
    assert_eq!(percent_decode(&percent_encode("主题 1")), "主题 1");
    assert_eq!(hex_value(b'f'), Some(15));
    assert_eq!(hex_value(b'G'), None);
    assert_eq!(percent_decode("a%FF"), "a\u{fffd}");
}

#[test]
fn phases_and_views() {
    assert!(laboratory_phase_is_active(LaboratoryPhase::Reconnecting));
    assert!(!laboratory_phase_is_active(LaboratoryPhase::Error));
    assert!(!laboratory_phase_is_active(LaboratoryPhase::Stopped));
    let view = RuntimeView::new(LaboratoryRole::Client);
    assert_eq!(view.phase, LaboratoryPhase::Stopped);
    assert!(view.recent_servers.is_empty());
}

#[test]
fn percent_encoding_is_undone_by_decoding() {
    for text in ["", "plain", "a b&c=d", "封面/1?x#y", "%41", "~-_.", "\u{1F3B5} note"] {
        assert_eq!(percent_decode(&percent_encode(text)), text);
    }
}

#[test]
fn percent_escapes_at_the_edges() {
    assert_eq!(lyrics_plus::laboratory::percent_encode("a b%"), "a%20b%25");
    assert_eq!(lyrics_plus::laboratory::percent_decode("%41%4"), "A%4");
    let text = "主题 a+b%~";
    assert_eq!(lyrics_plus::laboratory::percent_decode(&lyrics_plus::laboratory::percent_encode(text)), text);
}
