use lyrics_plus::config::{LaboratoryRole, LaboratoryServerPreferences};
use lyrics_plus::credentials::ClientPasswords;
use lyrics_plus::laboratory::{
    LaboratoryClientRecord, LaboratoryConnectInput, LaboratoryPhase, LaboratoryServerRecord,
    LaboratoryServerSettingsInput, LaboratoryWebAddress, RuntimeView,
};
use lyrics_plus::runtime::{
    apply_server_settings, client_start_record, command_debounce_ms, find_server_record,
    forget_client, playback_command_gate, prepare_connection, retry_target, save_discovered,
    scan_reconnect_target, server_settings_follow_up, status_web_addresses,
    ServerSettingsFollowUp,
};

fn server(id: &str, address: &str, port: u16, last: Option<u64>) -> LaboratoryServerRecord {
    LaboratoryServerRecord {
        server_id: id.into(),
        name: id.into(),
        address: address.into(),
        port,
        protocol_version: 1,
        requires_password: true,
        web_available: false,
        last_connected_at_ms: last,
        discovered: true,
    }
}

fn connect(server_id: Option<&str>, address: &str, port: u16, password: &str) -> LaboratoryConnectInput {
    LaboratoryConnectInput {
        server_id: server_id.map(str::to_string),
        name: "  ".into(),
        address: address.into(),
        port,
        requires_password: true,
        web_available: true,
        password: password.into(),
    }
}

#[test]
fn stopping_clears_the_view() {
    let mut view = RuntimeView::new(LaboratoryRole::Server);
    view.server_address = Some("10.0.0.1:47123".into());
    view.web_addresses.push(LaboratoryWebAddress { address: "a".into(), url: "u".into() });
    view.clients.push(LaboratoryClientRecord { client_id: "c".into(), name: "n".into(), online: true, last_connected_at_ms: None });
    view.set_phase(LaboratoryPhase::Running, None);
    assert!(view.server_address.is_some());
    view.set_phase(LaboratoryPhase::Stopped, Some("bye".into()));
    assert!(view.server_address.is_none());
    assert!(view.web_addresses.is_empty());
    assert!(!view.clients[0].online);
    assert_eq!(view.message.as_deref(), Some("bye"));
}

#[test]
fn server_settings() {
    let current = LaboratoryServerPreferences::defaults_named("Mac".into());
    let input = LaboratoryServerSettingsInput {
        name: "  Studio ".into(),
        port: 48000,
        discovery_enabled: false,
        web_enabled: true,
        debounce_ms: 5,
    };
    let change = apply_server_settings(&current, &input).unwrap();
    assert_eq!(change.settings.name, "Studio");
    assert_eq!(change.settings.debounce_ms, 50);
    assert!(change.port_changed && change.web_changed);
    let low = LaboratoryServerSettingsInput { port: 80, ..input };
    assert_eq!(apply_server_settings(&current, &low).unwrap_err(), "实验室服务端端口必须在 1024 到 65535 之间");
    assert_eq!(command_debounce_ms(20000), 10000);
    assert_eq!(command_debounce_ms(700), 700);
    assert_eq!(server_settings_follow_up(true, LaboratoryRole::Server, true, false), ServerSettingsFollowUp::Restart);
    assert_eq!(
        server_settings_follow_up(true, LaboratoryRole::Server, false, true),
        ServerSettingsFollowUp::Refresh { reauthenticate_web: true }
    );
    assert_eq!(server_settings_follow_up(true, LaboratoryRole::Client, true, true), ServerSettingsFollowUp::Nothing);
    assert_eq!(server_settings_follow_up(false, LaboratoryRole::Server, true, true), ServerSettingsFollowUp::Nothing);
}

#[test]
fn manual_connections() {
    let mut passwords = ClientPasswords::new();
    passwords.save("manual:10.0.0.9:47123", "remembered");
    let (record, password) = prepare_connection(&connect(None, " 10.0.0.9 ", 47123, " "), &passwords, 77).unwrap();
    assert_eq!(record.server_id, "manual:10.0.0.9:47123");
    assert_eq!(record.name, "10.0.0.9");
    assert_eq!(record.last_connected_at_ms, Some(77));
    assert!(!record.discovered);
    assert_eq!(password, "remembered");
    let (_, typed) = prepare_connection(&connect(Some("srv"), "h", 47123, "typed"), &passwords, 1).unwrap();
    assert_eq!(typed, "typed");
    assert_eq!(prepare_connection(&connect(None, "  ", 47123, ""), &passwords, 1).unwrap_err(), "服务端地址不能为空");
    assert_eq!(prepare_connection(&connect(None, "h", 1000, ""), &passwords, 1).unwrap_err(), "服务端端口必须在 1024 到 65535 之间");
}

#[test]
fn remembered_servers() {
    let records = vec![server("a", "1.1.1.1", 2000, Some(1)), server("b", "2.2.2.2", 2000, Some(2))];
    assert_eq!(find_server_record(&records, "b").unwrap().address, "2.2.2.2");
    assert!(find_server_record(&records, "c").is_none());
    assert_eq!(client_start_record(&Some("a".into()), &records).unwrap().server_id, "a");
    assert_eq!(
        client_start_record(&None, &records).unwrap_err(),
        "没有可自动连接的最近服务端，请先扫描或手动连接"
    );
    let mut passwords = ClientPasswords::new();
    passwords.save("a", "pw");
    let input = retry_target(&Some("a".into()), &records, &passwords).unwrap();
    assert_eq!(input.server_id.as_deref(), Some("a"));
    assert_eq!(input.password, "pw");
    assert_eq!(retry_target(&None, &records, &passwords).unwrap_err(), "没有最近连接的服务端");
    assert_eq!(retry_target(&Some("z".into()), &records, &passwords).unwrap_err(), "最近服务端记录不存在");
}

#[test]
fn scans() {
    let previous = vec![server("a", "1.1.1.1", 2000, Some(1)), server("b", "2.2.2.2", 2000, Some(2))];
    let discovered = vec![server("a", "1.1.1.2", 2000, None), server("b", "2.2.2.2", 2000, None)];
    let target = scan_reconnect_target(&Some("a".into()), &previous, &discovered).unwrap();
    assert_eq!(target.address, "1.1.1.2");
    assert!(scan_reconnect_target(&Some("b".into()), &previous, &discovered).is_none());
    assert!(scan_reconnect_target(&None, &previous, &discovered).is_none());
    let saved = save_discovered(&previous, &discovered);
    assert_eq!(saved.len(), 2);
    assert_eq!(saved[0].server_id, "b");
    assert_eq!(saved[1].address, "1.1.1.2");
    assert_eq!(saved[1].last_connected_at_ms, Some(1));
}

#[test]
fn clients_and_commands() {
    let records = vec![
        LaboratoryClientRecord { client_id: "x".into(), name: "n".into(), online: false, last_connected_at_ms: None },
        LaboratoryClientRecord { client_id: "y".into(), name: "n".into(), online: true, last_connected_at_ms: None },
    ];
    assert_eq!(forget_client(&records, "x").len(), 1);
    assert_eq!(forget_client(&records, "y").len(), 2);
    assert_eq!(playback_command_gate(false, true).unwrap_err(), "当前不是实验室客户端");
    assert_eq!(playback_command_gate(true, false).unwrap_err(), "实验室客户端尚未连接");
    assert!(playback_command_gate(true, true).is_ok());
    assert!(status_web_addresses(LaboratoryRole::Client, LaboratoryPhase::Running, true, &None, 1, &vec![]).is_none());
    assert_eq!(
        status_web_addresses(LaboratoryRole::Server, LaboratoryPhase::Running, true, &Some("t".into()), 47123, &vec![(10, 0, 0, 1)])
            .unwrap()[0]
            .url,
        "http://10.0.0.1:47123/?token=t"
    );
    assert!(status_web_addresses(LaboratoryRole::Server, LaboratoryPhase::Running, false, &Some("t".into()), 1, &vec![(10, 0, 0, 1)]).unwrap().is_empty());
    assert!(status_web_addresses(LaboratoryRole::Server, LaboratoryPhase::Stopped, true, &Some("t".into()), 1, &vec![]).is_none());
}
