use vstd::prelude::*;

use crate::addresses::{web_addresses, Ipv4};
use crate::config::{LaboratoryRole, LaboratoryServerPreferences};
use crate::credentials::ClientPasswords;
use crate::laboratory::{
    LaboratoryClientRecord, LaboratoryConnectInput, LaboratoryPhase, LaboratoryServerRecord,
    LaboratoryServerSettingsInput, LaboratoryWebAddress, RuntimeView, PROTOCOL_VERSION,
};
use crate::player::opt_view;
use crate::records::{copy_client_record, copy_server_record, saved_servers, save_server_record};
use crate::text::{
    chars_of, decimal_spec, push_chars, push_decimal, push_str, str_eq, string_from_chars,
    trim_spec, trim_str,
};

verus! {

/// The runtime view after a phase change: stopping also clears the server
/// address and web addresses and shows every client offline.
pub open spec fn phase_view_spec(
    old_view: RuntimeView,
    phase: LaboratoryPhase,
    message: Option<String>,
    new_view: RuntimeView,
) -> bool {
    &&& new_view.role == old_view.role
    &&& new_view.phase == phase
    &&& new_view.message == message
    &&& new_view.recent_servers == old_view.recent_servers
    &&& new_view.clients@.len() == old_view.clients@.len()
    &&& if phase == LaboratoryPhase::Stopped {
        &&& new_view.server_address is None
        &&& new_view.web_addresses@.len() == 0
        &&& forall|i: int|
            0 <= i < old_view.clients@.len() ==> (#[trigger] new_view.clients@[i]) == (
            LaboratoryClientRecord { online: false, ..old_view.clients@[i] })
    } else {
        &&& new_view.server_address == old_view.server_address
        &&& new_view.web_addresses == old_view.web_addresses
        &&& new_view.clients == old_view.clients
    }
}

impl RuntimeView {
    /// Moves the runtime to `phase` with an optional message.
    pub fn set_phase(&mut self, phase: LaboratoryPhase, message: Option<String>)
        ensures
            phase_view_spec(*old(self), phase, message, *final(self)),
    {
        self.phase = phase;
        self.message = message;
        if phase == LaboratoryPhase::Stopped {
            self.server_address = None;
            self.web_addresses = Vec::new();
            let (offline, _) = crate::records::mark_clients_offline(&self.clients);
            self.clients = offline;
        }
    }
}

/// The lowest and highest port a laboratory server may use.
pub const MIN_SERVER_PORT: u16 = 1024;

/// Debounce times of playback commands are held between these bounds.
pub open spec fn clamp_debounce(ms: u64) -> u64 {
    if ms < 50 {
        50
    } else if ms > 10000 {
        10000
    } else {
        ms
    }
}

/// The debounce of playback commands, held between 50 ms and 10 s.
pub fn command_debounce_ms(configured: u64) -> (r: u64)
    ensures
        r == clamp_debounce(configured),
{
    if configured < 50 {
        50
    } else if configured > 10000 {
        10000
    } else {
        configured
    }
}

/// The server settings after the user submitted new ones, and what changed.
#[derive(Debug, Clone)]
pub struct ServerSettingsChange {
    pub settings: LaboratoryServerPreferences,
    pub port_changed: bool,
    pub web_changed: bool,
}

/// Applies submitted server settings: the port must be 1024 or more, the
/// name is trimmed and the debounce held between 50 ms and 10 s.
pub fn apply_server_settings(
    current: &LaboratoryServerPreferences,
    input: &LaboratoryServerSettingsInput,
) -> (r: Result<ServerSettingsChange, String>)
    ensures
        input.port < MIN_SERVER_PORT ==> (r matches Err(e) && e@
            == "实验室服务端端口必须在 1024 到 65535 之间"@),
        input.port >= MIN_SERVER_PORT ==> (r matches Ok(c) && c.settings.name@ == trim_spec(
            input.name@,
        ) && c.settings.port == input.port && c.settings.discovery_enabled
            == input.discovery_enabled && c.settings.web_enabled == input.web_enabled
            && c.settings.debounce_ms == clamp_debounce(input.debounce_ms) && c.port_changed == (
        current.port != input.port) && c.web_changed == (current.web_enabled != input.web_enabled)),
{
    if input.port < MIN_SERVER_PORT {
        return Err(string_from_chars(&chars_of("实验室服务端端口必须在 1024 到 65535 之间")));
    }
    let name = trim_str(input.name.as_str());
    Ok(
        ServerSettingsChange {
            settings: LaboratoryServerPreferences {
                name: string_from_chars(&name),
                port: input.port,
                discovery_enabled: input.discovery_enabled,
                web_enabled: input.web_enabled,
                debounce_ms: command_debounce_ms(input.debounce_ms),
            },
            port_changed: current.port != input.port,
            web_changed: current.web_enabled != input.web_enabled,
        },
    )
}

/// What follows a change of the server settings.
#[derive(Debug, Clone, Copy, PartialEq, Eq, Structural)]
pub enum ServerSettingsFollowUp {
    /// A running server moved to another port and restarts.
    Restart,
    /// A running server keeps its port: its addresses are refreshed, and web
    /// pages must sign in again when the web service was switched.
    Refresh { reauthenticate_web: bool },
    /// The server is not running; nothing else happens.
    Nothing,
}

/// Decides what a running server does after its settings changed.
pub fn server_settings_follow_up(
    was_running: bool,
    role: LaboratoryRole,
    port_changed: bool,
    web_changed: bool,
) -> (r: ServerSettingsFollowUp)
    ensures
        r == if was_running && role == LaboratoryRole::Server && port_changed {
            ServerSettingsFollowUp::Restart
        } else if was_running && role == LaboratoryRole::Server {
            ServerSettingsFollowUp::Refresh { reauthenticate_web: web_changed }
        } else {
            ServerSettingsFollowUp::Nothing
        },
{
    let is_server = match role {
        LaboratoryRole::Server => true,
        LaboratoryRole::Client => false,
    };
    if was_running && is_server && port_changed {
        ServerSettingsFollowUp::Restart
    } else if was_running && is_server {
        ServerSettingsFollowUp::Refresh { reauthenticate_web: web_changed }
    } else {
        ServerSettingsFollowUp::Nothing
    }
}

/// The identifier given to a server entered by hand.
pub open spec fn manual_server_id(address: Seq<char>, port: u16) -> Seq<char> {
    "manual:"@ + address + ":"@ + decimal_spec(port as nat)
}

/// The record and password a manual connection uses: the address must not
/// be blank and the port must be 1024 or more; a server entered by hand
/// gets a `manual:` identifier; a blank password for a server that wants
/// one falls back to the remembered one.
pub open spec fn connection_spec(
    input: LaboratoryConnectInput,
    passwords: Map<Seq<char>, Seq<char>>,
    now_ms: u64,
    r: Result<(LaboratoryServerRecord, String), String>,
) -> bool {
    let address = trim_spec(input.address@);
    let name = trim_spec(input.name@);
    let id = match input.server_id {
        Some(s) => s@,
        None => manual_server_id(address, input.port),
    };
    if address.len() == 0 {
        r matches Err(e) && e@ == "服务端地址不能为空"@
    } else if input.port < MIN_SERVER_PORT {
        r matches Err(e) && e@ == "服务端端口必须在 1024 到 65535 之间"@
    } else {
        r matches Ok((record, password)) && record.server_id@ == id && record.name@ == (if name.len()
            == 0 {
            address
        } else {
            name
        }) && record.address@ == address && record.port == input.port && record.protocol_version
            == PROTOCOL_VERSION && record.requires_password == input.requires_password
            && record.web_available == input.web_available && record.last_connected_at_ms == Some(
            now_ms,
        ) && !record.discovered && password@ == (if input.requires_password && trim_spec(
            input.password@,
        ).len() == 0 {
            if passwords.dom().contains(id) {
                passwords[id]
            } else {
                seq![]
            }
        } else {
            input.password@
        })
    }
}

/// Prepares a connection to a server the user chose.
pub fn prepare_connection(
    input: &LaboratoryConnectInput,
    passwords: &ClientPasswords,
    now_ms: u64,
) -> (r: Result<(LaboratoryServerRecord, String), String>)
    requires
        passwords.wf(),
    ensures
        connection_spec(*input, passwords@, now_ms, r),
{
    let address = trim_str(input.address.as_str());
    let name = trim_str(input.name.as_str());
    if address.len() == 0 {
        return Err(string_from_chars(&chars_of("服务端地址不能为空")));
    }
    if input.port < MIN_SERVER_PORT {
        return Err(string_from_chars(&chars_of("服务端端口必须在 1024 到 65535 之间")));
    }
    let server_id = match &input.server_id {
        Some(s) => s.clone(),
        None => {
            let mut id: Vec<char> = Vec::new();
            push_str(&mut id, "manual:");
            push_chars(&mut id, &address);
            push_str(&mut id, ":");
            push_decimal(input.port as u64, &mut id);
            string_from_chars(&id)
        },
    };
    let password = if input.requires_password && trim_str(input.password.as_str()).len() == 0 {
        match passwords.get(server_id.as_str()) {
            Some(p) => p,
            None => string_from_chars(&Vec::new()),
        }
    } else {
        input.password.clone()
    };
    let record = LaboratoryServerRecord {
        server_id,
        name: if name.len() == 0 {
            string_from_chars(&address)
        } else {
            string_from_chars(&name)
        },
        address: string_from_chars(&address),
        port: input.port,
        protocol_version: PROTOCOL_VERSION,
        requires_password: input.requires_password,
        web_available: input.web_available,
        last_connected_at_ms: Some(now_ms),
        discovered: false,
    };
    Ok((record, password))
}

/// The first record of a server.
pub open spec fn find_server_spec(records: Seq<LaboratoryServerRecord>, id: Seq<char>) -> Option<
    LaboratoryServerRecord,
> {
    match crate::records::server_index(records, id) {
        Some(i) => Some(records[i]),
        None => None,
    }
}

/// Finds the first remembered record of a server.
pub fn find_server_record(records: &Vec<LaboratoryServerRecord>, id: &str) -> (r: Option<
    LaboratoryServerRecord,
>)
    ensures
        r == find_server_spec(records@, id@),
{
    let mut i: usize = 0;
    while i < records.len()
        invariant
            i <= records@.len(),
            forall|j: int| 0 <= j < i ==> (#[trigger] records@[j]).server_id@ != id@,
        decreases records@.len() - i,
    {
        if str_eq(records[i].server_id.as_str(), id) {
            proof {
                crate::records::lemma_server_index_at(records@, id@, i as int);
            }
            return Some(copy_server_record(&records[i]));
        }
        i = i + 1;
    }
    proof {
        crate::records::lemma_server_index_none(records@, id@);
    }
    None
}

/// The server a client reconnects to on "retry": the last one it used, with
/// the password remembered for it.
pub fn retry_target(
    last_server_id: &Option<String>,
    records: &Vec<LaboratoryServerRecord>,
    passwords: &ClientPasswords,
) -> (r: Result<LaboratoryConnectInput, String>)
    requires
        passwords.wf(),
    ensures
        match last_server_id {
            None => r matches Err(e) && e@ == "没有最近连接的服务端"@,
            Some(id) => match find_server_spec(records@, id@) {
                None => r matches Err(e) && e@ == "最近服务端记录不存在"@,
                Some(record) => r matches Ok(input) && opt_view(input.server_id) == Some(
                    record.server_id@,
                ) && input.name == record.name && input.address == record.address && input.port
                    == record.port && input.requires_password == record.requires_password
                    && input.web_available == record.web_available && input.password@ == (if passwords@.dom().contains(id@) {
                    passwords@[id@]
                } else {
                    seq![]
                }),
            },
        },
{
    let id = match last_server_id {
        Some(id) => id,
        None => {
            return Err(string_from_chars(&chars_of("没有最近连接的服务端")));
        },
    };
    let record = match find_server_record(records, id.as_str()) {
        Some(r) => r,
        None => {
            return Err(string_from_chars(&chars_of("最近服务端记录不存在")));
        },
    };
    let password = match passwords.get(id.as_str()) {
        Some(p) => p,
        None => string_from_chars(&Vec::new()),
    };
    Ok(
        LaboratoryConnectInput {
            server_id: Some(record.server_id),
            name: record.name,
            address: record.address,
            port: record.port,
            requires_password: record.requires_password,
            web_available: record.web_available,
            password,
        },
    )
}

/// The message when a client has no server to start with.
pub open spec fn no_recent_server_message() -> Seq<char> {
    "没有可自动连接的最近服务端，请先扫描或手动连接"@
}

/// The server a starting client connects to: the last one it used, if it is
/// remembered.
pub fn client_start_record(last_server_id: &Option<String>, records: &Vec<LaboratoryServerRecord>) -> (r:
    Result<LaboratoryServerRecord, String>)
    ensures
        match last_server_id {
            Some(id) if find_server_spec(records@, id@) is Some => r == Ok::<
                LaboratoryServerRecord,
                String,
            >(find_server_spec(records@, id@)->0),
            _ => r matches Err(e) && e@ == no_recent_server_message(),
        },
{
    if let Some(id) = last_server_id {
        if let Some(record) = find_server_record(records, id.as_str()) {
            return Ok(record);
        }
    }
    Err(string_from_chars(&chars_of("没有可自动连接的最近服务端，请先扫描或手动连接")))
}

/// The remembered servers after saving each discovered one in turn.
pub open spec fn save_all_spec(
    records: Seq<LaboratoryServerRecord>,
    discovered: Seq<LaboratoryServerRecord>,
) -> Seq<LaboratoryServerRecord>
    decreases discovered.len(),
{
    if discovered.len() == 0 {
        records
    } else {
        saved_servers(save_all_spec(records, discovered.drop_last()), discovered.last())
    }
}

/// Saves each discovered server into the remembered list, in order.
pub fn save_discovered(records: &Vec<LaboratoryServerRecord>, discovered: &Vec<LaboratoryServerRecord>) -> (r:
    Vec<LaboratoryServerRecord>)
    ensures
        r@ == save_all_spec(records@, discovered@),
{
    let mut current: Vec<LaboratoryServerRecord> = Vec::new();
    let mut k: usize = 0;
    while k < records.len()
        invariant
            k <= records@.len(),
            current@ == records@.take(k as int),
        decreases records@.len() - k,
    {
        current.push(copy_server_record(&records[k]));
        k = k + 1;
    }
    assert(records@.take(records@.len() as int) == records@);
    let mut i: usize = 0;
    assert(discovered@.take(0) == Seq::<LaboratoryServerRecord>::empty());
    while i < discovered.len()
        invariant
            i <= discovered@.len(),
            current@ == save_all_spec(records@, discovered@.take(i as int)),
        decreases discovered@.len() - i,
    {
        let ghost t = discovered@.take(i + 1);
        assert(t.drop_last() == discovered@.take(i as int));
        assert(t.last() == discovered@[i as int]);
        current = save_server_record(&current, copy_server_record(&discovered[i]));
        i = i + 1;
    }
    assert(discovered@.take(discovered@.len() as int) == discovered@);
    current
}

/// A discovered record of the active server that announces another address
/// or port than the one remembered before the scan.
pub open spec fn moved_server(
    active: Option<Seq<char>>,
    previous: Seq<LaboratoryServerRecord>,
    record: LaboratoryServerRecord,
) -> bool {
    active == Some(record.server_id@) && match find_server_spec(previous, record.server_id@) {
        Some(p) => p.address@ != record.address@ || p.port != record.port,
        None => false,
    }
}

/// The last discovered record of the active server that moved.
pub open spec fn reconnect_spec(
    active: Option<Seq<char>>,
    previous: Seq<LaboratoryServerRecord>,
    discovered: Seq<LaboratoryServerRecord>,
) -> Option<LaboratoryServerRecord>
    decreases discovered.len(),
{
    if discovered.len() == 0 {
        None
    } else if moved_server(active, previous, discovered.last()) {
        Some(discovered.last())
    } else {
        reconnect_spec(active, previous, discovered.drop_last())
    }
}

/// After a scan, the server a running client reconnects to: the active
/// server, if the scan found it under a new address or port.
pub fn scan_reconnect_target(
    active: &Option<String>,
    previous: &Vec<LaboratoryServerRecord>,
    discovered: &Vec<LaboratoryServerRecord>,
) -> (r: Option<LaboratoryServerRecord>)
    ensures
        r == reconnect_spec(opt_view(*active), previous@, discovered@),
{
    let mut i: usize = discovered.len();
    assert(discovered@.take(discovered@.len() as int) == discovered@);
    while i > 0
        invariant
            i <= discovered@.len(),
            reconnect_spec(opt_view(*active), previous@, discovered@) == reconnect_spec(
                opt_view(*active),
                previous@,
                discovered@.take(i as int),
            ),
        decreases i,
    {
        let ghost t = discovered@.take(i as int);
        assert(t.last() == discovered@[i - 1]);
        assert(t.drop_last() == discovered@.take(i - 1));
        let record = &discovered[i - 1];
        let is_active = match active {
            Some(a) => str_eq(a.as_str(), record.server_id.as_str()),
            None => false,
        };
        if is_active {
            if let Some(p) = find_server_record(previous, record.server_id.as_str()) {
                if !str_eq(p.address.as_str(), record.address.as_str()) || p.port != record.port {
                    return Some(copy_server_record(record));
                }
            }
        }
        i = i - 1;
    }
    None
}

/// The client records after forgetting one: its records are dropped unless
/// it is online.
pub open spec fn forget_spec(records: Seq<LaboratoryClientRecord>, id: Seq<char>) -> Seq<
    LaboratoryClientRecord,
>
    decreases records.len(),
{
    if records.len() == 0 {
        seq![]
    } else {
        let rest = forget_spec(records.drop_last(), id);
        if records.last().client_id@ != id || records.last().online {
            rest.push(records.last())
        } else {
            rest
        }
    }
}

/// Forgets an offline client.
pub fn forget_client(records: &Vec<LaboratoryClientRecord>, client_id: &str) -> (r: Vec<
    LaboratoryClientRecord,
>)
    ensures
        r@ == forget_spec(records@, client_id@),
{
    let mut out: Vec<LaboratoryClientRecord> = Vec::new();
    let mut i: usize = 0;
    assert(records@.take(0) == Seq::<LaboratoryClientRecord>::empty());
    while i < records.len()
        invariant
            i <= records@.len(),
            out@ == forget_spec(records@.take(i as int), client_id@),
        decreases records@.len() - i,
    {
        let ghost t = records@.take(i + 1);
        assert(t.drop_last() == records@.take(i as int));
        assert(t.last() == records@[i as int]);
        if !str_eq(records[i].client_id.as_str(), client_id) || records[i].online {
            out.push(copy_client_record(&records[i]));
        }
        i = i + 1;
    }
    assert(records@.take(records@.len() as int) == records@);
    out
}

/// Whether a client may send a playback command now.
pub fn playback_command_gate(is_client: bool, connected: bool) -> (r: Result<(), String>)
    ensures
        !is_client ==> (r matches Err(e) && e@ == "当前不是实验室客户端"@),
        is_client && !connected ==> (r matches Err(e) && e@ == "实验室客户端尚未连接"@),
        is_client && connected ==> r is Ok,
{
    if !is_client {
        return Err(string_from_chars(&chars_of("当前不是实验室客户端")));
    }
    if !connected {
        return Err(string_from_chars(&chars_of("实验室客户端尚未连接")));
    }
    Ok(())
}

/// The web addresses a status shows for a running server with the web
/// service on; `None` keeps what the view holds.
pub fn status_web_addresses(
    role: LaboratoryRole,
    phase: LaboratoryPhase,
    web_enabled: bool,
    token: &Option<String>,
    port: u16,
    addresses: &Vec<Ipv4>,
) -> (r: Option<Vec<LaboratoryWebAddress>>)
    ensures
        !(role == LaboratoryRole::Server && crate::laboratory::phase_is_active_spec(phase)) ==> r
            is None,
        role == LaboratoryRole::Server && crate::laboratory::phase_is_active_spec(phase) ==> (r matches Some(list)
            && match token {
            Some(t) if web_enabled => crate::addresses::web_addresses_spec(port, t@, addresses@, list@),
            _ => list@.len() == 0,
        }),
{
    let is_server = match role {
        LaboratoryRole::Server => true,
        LaboratoryRole::Client => false,
    };
    if !(is_server && crate::laboratory::laboratory_phase_is_active(phase)) {
        return None;
    }
    if !web_enabled {
        return Some(Vec::new());
    }
    match token {
        Some(t) => Some(web_addresses(port, t.as_str(), addresses)),
        None => Some(Vec::new()),
    }
}

} // verus!
