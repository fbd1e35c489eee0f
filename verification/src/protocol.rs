use vstd::prelude::*;

use crate::json::{get_spec, json_get, JsonValue};
use crate::laboratory::{LaboratoryPhase, PROTOCOL_VERSION};
use crate::player::{opt_view, PlaybackSnapshot};
use crate::text::{
    chars_of, decimal_spec, push_chars, push_decimal, push_str, str_eq, string_from_chars,
    trim_spec, trim_str,
};
use crate::web::{char_index, strip_prefixes, websocket_guid};

verus! {

/// The text of a member that is a JSON string.
pub open spec fn str_member(v: JsonValue, key: Seq<char>) -> Option<Seq<char>> {
    match get_spec(v, key) {
        Some(JsonValue::String(s)) => Some(s@),
        _ => None,
    }
}

/// The value of a member that is a JSON number with an unsigned integer value.
pub open spec fn u64_member(v: JsonValue, key: Seq<char>) -> Option<u64> {
    match get_spec(v, key) {
        Some(JsonValue::Number(n)) => n.unsigned,
        _ => None,
    }
}

/// The `payload` member of a message, or `null`.
pub open spec fn payload_of(v: JsonValue) -> JsonValue {
    match get_spec(v, "payload"@) {
        Some(p) => p,
        None => JsonValue::Null,
    }
}

/// Reads a string member.
pub fn json_str_member(v: &JsonValue, key: &str) -> (r: Option<String>)
    ensures
        opt_view(r) == str_member(*v, key@),
{
    let k = chars_of(key);
    match json_get(v, &k) {
        Some(JsonValue::String(s)) => Some(s.clone()),
        _ => None,
    }
}

/// Reads an unsigned integer member.
pub fn json_u64_member(v: &JsonValue, key: &str) -> (r: Option<u64>)
    ensures
        r == u64_member(*v, key@),
{
    let k = chars_of(key);
    match json_get(v, &k) {
        Some(JsonValue::Number(n)) => n.unsigned,
        _ => None,
    }
}

/// How a server answers the first message of an application client.
#[derive(Debug, Clone)]
pub enum HelloOutcome {
    /// The client is admitted under this identifier and name.
    Accepted { client_id: String, name: String },
    /// The client is refused: `code` and `message` go back in a
    /// `session.error`, `failure` is what the server records.
    Rejected {
        code: &'static str,
        message: &'static str,
        request_id: Option<String>,
        failure: &'static str,
    },
}

pub open spec fn rejects(
    r: HelloOutcome,
    code: Seq<char>,
    message: Seq<char>,
    request_id: Option<Seq<char>>,
    failure: Seq<char>,
) -> bool {
    r matches HelloOutcome::Rejected { code: c, message: m, request_id: q, failure: f } && c@
        == code && m@ == message && opt_view(q) == request_id && f@ == failure
}

/// The rules a `client.hello` must meet: that type, protocol version 1, a
/// non-blank client identifier, and the server password (or none, if the
/// server has no password). A missing name becomes `Lyrics Plus 客户端`.
pub open spec fn hello_outcome_spec(message: JsonValue, password: Option<Seq<char>>, r: HelloOutcome) -> bool {
    let payload = payload_of(message);
    let request_id = str_member(message, "requestId"@);
    let id = match str_member(payload, "clientId"@) {
        Some(s) => trim_spec(s),
        None => seq![],
    };
    let sent = match str_member(payload, "password"@) {
        Some(s) => s,
        None => seq![],
    };
    if str_member(message, "type"@) != Some("client.hello"@) {
        rejects(
            r,
            "client_hello_required"@,
            "需要先发送 client.hello"@,
            None,
            "客户端缺少 client.hello"@,
        )
    } else if u64_member(payload, "protocolVersion"@) != Some(PROTOCOL_VERSION as u64) {
        rejects(
            r,
            "unsupported_protocol"@,
            "仅支持实验室协议 v1"@,
            request_id,
            "实验室协议版本不兼容"@,
        )
    } else if id.len() == 0 || !crate::web::password_opens(password, sent) {
        rejects(r, "unauthorized"@, "服务端密码错误"@, request_id, "客户端鉴权失败"@)
    } else {
        r matches HelloOutcome::Accepted { client_id, name } && client_id@ == id && name@
            == match str_member(payload, "name"@) {
            Some(n) => n,
            None => "Lyrics Plus 客户端"@,
        }
    }
}

fn payload_member(v: &JsonValue) -> (r: Option<&JsonValue>)
    ensures
        match r {
            Some(p) => *p == payload_of(*v),
            None => payload_of(*v) == JsonValue::Null && get_spec(*v, "payload"@) is None,
        },
{
    let k = chars_of("payload");
    json_get(v, &k)
}

/// Decides whether the first message of an application client admits it.
pub fn authenticate_client_hello(message: &JsonValue, password: &Option<String>) -> (r: HelloOutcome)
    ensures
        hello_outcome_spec(*message, opt_view(*password), r),
{
    proof {
        reveal_strlit("client.hello");
    }
    let kind = json_str_member(message, "type");
    let is_hello = match &kind {
        Some(t) => str_eq(t.as_str(), "client.hello"),
        None => false,
    };
    if !is_hello {
        return HelloOutcome::Rejected {
            code: "client_hello_required",
            message: "需要先发送 client.hello",
            request_id: None,
            failure: "客户端缺少 client.hello",
        };
    }
    let request_id = json_str_member(message, "requestId");
    let null = JsonValue::Null;
    let payload = match payload_member(message) {
        Some(p) => p,
        None => &null,
    };
    if json_u64_member(payload, "protocolVersion") != Some(1u64) {
        return HelloOutcome::Rejected {
            code: "unsupported_protocol",
            message: "仅支持实验室协议 v1",
            request_id,
            failure: "实验室协议版本不兼容",
        };
    }
    let id = match json_str_member(payload, "clientId") {
        Some(s) => trim_str(s.as_str()),
        None => Vec::new(),
    };
    let sent = match json_str_member(payload, "password") {
        Some(s) => s,
        None => string_from_chars(&Vec::new()),
    };
    if id.len() == 0 || !crate::web::server_password_matches(password, sent.as_str()) {
        return HelloOutcome::Rejected {
            code: "unauthorized",
            message: "服务端密码错误",
            request_id,
            failure: "客户端鉴权失败",
        };
    }
    let name = match json_str_member(payload, "name") {
        Some(n) => n,
        None => string_from_chars(&chars_of("Lyrics Plus 客户端")),
    };
    HelloOutcome::Accepted { client_id: string_from_chars(&id), name }
}

/// A message that an application client receives from its server.
#[derive(Debug, Clone)]
pub enum ClientMessage {
    /// A full state; after `session.ready` it may carry the server's stable
    /// identifier. `state_member` says whether the state is the payload's
    /// `state` member or the payload itself.
    Snapshot { server_id: Option<String>, state_member: bool },
    /// A new playback state.
    PlaybackChanged,
    /// A new lyrics state.
    LyricsChanged,
    /// A new spectrum state.
    SpectrumState,
    /// A new spectrum frame.
    SpectrumFrame,
    /// The answer to a playback command.
    CommandResult,
    /// The server ended the session with this message.
    SessionError { message: String },
    /// Anything else.
    Ignored,
}

/// What a client makes of a message from its server.
pub open spec fn client_message_spec(v: JsonValue, r: ClientMessage) -> bool {
    let kind = match str_member(v, "type"@) {
        Some(t) => t,
        None => seq![],
    };
    let payload = payload_of(v);
    if kind == "session.ready"@ || kind == "state.snapshot"@ {
        r matches ClientMessage::Snapshot { server_id, state_member } && opt_view(server_id)
            == (if kind == "session.ready"@ {
            str_member(payload, "serverId"@)
        } else {
            None
        }) && state_member == get_spec(payload, "state"@) is Some
    } else if kind == "playback.changed"@ {
        r is PlaybackChanged
    } else if kind == "lyrics.changed"@ {
        r is LyricsChanged
    } else if kind == "spectrum.state"@ {
        r is SpectrumState
    } else if kind == "spectrum.frame"@ {
        r is SpectrumFrame
    } else if kind == "command.result"@ {
        r is CommandResult
    } else if kind == "session.error"@ {
        r matches ClientMessage::SessionError { message } && message@ == match str_member(
            payload,
            "message"@,
        ) {
            Some(m) => m,
            None => "实验室会话失败"@,
        }
    } else {
        r is Ignored
    }
}

/// Classifies a message from the server.
pub fn classify_client_message(v: &JsonValue) -> (r: ClientMessage)
    ensures
        client_message_spec(*v, r),
{
    let kind = match json_str_member(v, "type") {
        Some(t) => t,
        None => string_from_chars(&Vec::new()),
    };
    let null = JsonValue::Null;
    let payload = match payload_member(v) {
        Some(p) => p,
        None => &null,
    };
    let k = kind.as_str();
    if str_eq(k, "session.ready") || str_eq(k, "state.snapshot") {
        let server_id = if str_eq(k, "session.ready") {
            json_str_member(payload, "serverId")
        } else {
            None
        };
        let state_key = chars_of("state");
        let state_member = json_get(payload, &state_key).is_some();
        ClientMessage::Snapshot { server_id, state_member }
    } else if str_eq(k, "playback.changed") {
        ClientMessage::PlaybackChanged
    } else if str_eq(k, "lyrics.changed") {
        ClientMessage::LyricsChanged
    } else if str_eq(k, "spectrum.state") {
        ClientMessage::SpectrumState
    } else if str_eq(k, "spectrum.frame") {
        ClientMessage::SpectrumFrame
    } else if str_eq(k, "command.result") {
        ClientMessage::CommandResult
    } else if str_eq(k, "session.error") {
        let message = match json_str_member(payload, "message") {
            Some(m) => m,
            None => string_from_chars(&chars_of("实验室会话失败")),
        };
        ClientMessage::SessionError { message }
    } else {
        ClientMessage::Ignored
    }
}

/// A message from the server is classified by its `type` member: each known
/// type gives its own kind of message (`session.ready` and `state.snapshot`
/// a full state), and a message is ignored exactly when its type is none of
/// them.
pub proof fn client_messages_follow_their_type(v: JsonValue, r: ClientMessage)
    requires
        client_message_spec(v, r),
    ensures
        str_member(v, "type"@) == Some("session.ready"@) ==> r is Snapshot,
        str_member(v, "type"@) == Some("state.snapshot"@) ==> r is Snapshot,
        str_member(v, "type"@) == Some("playback.changed"@) ==> r is PlaybackChanged,
        str_member(v, "type"@) == Some("lyrics.changed"@) ==> r is LyricsChanged,
        str_member(v, "type"@) == Some("spectrum.state"@) ==> r is SpectrumState,
        str_member(v, "type"@) == Some("spectrum.frame"@) ==> r is SpectrumFrame,
        str_member(v, "type"@) == Some("command.result"@) ==> r is CommandResult,
        str_member(v, "type"@) == Some("session.error"@) ==> r is SessionError,
        r is Ignored <==> !(str_member(v, "type"@) matches Some(t) && (t == "session.ready"@ || t
            == "state.snapshot"@ || t == "playback.changed"@ || t == "lyrics.changed"@ || t
            == "spectrum.state"@ || t == "spectrum.frame"@ || t == "command.result"@ || t
            == "session.error"@)),
{
    reveal_strlit("session.ready");
    reveal_strlit("state.snapshot");
    reveal_strlit("playback.changed");
    reveal_strlit("lyrics.changed");
    reveal_strlit("spectrum.state");
    reveal_strlit("spectrum.frame");
    reveal_strlit("command.result");
    reveal_strlit("session.error");
    assert("session.ready"@.len() == 13);
    assert("state.snapshot"@.len() == 14);
    assert("playback.changed"@.len() == 16);
    assert("lyrics.changed"@.len() == 14);
    assert("spectrum.state"@.len() == 14);
    assert("spectrum.frame"@.len() == 14);
    assert("command.result"@.len() == 14);
    assert("session.error"@.len() == 13);
    assert("session.ready"@[1] != "state.snapshot"@[1]);
    assert("session.ready"@[0] != "playback.changed"@[0]);
    assert("session.ready"@[0] != "lyrics.changed"@[0]);
    assert("session.ready"@[1] != "spectrum.state"@[1]);
    assert("session.ready"@[1] != "spectrum.frame"@[1]);
    assert("session.ready"@[0] != "command.result"@[0]);
    assert("session.ready"@[8] != "session.error"@[8]);
    assert("state.snapshot"@[0] != "playback.changed"@[0]);
    assert("state.snapshot"@[0] != "lyrics.changed"@[0]);
    assert("state.snapshot"@[1] != "spectrum.state"@[1]);
    assert("state.snapshot"@[1] != "spectrum.frame"@[1]);
    assert("state.snapshot"@[0] != "command.result"@[0]);
    assert("state.snapshot"@[1] != "session.error"@[1]);
    assert("playback.changed"@[0] != "lyrics.changed"@[0]);
    assert("playback.changed"@[0] != "spectrum.state"@[0]);
    assert("playback.changed"@[0] != "spectrum.frame"@[0]);
    assert("playback.changed"@[0] != "command.result"@[0]);
    assert("playback.changed"@[0] != "session.error"@[0]);
    assert("lyrics.changed"@[0] != "spectrum.state"@[0]);
    assert("lyrics.changed"@[0] != "spectrum.frame"@[0]);
    assert("lyrics.changed"@[0] != "command.result"@[0]);
    assert("lyrics.changed"@[0] != "session.error"@[0]);
    assert("spectrum.state"@[9] != "spectrum.frame"@[9]);
    assert("spectrum.state"@[0] != "command.result"@[0]);
    assert("spectrum.state"@[1] != "session.error"@[1]);
    assert("spectrum.frame"@[0] != "command.result"@[0]);
    assert("spectrum.frame"@[1] != "session.error"@[1]);
    assert("command.result"@[0] != "session.error"@[0]);
}

/// A message that the server receives from a connection.
#[derive(Debug, Clone)]
pub enum ServerMessage {
    /// A playback command: `action` is read from the payload's `action`
    /// member; a seek carries `position_ms`.
    PlaybackCommand { position_ms: Option<u64>, request_id: Option<String> },
    /// Anything else is accepted and ignored.
    Ignored,
}

/// Classifies a message received by the server.
pub fn classify_server_message(v: &JsonValue) -> (r: ServerMessage)
    ensures
        str_member(*v, "type"@) == Some("playback.command"@) ==> (r matches ServerMessage::PlaybackCommand {
            position_ms,
            request_id,
        } && position_ms == u64_member(payload_of(*v), "positionMs"@) && opt_view(request_id)
            == str_member(*v, "requestId"@)),
        str_member(*v, "type"@) != Some("playback.command"@) ==> r is Ignored,
{
    proof {
        reveal_strlit("playback.command");
    }
    let is_command = match json_str_member(v, "type") {
        Some(t) => str_eq(t.as_str(), "playback.command"),
        None => false,
    };
    if !is_command {
        return ServerMessage::Ignored;
    }
    let null = JsonValue::Null;
    let payload = match payload_member(v) {
        Some(p) => p,
        None => &null,
    };
    ServerMessage::PlaybackCommand {
        position_ms: json_u64_member(payload, "positionMs"),
        request_id: json_str_member(v, "requestId"),
    }
}

/// Which state messages a server connection sends on one pass.
#[derive(Debug, Clone, Copy, PartialEq, Eq, Structural)]
pub struct StateUpdatePlan {
    pub snapshot: bool,
    pub playback: bool,
    pub lyrics: bool,
    pub spectrum_state: bool,
    pub spectrum_frame: bool,
}

/// The least time between two spectrum frames on one connection.
pub const SPECTRUM_PUSH_INTERVAL_MS: u64 = 100;

/// Plans the state messages of a connection: a full snapshot first; then
/// each part that changed, spectrum frames no more often than every 100 ms.
pub fn plan_state_updates(
    has_previous: bool,
    playback_changed: bool,
    lyrics_changed: bool,
    spectrum_state_changed: bool,
    spectrum_frame_changed: bool,
    since_last_frame_ms: Option<u64>,
) -> (r: StateUpdatePlan)
    ensures
        !has_previous ==> r == (StateUpdatePlan {
            snapshot: true,
            playback: false,
            lyrics: false,
            spectrum_state: false,
            spectrum_frame: false,
        }),
        has_previous ==> r == (StateUpdatePlan {
            snapshot: false,
            playback: playback_changed,
            lyrics: lyrics_changed,
            spectrum_state: spectrum_state_changed,
            spectrum_frame: spectrum_frame_changed && match since_last_frame_ms {
                Some(e) => e >= SPECTRUM_PUSH_INTERVAL_MS,
                None => true,
            },
        }),
{
    if !has_previous {
        return StateUpdatePlan {
            snapshot: true,
            playback: false,
            lyrics: false,
            spectrum_state: false,
            spectrum_frame: false,
        };
    }
    let due = match since_last_frame_ms {
        Some(e) => e >= SPECTRUM_PUSH_INTERVAL_MS,
        None => true,
    };
    StateUpdatePlan {
        snapshot: false,
        playback: playback_changed,
        lyrics: lyrics_changed,
        spectrum_state: spectrum_state_changed,
        spectrum_frame: spectrum_frame_changed && due,
    }
}

/// How often a client tries to reach its server again.
pub const CLIENT_RETRY_LIMIT: usize = 3;

/// The phase shown while a client connects: the very first attempt connects,
/// every later one reconnects.
pub fn client_attempt_phase(attempt: usize, connected_once: bool) -> (r: LaboratoryPhase)
    ensures
        r == if attempt == 0 && !connected_once {
            LaboratoryPhase::Connecting
        } else {
            LaboratoryPhase::Reconnecting
        },
{
    if attempt == 0 && !connected_once {
        LaboratoryPhase::Connecting
    } else {
        LaboratoryPhase::Reconnecting
    }
}

/// The pause before the next attempt, in milliseconds.
pub fn retry_delay_ms(attempt: usize) -> (r: u64)
    requires
        400 + attempt * 250 <= u64::MAX,
    ensures
        r == 400 + attempt * 250,
{
    400 + attempt as u64 * 250
}

/// The error shown when every attempt failed: the last error, or a note that
/// the retries ran out.
pub fn retry_failure_message(last_error: Option<String>) -> (r: String)
    ensures
        r@ == match last_error {
            Some(e) => e@,
            None => "服务端连接失败，已重试 3 次"@,
        },
{
    match last_error {
        Some(e) => e,
        None => string_from_chars(&chars_of("服务端连接失败，已重试 3 次")),
    }
}

/// The number of `:` in `s`.
pub open spec fn colon_count(s: Seq<char>) -> nat
    decreases s.len(),
{
    if s.len() == 0 {
        0
    } else {
        colon_count(s.drop_last()) + if s.last() == ':' {
            1nat
        } else {
            0nat
        }
    }
}

/// The host a client dials for a server address: trimmed, without leading
/// `http://` or `ws://`.
pub open spec fn dial_host(address: Seq<char>) -> Seq<char> {
    strip_prefixes(strip_prefixes(trim_spec(address), "http://"@), "ws://"@)
}

/// The socket address a client dials: an IPv6 address (several `:`, no
/// bracket yet) is put in brackets before the port.
pub open spec fn dial_target(address: Seq<char>, port: u16) -> Seq<char> {
    let host = dial_host(address);
    if colon_count(host) > 1 && !(host.len() > 0 && host[0] == '[') {
        "["@ + host + "]:"@ + decimal_spec(port as nat)
    } else {
        host + ":"@ + decimal_spec(port as nat)
    }
}

fn count_colons(s: &Vec<char>) -> (r: usize)
    ensures
        r == colon_count(s@),
{
    let mut n: usize = 0;
    let mut i: usize = 0;
    assert(s@.take(0) == Seq::<char>::empty());
    while i < s.len()
        invariant
            i <= s@.len(),
            n == colon_count(s@.take(i as int)),
            n <= i,
        decreases s@.len() - i,
    {
        assert(s@.take(i + 1).drop_last() == s@.take(i as int));
        if s[i] == ':' {
            n = n + 1;
        }
        i = i + 1;
    }
    assert(s@.take(s@.len() as int) == s@);
    n
}

fn strip_prefixes_chars(s: &Vec<char>, prefix: &str) -> (r: Vec<char>)
    requires
        prefix@.len() > 0,
    ensures
        r@ == strip_prefixes(s@, prefix@),
{
    let p = chars_of(prefix);
    let mut cur: Vec<char> = s.clone();
    assert(cur@ == s@);
    loop
        invariant
            p@ == prefix@,
            p@.len() > 0,
            strip_prefixes(s@, prefix@) == strip_prefixes(cur@, prefix@),
        decreases cur@.len(),
    {
        if !crate::text::chars_start_with(&cur, prefix) {
            return cur;
        }
        let mut rest: Vec<char> = Vec::new();
        let mut k: usize = p.len();
        while k < cur.len()
            invariant
                p@.len() <= k <= cur@.len(),
                rest@ == cur@.subrange(p@.len() as int, k as int),
            decreases cur@.len() - k,
        {
            rest.push(cur[k]);
            k = k + 1;
        }
        assert(rest@ == cur@.skip(p@.len() as int));
        cur = rest;
    }
}

/// The host and the socket address that a client dials for a server.
pub fn websocket_target(address: &str, port: u16) -> (r: (String, String))
    ensures
        r.0@ == dial_host(address@),
        r.1@ == dial_target(address@, port),
{
    proof {
        reveal_strlit("http://");
        reveal_strlit("ws://");
    }
    let trimmed = trim_str(address);
    let a = strip_prefixes_chars(&trimmed, "http://");
    let host = strip_prefixes_chars(&a, "ws://");
    let mut target: Vec<char> = Vec::new();
    if count_colons(&host) > 1 && !(host.len() > 0 && host[0] == '[') {
        push_str(&mut target, "[");
        push_chars(&mut target, &host);
        push_str(&mut target, "]:");
    } else {
        push_chars(&mut target, &host);
        push_str(&mut target, ":");
    }
    push_decimal(port as u64, &mut target);
    (string_from_chars(&host), string_from_chars(&target))
}

/// The handshake a client sends: an upgrade request for `/ws` with the
/// given host and the base64 of its random key.
pub open spec fn client_handshake_spec(host: Seq<char>, key: Seq<u8>) -> Seq<char> {
    "GET /ws HTTP/1.1\r\nHost: "@ + host
        + "\r\nUpgrade: websocket\r\nConnection: Upgrade\r\nSec-WebSocket-Version: 13\r\nSec-WebSocket-Key: "@
        + crate::web::base64_standard(key) + "\r\n\r\n"@
}

/// Builds the handshake request of a client from its random key bytes.
pub fn client_handshake_request(host: &str, key: &[u8]) -> (r: String)
    ensures
        r@ == client_handshake_spec(host@, key@),
{
    let encoded = crate::web::encode_base64_standard(key);
    let mut out: Vec<char> = Vec::new();
    push_str(&mut out, "GET /ws HTTP/1.1\r\nHost: ");
    push_str(&mut out, host);
    push_str(
        &mut out,
        "\r\nUpgrade: websocket\r\nConnection: Upgrade\r\nSec-WebSocket-Version: 13\r\nSec-WebSocket-Key: ",
    );
    push_str(&mut out, encoded.as_str());
    push_str(&mut out, "\r\n\r\n");
    string_from_chars(&out)
}

/// The first line of a text as `str::lines` yields it, or nothing for an
/// empty text.
pub open spec fn first_line(s: Seq<char>) -> Seq<char> {
    match char_index(s, '\n') {
        Some(i) => if i > 0 && s[i - 1] == '\r' {
            s.take(i - 1)
        } else {
            s.take(i)
        },
        None => s,
    }
}

/// The server accepted the upgrade when its answer starts with
/// `HTTP/1.1 101`; otherwise the error quotes the answer's first line.
pub open spec fn handshake_answer_spec(text: Seq<char>) -> Result<(), Seq<char>> {
    if crate::text::has_prefix(text, "HTTP/1.1 101"@) {
        Ok(())
    } else {
        Err("服务端拒绝 WebSocket 握手："@ + first_line(text))
    }
}

/// Checks the server's answer to a client handshake.
pub fn check_handshake_response(bytes: &[u8]) -> (r: Result<(), String>)
    ensures
        match handshake_answer_spec(crate::laboratory::utf8_lossy(bytes@)) {
            Ok(_) => r is Ok,
            Err(e) => r matches Err(x) && x@ == e,
        },
{
    let text = crate::laboratory::decode_utf8_lossy(bytes);
    let chars = chars_of(text.as_str());
    if crate::text::chars_start_with(&chars, "HTTP/1.1 101") {
        return Ok(());
    }
    let mut line: Vec<char> = Vec::new();
    let mut i: usize = 0;
    while i < chars.len() && chars[i] != '\n'
        invariant
            i <= chars@.len(),
            line@ == chars@.take(i as int),
            forall|j: int| 0 <= j < i ==> chars@[j] != '\n',
        decreases chars@.len() - i,
    {
        line.push(chars[i]);
        i = i + 1;
    }
    proof {
        if i < chars@.len() {
            crate::web::lemma_char_index_at(chars@, '\n', i as int);
        } else {
            crate::web::lemma_char_index_none(chars@, '\n');
            assert(chars@.take(i as int) == chars@);
        }
    }
    if i < chars.len() && i > 0 && line[i - 1] == '\r' {
        line.pop();
    }
    let mut out: Vec<char> = Vec::new();
    push_str(&mut out, "服务端拒绝 WebSocket 握手：");
    push_chars(&mut out, &line);
    Err(string_from_chars(&out))
}


/// What a connection last sent of each part of the shared state, and when
/// the state was observed.
#[derive(Debug, Clone)]
pub struct SentState<P, L, S, F> {
    pub playback: P,
    pub lyrics: L,
    pub spectrum_state: S,
    pub spectrum_frame: F,
    pub observed_at_ms: u64,
}

/// What a server connection remembers between two state passes: the state
/// it sent, if any, and when it last sent a spectrum frame.
#[derive(Debug, Clone)]
pub struct StateCursor<P, L, S, F> {
    pub previous: Option<SentState<P, L, S, F>>,
    pub last_frame_sent_ms: Option<u64>,
}

/// Which parts of the current state differ from those the connection
/// remembers.
#[derive(Debug, Clone, Copy, PartialEq, Eq, Structural)]
pub struct StateChanges {
    pub playback: bool,
    pub lyrics: bool,
    pub spectrum_state: bool,
    pub spectrum_frame: bool,
}

/// The time since the last frame, when one was sent (a clock that went back
/// counts as no time).
pub open spec fn since_last_frame(last: Option<u64>, now_ms: u64) -> Option<u64> {
    match last {
        Some(t) => Some(if now_ms >= t {
            (now_ms - t) as u64
        } else {
            0
        }),
        None => None,
    }
}

/// Whether a pass sends the spectrum frame: it changed and the last frame is
/// at least 100 ms old.
pub open spec fn frame_sent(last: Option<u64>, now_ms: u64, changed: bool) -> bool {
    changed && match since_last_frame(last, now_ms) {
        Some(e) => e >= SPECTRUM_PUSH_INTERVAL_MS,
        None => true,
    }
}

/// One state pass of a connection: what it sends (`r`) and what it then
/// remembers (`after`), from what it remembered (`before`), the current
/// state, which parts changed and the time.
pub open spec fn state_pass<P, L, S, F>(
    before: StateCursor<P, L, S, F>,
    current: SentState<P, L, S, F>,
    changes: StateChanges,
    now_ms: u64,
    r: StateUpdatePlan,
    after: StateCursor<P, L, S, F>,
) -> bool {
    match before.previous {
        None => {
            &&& r == (StateUpdatePlan {
                snapshot: true,
                playback: false,
                lyrics: false,
                spectrum_state: false,
                spectrum_frame: false,
            })
            &&& after.previous == Some(current)
            &&& after.last_frame_sent_ms == Some(now_ms)
        },
        Some(p) => {
            let sent = frame_sent(before.last_frame_sent_ms, now_ms, changes.spectrum_frame);
            &&& r == (StateUpdatePlan {
                snapshot: false,
                playback: changes.playback,
                lyrics: changes.lyrics,
                spectrum_state: changes.spectrum_state,
                spectrum_frame: sent,
            })
            &&& after.previous == Some(
                SentState {
                    playback: current.playback,
                    lyrics: current.lyrics,
                    spectrum_state: current.spectrum_state,
                    spectrum_frame: if sent {
                        current.spectrum_frame
                    } else {
                        p.spectrum_frame
                    },
                    observed_at_ms: current.observed_at_ms,
                },
            )
            &&& after.last_frame_sent_ms == if sent {
                Some(now_ms)
            } else {
                before.last_frame_sent_ms
            }
        },
    }
}

/// One state pass of a connection: the first pass sends a full snapshot and
/// remembers it, as the time of a frame; a later pass sends the parts that
/// changed (the frame only when due) and remembers the current playback,
/// lyrics, spectrum state and observation time, but keeps the remembered
/// frame when the new one was not sent, so that the newest frame goes out
/// once the interval has passed.
pub fn advance_state_cursor<P, L, S, F>(
    cursor: &mut StateCursor<P, L, S, F>,
    current: SentState<P, L, S, F>,
    changes: StateChanges,
    now_ms: u64,
) -> (r: StateUpdatePlan)
    ensures
        state_pass(*old(cursor), current, changes, now_ms, r, *final(cursor)),
{
    let since = match cursor.last_frame_sent_ms {
        Some(t) => Some(
            if now_ms >= t {
                now_ms - t
            } else {
                0
            },
        ),
        None => None,
    };
    let previous = cursor.previous.take();
    match previous {
        None => {
            cursor.previous = Some(current);
            cursor.last_frame_sent_ms = Some(now_ms);
            plan_state_updates(false, false, false, false, false, since)
        },
        Some(p) => {
            let plan = plan_state_updates(
                true,
                changes.playback,
                changes.lyrics,
                changes.spectrum_state,
                changes.spectrum_frame,
                since,
            );
            let frame = if plan.spectrum_frame {
                current.spectrum_frame
            } else {
                p.spectrum_frame
            };
            cursor.previous = Some(
                SentState {
                    playback: current.playback,
                    lyrics: current.lyrics,
                    spectrum_state: current.spectrum_state,
                    spectrum_frame: frame,
                    observed_at_ms: current.observed_at_ms,
                },
            );
            if plan.spectrum_frame {
                cursor.last_frame_sent_ms = Some(now_ms);
            }
            plan
        },
    }
}

/// Spectrum frames on one connection are at least 100 ms apart on a clock
/// that does not go back, a sent frame is the newest one, and an unsent
/// frame leaves both the remembered frame and its time as they were.
pub proof fn spectrum_frames_are_throttled(last: Option<u64>, now_ms: u64, changed: bool)
    ensures
        frame_sent(last, now_ms, changed) ==> changed,
        forall|t: u64|
            frame_sent(last, now_ms, changed) && last == Some(t) && t <= now_ms ==> now_ms - t
                >= SPECTRUM_PUSH_INTERVAL_MS,
        changed && last is None ==> frame_sent(last, now_ms, changed),
{
}

/// How an attempt of a client to reach its server ended.
#[derive(Debug, Clone)]
pub enum AttemptEnd {
    /// The client was asked to stop.
    Stopped,
    /// The attempt failed or the connection dropped, with this error.
    Failed(String),
    /// The connection cannot be used further, with this error.
    Abandoned(String),
}

/// What a client does after an attempt.
#[derive(Debug, Clone)]
pub enum ClientLoopStep {
    /// Stop quietly.
    Quit,
    /// Wait, then make the next attempt.
    Retry { next_attempt: usize, delay_ms: u64 },
    /// Give up: the phase becomes `Error` with this message.
    Fail { message: String },
}

/// Decides what follows attempt `attempt` (counted from 0): a failed
/// attempt is retried after a growing pause while fewer than
/// `CLIENT_RETRY_LIMIT` retries were made, so at most four attempts are
/// made; otherwise, or when the connection cannot be used, the client gives
/// up with the error.
pub fn client_after_attempt(attempt: usize, end: AttemptEnd) -> (r: ClientLoopStep)
    requires
        attempt <= CLIENT_RETRY_LIMIT,
    ensures
        match end {
            AttemptEnd::Stopped => r is Quit,
            AttemptEnd::Failed(e) => if attempt < CLIENT_RETRY_LIMIT {
                r == ClientLoopStep::Retry { next_attempt: (attempt + 1) as usize, delay_ms: (400 + attempt * 250) as u64 }
            } else {
                r matches ClientLoopStep::Fail { message } && message@ == e@
            },
            AttemptEnd::Abandoned(e) => r matches ClientLoopStep::Fail { message } && message@ == e@,
        },
        r matches ClientLoopStep::Retry { next_attempt, .. } ==> next_attempt <= CLIENT_RETRY_LIMIT,
{
    match end {
        AttemptEnd::Stopped => ClientLoopStep::Quit,
        AttemptEnd::Failed(e) => {
            if attempt < CLIENT_RETRY_LIMIT {
                ClientLoopStep::Retry { next_attempt: attempt + 1, delay_ms: retry_delay_ms(attempt) }
            } else {
                ClientLoopStep::Fail { message: e }
            }
        },
        AttemptEnd::Abandoned(e) => ClientLoopStep::Fail { message: e },
    }
}


/// Two playback snapshots are equal, each text compared by its characters.
pub open spec fn same_playback(a: PlaybackSnapshot, b: PlaybackSnapshot) -> bool {
    &&& a.player == b.player
    &&& a.is_running == b.is_running
    &&& a.is_playing == b.is_playing
    &&& opt_view(a.track_id) == opt_view(b.track_id)
    &&& opt_view(a.title) == opt_view(b.title)
    &&& opt_view(a.artist) == opt_view(b.artist)
    &&& opt_view(a.album) == opt_view(b.album)
    &&& opt_view(a.source_app_name) == opt_view(b.source_app_name)
    &&& opt_view(a.source_app_bundle_id) == opt_view(b.source_app_bundle_id)
    &&& opt_view(a.artwork_id) == opt_view(b.artwork_id)
    &&& a.duration_ms == b.duration_ms
    &&& a.position_ms == b.position_ms
    &&& a.observed_at_ms == b.observed_at_ms
    &&& a.error_code == b.error_code
    &&& opt_view(a.error) == opt_view(b.error)
}

fn opt_text_eq(a: &Option<String>, b: &Option<String>) -> (r: bool)
    ensures
        r == (opt_view(*a) == opt_view(*b)),
{
    match (a, b) {
        (Some(x), Some(y)) => str_eq(x.as_str(), y.as_str()),
        (None, None) => true,
        _ => false,
    }
}

/// Whether two playback snapshots are equal.
pub fn playback_equal(a: &PlaybackSnapshot, b: &PlaybackSnapshot) -> (r: bool)
    ensures
        r == same_playback(*a, *b),
{
    a.player == b.player && a.is_running == b.is_running && a.is_playing == b.is_playing
        && opt_text_eq(&a.track_id, &b.track_id) && opt_text_eq(&a.title, &b.title) && opt_text_eq(
        &a.artist,
        &b.artist,
    ) && opt_text_eq(&a.album, &b.album) && opt_text_eq(&a.source_app_name, &b.source_app_name)
        && opt_text_eq(&a.source_app_bundle_id, &b.source_app_bundle_id) && opt_text_eq(
        &a.artwork_id,
        &b.artwork_id,
    ) && a.duration_ms == b.duration_ms && a.position_ms == b.position_ms && a.observed_at_ms
        == b.observed_at_ms && a.error_code == b.error_code && opt_text_eq(&a.error, &b.error)
}

/// One state pass where the playback part is a playback snapshot: whether
/// it changed is decided here, by comparing the remembered snapshot with the
/// current one; the other parts' changes are given.
pub fn advance_playback_state<L, S, F>(
    cursor: &mut StateCursor<PlaybackSnapshot, L, S, F>,
    current: SentState<PlaybackSnapshot, L, S, F>,
    lyrics_changed: bool,
    spectrum_state_changed: bool,
    spectrum_frame_changed: bool,
    now_ms: u64,
) -> (r: StateUpdatePlan)
    ensures
        state_pass(
            *old(cursor),
            current,
            StateChanges {
                playback: match old(cursor).previous {
                    Some(p) => !same_playback(p.playback, current.playback),
                    None => false,
                },
                lyrics: lyrics_changed,
                spectrum_state: spectrum_state_changed,
                spectrum_frame: spectrum_frame_changed,
            },
            now_ms,
            r,
            *final(cursor),
        ),
{
    let playback_changed = match &cursor.previous {
        Some(p) => !playback_equal(&p.playback, &current.playback),
        None => false,
    };
    let changes = StateChanges {
        playback: playback_changed,
        lyrics: lyrics_changed,
        spectrum_state: spectrum_state_changed,
        spectrum_frame: spectrum_frame_changed,
    };
    advance_state_cursor(cursor, current, changes, now_ms)
}

/// The time of the last frame after the first `n` passes of a connection
/// that started with `last`, each pass at `times[i]` with a frame that
/// changed or not.
pub open spec fn last_frame_after(last: Option<u64>, times: Seq<u64>, changed: Seq<bool>, n: int) -> Option<u64>
    decreases n,
{
    if n <= 0 {
        last
    } else {
        let before = last_frame_after(last, times, changed, n - 1);
        if frame_sent(before, times[n - 1], changed[n - 1]) {
            Some(times[n - 1])
        } else {
            before
        }
    }
}

/// Whether pass `i` sends a frame.
pub open spec fn pass_sends_frame(last: Option<u64>, times: Seq<u64>, changed: Seq<bool>, i: int) -> bool {
    frame_sent(last_frame_after(last, times, changed, i), times[i], changed[i])
}

proof fn lemma_last_frame_not_before(
    last: Option<u64>,
    times: Seq<u64>,
    changed: Seq<bool>,
    i: int,
    n: int,
)
    requires
        0 <= i < n <= times.len(),
        changed.len() == times.len(),
        forall|a: int, b: int| 0 <= a <= b < times.len() ==> times[a] <= times[b],
        pass_sends_frame(last, times, changed, i),
    ensures
        last_frame_after(last, times, changed, n) matches Some(t) && times[i] <= t,
    decreases n - i,
{
    if n > i + 1 {
        lemma_last_frame_not_before(last, times, changed, i, n - 1);
    }
}

/// Over the passes of one connection, on a clock that does not go back, two
/// passes that send spectrum frames are at least 100 ms apart.
pub proof fn spectrum_frames_are_spaced(
    last: Option<u64>,
    times: Seq<u64>,
    changed: Seq<bool>,
    i: int,
    j: int,
)
    requires
        0 <= i < j < times.len(),
        changed.len() == times.len(),
        forall|a: int, b: int| 0 <= a <= b < times.len() ==> times[a] <= times[b],
        pass_sends_frame(last, times, changed, i),
        pass_sends_frame(last, times, changed, j),
    ensures
        times[j] - times[i] >= SPECTRUM_PUSH_INTERVAL_MS,
{
    lemma_last_frame_not_before(last, times, changed, i, j);
}

} // verus!
