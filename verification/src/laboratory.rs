use vstd::prelude::*;

use crate::config::LaboratoryRole;
use vstd::string::StringSliceAdditionalSpecFns;
use crate::text::{chars_of, pieces_view, push_chars, push_str, split_chars, split_spec, string_from_chars};

verus! {

/// The protocol version that laboratory peers speak.
pub const PROTOCOL_VERSION: u16 = 1;

/// The life cycle of the laboratory runtime.
#[derive(Debug, Clone, Copy, PartialEq, Eq, Structural)]
pub enum LaboratoryPhase {
    Stopped,
    Starting,
    Running,
    Connecting,
    Reconnecting,
    Error,
}

/// The phases in which the laboratory holds a server or a connection.
pub open spec fn phase_is_active_spec(phase: LaboratoryPhase) -> bool {
    phase == LaboratoryPhase::Starting || phase == LaboratoryPhase::Running || phase
        == LaboratoryPhase::Connecting || phase == LaboratoryPhase::Reconnecting
}

/// Whether the laboratory is starting, running, connecting or reconnecting.
pub fn laboratory_phase_is_active(phase: LaboratoryPhase) -> (r: bool)
    ensures
        r == phase_is_active_spec(phase),
{
    match phase {
        LaboratoryPhase::Starting | LaboratoryPhase::Running | LaboratoryPhase::Connecting
        | LaboratoryPhase::Reconnecting => true,
        _ => false,
    }
}

/// A laboratory server that was discovered or connected to.
#[derive(Debug, Clone)]
pub struct LaboratoryServerRecord {
    pub server_id: String,
    pub name: String,
    pub address: String,
    pub port: u16,
    pub protocol_version: u16,
    pub requires_password: bool,
    pub web_available: bool,
    pub last_connected_at_ms: Option<u64>,
    pub discovered: bool,
}

/// A client that connected to this laboratory server.
#[derive(Debug, Clone)]
pub struct LaboratoryClientRecord {
    pub client_id: String,
    pub name: String,
    pub online: bool,
    pub last_connected_at_ms: Option<u64>,
}

/// A web theme found in the themes directory.
#[derive(Debug, Clone)]
pub struct LaboratoryThemeInfo {
    pub id: String,
    pub name: String,
    pub version: String,
    pub entry: String,
    pub sdk_version: String,
}

/// An address under which the web page of the server is reachable.
#[derive(Debug, Clone)]
pub struct LaboratoryWebAddress {
    pub address: String,
    pub url: String,
}

/// The server settings that the user submits.
#[derive(Debug, Clone)]
pub struct LaboratoryServerSettingsInput {
    pub name: String,
    pub port: u16,
    pub discovery_enabled: bool,
    pub web_enabled: bool,
    pub debounce_ms: u64,
}

/// The client settings that the user submits.
#[derive(Debug, Clone)]
pub struct LaboratoryClientSettingsInput {
    pub name: String,
}

/// A request to connect to a laboratory server.
#[derive(Debug, Clone)]
pub struct LaboratoryConnectInput {
    pub server_id: Option<String>,
    pub name: String,
    pub address: String,
    pub port: u16,
    pub requires_password: bool,
    pub web_available: bool,
    pub password: String,
}

/// What the runtime shows of itself between status updates.
#[derive(Debug, Clone)]
pub struct RuntimeView {
    pub role: LaboratoryRole,
    pub phase: LaboratoryPhase,
    pub message: Option<String>,
    pub server_address: Option<String>,
    pub web_addresses: Vec<LaboratoryWebAddress>,
    pub clients: Vec<LaboratoryClientRecord>,
    pub recent_servers: Vec<LaboratoryServerRecord>,
}

impl RuntimeView {
    /// A stopped runtime in this role, with nothing to show.
    pub fn new(role: LaboratoryRole) -> (r: Self)
        ensures
            r.role == role,
            r.phase == LaboratoryPhase::Stopped,
            r.message is None,
            r.server_address is None,
            r.web_addresses@.len() == 0,
            r.clients@.len() == 0,
            r.recent_servers@.len() == 0,
    {
        RuntimeView {
            role,
            phase: LaboratoryPhase::Stopped,
            message: None,
            server_address: None,
            web_addresses: Vec::new(),
            clients: Vec::new(),
            recent_servers: Vec::new(),
        }
    }
}

/// The value of an ASCII hexadecimal digit.
pub open spec fn hex_spec(b: u8) -> Option<u8> {
    if 48 <= b <= 57 {
        Some((b - 48) as u8)
    } else if 97 <= b <= 102 {
        Some((b - 97 + 10) as u8)
    } else if 65 <= b <= 70 {
        Some((b - 65 + 10) as u8)
    } else {
        None
    }
}

/// The value of an ASCII hexadecimal digit, either case.
pub fn hex_value(value: u8) -> (r: Option<u8>)
    ensures
        r == hex_spec(value),
{
    if value >= 48u8 && value <= 57u8 {
        Some(value - 48u8)
    } else if value >= 97u8 && value <= 102u8 {
        Some(value - 97u8 + 10)
    } else if value >= 65u8 && value <= 70u8 {
        Some(value - 65u8 + 10)
    } else {
        None
    }
}

/// Percent-decoding of bytes: `%` followed by two hex digits becomes the byte
/// they spell; every other byte, a lone `%` included, stays.
pub open spec fn percent_decode_bytes(b: Seq<u8>) -> Seq<u8>
    decreases b.len(),
{
    if b.len() == 0 {
        seq![]
    } else if b[0] == 37 && b.len() > 2 && hex_spec(b[1]) is Some && hex_spec(b[2]) is Some {
        seq![(hex_spec(b[1])->0 * 16 + hex_spec(b[2])->0) as u8] + percent_decode_bytes(
            b.skip(3),
        )
    } else {
        seq![b[0]] + percent_decode_bytes(b.skip(1))
    }
}

/// What `String::from_utf8_lossy` makes of bytes.
pub uninterp spec fn utf8_lossy(bytes: Seq<u8>) -> Seq<char>;

/// Decodes UTF-8 with `String::from_utf8_lossy`, which puts U+FFFD for every
/// malformed sequence and is the plain decoding on valid UTF-8.
#[verifier::external_body]
pub(crate) fn decode_utf8_lossy(bytes: &[u8]) -> (r: String)
    ensures
        r@ == utf8_lossy(bytes@),
        vstd::utf8::valid_utf8(bytes@) ==> r@ == vstd::utf8::decode_utf8(bytes@),
{
    String::from_utf8_lossy(bytes).into_owned()
}

/// Decodes `%XX` escapes and reads the bytes as UTF-8, replacing what is
/// malformed.
pub fn percent_decode(value: &str) -> (r: String)
    ensures
        r@ == utf8_lossy(percent_decode_bytes(value.spec_bytes())),
        vstd::utf8::valid_utf8(percent_decode_bytes(value.spec_bytes())) ==> r@
            == vstd::utf8::decode_utf8(percent_decode_bytes(value.spec_bytes())),
{
    let bytes = value.as_bytes();
    let mut output: Vec<u8> = Vec::new();
    let mut index: usize = 0;
    let ghost b = bytes@;
    assert(b.skip(0) == b);
    assert(output@ + percent_decode_bytes(b) == percent_decode_bytes(b));
    while index < bytes.len()
        invariant
            index <= b.len(),
            b == bytes@,
            output@ + percent_decode_bytes(b.skip(index as int)) == percent_decode_bytes(b),
        decreases b.len() - index,
    {
        let ghost rest = b.skip(index as int);
        if bytes[index] == 37u8 && bytes.len() - index > 2 {
            let high = hex_value(bytes[index + 1]);
            let low = hex_value(bytes[index + 2]);
            match (high, low) {
                (Some(h), Some(l)) => {
                    assert(rest[1] == b[index + 1] && rest[2] == b[index + 2]);
                    assert(rest.skip(3) == b.skip(index + 3));
                    output.push(h * 16 + l);
                    index = index + 3;
                    continue;
                },
                _ => {
                    assert(rest[1] == b[index + 1] && rest[2] == b[index + 2]);
                },
            }
        }
        assert(rest.skip(1) == b.skip(index + 1));
        output.push(bytes[index]);
        index = index + 1;
    }
    assert(b.skip(index as int).len() == 0);
    assert(output@ + Seq::<u8>::empty() == output@);
    decode_utf8_lossy(output.as_slice())
}

/// A byte that percent-encoding keeps: ASCII letters, digits and `-_.~`.
pub open spec fn is_unreserved(b: u8) -> bool {
    (65 <= b <= 90) || (97 <= b <= 122) || (48 <= b <= 57) || b == 45 || b == 95 || b == 46 || b
        == 126
}

/// The uppercase hexadecimal digit for `d`.
pub open spec fn upper_hex_digit(d: u8) -> char {
    if d < 10 {
        (48 + d) as char
    } else {
        (55 + d) as char
    }
}

/// Percent-encoding of bytes: unreserved bytes as characters, every other
/// byte as `%` and two uppercase hex digits.
pub open spec fn percent_encode_bytes(b: Seq<u8>) -> Seq<char>
    decreases b.len(),
{
    if b.len() == 0 {
        seq![]
    } else {
        percent_encode_bytes(b.drop_last()) + if is_unreserved(b.last()) {
            seq![b.last() as char]
        } else {
            seq!['%', upper_hex_digit(b.last() / 16), upper_hex_digit(b.last() % 16)]
        }
    }
}

/// The characters that one byte becomes.
pub open spec fn encode_piece(x: u8) -> Seq<char> {
    if is_unreserved(x) {
        seq![x as char]
    } else {
        seq!['%', upper_hex_digit(x / 16), upper_hex_digit(x % 16)]
    }
}

/// The ASCII byte of a hexadecimal digit character.
pub open spec fn hex_byte(d: u8) -> u8 {
    if d < 10 {
        (48 + d) as u8
    } else {
        (55 + d) as u8
    }
}

/// The bytes that one byte becomes.
pub open spec fn piece_bytes(x: u8) -> Seq<u8> {
    if is_unreserved(x) {
        seq![x]
    } else {
        seq![37u8, hex_byte(x / 16), hex_byte(x % 16)]
    }
}

proof fn lemma_encode_front(b: Seq<u8>)
    requires
        b.len() > 0,
    ensures
        percent_encode_bytes(b) == encode_piece(b[0]) + percent_encode_bytes(b.drop_first()),
    decreases b.len(),
{
    if b.len() == 1 {
        assert(b.drop_last() == Seq::<u8>::empty());
        assert(b.drop_first() == Seq::<u8>::empty());
        assert(percent_encode_bytes(Seq::<u8>::empty()) == Seq::<char>::empty());
        assert(b.last() == b[0]);
        assert(Seq::<char>::empty() + encode_piece(b[0]) == encode_piece(b[0]));
    } else {
        let d = b.drop_last();
        lemma_encode_front(d);
        assert(d[0] == b[0]);
        assert(b.drop_first().drop_last() == d.drop_first());
        assert(b.drop_first().last() == b.last());
        assert(percent_encode_bytes(b) == percent_encode_bytes(d) + encode_piece(b.last()));
        assert(percent_encode_bytes(b.drop_first()) == percent_encode_bytes(d.drop_first())
            + encode_piece(b.last()));
    }
}

proof fn lemma_encode_utf8_concat(a: Seq<char>, b: Seq<char>)
    ensures
        vstd::utf8::encode_utf8(a + b) == vstd::utf8::encode_utf8(a) + vstd::utf8::encode_utf8(b),
    decreases a.len(),
{
    if a.len() > 0 {
        lemma_encode_utf8_concat(a.drop_first(), b);
        assert((a + b).drop_first() == a.drop_first() + b);
        assert((a + b)[0] == a[0]);
    } else {
        assert(a + b == b);
    }
}

proof fn lemma_ascii_char(x: u8)
    requires
        x < 128,
    ensures
        vstd::utf8::encode_utf8(seq![x as char]) == seq![x],
{
    let s = seq![x as char];
    assert(s.drop_first() == Seq::<char>::empty());
    let v = (x as char) as u32;
    assert(v == x as u32);
    assert(v & 0x7f == v) by (bit_vector)
        requires
            v < 128,
    ;
    assert(vstd::utf8::has_width_1_encoding(v));
    assert(vstd::utf8::encode_scalar(v) == seq![x]);
    assert(vstd::utf8::encode_utf8(Seq::<char>::empty()) == Seq::<u8>::empty());
    assert(s[0] == x as char);
    assert(vstd::utf8::encode_utf8(s) == vstd::utf8::encode_scalar(s[0] as u32)
        + vstd::utf8::encode_utf8(s.drop_first()));
}

proof fn lemma_hex_digit(d: u8)
    requires
        d < 16,
    ensures
        (upper_hex_digit(d) as u32) == hex_byte(d) as u32,
        hex_byte(d) < 128,
        hex_spec(hex_byte(d)) == Some(d),
{
}

proof fn lemma_piece_utf8(x: u8)
    ensures
        vstd::utf8::encode_utf8(encode_piece(x)) == piece_bytes(x),
{
    if is_unreserved(x) {
        lemma_ascii_char(x);
    } else {
        let h = x / 16;
        let l = x % 16;
        lemma_hex_digit(h);
        lemma_hex_digit(l);
        lemma_ascii_char(37);
        lemma_ascii_char(hex_byte(h));
        lemma_ascii_char(hex_byte(l));
        assert(upper_hex_digit(h) == (hex_byte(h) as char));
        assert(upper_hex_digit(l) == (hex_byte(l) as char));
        assert(encode_piece(x) == seq![37u8 as char] + seq![hex_byte(h) as char] + seq![
            hex_byte(l) as char,
        ]);
        lemma_encode_utf8_concat(seq![37u8 as char] + seq![hex_byte(h) as char], seq![
            hex_byte(l) as char,
        ]);
        lemma_encode_utf8_concat(seq![37u8 as char], seq![hex_byte(h) as char]);
        assert(seq![37u8] + seq![hex_byte(h)] + seq![hex_byte(l)] == piece_bytes(x));
    }
}

proof fn lemma_decode_piece(x: u8, t: Seq<u8>)
    ensures
        percent_decode_bytes(piece_bytes(x) + t) == seq![x] + percent_decode_bytes(t),
{
    let p = piece_bytes(x) + t;
    if is_unreserved(x) {
        assert(p[0] == x);
        assert(p.skip(1) == t);
    } else {
        let h = x / 16;
        let l = x % 16;
        lemma_hex_digit(h);
        lemma_hex_digit(l);
        assert(p[0] == 37 && p[1] == hex_byte(h) && p[2] == hex_byte(l));
        assert(p.skip(3) == t);
        assert((h * 16 + l) as u8 == x);
    }
}

/// Percent-decoding undoes percent-encoding: for any bytes, decoding the
/// UTF-8 bytes of their encoding gives them back.
pub proof fn percent_decode_inverts_encode(b: Seq<u8>)
    ensures
        percent_decode_bytes(vstd::utf8::encode_utf8(percent_encode_bytes(b))) == b,
    decreases b.len(),
{
    if b.len() == 0 {
        assert(percent_encode_bytes(b) == Seq::<char>::empty());
        assert(vstd::utf8::encode_utf8(Seq::<char>::empty()) == Seq::<u8>::empty());
    } else {
        lemma_encode_front(b);
        lemma_encode_utf8_concat(encode_piece(b[0]), percent_encode_bytes(b.drop_first()));
        lemma_piece_utf8(b[0]);
        percent_decode_inverts_encode(b.drop_first());
        lemma_decode_piece(b[0], vstd::utf8::encode_utf8(percent_encode_bytes(b.drop_first())));
        assert(seq![b[0]] + b.drop_first() == b);
    }
}

/// Percent-decoding the percent-encoding of a text gives the text back: the
/// decoded bytes are the text's UTF-8, which reads back as the text.
pub proof fn percent_decode_inverts_encode_text(t: Seq<char>)
    ensures
        ({
            let decoded = percent_decode_bytes(
                vstd::utf8::encode_utf8(percent_encode_bytes(vstd::utf8::encode_utf8(t))),
            );
            vstd::utf8::valid_utf8(decoded) && vstd::utf8::decode_utf8(decoded) == t
        }),
{
    percent_decode_inverts_encode(vstd::utf8::encode_utf8(t));
    vstd::utf8::encode_utf8_valid_utf8(t);
    vstd::utf8::encode_utf8_decode_utf8(t);
}

fn hex_digit_char(d: u8) -> (c: char)
    requires
        d < 16,
    ensures
        c == upper_hex_digit(d),
{
    if d < 10 {
        (48 + d) as char
    } else {
        (55 + d) as char
    }
}

/// Percent-encodes the UTF-8 bytes of `value`.
pub fn percent_encode(value: &str) -> (r: String)
    ensures
        r@ == percent_encode_bytes(value.spec_bytes()),
{
    let bytes = value.as_bytes();
    let ghost b = bytes@;
    let mut out: Vec<char> = Vec::new();
    let mut i: usize = 0;
    while i < bytes.len()
        invariant
            i <= b.len(),
            b == bytes@,
            out@ == percent_encode_bytes(b.take(i as int)),
        decreases b.len() - i,
    {
        let byte = bytes[i];
        let ghost cur = b.take(i + 1);
        assert(cur.drop_last() == b.take(i as int));
        assert(cur.last() == byte);
        if (byte >= 65u8 && byte <= 90u8) || (byte >= 97u8 && byte <= 122u8) || (byte >= 48u8 && byte
            <= 57u8) || byte == 45u8 || byte == 95u8 || byte == 46u8 || byte == 126u8 {
            out.push(byte as char);
        } else {
            out.push('%');
            out.push(hex_digit_char(byte / 16));
            out.push(hex_digit_char(byte % 16));
        }
        i = i + 1;
    }
    assert(b.take(b.len() as int) == b);
    string_from_chars(&out)
}

} // verus!

verus! {

/// The DNS service name that laboratory servers announce.
pub open spec fn mdns_service() -> Seq<char> {
    "_lyrics-plus._tcp.local."@
}

/// `b` without its trailing dots.
pub open spec fn trim_trailing_dots(b: Seq<u8>) -> Seq<u8>
    decreases b.len(),
{
    if b.len() > 0 && b.last() == 46 {
        trim_trailing_dots(b.drop_last())
    } else {
        b
    }
}

/// The pieces of `b` between dots, as `str::split('.')` yields them.
pub open spec fn split_dots(b: Seq<u8>) -> Seq<Seq<u8>>
    decreases b.len(),
{
    if b.len() == 0 {
        seq![seq![]]
    } else {
        let w = split_dots(b.drop_last());
        if b.last() == 46 {
            w.push(seq![])
        } else {
            w.drop_last().push(w.last().push(b.last()))
        }
    }
}

/// The labels encoded one after another, each as its length and its bytes;
/// labels longer than 63 bytes are left out.
pub open spec fn encode_labels(labels: Seq<Seq<u8>>) -> Seq<u8>
    decreases labels.len(),
{
    if labels.len() == 0 {
        seq![]
    } else {
        encode_labels(labels.drop_last()) + if labels.last().len() <= 63 {
            seq![labels.last().len() as u8] + labels.last()
        } else {
            seq![]
        }
    }
}

/// A name in DNS wire form: its dot-separated labels, then the root label.
pub open spec fn dns_name_spec(name: Seq<u8>) -> Seq<u8> {
    encode_labels(split_dots(trim_trailing_dots(name))) + seq![0u8]
}

proof fn lemma_split_dots_nonempty(b: Seq<u8>)
    ensures
        split_dots(b).len() >= 1,
    decreases b.len(),
{
    if b.len() > 0 {
        lemma_split_dots_nonempty(b.drop_last());
    }
}

/// Appends `name` in DNS wire form to `output`.
pub fn encode_dns_name(name: &str, output: &mut Vec<u8>)
    ensures
        final(output)@ == old(output)@ + dns_name_spec(name.spec_bytes()),
{
    let bytes = name.as_bytes();
    let ghost b = bytes@;
    let mut end = bytes.len();
    assert(b.take(end as int) == b);
    while end > 0 && bytes[end - 1] == 46u8
        invariant
            end <= b.len(),
            b == bytes@,
            trim_trailing_dots(b) == trim_trailing_dots(b.take(end as int)),
        decreases end,
    {
        let ghost t = b.take(end as int);
        assert(t.drop_last() == b.take(end - 1));
        end = end - 1;
    }
    let ghost trimmed = b.take(end as int);
    assert(trim_trailing_dots(trimmed) == trimmed);
    let ghost start_out = output@;
    let mut label: Vec<u8> = Vec::new();
    let mut i: usize = 0;
    assert(trimmed.take(0) == Seq::<u8>::empty());
    while i < end
        invariant
            i <= end <= b.len(),
            b == bytes@,
            trimmed == b.take(end as int),
            split_dots(trimmed.take(i as int)).last() == label@,
            output@ == start_out + encode_labels(split_dots(trimmed.take(i as int)).drop_last()),
        decreases end - i,
    {
        let c = bytes[i];
        let ghost pre = trimmed.take(i as int);
        let ghost cur = trimmed.take(i + 1);
        assert(cur.drop_last() == pre);
        assert(cur.last() == c);
        proof {
            lemma_split_dots_nonempty(pre);
        }
        if c == 46u8 {
            let ghost w = split_dots(pre);
            assert(split_dots(cur) == w.push(seq![]));
            assert(split_dots(cur).drop_last() == w);
            assert(w.drop_last().push(w.last()) == w);
            if label.len() <= 63 {
                output.push(label.len() as u8);
                let mut k: usize = 0;
                let ghost mid = output@;
                while k < label.len()
                    invariant
                        k <= label@.len(),
                        output@ == mid + label@.take(k as int),
                    decreases label@.len() - k,
                {
                    output.push(label[k]);
                    k = k + 1;
                    assert(label@.take(k as int) == label@.take(k - 1).push(label@[k - 1]));
                }
                assert(label@.take(label@.len() as int) == label@);
            }
            label = Vec::new();
        } else {
            let ghost w = split_dots(pre);
            label.push(c);
            assert(split_dots(cur) == w.drop_last().push(w.last().push(c)));
            assert(split_dots(cur).drop_last() == w.drop_last());
        }
        i = i + 1;
    }
    assert(trimmed.take(end as int) == trimmed);
    proof {
        lemma_split_dots_nonempty(trimmed);
    }
    let ghost labels = split_dots(trimmed);
    assert(labels.drop_last().push(labels.last()) == labels);
    if label.len() <= 63 {
        output.push(label.len() as u8);
        let mut k: usize = 0;
        let ghost mid = output@;
        while k < label.len()
            invariant
                k <= label@.len(),
                output@ == mid + label@.take(k as int),
            decreases label@.len() - k,
        {
            output.push(label[k]);
            k = k + 1;
            assert(label@.take(k as int) == label@.take(k - 1).push(label@[k - 1]));
        }
        assert(label@.take(label@.len() as int) == label@);
    }
    output.push(0);
}

/// The big-endian bytes of a 16-bit number.
pub open spec fn be16_bytes(x: u16) -> Seq<u8> {
    seq![(x / 256) as u8, (x % 256) as u8]
}

fn push_be16(out: &mut Vec<u8>, x: u16)
    ensures
        final(out)@ == old(out)@ + be16_bytes(x),
{
    out.push((x / 256) as u8);
    out.push((x % 256) as u8);
}

fn push_be32(out: &mut Vec<u8>, x: u32)
    ensures
        final(out)@ == old(out)@ + crate::sha1::be32_bytes(x),
{
    out.push((x / 0x100_0000) as u8);
    out.push(((x / 0x1_0000) % 256) as u8);
    out.push(((x / 0x100) % 256) as u8);
    out.push((x % 256) as u8);
}

fn push_bytes(out: &mut Vec<u8>, data: &[u8])
    ensures
        final(out)@ == old(out)@ + data@,
{
    let ghost start = out@;
    let mut i: usize = 0;
    while i < data.len()
        invariant
            i <= data@.len(),
            out@ == start + data@.take(i as int),
        decreases data@.len() - i,
    {
        out.push(data[i]);
        i = i + 1;
        assert(data@.take(i as int) == data@.take(i - 1).push(data@[i - 1]));
    }
    assert(data@.take(data@.len() as int) == data@);
}

/// What `dns_record` appends: the data length (modulo 2^16) and the time to
/// live, both big-endian, then the data.
pub open spec fn dns_record_spec(data: Seq<u8>, ttl: u32) -> Seq<u8> {
    be16_bytes((data.len() % 0x1_0000) as u16) + crate::sha1::be32_bytes(ttl) + data
}

/// Appends the length, the time to live and the data of a record.
pub fn dns_record(packet: &mut Vec<u8>, data: &[u8], ttl: u32)
    ensures
        final(packet)@ == old(packet)@ + dns_record_spec(data@, ttl),
{
    let len = (data.len() % 0x1_0000) as u16;
    push_be16(packet, len);
    push_be32(packet, ttl);
    push_bytes(packet, data);
}

/// The mDNS question for the laboratory service: a header with one question,
/// the service name, type PTR and class IN.
pub open spec fn mdns_query_spec() -> Seq<u8> {
    seq![0u8, 0, 0, 0, 0, 1, 0, 0, 0, 0, 0, 0] + dns_name_spec(
        vstd::utf8::encode_utf8(mdns_service()),
    ) + be16_bytes(12) + be16_bytes(1)
}

/// Builds the mDNS question that looks for laboratory servers.
pub fn build_mdns_query() -> (r: Vec<u8>)
    ensures
        r@ == mdns_query_spec(),
{
    let mut packet: Vec<u8> = Vec::new();
    packet.push(0);
    packet.push(0);
    packet.push(0);
    packet.push(0);
    packet.push(0);
    packet.push(1);
    packet.push(0);
    packet.push(0);
    packet.push(0);
    packet.push(0);
    packet.push(0);
    packet.push(0);
    assert(packet@ == seq![0u8, 0, 0, 0, 0, 1, 0, 0, 0, 0, 0, 0]);
    encode_dns_name("_lyrics-plus._tcp.local.", &mut packet);
    push_be16(&mut packet, 12);
    push_be16(&mut packet, 1);
    packet
}

} // verus!

verus! {

/// An IPv4 octet as `Ipv4Addr` parsing accepts it: one to three decimal
/// digits without a leading zero, at most 255.
pub open spec fn octet_spec(p: Seq<char>) -> Option<u8> {
    if 1 <= p.len() <= 3 && (forall|i: int| 0 <= i < p.len() ==> crate::text::is_ascii_digit(#[trigger] p[i]))
        && (p.len() == 1 || p[0] != '0') && crate::text::decimal_value(p) <= 255 {
        Some(crate::text::decimal_value(p) as u8)
    } else {
        None
    }
}

/// The four octets of a dotted-quad IPv4 address.
pub open spec fn ipv4_spec(s: Seq<char>) -> Option<(u8, u8, u8, u8)> {
    let parts = split_spec(s, '.');
    if parts.len() == 4 && octet_spec(parts[0]) is Some && octet_spec(parts[1]) is Some && octet_spec(
        parts[2],
    ) is Some && octet_spec(parts[3]) is Some {
        Some(
            (
                octet_spec(parts[0])->0,
                octet_spec(parts[1])->0,
                octet_spec(parts[2])->0,
                octet_spec(parts[3])->0,
            ),
        )
    } else {
        None
    }
}

fn parse_octet(p: &Vec<char>) -> (r: Option<u8>)
    ensures
        r == octet_spec(p@),
{
    if p.len() < 1 || p.len() > 3 {
        return None;
    }
    if p.len() > 1 && p[0] == '0' {
        return None;
    }
    let mut value: u32 = 0;
    let mut i: usize = 0;
    while i < p.len()
        invariant
            i <= p@.len() <= 3,
            forall|j: int| 0 <= j < i ==> crate::text::is_ascii_digit(#[trigger] p@[j]),
            value == crate::text::decimal_value(p@.take(i as int)),
            value < 1000,
        decreases p@.len() - i,
    {
        let c = p[i];
        if !crate::text::char_is_ascii_digit(c) {
            return None;
        }
        let ghost cur = p@.take(i + 1);
        assert(cur.drop_last() == p@.take(i as int));
        assert(cur.last() == c);
        proof {
            crate::text::lemma_decimal_value_bound(cur);
        }
        value = value * 10 + ((c as u32) - 48);
        i = i + 1;
    }
    assert(p@.take(p@.len() as int) == p@);
    if value > 255 {
        return None;
    }
    Some(value as u8)
}

/// Parses a dotted-quad IPv4 address as `Ipv4Addr` does.
pub fn ipv4_octets(address: &str) -> (r: Option<(u8, u8, u8, u8)>)
    ensures
        r == ipv4_spec(address@),
{
    let chars = chars_of(address);
    let parts = split_chars(&chars, '.');
    let ghost pv = pieces_view(parts@);
    if parts.len() != 4 {
        return None;
    }
    assert(parts@[0]@ == pv[0] && parts@[1]@ == pv[1] && parts@[2]@ == pv[2] && parts@[3]@ == pv[3]);
    let a = parse_octet(&parts[0]);
    let b = parse_octet(&parts[1]);
    let c = parse_octet(&parts[2]);
    let d = parse_octet(&parts[3]);
    match (a, b, c, d) {
        (Some(a), Some(b), Some(c), Some(d)) => Some((a, b, c, d)),
        _ => None,
    }
}

/// The UTF-8 bytes of text.
pub open spec fn utf8(s: Seq<char>) -> Seq<u8> {
    vstd::utf8::encode_utf8(s)
}

/// The text of a boolean, as `Display` writes it.
pub open spec fn bool_text(b: bool) -> Seq<char> {
    if b {
        "true"@
    } else {
        "false"@
    }
}

/// A TXT string: its length and bytes, left out when longer than 255 bytes.
pub open spec fn txt_entry(text: Seq<char>) -> Seq<u8> {
    if utf8(text).len() <= 255 {
        seq![utf8(text).len() as u8] + utf8(text)
    } else {
        seq![]
    }
}

/// The TXT data that describes a server.
pub open spec fn announcement_txt(
    server_id: Seq<char>,
    name: Seq<char>,
    address: Seq<char>,
    port: u16,
    protocol_version: u16,
    requires_password: bool,
    web_available: bool,
) -> Seq<u8> {
    txt_entry("id="@ + server_id) + txt_entry("name="@ + name) + txt_entry("address="@ + address)
        + txt_entry("port="@ + crate::text::decimal_spec(port as nat)) + txt_entry(
        "protocolVersion="@ + crate::text::decimal_spec(protocol_version as nat),
    ) + txt_entry("requiresPassword="@ + bool_text(requires_password)) + txt_entry(
        "webAvailable="@ + bool_text(web_available),
    )
}

/// The service instance name of a server, in UTF-8.
pub open spec fn service_name_bytes(server_id: Seq<char>) -> Seq<u8> {
    utf8(server_id + "._lyrics-plus._tcp.local."@)
}

/// The host name of a server, in UTF-8.
pub open spec fn host_name_bytes(server_id: Seq<char>) -> Seq<u8> {
    utf8("lyrics-plus-"@ + server_id + ".local."@)
}

/// The header, the question, and the PTR answer laid out by `dns_record`.
pub open spec fn announcement_head(server_id: Seq<char>) -> Seq<u8> {
    seq![0u8, 0, 0x84, 0, 0, 0, 0, 4, 0, 0, 0, 0] + dns_name_spec(utf8(mdns_service()))
        + be16_bytes(12) + be16_bytes(1) + dns_record_spec(
        dns_name_spec(service_name_bytes(server_id)),
        120,
    )
}

/// The SRV answer: priority, weight, port and host.
pub open spec fn announcement_srv(server_id: Seq<char>, port: u16) -> Seq<u8> {
    let srv = be16_bytes(0) + be16_bytes(0) + be16_bytes(port) + dns_name_spec(
        host_name_bytes(server_id),
    );
    dns_name_spec(service_name_bytes(server_id)) + be16_bytes(33) + be16_bytes(1)
        + crate::sha1::be32_bytes(120) + be16_bytes((srv.len() % 0x1_0000) as u16) + srv
}

/// The TXT answer with the server's description.
pub open spec fn announcement_txt_answer(txt: Seq<u8>, server_id: Seq<char>) -> Seq<u8> {
    dns_name_spec(service_name_bytes(server_id)) + be16_bytes(16) + be16_bytes(1)
        + crate::sha1::be32_bytes(120) + be16_bytes((txt.len() % 0x1_0000) as u16) + txt
}

/// The A answer for the host, when the address is a dotted quad.
pub open spec fn announcement_a(server_id: Seq<char>, address: Seq<char>) -> Seq<u8> {
    match ipv4_spec(address) {
        Some((a, b, c, d)) => dns_name_spec(host_name_bytes(server_id)) + be16_bytes(1)
            + be16_bytes(1) + crate::sha1::be32_bytes(120) + be16_bytes(4) + seq![a, b, c, d],
        None => seq![],
    }
}

/// The mDNS announcement of a server: a response header with four answers; a
/// PTR answer for the service, laid out by `dns_record`; an SRV answer with
/// the port and host; a TXT answer with the server's description; and, when
/// the address is a dotted quad, an A answer for the host.
pub open spec fn announcement_spec(
    server_id: Seq<char>,
    name: Seq<char>,
    address: Seq<char>,
    port: u16,
    protocol_version: u16,
    requires_password: bool,
    web_available: bool,
) -> Seq<u8> {
    announcement_head(server_id) + announcement_srv(server_id, port) + announcement_txt_answer(
        announcement_txt(
            server_id,
            name,
            address,
            port,
            protocol_version,
            requires_password,
            web_available,
        ),
        server_id,
    ) + announcement_a(server_id, address)
}

fn chars_string(parts: &Vec<char>) -> (r: String)
    ensures
        r@ == parts@,
{
    string_from_chars(parts)
}

fn push_txt(txt: &mut Vec<u8>, value: &Vec<char>)
    ensures
        final(txt)@ == old(txt)@ + txt_entry(value@),
{
    let s = chars_string(value);
    let bytes = s.as_str().as_bytes();
    if bytes.len() <= 255 {
        txt.push(bytes.len() as u8);
        push_bytes(txt, bytes);
    }
}

fn bool_chars(out: &mut Vec<char>, b: bool)
    ensures
        final(out)@ == old(out)@ + bool_text(b),
{
    if b {
        push_str(out, "true");
    } else {
        push_str(out, "false");
    }
}

fn service_name_string(server_id: &str) -> (r: String)
    ensures
        r@ == server_id@ + "._lyrics-plus._tcp.local."@,
{
    let mut chars = chars_of(server_id);
    push_str(&mut chars, "._lyrics-plus._tcp.local.");
    chars_string(&chars)
}

fn host_name_string(server_id: &str) -> (r: String)
    ensures
        r@ == "lyrics-plus-"@ + server_id@ + ".local."@,
{
    let mut chars = chars_of("lyrics-plus-");
    push_str(&mut chars, server_id);
    push_str(&mut chars, ".local.");
    chars_string(&chars)
}

fn push_head(packet: &mut Vec<u8>, server_id: &str)
    ensures
        final(packet)@ == old(packet)@ + announcement_head(server_id@),
{
    let ghost start = packet@;
    let service_name = service_name_string(server_id);
    push_bytes(packet, &[0u8, 0, 0x84, 0, 0, 0, 0, 4, 0, 0, 0, 0]);
    encode_dns_name("_lyrics-plus._tcp.local.", packet);
    push_be16(packet, 12);
    push_be16(packet, 1);
    let mut ptr: Vec<u8> = Vec::new();
    encode_dns_name(service_name.as_str(), &mut ptr);
    dns_record(packet, ptr.as_slice(), 120);
    assert(packet@ == start + announcement_head(server_id@));
}

fn push_srv(packet: &mut Vec<u8>, server_id: &str, port: u16)
    ensures
        final(packet)@ == old(packet)@ + announcement_srv(server_id@, port),
{
    let ghost start = packet@;
    let service_name = service_name_string(server_id);
    let host_name = host_name_string(server_id);
    encode_dns_name(service_name.as_str(), packet);
    push_be16(packet, 33);
    push_be16(packet, 1);
    push_be32(packet, 120);
    let mut srv: Vec<u8> = Vec::new();
    push_be16(&mut srv, 0);
    push_be16(&mut srv, 0);
    push_be16(&mut srv, port);
    encode_dns_name(host_name.as_str(), &mut srv);
    push_be16(packet, (srv.len() % 0x1_0000) as u16);
    push_bytes(packet, srv.as_slice());
    assert(packet@ == start + announcement_srv(server_id@, port));
}

fn txt_data(record: &LaboratoryServerRecord) -> (r: Vec<u8>)
    ensures
        r@ == announcement_txt(
            record.server_id@,
            record.name@,
            record.address@,
            record.port,
            record.protocol_version,
            record.requires_password,
            record.web_available,
        ),
{
    let mut txt: Vec<u8> = Vec::new();
    let mut v = chars_of("id=");
    push_str(&mut v, record.server_id.as_str());
    push_txt(&mut txt, &v);
    let mut v = chars_of("name=");
    push_str(&mut v, record.name.as_str());
    push_txt(&mut txt, &v);
    let mut v = chars_of("address=");
    push_str(&mut v, record.address.as_str());
    push_txt(&mut txt, &v);
    let mut v = chars_of("port=");
    crate::text::push_decimal(record.port as u64, &mut v);
    push_txt(&mut txt, &v);
    let mut v = chars_of("protocolVersion=");
    crate::text::push_decimal(record.protocol_version as u64, &mut v);
    push_txt(&mut txt, &v);
    let mut v = chars_of("requiresPassword=");
    bool_chars(&mut v, record.requires_password);
    push_txt(&mut txt, &v);
    let mut v = chars_of("webAvailable=");
    bool_chars(&mut v, record.web_available);
    push_txt(&mut txt, &v);
    txt
}

fn push_txt_answer(packet: &mut Vec<u8>, txt: &Vec<u8>, server_id: &str)
    ensures
        final(packet)@ == old(packet)@ + announcement_txt_answer(txt@, server_id@),
{
    let ghost start = packet@;
    let service_name = service_name_string(server_id);
    encode_dns_name(service_name.as_str(), packet);
    push_be16(packet, 16);
    push_be16(packet, 1);
    push_be32(packet, 120);
    push_be16(packet, (txt.len() % 0x1_0000) as u16);
    push_bytes(packet, txt.as_slice());
    assert(packet@ == start + announcement_txt_answer(txt@, server_id@));
}

fn push_a(packet: &mut Vec<u8>, server_id: &str, address: &str)
    ensures
        final(packet)@ == old(packet)@ + announcement_a(server_id@, address@),
{
    let ghost start = packet@;
    match ipv4_octets(address) {
        Some((a, b, c, d)) => {
            let host_name = host_name_string(server_id);
            encode_dns_name(host_name.as_str(), packet);
            push_be16(packet, 1);
            push_be16(packet, 1);
            push_be32(packet, 120);
            push_be16(packet, 4);
            packet.push(a);
            packet.push(b);
            packet.push(c);
            packet.push(d);
            assert(packet@ == start + announcement_a(server_id@, address@));
        },
        None => {
            assert(packet@ == start + announcement_a(server_id@, address@));
        },
    }
}

/// Builds the mDNS announcement of a laboratory server.
pub fn build_mdns_announcement(record: &LaboratoryServerRecord) -> (r: Vec<u8>)
    ensures
        r@ == announcement_spec(
            record.server_id@,
            record.name@,
            record.address@,
            record.port,
            record.protocol_version,
            record.requires_password,
            record.web_available,
        ),
{
    let mut packet: Vec<u8> = Vec::new();
    push_head(&mut packet, record.server_id.as_str());
    push_srv(&mut packet, record.server_id.as_str(), record.port);
    let txt = txt_data(record);
    push_txt_answer(&mut packet, &txt, record.server_id.as_str());
    push_a(&mut packet, record.server_id.as_str(), record.address.as_str());
    packet
}

} // verus!

verus! {

/// A control character (Unicode category Cc).
pub open spec fn is_control_char(c: char) -> bool {
    (c as u32) < 0x20 || (0x7f <= (c as u32) && (c as u32) <= 0x9f)
}

/// Where a TXT value ends: a NUL, another control character, or `&`.
pub open spec fn ends_txt_value(c: char) -> bool {
    c == '\0' || is_control_char(c) || c == '&'
}

/// The characters of `s` before the first that ends a value.
pub open spec fn value_prefix(s: Seq<char>) -> Seq<char>
    decreases s.len(),
{
    if s.len() == 0 || ends_txt_value(s[0]) {
        seq![]
    } else {
        seq![s[0]] + value_prefix(s.drop_first())
    }
}

/// The value written after the first `key=` in the text: `None` when the
/// marker is missing; `Some(None)` when the value is blank.
pub open spec fn txt_field(text: Seq<char>, key: Seq<char>) -> Option<Option<Seq<char>>> {
    match crate::jsonc::find_from(text, key + "="@, 0) {
        None => None,
        Some(k) => {
            let v = crate::text::trim_spec(value_prefix(text.skip(k + key.len() + 1)));
            if v.len() == 0 {
                Some(None)
            } else {
                Some(Some(v))
            }
        },
    }
}

/// The keys that an announcement must carry.
pub open spec fn txt_keys_present(text: Seq<char>) -> bool {
    &&& txt_field(text, "id"@) is Some
    &&& txt_field(text, "name"@) is Some
    &&& txt_field(text, "address"@) is Some
    &&& txt_field(text, "port"@) is Some
    &&& txt_field(text, "protocolVersion"@) is Some
    &&& txt_field(text, "requiresPassword"@) is Some
    &&& txt_field(text, "webAvailable"@) is Some
}

/// The server that a received announcement describes, read from the lossy
/// UTF-8 text of the packet: every key must be present; `id` and `address`
/// must have values and `port` must be a number; a missing name becomes the
/// default server name, a missing or malformed protocol version the current
/// one, and the flags hold only when they read `true`.
pub open spec fn mdns_record_matches(r: Option<LaboratoryServerRecord>, text: Seq<char>) -> bool {
    if txt_keys_present(text) && txt_field(text, "id"@)->0 is Some && txt_field(
        text,
        "address"@,
    )->0 is Some && txt_field(text, "port"@)->0 is Some && crate::text::parse_u16_spec(
        txt_field(text, "port"@)->0->0,
    ) is Some {
        r matches Some(record) && {
            &&& record.server_id@ == txt_field(text, "id"@)->0->0
            &&& record.address@ == txt_field(text, "address"@)->0->0
            &&& record.port == crate::text::parse_u16_spec(txt_field(text, "port"@)->0->0)->0
            &&& record.name@ == match txt_field(text, "name"@)->0 {
                Some(n) => n,
                None => "Lyrics Plus 服务端"@,
            }
            &&& record.protocol_version == match txt_field(text, "protocolVersion"@)->0 {
                Some(v) => match crate::text::parse_u16_spec(v) {
                    Some(p) => p,
                    None => PROTOCOL_VERSION,
                },
                None => PROTOCOL_VERSION,
            }
            &&& record.requires_password == (txt_field(text, "requiresPassword"@)->0 == Some(
                "true"@,
            ))
            &&& record.web_available == (txt_field(text, "webAvailable"@)->0 == Some("true"@))
            &&& record.last_connected_at_ms is None
            &&& record.discovered
        }
    } else {
        r is None
    }
}

fn ends_value(c: char) -> (r: bool)
    ensures
        r == ends_txt_value(c),
{
    let v = c as u32;
    c == '\0' || v < 0x20 || (0x7f <= v && v <= 0x9f) || c == '&'
}

fn read_txt_field(text: &Vec<char>, key: &str) -> (r: Option<Option<Vec<char>>>)
    ensures
        match txt_field(text@, key@) {
            None => r is None,
            Some(None) => r matches Some(None),
            Some(Some(v)) => r matches Some(Some(x)) && x@ == v,
        },
{
    let mut marker = chars_of(key);
    marker.push('=');
    proof {
        reveal_strlit("=");
    }
    assert(marker@ == key@ + "="@);
    let k = match crate::jsonc::find_chars(text, &marker) {
        None => {
            return None;
        },
        Some(k) => k,
    };
    proof {
        crate::jsonc::lemma_find_from_bounds(text@, marker@, 0);
        assert(crate::jsonc::find_from(text@, marker@, 0) == Some(k as int));
    }
    let text_len = text.len();
    assert(k + marker@.len() <= text_len);
    let start = k + marker.len();
    let ghost rest = text@.skip(start as int);
    let mut value: Vec<char> = Vec::new();
    let mut i: usize = start;
    assert(text@.skip(start as int) == rest);
    assert(value@ + value_prefix(rest) == value_prefix(rest));
    while i < text.len() && !ends_value(text[i])
        invariant
            start <= i <= text@.len(),
            rest == text@.skip(start as int),
            value_prefix(rest) == value@ + value_prefix(text@.skip(i as int)),
        decreases text@.len() - i,
    {
        let ghost tail = text@.skip(i as int);
        assert(tail.drop_first() == text@.skip(i + 1));
        value.push(text[i]);
        i = i + 1;
    }
    assert(value_prefix(text@.skip(i as int)) == Seq::<char>::empty());
    assert(value@ + Seq::<char>::empty() == value@);
    let trimmed = crate::text::trim_chars(&value);
    if trimmed.len() == 0 {
        Some(None)
    } else {
        Some(Some(trimmed))
    }
}

/// Reads a server announcement from a received packet.
pub fn parse_mdns_record(packet: &[u8]) -> (r: Option<LaboratoryServerRecord>)
    ensures
        mdns_record_matches(r, utf8_lossy(packet@)),
{
    let text = decode_utf8_lossy(packet);
    let text = chars_of(text.as_str());
    let id = match read_txt_field(&text, "id") {
        None => {
            return None;
        },
        Some(v) => v,
    };
    let name = match read_txt_field(&text, "name") {
        None => {
            return None;
        },
        Some(v) => v,
    };
    let address = match read_txt_field(&text, "address") {
        None => {
            return None;
        },
        Some(v) => v,
    };
    let port = match read_txt_field(&text, "port") {
        None => {
            return None;
        },
        Some(v) => v,
    };
    let protocol_version = match read_txt_field(&text, "protocolVersion") {
        None => {
            return None;
        },
        Some(v) => v,
    };
    let requires_password = match read_txt_field(&text, "requiresPassword") {
        None => {
            return None;
        },
        Some(v) => v,
    };
    let web_available = match read_txt_field(&text, "webAvailable") {
        None => {
            return None;
        },
        Some(v) => v,
    };
    let server_id = match id {
        None => {
            return None;
        },
        Some(v) => string_from_chars(&v),
    };
    let address = match address {
        None => {
            return None;
        },
        Some(v) => string_from_chars(&v),
    };
    let port = match port {
        None => {
            return None;
        },
        Some(v) => match crate::text::parse_u16(&v) {
            None => {
                return None;
            },
            Some(p) => p,
        },
    };
    let name = match name {
        Some(v) => string_from_chars(&v),
        None => String::from_str("Lyrics Plus 服务端"),
    };
    let protocol_version = match protocol_version {
        Some(v) => match crate::text::parse_u16(&v) {
            Some(p) => p,
            None => PROTOCOL_VERSION,
        },
        None => PROTOCOL_VERSION,
    };
    let true_chars = chars_of("true");
    let requires_password = match requires_password {
        Some(v) => crate::text::chars_eq(&v, &true_chars),
        None => false,
    };
    let web_available = match web_available {
        Some(v) => crate::text::chars_eq(&v, &true_chars),
        None => false,
    };
    Some(
        LaboratoryServerRecord {
            server_id,
            name,
            address,
            port,
            protocol_version,
            requires_password,
            web_available,
            last_connected_at_ms: None,
            discovered: true,
        },
    )
}

/// A query for the laboratory service that is not itself an announcement.
pub open spec fn service_query_spec(text: Seq<char>) -> bool {
    crate::jsonc::contains_spec(text, "_lyrics-plus"@) && crate::jsonc::contains_spec(text, "_tcp"@)
        && !crate::jsonc::contains_spec(text, "id="@)
}

/// Whether a received packet asks for the laboratory service.
pub fn is_mdns_service_query(packet: &[u8]) -> (r: bool)
    ensures
        r == service_query_spec(utf8_lossy(packet@)),
{
    let text = decode_utf8_lossy(packet);
    let text = chars_of(text.as_str());
    proof {
        reveal_strlit("_lyrics-plus");
        reveal_strlit("_tcp");
        reveal_strlit("id=");
    }
    crate::jsonc::chars_contain(&text, "_lyrics-plus") && crate::jsonc::chars_contain(&text, "_tcp")
        && !crate::jsonc::chars_contain(&text, "id=")
}

} // verus!
