use vstd::prelude::*;

use crate::config::{
    is_supported_color, normalize_display_font_weight, supported_color_spec, LaboratoryPreferences,
    StatusBarLyricsAppearance,
};
use crate::player::opt_view;
use crate::text::{
    chars_of, decimal_spec, push_decimal, push_str, str_eq, string_from_chars, trim_spec,
    trim_str,
};

verus! {

/// The configuration schema this version of the application writes.
pub const CONFIG_SCHEMA_VERSION: u16 = 55;

/// The message for a configuration written by a newer application.
pub open spec fn newer_schema_message(version: u16) -> Seq<char> {
    "配置文件版本 "@ + decimal_spec(version as nat) + " 高于当前支持的版本 55"@
}

/// Refuses a configuration from a newer schema.
pub fn check_schema_version(version: u16) -> (r: Result<(), String>)
    ensures
        version <= CONFIG_SCHEMA_VERSION ==> r is Ok,
        version > CONFIG_SCHEMA_VERSION ==> (r matches Err(e) && e@ == newer_schema_message(
            version,
        )),
{
    if version <= CONFIG_SCHEMA_VERSION {
        return Ok(());
    }
    let mut out: Vec<char> = Vec::new();
    push_str(&mut out, "配置文件版本 ");
    push_decimal(version as u64, &mut out);
    push_str(&mut out, " 高于当前支持的版本 55");
    Err(string_from_chars(&out))
}

/// An optional identifier, trimmed; a blank one is dropped.
pub open spec fn trimmed_optional_spec(value: Option<Seq<char>>) -> Option<Seq<char>> {
    match value {
        Some(v) => if trim_spec(v).len() > 0 {
            Some(trim_spec(v))
        } else {
            None
        },
        None => None,
    }
}

/// Trims an optional identifier and drops it when blank.
pub fn trimmed_optional(value: Option<String>) -> (r: Option<String>)
    ensures
        opt_view(r) == trimmed_optional_spec(opt_view(value)),
{
    match value {
        Some(v) => {
            let t = trim_str(v.as_str());
            if t.len() > 0 {
                Some(string_from_chars(&t))
            } else {
                None
            }
        },
        None => None,
    }
}

/// A name, trimmed, or the device name when blank.
pub open spec fn name_or_device(name: Seq<char>, device: Seq<char>) -> Seq<char> {
    if trim_spec(name).len() > 0 {
        trim_spec(name)
    } else {
        device
    }
}

/// `p` is `prefs` as kept: names trimmed (the device name standing in for a
/// blank one), the debounce between 50 ms and 10 s, a blank last server
/// forgotten, and everything else unchanged.
pub open spec fn laboratory_normalized(
    prefs: LaboratoryPreferences,
    device: Seq<char>,
    p: LaboratoryPreferences,
) -> bool {
    &&& p.role == prefs.role
    &&& p.auto_start == prefs.auto_start
    &&& p.server.name@ == name_or_device(prefs.server.name@, device)
    &&& p.server.port == prefs.server.port
    &&& p.server.discovery_enabled == prefs.server.discovery_enabled
    &&& p.server.web_enabled == prefs.server.web_enabled
    &&& p.server.debounce_ms == crate::runtime::clamp_debounce(prefs.server.debounce_ms)
    &&& p.client.name@ == name_or_device(prefs.client.name@, device)
    &&& opt_view(p.client.last_server_id) == trimmed_optional_spec(opt_view(prefs.client.last_server_id))
}

/// The laboratory settings as they are kept; a port under 1024 is refused.
pub fn normalize_laboratory_preferences(prefs: LaboratoryPreferences, device_name: &str) -> (r: Result<
    LaboratoryPreferences,
    String,
>)
    ensures
        prefs.server.port < 1024 ==> (r matches Err(e) && e@
            == "实验室服务端端口必须在 1024 到 65535 之间"@),
        prefs.server.port >= 1024 ==> (r matches Ok(p) && laboratory_normalized(prefs, device_name@, p)),
{
    let mut prefs = prefs;
    let server_name = trim_str(prefs.server.name.as_str());
    prefs.server.name = if server_name.len() > 0 {
        string_from_chars(&server_name)
    } else {
        string_from_chars(&chars_of(device_name))
    };
    let client_name = trim_str(prefs.client.name.as_str());
    prefs.client.name = if client_name.len() > 0 {
        string_from_chars(&client_name)
    } else {
        string_from_chars(&chars_of(device_name))
    };
    if prefs.server.port < 1024 {
        return Err(string_from_chars(&chars_of("实验室服务端端口必须在 1024 到 65535 之间")));
    }
    prefs.server.debounce_ms = crate::runtime::command_debounce_ms(prefs.server.debounce_ms);
    let last = prefs.client.last_server_id.take();
    prefs.client.last_server_id = trimmed_optional(last);
    Ok(prefs)
}

/// Normalizing kept laboratory settings again changes nothing, when the
/// device name that stands in for blank names is itself trimmed and not
/// blank.
pub proof fn laboratory_normalization_settles(
    prefs: LaboratoryPreferences,
    device: Seq<char>,
    once: LaboratoryPreferences,
    twice: LaboratoryPreferences,
)
    requires
        trim_spec(device) == device,
        device.len() > 0,
        laboratory_normalized(prefs, device, once),
        laboratory_normalized(once, device, twice),
    ensures
        twice.role == once.role,
        twice.auto_start == once.auto_start,
        twice.server.name@ == once.server.name@,
        twice.server.port == once.server.port,
        twice.server.discovery_enabled == once.server.discovery_enabled,
        twice.server.web_enabled == once.server.web_enabled,
        twice.server.debounce_ms == once.server.debounce_ms,
        twice.client.name@ == once.client.name@,
        opt_view(twice.client.last_server_id) == opt_view(once.client.last_server_id),
{
    crate::text::lemma_trim_idempotent(prefs.server.name@);
    crate::text::lemma_trim_idempotent(prefs.client.name@);
    match opt_view(prefs.client.last_server_id) {
        Some(v) => crate::text::lemma_trim_idempotent(v),
        None => {},
    }
}

/// The first named colour that is not supported.
pub open spec fn first_bad_color(pairs: Seq<(Seq<char>, Seq<char>)>) -> Option<Seq<char>>
    decreases pairs.len(),
{
    if pairs.len() == 0 {
        None
    } else if !supported_color_spec(pairs[0].1) {
        Some(pairs[0].0)
    } else {
        first_bad_color(pairs.drop_first())
    }
}

/// The views of named colours.
pub open spec fn named_colors_view(pairs: Seq<(&str, &str)>) -> Seq<(Seq<char>, Seq<char>)> {
    pairs.map_values(|p: (&str, &str)| (p.0@, p.1@))
}

/// Checks named colours in order; the first unsupported one is reported as
/// `<name>不是有效的颜色值`.
pub fn check_colors(pairs: &[(&str, &str)]) -> (r: Result<(), String>)
    ensures
        match first_bad_color(named_colors_view(pairs@)) {
            None => r is Ok,
            Some(name) => r matches Err(e) && e@ == name + "不是有效的颜色值"@,
        },
{
    let ghost all = named_colors_view(pairs@);
    let mut i: usize = 0;
    assert(all.skip(0) == all);
    while i < pairs.len()
        invariant
            i <= pairs@.len(),
            all == named_colors_view(pairs@),
            first_bad_color(all) == first_bad_color(all.skip(i as int)),
        decreases pairs@.len() - i,
    {
        let (name, color) = pairs[i];
        let ghost rest = all.skip(i as int);
        assert(rest[0] == (name@, color@));
        if !is_supported_color(color) {
            let mut out: Vec<char> = Vec::new();
            push_str(&mut out, name);
            push_str(&mut out, "不是有效的颜色值");
            return Err(string_from_chars(&out));
        }
        assert(rest.drop_first() == all.skip(i + 1));
        i = i + 1;
    }
    assert(all.skip(i as int).len() == 0);
    Ok(())
}

/// `v` held between `lo` and `hi`.
pub open spec fn clamp_u16(v: u16, lo: u16, hi: u16) -> u16 {
    if v < lo {
        lo
    } else if v > hi {
        hi
    } else {
        v
    }
}

fn clamp16(v: u16, lo: u16, hi: u16) -> (r: u16)
    requires
        lo <= hi,
    ensures
        r == clamp_u16(v, lo, hi),
{
    if v < lo {
        lo
    } else if v > hi {
        hi
    } else {
        v
    }
}

impl StatusBarLyricsAppearance {
    /// The menu bar appearance with its sizes held in range: font size 10 to
    /// 18, width 120 to 360, and the nearest offered font weight.
    pub fn normalized(self) -> (r: Self)
        ensures
            r.font_size == clamp_u16(self.font_size, 10, 18),
            r.width == clamp_u16(self.width, 120, 360),
            crate::config::is_nearest_weight(r.font_weight as int, self.font_weight as int),
            r.font_family == self.font_family,
            r.text_color == self.text_color,
            r.inactive_color == self.inactive_color,
            r.highlight_color == self.highlight_color,
            r.karaoke_style == self.karaoke_style,
    {
        let mut a = self;
        a.font_size = clamp16(a.font_size, 10, 18);
        a.font_weight = normalize_display_font_weight(a.font_weight);
        a.width = clamp16(a.width, 120, 360);
        a
    }
}

/// The list window's background mode: `solid` or `transparent`, anything
/// else becoming `solid`.
pub fn normalize_list_background_mode(mode: String) -> (r: String)
    ensures
        r@ == if mode@ == "solid"@ || mode@ == "transparent"@ {
            mode@
        } else {
            "solid"@
        },
{
    if str_eq(mode.as_str(), "solid") || str_eq(mode.as_str(), "transparent") {
        mode
    } else {
        string_from_chars(&chars_of("solid"))
    }
}

/// The list window's alignment: `left`, `center` or `right`, anything else
/// becoming `center`.
pub fn normalize_list_alignment(alignment: String) -> (r: String)
    ensures
        r@ == if alignment@ == "left"@ || alignment@ == "center"@ || alignment@ == "right"@ {
            alignment@
        } else {
            "center"@
        },
{
    if str_eq(alignment.as_str(), "left") || str_eq(alignment.as_str(), "center") || str_eq(
        alignment.as_str(),
        "right",
    ) {
        alignment
    } else {
        string_from_chars(&chars_of("center"))
    }
}

/// The notch widths: the collapsed width between 320 and 640, the expanded
/// width between 440 and 640 and never below the collapsed one.
pub fn normalize_notch_widths(max_width: u16, expanded_max_width: u16) -> (r: (u16, u16))
    ensures
        r.0 == clamp_u16(max_width, 320, 640),
        r.1 == if clamp_u16(expanded_max_width, 440, 640) >= r.0 {
            clamp_u16(expanded_max_width, 440, 640)
        } else {
            r.0
        },
        r.0 <= r.1,
{
    let w = clamp16(max_width, 320, 640);
    let e = clamp16(expanded_max_width, 440, 640);
    (w, if e >= w {
        e
    } else {
        w
    })
}

/// Font sizes of the list window (12 to 56) and of the notch (12 to 32).
pub fn normalize_compact_font_sizes(list_font_size: u16, notch_font_size: u16) -> (r: (u16, u16))
    ensures
        r.0 == clamp_u16(list_font_size, 12, 56),
        r.1 == clamp_u16(notch_font_size, 12, 32),
{
    (clamp16(list_font_size, 12, 56), clamp16(notch_font_size, 12, 32))
}

} // verus!
