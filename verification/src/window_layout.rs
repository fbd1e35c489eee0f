use vstd::prelude::*;

use crate::overlay::{centered_spec, clamp_i32, sat_sub_u32, wrap_to_i32};
use crate::text::{
    all_digits, chars_of, decimal_spec, decimal_value, push_chars, push_decimal, push_str,
    string_from_chars,
};
use crate::web::split_once_spec;

verus! {

/// What `str::parse::<i32>` accepts: an optional `+` or `-`, then at least
/// one ASCII digit, and a value in range.
pub open spec fn parse_i32_spec(s: Seq<char>) -> Option<i32> {
    let negative = s.len() > 0 && s[0] == '-';
    let digits = if s.len() > 0 && (s[0] == '-' || s[0] == '+') {
        s.drop_first()
    } else {
        s
    };
    if digits.len() == 0 || !all_digits(digits) {
        None
    } else {
        let v = decimal_value(digits) as int;
        let value = if negative {
            -v
        } else {
            v
        };
        if i32::MIN <= value <= i32::MAX {
            Some(value as i32)
        } else {
            None
        }
    }
}

/// Parses a signed 32-bit decimal number.
#[verifier::loop_isolation(false)]
pub fn parse_i32(s: &Vec<char>) -> (r: Option<i32>)
    ensures
        r == parse_i32_spec(s@),
{
    let negative = s.len() > 0 && s[0] == '-';
    let start: usize = if s.len() > 0 && (s[0] == '-' || s[0] == '+') {
        1
    } else {
        0
    };
    let ghost d = s@.subrange(start as int, s@.len() as int);
    assert(start == 1 ==> d == s@.drop_first());
    assert(start == 0 ==> d == s@);
    if s.len() == start {
        return None;
    }
    let mut value: u64 = 0;
    let mut i: usize = start;
    assert(d.take(0) == Seq::<char>::empty());
    while i < s.len()
        invariant
            start <= i <= s@.len(),
            d == s@.subrange(start as int, s@.len() as int),
            forall|j: int| 0 <= j < i - start ==> crate::text::is_ascii_digit(#[trigger] d[j]),
            value == if decimal_value(d.take(i - start)) < 0x8000_0001 {
                decimal_value(d.take(i - start))
            } else {
                0x8000_0001
            },
        decreases s@.len() - i,
    {
        let c = s[i];
        if !crate::text::char_is_ascii_digit(c) {
            assert(d[i - start] == c);
            return None;
        }
        let ghost cur = d.take(i - start + 1);
        assert(cur.drop_last() == d.take(i - start));
        assert(cur.last() == c);
        proof {
            assert forall|j: int| 0 <= j < cur.len() implies crate::text::is_ascii_digit(
                #[trigger] cur[j],
            ) by {
                assert(cur[j] == d[j]);
            }
            crate::text::lemma_decimal_value_grows(cur);
        }
        if value < 0x8000_0001 {
            value = value * 10 + ((c as u32) - 48) as u64;
            if value > 0x8000_0001 {
                value = 0x8000_0001;
            }
        }
        i = i + 1;
    }
    assert(d.take(d.len() as int) == d);
    if negative {
        if value <= 0x8000_0000 {
            Some((0 - (value as i64)) as i32)
        } else {
            None
        }
    } else if value <= 0x7fff_ffff {
        Some(value as i32)
    } else {
        None
    }
}

/// A saved window position, `x,y`.
pub open spec fn saved_position_spec(raw: Seq<char>) -> Option<(i32, i32)> {
    match split_once_spec(raw, ',') {
        Some((x, y)) => match (parse_i32_spec(x), parse_i32_spec(y)) {
            (Some(a), Some(b)) => Some((a, b)),
            _ => None,
        },
        None => None,
    }
}

/// Reads a saved window position.
pub fn parse_saved_position(raw: &str) -> (r: Option<(i32, i32)>)
    ensures
        r == saved_position_spec(raw@),
{
    let chars = chars_of(raw);
    match crate::web::split_once_char(&chars, ',') {
        Some((x, y)) => match (parse_i32(&x), parse_i32(&y)) {
            (Some(a), Some(b)) => Some((a, b)),
            _ => None,
        },
        None => None,
    }
}

/// A point lies on a display when it is inside the display's rectangle (the
/// far edges computed with saturation, as the windows code does).
pub open spec fn on_monitor(point: (i32, i32), origin: (i32, i32), size: (u32, u32)) -> bool {
    &&& point.0 >= origin.0
    &&& point.1 >= origin.1
    &&& point.0 < clamp_i32(origin.0 + wrap_to_i32(size.0 as int))
    &&& point.1 < clamp_i32(origin.1 + wrap_to_i32(size.1 as int))
}

fn wrap32(v: u32) -> (r: i64)
    ensures
        r == wrap_to_i32(v as int),
{
    if v <= 0x7fff_ffff {
        v as i64
    } else {
        v as i64 - 0x1_0000_0000
    }
}

fn sat_i32(v: i64) -> (r: i64)
    requires
        -0x1_0000_0000_0000 < v < 0x1_0000_0000_0000,
    ensures
        r == clamp_i32(v as int),
{
    if v > 0x7fff_ffff {
        0x7fff_ffff
    } else if v < -0x8000_0000 {
        -0x8000_0000
    } else {
        v
    }
}

/// Whether a saved position lies on any attached display.
pub fn position_visible(point: (i32, i32), monitors: &Vec<((i32, i32), (u32, u32))>) -> (r: bool)
    ensures
        r == exists|i: int|
            0 <= i < monitors@.len() && on_monitor(point, (#[trigger] monitors@[i]).0, monitors@[i].1),
{
    let mut i: usize = 0;
    while i < monitors.len()
        invariant
            i <= monitors@.len(),
            forall|j: int| 0 <= j < i ==> !on_monitor(point, (#[trigger] monitors@[j]).0, monitors@[j].1),
        decreases monitors@.len() - i,
    {
        let (origin, size) = monitors[i];
        let right = sat_i32(origin.0 as i64 + wrap32(size.0));
        let bottom = sat_i32(origin.1 as i64 + wrap32(size.1));
        if point.0 >= origin.0 && point.1 >= origin.1 && (point.0 as i64) < right && (point.1 as i64)
            < bottom {
            assert(on_monitor(point, monitors@[i as int].0, monitors@[i as int].1));
            return true;
        }
        i = i + 1;
    }
    false
}

/// The text of a signed number.
pub open spec fn signed_text(v: int) -> Seq<char> {
    if v < 0 {
        "-"@ + decimal_spec((-v) as nat)
    } else {
        decimal_spec(v as nat)
    }
}

fn push_i32(out: &mut Vec<char>, v: i32)
    ensures
        final(out)@ == old(out)@ + signed_text(v as int),
{
    if v < 0 {
        push_str(out, "-");
        let m: u64 = (0 - (v as i64)) as u64;
        push_decimal(m, out);
    } else {
        push_decimal(v as u64, out);
    }
}

/// The identifier of a display for the notch and menu bar lyrics:
/// `name@x,y:widthxheight`, with `display` for a display without a name.
pub open spec fn notch_monitor_id_spec(name: Option<Seq<char>>, position: (i32, i32), size: (u32, u32)) -> Seq<char> {
    (match name {
        Some(n) => n,
        None => "display"@,
    }) + "@"@ + signed_text(position.0 as int) + ","@ + signed_text(position.1 as int) + ":"@
        + decimal_spec(size.0 as nat) + "x"@ + decimal_spec(size.1 as nat)
}

/// Names a display.
pub fn notch_monitor_id(name: Option<&str>, position: (i32, i32), size: (u32, u32)) -> (r: String)
    ensures
        r@ == notch_monitor_id_spec(
            match name {
                Some(n) => Some(n@),
                None => None,
            },
            position,
            size,
        ),
{
    let mut out: Vec<char> = Vec::new();
    match name {
        Some(n) => push_str(&mut out, n),
        None => push_str(&mut out, "display"),
    }
    push_str(&mut out, "@");
    push_i32(&mut out, position.0);
    push_str(&mut out, ",");
    push_i32(&mut out, position.1);
    push_str(&mut out, ":");
    push_decimal(size.0 as u64, &mut out);
    push_str(&mut out, "x");
    push_decimal(size.1 as u64, &mut out);
    string_from_chars(&out)
}

/// The notch window sits at the top of its display, centred horizontally.
pub fn notch_window_position(monitor_position: (i32, i32), monitor_width: u32, width: u32) -> (r: (
    i32,
    i32,
))
    requires
        sat_sub_u32(monitor_width as int, width as int) <= i32::MAX,
        i32::MIN <= centered_spec(monitor_position.0 as int, monitor_width as int, width as int)
            <= i32::MAX,
    ensures
        r.0 == centered_spec(monitor_position.0 as int, monitor_width as int, width as int),
        r.1 == monitor_position.1,
{
    let free = monitor_width.saturating_sub(width);
    (monitor_position.0 + (free as i32) / 2, monitor_position.1)
}

/// The lyrics window after it is moved to the primary display: centred
/// horizontally in the work area, 72 pixels below its top.
pub fn primary_overlay_position(work_position: (i32, i32), work_width: u32, window_width: u32) -> (r: (
    i32,
    i32,
))
    requires
        i32::MIN <= centered_spec(work_position.0 as int, work_width as int, window_width as int)
            <= i32::MAX,
        work_position.1 + 72 <= i32::MAX,
    ensures
        r.0 == centered_spec(work_position.0 as int, work_width as int, window_width as int),
        r.1 == work_position.1 + 72,
{
    let free = work_width.saturating_sub(window_width) / 2;
    (work_position.0 + free as i32, work_position.1 + 72)
}

/// The lyrics window moved by the arrow keys: at most 20 pixels a step in
/// each direction, and only while it is unlocked.
pub fn nudged_position(locked: bool, position: (i32, i32), dx: i32, dy: i32) -> (r: Result<(i32, i32), String>)
    ensures
        locked ==> (r matches Err(e) && e@ == "请先解锁歌词浮窗"@),
        !locked ==> r == Ok::<(i32, i32), String>(
            (
                clamp_i32(position.0 + (if dx < -20 {
                    -20
                } else if dx > 20 {
                    20
                } else {
                    dx as int
                })) as i32,
                clamp_i32(position.1 + (if dy < -20 {
                    -20
                } else if dy > 20 {
                    20
                } else {
                    dy as int
                })) as i32,
            ),
        ),
{
    if locked {
        return Err(string_from_chars(&chars_of("请先解锁歌词浮窗")));
    }
    let sx: i64 = if dx < -20 {
        -20
    } else if dx > 20 {
        20
    } else {
        dx as i64
    };
    let sy: i64 = if dy < -20 {
        -20
    } else if dy > 20 {
        20
    } else {
        dy as i64
    };
    let x = sat_i32(position.0 as i64 + sx);
    let y = sat_i32(position.1 as i64 + sy);
    Ok((x as i32, y as i32))
}

} // verus!
