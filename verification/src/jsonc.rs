use vstd::prelude::*;

use crate::text::{char_is_whitespace, chars_of, is_white_space, string_from_chars};

verus! {

/// A configuration draft was rejected; the position is 1-based.
#[derive(Debug, Clone)]
pub struct ConfigDraftError {
    pub message: String,
    pub line: usize,
    pub column: usize,
}

/// Where the comment scanner of a JSONC document stands.
#[derive(Clone, Copy, PartialEq, Eq, Structural)]
pub enum ScanState {
    Normal,
    InString,
    LineComment,
    /// In a block comment opened at this line and column.
    BlockComment { line: usize, column: usize },
}

/// One step of the comment scanner at character `cur`, followed by `next`:
/// the next state and escape flag, whether `cur` is blanked, and whether the
/// two characters form a comment delimiter, so that `next` is blanked and
/// skipped too.
pub open spec fn scan_step(
    state: ScanState,
    escaped: bool,
    cur: char,
    next: Option<char>,
    line: usize,
    column: usize,
) -> (ScanState, bool, bool, bool) {
    match state {
        ScanState::Normal => if cur == '"' {
            (ScanState::InString, escaped, false, false)
        } else if cur == '/' && next == Some('/') {
            (ScanState::LineComment, escaped, true, true)
        } else if cur == '/' && next == Some('*') {
            (ScanState::BlockComment { line, column }, escaped, true, true)
        } else {
            (state, escaped, false, false)
        },
        ScanState::InString => if escaped {
            (state, false, false, false)
        } else if cur == '\\' {
            (state, true, false, false)
        } else if cur == '"' {
            (ScanState::Normal, escaped, false, false)
        } else {
            (state, escaped, false, false)
        },
        ScanState::LineComment => if cur == '\n' {
            (ScanState::Normal, escaped, false, false)
        } else {
            (state, escaped, true, false)
        },
        ScanState::BlockComment { .. } => if cur == '*' && next == Some('/') {
            (ScanState::Normal, escaped, true, true)
        } else if cur != '\n' {
            (state, escaped, true, false)
        } else {
            (state, escaped, false, false)
        },
    }
}

/// Runs the comment scanner from position `i` over `input`, blanking comment
/// characters in `out` and counting lines and columns from 1: the blanked
/// text and the state at the end.
pub open spec fn comment_scan(
    input: Seq<char>,
    i: int,
    state: ScanState,
    escaped: bool,
    line: usize,
    column: usize,
    out: Seq<char>,
) -> (Seq<char>, ScanState)
    decreases input.len() - i,
{
    if i < 0 || i >= input.len() {
        (out, state)
    } else {
        let cur = input[i];
        let next = if i + 1 < input.len() {
            Some(input[i + 1])
        } else {
            None
        };
        let (st, esc, blank, pair) = scan_step(state, escaped, cur, next, line, column);
        let out1 = if blank {
            out.update(i, ' ')
        } else {
            out
        };
        let out2 = if pair {
            out1.update(i + 1, ' ')
        } else {
            out1
        };
        let col1 = if pair {
            column + 1
        } else {
            column as int
        };
        let line2 = if cur == '\n' {
            line + 1
        } else {
            line as int
        };
        let col2 = if cur == '\n' {
            1
        } else {
            col1 + 1
        };
        comment_scan(
            input,
            i + 1 + if pair {
                1int
            } else {
                0
            },
            st,
            esc,
            line2 as usize,
            col2 as usize,
            out2,
        )
    }
}

/// The first position at or after `j` that is not white space, or the end.
pub open spec fn next_significant(s: Seq<char>, j: int) -> int
    decreases s.len() - j,
{
    if 0 <= j < s.len() && is_white_space(s[j]) {
        next_significant(s, j + 1)
    } else {
        j
    }
}

/// Blanks, from position `i` on, every comma outside strings that only white
/// space separates from a closing `}` or `]`.
pub open spec fn comma_scan(s: Seq<char>, i: int, in_string: bool, escaped: bool, out: Seq<char>) -> Seq<
    char,
>
    decreases s.len() - i,
{
    if i < 0 || i >= s.len() {
        out
    } else {
        let c = s[i];
        if in_string {
            if escaped {
                comma_scan(s, i + 1, true, false, out)
            } else if c == '\\' {
                comma_scan(s, i + 1, true, true, out)
            } else if c == '"' {
                comma_scan(s, i + 1, false, false, out)
            } else {
                comma_scan(s, i + 1, true, false, out)
            }
        } else if c == '"' {
            comma_scan(s, i + 1, true, escaped, out)
        } else if c != ',' {
            comma_scan(s, i + 1, false, escaped, out)
        } else {
            let j = next_significant(s, i + 1);
            let closes = j < s.len() && (s[j] == '}' || s[j] == ']');
            comma_scan(
                s,
                i + 1,
                false,
                escaped,
                if closes {
                    out.update(i, ' ')
                } else {
                    out
                },
            )
        }
    }
}

/// JSONC made into JSON: comments and trailing commas become spaces, so that
/// every other character keeps its line and column; or the line and column
/// of a block comment that is never closed.
pub open spec fn sanitize_jsonc_spec(raw: Seq<char>) -> Result<Seq<char>, (usize, usize)> {
    let (blanked, state) = comment_scan(raw, 0, ScanState::Normal, false, 1, 1, raw);
    match state {
        ScanState::BlockComment { line, column } => Err((line, column)),
        _ => Ok(comma_scan(blanked, 0, false, false, blanked)),
    }
}

/// Every character is kept or turned into a space, and line breaks are kept.
pub open spec fn only_blanked(input: Seq<char>, out: Seq<char>) -> bool {
    &&& out.len() == input.len()
    &&& forall|k: int|
        0 <= k < input.len() ==> #[trigger] out[k] == input[k] || (out[k] == ' ' && input[k]
            != '\n')
}

/// The message of an unterminated block comment.
pub open spec fn unterminated_comment_message() -> Seq<char> {
    "块注释没有结束"@
}

/// Turns a JSONC draft into JSON text with the same layout: comments and
/// trailing commas are replaced by spaces. A block comment that is never
/// closed is an error at its opening.
pub fn sanitize_jsonc(raw: &str) -> (r: Result<String, ConfigDraftError>)
    requires
        raw@.len() < usize::MAX,
    ensures
        match sanitize_jsonc_spec(raw@) {
            Ok(text) => r matches Ok(s) && s@ == text,
            Err((line, column)) => r matches Err(e) && e.message@ == unterminated_comment_message()
                && e.line == line && e.column == column,
        },
        r matches Ok(s) ==> only_blanked(raw@, s@),
{
    let characters = chars_of(raw);
    let ghost input = characters@;
    let n = characters.len();
    let mut output = chars_of(raw);
    let mut state = ScanState::Normal;
    let mut escaped = false;
    let mut line: usize = 1;
    let mut column: usize = 1;
    let mut index: usize = 0;
    while index < n
        invariant
            n == input.len(),
            n < usize::MAX,
            input == characters@,
            index <= n,
            1 <= line <= index + 1,
            1 <= column <= index + 1,
            comment_scan(input, 0, ScanState::Normal, false, 1, 1, input) == comment_scan(
                input,
                index as int,
                state,
                escaped,
                line,
                column,
                output@,
            ),
            only_blanked(input, output@),
        decreases n - index,
    {
        let current = characters[index];
        let next = if index + 1 < n {
            Some(characters[index + 1])
        } else {
            None
        };
        let ghost before = comment_scan(input, index as int, state, escaped, line, column, output@);
        let (st, esc, blank, pair) = match state {
            ScanState::Normal => {
                if current == '"' {
                    (ScanState::InString, escaped, false, false)
                } else if current == '/' && next == Some('/') {
                    (ScanState::LineComment, escaped, true, true)
                } else if current == '/' && next == Some('*') {
                    (ScanState::BlockComment { line, column }, escaped, true, true)
                } else {
                    (state, escaped, false, false)
                }
            },
            ScanState::InString => {
                if escaped {
                    (state, false, false, false)
                } else if current == '\\' {
                    (state, true, false, false)
                } else if current == '"' {
                    (ScanState::Normal, escaped, false, false)
                } else {
                    (state, escaped, false, false)
                }
            },
            ScanState::LineComment => {
                if current == '\n' {
                    (ScanState::Normal, escaped, false, false)
                } else {
                    (state, escaped, true, false)
                }
            },
            ScanState::BlockComment { .. } => {
                if current == '*' && next == Some('/') {
                    (ScanState::Normal, escaped, true, true)
                } else if current != '\n' {
                    (state, escaped, true, false)
                } else {
                    (state, escaped, false, false)
                }
            },
        };
        assert((st, esc, blank, pair) == scan_step(state, escaped, current, next, line, column));
        if blank {
            output.set(index, ' ');
        }
        if pair {
            output.set(index + 1, ' ');
            index = index + 1;
            column = column + 1;
        }
        state = st;
        escaped = esc;
        if current == '\n' {
            line = line + 1;
            column = 1;
        } else {
            column = column + 1;
        }
        index = index + 1;
        assert(before == comment_scan(input, index as int, state, escaped, line, column, output@));
    }
    if let ScanState::BlockComment { line, column } = state {
        return Err(
            ConfigDraftError {
                message: String::from_str("块注释没有结束"),
                line,
                column,
            },
        );
    }
    let ghost blanked = output@;
    let mut result = output.clone();
    assert(result@ == blanked);
    let mut in_string = false;
    let mut escaped = false;
    let mut index: usize = 0;
    while index < n
        invariant
            n == blanked.len(),
            blanked == output@,
            index <= n,
            comma_scan(blanked, 0, false, false, blanked) == comma_scan(
                blanked,
                index as int,
                in_string,
                escaped,
                result@,
            ),
            only_blanked(input, result@),
            only_blanked(input, blanked),
        decreases n - index,
    {
        let current = output[index];
        let ghost before = comma_scan(blanked, index as int, in_string, escaped, result@);
        if in_string {
            if escaped {
                escaped = false;
            } else if current == '\\' {
                escaped = true;
            } else if current == '"' {
                in_string = false;
            }
        } else if current == '"' {
            in_string = true;
        } else if current == ',' {
            let mut lookahead = index + 1;
            while lookahead < n && char_is_whitespace(output[lookahead])
                invariant
                    index + 1 <= lookahead <= n,
                    n == blanked.len(),
                    blanked == output@,
                    next_significant(blanked, index + 1) == next_significant(blanked, lookahead as int),
                decreases n - lookahead,
            {
                lookahead = lookahead + 1;
            }
            if lookahead < n && (output[lookahead] == '}' || output[lookahead] == ']') {
                result.set(index, ' ');
            }
        }
        index = index + 1;
        assert(before == comma_scan(blanked, index as int, in_string, escaped, result@));
    }
    Ok(string_from_chars(&result))
}

} // verus!

verus! {

/// `needle` occurs in `s` at position `k`.
pub open spec fn occurs_at(s: Seq<char>, needle: Seq<char>, k: int) -> bool {
    0 <= k && k + needle.len() <= s.len() && s.subrange(k, k + needle.len()) == needle
}

/// The first position at or after `k` where `needle` occurs in `s`.
pub open spec fn find_from(s: Seq<char>, needle: Seq<char>, k: int) -> Option<int>
    decreases s.len() - k,
{
    if k < 0 || k >= s.len() || k + needle.len() > s.len() {
        None
    } else if occurs_at(s, needle, k) {
        Some(k)
    } else {
        find_from(s, needle, k + 1)
    }
}

/// The number of line breaks in `s`.
pub open spec fn count_newlines(s: Seq<char>) -> nat
    decreases s.len(),
{
    if s.len() == 0 {
        0
    } else {
        count_newlines(s.drop_last()) + if s.last() == '\n' {
            1nat
        } else {
            0
        }
    }
}

/// The number of characters after the last line break of `s`.
pub open spec fn last_line_len(s: Seq<char>) -> nat
    decreases s.len(),
{
    if s.len() == 0 {
        0
    } else if s.last() == '\n' {
        0
    } else {
        last_line_len(s.drop_last()) + 1
    }
}

/// The text before the first quoted occurrence of `key`, or nothing.
pub open spec fn key_prefix(raw: Seq<char>, key: Seq<char>) -> Seq<char> {
    match find_from(raw, seq!['"'] + key + seq!['"'], 0) {
        Some(k) => raw.take(k),
        None => seq![],
    }
}

/// An error placed at the first quoted occurrence of `key` in `raw`, or at the
/// start when there is none.
pub open spec fn error_at_key_spec(e: ConfigDraftError, raw: Seq<char>, key: Seq<char>, message: Seq<char>) -> bool {
    let prefix = key_prefix(raw, key);
    &&& e.message@ == message
    &&& e.line == count_newlines(prefix) + 1
    &&& e.column == last_line_len(prefix) + 1
}

proof fn lemma_counts_bounded(s: Seq<char>)
    ensures
        count_newlines(s) <= s.len(),
        last_line_len(s) <= s.len(),
    decreases s.len(),
{
    if s.len() > 0 {
        lemma_counts_bounded(s.drop_last());
    }
}

fn occurs_at_exec(s: &Vec<char>, needle: &Vec<char>, k: usize) -> (r: bool)
    requires
        k + needle@.len() <= s@.len(),
    ensures
        r == occurs_at(s@, needle@, k as int),
{
    let n = s.len();
    let mut i: usize = 0;
    while i < needle.len()
        invariant
            i <= needle@.len(),
            n == s@.len(),
            k + needle@.len() <= s@.len(),
            forall|j: int| 0 <= j < i ==> s@[k + j] == needle@[j],
        decreases needle@.len() - i,
    {
        if s[k + i] != needle[i] {
            assert(s@.subrange(k as int, k + needle@.len())[i as int] != needle@[i as int]);
            return false;
        }
        i = i + 1;
    }
    assert(s@.subrange(k as int, k + needle@.len()) =~= needle@);
    true
}

/// Places an error message at the first quoted occurrence of `key` in the
/// draft, with 1-based line and column counted in characters.
pub fn error_at_key(raw: &str, key: &str, message: &str) -> (r: ConfigDraftError)
    requires
        raw@.len() < usize::MAX,
    ensures
        error_at_key_spec(r, raw@, key@, message@),
{
    let s = chars_of(raw);
    let mut needle: Vec<char> = Vec::new();
    needle.push('"');
    crate::text::push_str(&mut needle, key);
    needle.push('"');
    assert(needle@ == seq!['"'] + key@ + seq!['"']);
    let mut offset: usize = 0;
    let mut k: usize = 0;
    let mut found = false;
    while !found && k < s.len() && needle.len() <= s.len() - k
        invariant
            k <= s@.len(),
            needle@.len() >= 2,
            needle@ == seq!['"'] + key@ + seq!['"'],
            s@ == raw@,
            found ==> offset == k && find_from(s@, needle@, 0) == Some(k as int),
            !found ==> find_from(s@, needle@, 0) == find_from(s@, needle@, k as int) && offset == 0,
        decreases s@.len() + 1 - k - (if found { 1int } else { 0 }),
    {
        if occurs_at_exec(&s, &needle, k) {
            found = true;
            offset = k;
        } else {
            k = k + 1;
        }
    }
    let ghost prefix = key_prefix(raw@, key@);
    assert(s@.take(offset as int) == prefix);
    let mut line: usize = 1;
    let mut column: usize = 1;
    let mut i: usize = 0;
    assert(s@.take(0) == Seq::<char>::empty());
    while i < offset
        invariant
            i <= offset <= s@.len(),
            s@.len() < usize::MAX,
            prefix == s@.take(offset as int),
            line == count_newlines(s@.take(i as int)) + 1,
            column == last_line_len(s@.take(i as int)) + 1,
            count_newlines(s@.take(i as int)) <= i,
            last_line_len(s@.take(i as int)) <= i,
        decreases offset - i,
    {
        let ghost cur = s@.take(i + 1);
        assert(cur.drop_last() == s@.take(i as int));
        if s[i] == '\n' {
            line = line + 1;
            column = 1;
        } else {
            column = column + 1;
        }
        i = i + 1;
    }
    assert(s@.take(i as int) == prefix);
    ConfigDraftError { message: String::from_str(message), line, column }
}

} // verus!

verus! {

/// The first position where `needle` occurs in `s`.
pub fn find_chars(s: &Vec<char>, needle: &Vec<char>) -> (r: Option<usize>)
    requires
        needle@.len() > 0,
    ensures
        match r {
            Some(k) => find_from(s@, needle@, 0) == Some(k as int),
            None => find_from(s@, needle@, 0) is None,
        },
{
    let mut k: usize = 0;
    while k < s.len() && needle.len() <= s.len() - k
        invariant
            k <= s@.len(),
            needle@.len() > 0,
            find_from(s@, needle@, 0) == find_from(s@, needle@, k as int),
        decreases s@.len() - k,
    {
        if occurs_at_exec(s, needle, k) {
            return Some(k);
        }
        k = k + 1;
    }
    None
}

/// Whether `needle` occurs in `s`.
pub open spec fn contains_spec(s: Seq<char>, needle: Seq<char>) -> bool {
    find_from(s, needle, 0) is Some
}

/// Whether the text `needle` occurs in `s`.
pub fn chars_contain(s: &Vec<char>, needle: &str) -> (r: bool)
    requires
        needle@.len() > 0,
    ensures
        r == contains_spec(s@, needle@),
{
    let n = chars_of(needle);
    find_chars(s, &n).is_some()
}

} // verus!

verus! {

/// A found occurrence lies within the text.
pub proof fn lemma_find_from_bounds(s: Seq<char>, needle: Seq<char>, k: int)
    ensures
        find_from(s, needle, k) matches Some(i) ==> k <= i && i + needle.len() <= s.len()
            && occurs_at(s, needle, i),
    decreases s.len() - k,
{
    if !(k < 0 || k >= s.len() || k + needle.len() > s.len()) && !occurs_at(s, needle, k) {
        lemma_find_from_bounds(s, needle, k + 1);
    }
}

} // verus!

verus! {

/// A draft that failed for a reason of the program rather than of the
/// draft, reported at its start.
pub fn internal_draft_error(reason: &str) -> (r: ConfigDraftError)
    ensures
        r.message@ == "处理配置失败："@ + reason@,
        r.line == 1,
        r.column == 1,
{
    let mut message: Vec<char> = Vec::new();
    crate::text::push_str(&mut message, "处理配置失败：");
    crate::text::push_str(&mut message, reason);
    ConfigDraftError { message: string_from_chars(&message), line: 1, column: 1 }
}

} // verus!

verus! {

/// A `*/` stands at position `k` of the text.
pub open spec fn closes_block_at(input: Seq<char>, k: int) -> bool {
    0 <= k && k + 1 < input.len() && input[k] == '*' && input[k + 1] == '/'
}

/// `out` with every character of `input` in `i..j` but line breaks made a
/// space.
pub open spec fn blank_range(out: Seq<char>, input: Seq<char>, i: int, j: int) -> Seq<char> {
    Seq::new(out.len(), |p: int| if i <= p < j && input[p] != '\n' { ' ' } else { out[p] })
}

/// Inside a block comment the scanner blanks every character up to and
/// including the first `*/` from where it stands, line breaks excepted, and
/// goes on after the `*/` as outside any comment: a line break never ends a
/// block comment.
pub proof fn block_comment_runs_to_its_closer(
    input: Seq<char>,
    i: int,
    k: int,
    opened_line: usize,
    opened_column: usize,
    escaped: bool,
    line: usize,
    column: usize,
    out: Seq<char>,
)
    requires
        0 <= i <= k,
        closes_block_at(input, k),
        forall|p: int| i <= p < k ==> !#[trigger] closes_block_at(input, p),
        out.len() == input.len(),
    ensures
        exists|l: usize, c: usize|
            comment_scan(
                input,
                i,
                ScanState::BlockComment { line: opened_line, column: opened_column },
                escaped,
                line,
                column,
                out,
            ) == #[trigger] comment_scan(
                input,
                k + 2,
                ScanState::Normal,
                escaped,
                l,
                c,
                blank_range(out, input, i, k + 2),
            ),
    decreases k - i,
{
    let state = ScanState::BlockComment { line: opened_line, column: opened_column };
    let cur = input[i];
    let line2 = if cur == '\n' { line + 1 } else { line as int };
    if i == k {
        let out2 = out.update(i, ' ').update(i + 1, ' ');
        assert(out2 =~= blank_range(out, input, i, k + 2));
        let c2 = (column + 1) + 1;
        assert(comment_scan(input, i, state, escaped, line, column, out) == comment_scan(
            input,
            k + 2,
            ScanState::Normal,
            escaped,
            line2 as usize,
            c2 as usize,
            blank_range(out, input, i, k + 2),
        ));
    } else {
        assert(!closes_block_at(input, i));
        let out1 = if cur != '\n' { out.update(i, ' ') } else { out };
        let col2 = if cur == '\n' { 1 } else { column + 1 };
        block_comment_runs_to_its_closer(
            input,
            i + 1,
            k,
            opened_line,
            opened_column,
            escaped,
            line2 as usize,
            col2 as usize,
            out1,
        );
        assert(blank_range(out1, input, i + 1, k + 2) =~= blank_range(out, input, i, k + 2));
        assert(comment_scan(input, i, state, escaped, line, column, out) == comment_scan(
            input,
            i + 1,
            state,
            escaped,
            line2 as usize,
            col2 as usize,
            out1,
        ));
    }
}

/// Outside strings and comments, a `/*` opens a comment that the scanner
/// blanks up to and including the next `*/` (searched from after the `/*`),
/// line breaks excepted, on every line it spans; after it the text is read
/// as outside any comment again.
pub proof fn block_comment_is_blanked_to_its_closer(
    input: Seq<char>,
    i: int,
    k: int,
    escaped: bool,
    line: usize,
    column: usize,
    out: Seq<char>,
)
    requires
        0 <= i,
        i + 1 < input.len(),
        input[i] == '/',
        input[i + 1] == '*',
        i + 2 <= k,
        closes_block_at(input, k),
        forall|p: int| i + 2 <= p < k ==> !#[trigger] closes_block_at(input, p),
        out.len() == input.len(),
    ensures
        exists|l: usize, c: usize|
            comment_scan(input, i, ScanState::Normal, escaped, line, column, out)
                == #[trigger] comment_scan(
                input,
                k + 2,
                ScanState::Normal,
                escaped,
                l,
                c,
                blank_range(out, input, i, k + 2),
            ),
{
    let out2 = out.update(i, ' ').update(i + 1, ' ');
    let state = ScanState::BlockComment { line, column };
    let c2 = (column + 1) + 1;
    assert(comment_scan(input, i, ScanState::Normal, escaped, line, column, out) == comment_scan(
        input,
        i + 2,
        state,
        escaped,
        line,
        c2 as usize,
        out2,
    ));
    block_comment_runs_to_its_closer(input, i + 2, k, line, column, escaped, line, c2 as usize, out2);
    assert(blank_range(out2, input, i + 2, k + 2) =~= blank_range(out, input, i, k + 2));
}

} // verus!
