//! Reading the JSON object out of an AI service's answer.

use vstd::prelude::*;
use crate::error::GhrustError;
use crate::prompts::PrContent;
use crate::text::{decimal, decimal_string, find, first_occ, join2, join3, lemma_first_occ_bounds, occurs_at};

verus! {

/// White space as Unicode's `White_Space` property defines it (what std's
/// `char::is_whitespace` tests).
pub open spec fn is_ws(c: char) -> bool {
    ('\u{9}' <= c && c <= '\u{d}') || c == ' ' || c == '\u{85}' || c == '\u{a0}' || c == '\u{1680}'
        || ('\u{2000}' <= c && c <= '\u{200a}') || c == '\u{2028}' || c == '\u{2029}' || c
        == '\u{202f}' || c == '\u{205f}' || c == '\u{3000}'
}

fn ws(c: char) -> (r: bool)
    ensures
        r == is_ws(c),
{
    ('\u{9}' <= c && c <= '\u{d}') || c == ' ' || c == '\u{85}' || c == '\u{a0}' || c == '\u{1680}'
        || ('\u{2000}' <= c && c <= '\u{200a}') || c == '\u{2028}' || c == '\u{2029}' || c
        == '\u{202f}' || c == '\u{205f}' || c == '\u{3000}'
}

/// The number of white-space characters that `s` starts with, from `i`.
pub open spec fn lead_end(s: Seq<char>, i: int) -> int
    decreases s.len() - i,
{
    if 0 <= i < s.len() && is_ws(s[i]) {
        lead_end(s, i + 1)
    } else {
        i
    }
}

/// The end of `s` without its trailing white space, searching down from `j`.
pub open spec fn trail_start(s: Seq<char>, lo: int, j: int) -> int
    decreases j - lo,
{
    if lo < j && j <= s.len() && is_ws(s[j - 1]) {
        trail_start(s, lo, j - 1)
    } else {
        j
    }
}

/// `s` without leading and trailing white space.
pub open spec fn trim_spec(s: Seq<char>) -> Seq<char> {
    let a = lead_end(s, 0);
    s.subrange(a, trail_start(s, a, s.len() as int))
}

/// `s` without leading and trailing white space.
pub fn trim(s: &str) -> (r: &str)
    ensures
        r@ == trim_spec(s@),
{
    let n = s.unicode_len();
    let mut a: usize = 0;
    while a < n && ws(s.get_char(a))
        invariant
            a <= n == s@.len(),
            lead_end(s@, 0) == lead_end(s@, a as int),
        decreases n - a,
    {
        a += 1;
    }
    let mut b: usize = n;
    while b > a && ws(s.get_char(b - 1))
        invariant
            a <= b <= n == s@.len(),
            a == lead_end(s@, 0),
            trail_start(s@, a as int, n as int) == trail_start(s@, a as int, b as int),
        decreases b,
    {
        b -= 1;
    }
    s.substring_char(a, b)
}

/// The last position before `j` that holds `c`.
pub open spec fn last_char(s: Seq<char>, c: char, j: int) -> Option<int>
    decreases j,
{
    if j <= 0 || j > s.len() {
        None
    } else if s[j - 1] == c {
        Some(j - 1)
    } else {
        last_char(s, c, j - 1)
    }
}

/// The text of a fenced block that starts at `from`: up to the next fence,
/// or to the end.
pub open spec fn fenced(t: Seq<char>, from: int) -> Seq<char> {
    let rest = t.subrange(from, t.len() as int);
    match first_occ(rest, "```"@, 0) {
        Some(e) => rest.subrange(0, e),
        None => rest,
    }
}

/// A candidate is accepted when it is not empty and opens an object.
pub open spec fn accepted(j: Seq<char>) -> bool {
    j.len() > 0 && j[0] == '{'
}

/// The JSON object in an answer: the body of a ```` ```json ```` block,
/// else (when there is no such marker) of a plain fenced block, else the
/// span from the first `{` to the last `}`, else the trimmed answer.
pub open spec fn extract_json_spec(response: Seq<char>) -> Seq<char> {
    let t = trim_spec(response);
    let j1 = match first_occ(t, "```json"@, 0) {
        Some(st) => if st + 7 < t.len() {
            Some(trim_spec(fenced(t, st + 7)))
        } else {
            None
        },
        None => None,
    };
    let j2 = if first_occ(t, "```json"@, 0) is None {
        match first_occ(t, "```"@, 0) {
            Some(st) => if st + 3 < t.len() {
                Some(trim_spec(fenced(t, st + 3)))
            } else {
                None
            },
            None => None,
        }
    } else {
        None
    };
    if j1 is Some && accepted(j1->0) {
        j1->0
    } else if j2 is Some && accepted(j2->0) {
        j2->0
    } else {
        match (first_occ(t, "{"@, 0), last_char(t, '}', t.len() as int)) {
            (Some(a), Some(b)) => if b > a {
                t.subrange(a, b + 1)
            } else {
                t
            },
            _ => t,
        }
    }
}

fn fenced_block(t: &str, from: usize) -> (r: &str)
    requires
        from <= t@.len(),
    ensures
        r@ == trim_spec(fenced(t@, from as int)),
{
    proof {
        reveal_strlit("```");
    }
    let n = t.unicode_len();
    let rest = t.substring_char(from, n);
    let content = match find(rest, "```", 0) {
        Some(e) => {
            proof {
                lemma_first_occ_bounds(rest@, "```"@, 0);
            }
            rest.substring_char(0, e)
        },
        None => rest,
    };
    trim(content)
}

fn accept(j: &str) -> (r: bool)
    ensures
        r == accepted(j@),
{
    j.unicode_len() > 0 && j.get_char(0) == '{'
}

/// The JSON object in an AI answer (see `extract_json_spec`).
pub fn extract_json_from_markdown(response: &str) -> (r: String)
    ensures
        r@ == extract_json_spec(response@),
{
    proof {
        reveal_strlit("```json");
        reveal_strlit("```");
        reveal_strlit("{");
    }
    let t = trim(response);
    let n = t.unicode_len();
    let m1 = find(t, "```json", 0);
    proof {
        lemma_first_occ_bounds(t@, "```json"@, 0);
        lemma_first_occ_bounds(t@, "```"@, 0);
        lemma_first_occ_bounds(t@, "{"@, 0);
    }
    if let Some(st) = m1 {
        if st < n && n - st > 7 {
            let j = fenced_block(t, st + 7);
            if accept(j) {
                return String::from_str(j);
            }
        }
    } else {
        if let Some(st) = find(t, "```", 0) {
            if n - st > 3 {
                let j = fenced_block(t, st + 3);
                if accept(j) {
                    return String::from_str(j);
                }
            }
        }
    }
    if let Some(a) = find(t, "{", 0) {
        let mut b: usize = n;
        while b > 0 && t.get_char(b - 1) != '}'
            invariant
                b <= n == t@.len(),
                last_char(t@, '}', n as int) == last_char(t@, '}', b as int),
            decreases b,
        {
            b -= 1;
        }
        if b > 0 && b - 1 > a {
            return String::from_str(t.substring_char(a, b));
        }
    }
    String::from_str(t)
}

/// The string members `title` and `body` of the JSON object a text holds,
/// as serde_json reads them; None where the text is no JSON object with two
/// such members.
pub uninterp spec fn json_title_body(s: Seq<char>) -> Option<(Seq<char>, Seq<char>)>;

/// Relies on serde_json's `from_str` into a `Value`, `Value::get` and
/// `Value::as_str`.
#[verifier::external_body]
fn read_title_body(s: &str) -> (r: Option<(String, String)>)
    ensures
        match r {
            Some((t, b)) => json_title_body(s@) == Some((t@, b@)),
            None => json_title_body(s@) is None,
        },
{
    let v: serde_json::Value = match serde_json::from_str(s) {
        Ok(v) => v,
        Err(_) => return None,
    };
    match (v.get("title"), v.get("body")) {
        (Some(t), Some(b)) => match (t.as_str(), b.as_str()) {
            (Some(t), Some(b)) => Some((t.to_string(), b.to_string())),
            _ => None,
        },
        _ => None,
    }
}

/// What follows the leftmost match of the regex `"field"\s*:\s*"` in a
/// text, as the regex crate finds it (the field name escaped as a literal).
pub uninterp spec fn field_value_tail(json: Seq<char>, field: Seq<char>) -> Option<Seq<char>>;

/// Relies on regex's `Regex::new`, `regex::escape` and `Regex::find`: the text
/// after the leftmost match.
#[verifier::external_body]
fn after_field_key(json: &str, field: &str) -> (r: Option<String>)
    ensures
        match r {
            Some(t) => field_value_tail(json@, field@) == Some(t@),
            None => field_value_tail(json@, field@) is None,
        },
{
    let pattern = format!(r#""{}"\s*:\s*""#, regex::escape(field));
    let re = match regex::Regex::new(&pattern) {
        Ok(re) => re,
        Err(_) => return None,
    };
    match re.find(json) {
        Some(m) => Some(json[m.end()..].to_string()),
        None => None,
    }
}

/// The characters of a string value up to its closing quote; a backslash
/// and the character after it are kept as they are.
pub open spec fn scan_value(s: Seq<char>, escaped: bool) -> Seq<char>
    decreases s.len(),
{
    if s.len() == 0 {
        s
    } else if escaped {
        seq![s[0]] + scan_value(s.drop_first(), false)
    } else if s[0] == '\\' {
        seq![s[0]] + scan_value(s.drop_first(), true)
    } else if s[0] == '"' {
        seq![]
    } else {
        seq![s[0]] + scan_value(s.drop_first(), false)
    }
}

/// Every leftmost, non-overlapping occurrence of `from` (not empty)
/// replaced by `to`, as std's `str::replace` does.
pub open spec fn replace_spec(s: Seq<char>, from: Seq<char>, to: Seq<char>) -> Seq<char>
    decreases s.len(),
{
    if s.len() == 0 || from.len() == 0 {
        s
    } else if from.len() <= s.len() && s.subrange(0, from.len() as int) == from {
        to + replace_spec(s.subrange(from.len() as int, s.len() as int), from, to)
    } else {
        seq![s[0]] + replace_spec(s.drop_first(), from, to)
    }
}

fn scan_string_value(s: &str) -> (r: String)
    ensures
        r@ == scan_value(s@, false),
{
    let n = s.unicode_len();
    let mut out = String::new();
    let mut escaped = false;
    let mut i: usize = 0;
    let mut done = false;
    assert(s@.subrange(0, n as int) =~= s@);
    assert(out@ + scan_value(s@, false) =~= scan_value(s@, false));
    while i < n && !done
        invariant
            i <= n == s@.len(),
            done ==> out@ == scan_value(s@, false),
            !done ==> out@ + scan_value(s@.subrange(i as int, n as int), escaped) == scan_value(
                s@,
                false,
            ),
        decreases n - i + if done { 0int } else { 1int },
    {
        let c = s.get_char(i);
        let ghost rest = s@.subrange(i as int, n as int);
        assert(rest.drop_first() =~= s@.subrange(i + 1, n as int));
        assert(rest[0] == c);
        let one = s.substring_char(i, i + 1);
        assert(one@ =~= seq![c]);
        let ghost before = out@;
        assert(before + seq![c] + scan_value(s@.subrange(i + 1, n as int), false) =~= before + (
        seq![c] + scan_value(s@.subrange(i + 1, n as int), false)));
        assert(before + seq![c] + scan_value(s@.subrange(i + 1, n as int), true) =~= before + (
        seq![c] + scan_value(s@.subrange(i + 1, n as int), true)));
        if escaped {
            out.append(one);
            escaped = false;
        } else if c == '\\' {
            out.append(one);
            escaped = true;
        } else if c == '"' {
            done = true;
        } else {
            out.append(one);
        }
        i += 1;
    }
    if !done {
        assert(s@.subrange(i as int, n as int) =~= Seq::<char>::empty());
        assert(out@ + seq![] =~= out@);
    }
    out
}

/// Every leftmost, non-overlapping occurrence of `from` in `s` replaced by
/// `to`.
pub fn replace_all(s: &str, from: &str, to: &str) -> (r: String)
    requires
        from@.len() > 0,
    ensures
        r@ == replace_spec(s@, from@, to@),
{
    let n = s.unicode_len();
    let m = from.unicode_len();
    let mut out = String::new();
    let mut i: usize = 0;
    assert(s@.subrange(0, n as int) =~= s@);
    assert(out@ + replace_spec(s@, from@, to@) =~= replace_spec(s@, from@, to@));
    while i < n
        invariant
            i <= n == s@.len(),
            m == from@.len() > 0,
            out@ + replace_spec(s@.subrange(i as int, n as int), from@, to@) == replace_spec(
                s@,
                from@,
                to@,
            ),
        decreases n - i,
    {
        let ghost rest = s@.subrange(i as int, n as int);
        let ghost before = out@;
        if crate::text::matches_at(s, from, i) {
            assert(rest.subrange(0, m as int) =~= s@.subrange(i as int, i + m));
            assert(rest.subrange(m as int, rest.len() as int) =~= s@.subrange(i + m, n as int));
            out.append(to);
            assert(before + (to@ + replace_spec(s@.subrange(i + m, n as int), from@, to@)) =~= out@
                + replace_spec(s@.subrange(i + m, n as int), from@, to@));
            i += m;
        } else {
            assert(rest.drop_first() =~= s@.subrange(i + 1, n as int));
            proof {
                if m <= rest.len() {
                    assert(rest.subrange(0, m as int) =~= s@.subrange(i as int, i + m));
                }
            }
            let one = s.substring_char(i, i + 1);
            assert(one@ =~= seq![rest[0]]);
            out.append(one);
            assert(before + (seq![rest[0]] + replace_spec(s@.subrange(i + 1, n as int), from@, to@))
                =~= out@ + replace_spec(s@.subrange(i + 1, n as int), from@, to@));
            i += 1;
        }
    }
    assert(s@.subrange(n as int, n as int) =~= Seq::<char>::empty());
    assert(out@ + Seq::<char>::empty() =~= out@);
    out
}

/// A scanned string value with its escapes resolved, in the order `\n`,
/// `\r`, `\t`, `\"`, `\\`.
pub open spec fn unescape_spec(v: Seq<char>) -> Seq<char> {
    replace_spec(
        replace_spec(
            replace_spec(
                replace_spec(replace_spec(v, "\\n"@, "\n"@), "\\r"@, "\r"@),
                "\\t"@,
                "\t"@,
            ),
            "\\\""@,
            "\""@,
        ),
        "\\\\"@,
        "\\"@,
    )
}

/// A string member read from text that may not be valid JSON.
pub open spec fn field_spec(json: Seq<char>, field: Seq<char>) -> Option<Seq<char>> {
    match field_value_tail(json, field) {
        Some(tail) => Some(unescape_spec(scan_value(tail, false))),
        None => None,
    }
}

/// The value of the string member `field` in possibly malformed JSON: the
/// text after `"field":` up to the closing quote, escapes resolved.
pub fn extract_json_field(json: &str, field: &str) -> (r: Option<String>)
    ensures
        match r {
            Some(v) => field_spec(json@, field@) == Some(v@),
            None => field_spec(json@, field@) is None,
        },
{
    match after_field_key(json, field) {
        Some(tail) => Some(read_string_value(tail.as_str())),
        None => None,
    }
}

/// A string value read from the text after its opening quote: up to the
/// closing quote, escapes resolved.
pub fn read_string_value(tail: &str) -> (r: String)
    ensures
        r@ == unescape_spec(scan_value(tail@, false)),
{
    proof {
        reveal_strlit("\\n");
        reveal_strlit("\\r");
        reveal_strlit("\\t");
        reveal_strlit("\\\"");
        reveal_strlit("\\\\");
    }
    let v = scan_string_value(tail);
    let v = replace_all(v.as_str(), "\\n", "\n");
    let v = replace_all(v.as_str(), "\\r", "\r");
    let v = replace_all(v.as_str(), "\\t", "\t");
    let v = replace_all(v.as_str(), "\\\"", "\"");
    let v = replace_all(v.as_str(), "\\\\", "\\");
    v
}

/// At most the first `k` characters.
pub open spec fn prefix(s: Seq<char>, k: int) -> Seq<char> {
    if s.len() <= k {
        s
    } else {
        s.subrange(0, k)
    }
}

fn first_chars(s: &str, k: usize) -> (r: &str)
    ensures
        r@ == prefix(s@, k as int),
{
    let n = s.unicode_len();
    if n <= k {
        s
    } else {
        s.substring_char(0, k)
    }
}

/// The title and body of a pull request from an AI answer: the JSON object
/// it holds when that reads as one with string members `title` and `body`;
/// else those members read leniently (a missing body is empty); else an
/// error with a preview.
pub fn parse_pr_content(response: &str) -> (r: Result<PrContent, GhrustError>)
    ensures
        ({
            let j = extract_json_spec(response@);
            if !accepted(j) {
                r is Err && r->Err_0 is GeminiApi && r->Err_0->GeminiApi_0@
                    == "AI response doesn't contain valid JSON. Got: "@ + prefix(response@, 100)
            } else {
                match json_title_body(j) {
                    Some((t, b)) => r is Ok && r->Ok_0.title@ == t && r->Ok_0.body@ == b,
                    None => match field_spec(j, "title"@) {
                        Some(t) => r is Ok && r->Ok_0.title@ == t && r->Ok_0.body@ == match field_spec(
                            j,
                            "body"@,
                        ) {
                            Some(b) => b,
                            None => Seq::<char>::empty(),
                        },
                        None => r is Err && r->Err_0 is GeminiApi && r->Err_0->GeminiApi_0@
                            == "Failed to parse AI response. Preview: "@ + prefix(j, 200) + "..."@,
                    },
                }
            }
        }),
{
    let json = extract_json_from_markdown(response);
    if !accept(json.as_str()) {
        return Err(
            GhrustError::GeminiApi(
                join2("AI response doesn't contain valid JSON. Got: ", first_chars(response, 100)),
            ),
        );
    }
    if let Some((title, body)) = read_title_body(json.as_str()) {
        return Ok(PrContent { title, body });
    }
    match extract_json_field(json.as_str(), "title") {
        Some(title) => {
            let body = match extract_json_field(json.as_str(), "body") {
                Some(b) => b,
                None => String::new(),
            };
            Ok(PrContent { title, body })
        },
        None => Err(
            GhrustError::GeminiApi(
                join3(
                    "Failed to parse AI response. Preview: ",
                    first_chars(json.as_str(), 200),
                    "...",
                ),
            ),
        ),
    }
}

/// The end of the line that starts at `i`: the next `\n`, or the end.
pub open spec fn line_end(s: Seq<char>, i: int) -> int
    decreases s.len() - i,
{
    if i < 0 || i >= s.len() || s[i] == '\n' {
        if i < 0 { 0 } else { i }
    } else {
        line_end(s, i + 1)
    }
}

/// The lines of `s` from position `i`, as std's `str::lines` gives them:
/// split at `\n`, a `\r` before the `\n` removed, no empty line after a
/// final `\n`.
pub open spec fn lines_from(s: Seq<char>, i: int) -> Seq<Seq<char>>
    decreases s.len() + 1 - i,
{
    if i < 0 || i >= s.len() {
        seq![]
    } else {
        let e = line_end(s, i);
        let raw = s.subrange(i, e);
        let l = if e < s.len() && raw.len() > 0 && raw.last() == '\r' {
            raw.drop_last()
        } else {
            raw
        };
        if i <= e && e <= s.len() {
            seq![l] + lines_from(s, e + 1)
        } else {
            seq![]
        }
    }
}

proof fn lemma_line_end(s: Seq<char>, i: int)
    requires
        0 <= i <= s.len(),
    ensures
        i <= line_end(s, i) <= s.len(),
        line_end(s, i) < s.len() ==> s[line_end(s, i)] == '\n',
    decreases s.len() - i,
{
    if i < s.len() && s[i] != '\n' {
        lemma_line_end(s, i + 1);
    }
}

/// The marker appended where a diff was cut.
pub const TRUNCATION_MARKER: &'static str = "\n... (diff truncated)";

/// Whole lines of `ls` appended to `res` (which counts `count`
/// characters) while they fit in `max`; the marker ends a cut.
pub open spec fn truncate_fold(ls: Seq<Seq<char>>, res: Seq<char>, count: int, max: int) -> Seq<
    char,
>
    decreases ls.len(),
{
    if ls.len() == 0 {
        res
    } else if count + ls[0].len() + 1 > max {
        res + TRUNCATION_MARKER@
    } else {
        let (r1, c1) = if res.len() > 0 {
            (res + seq!['\n'], count + 1)
        } else {
            (res, count)
        };
        truncate_fold(ls.drop_first(), r1 + ls[0], c1 + ls[0].len(), max)
    }
}

/// A diff kept whole when it fits in `max_chars` characters; else its
/// first whole lines that fit, followed by a truncation marker.
pub open spec fn truncate_diff_spec(diff: Seq<char>, max_chars: int) -> Seq<char> {
    if diff.len() <= max_chars {
        diff
    } else {
        truncate_fold(lines_from(diff, 0), seq![], 0, max_chars)
    }
}

/// A diff cut to whole lines within `max_chars` characters.
pub fn truncate_diff(diff: &str, max_chars: usize) -> (r: String)
    ensures
        r@ == truncate_diff_spec(diff@, max_chars as int),
{
    let n = diff.unicode_len();
    if n <= max_chars {
        return String::from_str(diff);
    }
    let mut result = String::new();
    let mut count: usize = 0;
    let mut i: usize = 0;
    proof {
        reveal_strlit("\n");
    }
    while i < n
        invariant
            i <= n == diff@.len(),
            count <= result@.len(),
            count <= max_chars,
            "\n"@ == seq!['\n'],
            truncate_diff_spec(diff@, max_chars as int) == truncate_fold(
                lines_from(diff@, i as int),
                result@,
                count as int,
                max_chars as int,
            ),
        decreases n - i,
    {
        let mut e = i;
        while e < n && diff.get_char(e) != '\n'
            invariant
                i <= e <= n == diff@.len(),
                line_end(diff@, i as int) == line_end(diff@, e as int),
            decreases n - e,
        {
            e += 1;
        }
        proof {
            lemma_line_end(diff@, i as int);
        }
        let mut le = e;
        if e < n && e > i && diff.get_char(e - 1) == '\r' {
            le = e - 1;
        }
        let line = diff.substring_char(i, le);
        let ghost raw = diff@.subrange(i as int, e as int);
        proof {
            if e < n && e > i && diff@[e - 1] == '\r' {
                assert(raw.drop_last() =~= line@);
            } else {
                assert(raw =~= line@);
            }
        }
        let len = le - i;
        let ghost ls = lines_from(diff@, i as int);
        assert(ls[0] == line@);
        assert(ls.drop_first() =~= lines_from(diff@, e + 1));
        if len >= max_chars || count > max_chars - len - 1 {
            result.append(TRUNCATION_MARKER);
            return result;
        }
        if result.unicode_len() > 0 {
            result.append("\n");
            count += 1;
        }
        result.append(line);
        count += len;
        if e < n {
            i = e + 1;
        } else {
            i = n;
        }
    }
    result
}

/// One file's part of a unified diff.
pub struct DiffSection {
    /// The path after the last ` b/` of the header line.
    pub file_path: String,
    /// The header and the lines that follow it, each ended by `\n`.
    pub content: String,
    /// Lines that start with `+` but not `+++`.
    pub additions: usize,
    /// Lines that start with `-` but not `---`.
    pub deletions: usize,
    /// The section reports a binary file.
    pub is_binary: bool,
}

/// A diff section with its texts as sequences.
pub struct SectionView {
    pub file_path: Seq<char>,
    pub content: Seq<char>,
    pub additions: usize,
    pub deletions: usize,
    pub is_binary: bool,
}

impl View for DiffSection {
    type V = SectionView;

    open spec fn view(&self) -> SectionView {
        SectionView {
            file_path: self.file_path@,
            content: self.content@,
            additions: self.additions,
            deletions: self.deletions,
            is_binary: self.is_binary,
        }
    }
}

/// The last position before `j` where `p` occurs.
pub open spec fn last_occ(s: Seq<char>, p: Seq<char>, j: int) -> Option<int>
    decreases j + 1,
{
    if j < 0 {
        None
    } else if occurs_at(s, p, j) {
        Some(j)
    } else {
        last_occ(s, p, j - 1)
    }
}

/// What follows the last ` b/` of a header line (the whole line if none).
pub open spec fn header_path(line: Seq<char>) -> Seq<char> {
    match last_occ(line, " b/"@, line.len() as int) {
        Some(k) => line.subrange(k + 3, line.len() as int),
        None => line,
    }
}

/// The parser's state after some lines.
pub struct ParseState {
    pub sections: Seq<SectionView>,
    pub path: Option<Seq<char>>,
    pub content: Seq<char>,
    pub additions: int,
    pub deletions: int,
    pub is_binary: bool,
}

pub open spec fn closed(st: ParseState) -> Seq<SectionView> {
    match st.path {
        Some(p) => st.sections.push(
            SectionView {
                file_path: p,
                content: st.content,
                additions: st.additions as usize,
                deletions: st.deletions as usize,
                is_binary: st.is_binary,
            },
        ),
        None => st.sections,
    }
}

/// The parser's step on one line.
pub open spec fn parse_step(st: ParseState, line: Seq<char>) -> ParseState {
    let s1 = if crate::text::is_prefix("diff --git "@, line) {
        ParseState {
            sections: closed(st),
            path: Some(header_path(line)),
            content: seq![],
            additions: 0,
            deletions: 0,
            is_binary: false,
        }
    } else {
        st
    };
    let s2 = if crate::text::is_prefix("Binary files"@, line) || crate::text::contains_seq(
        line,
        "GIT binary patch"@,
    ) {
        ParseState { is_binary: true, ..s1 }
    } else {
        s1
    };
    let s3 = if crate::text::is_prefix("+"@, line) && !crate::text::is_prefix("+++"@, line) {
        ParseState { additions: s2.additions + 1, ..s2 }
    } else if crate::text::is_prefix("-"@, line) && !crate::text::is_prefix("---"@, line) {
        ParseState { deletions: s2.deletions + 1, ..s2 }
    } else {
        s2
    };
    if s3.path is Some {
        ParseState { content: s3.content + line + seq!['\n'], ..s3 }
    } else {
        s3
    }
}

pub open spec fn parse_fold(st: ParseState, ls: Seq<Seq<char>>) -> ParseState
    decreases ls.len(),
{
    if ls.len() == 0 {
        st
    } else {
        parse_fold(parse_step(st, ls[0]), ls.drop_first())
    }
}

/// The sections of a unified diff, one per `diff --git` header.
pub open spec fn sections_spec(diff: Seq<char>) -> Seq<SectionView> {
    closed(
        parse_fold(
            ParseState {
                sections: seq![],
                path: None,
                content: seq![],
                additions: 0,
                deletions: 0,
                is_binary: false,
            },
            lines_from(diff, 0),
        ),
    )
}

fn header_path_of(line: &str) -> (r: String)
    ensures
        r@ == header_path(line@),
{
    proof {
        reveal_strlit(" b/");
    }
    let n = line.unicode_len();
    let mut j: usize = n;
    loop
        invariant
            j <= n == line@.len(),
            " b/"@.len() == 3,
            last_occ(line@, " b/"@, n as int) == last_occ(line@, " b/"@, j as int),
        decreases j,
    {
        if crate::text::matches_at(line, " b/", j) {
            return String::from_str(line.substring_char(j + 3, n));
        }
        if j == 0 {
            assert(last_occ(line@, " b/"@, -1) is None);
            return String::from_str(line);
        }
        j -= 1;
    }
}

/// The line of `diff` that starts at `i`, and where the next one starts.
fn next_line(diff: &str, i: usize) -> (r: (&str, usize))
    requires
        i < diff@.len(),
    ensures
        lines_from(diff@, i as int).len() > 0,
        r.0@ == lines_from(diff@, i as int)[0],
        lines_from(diff@, i as int).drop_first() == lines_from(diff@, r.1 as int),
        i < r.1 <= diff@.len(),
{
    let n = diff.unicode_len();
    let mut e = i;
    while e < n && diff.get_char(e) != '\n'
        invariant
            i <= e <= n == diff@.len(),
            line_end(diff@, i as int) == line_end(diff@, e as int),
        decreases n - e,
    {
        e += 1;
    }
    proof {
        lemma_line_end(diff@, i as int);
    }
    let mut le = e;
    if e < n && e > i && diff.get_char(e - 1) == '\r' {
        le = e - 1;
    }
    let line = diff.substring_char(i, le);
    let ghost raw = diff@.subrange(i as int, e as int);
    proof {
        if e < n && e > i && diff@[e - 1] == '\r' {
            assert(raw.drop_last() =~= line@);
        } else {
            assert(raw =~= line@);
        }
        assert(lines_from(diff@, i as int).drop_first() =~= lines_from(diff@, e + 1));
    }
    if e < n {
        (line, e + 1)
    } else {
        proof {
            assert(lines_from(diff@, e + 1) =~= lines_from(diff@, n as int));
        }
        (line, n)
    }
}

struct SectionParser {
    sections: Vec<DiffSection>,
    path: Option<String>,
    content: String,
    additions: usize,
    deletions: usize,
    is_binary: bool,
}

impl SectionParser {
    spec fn state(&self) -> ParseState {
        ParseState {
            sections: self.sections@.map_values(|d: DiffSection| d@),
            path: match self.path {
                Some(p) => Some(p@),
                None => None,
            },
            content: self.content@,
            additions: self.additions as int,
            deletions: self.deletions as int,
            is_binary: self.is_binary,
        }
    }

    fn close(&mut self)
        ensures
            final(self).sections@.map_values(|d: DiffSection| d@) == closed(old(self).state()),
            final(self).path is None,
    {
        let ghost before = self.state();
        let path = self.path.take();
        match path {
            Some(p) => {
                let mut content = String::new();
                std::mem::swap(&mut content, &mut self.content);
                self.sections.push(
                    DiffSection {
                        file_path: p,
                        content,
                        additions: self.additions,
                        deletions: self.deletions,
                        is_binary: self.is_binary,
                    },
                );
                assert(self.sections@.map_values(|d: DiffSection| d@) =~= closed(before));
            },
            None => {},
        }
    }

    fn step(&mut self, line: &str)
        requires
            old(self).additions < usize::MAX,
            old(self).deletions < usize::MAX,
        ensures
            final(self).state() == parse_step(old(self).state(), line@),
            final(self).additions <= old(self).additions + 1,
            final(self).deletions <= old(self).deletions + 1,
    {
        proof {
            reveal_strlit("\n");
        }
        let ghost st = self.state();
        if crate::text::starts_with(line, "diff --git ") {
            self.close();
            self.path = Some(header_path_of(line));
            self.content = String::new();
            self.additions = 0;
            self.deletions = 0;
            self.is_binary = false;
            assert(self.content@ =~= Seq::<char>::empty());
        }
        if crate::text::starts_with(line, "Binary files") || crate::text::contains(
            line,
            "GIT binary patch",
        ) {
            self.is_binary = true;
        }
        if crate::text::starts_with(line, "+") && !crate::text::starts_with(line, "+++") {
            self.additions = self.additions + 1;
        } else if crate::text::starts_with(line, "-") && !crate::text::starts_with(line, "---") {
            self.deletions = self.deletions + 1;
        }
        if self.path.is_some() {
            self.content.append(line);
            self.content.append("\n");
        }
        proof {
            let want = parse_step(st, line@);
            assert(self.state().sections == want.sections);
            assert(self.state().content =~= want.content);
            assert(self.state().path == want.path);
        }
    }
}

/// The sections of a unified diff, one per `diff --git` header.
pub fn parse_diff_sections(diff: &str) -> (r: Vec<DiffSection>)
    ensures
        r@.map_values(|d: DiffSection| d@) == sections_spec(diff@),
{
    let n = diff.unicode_len();
    let mut p = SectionParser {
        sections: Vec::new(),
        path: None,
        content: String::new(),
        additions: 0,
        deletions: 0,
        is_binary: false,
    };
    let mut i: usize = 0;
    proof {
        assert(p.sections@.map_values(|d: DiffSection| d@) =~= Seq::<SectionView>::empty());
        assert(p.content@ =~= Seq::<char>::empty());
    }
    while i < n
        invariant
            i <= n == diff@.len(),
            p.additions <= i,
            p.deletions <= i,
            sections_spec(diff@) == closed(parse_fold(p.state(), lines_from(diff@, i as int))),
        decreases n - i,
    {
        let (line, next) = next_line(diff, i);
        p.step(line);
        i = next;
    }
    p.close();
    p.sections
}

/// Opens the list of files that did not fit.
pub const SUMMARY_HEADER: &'static str = "\n--- FILES SUMMARIZED (diff too large) ---\n";

/// Room reserved for each file's summary line, in characters.
pub const CHARS_PER_SUMMARY: u64 = 60;

/// A summarized file's line.
pub open spec fn summary_line(sec: SectionView) -> Seq<char> {
    if sec.is_binary {
        sec.file_path + " (binary file)\n"@
    } else {
        sec.file_path + " (+"@ + decimal(sec.additions as nat) + "/-"@ + decimal(
            sec.deletions as nat,
        ) + " lines)\n"@
    }
}

/// Sections from `k` on: each kept whole when it fits in what is left of
/// `max` after the room reserved for the summaries of the files not yet
/// summarized; else summarized. Returns the kept text, the summary lines
/// and how many files were summarized.
pub open spec fn pack(
    secs: Seq<SectionView>,
    k: int,
    res: Seq<char>,
    tail: Seq<char>,
    count: int,
    max: int,
) -> (Seq<char>, Seq<char>, int)
    decreases secs.len() - k,
{
    if k < 0 || k >= secs.len() {
        (res, tail, count)
    } else {
        let est = SUMMARY_HEADER@.len() + (secs.len() - count) * CHARS_PER_SUMMARY;
        let avail = if max > res.len() + est {
            max - (res.len() + est)
        } else {
            0
        };
        if secs[k].content.len() <= avail {
            pack(secs, k + 1, res + secs[k].content, tail, count, max)
        } else {
            pack(secs, k + 1, res, tail + summary_line(secs[k]), count + 1, max)
        }
    }
}

/// A diff kept whole when it fits in `max_chars` characters; else the
/// files that fit, then a summary of the others; a diff without file
/// sections is cut by lines.
pub open spec fn smart_truncate_spec(diff: Seq<char>, max_chars: int) -> Seq<char> {
    if diff.len() <= max_chars {
        diff
    } else {
        let secs = sections_spec(diff);
        if secs.len() == 0 {
            truncate_diff_spec(diff, max_chars)
        } else {
            let (res, tail, count) = pack(secs, 0, seq![], seq![], 0, max_chars);
            if count > 0 {
                res + SUMMARY_HEADER@ + tail
            } else {
                res
            }
        }
    }
}

fn summary_of(sec: &DiffSection) -> (r: String)
    ensures
        r@ == summary_line(sec@),
{
    if sec.is_binary {
        join2(sec.file_path.as_str(), " (binary file)\n")
    } else {
        let mut r = join2(sec.file_path.as_str(), " (+");
        let a = decimal_string(sec.additions as u64);
        r.append(a.as_str());
        r.append("/-");
        let d = decimal_string(sec.deletions as u64);
        r.append(d.as_str());
        r.append(" lines)\n");
        r
    }
}

/// A diff fitted into `max_chars` characters for a prompt: whole files
/// while they fit, a summary line for each of the others.
pub fn smart_truncate_diff(diff: &str, max_chars: usize) -> (r: String)
    ensures
        r@ == smart_truncate_spec(diff@, max_chars as int),
{
    if diff.unicode_len() <= max_chars {
        return String::from_str(diff);
    }
    let sections = parse_diff_sections(diff);
    let ghost secs = sections@.map_values(|d: DiffSection| d@);
    if sections.len() == 0 {
        return truncate_diff(diff, max_chars);
    }
    proof {
        reveal_strlit("\n--- FILES SUMMARIZED (diff too large) ---\n");
    }
    let header_len = SUMMARY_HEADER.unicode_len();
    let mut result = String::new();
    let mut tail = String::new();
    let mut count: usize = 0;
    let mut k: usize = 0;
    while k < sections.len()
        invariant
            k <= sections@.len(),
            count <= k,
            header_len == SUMMARY_HEADER@.len(),
            secs == sections@.map_values(|d: DiffSection| d@),
            pack(secs, 0, seq![], seq![], 0, max_chars as int) == pack(
                secs,
                k as int,
                result@,
                tail@,
                count as int,
                max_chars as int,
            ),
        decreases sections@.len() - k,
    {
        let sec = &sections[k];
        let remaining = (sections.len() - count) as u128;
        assert(remaining * 60 <= 0xffff_ffff_ffff_ffffu128 * 60) by (nonlinear_arith)
            requires
                remaining <= 0xffff_ffff_ffff_ffffu128,
        ;
        let est = header_len as u128 + remaining * (CHARS_PER_SUMMARY as u128);
        let used = result.unicode_len() as u128 + est;
        let avail: u128 = if (max_chars as u128) > used {
            max_chars as u128 - used
        } else {
            0
        };
        assert(secs[k as int] == sec@);
        if sec.content.unicode_len() as u128 <= avail {
            result.append(sec.content.as_str());
        } else {
            let line = summary_of(sec);
            tail.append(line.as_str());
            count += 1;
        }
        k += 1;
    }
    if count > 0 {
        result.append(SUMMARY_HEADER);
        result.append(tail.as_str());
    }
    result
}

} // verus!
