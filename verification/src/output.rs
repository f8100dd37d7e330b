//! Output of the command line: the formats it can print in, and how lines of
//! human output are styled.
use vstd::prelude::*;
use crate::text::{
    replace_all, lemma_split_nonempty, split_at_char, ascii_lower, ascii_lower_chars, chars_contain_str, join_strings, join_with, seq_contains, str_chars,
    str_eq, string_from_chars, string_views, strip_front, trim_chars,
};

verus! {

/// The formats the command line prints in.
#[derive(Copy, Clone, Debug, PartialEq, Eq, Structural)]
pub enum OutputFormat {
    Human,
    Json,
    Csv,
}

/// The name a format is chosen by on the command line.
pub open spec fn format_name(f: OutputFormat) -> Seq<char> {
    match f {
        OutputFormat::Human => "human"@,
        OutputFormat::Json => "json"@,
        OutputFormat::Csv => "csv"@,
    }
}

/// `input` names format `f`: equal to its name, or equal ignoring ASCII case
/// when `ignore_case` holds.
pub open spec fn names_format(f: OutputFormat, input: Seq<char>, ignore_case: bool) -> bool {
    input == format_name(f) || (ignore_case && ascii_lower(input) == ascii_lower(format_name(f)))
}

/// The message for a name that is no format.
pub open spec fn invalid_variant_text(input: Seq<char>) -> Seq<char> {
    "invalid variant: "@ + input
}

fn chars_eq(a: &[char], b: &[char]) -> (r: bool)
    ensures
        r == (a@ == b@),
{
    if a.len() != b.len() {
        return false;
    }
    let mut i: usize = 0;
    while i < a.len()
        invariant
            a@.len() == b@.len(),
            i <= a@.len(),
            forall|k: int| 0 <= k < i ==> a@[k] == b@[k],
        decreases a@.len() - i,
    {
        if a[i] != b[i] {
            return false;
        }
        i += 1;
    }
    assert(a@ =~= b@);
    true
}

fn name_matches(name: &str, input: &str, ignore_case: bool) -> (r: bool)
    ensures
        r == (input@ == name@ || (ignore_case && ascii_lower(input@) == ascii_lower(name@))),
{
    if str_eq(input, name) {
        return true;
    }
    if !ignore_case {
        return false;
    }
    let a = ascii_lower_chars(input);
    let b = ascii_lower_chars(name);
    chars_eq(a.as_slice(), b.as_slice())
}

impl OutputFormat {
    /// The format named `input` (in the order human, json, csv), or
    /// `invalid variant: <input>`.
    pub fn from_str(input: &str, ignore_case: bool) -> (r: Result<OutputFormat, String>)
        ensures
            match r {
                Ok(f) => names_format(f, input@, ignore_case)
                    && (f != OutputFormat::Human ==> !names_format(OutputFormat::Human, input@, ignore_case))
                    && (f == OutputFormat::Csv ==> !names_format(OutputFormat::Json, input@, ignore_case)),
                Err(m) => m@ == invalid_variant_text(input@)
                    && !names_format(OutputFormat::Human, input@, ignore_case)
                    && !names_format(OutputFormat::Json, input@, ignore_case)
                    && !names_format(OutputFormat::Csv, input@, ignore_case),
            },
    {
        if name_matches("human", input, ignore_case) {
            Ok(OutputFormat::Human)
        } else if name_matches("json", input, ignore_case) {
            Ok(OutputFormat::Json)
        } else if name_matches("csv", input, ignore_case) {
            Ok(OutputFormat::Csv)
        } else {
            let mut m = String::from_str("invalid variant: ");
            m.append(input);
            Err(m)
        }
    }
}

/// How a line of human output is painted.
#[derive(Copy, Clone, Debug, PartialEq, Eq, Structural)]
pub enum LineStyle {
    Plain,
    GreenBold,
    RedBold,
    YellowBold,
    Cyan,
    CyanBold,
}

/// `s` begins with `p`.
pub open spec fn starts_with(s: Seq<char>, p: Seq<char>) -> bool {
    p.len() <= s.len() && s.subrange(0, p.len() as int) == p
}

fn chars_start_with(s: &[char], p: &str) -> (r: bool)
    ensures
        r == starts_with(s@, p@),
{
    let pv = str_chars(p);
    if pv.len() > s.len() {
        return false;
    }
    let mut i: usize = 0;
    while i < pv.len()
        invariant
            pv@ == p@,
            pv@.len() <= s@.len(),
            i <= pv@.len(),
            forall|k: int| 0 <= k < i ==> s@[k] == pv@[k],
        decreases pv@.len() - i,
    {
        if s[i] != pv[i] {
            assert(s@.subrange(0, pv@.len() as int)[i as int] != p@[i as int]);
            return false;
        }
        i += 1;
    }
    assert(s@.subrange(0, pv@.len() as int) =~= p@);
    true
}

/// The style of a non-blank line, judged on the line without its leading
/// white space (`trimmed`) and, for indentation, on the line itself.
pub open spec fn style_of(line: Seq<char>, trimmed: Seq<char>) -> LineStyle {
    if starts_with(trimmed, "SUCCESS:"@) || starts_with(trimmed, "  - SUCCESS:"@) {
        LineStyle::GreenBold
    } else if starts_with(trimmed, "ERROR:"@) || starts_with(trimmed, "  - ERROR:"@) || starts_with(trimmed, "Failed "@) {
        LineStyle::RedBold
    } else if starts_with(trimmed, "Warning:"@) || seq_contains(trimmed, "timed out"@) || seq_contains(trimmed, "retrying"@) {
        LineStyle::YellowBold
    } else if starts_with(trimmed, "[PASS]"@) || starts_with(trimmed, "    [PASS]"@) || starts_with(trimmed, "[OK]"@)
        || starts_with(trimmed, "    [OK]"@) || seq_contains(trimmed, " PASS "@) {
        LineStyle::GreenBold
    } else if starts_with(trimmed, "[FAIL]"@) || starts_with(trimmed, "    [FAIL]"@) || starts_with(trimmed, "DEGRADED"@)
        || seq_contains(trimmed, " FAIL "@) {
        LineStyle::RedBold
    } else if seq_contains(trimmed, ":"@) && !seq_contains(trimmed, "://"@) {
        LineStyle::Cyan
    } else if !starts_with(line, "  "@) && !seq_contains(trimmed, ":"@) {
        LineStyle::CyanBold
    } else if starts_with(trimmed, "(This is a read-only"@) || starts_with(trimmed, "Dry run:"@) || starts_with(trimmed, "RPC "@) {
        LineStyle::Cyan
    } else {
        LineStyle::Plain
    }
}

/// The style of a line of human output (for a line that is not blank).
pub fn line_style(line: &str) -> (r: LineStyle)
    ensures
        r == style_of(line@, strip_front(line@, false)),
{
    let v = str_chars(line);
    assert(v@.subrange(0, v@.len() as int) =~= v@);
    let t = trim_front_chars(v.as_slice());
    let t = t.as_slice();
    if chars_start_with(t, "SUCCESS:") || chars_start_with(t, "  - SUCCESS:") {
        LineStyle::GreenBold
    } else if chars_start_with(t, "ERROR:") || chars_start_with(t, "  - ERROR:") || chars_start_with(t, "Failed ") {
        LineStyle::RedBold
    } else if chars_start_with(t, "Warning:") || chars_contain_str(t, "timed out") || chars_contain_str(t, "retrying") {
        LineStyle::YellowBold
    } else if chars_start_with(t, "[PASS]") || chars_start_with(t, "    [PASS]") || chars_start_with(t, "[OK]")
        || chars_start_with(t, "    [OK]") || chars_contain_str(t, " PASS ") {
        LineStyle::GreenBold
    } else if chars_start_with(t, "[FAIL]") || chars_start_with(t, "    [FAIL]") || chars_start_with(t, "DEGRADED")
        || chars_contain_str(t, " FAIL ") {
        LineStyle::RedBold
    } else if chars_contain_str(t, ":") && !chars_contain_str(t, "://") {
        LineStyle::Cyan
    } else if !chars_start_with(v.as_slice(), "  ") && !chars_contain_str(t, ":") {
        LineStyle::CyanBold
    } else if chars_start_with(t, "(This is a read-only") || chars_start_with(t, "Dry run:") || chars_start_with(t, "RPC ") {
        LineStyle::Cyan
    } else {
        LineStyle::Plain
    }
}

fn trim_front_chars(v: &[char]) -> (r: Vec<char>)
    ensures
        r@ == strip_front(v@, false),
{
    let mut i: usize = 0;
    assert(v@.subrange(0, v@.len() as int) =~= v@);
    while i < v.len() && is_space(v[i])
        invariant
            i <= v@.len(),
            strip_front(v@, false) == strip_front(v@.subrange(i as int, v@.len() as int), false),
        decreases v@.len() - i,
    {
        proof {
            let t = v@.subrange(i as int, v@.len() as int);
            assert(t.drop_first() =~= v@.subrange(i + 1, v@.len() as int));
        }
        i += 1;
    }
    proof {
        let t = v@.subrange(i as int, v@.len() as int);
        assert(strip_front(t, false) == t);
    }
    let mut r: Vec<char> = Vec::new();
    let mut k: usize = i;
    while k < v.len()
        invariant
            i <= k <= v@.len(),
            r@ == v@.subrange(i as int, k as int),
        decreases v@.len() - k,
    {
        r.push(v[k]);
        k += 1;
        assert(r@ =~= v@.subrange(i as int, k as int));
    }
    r
}

fn is_space(c: char) -> (r: bool)
    ensures
        r == crate::text::trimmed_char(c, false),
{
    ('\u{9}' <= c && c <= '\u{d}') || c == ' ' || c == '\u{85}' || c == '\u{a0}'
        || c == '\u{1680}' || ('\u{2000}' <= c && c <= '\u{200a}') || c == '\u{2028}'
        || c == '\u{2029}' || c == '\u{202f}' || c == '\u{205f}' || c == '\u{3000}'
}


/// The ANSI escape sequence `ESC [ codes m`.
pub open spec fn ansi_escape(codes: Seq<char>) -> Seq<char> {
    seq!['\u{1b}', '['] + codes + seq!['m']
}

/// The reset sequence `ESC [ 0 m`.
pub open spec fn ansi_reset() -> Seq<char> {
    ansi_escape(seq!['0'])
}

/// What the colored crate writes for `text` styled with the escape `prefix`
/// when coloring is on: the prefix, the text with the prefix re-applied after
/// every reset sequence inside it, and a closing reset.
pub open spec fn painted(prefix: Seq<char>, text: Seq<char>) -> Seq<char> {
    prefix + replace_all(text, ansi_reset(), ansi_reset() + prefix) + ansi_reset()
}

/// The escape sequence that opens a line style (empty for plain lines).
pub open spec fn style_prefix(s: LineStyle) -> Seq<char> {
    match s {
        LineStyle::Plain => Seq::empty(),
        LineStyle::GreenBold => ansi_escape(seq!['1', ';', '3', '2']),
        LineStyle::RedBold => ansi_escape(seq!['1', ';', '3', '1']),
        LineStyle::YellowBold => ansi_escape(seq!['1', ';', '3', '3']),
        LineStyle::Cyan => ansi_escape(seq!['3', '6']),
        LineStyle::CyanBold => ansi_escape(seq!['1', ';', '3', '6']),
    }
}

/// A line painted in a style, as colored writes it with coloring on; a plain
/// line is written as it is.
pub open spec fn styled_form(s: LineStyle, line: Seq<char>) -> Seq<char> {
    if s == LineStyle::Plain {
        line
    } else {
        painted(style_prefix(s), line)
    }
}

/// Paints `text` green and bold with the colored crate (`text.green().bold()`,
/// then `to_string`). colored's `Display` writes the text unchanged when its
/// global coloring switch (set from the environment and `--no-color`) is off,
/// and otherwise `ESC[1;32m`, the text with that prefix repeated after each
/// inner reset, and `ESC[0m`. Which of the two is not stated: it is the switch's.
#[verifier::external_body]
fn paint_green_bold(text: &str) -> (r: String)
    ensures
        r@ == text@ || r@ == painted(style_prefix(LineStyle::GreenBold), text@),
{
    colored::Colorize::bold(colored::Colorize::green(text)).to_string()
}

/// Paints `text` red and bold with the colored crate (`text.red().bold()`):
/// the text unchanged, or painted with `ESC[1;31m`, as colored's switch says.
#[verifier::external_body]
fn paint_red_bold(text: &str) -> (r: String)
    ensures
        r@ == text@ || r@ == painted(style_prefix(LineStyle::RedBold), text@),
{
    colored::Colorize::bold(colored::Colorize::red(text)).to_string()
}

/// Paints `text` yellow and bold with the colored crate
/// (`text.yellow().bold()`): the text unchanged, or painted with `ESC[1;33m`,
/// as colored's switch says.
#[verifier::external_body]
fn paint_yellow_bold(text: &str) -> (r: String)
    ensures
        r@ == text@ || r@ == painted(style_prefix(LineStyle::YellowBold), text@),
{
    colored::Colorize::bold(colored::Colorize::yellow(text)).to_string()
}

/// Paints `text` cyan with the colored crate (`text.cyan()`): the text
/// unchanged, or painted with `ESC[36m`, as colored's switch says.
#[verifier::external_body]
fn paint_cyan(text: &str) -> (r: String)
    ensures
        r@ == text@ || r@ == painted(style_prefix(LineStyle::Cyan), text@),
{
    colored::Colorize::cyan(text).to_string()
}

/// Paints `text` cyan and bold with the colored crate (`text.cyan().bold()`):
/// the text unchanged, or painted with `ESC[1;36m`, as colored's switch says.
#[verifier::external_body]
fn paint_cyan_bold(text: &str) -> (r: String)
    ensures
        r@ == text@ || r@ == painted(style_prefix(LineStyle::CyanBold), text@),
{
    colored::Colorize::bold(colored::Colorize::cyan(text)).to_string()
}

/// What may be shown for `line`: unchanged when colors are off; empty when it
/// is blank; else the line itself or the line painted in its style (which of
/// the two is colored's global switch).
pub open spec fn shown_line(line: Seq<char>, color: bool, out: Seq<char>) -> bool {
    if !color {
        out == line
    } else if strip_front(line, false).len() == 0 {
        out.len() == 0
    } else {
        out == line || out == styled_form(style_of(line, strip_front(line, false)), line)
    }
}

/// A line of human output as shown: unchanged when colors are off; empty when
/// it is blank; else painted in its style (a plain line is unchanged).
pub fn stylize_line(line: &str, color: bool) -> (r: String)
    ensures
        shown_line(line@, color, r@),
        !color ==> r@ == line@,
        color && strip_front(line@, false).len() == 0 ==> r@.len() == 0,
        color && strip_front(line@, false).len() > 0 ==> (r@ == line@
            || r@ == styled_form(style_of(line@, strip_front(line@, false)), line@)),
{
    if !color {
        return String::from_str(line);
    }
    let v = str_chars(line);
    let t = trim_front_chars(v.as_slice());
    if t.len() == 0 {
        return String::new();
    }
    match line_style(line) {
        LineStyle::GreenBold => paint_green_bold(line),
        LineStyle::RedBold => paint_red_bold(line),
        LineStyle::YellowBold => paint_yellow_bold(line),
        LineStyle::Cyan => paint_cyan(line),
        LineStyle::CyanBold => paint_cyan_bold(line),
        LineStyle::Plain => String::from_str(line),
    }
}

/// `l` without one trailing carriage return.
pub open spec fn without_cr(l: Seq<char>) -> Seq<char> {
    if l.len() > 0 && l.last() == '\r' { l.drop_last() } else { l }
}

/// The lines of `s` as std's `str::lines` gives them: split at `\n`; a line
/// ended by `\n` loses one trailing `\r` (a `\r\n` ending); the last piece,
/// which no `\n` ends, is kept as it is unless it is empty.
pub open spec fn lines_of(s: Seq<char>) -> Seq<Seq<char>> {
    let pieces = split_at_char(s, '\n');
    let ended = pieces.drop_last().map_values(|l: Seq<char>| without_cr(l));
    if pieces.last().len() == 0 { ended } else { ended.push(pieces.last()) }
}

/// The lines of `text` (std's `str::lines`).
pub fn text_lines(text: &str) -> (r: Vec<String>)
    ensures
        string_views(r@) == lines_of(text@),
{
    let v = str_chars(text);
    let mut pieces: Vec<Vec<char>> = Vec::new();
    let mut cur: Vec<char> = Vec::new();
    let mut i: usize = 0;
    while i < v.len()
        invariant
            v@ == text@,
            i <= v@.len(),
            pieces@.map_values(|p: Vec<char>| p@).push(cur@) == split_at_char(v@.subrange(0, i as int), '\n'),
        decreases v@.len() - i,
    {
        let ghost before = pieces@.map_values(|p: Vec<char>| p@).push(cur@);
        assert(v@.subrange(0, i + 1).drop_last() =~= v@.subrange(0, i as int));
        proof {
            lemma_split_nonempty(v@.subrange(0, i as int), '\n');
        }
        if v[i] == '\n' {
            let finished = cur;
            pieces.push(finished);
            cur = Vec::new();
            assert(pieces@.map_values(|p: Vec<char>| p@).push(cur@) =~= before.push(Seq::empty()));
        } else {
            cur.push(v[i]);
            assert(pieces@.map_values(|p: Vec<char>| p@).push(cur@) =~= before.update(before.len() - 1, before.last().push(v@[i as int])));
        }
        i += 1;
    }
    assert(v@.subrange(0, v@.len() as int) =~= v@);
    let ghost all = split_at_char(text@, '\n');
    let ghost ended = pieces@.map_values(|p: Vec<char>| p@);
    assert(all.drop_last() =~= ended);
    assert(all.last() == cur@);
    let mut out: Vec<String> = Vec::new();
    let mut k: usize = 0;
    while k < pieces.len()
        invariant
            k <= pieces@.len(),
            pieces@.map_values(|p: Vec<char>| p@) == ended,
            string_views(out@) == ended.subrange(0, k as int).map_values(|l: Seq<char>| without_cr(l)),
        decreases pieces@.len() - k,
    {
        let p = &pieces[k];
        let n = p.len();
        let end: usize = if n > 0 && p[n - 1] == '\r' { n - 1 } else { n };
        let line = string_from_chars(p.as_slice(), 0, end);
        assert(line@ =~= without_cr(ended[k as int]));
        let ghost before = out@;
        let ghost lv = line@;
        out.push(line);
        assert(string_views(out@) =~= string_views(before).push(lv));
        k += 1;
        assert(ended.subrange(0, k as int).map_values(|l: Seq<char>| without_cr(l))
            =~= ended.subrange(0, k - 1).map_values(|l: Seq<char>| without_cr(l)).push(without_cr(ended[k - 1])));
        assert(string_views(out@) =~= ended.subrange(0, k as int).map_values(|l: Seq<char>| without_cr(l)));
    }
    assert(ended.subrange(0, k as int) =~= ended);
    if cur.len() > 0 {
        let n = cur.len();
        let last = string_from_chars(cur.as_slice(), 0, n);
        assert(cur@.subrange(0, n as int) =~= cur@);
        let ghost before = out@;
        let ghost lv = last@;
        out.push(last);
        assert(string_views(out@) =~= string_views(before).push(lv));
    }
    out
}

/// Human output as shown: each line of `text` (std's `str::lines`) shown as
/// `stylize_line` shows it, joined with `\n`. With colors off it is the lines
/// of `text` joined with `\n`.
pub fn stylize_block(text: &str, color: bool) -> (r: String)
    ensures
        !color ==> r@ == join_with(lines_of(text@), "\n"@),
        exists|shown: Seq<Seq<char>>| {
            &&& shown.len() == lines_of(text@).len()
            &&& (forall|i: int| 0 <= i < shown.len() ==> shown_line(lines_of(text@)[i], color, #[trigger] shown[i]))
            &&& r@ == join_with(shown, "\n"@)
        },
{
    let lines = text_lines(text);
    let mut styled: Vec<String> = Vec::new();
    let mut i: usize = 0;
    while i < lines.len()
        invariant
            i <= lines@.len(),
            string_views(lines@) == lines_of(text@),
            styled@.len() == i,
            forall|j: int| 0 <= j < i ==> shown_line(lines_of(text@)[j], color, #[trigger] string_views(styled@)[j]),
            !color ==> string_views(styled@) == string_views(lines@).subrange(0, i as int),
        decreases lines@.len() - i,
    {
        let s = stylize_line(lines[i].as_str(), color);
        let ghost before = styled@;
        let ghost sv = s@;
        assert(lines@[i as int]@ == lines_of(text@)[i as int]);
        styled.push(s);
        assert(string_views(styled@) =~= string_views(before).push(sv));
        i += 1;
        proof {
            if !color {
                assert(string_views(styled@) =~= string_views(lines@).subrange(0, i as int));
            }
        }
    }
    proof {
        if !color {
            assert(string_views(lines@).subrange(0, i as int) =~= string_views(lines@));
        }
    }
    let r = join_strings(styled.as_slice(), "\n");
    assert(string_views(styled@).len() == lines_of(text@).len());
    r
}

/// A parameter character of an escape sequence: a digit or `;`.
pub open spec fn is_param_char(c: char) -> bool {
    ('0' <= c && c <= '9') || c == ';'
}

/// Where the parameters of an escape sequence that started before `i` end:
/// one past the closing `m`, or 0 when no `m` closes them.
pub open spec fn params_end(s: Seq<char>, i: int) -> int
    decreases s.len() - i,
{
    if i < 0 || i >= s.len() {
        0
    } else if s[i] == 'm' {
        i + 1
    } else if is_param_char(s[i]) {
        params_end(s, i + 1)
    } else {
        0
    }
}

/// The length of the escape sequence `ESC [ params m` at the front of `s`
/// (0 when `s` does not start with one).
pub open spec fn escape_len(s: Seq<char>) -> int {
    if s.len() >= 2 && s[0] == '\u{1b}' && s[1] == '[' { params_end(s, 2) } else { 0 }
}

/// The text of `s` as a terminal shows it: `s` without its escape sequences.
pub open spec fn visible_text(s: Seq<char>) -> Seq<char>
    decreases s.len(),
{
    if s.len() == 0 {
        Seq::empty()
    } else if 0 < escape_len(s) <= s.len() {
        visible_text(s.subrange(escape_len(s), s.len() as int))
    } else {
        seq![s[0]] + visible_text(s.drop_first())
    }
}

/// `s` holds no escape character.
pub open spec fn no_escape(s: Seq<char>) -> bool {
    forall|i: int| 0 <= i < s.len() ==> s[i] != '\u{1b}'
}

proof fn lemma_params_end(codes: Seq<char>, rest: Seq<char>, i: int)
    requires
        forall|k: int| 0 <= k < codes.len() ==> is_param_char(#[trigger] codes[k]),
        2 <= i <= codes.len() + 2,
    ensures
        params_end(ansi_escape(codes) + rest, i) == codes.len() + 3,
    decreases codes.len() + 2 - i,
{
    let s = ansi_escape(codes) + rest;
    if i < codes.len() + 2 {
        assert(s[i] == codes[i - 2]);
        assert(is_param_char(codes[i - 2]));
        lemma_params_end(codes, rest, i + 1);
    } else {
        assert(s[i] == 'm');
    }
}

proof fn lemma_visible_after_escape(codes: Seq<char>, rest: Seq<char>)
    requires
        forall|k: int| 0 <= k < codes.len() ==> is_param_char(#[trigger] codes[k]),
    ensures
        visible_text(ansi_escape(codes) + rest) == visible_text(rest),
{
    let s = ansi_escape(codes) + rest;
    lemma_params_end(codes, rest, 2);
    assert(s[0] == '\u{1b}' && s[1] == '[');
    assert(escape_len(s) == codes.len() + 3);
    assert(s.subrange(codes.len() + 3 as int, s.len() as int) =~= rest);
}

proof fn lemma_visible_plain_prefix(t: Seq<char>, tail: Seq<char>)
    requires
        no_escape(t),
    ensures
        visible_text(t + tail) == t + visible_text(tail),
    decreases t.len(),
{
    if t.len() > 0 {
        let s = t + tail;
        assert(s[0] == t[0]);
        assert(s[0] != '\u{1b}');
        assert(escape_len(s) == 0);
        assert(s.drop_first() =~= t.drop_first() + tail);
        lemma_visible_plain_prefix(t.drop_first(), tail);
        assert(t =~= seq![t[0]] + t.drop_first());
        assert(seq![t[0]] + (t.drop_first() + visible_text(tail)) =~= t + visible_text(tail));
    } else {
        assert(t + tail =~= tail);
        assert(t + visible_text(tail) =~= visible_text(tail));
    }
}

proof fn lemma_replace_without_escape(t: Seq<char>, rep: Seq<char>)
    requires
        no_escape(t),
    ensures
        replace_all(t, ansi_reset(), rep) == t,
    decreases t.len(),
{
    if t.len() >= ansi_reset().len() {
        assert(t.subrange(0, ansi_reset().len() as int)[0] == t[0]);
        assert(ansi_reset()[0] == '\u{1b}');
        assert(t.subrange(0, ansi_reset().len() as int) != ansi_reset());
        lemma_replace_without_escape(t.drop_first(), rep);
        assert(t =~= seq![t[0]] + t.drop_first());
    }
}

/// A styled line keeps its visible text: painting a line that holds no
/// escape character only wraps it in escape sequences.
pub proof fn lemma_styled_keeps_visible_text(s: LineStyle, line: Seq<char>)
    requires
        no_escape(line),
    ensures
        visible_text(styled_form(s, line)) == line,
{
    lemma_visible_plain_prefix(line, Seq::empty());
    assert(line + Seq::<char>::empty() =~= line);
    if s != LineStyle::Plain {
        let codes: Seq<char> = match s {
            LineStyle::GreenBold => seq!['1', ';', '3', '2'],
            LineStyle::RedBold => seq!['1', ';', '3', '1'],
            LineStyle::YellowBold => seq!['1', ';', '3', '3'],
            LineStyle::Cyan => seq!['3', '6'],
            _ => seq!['1', ';', '3', '6'],
        };
        assert(style_prefix(s) == ansi_escape(codes));
        assert forall|k: int| 0 <= k < codes.len() implies is_param_char(#[trigger] codes[k]) by {}
        lemma_replace_without_escape(line, ansi_reset() + style_prefix(s));
        let p = painted(style_prefix(s), line);
        assert(p =~= ansi_escape(codes) + (line + ansi_reset()));
        lemma_visible_after_escape(codes, line + ansi_reset());
        lemma_visible_plain_prefix(line, ansi_reset());
        assert forall|k: int| 0 <= k < seq!['0'].len() implies is_param_char(#[trigger] seq!['0'][k]) by {}
        lemma_visible_after_escape(seq!['0'], Seq::empty());
        assert(ansi_escape(seq!['0']) + Seq::<char>::empty() =~= ansi_reset());
        assert(visible_text(Seq::<char>::empty()) == Seq::<char>::empty());
    }
}

/// What a terminal shows of any output `stylize_line` may give for a line
/// without escape characters: nothing for a blank line, else the line itself.
pub proof fn lemma_shown_line_keeps_visible_text(line: Seq<char>, color: bool, out: Seq<char>)
    requires
        no_escape(line),
        shown_line(line, color, out),
    ensures
        visible_text(out) == (if color && strip_front(line, false).len() == 0 { Seq::empty() } else { line }),
{
    lemma_visible_plain_prefix(line, Seq::empty());
    assert(line + Seq::<char>::empty() =~= line);
    if color && strip_front(line, false).len() > 0 {
        lemma_styled_keeps_visible_text(style_of(line, strip_front(line, false)), line);
    }
    if color && strip_front(line, false).len() == 0 {
        assert(out =~= Seq::<char>::empty());
    }
}

/// Whether output is colored: not when `--no-color` is given, nor when the
/// `NO_COLOR` environment variable is set.
pub fn color_choice(no_color: bool, no_color_env_set: bool) -> (r: bool)
    ensures
        r == (!no_color && !no_color_env_set),
{
    !no_color && !no_color_env_set
}

/// Whether a spinner or progress bar is shown: only for human output, with
/// colors on, when standard error is a terminal.
pub fn should_show_progress(format: OutputFormat, color_enabled: bool, stderr_is_terminal: bool) -> (r: bool)
    ensures
        r == (format == OutputFormat::Human && color_enabled && stderr_is_terminal),
{
    format == OutputFormat::Human && color_enabled && stderr_is_terminal
}

/// A JSON object printed as CSV: a header line of its keys and a line of its
/// values, each joined with `,` and ended by `\n`.
pub fn csv_text(keys: &[String], values: &[String]) -> (r: String)
    ensures
        r@ == join_with(string_views(keys@), ","@) + "\n"@ + join_with(string_views(values@), ","@) + "\n"@,
{
    let mut r = join_strings(keys, ",");
    r.append("\n");
    let v = join_strings(values, ",");
    r.append(v.as_str());
    r.append("\n");
    r
}

} // verus!
