use vstd::prelude::*;

verus! {

/// Relies on String::push: appends the given character to the end of the string.
#[verifier::external_body]
pub(crate) fn push_char(s: &mut String, c: char)
    ensures
        final(s)@ == old(s)@.push(c),
{
    s.push(c);
}

/// Character-wise string equality.
pub fn str_eq(a: &str, b: &str) -> (r: bool)
    ensures
        r == (a@ == b@),
{
    let alen = a.unicode_len();
    let blen = b.unicode_len();
    if alen != blen {
        return false;
    }
    let mut i: usize = 0;
    while i < alen
        invariant
            alen == a@.len(),
            blen == b@.len(),
            alen == blen,
            0 <= i <= alen,
            forall|j: int| 0 <= j < i ==> a@[j] == b@[j],
        decreases alen - i,
    {
        if a.get_char(i) != b.get_char(i) {
            return false;
        }
        i += 1;
    }
    proof {
        assert(a@ =~= b@);
    }
    true
}

/// The decimal digit character for `d`.
pub open spec fn spec_digit(d: int) -> char {
    if d == 0 {
        '0'
    } else if d == 1 {
        '1'
    } else if d == 2 {
        '2'
    } else if d == 3 {
        '3'
    } else if d == 4 {
        '4'
    } else if d == 5 {
        '5'
    } else if d == 6 {
        '6'
    } else if d == 7 {
        '7'
    } else if d == 8 {
        '8'
    } else {
        '9'
    }
}

/// The decimal representation of `n`, most significant digit first, with no
/// leading zeros (and exactly "0" for zero).
pub open spec fn spec_u32_string(n: nat) -> Seq<char>
    decreases n,
{
    if n < 10 {
        seq![spec_digit(n as int)]
    } else {
        spec_u32_string(n / 10).push(spec_digit((n % 10) as int))
    }
}

fn digit_str(d: u32) -> (r: &'static str)
    requires
        d < 10,
    ensures
        r@ == seq![spec_digit(d as int)],
{
    proof {
        reveal_strlit("0");
        reveal_strlit("1");
        reveal_strlit("2");
        reveal_strlit("3");
        reveal_strlit("4");
        reveal_strlit("5");
        reveal_strlit("6");
        reveal_strlit("7");
        reveal_strlit("8");
        reveal_strlit("9");
    }
    let r = match d {
        0 => "0",
        1 => "1",
        2 => "2",
        3 => "3",
        4 => "4",
        5 => "5",
        6 => "6",
        7 => "7",
        8 => "8",
        _ => "9",
    };
    proof {
        assert(r@ =~= seq![spec_digit(d as int)]);
    }
    r
}

/// Renders `n` in decimal.
pub fn u32_to_string(n: u32) -> (r: String)
    ensures
        r@ == spec_u32_string(n as nat),
    decreases n,
{
    if n < 10 {
        digit_str(n).to_owned()
    } else {
        let mut s = u32_to_string(n / 10);
        s.append(digit_str(n % 10));
        proof {
            assert(s@ =~= spec_u32_string(n as nat));
        }
        s
    }
}

/// Whether `c` is an ASCII letter; an ANSI escape sequence ends at the first
/// such character after its introducer.
pub open spec fn is_ascii_letter(c: char) -> bool {
    ('a' <= c && c <= 'z') || ('A' <= c && c <= 'Z')
}

/// The text of `s` from position `i` on with ANSI escape sequences removed.
/// `in_escape` says whether position `i` is inside an escape sequence (after
/// its `ESC [` introducer and before its terminating letter).
pub open spec fn spec_strip_ansi_from(s: Seq<char>, i: int, in_escape: bool) -> Seq<char>
    decreases s.len() - i,
{
    if i < 0 || i >= s.len() {
        Seq::empty()
    } else if in_escape {
        if is_ascii_letter(s[i]) {
            spec_strip_ansi_from(s, i + 1, false)
        } else {
            spec_strip_ansi_from(s, i + 1, true)
        }
    } else if s[i] == '\u{1b}' && i + 1 < s.len() && s[i + 1] == '[' {
        spec_strip_ansi_from(s, i + 2, true)
    } else {
        seq![s[i]] + spec_strip_ansi_from(s, i + 1, false)
    }
}

/// The text of `s` with ANSI escape sequences removed.
pub open spec fn spec_strip_ansi(s: Seq<char>) -> Seq<char> {
    spec_strip_ansi_from(s, 0, false)
}

fn is_letter_exec(c: char) -> (r: bool)
    ensures
        r == is_ascii_letter(c),
{
    ('a' <= c && c <= 'z') || ('A' <= c && c <= 'Z')
}

/// Strips ANSI escape sequences (an `ESC [` introducer up to and including
/// the first ASCII letter after it) out of `input`, keeping all other text.
pub fn remove_ansii_escape_codes(input: &str) -> (r: String)
    ensures
        r@ == spec_strip_ansi(input@),
{
    let len = input.unicode_len();
    let mut out = String::new();
    let mut i: usize = 0;
    let mut in_escape = false;
    while i < len
        invariant
            len == input@.len(),
            0 <= i <= len,
            spec_strip_ansi(input@) == out@ + spec_strip_ansi_from(input@, i as int, in_escape),
        decreases len - i,
    {
        let c = input.get_char(i);
        if in_escape {
            if is_letter_exec(c) {
                in_escape = false;
            }
            i += 1;
        } else if c == '\u{1b}' && i + 1 < len && input.get_char(i + 1) == '[' {
            in_escape = true;
            i += 2;
        } else {
            push_char(&mut out, c);
            proof {
                assert(out@ + spec_strip_ansi_from(input@, i + 1, false) =~= (out@.drop_last()
                    + (seq![input@[i as int]] + spec_strip_ansi_from(input@, i + 1, false))));
            }
            i += 1;
        }
    }
    proof {
        assert(out@ + spec_strip_ansi_from(input@, i as int, in_escape) =~= out@);
    }
    out
}

/// The segments of `s` between occurrences of `sep`, in order; a string
/// without the separator is one segment, and every separator opens a new
/// one.
pub open spec fn spec_split(s: Seq<char>, sep: char) -> Seq<Seq<char>>
    decreases s.len(),
{
    if s.len() == 0 {
        seq![Seq::<char>::empty()]
    } else {
        let rest = spec_split(s.drop_first(), sep);
        if s[0] == sep {
            seq![Seq::<char>::empty()] + rest
        } else {
            seq![seq![s[0]] + rest[0]] + rest.drop_first()
        }
    }
}

/// Splitting yields at least one segment.
pub proof fn lemma_split_len(s: Seq<char>, sep: char)
    ensures
        spec_split(s, sep).len() >= 1,
    decreases s.len(),
{
    if s.len() == 0 {
    } else {
        lemma_split_len(s.drop_first(), sep);
    }
}

/// `segs` with its first segment prefixed by `p`.
pub open spec fn spec_prepend_first(p: Seq<char>, segs: Seq<Seq<char>>) -> Seq<Seq<char>> {
    seq![p + segs[0]] + segs.drop_first()
}

/// The views of a sequence of strings.
pub open spec fn spec_views_of(v: Seq<String>) -> Seq<Seq<char>> {
    v.map_values(|x: String| x@)
}

/// Splits `input` on `sep`.
#[verifier::loop_isolation(false)]
pub fn split_on(input: &str, sep: char) -> (r: Vec<String>)
    ensures
        r@.len() == spec_split(input@, sep).len(),
        forall|i: int| 0 <= i < r@.len() ==> (#[trigger] r@[i])@ == spec_split(input@, sep)[i],
{
    let len = input.unicode_len();
    let mut parts: Vec<String> = Vec::new();
    let mut cur = String::new();
    let mut i: usize = 0;
    proof {
        assert(input@.skip(0) =~= input@);
        assert(spec_prepend_first(cur@, spec_split(input@, sep)) =~= spec_split(input@, sep)) by {
            lemma_split_len(input@, sep);
            assert(seq![Seq::<char>::empty() + spec_split(input@, sep)[0]] + spec_split(
                input@,
                sep,
            ).drop_first() =~= spec_split(input@, sep)) by {
                assert(Seq::<char>::empty() + spec_split(input@, sep)[0] =~= spec_split(
                    input@,
                    sep,
                )[0]);
            }
        }
    }
    while i < len
        invariant
            0 <= i <= len,
            len == input@.len(),
            spec_split(input@, sep) == spec_views_of(parts@) + spec_prepend_first(
                cur@,
                spec_split(input@.skip(i as int), sep),
            ),
        decreases len - i,
    {
        let ghost pre_parts = parts@;
        let ghost pre_cur = cur@;
        let ghost rest = input@.skip(i as int);
        proof {
            assert(rest[0] == input@[i as int]);
            assert(rest.drop_first() =~= input@.skip(i + 1));
            lemma_split_len(input@.skip(i + 1), sep);
        }
        let c = input.get_char(i);
        if c == sep {
            parts.push(cur);
            cur = String::new();
            proof {
                let ghost segs = spec_split(input@.skip(i + 1), sep);
                assert(spec_split(rest, sep) == seq![Seq::<char>::empty()] + segs);
                assert(spec_prepend_first(pre_cur, spec_split(rest, sep)) =~= seq![pre_cur] + segs);
                assert(spec_views_of(parts@) =~= spec_views_of(pre_parts) + seq![pre_cur]);
                assert(spec_prepend_first(cur@, segs) =~= segs) by {
                    assert(Seq::<char>::empty() + segs[0] =~= segs[0]);
                    assert(seq![segs[0]] + segs.drop_first() =~= segs);
                }
                assert((spec_views_of(pre_parts) + seq![pre_cur]) + segs =~= spec_views_of(
                    pre_parts,
                ) + (seq![pre_cur] + segs));
            }
        } else {
            push_char(&mut cur, c);
            proof {
                let ghost segs = spec_split(input@.skip(i + 1), sep);
                assert(spec_split(rest, sep) == seq![seq![rest[0]] + segs[0]] + segs.drop_first());
                assert(spec_prepend_first(pre_cur, spec_split(rest, sep)) =~= seq![
                    pre_cur + (seq![rest[0]] + segs[0]),
                ] + segs.drop_first());
                assert(cur@ + segs[0] =~= pre_cur + (seq![rest[0]] + segs[0]));
                assert(spec_prepend_first(cur@, segs) =~= seq![pre_cur + (seq![rest[0]] + segs[0])]
                    + segs.drop_first());
            }
        }
        i += 1;
    }
    proof {
        assert(input@.skip(len as int) =~= Seq::<char>::empty());
        assert(spec_split(Seq::<char>::empty(), sep) == seq![Seq::<char>::empty()]);
        assert(spec_prepend_first(cur@, seq![Seq::<char>::empty()]) =~= seq![cur@]) by {
            assert(cur@ + Seq::<char>::empty() =~= cur@);
            assert(seq![Seq::<char>::empty()].drop_first() =~= Seq::<Seq<char>>::empty());
            assert(seq![cur@] + Seq::<Seq<char>>::empty() =~= seq![cur@]);
        }
    }
    parts.push(cur);
    proof {
        assert(spec_views_of(parts@) =~= spec_split(input@, sep));
    }
    parts
}

/// An RGBA color as whole channel values; the renderer converts these to
/// its own color type.
#[derive(Debug, Clone, Copy, PartialEq, Eq, Structural)]
pub struct Rgba {
    pub r: u8,
    pub g: u8,
    pub b: u8,
    pub a: u8,
}

/// One colored piece of a line of ANSI text.
#[derive(Debug)]
pub struct TextSpan {
    pub text: String,
    pub color: Rgba,
}

/// The color ANSI text starts in, and the one its reset code restores.
pub open spec fn spec_ansi_default() -> Rgba {
    Rgba { r: 255, g: 255, b: 255, a: 255 }
}

pub open spec fn is_ascii_digit(c: char) -> bool {
    '0' <= c && c <= '9'
}

/// The value of a digit run folded onto `acc`, stopped by any non-digit
/// and capped at 255: what parsing an unsigned byte does with the digits.
pub open spec fn spec_digits_value(s: Seq<char>, acc: int) -> Option<int>
    decreases s.len(),
{
    if s.len() == 0 {
        Some(acc)
    } else if !is_ascii_digit(s[0]) {
        None
    } else {
        let v = acc * 10 + (s[0] as u32 - '0' as u32);
        if v > 255 {
            None
        } else {
            spec_digits_value(s.drop_first(), v)
        }
    }
}

/// What parsing a code segment as an unsigned byte yields: an optional
/// leading plus sign, then at least one digit, valued at most 255.
pub open spec fn spec_parse_u8(s: Seq<char>) -> Option<int> {
    let body = if s.len() > 0 && s[0] == '+' {
        s.drop_first()
    } else {
        s
    };
    if body.len() == 0 {
        None
    } else {
        spec_digits_value(body, 0)
    }
}

/// The numeric codes of an escape sequence's segments, with segments that
/// are not a byte value dropped.
pub open spec fn spec_codes_of(parts: Seq<Seq<char>>) -> Seq<int>
    decreases parts.len(),
{
    if parts.len() == 0 {
        Seq::empty()
    } else {
        let rest = spec_codes_of(parts.drop_first());
        match spec_parse_u8(parts[0]) {
            Some(v) => seq![v] + rest,
            None => rest,
        }
    }
}

/// The color an ANSI select-graphic code selects, if any: reset restores
/// the default, the standard and bright foreground codes pick their
/// palette entry, anything else changes nothing.
pub open spec fn spec_ansi_palette(code: int) -> Option<Rgba> {
    if code == 0 {
        Some(spec_ansi_default())
    } else if code == 30 {
        Some(Rgba { r: 0x00, g: 0x00, b: 0x00, a: 255 })
    } else if code == 31 {
        Some(Rgba { r: 0xAA, g: 0x00, b: 0x00, a: 255 })
    } else if code == 32 {
        Some(Rgba { r: 0x00, g: 0xAA, b: 0x00, a: 255 })
    } else if code == 33 {
        Some(Rgba { r: 0xFF, g: 0xAA, b: 0x00, a: 255 })
    } else if code == 34 {
        Some(Rgba { r: 0x55, g: 0x55, b: 0xFF, a: 255 })
    } else if code == 35 {
        Some(Rgba { r: 0xAA, g: 0x00, b: 0xAA, a: 255 })
    } else if code == 36 {
        Some(Rgba { r: 0x00, g: 0xAA, b: 0xAA, a: 255 })
    } else if code == 37 {
        Some(Rgba { r: 0xAA, g: 0xAA, b: 0xAA, a: 255 })
    } else if code == 90 {
        Some(Rgba { r: 0x55, g: 0x55, b: 0x55, a: 255 })
    } else if code == 91 {
        Some(Rgba { r: 0xFF, g: 0x55, b: 0x55, a: 255 })
    } else if code == 92 {
        Some(Rgba { r: 0x55, g: 0xFF, b: 0x55, a: 255 })
    } else if code == 93 {
        Some(Rgba { r: 0xFF, g: 0xFF, b: 0x55, a: 255 })
    } else if code == 94 {
        Some(Rgba { r: 0x00, g: 0x00, b: 0xAA, a: 255 })
    } else if code == 95 {
        Some(Rgba { r: 0xFF, g: 0x55, b: 0xFF, a: 255 })
    } else if code == 96 {
        Some(Rgba { r: 0x55, g: 0xFF, b: 0xFF, a: 255 })
    } else if code == 97 {
        Some(Rgba { r: 0xFF, g: 0xFF, b: 0xFF, a: 255 })
    } else {
        None
    }
}

/// Applies an escape sequence's codes from position `j` on: the 24-bit
/// form (38, then 2, then the three channels) consumes five codes, every
/// other code one.
pub open spec fn spec_apply_codes(codes: Seq<int>, j: int, color: Rgba) -> Rgba
    decreases codes.len() - j,
{
    if j < 0 || j >= codes.len() {
        color
    } else if codes[j] == 38 {
        if j + 4 < codes.len() && codes[j + 1] == 2 {
            spec_apply_codes(
                codes,
                j + 5,
                Rgba { r: codes[j + 2] as u8, g: codes[j + 3] as u8, b: codes[j + 4] as u8, a: 255 },
            )
        } else {
            spec_apply_codes(codes, j + 1, color)
        }
    } else {
        match spec_ansi_palette(codes[j]) {
            Some(c) => spec_apply_codes(codes, j + 1, c),
            None => spec_apply_codes(codes, j + 1, color),
        }
    }
}

/// The state the ANSI parser folds over its input: the color in effect,
/// the line being built, the finished lines, and the body of the escape
/// sequence being read, while inside one.
pub ghost struct AnsiState {
    pub color: Rgba,
    pub line: Seq<(Seq<char>, Rgba)>,
    pub lines: Seq<Seq<(Seq<char>, Rgba)>>,
    pub escape: Option<Seq<char>>,
}

pub open spec fn spec_ansi_start() -> AnsiState {
    AnsiState {
        color: spec_ansi_default(),
        line: Seq::empty(),
        lines: Seq::empty(),
        escape: None,
    }
}

/// The parse of `s` from position `i` on: an `ESC [` introducer starts an
/// escape whose body runs to the next `m` and recolors the text; a newline
/// finishes the line; every other character becomes a one-character piece
/// in the color in effect. An escape that never ends swallows the rest.
pub open spec fn spec_ansi_scan(s: Seq<char>, i: int, st: AnsiState) -> AnsiState
    decreases s.len() - i,
{
    if i < 0 || i >= s.len() {
        st
    } else {
        match st.escape {
            Some(acc) => if s[i] == 'm' {
                spec_ansi_scan(
                    s,
                    i + 1,
                    AnsiState {
                        color: spec_apply_codes(
                            spec_codes_of(spec_split(acc, ';')),
                            0,
                            st.color,
                        ),
                        escape: None,
                        ..st
                    },
                )
            } else {
                spec_ansi_scan(s, i + 1, AnsiState { escape: Some(acc.push(s[i])), ..st })
            },
            None => if s[i] == '\u{1b}' && i + 1 < s.len() && s[i + 1] == '[' {
                spec_ansi_scan(s, i + 2, AnsiState { escape: Some(Seq::empty()), ..st })
            } else if s[i] == '\n' {
                spec_ansi_scan(
                    s,
                    i + 1,
                    AnsiState { line: Seq::empty(), lines: st.lines.push(st.line), ..st },
                )
            } else {
                spec_ansi_scan(
                    s,
                    i + 1,
                    AnsiState { line: st.line.push((seq![s[i]], st.color)), ..st },
                )
            },
        }
    }
}

/// The colored spans of `s`: its lines in order, each line a sequence of
/// one-character pieces paired with the color in effect; a trailing line
/// is kept only when it holds something.
pub open spec fn spec_parse_ansi(s: Seq<char>) -> Seq<Seq<(Seq<char>, Rgba)>> {
    let fin = spec_ansi_scan(s, 0, spec_ansi_start());
    if fin.line.len() > 0 {
        fin.lines.push(fin.line)
    } else {
        fin.lines
    }
}

/// The model of one line of spans.
pub open spec fn spec_spans_of(v: Seq<TextSpan>) -> Seq<(Seq<char>, Rgba)> {
    v.map_values(|t: TextSpan| (t.text@, t.color))
}

/// The model of a list of lines of spans.
pub open spec fn spec_lines_of(v: Seq<Vec<TextSpan>>) -> Seq<Seq<(Seq<char>, Rgba)>> {
    v.map_values(|l: Vec<TextSpan>| spec_spans_of(l@))
}

/// Parses one code segment as an unsigned byte.
#[verifier::loop_isolation(false)]
fn parse_u8_seg(seg: &str) -> (r: Option<u8>)
    ensures
        match spec_parse_u8(seg@) {
            Some(v) => r matches Some(u) && u as int == v,
            None => r is None,
        },
{
    let len = seg.unicode_len();
    let mut start: usize = 0;
    if len > 0 && seg.get_char(0) == '+' {
        start = 1;
    }
    if start >= len {
        return None;
    }
    let ghost body = seg@.skip(start as int);
    proof {
        if start == 1 {
            assert(body =~= seg@.drop_first());
        } else {
            assert(body =~= seg@);
        }
    }
    let mut acc: u32 = 0;
    let mut i: usize = start;
    while i < len
        invariant
            start <= i <= len,
            acc <= 255,
            spec_digits_value(body, 0) == spec_digits_value(seg@.skip(i as int), acc as int),
        decreases len - i,
    {
        let ghost rest = seg@.skip(i as int);
        proof {
            assert(rest[0] == seg@[i as int]);
            assert(rest.drop_first() =~= seg@.skip(i + 1));
        }
        let c = seg.get_char(i);
        if !('0' <= c && c <= '9') {
            return None;
        }
        let v: u32 = acc * 10 + (c as u32 - '0' as u32);
        if v > 255 {
            return None;
        }
        acc = v;
        i += 1;
    }
    proof {
        assert(seg@.skip(len as int) =~= Seq::<char>::empty());
    }
    Some(acc as u8)
}

/// The view of a byte list as plain integers.
pub open spec fn spec_u8s(v: Seq<u8>) -> Seq<int> {
    v.map_values(|x: u8| x as int)
}

/// Parses each segment as a code, dropping the ones that are not a byte.
#[verifier::loop_isolation(false)]
fn codes_of(parts: &Vec<String>) -> (r: Vec<u8>)
    ensures
        spec_u8s(r@) == spec_codes_of(spec_views_of(parts@)),
{
    let ghost vs = spec_views_of(parts@);
    let mut codes: Vec<u8> = Vec::new();
    let mut i: usize = 0;
    proof {
        assert(vs.skip(0) =~= vs);
        assert(spec_u8s(codes@) + spec_codes_of(vs) =~= spec_codes_of(vs));
    }
    while i < parts.len()
        invariant
            0 <= i <= parts@.len(),
            vs.len() == parts@.len(),
            spec_codes_of(vs) == spec_u8s(codes@) + spec_codes_of(vs.skip(i as int)),
        decreases parts@.len() - i,
    {
        let ghost pre = codes@;
        let ghost rest = vs.skip(i as int);
        proof {
            assert(rest[0] == vs[i as int]);
            assert(vs[i as int] == parts@[i as int]@);
            assert(rest.drop_first() =~= vs.skip(i + 1));
        }
        match parse_u8_seg(&parts[i]) {
            Some(v) => {
                codes.push(v);
                proof {
                    assert(spec_u8s(codes@) =~= spec_u8s(pre).push(v as int));
                    assert(spec_u8s(pre).push(v as int) =~= spec_u8s(pre) + seq![v as int]);
                    assert(spec_u8s(pre) + (seq![v as int] + spec_codes_of(rest.drop_first()))
                        =~= (spec_u8s(pre) + seq![v as int]) + spec_codes_of(rest.drop_first()));
                }
            },
            None => {},
        }
        i += 1;
    }
    proof {
        assert(vs.skip(vs.len() as int) =~= Seq::<Seq<char>>::empty());
        assert(spec_u8s(codes@) + Seq::<int>::empty() =~= spec_u8s(codes@));
    }
    codes
}

fn ansi_palette(code: u8) -> (r: Option<Rgba>)
    ensures
        r == spec_ansi_palette(code as int),
{
    match code {
        0 => Some(Rgba { r: 255, g: 255, b: 255, a: 255 }),
        30 => Some(Rgba { r: 0x00, g: 0x00, b: 0x00, a: 255 }),
        31 => Some(Rgba { r: 0xAA, g: 0x00, b: 0x00, a: 255 }),
        32 => Some(Rgba { r: 0x00, g: 0xAA, b: 0x00, a: 255 }),
        33 => Some(Rgba { r: 0xFF, g: 0xAA, b: 0x00, a: 255 }),
        34 => Some(Rgba { r: 0x55, g: 0x55, b: 0xFF, a: 255 }),
        35 => Some(Rgba { r: 0xAA, g: 0x00, b: 0xAA, a: 255 }),
        36 => Some(Rgba { r: 0x00, g: 0xAA, b: 0xAA, a: 255 }),
        37 => Some(Rgba { r: 0xAA, g: 0xAA, b: 0xAA, a: 255 }),
        90 => Some(Rgba { r: 0x55, g: 0x55, b: 0x55, a: 255 }),
        91 => Some(Rgba { r: 0xFF, g: 0x55, b: 0x55, a: 255 }),
        92 => Some(Rgba { r: 0x55, g: 0xFF, b: 0x55, a: 255 }),
        93 => Some(Rgba { r: 0xFF, g: 0xFF, b: 0x55, a: 255 }),
        94 => Some(Rgba { r: 0x00, g: 0x00, b: 0xAA, a: 255 }),
        95 => Some(Rgba { r: 0xFF, g: 0x55, b: 0xFF, a: 255 }),
        96 => Some(Rgba { r: 0x55, g: 0xFF, b: 0xFF, a: 255 }),
        97 => Some(Rgba { r: 0xFF, g: 0xFF, b: 0xFF, a: 255 }),
        _ => None,
    }
}

/// Applies an escape sequence's codes to the color in effect.
#[verifier::loop_isolation(false)]
fn apply_codes(codes: &Vec<u8>, color: Rgba) -> (r: Rgba)
    ensures
        r == spec_apply_codes(spec_u8s(codes@), 0, color),
{
    let ghost cs = spec_u8s(codes@);
    let mut cur = color;
    let mut j: usize = 0;
    while j < codes.len()
        invariant
            0 <= j <= codes@.len(),
            cs.len() == codes@.len(),
            spec_apply_codes(cs, 0, color) == spec_apply_codes(cs, j as int, cur),
        decreases codes@.len() - j,
    {
        proof {
            assert(cs[j as int] == codes@[j as int] as int);
        }
        if codes[j] == 38 {
            if codes.len() - j > 4 && codes[j + 1] == 2 {
                proof {
                    assert(cs[j + 1] == codes@[j + 1] as int);
                    assert(cs[j + 2] == codes@[j + 2] as int);
                    assert(cs[j + 3] == codes@[j + 3] as int);
                    assert(cs[j + 4] == codes@[j + 4] as int);
                }
                cur = Rgba { r: codes[j + 2], g: codes[j + 3], b: codes[j + 4], a: 255 };
                j += 5;
            } else {
                j += 1;
            }
        } else {
            match ansi_palette(codes[j]) {
                Some(c) => {
                    cur = c;
                },
                None => {},
            }
            j += 1;
        }
    }
    cur
}

/// Parses ANSI escape codes into lines of colored one-character spans.
#[verifier::loop_isolation(false)]
#[verifier::rlimit(50)]
pub fn parse_ansi(input: &str) -> (r: Vec<Vec<TextSpan>>)
    ensures
        ({
            let m = spec_parse_ansi(input@);
            &&& r@.len() == m.len()
            &&& forall|i: int| 0 <= i < m.len() ==> (#[trigger] r@[i])@.len() == m[i].len()
            &&& forall|i: int, j: int|
                0 <= i < m.len() && 0 <= j < m[i].len() ==> ((#[trigger] r@[i]@[j]).text@
                    == m[i][j].0 && r@[i]@[j].color == m[i][j].1)
        }),
{
    let len = input.unicode_len();
    let ghost goal = spec_ansi_scan(input@, 0, spec_ansi_start());
    let mut out: Vec<Vec<TextSpan>> = Vec::new();
    let mut line: Vec<TextSpan> = Vec::new();
    let mut color = Rgba { r: 255, g: 255, b: 255, a: 255 };
    let mut escape_active = false;
    let mut escape_buf = String::new();
    let mut i: usize = 0;
    proof {
        assert(spec_spans_of(line@) =~= Seq::<(Seq<char>, Rgba)>::empty());
        assert(spec_lines_of(out@) =~= Seq::<Seq<(Seq<char>, Rgba)>>::empty());
    }
    while i < len
        invariant
            0 <= i <= len,
            len == input@.len(),
            goal == spec_ansi_scan(
                input@,
                i as int,
                AnsiState {
                    color: color,
                    line: spec_spans_of(line@),
                    lines: spec_lines_of(out@),
                    escape: if escape_active {
                        Some(escape_buf@)
                    } else {
                        None
                    },
                },
            ),
        decreases len - i,
    {
        let ghost cur = AnsiState {
            color: color,
            line: spec_spans_of(line@),
            lines: spec_lines_of(out@),
            escape: if escape_active {
                Some(escape_buf@)
            } else {
                None
            },
        };
        let c = input.get_char(i);
        if escape_active {
            if c == 'm' {
                let parts = split_on(escape_buf.as_str(), ';');
                proof {
                    assert(spec_views_of(parts@) =~= spec_split(escape_buf@, ';'));
                }
                let codes = codes_of(&parts);
                color = apply_codes(&codes, color);
                escape_active = false;
                escape_buf = String::new();
            } else {
                push_char(&mut escape_buf, c);
            }
            i += 1;
        } else if c == '\u{1b}' && i + 1 < len && input.get_char(i + 1) == '[' {
            escape_active = true;
            escape_buf = String::new();
            proof {
                assert(escape_buf@ =~= Seq::<char>::empty());
            }
            i += 2;
        } else if c == '\n' {
            out.push(line);
            line = Vec::new();
            proof {
                assert(spec_lines_of(out@) =~= cur.lines.push(cur.line));
                assert(spec_spans_of(line@) =~= Seq::<(Seq<char>, Rgba)>::empty());
            }
            i += 1;
        } else {
            let mut piece = String::new();
            push_char(&mut piece, c);
            proof {
                assert(piece@ =~= seq![input@[i as int]]);
            }
            line.push(TextSpan { text: piece, color });
            proof {
                assert(spec_spans_of(line@) =~= cur.line.push(
                    (seq![input@[i as int]], cur.color),
                ));
            }
            i += 1;
        }
    }
    if line.len() > 0 {
        out.push(line);
        proof {
            assert(spec_lines_of(out@) =~= spec_parse_ansi(input@));
        }
    } else {
        proof {
            assert(spec_lines_of(out@) =~= spec_parse_ansi(input@));
        }
    }
    proof {
        let m = spec_parse_ansi(input@);
        assert forall|i2: int| 0 <= i2 < m.len() implies (#[trigger] out@[i2])@.len()
            == m[i2].len() by {
            assert(spec_lines_of(out@)[i2] == spec_spans_of(out@[i2]@));
        }
        assert forall|i2: int, j2: int|
            0 <= i2 < m.len() && 0 <= j2 < m[i2].len() implies ((#[trigger] out@[i2]@[j2]).text@
            == m[i2][j2].0 && out@[i2]@[j2].color == m[i2][j2].1) by {
            assert(spec_lines_of(out@)[i2] == spec_spans_of(out@[i2]@));
            assert(spec_spans_of(out@[i2]@)[j2] == (out@[i2]@[j2].text@, out@[i2]@[j2].color));
        }
    }
    out
}

} // verus!
