//! Character-level helpers shared by the wire form and the orchestration:
//! decimal rendering, JSON string escaping, whitespace trimming and line
//! splitting, each proved against a spec-level definition over `Seq<char>`.

use vstd::prelude::*;
use vstd::string::StrSliceExecFns;
use vstd::string::StringExecFns;

verus! {

/// Relies on `String::push`: appends the given character to the end of the
/// string (std documents exactly this).
pub assume_specification[ String::push ](s: &mut String, ch: char)
    ensures
        final(s)@ == old(s)@.push(ch),
;

/// The decimal digit character for `d` in 0..10.
pub open spec fn digit_char(d: int) -> char {
    (d + 48) as char
}

/// The lower-case hexadecimal digit character for `d` in 0..16.
pub open spec fn hex_char(d: int) -> char {
    if d < 10 {
        (d + 48) as char
    } else {
        (d + 87) as char
    }
}

/// The decimal rendering of a nonnegative integer, most significant digit
/// first, with no leading zeros (a single zero for 0).
pub open spec fn spec_udec(n: nat) -> Seq<char>
    decreases n,
{
    if n < 10 {
        seq![digit_char(n as int)]
    } else {
        spec_udec(n / 10).push(digit_char((n % 10) as int))
    }
}

/// The decimal rendering of an integer: a minus sign for negative values.
pub open spec fn spec_idec(v: int) -> Seq<char> {
    if v < 0 {
        seq!['-'] + spec_udec((-v) as nat)
    } else {
        spec_udec(v as nat)
    }
}

fn digit_of(d: u8) -> (c: char)
    requires
        d < 10,
    ensures
        c == digit_char(d as int),
{
    (d + 48) as char
}

fn hex_of(d: u8) -> (c: char)
    requires
        d < 16,
    ensures
        c == hex_char(d as int),
{
    if d < 10 {
        (d + 48) as char
    } else {
        (d + 87) as char
    }
}

/// Renders `n` in decimal.
pub fn u64_dec(n: u64) -> (s: String)
    ensures
        s@ == spec_udec(n as nat),
    decreases n,
{
    if n < 10 {
        let mut s = String::new();
        s.push(digit_of(n as u8));
        s
    } else {
        let mut s = u64_dec(n / 10);
        s.push(digit_of((n % 10) as u8));
        s
    }
}

/// Renders `v` in decimal with a sign.
pub fn i64_dec(v: i64) -> (s: String)
    requires
        v != i64::MIN,
    ensures
        s@ == spec_idec(v as int),
{
    if v < 0 {
        let mut s = String::new();
        s.push('-');
        let d = u64_dec((-v) as u64);
        s.append(d.as_str());
        proof {
            assert(s@ =~= spec_idec(v as int));
        }
        s
    } else {
        u64_dec(v as u64)
    }
}

/// The JSON escape of one character: the two-character escapes of JSON for
/// quote, backslash and the common control characters, a `\u00..` escape for
/// the remaining control characters, and the character itself otherwise.
pub open spec fn esc_char(c: char) -> Seq<char> {
    if c == '"' {
        seq!['\\', '"']
    } else if c == '\\' {
        seq!['\\', '\\']
    } else if c == '\n' {
        seq!['\\', 'n']
    } else if c == '\r' {
        seq!['\\', 'r']
    } else if c == '\t' {
        seq!['\\', 't']
    } else if (c as u32) < 0x20 {
        seq!['\\', 'u', '0', '0', hex_char((c as u32) as int / 16), hex_char((c as u32) as int % 16)]
    } else {
        seq![c]
    }
}

/// The JSON escape of a whole string.
pub open spec fn spec_escape(s: Seq<char>) -> Seq<char>
    decreases s.len(),
{
    if s.len() == 0 {
        Seq::empty()
    } else {
        esc_char(s[0]) + spec_escape(s.drop_first())
    }
}

proof fn lemma_escape_snoc(s: Seq<char>, c: char)
    ensures
        spec_escape(s.push(c)) == spec_escape(s) + esc_char(c),
    decreases s.len(),
{
    if s.len() == 0 {
        assert(s.push(c)[0] == c);
        assert(s.push(c).drop_first() =~= Seq::<char>::empty());
        assert(spec_escape(s.push(c)) == esc_char(c) + spec_escape(Seq::<char>::empty()));
        assert(spec_escape(Seq::<char>::empty()) =~= Seq::<char>::empty());
        assert(spec_escape(s) =~= Seq::<char>::empty());
        assert(spec_escape(s.push(c)) =~= spec_escape(s) + esc_char(c));
    } else {
        lemma_escape_snoc(s.drop_first(), c);
        assert(s.push(c)[0] == s[0]);
        assert(s.push(c).drop_first() =~= s.drop_first().push(c));
        assert(spec_escape(s.push(c)) == esc_char(s[0]) + spec_escape(s.drop_first().push(c)));
        assert(spec_escape(s.drop_first().push(c)) == spec_escape(s.drop_first()) + esc_char(c));
        assert(spec_escape(s.push(c)) =~= spec_escape(s) + esc_char(c));
    }
}

/// Appends the JSON escape of `s` to `out`.
pub fn escape_into(out: &mut String, s: &str)
    ensures
        final(out)@ == old(out)@ + spec_escape(s@),
{
    let ghost orig: Seq<char> = out@;
    let len = s.unicode_len();
    let mut i: usize = 0;
    while i < len
        invariant
            i <= len,
            len == s@.len(),
            out@ == orig + spec_escape(s@.subrange(0, i as int)),
        decreases len - i,
    {
        let c = s.get_char(i);
        proof {
            assert(s@.subrange(0, i + 1 as int) =~= s@.subrange(0, i as int).push(c));
            lemma_escape_snoc(s@.subrange(0, i as int), c);
        }
        if c == '"' {
            out.push('\\');
            out.push('"');
        } else if c == '\\' {
            out.push('\\');
            out.push('\\');
        } else if c == '\n' {
            out.push('\\');
            out.push('n');
        } else if c == '\r' {
            out.push('\\');
            out.push('r');
        } else if c == '\t' {
            out.push('\\');
            out.push('t');
        } else {
            let u = c as u32;
            if u < 0x20 {
                out.push('\\');
                out.push('u');
                out.push('0');
                out.push('0');
                out.push(hex_of((u / 16) as u8));
                out.push(hex_of((u % 16) as u8));
            } else {
                out.push(c);
            }
        }
        proof {
            assert(out@ =~= orig + spec_escape(s@.subrange(0, i + 1 as int)));
        }
        i += 1;
    }
    proof {
        assert(s@.subrange(0, len as int) =~= s@);
    }
}

/// Whether `c` has the Unicode `White_Space` property (the set that
/// `str::trim` removes); the members are listed outright.
pub open spec fn is_ws(c: char) -> bool {
    let u = c as u32;
    u == 0x09 || u == 0x0A || u == 0x0B || u == 0x0C || u == 0x0D || u == 0x20 || u == 0x85
        || u == 0xA0 || u == 0x1680 || (0x2000 <= u && u <= 0x200A) || u == 0x2028 || u == 0x2029
        || u == 0x202F || u == 0x205F || u == 0x3000
}

fn is_ws_exec(c: char) -> (r: bool)
    ensures
        r == is_ws(c),
{
    let u = c as u32;
    u == 0x09 || u == 0x0A || u == 0x0B || u == 0x0C || u == 0x0D || u == 0x20 || u == 0x85
        || u == 0xA0 || u == 0x1680 || (0x2000 <= u && u <= 0x200A) || u == 0x2028 || u == 0x2029
        || u == 0x202F || u == 0x205F || u == 0x3000
}

/// `s` without its leading whitespace.
pub open spec fn spec_trim_front(s: Seq<char>) -> Seq<char>
    decreases s.len(),
{
    if s.len() > 0 && is_ws(s[0]) {
        spec_trim_front(s.drop_first())
    } else {
        s
    }
}

/// `s` without its trailing whitespace.
pub open spec fn spec_trim_back(s: Seq<char>) -> Seq<char>
    decreases s.len(),
{
    if s.len() > 0 && is_ws(s[s.len() - 1]) {
        spec_trim_back(s.drop_last())
    } else {
        s
    }
}

/// `s` without surrounding whitespace.
pub open spec fn spec_trim(s: Seq<char>) -> Seq<char> {
    spec_trim_back(spec_trim_front(s))
}

/// Removes leading and trailing whitespace, as `str::trim` does.
pub fn trim_str(s: &str) -> (r: String)
    ensures
        r@ == spec_trim(s@),
{
    let len = s.unicode_len();
    proof {
        assert(s@.subrange(0, len as int) =~= s@);
    }
    let mut start: usize = 0;
    while start < len && is_ws_exec(s.get_char(start))
        invariant
            start <= len,
            len == s@.len(),
            spec_trim_front(s@) == spec_trim_front(s@.subrange(start as int, len as int)),
        decreases len - start,
    {
        proof {
            assert(s@.subrange(start as int, len as int).drop_first() =~= s@.subrange(
                start + 1 as int,
                len as int,
            ));
        }
        start += 1;
    }
    proof {
        let t = s@.subrange(start as int, len as int);
        assert(spec_trim_front(t) == t);
    }
    let mut end: usize = len;
    while end > start && is_ws_exec(s.get_char(end - 1))
        invariant
            start <= end <= len,
            len == s@.len(),
            spec_trim_front(s@) == s@.subrange(start as int, len as int),
            spec_trim_back(s@.subrange(start as int, len as int)) == spec_trim_back(
                s@.subrange(start as int, end as int),
            ),
        decreases end,
    {
        proof {
            assert(s@.subrange(start as int, end as int).drop_last() =~= s@.subrange(
                start as int,
                end - 1 as int,
            ));
        }
        end -= 1;
    }
    proof {
        let t = s@.subrange(start as int, end as int);
        assert(spec_trim_back(t) == t);
    }
    s.substring_char(start, end).to_owned()
}

/// The index of the first occurrence of `c` in `s`, or -1 when absent.
pub open spec fn find_char(s: Seq<char>, c: char) -> int
    decreases s.len(),
{
    if s.len() == 0 {
        -1
    } else if s[0] == c {
        0
    } else {
        let r = find_char(s.drop_first(), c);
        if r < 0 {
            -1
        } else {
            r + 1
        }
    }
}

proof fn lemma_find_char_is(s: Seq<char>, c: char, i: int)
    requires
        0 <= i < s.len(),
        s[i] == c,
        forall|k: int| 0 <= k < i ==> s[k] != c,
    ensures
        find_char(s, c) == i,
    decreases s.len(),
{
    if i > 0 {
        assert(s[0] != c);
        lemma_find_char_is(s.drop_first(), c, i - 1);
    }
}

proof fn lemma_find_char_none(s: Seq<char>, c: char)
    requires
        forall|k: int| 0 <= k < s.len() ==> s[k] != c,
    ensures
        find_char(s, c) == -1,
    decreases s.len(),
{
    if s.len() > 0 {
        lemma_find_char_none(s.drop_first(), c);
    }
}

/// A line with a final carriage return removed, as `str::lines` strips it
/// before a line feed.
pub open spec fn chomp_cr(line: Seq<char>) -> Seq<char> {
    if line.len() > 0 && line[line.len() - 1] == '\r' {
        line.drop_last()
    } else {
        line
    }
}

/// The lines of `s`, split as `str::lines` does: at each line feed, with a
/// carriage return before the line feed stripped, the final terminator
/// optional, and no lines at all for the empty text.
pub open spec fn spec_lines(s: Seq<char>) -> Seq<Seq<char>>
    decreases s.len(),
{
    if s.len() == 0 {
        Seq::empty()
    } else {
        let i = find_char(s, '\n');
        if i < 0 || i >= s.len() {
            seq![s]
        } else {
            seq![chomp_cr(s.subrange(0, i))] + spec_lines(s.subrange(i + 1, s.len() as int))
        }
    }
}

/// Splits `s` into its lines.
pub fn split_lines(s: &str) -> (r: Vec<String>)
    ensures
        r.deep_view() == spec_lines(s@),
{
    let len = s.unicode_len();
    proof {
        assert(s@.subrange(0, len as int) =~= s@);
    }
    let mut res: Vec<String> = Vec::new();
    let mut pos: usize = 0;
    while pos < len
        invariant
            pos <= len,
            len == s@.len(),
            spec_lines(s@) == res.deep_view() + spec_lines(s@.subrange(pos as int, len as int)),
        decreases len - pos,
    {
        let ghost t = s@.subrange(pos as int, len as int);
        let mut j: usize = pos;
        while j < len && s.get_char(j) != '\n'
            invariant
                pos <= j <= len,
                len == s@.len(),
                forall|k: int| pos <= k < j ==> s@[k] != '\n',
            decreases len - j,
        {
            j += 1;
        }
        let mut line_end = j;
        if j > pos && s.get_char(j - 1) == '\r' && j < len {
            line_end = j - 1;
        }
        let line = s.substring_char(pos, line_end).to_owned();
        proof {
            if j == len {
                lemma_find_char_none(t, '\n');
                assert(spec_lines(t) =~= seq![t]);
                assert(line@ =~= t);
                assert(spec_lines(s@.subrange(len as int, len as int)) =~= Seq::<
                    Seq<char>,
                >::empty());
            } else {
                assert(s@[j as int] == '\n');
                assert(t[j - pos] == '\n');
                lemma_find_char_is(t, '\n', j - pos);
                assert(t.subrange(0, j - pos) =~= s@.subrange(pos as int, j as int));
                assert(chomp_cr(t.subrange(0, j - pos)) =~= line@);
                assert(t.subrange(j - pos + 1, t.len() as int) =~= s@.subrange(
                    j + 1 as int,
                    len as int,
                ));
                assert(spec_lines(t) == seq![line@] + spec_lines(
                    s@.subrange(j + 1 as int, len as int),
                ));
            }
        }
        res.push(line);
        pos = if j < len {
            j + 1
        } else {
            len
        };
        proof {
            assert(spec_lines(s@) =~= res.deep_view() + spec_lines(
                s@.subrange(pos as int, len as int),
            ));
        }
    }
    proof {
        assert(spec_lines(s@.subrange(len as int, len as int)) =~= Seq::<Seq<char>>::empty());
        assert(res.deep_view() =~= spec_lines(s@));
    }
    res
}

/// The first `n` characters of `s` when `s` is longer than `n`, else `s`.
pub open spec fn spec_take_at_most(s: Seq<char>, n: int) -> Seq<char> {
    if s.len() > n {
        s.subrange(0, n)
    } else {
        s
    }
}

/// Truncates `s` to at most `n` characters.
pub fn truncate_chars(s: &str, n: usize) -> (r: String)
    ensures
        r@ == spec_take_at_most(s@, n as int),
{
    let len = s.unicode_len();
    if len > n {
        s.substring_char(0, n).to_owned()
    } else {
        proof {
            assert(s@.subrange(0, len as int) =~= s@);
        }
        s.to_owned()
    }
}

} // verus!
