//! Where the floating window is placed: the position saved last time, read back from text, or
//! else the bottom-right corner of the first monitor.
use vstd::prelude::*;

verus! {

/// Whether `c` is an ASCII decimal digit.
pub open spec fn is_digit(c: char) -> bool {
    '0' <= c && c <= '9'
}

/// The value of a string of decimal digits.
pub open spec fn digits_value(s: Seq<char>) -> int
    decreases s.len(),
{
    if s.len() == 0 {
        0
    } else {
        digits_value(s.drop_last()) * 10 + (s.last() as int - '0' as int)
    }
}

/// Whether `s` starts with a sign.
pub open spec fn has_sign(s: Seq<char>) -> bool {
    s.len() > 0 && (s[0] == '-' || s[0] == '+')
}

/// `s` without its sign.
pub open spec fn unsigned_part(s: Seq<char>) -> Seq<char> {
    if has_sign(s) {
        s.drop_first()
    } else {
        s
    }
}

/// Whether every character of `s` is a decimal digit.
pub open spec fn all_digits(s: Seq<char>) -> bool {
    forall|i: int| 0 <= i < s.len() ==> is_digit(#[trigger] s[i])
}

/// The value `s` denotes, if it is a sign followed by digits.
pub open spec fn signed_value(s: Seq<char>) -> int {
    if s.len() > 0 && s[0] == '-' {
        -digits_value(unsigned_part(s))
    } else {
        digits_value(unsigned_part(s))
    }
}

/// What `i32::from_str` returns: an optional `+` or `-`, then one or more decimal digits, whose
/// value fits in an `i32`.
pub open spec fn spec_parse_i32(s: Seq<char>) -> Option<i32> {
    if unsigned_part(s).len() == 0 || !all_digits(unsigned_part(s)) {
        None
    } else if i32::MIN <= signed_value(s) && signed_value(s) <= i32::MAX {
        Some(signed_value(s) as i32)
    } else {
        None
    }
}

proof fn lemma_digits_value_nonneg(s: Seq<char>)
    requires
        forall|i: int| 0 <= i < s.len() ==> is_digit(#[trigger] s[i]),
    ensures
        digits_value(s) >= 0,
    decreases s.len(),
{
    if s.len() > 0 {
        let t = s.drop_last();
        assert forall|i: int| 0 <= i < t.len() implies is_digit(#[trigger] t[i]) by {
            assert(t[i] == s[i]);
        }
        lemma_digits_value_nonneg(t);
        assert(is_digit(s[s.len() - 1]));
    }
}

/// Parses a decimal integer as `i32::from_str` does.
pub fn parse_i32(s: &str) -> (r: Option<i32>)
    ensures
        r == spec_parse_i32(s@),
{
    let n = s.unicode_len();
    let mut start: usize = 0;
    let mut neg = false;
    if n > 0 {
        let c = s.get_char(0);
        if c == '-' {
            neg = true;
            start = 1;
        } else if c == '+' {
            start = 1;
        }
    }
    let ghost body = s@.subrange(start as int, n as int);
    proof {
        if start == 1 {
            assert(body =~= s@.drop_first());
        } else {
            assert(body =~= s@);
        }
    }
    if start == n {
        return None;
    }
    // The largest magnitude an i32 can take, that of i32::MIN.
    let limit: i64 = 2147483648;
    let mut acc: i64 = 0;
    let mut over = false;
    let mut i: usize = start;
    while i < n
        invariant
            n == s@.len(),
            start <= i <= n,
            start < n,
            body == s@.subrange(start as int, n as int),
            body == unsigned_part(s@),
            neg == (s@.len() > 0 && s@[0] == '-'),
            forall|k: int| 0 <= k < i - start ==> is_digit(#[trigger] body[k]),
            !over ==> acc == digits_value(body.take(i - start)) && 0 <= acc <= limit,
            over ==> digits_value(body.take(i - start)) > limit,
            limit == 2147483648,
        decreases n - i,
    {
        let c = s.get_char(i);
        assert(body[i - start] == c);
        if !('0' <= c && c <= '9') {
            proof {
                assert(!is_digit(body[i - start]));
                assert(!all_digits(body));
            }
            return None;
        }
        let d = (c as u32 - '0' as u32) as i64;
        proof {
            let t = body.take(i - start + 1);
            assert(t.drop_last() =~= body.take(i - start));
            assert(t.last() == c);
            assert(digits_value(t) == digits_value(body.take(i - start)) * 10 + d);
            lemma_digits_value_nonneg(body.take(i - start));
        }
        if !over {
            if acc > (limit - d) / 10 {
                over = true;
            } else {
                acc = acc * 10 + d;
            }
        }
        i = i + 1;
    }
    assert(body.take(n - start) =~= body);
    assert(all_digits(body));
    if over {
        return None;
    }
    if neg {
        let v = 0 - acc;
        Some(v as i32)
    } else if acc > 2147483647 {
        None
    } else {
        Some(acc as i32)
    }
}

/// The position saved last time, if both coordinates were saved and read back as numbers.
pub fn saved_position(x: &Option<String>, y: &Option<String>) -> (r: Option<(i32, i32)>)
    ensures
        r == (match (x, y) {
            (Some(xs), Some(ys)) => match (spec_parse_i32(xs@), spec_parse_i32(ys@)) {
                (Some(a), Some(b)) => Some((a, b)),
                _ => None,
            },
            _ => None,
        }),
{
    match (x, y) {
        (Some(xs), Some(ys)) => match parse_i32(xs.as_str()) {
            Some(a) => match parse_i32(ys.as_str()) {
                Some(b) => Some((a, b)),
                None => None,
            },
            None => None,
        },
        _ => None,
    }
}

/// The geometry of a monitor: left, top, width and height.
pub type MonitorGeometry = (i32, i32, i32, i32);

/// Whether placing the window in a corner of `geom` stays within `i32`.
pub open spec fn corner_fits(geom: MonitorGeometry) -> bool {
    &&& i32::MIN <= geom.0 + geom.2 <= i32::MAX
    &&& i32::MIN <= geom.0 + geom.2 - 100 <= i32::MAX
    &&& i32::MIN <= geom.1 + geom.3 <= i32::MAX
    &&& i32::MIN <= geom.1 + geom.3 - 140 <= i32::MAX
}

/// Where the window goes: the saved position, else near the bottom-right corner of the first
/// monitor, else (100, 100).
pub fn window_position(saved: Option<(i32, i32)>, monitor: Option<MonitorGeometry>) -> (r: (i32, i32))
    requires
        saved is None ==> (monitor matches Some(g) ==> corner_fits(g)),
    ensures
        r == (match saved {
            Some(p) => p,
            None => match monitor {
                Some(g) => ((g.0 + g.2 - 100) as i32, (g.1 + g.3 - 140) as i32),
                None => (100i32, 100i32),
            },
        }),
{
    match saved {
        Some(p) => p,
        None => match monitor {
            Some(g) => (g.0 + g.2 - 100, g.1 + g.3 - 140),
            None => (100, 100),
        },
    }
}


/// Index of the first line feed in `s`, or its length when it has none.
pub open spec fn first_newline(s: Seq<char>) -> nat
    decreases s.len(),
{
    if s.len() == 0 {
        0
    } else if s[0] == '\n' {
        0
    } else {
        1 + first_newline(s.drop_first())
    }
}

/// A line without the carriage return that ended it together with its line feed.
pub open spec fn strip_cr(line: Seq<char>) -> Seq<char> {
    if line.len() > 0 && line.last() == '\r' {
        line.drop_last()
    } else {
        line
    }
}

/// The lines of a text, as `str::lines` yields them: split at each line feed, a carriage return
/// before the line feed removed, and no empty line after a final line feed.
pub open spec fn lines(s: Seq<char>) -> Seq<Seq<char>>
    decreases s.len(),
{
    if s.len() == 0 {
        seq![]
    } else {
        let i = first_newline(s) as int;
        if i >= s.len() {
            seq![s]
        } else {
            seq![strip_cr(s.take(i))] + lines(s.skip(i + 1))
        }
    }
}

/// Index of the first comma in `s`, if any.
pub open spec fn first_comma(s: Seq<char>) -> Option<nat>
    decreases s.len(),
{
    if s.len() == 0 {
        None
    } else if s[0] == ',' {
        Some(0)
    } else {
        match first_comma(s.drop_first()) {
            Some(i) => Some(i + 1),
            None => None,
        }
    }
}

/// Index of the first whitespace character in `s`, or its length.
pub open spec fn first_space(s: Seq<char>) -> nat
    decreases s.len(),
{
    if s.len() == 0 {
        0
    } else if crate::text::is_whitespace(s[0]) {
        0
    } else {
        1 + first_space(s.drop_first())
    }
}

/// The first whitespace-separated word of `s`, or `0` when it has none.
pub open spec fn first_word_or_zero(s: Seq<char>) -> Seq<char> {
    let t = crate::text::trim_start(s);
    if t.len() == 0 {
        "0"@
    } else {
        t.take(first_space(t) as int)
    }
}

/// The coordinates on a line `  Position: X,Y ...` of the window tool's geometry report.
pub open spec fn line_position(line: Seq<char>) -> Option<(Seq<char>, Seq<char>)> {
    if crate::text::has_prefix(line, "  Position: "@) {
        let pos = line.skip(12);
        match first_comma(pos) {
            Some(c) => Some(
                (crate::text::trim(pos.take(c as int)), first_word_or_zero(pos.skip(c + 1 as int))),
            ),
            None => None,
        }
    } else {
        None
    }
}

/// The coordinates of the last line that holds a position.
pub open spec fn last_position(ls: Seq<Seq<char>>) -> Option<(Seq<char>, Seq<char>)>
    decreases ls.len(),
{
    if ls.len() == 0 {
        None
    } else {
        match line_position(ls.last()) {
            Some(p) => Some(p),
            None => last_position(ls.drop_last()),
        }
    }
}

proof fn lemma_first_newline_step(s: Seq<char>, k: int)
    requires
        0 <= k < s.len(),
        s[k] != '\n',
    ensures
        first_newline(s.skip(k)) == 1 + first_newline(s.skip(k + 1)),
{
    assert(s.skip(k).drop_first() =~= s.skip(k + 1));
}

proof fn lemma_first_space_step(s: Seq<char>, k: int)
    requires
        0 <= k < s.len(),
        !crate::text::is_whitespace(s[k]),
    ensures
        first_space(s.skip(k)) == 1 + first_space(s.skip(k + 1)),
{
    assert(s.skip(k).drop_first() =~= s.skip(k + 1));
}

proof fn lemma_first_comma_step(s: Seq<char>, k: int)
    requires
        0 <= k < s.len(),
        s[k] != ',',
    ensures
        first_comma(s.skip(k)) == (match first_comma(s.skip(k + 1)) {
            Some(i) => Some(i + 1),
            None => None,
        }),
{
    assert(s.skip(k).drop_first() =~= s.skip(k + 1));
}

/// The first whitespace-separated word of `s`, or `0` when it has none.
fn first_word_or_zero_str(s: &str) -> (r: String)
    ensures
        r@ == first_word_or_zero(s@),
{
    let t = crate::text::trim_start_str(s);
    let n = t.unicode_len();
    if n == 0 {
        return String::from_str("0");
    }
    let mut j: usize = 0;
    assert(t@.skip(0) =~= t@);
    while j < n && !crate::text::is_whitespace_char(t.get_char(j))
        invariant
            n == t@.len(),
            j <= n,
            first_space(t@) == j + first_space(t@.skip(j as int)),
        decreases n - j,
    {
        proof {
            lemma_first_space_step(t@, j as int);
        }
        j = j + 1;
    }
    proof {
        if j < n {
            assert(t@.skip(j as int)[0] == t@[j as int]);
        } else {
            assert(t@.skip(j as int).len() == 0);
        }
    }
    t.substring_char(0, j).to_owned()
}

/// The coordinates on a line `  Position: X,Y ...` of the window tool's geometry report.
pub fn position_on_line(line: &str) -> (r: Option<(String, String)>)
    ensures
        match r {
            Some((x, y)) => line_position(line@) == Some((x@, y@)),
            None => line_position(line@) is None,
        },
{
    proof {
        reveal_strlit("  Position: ");
    }
    if !crate::text::starts_with(line, "  Position: ") {
        return None;
    }
    let n = line.unicode_len();
    let pos = line.substring_char(12, n);
    assert(pos@ =~= line@.skip(12));
    let m = pos.unicode_len();
    let mut c: usize = 0;
    assert(pos@.skip(0) =~= pos@);
    while c < m && pos.get_char(c) != ','
        invariant
            m == pos@.len(),
            c <= m,
            first_comma(pos@) == (match first_comma(pos@.skip(c as int)) {
                Some(i) => Some((i + c) as nat),
                None => None,
            }),
        decreases m - c,
    {
        proof {
            lemma_first_comma_step(pos@, c as int);
        }
        c = c + 1;
    }
    if c == m {
        assert(pos@.skip(c as int).len() == 0);
        return None;
    }
    assert(pos@.skip(c as int)[0] == ',');
    let x = crate::text::trim_str(pos.substring_char(0, c)).to_owned();
    let y = first_word_or_zero_str(pos.substring_char(c + 1, m));
    assert(pos@.subrange(0, c as int) =~= pos@.take(c as int));
    assert(pos@.subrange(c + 1, m as int) =~= pos@.skip(c + 1));
    Some((x, y))
}

/// The window position in the window tool's geometry report: the coordinates on its last
/// `  Position: X,Y` line.
pub fn position_in_geometry(output: &str) -> (r: Option<(String, String)>)
    ensures
        match r {
            Some((x, y)) => last_position(lines(output@)) == Some((x@, y@)),
            None => last_position(lines(output@)) is None,
        },
{
    let n = output.unicode_len();
    let mut found: Option<(String, String)> = None;
    let mut start: usize = 0;
    let ghost mut done: Seq<Seq<char>> = seq![];
    assert(output@.skip(0) =~= output@);
    while start < n
        invariant
            n == output@.len(),
            start <= n,
            lines(output@) == done + lines(output@.skip(start as int)),
            match found {
                Some((x, y)) => last_position(done) == Some((x@, y@)),
                None => last_position(done) is None,
            },
        decreases n - start,
    {
        let ghost rest = output@.skip(start as int);
        let mut j: usize = start;
        assert(output@.skip(j as int) =~= rest);
        while j < n && output.get_char(j) != '\n'
            invariant
                n == output@.len(),
                start <= j <= n,
                rest == output@.skip(start as int),
                first_newline(rest) == (j - start) + first_newline(output@.skip(j as int)),
            decreases n - j,
        {
            proof {
                lemma_first_newline_step(output@, j as int);
            }
            j = j + 1;
        }
        proof {
            if j < n {
                assert(output@.skip(j as int)[0] == '\n');
            } else {
                assert(output@.skip(j as int).len() == 0);
            }
        }
        let mut end = j;
        if j < n && end > start && output.get_char(end - 1) == '\r' {
            end = end - 1;
        }
        let line = output.substring_char(start, end);
        let ghost this_line = if j < n {
            strip_cr(rest.take(j - start))
        } else {
            rest
        };
        proof {
            if j < n {
                assert(rest.take(j - start) =~= output@.subrange(start as int, j as int));
                if end < j {
                    assert(line@ =~= rest.take(j - start).drop_last());
                } else {
                    assert(line@ =~= rest.take(j - start));
                }
                assert(rest.skip(j - start + 1) =~= output@.skip(j + 1));
                assert(lines(rest) == seq![this_line] + lines(output@.skip(j + 1)));
            } else {
                assert(line@ =~= rest);
                assert(lines(rest) == seq![this_line]);
            }
            assert(line@ == this_line);
        }
        match position_on_line(line) {
            Some(p) => {
                found = Some(p);
            },
            None => {},
        }
        proof {
            let d2 = done.push(this_line);
            assert(d2.drop_last() =~= done);
            assert(d2.last() == this_line);
            if j < n {
                assert(done + lines(rest) =~= d2 + lines(output@.skip(j + 1)));
            } else {
                assert(output@.skip(n as int).len() == 0);
                assert(done + lines(rest) =~= d2 + lines(output@.skip(n as int)));
            }
            done = d2;
        }
        if j < n {
            start = j + 1;
        } else {
            start = n;
        }
    }
    assert(output@.skip(n as int).len() == 0);
    assert(done + lines(output@.skip(n as int)) =~= done);
    found
}
} // verus!
