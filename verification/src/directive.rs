//! Dependency directives: lines of a source text that start with `//#`.

use crate::text::{chars_of, string_of, texts};
use vstd::prelude::*;

verus! {

/// Whether `c` is white space (the Unicode property `White_Space`).
pub open spec fn is_space(c: char) -> bool {
    let n: u32 = c as u32;
    ||| 0x09 <= n <= 0x0D
    ||| n == 0x20
    ||| n == 0x85
    ||| n == 0xA0
    ||| n == 0x1680
    ||| 0x2000 <= n <= 0x200A
    ||| n == 0x2028
    ||| n == 0x2029
    ||| n == 0x202F
    ||| n == 0x205F
    ||| n == 0x3000
}

/// `s` without its leading white space.
pub open spec fn trim_start(s: Seq<char>) -> Seq<char>
    decreases s.len(),
{
    if s.len() > 0 && is_space(s[0]) {
        trim_start(s.drop_first())
    } else {
        s
    }
}

/// Whether `s` begins with the marker `//#`.
pub open spec fn has_marker(s: Seq<char>) -> bool {
    s.len() >= 3 && s[0] == '/' && s[1] == '/' && s[2] == '#'
}

/// The directive that a line holds, if it holds one: the line is stripped of
/// leading white space, must then begin with the marker, and what follows the
/// marker is stripped of leading white space again; nothing left is no
/// directive.
pub open spec fn directive_of(line: Seq<char>) -> Option<Seq<char>> {
    let body = trim_start(line);
    if has_marker(body) {
        let rest = trim_start(body.subrange(3, body.len() as int));
        if rest.len() > 0 {
            Some(rest)
        } else {
            None
        }
    } else {
        None
    }
}

/// The first index at or after `from` that holds a line feed, or the length
/// of `s` where there is none.
pub open spec fn line_end(s: Seq<char>, from: int) -> int
    decreases s.len() - from,
{
    if from < 0 || from >= s.len() {
        s.len() as int
    } else if s[from] == '\n' {
        from
    } else {
        line_end(s, from + 1)
    }
}

/// The line that starts at `from`: it runs up to the next line feed, and a
/// carriage return directly before that line feed belongs to the line ending.
pub open spec fn line_at(s: Seq<char>, from: int) -> Seq<char> {
    let end = line_end(s, from);
    if from < end < s.len() && s[end - 1] == '\r' {
        s.subrange(from, end - 1)
    } else {
        s.subrange(from, end)
    }
}

/// The lines of `s` from index `from` on. A final line needs no line feed, and
/// nothing follows a final line feed.
pub open spec fn lines_from(s: Seq<char>, from: int) -> Seq<Seq<char>>
    decreases s.len() - from,
    via lines_from_decreases
{
    if from < 0 || from >= s.len() {
        Seq::empty()
    } else {
        let end = line_end(s, from);
        if end < s.len() {
            seq![line_at(s, from)] + lines_from(s, end + 1)
        } else {
            seq![line_at(s, from)]
        }
    }
}

#[via_fn]
proof fn lines_from_decreases(s: Seq<char>, from: int) {
    if 0 <= from < s.len() {
        lemma_line_end_bounds(s, from);
    }
}

/// The lines of a text.
pub open spec fn lines_of(s: Seq<char>) -> Seq<Seq<char>> {
    lines_from(s, 0)
}

/// Zero or one directive as a sequence.
pub open spec fn found(d: Option<Seq<char>>) -> Seq<Seq<char>> {
    match d {
        Some(t) => seq![t],
        None => Seq::empty(),
    }
}

/// The directives of the given lines, in the order of the lines.
pub open spec fn directives_in(lines: Seq<Seq<char>>) -> Seq<Seq<char>>
    decreases lines.len(),
{
    if lines.len() == 0 {
        Seq::empty()
    } else {
        found(directive_of(lines[0])) + directives_in(lines.drop_first())
    }
}

/// The directives of one text.
pub open spec fn directives_of_text(s: Seq<char>) -> Seq<Seq<char>> {
    directives_in(lines_of(s))
}

/// The directives of several texts: those of the first text, then those of
/// the second, and so on.
pub open spec fn directives_of_files(files: Seq<Seq<char>>) -> Seq<Seq<char>>
    decreases files.len(),
{
    if files.len() == 0 {
        Seq::empty()
    } else {
        directives_of_text(files[0]) + directives_of_files(files.drop_first())
    }
}

/// `line_end` stays within the text and never moves backwards.
pub proof fn lemma_line_end_bounds(s: Seq<char>, from: int)
    requires
        0 <= from <= s.len(),
    ensures
        from <= line_end(s, from) <= s.len(),
    decreases s.len() - from,
{
    if from < s.len() && s[from] != '\n' {
        lemma_line_end_bounds(s, from + 1);
    }
}

/// A directive never starts with white space and is never empty.
pub proof fn lemma_directive_is_trimmed(line: Seq<char>)
    ensures
        match directive_of(line) {
            Some(d) => d.len() > 0 && !is_space(d[0]),
            None => true,
        },
{
    let body = trim_start(line);
    if has_marker(body) {
        lemma_trim_start_is_trimmed(body.subrange(3, body.len() as int));
    }
}

/// What `trim_start` returns is empty or starts with a character that is no
/// white space, and it is a suffix of its argument.
pub proof fn lemma_trim_start_is_trimmed(s: Seq<char>)
    ensures
        trim_start(s).len() > 0 ==> !is_space(trim_start(s)[0]),
        trim_start(s).len() <= s.len(),
        trim_start(s) == s.subrange(s.len() - trim_start(s).len(), s.len() as int),
    decreases s.len(),
{
    if s.len() > 0 && is_space(s[0]) {
        lemma_trim_start_is_trimmed(s.drop_first());
        let t = trim_start(s);
        assert(t =~= s.subrange(s.len() - t.len(), s.len() as int));
    } else {
        assert(s =~= s.subrange(0, s.len() as int));
    }
}

/// The directives of lines put one after the other are the directives of
/// the first lines followed by those of the second: order is kept and nothing
/// is merged.
pub proof fn lemma_directives_in_concat(a: Seq<Seq<char>>, b: Seq<Seq<char>>)
    ensures
        directives_in(a + b) == directives_in(a) + directives_in(b),
    decreases a.len(),
{
    if a.len() == 0 {
        assert(a + b =~= b);
        assert(directives_in(a) + directives_in(b) =~= directives_in(b));
    } else {
        assert((a + b).drop_first() =~= a.drop_first() + b);
        assert((a + b)[0] == a[0]);
        lemma_directives_in_concat(a.drop_first(), b);
        assert(directives_in(a + b) =~= directives_in(a) + directives_in(b));
    }
}

/// The directives of files put one after the other are the directives of the
/// first files followed by those of the second.
pub proof fn lemma_directives_of_files_concat(a: Seq<Seq<char>>, b: Seq<Seq<char>>)
    ensures
        directives_of_files(a + b) == directives_of_files(a) + directives_of_files(b),
    decreases a.len(),
{
    if a.len() == 0 {
        assert(a + b =~= b);
        assert(directives_of_files(a) + directives_of_files(b) =~= directives_of_files(b));
    } else {
        assert((a + b).drop_first() =~= a.drop_first() + b);
        assert((a + b)[0] == a[0]);
        lemma_directives_of_files_concat(a.drop_first(), b);
        assert(directives_of_files(a + b) =~= directives_of_files(a) + directives_of_files(b));
    }
}

/// Every directive of a sequence of lines is one of a line: it is not empty
/// and does not start with white space.
pub proof fn lemma_directives_are_trimmed(lines: Seq<Seq<char>>, i: int)
    requires
        0 <= i < directives_in(lines).len(),
    ensures
        directives_in(lines)[i].len() > 0,
        !is_space(directives_in(lines)[i][0]),
    decreases lines.len(),
{
    lemma_directive_is_trimmed(lines[0]);
    let head = found(directive_of(lines[0]));
    if i >= head.len() {
        lemma_directives_are_trimmed(lines.drop_first(), i - head.len());
    }
}

/// Whether `c` is white space.
pub fn is_whitespace(c: char) -> (b: bool)
    ensures
        b == is_space(c),
{
    let n: u32 = c as u32;
    (0x09 <= n && n <= 0x0D) || n == 0x20 || n == 0x85 || n == 0xA0 || n == 0x1680 || (0x2000 <= n
        && n <= 0x200A) || n == 0x2028 || n == 0x2029 || n == 0x202F || n == 0x205F || n == 0x3000
}

/// The index at which `line[from..]` stops being white space.
fn skip_spaces(line: &Vec<char>, from: usize) -> (i: usize)
    requires
        from <= line.len(),
    ensures
        from <= i <= line.len(),
        line@.subrange(i as int, line.len() as int) == trim_start(
            line@.subrange(from as int, line.len() as int),
        ),
{
    let n = line.len();
    let mut i: usize = from;
    while i < n && is_whitespace(line[i])
        invariant
            n == line.len(),
            from <= i <= n,
            trim_start(line@.subrange(i as int, n as int)) == trim_start(
                line@.subrange(from as int, n as int),
            ),
        decreases n - i,
    {
        assert(line@.subrange(i as int, n as int).drop_first() =~= line@.subrange(
            i as int + 1,
            n as int,
        ));
        i += 1;
    }
    i
}

/// The directive that `line` holds, if any.
pub fn directive_in(line: &Vec<char>) -> (r: Option<String>)
    ensures
        match r {
            Some(d) => directive_of(line@) == Some(d@),
            None => directive_of(line@) is None,
        },
{
    let n = line.len();
    let a = skip_spaces(line, 0);
    assert(line@.subrange(0, n as int) =~= line@);
    let ghost body = line@.subrange(a as int, n as int);
    if n - a >= 3 && line[a] == '/' && line[a + 1] == '/' && line[a + 2] == '#' {
        assert(has_marker(body));
        let b = skip_spaces(line, a + 3);
        assert(body.subrange(3, body.len() as int) =~= line@.subrange(a as int + 3, n as int));
        if b < n {
            Some(string_of(line, b, n))
        } else {
            None
        }
    } else {
        assert(!has_marker(body));
        None
    }
}

/// The index of the line feed that ends the line starting at `from`, or the
/// length of the text.
fn find_line_end(chars: &Vec<char>, from: usize) -> (end: usize)
    requires
        from <= chars.len(),
    ensures
        from <= end <= chars.len(),
        end == line_end(chars@, from as int),
{
    let n = chars.len();
    let mut i: usize = from;
    while i < n && chars[i] != '\n'
        invariant
            n == chars.len(),
            from <= i <= n,
            line_end(chars@, i as int) == line_end(chars@, from as int),
        decreases n - i,
    {
        i += 1;
    }
    i
}

/// A copy of `chars[from..to]`.
fn copy_range(chars: &Vec<char>, from: usize, to: usize) -> (r: Vec<char>)
    requires
        from <= to <= chars.len(),
    ensures
        r@ == chars@.subrange(from as int, to as int),
{
    let mut out: Vec<char> = Vec::new();
    let mut i: usize = from;
    while i < to
        invariant
            from <= i <= to <= chars.len(),
            out@ =~= chars@.subrange(from as int, i as int),
        decreases to - i,
    {
        out.push(chars[i]);
        i += 1;
    }
    out
}

/// Appends the directives of `text` to `out`.
pub fn extract_from_text(text: &str, out: &mut Vec<String>)
    ensures
        texts(final(out)@) == texts(old(out)@) + directives_of_text(text@),
{
    let chars = chars_of(text);
    let n = chars.len();
    let ghost s = chars@;
    let mut pos: usize = 0;
    while pos < n
        invariant
            n == chars.len(),
            s == chars@,
            pos <= n,
            texts(out@) + directives_in(lines_from(s, pos as int)) =~= texts(old(out)@)
                + directives_in(lines_from(s, 0)),
        decreases n - pos,
    {
        let end = find_line_end(&chars, pos);
        let stop = if pos < end && end < n && chars[end - 1] == '\r' {
            end - 1
        } else {
            end
        };
        let line = copy_range(&chars, pos, stop);
        assert(line@ == line_at(s, pos as int));
        let ghost rest = lines_from(s, if end < n { end as int + 1 } else { n as int });
        proof {
            let all = lines_from(s, pos as int);
            assert(all =~= seq![line@] + rest);
            assert(all.drop_first() =~= rest);
            assert(directives_in(all) == found(directive_of(line@)) + directives_in(rest));
        }
        let ghost before = texts(out@);
        match directive_in(&line) {
            Some(d) => {
                out.push(d);
                assert(texts(out@) =~= before + found(directive_of(line@)));
            },
            None => {
                assert(texts(out@) =~= before + found(directive_of(line@)));
            },
        }
        pos = if end < n {
            end + 1
        } else {
            n
        };
        assert(lines_from(s, pos as int) == rest);
    }
    assert(directives_in(lines_from(s, pos as int)) =~= Seq::<Seq<char>>::empty());
}

/// The dependency directives of the given source texts: for each text in
/// turn, and for each of its lines from top to bottom, the directive that the
/// line holds. Nothing is dropped but empty directives, and nothing is
/// reordered or merged.
pub fn extract_headers(files: &[String]) -> (r: Vec<String>)
    ensures
        texts(r@) == directives_of_files(texts(files@)),
{
    let mut out: Vec<String> = Vec::new();
    let n = files.len();
    let ghost all = texts(files@);
    let mut i: usize = 0;
    assert(all.subrange(0, n as int) =~= all);
    while i < n
        invariant
            n == files.len(),
            all == texts(files@),
            i <= n,
            texts(out@) + directives_of_files(all.subrange(i as int, n as int))
                =~= directives_of_files(all),
        decreases n - i,
    {
        proof {
            let tail = all.subrange(i as int, n as int);
            assert(tail.drop_first() =~= all.subrange(i as int + 1, n as int));
            assert(tail[0] == files@[i as int]@);
        }
        extract_from_text(files[i].as_str(), &mut out);
        i += 1;
    }
    out
}

} // verus!
