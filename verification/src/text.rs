use vstd::prelude::*;

verus! {

/// The character of the decimal digit `d` (0 through 9).
pub open spec fn digit_char(d: nat) -> char {
    (48 + d) as char
}

/// Decimal notation of a natural number, most significant digit first, no leading zeros.
pub open spec fn nat_decimal(n: nat) -> Seq<char>
    decreases n,
{
    if n < 10 {
        seq![digit_char(n)]
    } else {
        nat_decimal(n / 10).push(digit_char(n % 10))
    }
}

/// Decimal notation of an integer as `Display` writes it: a leading `-` for negatives only.
pub open spec fn int_decimal(i: int) -> Seq<char> {
    if i < 0 {
        seq!['-'] + nat_decimal((-i) as nat)
    } else {
        nat_decimal(i as nat)
    }
}

/// Appends one character to a string (std `String::push`).
#[verifier::external_body]
pub(crate) fn push_char(s: &mut String, c: char)
    ensures
        final(s)@ == old(s)@.push(c),
{
    s.push(c);
}

/// Appends the decimal notation of `n`.
pub fn push_decimal_u64(s: &mut String, n: u64)
    ensures
        final(s)@ == old(s)@ + nat_decimal(n as nat),
    decreases n,
{
    if n >= 10 {
        push_decimal_u64(s, n / 10);
    }
    let d: u8 = (n % 10) as u8;
    let c: char = (48u8 + d) as char;
    push_char(s, c);
    proof {
        if n >= 10 {
            assert(nat_decimal(n as nat) == nat_decimal((n / 10) as nat).push(digit_char((n % 10) as nat)));
        }
        assert(old(s)@ + nat_decimal(n as nat) =~= final(s)@);
    }
}

} // verus!

verus! {

/// Appends the decimal notation of `v`, as `Display` for `i64` writes it.
pub fn push_decimal_i64(s: &mut String, v: i64)
    ensures
        final(s)@ == old(s)@ + int_decimal(v as int),
{
    if v < 0 {
        push_char(s, '-');
        let magnitude: u64 = (0i128 - (v as i128)) as u64;
        push_decimal_u64(s, magnitude);
        assert(final(s)@ =~= old(s)@ + int_decimal(v as int));
    } else {
        push_decimal_u64(s, v as u64);
    }
}

/// Whether a character has the Unicode White_Space property (what `char::is_whitespace`
/// answers): tab through carriage return, space, next line, no-break space, ogham space mark,
/// the spaces from en quad to hair space, line and paragraph separators, narrow no-break
/// space, medium mathematical space and ideographic space.
pub open spec fn is_white_space(c: char) -> bool {
    let u = c as u32;
    ||| 0x09 <= u <= 0x0d
    ||| u == 0x20
    ||| u == 0x85
    ||| u == 0xa0
    ||| u == 0x1680
    ||| 0x2000 <= u <= 0x200a
    ||| u == 0x2028
    ||| u == 0x2029
    ||| u == 0x202f
    ||| u == 0x205f
    ||| u == 0x3000
}

/// The text without its leading white space.
pub open spec fn trim_start_spec(s: Seq<char>) -> Seq<char>
    decreases s.len(),
{
    if s.len() > 0 && is_white_space(s[0]) {
        trim_start_spec(s.drop_first())
    } else {
        s
    }
}

/// The text without its trailing white space.
pub open spec fn trim_end_spec(s: Seq<char>) -> Seq<char>
    decreases s.len(),
{
    if s.len() > 0 && is_white_space(s.last()) {
        trim_end_spec(s.drop_last())
    } else {
        s
    }
}

/// The text without its leading and trailing white space.
pub open spec fn trimmed(s: Seq<char>) -> Seq<char> {
    trim_end_spec(trim_start_spec(s))
}

/// `str::trim`: the text with leading and trailing characters of the Unicode White_Space
/// property removed.
#[verifier::external_body]
pub(crate) fn trim_text(s: &str) -> (res: &str)
    ensures
        res@ == trimmed(s@),
{
    s.trim()
}

/// What `str::to_lowercase` gives for a text.
pub uninterp spec fn lowercased(s: Seq<char>) -> Seq<char>;

/// `str::to_lowercase`: the lowercase equivalent of the text, as a new string.
#[verifier::external_body]
pub(crate) fn lowercase_text(s: &str) -> (res: String)
    ensures
        res@ == lowercased(s@),
{
    s.to_lowercase()
}

/// Whether `needle` occurs in `hay` as a contiguous part.
pub open spec fn occurs_in(hay: Seq<char>, needle: Seq<char>) -> bool {
    exists|i: int| 0 <= i <= hay.len() - needle.len() && #[trigger] hay.subrange(i, i + needle.len()) == needle
}

/// The characters of a text, one by one.
pub fn chars_of(s: &str) -> (v: Vec<char>)
    ensures
        v@ == s@,
{
    let mut v: Vec<char> = Vec::new();
    for c in it: s.chars()
        invariant
            it.seq() == s@,
            v@ == s@.take(it.index() as int),
    {
        v.push(c);
        assert(v@ =~= s@.take(it.index() as int + 1));
    }
    assert(s@.take(s@.len() as int) =~= s@);
    v
}

/// Whether `needle` occurs in `hay` (what `str::contains` with a text pattern answers).
pub fn contains_seq(hay: &Vec<char>, needle: &Vec<char>) -> (found: bool)
    ensures
        found == occurs_in(hay@, needle@),
{
    if needle.len() > hay.len() {
        return false;
    }
    if needle.len() == 0 {
        assert(hay@.subrange(0, 0 + needle@.len() as int) =~= needle@);
        return true;
    }
    let n: usize = hay.len();
    let last: usize = n - needle.len();
    let mut i: usize = 0;
    while i <= last
        invariant
            needle@.len() >= 1,
            n == hay@.len(),
            last + needle@.len() == hay@.len(),
            i <= last + 1,
            forall|k: int| 0 <= k < i ==> #[trigger] hay@.subrange(k, k + needle@.len()) != needle@,
        decreases last + 1 - i,
    {
        let mut j: usize = 0;
        let mut same: bool = true;
        while j < needle.len()
            invariant
                i <= last,
                n == hay@.len(),
                last + needle@.len() == hay@.len(),
                j <= needle@.len(),
                same == (forall|m: int| 0 <= m < j ==> hay@[i + m] == needle@[m]),
            decreases needle@.len() - j,
        {
            if hay[i + j] != needle[j] {
                same = false;
            }
            j = j + 1;
        }
        if same {
            assert(hay@.subrange(i as int, i + needle@.len()) =~= needle@);
            return true;
        }
        assert(hay@.subrange(i as int, i + needle@.len()) != needle@) by {
            let m = choose|m: int| 0 <= m < needle@.len() && hay@[i + m] != needle@[m];
            assert(hay@.subrange(i as int, i + needle@.len())[m] == hay@[i + m]);
        }
        i = i + 1;
    }
    false
}

/// A line as `str::lines` yields it: the text before a `'\n'`, without one `'\r'` directly before it.
pub open spec fn strip_cr(line: Seq<char>) -> Seq<char> {
    if line.len() > 0 && line.last() == '\r' {
        line.drop_last()
    } else {
        line
    }
}

/// The lines of `rest`, given the part `cur` of the current line already read:
/// each `'\n'` ends a line, a final line needs no `'\n'`, and an empty final line is no line.
pub open spec fn lines_from(cur: Seq<char>, rest: Seq<char>) -> Seq<Seq<char>>
    decreases rest.len(),
{
    if rest.len() == 0 {
        if cur.len() == 0 {
            seq![]
        } else {
            seq![cur]
        }
    } else if rest[0] == '\n' {
        seq![strip_cr(cur)] + lines_from(seq![], rest.drop_first())
    } else {
        lines_from(cur.push(rest[0]), rest.drop_first())
    }
}

/// The lines of a text, as `str::lines` splits it.
pub open spec fn lines_of(s: Seq<char>) -> Seq<Seq<char>> {
    lines_from(seq![], s)
}

/// Number of lines of `content` (what `content.lines().count()` gives).
pub fn count_lines(content: &str) -> (n: usize)
    ensures
        n == lines_of(content@).len(),
{
    let total: usize = content.unicode_len();
    let mut done: usize = 0;
    let mut cur_empty: bool = true;
    let ghost mut cur: Seq<char> = seq![];
    assert(content@.skip(0) =~= content@);
    for c in it: content.chars()
        invariant
            it.seq() == content@,
            cur_empty == (cur.len() == 0),
            done + cur.len() <= it.index(),
            it.index() <= total,
            total == content@.len(),
            lines_of(content@).len() == done + lines_from(cur, content@.skip(it.index() as int)).len(),
    {
        let ghost i = it.index() as int;
        assert(content@.skip(i).drop_first() =~= content@.skip(i + 1));
        if c == '\n' {
            done = done + 1;
            cur_empty = true;
            proof { cur = seq![]; }
        } else {
            cur_empty = false;
            proof { cur = cur.push(c); }
        }
    }
    if !cur_empty {
        done = done + 1;
    }
    done
}

/// The views of a sequence of strings.
pub open spec fn views(v: Seq<String>) -> Seq<Seq<char>> {
    v.map_values(|l: String| l@)
}

/// The lines of `content`, as `content.lines()` yields them.
pub fn split_lines(content: &str) -> (lines: Vec<String>)
    ensures
        views(lines@) == lines_of(content@),
{
    let mut out: Vec<String> = Vec::new();
    let mut line: String = String::new();
    let mut pending_cr: bool = false;
    let ghost mut cur: Seq<char> = seq![];
    assert(content@.skip(0) =~= content@);
    assert(views(out@) =~= seq![]);
    for c in it: content.chars()
        invariant
            it.seq() == content@,
            pending_cr == (cur.len() > 0 && cur.last() == '\r'),
            cur == (if pending_cr { line@.push('\r') } else { line@ }),
            lines_of(content@) == views(out@) + lines_from(cur, content@.skip(it.index() as int)),
    {
        let ghost i = it.index() as int;
        assert(content@.skip(i).drop_first() =~= content@.skip(i + 1));
        let ghost before = views(out@);
        if c == '\n' {
            proof {
                assert(strip_cr(cur) == line@);
            }
            let done = line;
            out.push(done);
            line = String::new();
            pending_cr = false;
            proof {
                assert(views(out@) =~= before.push(strip_cr(cur)));
                cur = seq![];
            }
        } else {
            if pending_cr {
                push_char(&mut line, '\r');
            }
            if c == '\r' {
                pending_cr = true;
            } else {
                pending_cr = false;
                push_char(&mut line, c);
            }
            proof {
                cur = cur.push(c);
                assert(cur =~= (if pending_cr { line@.push('\r') } else { line@ }));
            }
        }
    }
    assert(content@.skip(content@.len() as int) =~= Seq::<char>::empty());
    if pending_cr {
        push_char(&mut line, '\r');
    }
    if !line.as_str().is_empty() {
        let ghost before = views(out@);
        out.push(line);
        assert(views(out@) =~= before.push(cur));
    } else {
        assert(cur.len() == 0);
    }
    out
}

/// Counting the lines of a text and splitting it into lines agree: there are as many lines
/// split off as `count_lines` counts.
pub proof fn split_length_is_line_count(content: Seq<char>, lines: Seq<String>)
    requires
        views(lines) == lines_of(content),
    ensures
        lines.len() == lines_of(content).len(),
{
    assert(views(lines).len() == lines.len());
}

/// A text that fits on one line: no line break in it, and no carriage return at its end that
/// a following line break would swallow.
pub open spec fn fits_one_line(t: Seq<char>) -> bool {
    &&& forall|i: int| 0 <= i < t.len() ==> t[i] != '\n'
    &&& !(t.len() > 0 && t.last() == '\r')
}

/// Reading a stretch without line breaks only extends the line being read.
pub proof fn lines_across_unbroken(cur: Seq<char>, t: Seq<char>, rest: Seq<char>)
    requires
        forall|i: int| 0 <= i < t.len() ==> t[i] != '\n',
    ensures
        lines_from(cur, t + rest) == lines_from(cur + t, rest),
    decreases t.len(),
{
    if t.len() == 0 {
        assert(t + rest =~= rest);
        assert(cur + t =~= cur);
    } else {
        assert((t + rest)[0] == t[0]);
        assert((t + rest).drop_first() =~= t.drop_first() + rest);
        lines_across_unbroken(cur.push(t[0]), t.drop_first(), rest);
        assert(cur.push(t[0]) + t.drop_first() =~= cur + t);
    }
}

/// Reading a stretch that ends with a line break completes every line in it; what follows
/// is read afresh.
proof fn lines_across_complete(cur: Seq<char>, t: Seq<char>, rest: Seq<char>)
    requires
        t.len() > 0,
        t.last() == '\n',
    ensures
        lines_from(cur, t + rest) == lines_from(cur, t) + lines_from(seq![], rest),
    decreases t.len(),
{
    assert((t + rest)[0] == t[0]);
    assert((t + rest).drop_first() =~= t.drop_first() + rest);
    if t[0] == '\n' {
        if t.len() == 1 {
            assert(t.drop_first() + rest =~= rest);
            assert(lines_from(seq![], t.drop_first()) == Seq::<Seq<char>>::empty());
            assert(lines_from(cur, t) =~= seq![strip_cr(cur)]);
        } else {
            lines_across_complete(seq![], t.drop_first(), rest);
        }
        assert(lines_from(cur, t + rest) =~= lines_from(cur, t) + lines_from(seq![], rest));
    } else {
        assert(t.drop_first().last() == '\n');
        lines_across_complete(cur.push(t[0]), t.drop_first(), rest);
    }
}

/// A record written as one line of a text: the record and a line break.
pub fn frame_line(record: &str) -> (line: String)
    ensures
        line@ == record@.push('\n'),
{
    let mut line = String::from_str(record);
    push_char(&mut line, '\n');
    line
}

/// A record that fits one line, written after whole lines, is read back as one more line:
/// the lines of the text grow by exactly that record, and the text again ends a line.
pub proof fn appended_line_reads_back(content: Seq<char>, record: Seq<char>)
    requires
        fits_one_line(record),
        record.len() > 0,
        content.len() == 0 || content.last() == '\n',
    ensures
        lines_of(content + record.push('\n')) == lines_of(content).push(record),
        (content + record.push('\n')).last() == '\n',
{
    let tail = record.push('\n');
    assert(tail =~= record + seq!['\n']);
    lines_across_unbroken(seq![], record, seq!['\n']);
    assert(Seq::<char>::empty() + record =~= record);
    assert(seq!['\n'].drop_first() =~= Seq::<char>::empty());
    assert(lines_from(record, seq!['\n']) =~= seq![strip_cr(record)] + lines_from(seq![], Seq::<char>::empty()));
    assert(strip_cr(record) == record);
    assert(lines_from(seq![], tail) =~= seq![record]);
    if content.len() == 0 {
        assert(content + tail =~= tail);
        assert(lines_of(content) =~= Seq::<Seq<char>>::empty());
    } else {
        lines_across_complete(seq![], content, tail);
    }
    assert((content + tail).last() == tail.last());
}

} // verus!
