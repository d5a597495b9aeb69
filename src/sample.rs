//! Samples: the rows of a process snapshot, and how they are read from text.
use vstd::prelude::*;
use vstd::string::*;
use crate::text::chars_of;

verus! {

/// A non-negative decimal number as written: `mantissa / 10^scale`, where
/// `scale` is the number of digits written after the point.
#[derive(Debug, Clone, Copy, PartialEq, Eq, Structural)]
pub struct Decimal {
    pub mantissa: u64,
    pub scale: usize,
}

pub open spec fn is_digit(c: char) -> bool {
    '0' <= c && c <= '9'
}

pub open spec fn all_digits(s: Seq<char>) -> bool {
    forall|i: int| 0 <= i < s.len() ==> is_digit(#[trigger] s[i])
}

pub open spec fn digit_value(c: char) -> nat {
    (c as nat - '0' as nat) as nat
}

/// The number that the decimal digits `s` spell, most significant first.
pub open spec fn digits_value(s: Seq<char>) -> nat
    decreases s.len(),
{
    if s.len() == 0 {
        0
    } else {
        digits_value(s.drop_last()) * 10 + digit_value(s.last())
    }
}

/// Where the first `.` of `s` stands, or `s.len()` if it has none.
pub open spec fn point_index(s: Seq<char>) -> nat
    decreases s.len(),
{
    if s.len() == 0 {
        0
    } else if s[0] == '.' {
        0
    } else {
        1 + point_index(s.drop_first())
    }
}

/// The value of `s` read as digits, optionally followed by a point and more
/// digits (`12`, `0.5`; not `.5`, `5.`, `-1` or `1e3`), when the digits with
/// the point left out fit in a `u64`.
pub open spec fn decimal_of(s: Seq<char>) -> Option<Decimal> {
    let p = point_index(s) as int;
    let whole = s.take(p);
    let frac = if p < s.len() { s.skip(p + 1) } else { Seq::<char>::empty() };
    if whole.len() > 0 && all_digits(whole) && (p == s.len() || (frac.len() > 0 && all_digits(frac)))
        && digits_value(whole + frac) <= u64::MAX {
        Some(Decimal { mantissa: digits_value(whole + frac) as u64, scale: frac.len() as usize })
    } else {
        None
    }
}

proof fn lemma_digits_value_prefix(s: Seq<char>, k: int)
    requires
        0 <= k <= s.len(),
    ensures
        digits_value(s.take(k)) <= digits_value(s),
    decreases s.len() - k,
{
    if k < s.len() {
        lemma_digits_value_prefix(s, k + 1);
        assert(s.take(k + 1).drop_last() == s.take(k));
    } else {
        assert(s.take(k) == s);
    }
}

proof fn lemma_point_index_unique(s: Seq<char>, p: int)
    requires
        0 <= p <= s.len(),
        p < s.len() ==> s[p] == '.',
        forall|i: int| 0 <= i < p ==> s[i] != '.',
    ensures
        point_index(s) == p,
    decreases s.len(),
{
    if s.len() > 0 && p > 0 {
        assert(s[0] != '.');
        let t = s.drop_first();
        assert forall|i: int| 0 <= i < p - 1 implies t[i] != '.' by {
            assert(t[i] == s[i + 1]);
        }
        lemma_point_index_unique(t, p - 1);
    }
}

/// Reads the decimal written in `chars[start..end]`.
pub fn parse_decimal(chars: &Vec<char>, start: usize, end: usize) -> (r: Option<Decimal>)
    requires
        start <= end <= chars.len(),
    ensures
        r == decimal_of(chars@.subrange(start as int, end as int)),
{
    let ghost s = chars@.subrange(start as int, end as int);
    // find the point
    let mut p: usize = start;
    while p < end && chars[p] != '.'
        invariant
            start <= p <= end <= chars.len(),
            s == chars@.subrange(start as int, end as int),
            forall|i: int| 0 <= i < p - start ==> s[i] != '.',
        decreases end - p,
    {
        p = p + 1;
    }
    proof {
        lemma_point_index_unique(s, p - start);
    }
    let ghost whole = s.take(p - start);
    let ghost frac = if p < end { s.skip(p - start + 1) } else { Seq::<char>::empty() };
    if p == start {
        return None;
    }
    let frac_start: usize = if p < end { p + 1 } else { end };
    if p < end && frac_start == end {
        return None;
    }
    assert(frac == chars@.subrange(frac_start as int, end as int));
    assert(whole == chars@.subrange(start as int, p as int));
    let ghost digits = whole + frac;
    // read the digits before the point, then those after it
    let mut m: u64 = 0;
    let mut i: usize = start;
    let mut scale: usize = 0;
    while i < end
        invariant
            start <= i <= end <= chars.len(),
            start < p <= end,
            frac_start == (if p < end { p + 1 } else { end as int }),
            s == chars@.subrange(start as int, end as int),
            whole == chars@.subrange(start as int, p as int),
            frac == chars@.subrange(frac_start as int, end as int),
            digits == whole + frac,
            point_index(s) == p - start,
            s.len() == end - start,
            s.take(point_index(s) as int) == whole,
            frac == (if (point_index(s) as int) < s.len() { s.skip(point_index(s) as int + 1) } else { Seq::<char>::empty() }),
            i <= p || frac_start <= i,
            i <= p ==> all_digits(chars@.subrange(start as int, i as int)),
            i <= p ==> m == digits_value(digits.take(i - start)),
            i > p ==> all_digits(whole),
            i > p ==> all_digits(chars@.subrange(frac_start as int, i as int)),
            i > p ==> m == digits_value(digits.take(whole.len() + i - frac_start)),
            i > p ==> scale == i - frac_start,
            i <= p ==> scale == 0,
        decreases end - i,
    {
        if i == p {
            i = frac_start;
            assert(chars@.subrange(frac_start as int, i as int) =~= Seq::<char>::empty());
            assert(whole =~= chars@.subrange(start as int, p as int));
            assert(digits.take(whole.len() as int) =~= digits.take(p - start));
        } else {
            let c = chars[i];
            let ghost k: int = if i < p { i - start } else { whole.len() + i - frac_start };
            assert(digits[k] == c);
            if !('0' <= c && c <= '9') {
                proof {
                    if i < p {
                        assert(whole[i - start] == c);
                        assert(!is_digit(whole[i - start]));
                    } else {
                        assert(frac[i - frac_start] == c);
                        assert(!is_digit(frac[i - frac_start]));
                    }
                }
                return None;
            }
            assert(digits.take(k + 1).drop_last() =~= digits.take(k));
            let d = (c as u32 - '0' as u32) as u64;
            proof {
                lemma_digits_value_prefix(digits, k + 1);
                assert(digits_value(digits.take(k + 1)) == m * 10 + d);
            }
            match m.checked_mul(10) {
                Some(m10) => match m10.checked_add(d) {
                    Some(next) => {
                        m = next;
                    }
                    None => {
                        assert(digits_value(digits) > u64::MAX);
                        return None;
                    }
                },
                None => {
                    assert(digits_value(digits) > u64::MAX);
                    return None;
                }
            }
            if i >= frac_start && i > p {
                scale = scale + 1;
            }
            i = i + 1;
            if i <= p {
                assert(chars@.subrange(start as int, i as int) =~= chars@.subrange(start as int, i - 1).push(c));
            } else {
                assert(chars@.subrange(frac_start as int, i as int) =~= chars@.subrange(frac_start as int, i - 1).push(c));
            }
        }
    }
    assert(digits.take(digits.len() as int) =~= digits);
    Some(Decimal { mantissa: m, scale })
}


/// Characters that separate the words of a line: the Unicode White_Space
/// characters (tab to carriage return, space, next line, no-break space, the
/// Ogham space mark, the en quad to hair spaces, the line and paragraph
/// separators, narrow no-break, medium mathematical and ideographic spaces).
pub open spec fn is_blank(c: char) -> bool {
    ('\t' <= c && c <= '\r') || c == ' ' || c == '\u{85}' || c == '\u{a0}' || c == '\u{1680}'
        || ('\u{2000}' <= c && c <= '\u{200a}') || c == '\u{2028}' || c == '\u{2029}' || c == '\u{202f}'
        || c == '\u{205f}' || c == '\u{3000}'
}

fn blank(c: char) -> (r: bool)
    ensures
        r == is_blank(c),
{
    ('\t' <= c && c <= '\r') || c == ' ' || c == '\u{85}' || c == '\u{a0}' || c == '\u{1680}'
        || ('\u{2000}' <= c && c <= '\u{200a}') || c == '\u{2028}' || c == '\u{2029}' || c == '\u{202f}'
        || c == '\u{205f}' || c == '\u{3000}'
}

/// The lines of `s`: the pieces between line feeds, in order. A text ending in
/// a line feed ends with an empty line.
pub open spec fn lines(s: Seq<char>) -> Seq<Seq<char>>
    decreases s.len(),
{
    if s.len() == 0 {
        seq![Seq::<char>::empty()]
    } else {
        let prev = lines(s.drop_last());
        if s.last() == '\n' {
            prev.push(Seq::<char>::empty())
        } else {
            prev.update(prev.len() - 1, prev.last().push(s.last()))
        }
    }
}

/// The words of `s`: its longest runs of characters that are not blank, in order.
pub open spec fn words(s: Seq<char>) -> Seq<Seq<char>>
    decreases s.len(),
{
    if s.len() == 0 {
        Seq::<Seq<char>>::empty()
    } else {
        let prev = words(s.drop_last());
        let c = s.last();
        if is_blank(c) {
            prev
        } else if s.len() > 1 && !is_blank(s[s.len() - 2]) {
            prev.update(prev.len() - 1, prev.last().push(c))
        } else {
            prev.push(seq![c])
        }
    }
}

/// The words `ws` written one after another with a single space between them.
pub open spec fn join_words(ws: Seq<Seq<char>>) -> Seq<char>
    decreases ws.len(),
{
    if ws.len() == 0 {
        Seq::<char>::empty()
    } else if ws.len() == 1 {
        ws[0]
    } else {
        join_words(ws.drop_last()) + " "@ + ws.last()
    }
}

/// The words of `ws` from position `k` on (none if `k` is past the end).
pub open spec fn words_from(ws: Seq<Seq<char>>, k: int) -> Seq<Seq<char>> {
    if k < ws.len() { ws.subrange(k, ws.len() as int) } else { Seq::<Seq<char>>::empty() }
}

/// Where each field of a sample stands among the words of a snapshot line,
/// and how many words a line needs before it is read at all.
#[derive(Debug, Clone, Copy, PartialEq, Eq, Structural)]
pub struct SampleFormat {
    /// Lines with fewer words (headers, truncated output) are skipped.
    pub min_tokens: usize,
    /// Position of the word naming the owner of the process.
    pub owner: usize,
    /// Position of the processor share, in percent.
    pub cpu: usize,
    /// Position of the memory share, in percent.
    pub memory: usize,
    /// Position of the first word of the command line; it runs to the end of the line.
    pub command: usize,
}

impl SampleFormat {
    /// A layout is well formed when the owner and both shares stand within
    /// the first `min_tokens` words, so that every line long enough to be read
    /// has them.
    pub open spec fn wf(&self) -> bool {
        self.owner < self.min_tokens && self.cpu < self.min_tokens && self.memory < self.min_tokens
    }

    /// The layout with these positions, if it is well formed.
    pub fn new(min_tokens: usize, owner: usize, cpu: usize, memory: usize, command: usize) -> (r: Option<SampleFormat>)
        ensures
            r matches Some(f) ==> f == (SampleFormat { min_tokens, owner, cpu, memory, command }),
            r is Some <==> (SampleFormat { min_tokens, owner, cpu, memory, command }).wf(),
    {
        if owner < min_tokens && cpu < min_tokens && memory < min_tokens {
            Some(SampleFormat { min_tokens, owner, cpu, memory, command })
        } else {
            None
        }
    }

    /// The layout of `ps aux`: owner first, processor and memory shares third
    /// and fourth, the command from the eleventh word on; shorter lines are
    /// skipped.
    pub fn ps_aux() -> (r: SampleFormat)
        ensures
            r == (SampleFormat { min_tokens: 11, owner: 0, cpu: 2, memory: 3, command: 10 }),
            r.wf(),
    {
        SampleFormat { min_tokens: 11, owner: 0, cpu: 2, memory: 3, command: 10 }
    }
}

/// One row of a snapshot.
#[derive(Debug, Clone, PartialEq, Eq)]
pub struct Sample {
    pub owner: String,
    pub cpu_percent: Decimal,
    pub memory_percent: Decimal,
    pub command_line: String,
}

/// What a `Sample` holds, as values.
pub struct SampleView {
    pub owner: Seq<char>,
    pub cpu_percent: Decimal,
    pub memory_percent: Decimal,
    pub command_line: Seq<char>,
}

impl View for Sample {
    type V = SampleView;

    open spec fn view(&self) -> SampleView {
        SampleView {
            owner: self.owner@,
            cpu_percent: self.cpu_percent,
            memory_percent: self.memory_percent,
            command_line: self.command_line@,
        }
    }
}

/// The sample that a line with words `ws` gives, if any: the line has at least
/// `min_tokens` words and a word at each field's position, and both shares
/// read as decimals.
pub open spec fn sample_of(format: SampleFormat, ws: Seq<Seq<char>>) -> Option<SampleView> {
    if ws.len() >= format.min_tokens && format.owner < ws.len() && format.cpu < ws.len()
        && format.memory < ws.len() {
        match (decimal_of(ws[format.cpu as int]), decimal_of(ws[format.memory as int])) {
            (Some(cpu), Some(memory)) => Some(
                SampleView {
                    owner: ws[format.owner as int],
                    cpu_percent: cpu,
                    memory_percent: memory,
                    command_line: join_words(words_from(ws, format.command as int)),
                },
            ),
            _ => None,
        }
    } else {
        None
    }
}

/// The samples read from a whole snapshot text.
pub open spec fn parse_spec(format: SampleFormat, text: Seq<char>) -> Seq<SampleView> {
    samples_of(format, lines(text))
}

/// The samples that the lines `ls` give, in the order of the lines.
pub open spec fn samples_of(format: SampleFormat, ls: Seq<Seq<char>>) -> Seq<SampleView> {
    ls.filter_map(|l: Seq<char>| sample_of(format, words(l)))
}

/// Whether a line has enough words to be read as a sample.
pub open spec fn long_enough(format: SampleFormat, line: Seq<char>) -> bool {
    words(line).len() >= format.min_tokens
}

/// Whether both share fields of a line read as decimals.
pub open spec fn shares_readable(format: SampleFormat, line: Seq<char>) -> bool {
    &&& decimal_of(words(line)[format.cpu as int]) is Some
    &&& decimal_of(words(line)[format.memory as int]) is Some
}

proof fn lemma_samples_of_long_lines(format: SampleFormat, ls: Seq<Seq<char>>)
    requires
        format.wf(),
        forall|k: int| 0 <= k < ls.len() && long_enough(format, #[trigger] ls[k]) ==> shares_readable(format, ls[k]),
    ensures
        samples_of(format, ls) == ls.filter(|l: Seq<char>| long_enough(format, l)).map_values(
            |l: Seq<char>| sample_of(format, words(l))->0,
        ),
    decreases ls.len(),
{
    reveal(Seq::filter);
    let keep = |l: Seq<char>| long_enough(format, l);
    let read = |l: Seq<char>| sample_of(format, words(l))->0;
    if ls.len() > 0 {
        let rest = ls.drop_last();
        assert forall|k: int| 0 <= k < rest.len() && long_enough(format, #[trigger] rest[k]) implies shares_readable(format, rest[k]) by {
            assert(rest[k] == ls[k]);
        }
        lemma_samples_of_long_lines(format, rest);
        assert(ls.filter(keep) == if keep(ls.last()) { rest.filter(keep).push(ls.last()) } else { rest.filter(keep) });
        if keep(ls.last()) {
            assert(shares_readable(format, ls[ls.len() - 1]));
            assert(rest.filter(keep).push(ls.last()).map_values(read) =~= rest.filter(keep).map_values(read).push(read(ls.last())));
            assert(samples_of(format, ls) =~= samples_of(format, rest).push(read(ls.last())));
        } else {
            assert(sample_of(format, words(ls.last())) is None);
        }
    }
}

/// For a well-formed layout, a snapshot whose every line with enough words
/// has readable share fields gives one sample for each such line, read from
/// that line, in the order of the lines; shorter lines (headers, truncated output) give none. So the
/// number of samples is the number of lines with at least `min_tokens` words.
pub proof fn lemma_one_sample_per_long_line(format: SampleFormat, text: Seq<char>)
    requires
        format.wf(),
        forall|k: int| 0 <= k < lines(text).len() && long_enough(format, #[trigger] lines(text)[k]) ==> shares_readable(format, lines(text)[k]),
    ensures
        parse_spec(format, text) == lines(text).filter(|l: Seq<char>| long_enough(format, l)).map_values(
            |l: Seq<char>| sample_of(format, words(l))->0,
        ),
        parse_spec(format, text).len() == lines(text).filter(|l: Seq<char>| long_enough(format, l)).len(),
{
    lemma_samples_of_long_lines(format, lines(text));
}

/// The pieces of `chars` that `spans` mark.
pub open spec fn spans_text(chars: Seq<char>, spans: Seq<(usize, usize)>) -> Seq<Seq<char>> {
    spans.map_values(|r: (usize, usize)| chars.subrange(r.0 as int, r.1 as int))
}

pub open spec fn spans_within(spans: Seq<(usize, usize)>, lo: int, hi: int) -> bool {
    forall|j: int| 0 <= j < spans.len() ==> lo <= (#[trigger] spans[j]).0 <= spans[j].1 <= hi
}

/// Joins the words that `spans` mark in `text`, from position `from` on.
fn join_spans(text: &str, spans: &Vec<(usize, usize)>, from: usize) -> (r: String)
    requires
        spans_within(spans@, 0, text@.len() as int),
    ensures
        r@ == join_words(words_from(spans_text(text@, spans@), from as int)),
{
    let ghost ws = spans_text(text@, spans@);
    let mut out = String::new();
    if from >= spans.len() {
        return out;
    }
    let mut j: usize = from;
    while j < spans.len()
        invariant
            from <= j <= spans.len(),
            from < spans.len(),
            ws == spans_text(text@, spans@),
            spans_within(spans@, 0, text@.len() as int),
            out@ == join_words(ws.subrange(from as int, j as int)),
        decreases spans.len() - j,
    {
        let (a, b) = spans[j];
        let piece = text.substring_char(a, b);
        let ghost before = ws.subrange(from as int, j as int);
        assert(ws.subrange(from as int, j + 1).drop_last() =~= before);
        if j > from {
            proof {
                reveal_strlit(" ");
            }
            out.append(" ");
        } else {
            assert(ws.subrange(from as int, j + 1) =~= seq![ws[j as int]]);
        }
        out.append(piece);
        j = j + 1;
    }
    assert(ws.subrange(from as int, spans.len() as int) =~= words_from(ws, from as int));
    out
}

/// The sample of the line whose words `spans` mark in `text`, if it gives one.
fn sample_from_spans(text: &str, chars: &Vec<char>, spans: &Vec<(usize, usize)>, format: SampleFormat) -> (r: Option<Sample>)
    requires
        chars@ == text@,
        spans_within(spans@, 0, text@.len() as int),
    ensures
        match r {
            Some(x) => sample_of(format, spans_text(text@, spans@)) == Some(x@),
            None => sample_of(format, spans_text(text@, spans@)) is None,
        },
{
    let ghost ws = spans_text(text@, spans@);
    let n = spans.len();
    if n < format.min_tokens || format.owner >= n || format.cpu >= n || format.memory >= n {
        return None;
    }
    let (ca, cb) = spans[format.cpu];
    let (ma, mb) = spans[format.memory];
    let (oa, ob) = spans[format.owner];
    let cpu = parse_decimal(chars, ca, cb);
    let memory = parse_decimal(chars, ma, mb);
    match (cpu, memory) {
        (Some(c), Some(m)) => {
            let owner = String::from_str(text.substring_char(oa, ob));
            let command_line = join_spans(text, spans, format.command);
            let x = Sample { owner, cpu_percent: c, memory_percent: m, command_line };
            assert(x@ == sample_of(format, ws)->0);
            Some(x)
        },
        _ => None,
    }
}

/// Reads the samples of a snapshot text: the text is cut into lines, each line
/// into words; a line gives a sample when it has enough words and its share
/// fields read as decimals (`sample_of`), and the samples keep the order of
/// their lines.
pub fn parse_samples(text: &str, format: SampleFormat) -> (r: Vec<Sample>)
    ensures
        r@.map_values(|x: Sample| x@) == parse_spec(format, text@),
{
    let chars = chars_of(text);
    let n = chars.len();
    let mut out: Vec<Sample> = Vec::new();
    let mut spans: Vec<(usize, usize)> = Vec::new();
    let mut line_start: usize = 0;
    let mut i: usize = 0;
    while i < n
        invariant
            n == chars.len(),
            chars@ == text@,
            line_start <= i <= n,
            lines(chars@.take(i as int)).len() >= 1,
            lines(chars@.take(i as int)).last() == chars@.subrange(line_start as int, i as int),
            spans_within(spans@, line_start as int, i as int),
            spans_text(chars@, spans@) == words(chars@.subrange(line_start as int, i as int)),
            (i > line_start && !is_blank(chars@[i - 1])) ==> spans.len() > 0 && spans@.last().1 == i,
            out@.map_values(|x: Sample| x@) == samples_of(format, lines(chars@.take(i as int)).drop_last()),
        decreases n - i,
    {
        let c = chars[i];
        let ghost prev_lines = lines(chars@.take(i as int));
        let ghost cur = chars@.subrange(line_start as int, i as int);
        assert(chars@.take(i + 1).drop_last() =~= chars@.take(i as int));
        assert(chars@.take(i + 1).last() == c);
        if c == '\n' {
            let found = sample_from_spans(text, &chars, &spans, format);
            let ghost new_lines = lines(chars@.take(i + 1));
            assert(new_lines == prev_lines.push(Seq::<char>::empty()));
            assert(new_lines.drop_last() =~= prev_lines);
            match found {
                Some(x) => {
                    out.push(x);
                },
                None => {},
            }
            assert(out@.map_values(|x: Sample| x@) =~= samples_of(format, new_lines.drop_last()));
            spans = Vec::new();
            line_start = i + 1;
            i = i + 1;
            assert(chars@.subrange(line_start as int, i as int) =~= Seq::<char>::empty());
            assert(spans_text(chars@, spans@) =~= Seq::<Seq<char>>::empty());
        } else {
            let ghost next = chars@.subrange(line_start as int, i + 1);
            assert(next =~= cur.push(c));
            assert(next.drop_last() =~= cur);
            let ghost new_lines = lines(chars@.take(i + 1));
            assert(new_lines == prev_lines.update(prev_lines.len() - 1, cur.push(c)));
            assert(new_lines.drop_last() =~= prev_lines.drop_last());
            if blank(c) {
            } else if i > line_start && !blank(chars[i - 1]) {
                let last = spans.len() - 1;
                let (a, _b) = spans[last];
                spans.set(last, (a, i + 1));
                assert(chars@.subrange(a as int, i + 1) =~= chars@.subrange(a as int, i as int).push(c));
                assert(spans_text(chars@, spans@) =~= words(next));
            } else {
                spans.push((i, i + 1));
                assert(chars@.subrange(i as int, i + 1) =~= seq![c]);
                assert(spans_text(chars@, spans@) =~= words(next));
            }
            i = i + 1;
        }
    }
    assert(chars@.take(n as int) =~= chars@);
    let ghost all_lines = lines(chars@);
    let found = sample_from_spans(text, &chars, &spans, format);
    match found {
        Some(x) => {
            out.push(x);
        },
        None => {},
    }
    assert(all_lines =~= all_lines.drop_last().push(all_lines.last()));
    assert(out@.map_values(|x: Sample| x@) =~= samples_of(format, all_lines));
    out
}

} // verus!
