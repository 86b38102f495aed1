//! Character-level helpers shared by the parsers of this crate.
use vstd::prelude::*;

verus! {

/// The texts of a list of strings, as character sequences.
pub open spec fn texts_view(items: Seq<String>) -> Seq<Seq<char>> {
    items.map_values(|item: String| item@)
}

/// Index of the first occurrence of `c` in `s`, or `s.len()` where there is none.
pub open spec fn first_index_of(s: Seq<char>, c: char) -> int
    decreases s.len(),
{
    if s.len() == 0 {
        0
    } else if s[0] == c {
        0
    } else {
        1 + first_index_of(s.skip(1), c)
    }
}

/// `first_index_of` is in range, points at `c` when it is inside `s`, and
/// nothing before it is `c`.
pub proof fn lemma_first_index_of(s: Seq<char>, c: char)
    ensures
        0 <= first_index_of(s, c) <= s.len(),
        first_index_of(s, c) < s.len() ==> s[first_index_of(s, c)] == c,
        forall|i: int| 0 <= i < first_index_of(s, c) ==> s[i] != c,
    decreases s.len(),
{
    if s.len() != 0 && s[0] != c {
        let t = s.skip(1);
        lemma_first_index_of(t, c);
        assert forall|i: int| 0 <= i < first_index_of(s, c) implies s[i] != c by {
            if i > 0 {
                assert(s[i] == t[i - 1]);
            }
        }
    }
}

/// Any index that points at `c` with no `c` before it is `first_index_of`.
pub proof fn lemma_first_index_of_unique(s: Seq<char>, c: char, k: int)
    requires
        0 <= k <= s.len(),
        k < s.len() ==> s[k] == c,
        forall|i: int| 0 <= i < k ==> s[i] != c,
    ensures
        first_index_of(s, c) == k,
{
    lemma_first_index_of(s, c);
    let f = first_index_of(s, c);
    if f < k {
        assert(s[f] != c);
    }
}

/// Number of occurrences of `c` in `s`.
pub open spec fn count_of(s: Seq<char>, c: char) -> nat
    decreases s.len(),
{
    if s.len() == 0 {
        0
    } else {
        count_of(s.drop_last(), c) + if s.last() == c { 1nat } else { 0nat }
    }
}

/// Appending characters takes no occurrence away.
pub proof fn lemma_count_of_append(a: Seq<char>, b: Seq<char>, c: char)
    ensures
        count_of(a + b, c) >= count_of(a, c),
    decreases b.len(),
{
    if b.len() == 0 {
        assert(a + b =~= a);
    } else {
        assert((a + b).drop_last() =~= a + b.drop_last());
        lemma_count_of_append(a, b.drop_last(), c);
    }
}

/// The characters of `s`, in order.
pub fn chars_of(s: &str) -> (r: Vec<char>)
    ensures
        r@ == s@,
{
    let mut v: Vec<char> = Vec::new();
    for c in it: s.chars()
        invariant
            it.seq() == s@,
            v@ == it.seq().take(it.index() as int),
    {
        v.push(c);
    }
    v
}

/// Whether two strings hold the same characters.
pub fn same_text(a: &str, b: &str) -> (r: bool)
    ensures
        r == (a@ == b@),
{
    let x = chars_of(a);
    let y = chars_of(b);
    if x.len() != y.len() {
        return false;
    }
    let mut i: usize = 0;
    while i < x.len()
        invariant
            i <= x.len(),
            x.len() == y.len(),
            x@ == a@,
            y@ == b@,
            forall|j: int| 0 <= j < i ==> x@[j] == y@[j],
        decreases x.len() - i,
    {
        if x[i] != y[i] {
            return false;
        }
        i += 1;
    }
    assert(x@ =~= y@);
    true
}

/// Position of the first `c` in `v[from..to]`, or `to` where there is none.
pub fn find_between(v: &Vec<char>, c: char, from: usize, to: usize) -> (r: usize)
    requires
        from <= to <= v.len(),
    ensures
        r == from + first_index_of(v@.subrange(from as int, to as int), c),
        from <= r <= to,
{
    let mut i: usize = from;
    while i < to && v[i] != c
        invariant
            from <= i <= to <= v.len(),
            forall|j: int| from <= j < i ==> v@[j] != c,
        decreases to - i,
    {
        i += 1;
    }
    proof {
        let t = v@.subrange(from as int, to as int);
        assert forall|j: int| 0 <= j < i - from implies t[j] != c by {
            assert(t[j] == v@[from + j]);
        }
        lemma_first_index_of_unique(t, c, i - from);
    }
    i
}

/// Position just behind the last occurrence of `c` in `s`, or 0 where there is none.
pub open spec fn after_last(s: Seq<char>, c: char) -> int
    decreases s.len(),
{
    if s.len() == 0 {
        0
    } else if s.last() == c {
        s.len() as int
    } else {
        after_last(s.drop_last(), c)
    }
}

/// Characters other than `c` at the end do not move the place behind the last `c`.
pub proof fn lemma_after_last_append(a: Seq<char>, b: Seq<char>, c: char)
    requires
        forall|i: int| 0 <= i < b.len() ==> b[i] != c,
    ensures
        after_last(a + b, c) == after_last(a, c),
    decreases b.len(),
{
    if b.len() == 0 {
        assert(a + b =~= a);
    } else {
        assert((a + b).drop_last() =~= a + b.drop_last());
        assert((a + b).last() == b[b.len() - 1]);
        lemma_after_last_append(a, b.drop_last(), c);
    }
}

/// Position just behind the last `c` in `v[from..to]`, counted from the start of `v`;
/// `from` where there is none.
pub fn find_after_last(v: &Vec<char>, c: char, from: usize, to: usize) -> (r: usize)
    requires
        from <= to <= v.len(),
    ensures
        r == from + after_last(v@.subrange(from as int, to as int), c),
        from <= r <= to,
{
    let mut i: usize = from;
    let mut r: usize = from;
    assert(v@.subrange(from as int, from as int).len() == 0);
    while i < to
        invariant
            from <= i <= to <= v.len(),
            from <= r <= i,
            r == from + after_last(v@.subrange(from as int, i as int), c),
        decreases to - i,
    {
        proof {
            let next = v@.subrange(from as int, i + 1);
            assert(next.drop_last() =~= v@.subrange(from as int, i as int));
            assert(next.last() == v@[i as int]);
        }
        if v[i] == c {
            r = i + 1;
        }
        i += 1;
    }
    r
}

/// Number of occurrences of `c` in `v[from..to]`.
pub fn count_between(v: &Vec<char>, c: char, from: usize, to: usize) -> (r: usize)
    requires
        from <= to <= v.len(),
    ensures
        r == count_of(v@.subrange(from as int, to as int), c),
{
    let mut i: usize = from;
    let mut n: usize = 0;
    assert(v@.subrange(from as int, from as int).len() == 0);
    while i < to
        invariant
            from <= i <= to <= v.len(),
            n <= i - from,
            n == count_of(v@.subrange(from as int, i as int), c),
        decreases to - i,
    {
        proof {
            let next = v@.subrange(from as int, i + 1);
            assert(next.drop_last() =~= v@.subrange(from as int, i as int));
            assert(next.last() == v@[i as int]);
        }
        if v[i] == c {
            n += 1;
        }
        i += 1;
    }
    n
}

/// Whether `c` is one of the ten decimal digits.
pub open spec fn is_digit(c: char) -> bool {
    '0' <= c && c <= '9'
}

/// The number that a decimal digit stands for.
pub open spec fn digit_value(c: char) -> nat {
    (c as u32 - '0' as u32) as nat
}

/// The number that a run of decimal digits stands for.
pub open spec fn decimal_value(s: Seq<char>) -> nat
    decreases s.len(),
{
    if s.len() == 0 {
        0
    } else {
        decimal_value(s.drop_last()) * 10 + digit_value(s.last())
    }
}

/// Whether `s` is a run of one or more decimal digits.
pub open spec fn all_digits(s: Seq<char>) -> bool {
    &&& s.len() > 0
    &&& forall|i: int| 0 <= i < s.len() ==> is_digit(#[trigger] s[i])
}

/// Whether `s` is a decimal number that fits in 32 bits.
pub open spec fn is_number(s: Seq<char>) -> bool {
    all_digits(s) && decimal_value(s) <= u32::MAX
}

/// A run of digits is worth at least as much as any of its prefixes.
pub proof fn lemma_decimal_prefix(s: Seq<char>, k: int)
    requires
        0 <= k <= s.len(),
        forall|i: int| 0 <= i < s.len() ==> is_digit(#[trigger] s[i]),
    ensures
        decimal_value(s.take(k)) <= decimal_value(s),
    decreases s.len() - k,
{
    if k == s.len() {
        assert(s.take(k) =~= s);
    } else {
        let t = s.drop_last();
        assert(is_digit(s[s.len() - 1]));
        if k == t.len() {
            assert(s.take(k) =~= t);
        } else {
            assert(s.take(k) =~= t.take(k));
            assert forall|i: int| 0 <= i < t.len() implies is_digit(#[trigger] t[i]) by {
                assert(t[i] == s[i]);
            }
            lemma_decimal_prefix(t, k);
        }
    }
}

/// Reads `v[from..to]` as a decimal number that fits in 32 bits.
pub fn parse_number(v: &Vec<char>, from: usize, to: usize) -> (r: Option<u32>)
    requires
        from <= to <= v.len(),
    ensures
        match r {
            Some(n) => is_number(v@.subrange(from as int, to as int)) && n == decimal_value(
                v@.subrange(from as int, to as int),
            ),
            None => !is_number(v@.subrange(from as int, to as int)),
        },
{
    let ghost s = v@.subrange(from as int, to as int);
    if from == to {
        return None;
    }
    let mut i: usize = from;
    let mut acc: u64 = 0;
    assert(s.take(0).len() == 0);
    while i < to
        invariant
            from <= i <= to <= v.len(),
            s == v@.subrange(from as int, to as int),
            forall|j: int| 0 <= j < i - from ==> is_digit(#[trigger] s[j]),
            acc == decimal_value(s.take(i - from)),
            acc <= u32::MAX,
        decreases to - i,
    {
        let c = v[i];
        assert(s[i - from] == c);
        if c < '0' || c > '9' {
            return None;
        }
        let d: u64 = (c as u32 - '0' as u32) as u64;
        proof {
            let next = s.take(i - from + 1);
            assert(next.drop_last() =~= s.take(i - from));
            assert(next.last() == c);
        }
        acc = acc * 10 + d;
        if acc > 0xFFFF_FFFF {
            proof {
                if all_digits(s) {
                    lemma_decimal_prefix(s, i - from + 1);
                }
            }
            return None;
        }
        i += 1;
    }
    assert(s.take(to - from) =~= s);
    Some(acc as u32)
}

/// Whether the characters of `pat` stand in `v` from position `at` on.
pub fn has_prefix_at(v: &Vec<char>, at: usize, pat: &Vec<char>) -> (r: bool)
    requires
        at <= v.len(),
    ensures
        r == pat@.is_prefix_of(v@.skip(at as int)),
{
    let ghost tail = v@.skip(at as int);
    if pat.len() > v.len() - at {
        return false;
    }
    let mut i: usize = 0;
    while i < pat.len()
        invariant
            i <= pat.len(),
            at + pat.len() <= v.len(),
            tail == v@.skip(at as int),
            forall|j: int| 0 <= j < i ==> pat@[j] == tail[j],
        decreases pat.len() - i,
    {
        if pat[i] != v[at + i] {
            assert(tail[i as int] == v@[at + i]);
            assert(!(pat@ =~= tail.subrange(0, pat@.len() as int)));
            return false;
        }
        assert(tail[i as int] == v@[at + i]);
        i += 1;
    }
    assert(pat@ =~= tail.subrange(0, pat@.len() as int));
    true
}

/// `String::push` appends one character at the end of the string.
pub assume_specification[ String::push ](s: &mut String, ch: char)
    ensures
        final(s)@ == old(s)@.push(ch),
;

/// The characters `v[from..to]` as a string.
pub fn slice_of(v: &Vec<char>, from: usize, to: usize) -> (r: String)
    requires
        from <= to <= v.len(),
    ensures
        r@ == v@.subrange(from as int, to as int),
{
    let mut out = String::new();
    let mut i: usize = from;
    assert(out@ =~= v@.subrange(from as int, from as int));
    while i < to
        invariant
            from <= i <= to <= v.len(),
            out@ == v@.subrange(from as int, i as int),
        decreases to - i,
    {
        out.push(v[i]);
        assert(out@ =~= v@.subrange(from as int, i + 1));
        i += 1;
    }
    out
}

/// The first line of a text, without its line feed.
pub open spec fn first_line(s: Seq<char>) -> Seq<char> {
    s.take(first_index_of(s, '\n'))
}

/// Cuts the first line out of a text.
pub fn first_line_of(text: &str) -> (r: String)
    ensures
        r@ == first_line(text@),
{
    let v = chars_of(text);
    let e = find_between(&v, '\n', 0, v.len());
    assert(v@.subrange(0, v.len() as int) =~= v@);
    let r = slice_of(&v, 0, e);
    assert(r@ =~= first_line(text@));
    r
}

/// A line without the carriage return that may end it.
pub open spec fn strip_cr(line: Seq<char>) -> Seq<char> {
    if line.len() > 0 && line.last() == '\r' {
        line.drop_last()
    } else {
        line
    }
}

/// The lines of a text. A line ends at a line feed or at the end of the
/// text; a line feed at the very end opens no further line. A carriage return
/// right before a line feed belongs to the line ending.
pub open spec fn lines_of(s: Seq<char>) -> Seq<Seq<char>>
    decreases s.len(),
{
    if s.len() == 0 {
        Seq::empty()
    } else {
        let k = first_index_of(s, '\n');
        if k < 0 || k >= s.len() {
            seq![s]
        } else {
            seq![strip_cr(s.take(k))] + lines_of(s.skip(k + 1))
        }
    }
}

/// Splits a text into its lines.
pub fn split_lines(text: &str) -> (r: Vec<String>)
    ensures
        texts_view(r@) == lines_of(text@),
{
    let v = chars_of(text);
    let mut out: Vec<String> = Vec::new();
    let mut pos: usize = 0;
    assert(v@.skip(0) =~= v@);
    assert(texts_view(out@) + lines_of(v@) =~= lines_of(v@));
    while pos < v.len()
        invariant
            pos <= v.len(),
            v@ == text@,
            lines_of(text@) == texts_view(out@) + lines_of(v@.skip(pos as int)),
        decreases v.len() - pos,
    {
        let e = find_between(&v, '\n', pos, v.len());
        let mut end = e;
        if e < v.len() && e > pos && v[e - 1] == '\r' {
            end = e - 1;
        }
        let line = slice_of(&v, pos, end);
        let ghost before = out@;
        let ghost t = v@.skip(pos as int);
        out.push(line);
        let next = if e < v.len() { e + 1 } else { e };
        proof {
            assert(v@.subrange(pos as int, v.len() as int) =~= t);
            let k = first_index_of(t, '\n');
            assert(k == e - pos);
            let raw = t.take(k);
            assert(raw =~= v@.subrange(pos as int, e as int));
            if e > pos {
                assert(raw.last() == v@[e - 1]);
            }
            assert(texts_view(out@) =~= texts_view(before) + seq![line@]);
            if e < v.len() {
                assert(strip_cr(raw) =~= line@);
                assert(t.skip(k + 1) =~= v@.skip(next as int));
                assert(lines_of(t) == seq![strip_cr(raw)] + lines_of(t.skip(k + 1)));
            } else {
                assert(raw =~= t);
                assert(line@ =~= t);
                assert(lines_of(t) == seq![t]);
                assert(v@.skip(next as int).len() == 0);
                assert(lines_of(v@.skip(next as int)) =~= Seq::<Seq<char>>::empty());
            }
            assert(texts_view(before) + lines_of(t) =~= texts_view(out@) + lines_of(
                v@.skip(next as int),
            ));
        }
        pos = next;
    }
    assert(v@.skip(pos as int).len() == 0);
    assert(texts_view(out@) + lines_of(v@.skip(pos as int)) =~= texts_view(out@));
    out
}

/// The pieces of a text between the occurrences of `c`. There is always
/// at least one piece; a text that ends in `c` has an empty last piece.
pub open spec fn pieces_of(s: Seq<char>, c: char) -> Seq<Seq<char>>
    decreases s.len(),
{
    let k = first_index_of(s, c);
    if k < 0 || k >= s.len() {
        seq![s]
    } else {
        seq![s.take(k)] + pieces_of(s.skip(k + 1), c)
    }
}

/// Splits a text at every occurrence of `c`.
pub fn split_on(text: &str, c: char) -> (r: Vec<String>)
    ensures
        texts_view(r@) == pieces_of(text@, c),
{
    let v = chars_of(text);
    let mut out: Vec<String> = Vec::new();
    let mut pos: usize = 0;
    assert(v@.skip(0) =~= v@);
    assert(texts_view(out@) + pieces_of(v@, c) =~= pieces_of(v@, c));
    loop
        invariant
            pos <= v.len(),
            v@ == text@,
            pieces_of(text@, c) == texts_view(out@) + pieces_of(v@.skip(pos as int), c),
        decreases v.len() - pos,
    {
        let e = find_between(&v, c, pos, v.len());
        let piece = slice_of(&v, pos, e);
        let ghost before = out@;
        let ghost t = v@.skip(pos as int);
        out.push(piece);
        proof {
            assert(v@.subrange(pos as int, v.len() as int) =~= t);
            assert(t.take(e - pos) =~= piece@);
            assert(texts_view(out@) =~= texts_view(before) + seq![piece@]);
        }
        if e >= v.len() {
            proof {
                assert(t.take(e - pos) =~= t);
                assert(pieces_of(t, c) =~= seq![t]);
                assert(texts_view(before) + pieces_of(t, c) =~= texts_view(out@));
            }
            return out;
        }
        proof {
            assert(t.skip(e - pos + 1) =~= v@.skip(e + 1));
            assert(texts_view(before) + pieces_of(t, c) =~= texts_view(out@) + pieces_of(
                v@.skip(e + 1),
                c,
            ));
        }
        pos = e + 1;
    }
}

/// Whether `pat` occurs somewhere in `s`.
pub open spec fn occurs_in(pat: Seq<char>, s: Seq<char>) -> bool {
    exists|i: int| 0 <= i <= s.len() && pat.is_prefix_of(#[trigger] s.skip(i))
}

/// Whether `pat` occurs somewhere in `text`.
pub fn contains_text(text: &str, pat: &str) -> (r: bool)
    ensures
        r == occurs_in(pat@, text@),
{
    let v = chars_of(text);
    let p = chars_of(pat);
    let mut i: usize = 0;
    while i < v.len()
        invariant
            i <= v.len(),
            v@ == text@,
            p@ == pat@,
            forall|j: int| 0 <= j < i ==> !p@.is_prefix_of(#[trigger] v@.skip(j)),
        decreases v.len() - i,
    {
        if has_prefix_at(&v, i, &p) {
            return true;
        }
        i += 1;
    }
    has_prefix_at(&v, i, &p)
}

/// Whether a character is white space: one of the characters that carry
/// the Unicode property White_Space.
pub open spec fn is_white_space(c: char) -> bool {
    ('\u{9}' <= c && c <= '\u{D}') || c == ' ' || c == '\u{85}' || c == '\u{A0}' || c
        == '\u{1680}' || ('\u{2000}' <= c && c <= '\u{200A}') || c == '\u{2028}' || c
        == '\u{2029}' || c == '\u{202F}' || c == '\u{205F}' || c == '\u{3000}'
}

/// Whether a character is white space.
pub fn white_space(c: char) -> (r: bool)
    ensures
        r == is_white_space(c),
{
    (c >= '\u{9}' && c <= '\u{D}') || c == ' ' || c == '\u{85}' || c == '\u{A0}' || c
        == '\u{1680}' || (c >= '\u{2000}' && c <= '\u{200A}') || c == '\u{2028}' || c
        == '\u{2029}' || c == '\u{202F}' || c == '\u{205F}' || c == '\u{3000}'
}

/// How many characters of white space a text begins with.
pub open spec fn leading_space(s: Seq<char>) -> int
    decreases s.len(),
{
    if s.len() == 0 || !is_white_space(s[0]) {
        0
    } else {
        1 + leading_space(s.skip(1))
    }
}

/// How many characters of white space a text ends with.
pub open spec fn trailing_space(s: Seq<char>) -> int
    decreases s.len(),
{
    if s.len() == 0 || !is_white_space(s.last()) {
        0
    } else {
        1 + trailing_space(s.drop_last())
    }
}

/// A text without the white space at its ends.
pub open spec fn trimmed(s: Seq<char>) -> Seq<char> {
    let rest = s.skip(leading_space(s));
    rest.take(rest.len() - trailing_space(rest))
}

/// Where the first `k` characters are white space and the next is not,
/// the text begins with `k` characters of white space.
pub proof fn lemma_leading_space(s: Seq<char>, k: int)
    requires
        0 <= k <= s.len(),
        forall|i: int| 0 <= i < k ==> is_white_space(#[trigger] s[i]),
        k < s.len() ==> !is_white_space(s[k]),
    ensures
        leading_space(s) == k,
    decreases k,
{
    if k > 0 {
        let t = s.skip(1);
        assert(is_white_space(s[0]));
        assert forall|i: int| 0 <= i < k - 1 implies is_white_space(#[trigger] t[i]) by {
            assert(t[i] == s[i + 1]);
        }
        if k < s.len() {
            assert(t[k - 1] == s[k]);
        }
        lemma_leading_space(t, k - 1);
    }
}

/// Where the last `k` characters are white space and the one before them
/// is not, the text ends with `k` characters of white space.
pub proof fn lemma_trailing_space(s: Seq<char>, k: int)
    requires
        0 <= k <= s.len(),
        forall|i: int| s.len() - k <= i < s.len() ==> is_white_space(#[trigger] s[i]),
        k < s.len() ==> !is_white_space(s[s.len() - k - 1]),
    ensures
        trailing_space(s) == k,
    decreases k,
{
    if k > 0 {
        let t = s.drop_last();
        assert(is_white_space(s[s.len() - 1]));
        assert forall|i: int| t.len() - (k - 1) <= i < t.len() implies is_white_space(
            #[trigger] t[i],
        ) by {
            assert(t[i] == s[i]);
        }
        if k < s.len() {
            assert(t[t.len() - (k - 1) - 1] == s[s.len() - k - 1]);
        }
        lemma_trailing_space(t, k - 1);
    }
}

/// Strips the white space at both ends of a text.
pub fn trim_text(text: &str) -> (r: String)
    ensures
        r@ == trimmed(text@),
{
    let v = chars_of(text);
    let mut start: usize = 0;
    while start < v.len() && white_space(v[start])
        invariant
            start <= v.len(),
            forall|i: int| 0 <= i < start ==> is_white_space(#[trigger] v@[i]),
        decreases v.len() - start,
    {
        start += 1;
    }
    let mut end: usize = v.len();
    while end > start && white_space(v[end - 1])
        invariant
            start <= end <= v.len(),
            forall|i: int| end <= i < v.len() ==> is_white_space(#[trigger] v@[i]),
        decreases end,
    {
        end -= 1;
    }
    let r = slice_of(&v, start, end);
    proof {
        lemma_leading_space(v@, start as int);
        let rest = v@.skip(start as int);
        let k = v.len() - end;
        assert forall|i: int| rest.len() - k <= i < rest.len() implies is_white_space(
            #[trigger] rest[i],
        ) by {
            assert(rest[i] == v@[start + i]);
        }
        if k < rest.len() {
            assert(rest[rest.len() - k - 1] == v@[end - 1]);
        }
        lemma_trailing_space(rest, k);
        assert(r@ =~= rest.take(rest.len() - k));
    }
    r
}

/// A text with `to` before its first character, between every two of its
/// characters, and behind its last.
pub open spec fn spread(s: Seq<char>, to: Seq<char>) -> Seq<char>
    decreases s.len(),
{
    if s.len() == 0 {
        to
    } else {
        to + seq![s[0]] + spread(s.skip(1), to)
    }
}

/// A text in which every match of `from` has given way to `to`. The
/// matches are taken from the left and do not overlap. The empty text
/// matches before every character and at the end.
pub open spec fn replaced(s: Seq<char>, from: Seq<char>, to: Seq<char>) -> Seq<char>
    decreases s.len(),
{
    if from.len() == 0 {
        spread(s, to)
    } else if s.len() == 0 {
        Seq::empty()
    } else if from.len() <= s.len() && from.is_prefix_of(s) {
        to + replaced(s.skip(from.len() as int), from, to)
    } else {
        seq![s[0]] + replaced(s.skip(1), from, to)
    }
}

/// Adds the characters of `more` at the end of `out`.
fn push_all(out: &mut String, more: &Vec<char>)
    ensures
        final(out)@ == old(out)@ + more@,
{
    let mut i: usize = 0;
    assert(out@ =~= old(out)@ + more@.take(0));
    while i < more.len()
        invariant
            i <= more.len(),
            out@ == old(out)@ + more@.take(i as int),
        decreases more.len() - i,
    {
        out.push(more[i]);
        assert(out@ =~= old(out)@ + more@.take(i + 1));
        i += 1;
    }
    assert(more@.take(more.len() as int) =~= more@);
}

/// Replaces every match of `from` in `text` by `to`.
pub fn replace_text(text: &str, from: &str, to: &str) -> (r: String)
    ensures
        r@ == replaced(text@, from@, to@),
{
    let v = chars_of(text);
    let f = chars_of(from);
    let t = chars_of(to);
    let mut out = String::new();
    let mut i: usize = 0;
    assert(v@.skip(0) =~= v@);
    if f.len() == 0 {
        assert(out@ + spread(v@, t@) =~= spread(v@, t@));
        while i < v.len()
            invariant
                i <= v.len(),
                f@.len() == 0,
                replaced(v@, f@, t@) == out@ + spread(v@.skip(i as int), t@),
            decreases v.len() - i,
        {
            let ghost before = out@;
            let ghost rest = v@.skip(i as int);
            push_all(&mut out, &t);
            out.push(v[i]);
            proof {
                assert(rest[0] == v@[i as int]);
                assert(rest.skip(1) =~= v@.skip(i + 1));
                assert(before + spread(rest, t@) =~= out@ + spread(v@.skip(i + 1), t@));
            }
            i += 1;
        }
        let ghost before = out@;
        push_all(&mut out, &t);
        assert(v@.skip(i as int).len() == 0);
        assert(before + spread(v@.skip(i as int), t@) =~= out@);
        out
    } else {
        assert(out@ + replaced(v@, f@, t@) =~= replaced(v@, f@, t@));
        while i < v.len()
            invariant
                i <= v.len(),
                f@.len() > 0,
                replaced(v@, f@, t@) == out@ + replaced(v@.skip(i as int), f@, t@),
            decreases v.len() - i,
        {
            let ghost before = out@;
            let ghost rest = v@.skip(i as int);
            if has_prefix_at(&v, i, &f) {
                push_all(&mut out, &t);
                proof {
                    assert(rest.skip(f@.len() as int) =~= v@.skip(i + f@.len()));
                    assert(before + replaced(rest, f@, t@) =~= out@ + replaced(
                        v@.skip(i + f@.len()),
                        f@,
                        t@,
                    ));
                }
                i += f.len();
            } else {
                out.push(v[i]);
                proof {
                    assert(rest[0] == v@[i as int]);
                    assert(rest.skip(1) =~= v@.skip(i + 1));
                    assert(before + replaced(rest, f@, t@) =~= out@ + replaced(
                        v@.skip(i + 1),
                        f@,
                        t@,
                    ));
                }
                i += 1;
            }
        }
        assert(v@.skip(i as int).len() == 0);
        assert(out@ + replaced(v@.skip(i as int), f@, t@) =~= out@);
        out
    }
}

} // verus!
