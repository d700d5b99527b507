//! Text: white space, lines, joining, decimal and hexadecimal numerals.

use vstd::prelude::*;
use vstd::string::*;

verus! {

/// `String::push`: the character is appended at the end of the string.
pub assume_specification[ String::push ](s: &mut String, c: char)
    ensures
        final(s)@ == old(s)@.push(c),
;

// ---------------------------------------------------------------------------
// Building and comparing texts
// ---------------------------------------------------------------------------

/// The characters of a text, one by one.
pub fn chars_of(s: &str) -> (r: Vec<char>)
    ensures
        r@ == s@,
{
    let mut r: Vec<char> = Vec::new();
    for c in it: s.chars()
        invariant
            it.seq() == s@,
            r@ == s@.take(it.index() as int),
    {
        assert(s@.take(it.index() + 1) == s@.take(it.index() as int).push(c));
        r.push(c);
    }
    assert(s@.take(s@.len() as int) == s@);
    r
}

/// The text made of `v[from..to]`.
pub fn text_of(v: &Vec<char>, from: usize, to: usize) -> (r: String)
    requires
        from <= to <= v@.len(),
    ensures
        r@ == v@.subrange(from as int, to as int),
{
    let mut r = String::new();
    let mut i: usize = from;
    while i < to
        invariant
            from <= i <= to <= v@.len(),
            r@ == v@.subrange(from as int, i as int),
        decreases to - i,
    {
        r.push(v[i]);
        i += 1;
    }
    r
}

/// Two texts joined end to end.
pub fn concat(a: &str, b: &str) -> (r: String)
    ensures
        r@ == a@ + b@,
{
    let mut r = String::new();
    r.append(a);
    r.append(b);
    r
}

/// The texts once more.
pub fn copies(texts: &[String]) -> (r: Vec<String>)
    ensures
        r.deep_view() == texts.deep_view(),
{
    let mut r: Vec<String> = Vec::new();
    let mut i: usize = 0;
    while i < texts.len()
        invariant
            i <= texts@.len(),
            r@.len() == i,
            forall|j: int| 0 <= j < i ==> (#[trigger] r@[j])@ == texts@[j]@,
        decreases texts.len() - i,
    {
        r.push(texts[i].clone());
        i += 1;
    }
    assert(r.deep_view() =~= texts.deep_view());
    r
}

/// Whether two texts are the same, character by character.
pub fn same_text(a: &str, b: &str) -> (r: bool)
    ensures
        r == (a@ == b@),
{
    a.to_owned() == b.to_owned()
}

/// Whether two byte strings are the same, byte by byte.
pub fn same_bytes(a: &[u8], b: &[u8]) -> (r: bool)
    ensures
        r == (a@ == b@),
{
    if a.len() != b.len() {
        return false;
    }
    let mut i: usize = 0;
    while i < a.len()
        invariant
            i <= a.len(),
            a@.len() == b@.len(),
            forall|j: int| 0 <= j < i ==> a@[j] == b@[j],
        decreases a.len() - i,
    {
        if a[i] != b[i] {
            return false;
        }
        i += 1;
    }
    assert(a@ =~= b@);
    true
}

/// Appends every byte of `more` to `bytes`.
pub fn push_bytes(bytes: &mut Vec<u8>, more: &[u8])
    ensures
        final(bytes)@ == old(bytes)@ + more@,
{
    let ghost start = bytes@;
    let mut i: usize = 0;
    while i < more.len()
        invariant
            i <= more.len(),
            bytes@ == start + more@.take(i as int),
        decreases more.len() - i,
    {
        bytes.push(more[i]);
        assert(more@.take(i + 1) == more@.take(i as int).push(more@[i as int]));
        i += 1;
    }
    assert(more@.take(more@.len() as int) == more@);
}

// ---------------------------------------------------------------------------
// White space
// ---------------------------------------------------------------------------

/// The characters that Unicode gives the property `White_Space`.
pub open spec fn is_space(c: char) -> bool {
    let n = c as u32;
    ||| 0x09 <= n <= 0x0d
    ||| n == 0x20
    ||| n == 0x85
    ||| n == 0xa0
    ||| n == 0x1680
    ||| 0x2000 <= n <= 0x200a
    ||| n == 0x2028
    ||| n == 0x2029
    ||| n == 0x202f
    ||| n == 0x205f
    ||| n == 0x3000
}

/// Whether Unicode gives `c` the property `White_Space`.
pub fn space(c: char) -> (r: bool)
    ensures
        r == is_space(c),
{
    let n: u32 = c as u32;
    (0x09 <= n && n <= 0x0d) || n == 0x20 || n == 0x85 || n == 0xa0 || n == 0x1680 || (0x2000 <= n
        && n <= 0x200a) || n == 0x2028 || n == 0x2029 || n == 0x202f || n == 0x205f || n == 0x3000
}

/// The text without the white space that it starts with.
pub open spec fn trimmed_start(s: Seq<char>) -> Seq<char>
    decreases s.len(),
{
    if s.len() > 0 && is_space(s[0]) {
        trimmed_start(s.drop_first())
    } else {
        s
    }
}

/// The text without the white space that it ends with.
pub open spec fn trimmed_end(s: Seq<char>) -> Seq<char>
    decreases s.len(),
{
    if s.len() > 0 && is_space(s.last()) {
        trimmed_end(s.drop_last())
    } else {
        s
    }
}

/// The text without the white space around it.
pub open spec fn trimmed(s: Seq<char>) -> Seq<char> {
    trimmed_end(trimmed_start(s))
}

/// The index where `v[from..to]` ends once the white space at its end is cut.
fn end_of_text(v: &Vec<char>, from: usize, to: usize) -> (r: usize)
    requires
        from <= to <= v@.len(),
    ensures
        from <= r <= to,
        v@.subrange(from as int, r as int) == trimmed_end(v@.subrange(from as int, to as int)),
{
    let mut r: usize = to;
    while r > from && space(v[r - 1])
        invariant
            from <= r <= to <= v@.len(),
            trimmed_end(v@.subrange(from as int, r as int)) == trimmed_end(
                v@.subrange(from as int, to as int),
            ),
        decreases r,
    {
        assert(v@.subrange(from as int, r as int).drop_last() == v@.subrange(
            from as int,
            r - 1,
        ));
        r -= 1;
    }
    r
}

/// The text of `v` without the white space around it.
pub fn trim_chars(v: &Vec<char>) -> (r: String)
    ensures
        r@ == trimmed(v@),
{
    let n = v.len();
    let mut from: usize = 0;
    assert(v@.subrange(0, n as int) == v@);
    while from < n && space(v[from])
        invariant
            from <= n == v@.len(),
            trimmed_start(v@.subrange(from as int, n as int)) == trimmed_start(v@),
        decreases n - from,
    {
        assert(v@.subrange(from as int, n as int).drop_first() == v@.subrange(
            from + 1,
            n as int,
        ));
        from += 1;
    }
    let to = end_of_text(v, from, n);
    text_of(v, from, to)
}

/// The text without the white space around it.
pub fn trim(s: &str) -> (r: String)
    ensures
        r@ == trimmed(s@),
{
    let v = chars_of(s);
    trim_chars(&v)
}

/// The text without the white space that it ends with.
pub fn trim_end(s: &str) -> (r: String)
    ensures
        r@ == trimmed_end(s@),
{
    let v = chars_of(s);
    let to = end_of_text(&v, 0, v.len());
    assert(v@.subrange(0, v@.len() as int) == v@);
    text_of(&v, 0, to)
}

// ---------------------------------------------------------------------------
// Lines
// ---------------------------------------------------------------------------

/// What stands between the line feeds of a text: one piece more than it has
/// line feeds.
pub open spec fn pieces(s: Seq<char>) -> Seq<Seq<char>>
    decreases s.len(),
{
    if s.len() == 0 {
        seq![Seq::empty()]
    } else {
        let before = pieces(s.drop_last());
        if s.last() == '\n' {
            before.push(Seq::empty())
        } else {
            before.drop_last().push(before.last().push(s.last()))
        }
    }
}

/// The pieces without the white space around each, the blank ones left out.
pub open spec fn solid(pieces: Seq<Seq<char>>) -> Seq<Seq<char>>
    decreases pieces.len(),
{
    if pieces.len() == 0 {
        Seq::empty()
    } else {
        let before = solid(pieces.drop_last());
        let piece = trimmed(pieces.last());
        if piece.len() == 0 {
            before
        } else {
            before.push(piece)
        }
    }
}

/// The lines of a text without the white space around each, the blank ones
/// left out. A carriage return before a line feed is such white space.
pub open spec fn solid_lines(s: Seq<char>) -> Seq<Seq<char>> {
    solid(pieces(s))
}

/// Joining two texts end to end joins the last piece of the one with the first
/// piece of the other.
proof fn lemma_pieces_of_parts(a: Seq<char>, b: Seq<char>)
    ensures
        pieces(a).len() > 0,
        pieces(b).len() > 0,
        pieces(a + b) == pieces(a).drop_last() + seq![pieces(a).last() + pieces(b)[0]]
            + pieces(b).drop_first(),
    decreases a.len() + b.len(),
{
    if b.len() == 0 {
        if a.len() > 0 {
            lemma_pieces_of_parts(a.drop_last(), b);
        }
        assert(a + b == a);
        assert(pieces(b).drop_first() == Seq::<Seq<char>>::empty());
        assert(pieces(a).last() + pieces(b)[0] == pieces(a).last());
        assert(pieces(a) =~= pieces(a).drop_last() + seq![pieces(a).last()]);
    } else {
        let c = b.drop_last();
        lemma_pieces_of_parts(a, c);
        assert((a + b).drop_last() == a + c);
        let whole = pieces(a).drop_last() + seq![pieces(a).last() + pieces(b)[0]]
            + pieces(b).drop_first();
        if b.last() != '\n' && pieces(c).len() == 1 {
            assert(pieces(b)[0] == pieces(c)[0].push(b.last()));
            assert(pieces(a).last() + pieces(b)[0] == (pieces(a).last() + pieces(c)[0]).push(
                b.last(),
            ));
        }
        assert(pieces(a + b) =~= whole);
    }
}

proof fn lemma_solid_of_parts(p: Seq<Seq<char>>, q: Seq<Seq<char>>)
    ensures
        solid(p + q) == solid(p) + solid(q),
    decreases q.len(),
{
    if q.len() == 0 {
        assert(p + q == p);
        assert(solid(p) + solid(q) == solid(p));
    } else {
        lemma_solid_of_parts(p, q.drop_last());
        assert((p + q).drop_last() == p + q.drop_last());
        assert(solid(p + q) =~= solid(p) + solid(q));
    }
}

/// A text that holds no line feed is one piece.
proof fn lemma_one_piece(line: Seq<char>)
    requires
        !line.contains('\n'),
    ensures
        pieces(line) == seq![line],
    decreases line.len(),
{
    if line.len() > 0 {
        assert(line.contains(line.last()));
        assert forall|i: int| 0 <= i < line.len() - 1 implies line.drop_last()[i] != '\n' by {
            assert(line.contains(line[i]));
        }
        lemma_one_piece(line.drop_last());
        assert(line.drop_last().push(line.last()) == line);
        assert(pieces(line) =~= seq![line]);
    } else {
        assert(line == Seq::<char>::empty());
    }
}

/// Whether `line` stands between `before` and `after` as a line of its own.
pub open spec fn is_line_between(before: Seq<char>, line: Seq<char>, after: Seq<char>) -> bool {
    &&& before.len() == 0 || before.last() == '\n'
    &&& !line.contains('\n')
    &&& after.len() == 0 || after[0] == '\n'
}

/// The lines of a text are those before a line, the line itself unless it is
/// blank, and those after it; taking the line out takes out nothing else.
pub proof fn law_line_stands_between(before: Seq<char>, line: Seq<char>, after: Seq<char>)
    requires
        is_line_between(before, line, after),
    ensures
        solid_lines(before + line + after) == (if trimmed(line).len() == 0 {
            solid_lines(before)
        } else {
            solid_lines(before).push(trimmed(line))
        }) + solid_lines(after),
        solid_lines(before + after) == solid_lines(before) + solid_lines(after),
{
    let blank = Seq::<char>::empty();
    let none = Seq::<Seq<char>>::empty();
    let p = pieces(before);
    let q = pieces(after);
    assert(trimmed(blank) == blank);
    assert(seq![blank].drop_last() == none && seq![line].drop_last() == none);
    assert(solid(none) == none);
    assert(solid(seq![blank]) == none);
    assert(p.last() == blank);
    if after.len() > 0 {
        let feed = seq!['\n'];
        let rest = after.drop_first();
        lemma_pieces_of_parts(feed, rest);
        assert(after == feed + rest);
        assert(feed.drop_last() == blank);
        assert(pieces(blank) == seq![blank]);
        assert(pieces(feed) =~= seq![blank, blank]);
        assert(q[0] == blank);
    }
    lemma_one_piece(line);
    lemma_pieces_of_parts(before, line);
    lemma_pieces_of_parts(before + line, after);
    lemma_pieces_of_parts(before, after);
    assert(p =~= p.drop_last() + seq![blank]);
    assert(q =~= seq![blank] + q.drop_first());
    lemma_solid_of_parts(p.drop_last(), seq![blank]);
    lemma_solid_of_parts(seq![blank], q.drop_first());
    assert(solid(p) =~= solid(p.drop_last()));
    assert(solid(q) =~= solid(q.drop_first()));
    assert(blank + line == line && line + blank == line && blank + blank == blank);
    assert(pieces(before + line) =~= p.drop_last() + seq![line]);
    assert(pieces(before + line).drop_last() =~= p.drop_last());
    assert(pieces(before + line + after) =~= p.drop_last() + seq![line] + q.drop_first());
    lemma_solid_of_parts(p.drop_last() + seq![line], q.drop_first());
    assert((p.drop_last() + seq![line]).drop_last() == p.drop_last());
    assert(pieces(before + after) =~= p.drop_last() + q);
    lemma_solid_of_parts(p.drop_last(), q);
}

/// Keeps the line `line` if anything but white space stands in it.
fn keep_solid(lines: &mut Vec<String>, line: &Vec<char>, Ghost(done): Ghost<Seq<Seq<char>>>)
    requires
        old(lines).deep_view() == solid(done),
    ensures
        final(lines).deep_view() == solid(done.push(line@)),
{
    let piece = trim_chars(line);
    assert(done.push(line@).drop_last() == done);
    if !piece.as_str().is_empty() {
        let ghost before = lines.deep_view();
        lines.push(piece);
        assert(lines.deep_view() == before.push(piece@));
    }
}

/// The lines of a text without the white space around each, the blank ones
/// left out.
pub fn nonempty_lines(s: &str) -> (r: Vec<String>)
    ensures
        r.deep_view() == solid_lines(s@),
{
    let v = chars_of(s);
    let mut lines: Vec<String> = Vec::new();
    let mut line: Vec<char> = Vec::new();
    let ghost mut done: Seq<Seq<char>> = Seq::empty();
    assert(lines.deep_view() == solid(done));
    assert(pieces(v@.take(0)) == done.push(line@));
    let mut i: usize = 0;
    while i < v.len()
        invariant
            i <= v@.len(),
            lines.deep_view() == solid(done),
            pieces(v@.take(i as int)) == done.push(line@),
        decreases v.len() - i,
    {
        let c = v[i];
        assert(v@.take(i + 1).drop_last() == v@.take(i as int));
        assert(done.push(line@).drop_last() == done);
        if c == '\n' {
            keep_solid(&mut lines, &line, Ghost(done));
            proof {
                done = done.push(line@);
            }
            line = Vec::new();
        } else {
            line.push(c);
        }
        i += 1;
    }
    assert(v@.take(v@.len() as int) == s@);
    keep_solid(&mut lines, &line, Ghost(done));
    lines
}

/// The first line of a text in which anything but white space stands, without
/// the white space around it.
pub fn first_nonempty_line(s: &str) -> (r: Option<String>)
    ensures
        match r {
            Some(line) => solid_lines(s@).len() > 0 && line@ == solid_lines(s@)[0],
            None => solid_lines(s@).len() == 0,
        },
{
    let lines = nonempty_lines(s);
    assert(lines.deep_view().len() == lines@.len());
    if lines.len() == 0 {
        None
    } else {
        let line = lines[0].clone();
        assert(lines.deep_view()[0] == line@);
        Some(line)
    }
}

// ---------------------------------------------------------------------------
// Joining
// ---------------------------------------------------------------------------

/// The texts joined end to end, with `between` between each two.
pub open spec fn joined(texts: Seq<Seq<char>>, between: Seq<char>) -> Seq<char>
    decreases texts.len(),
{
    if texts.len() == 0 {
        Seq::empty()
    } else if texts.len() == 1 {
        texts[0]
    } else {
        joined(texts.drop_last(), between) + between + texts.last()
    }
}

/// The texts joined end to end, with `between` between each two.
pub fn join(texts: &Vec<String>, between: &str) -> (r: String)
    ensures
        r@ == joined(texts.deep_view(), between@),
{
    let ghost all = texts.deep_view();
    let mut r = String::new();
    let mut i: usize = 0;
    while i < texts.len()
        invariant
            i <= texts@.len(),
            all == texts.deep_view(),
            all.len() == texts@.len(),
            r@ == joined(all.take(i as int), between@),
        decreases texts.len() - i,
    {
        assert(all.take(i + 1).drop_last() == all.take(i as int));
        assert(all[i as int] == texts@[i as int]@);
        if i > 0 {
            r.append(between);
        }
        r.append(texts[i].as_str());
        i += 1;
    }
    assert(all.take(all.len() as int) == all);
    r
}

// ---------------------------------------------------------------------------
// Decimal numerals
// ---------------------------------------------------------------------------

/// The decimal digit that stands for `d`.
pub open spec fn digit(d: int) -> char {
    (0x30 + d) as char
}

/// The decimal numeral of `n`, without leading zeros.
pub open spec fn decimal(n: nat) -> Seq<char>
    decreases n,
{
    if n < 10 {
        seq![digit(n as int)]
    } else {
        decimal(n / 10).push(digit((n % 10) as int))
    }
}

/// The decimal numeral of `n`, with a minus sign before a negative one.
pub open spec fn signed_decimal(n: int) -> Seq<char> {
    if n < 0 {
        seq!['-'] + decimal((-n) as nat)
    } else {
        decimal(n as nat)
    }
}

/// Appends the decimal numeral of `n`.
pub fn push_decimal(out: &mut String, n: u128)
    ensures
        final(out)@ == old(out)@ + decimal(n as nat),
    decreases n,
{
    if n >= 10 {
        push_decimal(out, n / 10);
    }
    let d: u8 = (n % 10) as u8;
    let c: char = (48 + d) as char;
    assert(c == digit((n % 10) as int));
    out.push(c);
}

/// The decimal numeral of `n`.
pub fn decimal_text(n: u128) -> (r: String)
    ensures
        r@ == decimal(n as nat),
{
    let mut r = String::new();
    push_decimal(&mut r, n);
    assert(Seq::<char>::empty() + decimal(n as nat) == decimal(n as nat));
    r
}

/// The decimal numeral of `n`, with a minus sign before a negative one.
pub fn signed_decimal_text(n: i32) -> (r: String)
    ensures
        r@ == signed_decimal(n as int),
{
    let mut r = String::new();
    let wide: i64 = n as i64;
    if wide < 0 {
        r.push('-');
        push_decimal(&mut r, (-wide) as u128);
        assert(Seq::<char>::empty().push('-') == seq!['-']);
    } else {
        push_decimal(&mut r, wide as u128);
        assert(Seq::<char>::empty() + decimal(n as nat) == decimal(n as nat));
    }
    r
}

/// Whether `c` is a decimal digit.
pub open spec fn is_digit(c: char) -> bool {
    0x30 <= c as u32 <= 0x39
}

/// The number that a row of decimal digits stands for.
pub open spec fn digits_value(s: Seq<char>) -> nat
    decreases s.len(),
{
    if s.len() == 0 {
        0
    } else {
        digits_value(s.drop_last()) * 10 + (s.last() as u32 - 0x30) as nat
    }
}

/// The text without one plus sign at its start.
pub open spec fn without_plus(s: Seq<char>) -> Seq<char> {
    if s.len() > 0 && s[0] == '+' {
        s.drop_first()
    } else {
        s
    }
}

/// The number below 2^64 that a text is a numeral of: an optional plus sign,
/// then decimal digits, at least one, and nothing else.
pub open spec fn parsed_u64(s: Seq<char>) -> Option<u64> {
    let digits = without_plus(s);
    if digits.len() > 0 && (forall|i: int| 0 <= i < digits.len() ==> is_digit(#[trigger] digits[i]))
        && digits_value(digits) <= u64::MAX {
        Some(digits_value(digits) as u64)
    } else {
        None
    }
}

/// More digits never make the number smaller.
proof fn lemma_digits_value_grows(s: Seq<char>, i: int)
    requires
        0 <= i <= s.len(),
        forall|j: int| 0 <= j < s.len() ==> is_digit(#[trigger] s[j]),
    ensures
        digits_value(s.take(i)) <= digits_value(s),
    decreases s.len(),
{
    if i < s.len() {
        lemma_digits_value_grows(s.drop_last(), i);
        assert(s.drop_last().take(i) == s.take(i));
    } else {
        assert(s.take(i) == s);
    }
}

/// The number below 2^64 that a text is a numeral of, if it is one.
pub fn parse_u64(s: &str) -> (r: Option<u64>)
    ensures
        r == parsed_u64(s@),
{
    let v = chars_of(s);
    let from: usize = if v.len() > 0 && v[0] == '+' {
        1
    } else {
        0
    };
    let ghost digits = without_plus(s@);
    assert(digits == v@.skip(from as int));
    if from == v.len() {
        return None;
    }
    let mut n: u64 = 0;
    let mut i: usize = from;
    let mut fits: bool = true;
    assert(digits.take(0) == Seq::<char>::empty());
    while i < v.len()
        invariant
            from <= i <= v@.len(),
            digits == v@.skip(from as int),
            digits == without_plus(s@),
            forall|j: int| 0 <= j < i - from ==> is_digit(#[trigger] digits[j]),
            fits ==> n == digits_value(digits.take(i - from)),
            !fits ==> digits_value(digits.take(i - from)) > u64::MAX,
        decreases v.len() - i,
    {
        let c: u32 = v[i] as u32;
        assert(digits[i - from] == v@[i as int]);
        if c < 0x30 || c > 0x39 {
            assert(!is_digit(digits[i - from]));
            return None;
        }
        assert(digits.take(i - from + 1).drop_last() == digits.take(i - from));
        let d: u64 = (c - 0x30) as u64;
        if fits {
            let wide: u128 = n as u128 * 10 + d as u128;
            if wide <= 0xffff_ffff_ffff_ffff {
                n = wide as u64;
            } else {
                fits = false;
            }
        }
        i += 1;
    }
    assert(digits.take(digits.len() as int) == digits);
    if fits {
        Some(n)
    } else {
        None
    }
}

/// Reading a numeral gives back the number it was written for.
pub proof fn law_decimal_is_read_back(n: u64)
    ensures
        parsed_u64(decimal(n as nat)) == Some(n),
{
    lemma_decimal_digits(n as nat);
}

proof fn lemma_decimal_digits(n: nat)
    ensures
        decimal(n).len() > 0,
        forall|i: int| 0 <= i < decimal(n).len() ==> is_digit(#[trigger] decimal(n)[i]),
        digits_value(decimal(n)) == n,
        decimal(n)[0] != '+',
    decreases n,
{
    if n >= 10 {
        lemma_decimal_digits(n / 10);
        assert(decimal(n).drop_last() == decimal(n / 10));
    } else {
        assert(decimal(n).drop_last() == Seq::<char>::empty());
        assert(digits_value(Seq::<char>::empty()) == 0);
    }
}

// ---------------------------------------------------------------------------
// Hexadecimal
// ---------------------------------------------------------------------------

/// The lower-case hexadecimal digit that stands for `d`.
pub open spec fn hex_digit(d: int) -> char {
    if d < 10 {
        (0x30 + d) as char
    } else {
        (0x61 + d - 10) as char
    }
}

/// Two lower-case hexadecimal digits for each byte, the high one first.
pub open spec fn hex(bytes: Seq<u8>) -> Seq<char> {
    Seq::new(
        bytes.len() * 2,
        |i: int|
            if i % 2 == 0 {
                hex_digit(bytes[i / 2] as int / 16)
            } else {
                hex_digit(bytes[i / 2] as int % 16)
            },
    )
}

fn hex_char(d: u8) -> (r: char)
    requires
        d < 16,
    ensures
        r == hex_digit(d as int),
{
    if d < 10 {
        (48 + d) as char
    } else {
        (97 + (d - 10)) as char
    }
}

/// Two lower-case hexadecimal digits for each byte, the high one first.
pub fn hex_text(bytes: &[u8]) -> (r: String)
    ensures
        r@ == hex(bytes@),
{
    let mut r = String::new();
    let mut i: usize = 0;
    assert(hex(bytes@.take(0)) == Seq::<char>::empty());
    while i < bytes.len()
        invariant
            i <= bytes@.len(),
            r@ == hex(bytes@.take(i as int)),
        decreases bytes.len() - i,
    {
        let b = bytes[i];
        r.push(hex_char(b / 16));
        r.push(hex_char(b % 16));
        assert(r@ =~= hex(bytes@.take(i + 1)));
        i += 1;
    }
    assert(bytes@.take(bytes@.len() as int) == bytes@);
    r
}

/// Different byte strings have different hexadecimal texts.
pub proof fn law_hex_is_injective(a: Seq<u8>, b: Seq<u8>)
    requires
        hex(a) == hex(b),
    ensures
        a == b,
{
    assert(hex(a).len() == a.len() * 2);
    assert(hex(b).len() == b.len() * 2);
    assert forall|i: int| 0 <= i < a.len() implies a[i] == b[i] by {
        assert((2 * i) / 2 == i && (2 * i + 1) / 2 == i && (2 * i) % 2 == 0 && (2 * i + 1) % 2
            == 1);
        assert(hex(a)[2 * i] == hex_digit(a[i] as int / 16));
        assert(hex(b)[2 * i] == hex_digit(b[i] as int / 16));
        assert(hex(a)[2 * i + 1] == hex_digit(a[i] as int % 16));
        assert(hex(b)[2 * i + 1] == hex_digit(b[i] as int % 16));
    }
    assert(a =~= b);
}

// ---------------------------------------------------------------------------
// What the texts above are
// ---------------------------------------------------------------------------

/// Nothing but white space.
pub open spec fn all_space(s: Seq<char>) -> bool {
    forall|i: int| 0 <= i < s.len() ==> is_space(#[trigger] s[i])
}

/// White space is what Unicode calls so: tab to carriage return, the space, and
/// the separators beyond ASCII.
pub proof fn law_white_space(c: char)
    ensures
        is_space(c) <==> {
            ||| c == '\t' || c == '\n' || c == '\u{b}' || c == '\u{c}' || c == '\r' || c == ' '
            ||| c == '\u{85}' || c == '\u{a0}' || c == '\u{1680}'
            ||| '\u{2000}' as u32 <= c as u32 <= '\u{200a}' as u32
            ||| c == '\u{2028}' || c == '\u{2029}' || c == '\u{202f}' || c == '\u{205f}'
            ||| c == '\u{3000}'
        },
{
}

/// Trimming cuts white space and nothing else off both ends, and all of it: a text
/// is what was cut, the trimmed text and what was cut, and the trimmed text
/// neither starts nor ends with white space.
pub proof fn law_trimming_cuts_all_white_space_around(s: Seq<char>)
    ensures
        trimmed(s).len() > 0 ==> !is_space(trimmed(s)[0]) && !is_space(trimmed(s).last()),
        exists|l: Seq<char>, r: Seq<char>|
            all_space(l) && all_space(r) && s == #[trigger] (l + trimmed(s) + r),
{
    lemma_cut_at_start(s);
    let rest = trimmed_start(s);
    law_trimming_the_end_cuts_all_white_space_there(rest);
    let l = choose|l: Seq<char>| all_space(l) && s == #[trigger] (l + rest);
    let r = choose|r: Seq<char>| all_space(r) && rest == #[trigger] (trimmed_end(rest) + r);
    assert(l + (trimmed(s) + r) == l + trimmed(s) + r);
    if trimmed(s).len() > 0 {
        assert(trimmed(s)[0] == rest[0]);
    }
}

/// Trimming the end cuts white space and nothing else off it, and all of it.
pub proof fn law_trimming_the_end_cuts_all_white_space_there(s: Seq<char>)
    ensures
        trimmed_end(s).len() > 0 ==> !is_space(trimmed_end(s).last()),
        exists|r: Seq<char>| all_space(r) && s == #[trigger] (trimmed_end(s) + r),
    decreases s.len(),
{
    if s.len() > 0 && is_space(s.last()) {
        law_trimming_the_end_cuts_all_white_space_there(s.drop_last());
        let r = choose|r: Seq<char>|
            all_space(r) && s.drop_last() == #[trigger] (trimmed_end(s.drop_last()) + r);
        assert(all_space(r.push(s.last())));
        assert(s == s.drop_last().push(s.last()));
        assert((trimmed_end(s) + r).push(s.last()) == trimmed_end(s) + r.push(s.last()));
    } else {
        assert(s =~= trimmed_end(s) + Seq::<char>::empty());
    }
}

proof fn lemma_cut_at_start(s: Seq<char>)
    ensures
        trimmed_start(s).len() > 0 ==> !is_space(trimmed_start(s)[0]),
        exists|l: Seq<char>| all_space(l) && s == #[trigger] (l + trimmed_start(s)),
    decreases s.len(),
{
    if s.len() > 0 && is_space(s[0]) {
        lemma_cut_at_start(s.drop_first());
        let l = choose|l: Seq<char>|
            all_space(l) && s.drop_first() == #[trigger] (l + trimmed_start(s.drop_first()));
        let longer = seq![s[0]] + l;
        assert(all_space(longer));
        assert(s == seq![s[0]] + s.drop_first());
        assert(seq![s[0]] + (l + trimmed_start(s)) == longer + trimmed_start(s));
    } else {
        assert(s =~= Seq::<char>::empty() + trimmed_start(s));
    }
}

/// Joining texts in two parts is joining them all: what is joined of the parts
/// stands in order, with `between` between them; one text is joined to itself and
/// none to nothing.
pub proof fn law_texts_are_joined_in_parts(
    a: Seq<Seq<char>>,
    b: Seq<Seq<char>>,
    between: Seq<char>,
)
    ensures
        a.len() == 0 ==> joined(a, between) == Seq::<char>::empty(),
        a.len() == 1 ==> joined(a, between) == a[0],
        a.len() > 0 && b.len() > 0 ==> joined(a + b, between) == joined(a, between) + between
            + joined(b, between),
    decreases b.len(),
{
    if a.len() > 0 && b.len() > 0 {
        assert((a + b).drop_last() == a + b.drop_last());
        if b.len() == 1 {
            assert(a + b.drop_last() == a);
        } else {
            law_texts_are_joined_in_parts(a, b.drop_last(), between);
            assert(joined(a + b, between) =~= joined(a, between) + between + joined(b, between));
        }
    }
}

/// A text is cut at its line feeds and nowhere else: no piece holds one, and
/// joining the pieces by line feeds gives the text back.
pub proof fn law_pieces_join_back(s: Seq<char>)
    ensures
        pieces(s).len() > 0,
        forall|i: int| 0 <= i < pieces(s).len() ==> !(#[trigger] pieces(s)[i]).contains('\n'),
        joined(pieces(s), seq!['\n']) == s,
    decreases s.len(),
{
    let feed = seq!['\n'];
    if s.len() == 0 {
        assert(s == Seq::<char>::empty());
    } else {
        law_pieces_join_back(s.drop_last());
        let before = pieces(s.drop_last());
        let p = pieces(s);
        assert(s == s.drop_last().push(s.last()));
        if s.last() == '\n' {
            assert(p.drop_last() == before);
            assert(joined(p, feed) =~= s);
        } else {
            assert(p.drop_last() == before.drop_last());
            assert forall|i: int| 0 <= i < p.len() implies !(#[trigger] p[i]).contains('\n') by {
                if i < p.len() - 1 {
                    assert(p[i] == before[i]);
                } else {
                    let last = before.last();
                    assert(before[before.len() - 1] == last);
                    assert forall|k: int| 0 <= k < p[i].len() implies p[i][k] != '\n' by {
                        if k < last.len() {
                            assert(last.contains(last[k]));
                        }
                    }
                }
            }
            assert(joined(p, feed) =~= joined(before, feed).push(s.last()));
        }
    }
}

/// The lines of a text are its pieces, each trimmed, without those that are then
/// empty, in the order in which they stand.
pub proof fn law_lines_are_the_solid_pieces(s: Seq<char>)
    ensures
        solid_lines(s) == pieces(s).map_values(|piece: Seq<char>| trimmed(piece)).filter(
            |piece: Seq<char>| piece.len() > 0,
        ),
{
    lemma_solid_is_a_filter(pieces(s));
}

proof fn lemma_solid_is_a_filter(p: Seq<Seq<char>>)
    ensures
        solid(p) == p.map_values(|piece: Seq<char>| trimmed(piece)).filter(
            |piece: Seq<char>| piece.len() > 0,
        ),
    decreases p.len(),
{
    reveal(Seq::filter);
    let f = |piece: Seq<char>| trimmed(piece);
    if p.len() > 0 {
        lemma_solid_is_a_filter(p.drop_last());
        assert(p.map_values(f).drop_last() =~= p.drop_last().map_values(f));
        assert(p.map_values(f).last() == trimmed(p.last()));
    }
}

/// A decimal numeral is made of digits, does not start with a zero unless it is
/// that, and stands for the number.
pub proof fn law_decimal_stands_for_the_number(n: nat)
    ensures
        decimal(n).len() > 0,
        forall|i: int| 0 <= i < decimal(n).len() ==> '0' as u32 <= #[trigger] decimal(n)[i] as u32
            <= '9' as u32,
        decimal(n)[0] == '0' <==> n == 0,
        digits_value(decimal(n)) == n,
    decreases n,
{
    lemma_decimal_digits(n);
    if n >= 10 {
        law_decimal_stands_for_the_number(n / 10);
        assert(decimal(n)[0] == decimal(n / 10)[0]);
    }
}

/// One more digit makes ten times the number and the digit; no digit makes zero.
pub proof fn law_digits_weigh_ten(s: Seq<char>, c: char)
    requires
        '0' as u32 <= c as u32 <= '9' as u32,
    ensures
        digits_value(Seq::empty()) == 0,
        digits_value(s.push(c)) == digits_value(s) * 10 + (c as u32 - '0' as u32),
{
    assert(s.push(c).drop_last() == s);
}

/// A negative number is written as its opposite after a minus sign, any other as
/// it is.
pub proof fn law_minus_marks_the_negative(n: nat)
    ensures
        signed_decimal(n as int) == decimal(n),
        n > 0 ==> signed_decimal(-n) == seq!['-'] + decimal(n),
{
}

/// A text is read as a number exactly if it is digits, one at least, perhaps after
/// one plus sign, that stand for a number below 2^64: and then as that number.
pub proof fn law_numerals_are_read_exactly(s: Seq<char>, digits: Seq<char>, n: u64)
    requires
        s == digits && (s.len() > 0 ==> s[0] != '+') || s == seq!['+'] + digits,
    ensures
        parsed_u64(s) == Some(n) <==> {
            &&& digits.len() > 0
            &&& forall|i: int|
                0 <= i < digits.len() ==> '0' as u32 <= #[trigger] digits[i] as u32 <= '9' as u32
            &&& digits_value(digits) == n
        },
{
    if s == seq!['+'] + digits {
        assert(s.drop_first() == digits);
    }
}

/// The value of a lower-case hexadecimal digit.
pub open spec fn hex_value(c: char) -> int {
    if '0' as u32 <= c as u32 <= '9' as u32 {
        c as u32 - '0' as u32
    } else if 'a' as u32 <= c as u32 <= 'f' as u32 {
        c as u32 - 'a' as u32 + 10
    } else {
        -1
    }
}

/// The hexadecimal text has two lower-case digits for each byte, and they stand
/// for it, the high one first.
pub proof fn law_hex_stands_for_the_bytes(bytes: Seq<u8>, i: int)
    requires
        0 <= i < bytes.len(),
    ensures
        hex(bytes).len() == 2 * bytes.len(),
        0 <= hex_value(hex(bytes)[2 * i]) < 16,
        0 <= hex_value(hex(bytes)[2 * i + 1]) < 16,
        bytes[i] == 16 * hex_value(hex(bytes)[2 * i]) + hex_value(hex(bytes)[2 * i + 1]),
{
    assert((2 * i) / 2 == i && (2 * i + 1) / 2 == i && (2 * i) % 2 == 0 && (2 * i + 1) % 2 == 1);
    assert(hex(bytes)[2 * i] == hex_digit(bytes[i] as int / 16));
    assert(hex(bytes)[2 * i + 1] == hex_digit(bytes[i] as int % 16));
}

} // verus!
