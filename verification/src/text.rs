//! Text handling: the views of strings as sequences of characters, and the
//! few operations on them that the rest of the crate is built from.

use vstd::prelude::*;

verus! {

/// `String::push` appends one character.
pub assume_specification[ std::string::String::push ](s: &mut std::string::String, c: char)
    ensures
        final(s)@ == old(s)@.push(c),
;

/// Whether a character has the Unicode property `White_Space`.
pub uninterp spec fn is_whitespace(c: char) -> bool;

/// `char::is_whitespace` tells whether the character has the Unicode
/// property `White_Space`; the contract only gives that answer a name.
pub assume_specification[ char::is_whitespace ](c: char) -> (b: bool)
    ensures
        b == is_whitespace(c),
;

/// The texts that a list of strings holds.
pub open spec fn views(v: Seq<String>) -> Seq<Seq<char>> {
    Seq::new(v.len(), |i: int| v[i]@)
}

/// The characters of a string, one by one.
pub fn chars_of(s: &str) -> (v: Vec<char>)
    ensures
        v@ == s@,
{
    let mut v: Vec<char> = Vec::new();
    for c in it: s.chars()
        invariant
            it.seq() == s@,
            v@ == it.seq().take(it.index() as int),
    {
        v.push(c);
    }
    v
}

/// The string made of the characters `v[from..to]`.
pub fn text_of(v: &Vec<char>, from: usize, to: usize) -> (s: String)
    requires
        from <= to <= v.len(),
    ensures
        s@ == v@.subrange(from as int, to as int),
{
    let mut s = String::new();
    let mut i: usize = from;
    while i < to
        invariant
            from <= i <= to <= v.len(),
            s@ == v@.subrange(from as int, i as int),
        decreases to - i,
    {
        s.push(v[i]);
        i = i + 1;
    }
    s
}

/// `a` followed by `b`.
pub fn glue(a: &str, b: &str) -> (s: String)
    ensures
        s@ == a@ + b@,
{
    let mut s = String::from_str(a);
    s.append(b);
    s
}

/// Whether two strings hold the same text.
pub fn same(a: &str, b: &str) -> (r: bool)
    ensures
        r == (a@ == b@),
{
    let x = chars_of(a);
    let y = chars_of(b);
    if x.len() != y.len() {
        return false;
    }
    let mut i: usize = 0;
    while i < x.len()
        invariant
            i <= x.len(),
            x.len() == y.len(),
            x@ == a@,
            y@ == b@,
            x@.take(i as int) == y@.take(i as int),
        decreases x.len() - i,
    {
        if x[i] != y[i] {
            assert(x@[i as int] != y@[i as int]);
            return false;
        }
        assert(x@.take(i + 1) == x@.take(i as int).push(x@[i as int]));
        assert(y@.take(i + 1) == y@.take(i as int).push(y@[i as int]));
        i = i + 1;
    }
    assert(x@ == x@.take(x.len() as int));
    assert(y@ == y@.take(y.len() as int));
    true
}

/// `needle` stands in `s` at position `at`.
pub open spec fn occurs_at(s: Seq<char>, needle: Seq<char>, at: int) -> bool {
    0 <= at && at + needle.len() <= s.len() && s.subrange(at, at + needle.len()) == needle
}

/// `s` begins with `prefix`.
pub open spec fn starts_with(s: Seq<char>, prefix: Seq<char>) -> bool {
    occurs_at(s, prefix, 0)
}

/// `needle` stands somewhere in `s`.
pub open spec fn contains(s: Seq<char>, needle: Seq<char>) -> bool {
    exists|at: int| occurs_at(s, needle, at)
}

fn matches_at(s: &Vec<char>, needle: &Vec<char>, at: usize) -> (r: bool)
    requires
        at + needle.len() <= s.len(),
    ensures
        r == occurs_at(s@, needle@, at as int),
{
    let mut i: usize = 0;
    while i < needle.len()
        invariant
            i <= needle.len(),
            at + needle.len() <= s.len(),
            s@.subrange(at as int, at + i) == needle@.take(i as int),
        decreases needle.len() - i,
    {
        if s[at + i] != needle[i] {
            assert(s@.subrange(at as int, at + needle.len())[i as int] != needle@[i as int]);
            return false;
        }
        assert(s@.subrange(at as int, at + i + 1) == s@.subrange(at as int, at + i).push(
            s@[at + i],
        ));
        assert(needle@.take(i + 1) == needle@.take(i as int).push(needle@[i as int]));
        i = i + 1;
    }
    assert(needle@ == needle@.take(needle.len() as int));
    true
}

/// A text holds what it begins with.
pub proof fn lemma_contains_prefix(a: Seq<char>, b: Seq<char>)
    ensures
        contains(a + b, a),
{
    assert((a + b).subrange(0, a.len() as int) == a);
    assert(occurs_at(a + b, a, 0));
}

/// Whether `s` begins with `prefix`.
pub fn has_prefix(s: &str, prefix: &str) -> (r: bool)
    ensures
        r == starts_with(s@, prefix@),
{
    let x = chars_of(s);
    let p = chars_of(prefix);
    if p.len() > x.len() {
        return false;
    }
    matches_at(&x, &p, 0)
}

/// Whether `needle` stands somewhere in `s`.
pub fn has_part(s: &str, needle: &str) -> (r: bool)
    ensures
        r == contains(s@, needle@),
{
    let x = chars_of(s);
    let p = chars_of(needle);
    if p.len() > x.len() {
        return false;
    }
    let last: usize = x.len() - p.len();
    let mut at: usize = 0;
    loop
        invariant
            at <= last,
            x@ == s@,
            p@ == needle@,
            last == x.len() - p.len(),
            p.len() <= x.len(),
            forall|k: int| 0 <= k < at ==> !occurs_at(x@, p@, k),
        decreases last - at,
    {
        if matches_at(&x, &p, at) {
            assert(occurs_at(x@, p@, at as int));
            return true;
        }
        if at == last {
            return false;
        }
        at = at + 1;
    }
}

/// The pieces of `s` that end at a separator, and the piece after the last
/// separator, as far as it has come.
pub open spec fn pieces(s: Seq<char>, sep: char) -> (Seq<Seq<char>>, Seq<char>)
    decreases s.len(),
{
    if s.len() == 0 {
        (Seq::empty(), Seq::empty())
    } else {
        let (done, cur) = pieces(s.drop_last(), sep);
        if s.last() == sep {
            (done.push(cur), Seq::empty())
        } else {
            (done, cur.push(s.last()))
        }
    }
}

/// `s` cut at every separator: one piece more than there are separators.
pub open spec fn split(s: Seq<char>, sep: char) -> Seq<Seq<char>> {
    pieces(s, sep).0.push(pieces(s, sep).1)
}

/// `s` cut at every `sep`; the separators themselves are dropped.
pub fn split_at_char(s: &str, sep: char) -> (r: Vec<String>)
    ensures
        views(r@) == split(s@, sep),
{
    let x = chars_of(s);
    let mut out: Vec<String> = Vec::new();
    let mut start: usize = 0;
    let mut i: usize = 0;
    while i < x.len()
        invariant
            start <= i <= x.len(),
            views(out@) == pieces(x@.take(i as int), sep).0,
            x@.subrange(start as int, i as int) == pieces(x@.take(i as int), sep).1,
        decreases x.len() - i,
    {
        assert(x@.take(i + 1).drop_last() == x@.take(i as int));
        if x[i] == sep {
            let piece = text_of(&x, start, i);
            proof {
                assert(views(out@.push(piece)) == views(out@).push(piece@));
            }
            out.push(piece);
            start = i + 1;
            assert(x@.subrange(start as int, i + 1) == Seq::<char>::empty());
        } else {
            assert(x@.subrange(start as int, i + 1) == x@.subrange(start as int, i as int).push(
                x@[i as int],
            ));
        }
        i = i + 1;
    }
    assert(x@.take(x.len() as int) == x@);
    let piece = text_of(&x, start, i);
    proof {
        assert(views(out@.push(piece)) == views(out@).push(piece@));
    }
    out.push(piece);
    out
}

/// A line without the carriage return that may end it.
pub open spec fn without_cr(line: Seq<char>) -> Seq<char> {
    if line.len() > 0 && line.last() == '\r' {
        line.drop_last()
    } else {
        line
    }
}

/// The lines of a text. A line ends at a line feed; a carriage return just
/// before the line feed belongs to the line ending. Text after the last line
/// feed is a line of its own, unless it is empty.
pub open spec fn lines(s: Seq<char>) -> Seq<Seq<char>> {
    let (done, rest) = pieces(s, '\n');
    let ended = Seq::new(done.len(), |i: int| without_cr(done[i]));
    if rest.len() > 0 {
        ended.push(rest)
    } else {
        ended
    }
}

/// The lines of `s`, without their line endings.
pub fn lines_of(s: &str) -> (r: Vec<String>)
    ensures
        views(r@) == lines(s@),
{
    let x = chars_of(s);
    let mut out: Vec<String> = Vec::new();
    let mut start: usize = 0;
    let mut i: usize = 0;
    while i < x.len()
        invariant
            start <= i <= x.len(),
            views(out@) == Seq::new(
                pieces(x@.take(i as int), '\n').0.len(),
                |k: int| without_cr(pieces(x@.take(i as int), '\n').0[k]),
            ),
            x@.subrange(start as int, i as int) == pieces(x@.take(i as int), '\n').1,
        decreases x.len() - i,
    {
        assert(x@.take(i + 1).drop_last() == x@.take(i as int));
        if x[i] == '\n' {
            let end: usize = if i > start && x[i - 1] == '\r' {
                i - 1
            } else {
                i
            };
            let piece = text_of(&x, start, end);
            proof {
                let cur = x@.subrange(start as int, i as int);
                assert(piece@ == without_cr(cur)) by {
                    if i > start && x@[i - 1] == '\r' {
                        assert(cur.last() == x@[i - 1]);
                        assert(cur.drop_last() == x@.subrange(start as int, i - 1));
                    } else if i > start {
                        assert(cur.last() == x@[i - 1]);
                    }
                }
                assert(views(out@.push(piece)) == views(out@).push(piece@));
            }
            out.push(piece);
            start = i + 1;
            assert(x@.subrange(start as int, i + 1) == Seq::<char>::empty());
        } else {
            assert(x@.subrange(start as int, i + 1) == x@.subrange(start as int, i as int).push(
                x@[i as int],
            ));
        }
        i = i + 1;
    }
    assert(x@.take(x.len() as int) == x@);
    if start < i {
        let piece = text_of(&x, start, i);
        proof {
            assert(views(out@.push(piece)) == views(out@).push(piece@));
        }
        out.push(piece);
    }
    out
}

/// Whether a character parts words: a space, a tab or a line ending.
pub open spec fn is_blank(c: char) -> bool {
    c == ' ' || c == '\n' || c == '\t' || c == '\r'
}

/// The words of `s` that a blank has ended, and the word that has begun
/// after the last blank.
pub open spec fn word_pieces(s: Seq<char>) -> (Seq<Seq<char>>, Seq<char>)
    decreases s.len(),
{
    if s.len() == 0 {
        (Seq::empty(), Seq::empty())
    } else {
        let (done, cur) = word_pieces(s.drop_last());
        if is_blank(s.last()) {
            if cur.len() > 0 {
                (done.push(cur), Seq::empty())
            } else {
                (done, cur)
            }
        } else {
            (done, cur.push(s.last()))
        }
    }
}

/// The words of `s`: what stands between blanks, and is not empty.
pub open spec fn words(s: Seq<char>) -> Seq<Seq<char>> {
    let (done, cur) = word_pieces(s);
    if cur.len() > 0 {
        done.push(cur)
    } else {
        done
    }
}

/// The words of `s`.
pub fn words_of(s: &str) -> (r: Vec<String>)
    ensures
        views(r@) == words(s@),
{
    let x = chars_of(s);
    let mut out: Vec<String> = Vec::new();
    let mut start: usize = 0;
    let mut i: usize = 0;
    while i < x.len()
        invariant
            start <= i <= x.len(),
            views(out@) == word_pieces(x@.take(i as int)).0,
            x@.subrange(start as int, i as int) == word_pieces(x@.take(i as int)).1,
        decreases x.len() - i,
    {
        assert(x@.take(i + 1).drop_last() == x@.take(i as int));
        let c = x[i];
        if c == ' ' || c == '\n' || c == '\t' || c == '\r' {
            if start < i {
                let piece = text_of(&x, start, i);
                proof {
                    assert(views(out@.push(piece)) == views(out@).push(piece@));
                }
                out.push(piece);
            }
            start = i + 1;
            assert(x@.subrange(start as int, i + 1) == Seq::<char>::empty());
        } else {
            assert(x@.subrange(start as int, i + 1) == x@.subrange(start as int, i as int).push(
                x@[i as int],
            ));
        }
        i = i + 1;
    }
    assert(x@.take(x.len() as int) == x@);
    if start < i {
        let piece = text_of(&x, start, i);
        proof {
            assert(views(out@.push(piece)) == views(out@).push(piece@));
        }
        out.push(piece);
    }
    out
}

/// Whether one of the strings holds the text `t`.
pub fn has_text(v: &Vec<String>, t: &str) -> (r: bool)
    ensures
        r == views(v@).contains(t@),
{
    let mut i: usize = 0;
    while i < v.len()
        invariant
            i <= v.len(),
            forall|k: int| 0 <= k < i ==> views(v@)[k] != t@,
        decreases v.len() - i,
    {
        if same(v[i].as_str(), t) {
            assert(views(v@)[i as int] == t@);
            return true;
        }
        i = i + 1;
    }
    false
}

/// The texts of `v` in a row, with `sep` between each two.
pub open spec fn join(v: Seq<Seq<char>>, sep: Seq<char>) -> Seq<char>
    decreases v.len(),
{
    if v.len() == 0 {
        Seq::empty()
    } else if v.len() == 1 {
        v[0]
    } else {
        join(v.drop_last(), sep) + sep + v.last()
    }
}

/// The strings of `v` in a row, with `sep` between each two.
pub fn join_with(v: &Vec<String>, sep: &str) -> (s: String)
    ensures
        s@ == join(views(v@), sep@),
{
    let mut s = String::new();
    let mut i: usize = 0;
    while i < v.len()
        invariant
            i <= v.len(),
            s@ == join(views(v@).take(i as int), sep@),
        decreases v.len() - i,
    {
        proof {
            let now = views(v@).take(i + 1);
            assert(now.drop_last() == views(v@).take(i as int));
            assert(now.last() == v@[i as int]@);
        }
        if i > 0 {
            s.append(sep);
        } else {
            assert(Seq::<char>::empty() + v@[0]@ == v@[0]@);
        }
        s.append(v[i].as_str());
        i = i + 1;
    }
    assert(views(v@).take(v.len() as int) == views(v@));
    s
}

/// The character that stands for a digit.
pub open spec fn digit(d: int) -> char {
    if d == 0 {
        '0'
    } else if d == 1 {
        '1'
    } else if d == 2 {
        '2'
    } else if d == 3 {
        '3'
    } else if d == 4 {
        '4'
    } else if d == 5 {
        '5'
    } else if d == 6 {
        '6'
    } else if d == 7 {
        '7'
    } else if d == 8 {
        '8'
    } else {
        '9'
    }
}

/// A natural number in decimal, without leading zeros.
pub open spec fn decimal_nat(n: nat) -> Seq<char>
    decreases n,
{
    if n < 10 {
        seq![digit(n as int)]
    } else {
        decimal_nat(n / 10).push(digit((n % 10) as int))
    }
}

/// An integer in decimal, with a minus sign where it is negative.
pub open spec fn decimal(i: int) -> Seq<char> {
    if i < 0 {
        seq!['-'] + decimal_nat((-i) as nat)
    } else {
        decimal_nat(i as nat)
    }
}

fn digit_of(d: u64) -> (c: char)
    requires
        d < 10,
    ensures
        c == digit(d as int),
{
    if d == 0 {
        '0'
    } else if d == 1 {
        '1'
    } else if d == 2 {
        '2'
    } else if d == 3 {
        '3'
    } else if d == 4 {
        '4'
    } else if d == 5 {
        '5'
    } else if d == 6 {
        '6'
    } else if d == 7 {
        '7'
    } else if d == 8 {
        '8'
    } else {
        '9'
    }
}

fn push_decimal(s: &mut String, n: u64)
    ensures
        final(s)@ == old(s)@ + decimal_nat(n as nat),
    decreases n,
{
    if n < 10 {
        s.push(digit_of(n));
        assert(old(s)@.push(digit(n as int)) == old(s)@ + seq![digit(n as int)]);
    } else {
        push_decimal(s, n / 10);
        s.push(digit_of(n % 10));
        assert((old(s)@ + decimal_nat((n / 10) as nat)).push(digit((n % 10) as int)) == old(s)@
            + decimal_nat((n / 10) as nat).push(digit((n % 10) as int)));
    }
}

/// The decimal text of `i`.
pub fn decimal_of(i: i64) -> (s: String)
    ensures
        s@ == decimal(i as int),
{
    let mut s = String::new();
    if i < 0 {
        s.push('-');
        let n: u64 = if i == i64::MIN {
            9223372036854775808u64
        } else {
            (-i) as u64
        };
        push_decimal(&mut s, n);
        assert(Seq::<char>::empty().push('-') == seq!['-']);
    } else {
        push_decimal(&mut s, i as u64);
        assert(Seq::<char>::empty() + decimal_nat(i as nat) == decimal_nat(i as nat));
    }
    s
}

/// The value of a digit character in the given base, if it is one.
pub open spec fn digit_value(c: char, base: int) -> Option<int> {
    let d = c as int - '0' as int;
    if 0 <= d < base && d < 10 {
        Some(d)
    } else {
        None
    }
}

/// The number that a row of digits in the given base stands for, if every
/// character is such a digit and there is at least one.
pub open spec fn number(s: Seq<char>, base: int) -> Option<int>
    decreases s.len(),
{
    if s.len() == 0 {
        None
    } else {
        match digit_value(s.last(), base) {
            None => None,
            Some(d) => if s.len() == 1 {
                Some(d)
            } else {
                match number(s.drop_last(), base) {
                    None => None,
                    Some(n) => Some(n * base + d),
                }
            },
        }
    }
}

fn value_of(c: char, base: u64) -> (r: Option<u64>)
    requires
        2 <= base <= 10,
    ensures
        r matches Some(d) ==> digit_value(c, base as int) == Some(d as int),
        r is None ==> digit_value(c, base as int) is None,
{
    let code: u32 = c as u32;
    if code >= 48 && code < 48 + base as u32 {
        Some((code - 48) as u64)
    } else {
        None
    }
}

/// Reads `s` as a number in the given base. `None` where `s` is empty, holds
/// another character than a digit of that base, or stands for more than `max`.
pub fn parse_number(s: &str, base: u64, max: u64) -> (r: Option<u64>)
    requires
        2 <= base <= 10,
        max <= 0x7fff_ffff_ffff_ffff,
    ensures
        r matches Some(n) ==> number(s@, base as int) == Some(n as int) && n <= max,
        r is None ==> (number(s@, base as int) matches Some(n) ==> n > max),
{
    let x = chars_of(s);
    if x.len() == 0 {
        return None;
    }
    let mut n: u64 = 0;
    let mut i: usize = 0;
    while i < x.len()
        invariant
            i <= x.len(),
            x.len() > 0,
            x@ == s@,
            2 <= base <= 10,
            n <= max <= 0x7fff_ffff_ffff_ffff,
            i > 0 ==> number(x@.take(i as int), base as int) == Some(n as int),
            i == 0 ==> n == 0,
        decreases x.len() - i,
    {
        assert(x@.take(i + 1).drop_last() == x@.take(i as int));
        assert(x@.take(i + 1).last() == x@[i as int]);
        match value_of(x[i], base) {
            None => {
                proof {
                    assert(number(x@.take(i + 1), base as int) is None);
                    lemma_number_prefix(x@, i + 1, base as int);
                }
                return None;
            },
            Some(d) => {
                assert(n * base <= 0x7fff_ffff_ffff_ffff * 10) by (nonlinear_arith)
                    requires
                        0 <= n <= 0x7fff_ffff_ffff_ffff,
                        0 <= base <= 10,
                ;
                let next: u128 = n as u128 * base as u128 + d as u128;
                assert(number(x@.take(i + 1), base as int) == Some(next as int));
                if next > max as u128 {
                    proof {
                        lemma_number_grows(x@, i + 1, base as int);
                    }
                    return None;
                }
                n = next as u64;
            },
        }
        i = i + 1;
    }
    assert(x@.take(x.len() as int) == x@);
    Some(n)
}

/// If a prefix of `s` is no number, neither is `s`.
proof fn lemma_number_prefix(s: Seq<char>, k: int, base: int)
    requires
        0 < k <= s.len(),
        number(s.take(k), base) is None,
    ensures
        number(s, base) is None,
    decreases s.len() - k,
{
    if k < s.len() {
        assert(s.take(k + 1).drop_last() == s.take(k));
        lemma_number_prefix(s, k + 1, base);
    } else {
        assert(s.take(k) == s);
    }
}

/// A number is at least the number that any non-empty prefix of it stands for.
proof fn lemma_number_grows(s: Seq<char>, k: int, base: int)
    requires
        0 < k <= s.len(),
        base >= 2,
    ensures
        number(s, base) matches Some(n) ==> (number(s.take(k), base) matches Some(m) && m <= n
            && 0 <= m),
    decreases s.len() - k,
{
    if k < s.len() {
        assert(s.take(k + 1).drop_last() == s.take(k));
        lemma_number_grows(s, k + 1, base);
        if number(s, base) is Some {
            let m1 = number(s.take(k + 1), base)->0;
            assert(number(s.take(k), base) is Some);
            let m = number(s.take(k), base)->0;
            lemma_number_nonneg(s.take(k), base);
            assert(m * base >= m) by (nonlinear_arith)
                requires
                    m >= 0,
                    base >= 2,
            ;
        }
    } else {
        assert(s.take(k) == s);
        lemma_number_nonneg(s, base);
    }
}

proof fn lemma_number_nonneg(s: Seq<char>, base: int)
    requires
        base >= 2,
    ensures
        number(s, base) matches Some(n) ==> n >= 0,
    decreases s.len(),
{
    if s.len() > 1 {
        lemma_number_nonneg(s.drop_last(), base);
        if number(s, base) is Some {
            let n = number(s.drop_last(), base)->0;
            assert(n * base >= 0) by (nonlinear_arith)
                requires
                    n >= 0,
                    base >= 2,
            ;
        }
    }
}

/// `s` without the white space at its two ends.
pub open spec fn trimmed(s: Seq<char>) -> Seq<char>
    decreases s.len(),
{
    if s.len() == 0 {
        s
    } else if is_whitespace(s.first()) {
        trimmed(s.drop_first())
    } else if is_whitespace(s.last()) {
        trimmed(s.drop_last())
    } else {
        s
    }
}

/// `s` without the white space at its two ends.
pub fn trim(s: &str) -> (r: String)
    ensures
        r@ == trimmed(s@),
{
    let x = chars_of(s);
    let mut from: usize = 0;
    let mut to: usize = x.len();
    assert(x@.subrange(0, x.len() as int) == x@);
    while from < to && x[from].is_whitespace()
        invariant
            from <= to <= x.len(),
            trimmed(x@.subrange(from as int, to as int)) == trimmed(x@),
        decreases to - from,
    {
        assert(x@.subrange(from as int, to as int).drop_first() == x@.subrange(
            from + 1,
            to as int,
        ));
        from = from + 1;
    }
    while from < to && x[to - 1].is_whitespace()
        invariant
            from <= to <= x.len(),
            trimmed(x@.subrange(from as int, to as int)) == trimmed(x@),
            from < to ==> !is_whitespace(x@[from as int]),
        decreases to - from,
    {
        assert(x@.subrange(from as int, to as int).drop_last() == x@.subrange(
            from as int,
            to - 1,
        ));
        to = to - 1;
    }
    text_of(&x, from, to)
}

} // verus!
