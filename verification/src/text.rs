//! Text as sequences of characters: replacing, splitting, ordering and
//! decimal numbers.

use vstd::prelude::*;

verus! {

/// `String::push` appends the character to the end of the string.
pub assume_specification[ String::push ](s: &mut String, ch: char)
    ensures
        final(s)@ == old(s)@.push(ch),
;

/// The characters of `text`.
pub fn chars_of(text: &str) -> (r: Vec<char>)
    ensures
        r@ == text@,
{
    let mut r: Vec<char> = Vec::new();
    for c in it: text.chars()
        invariant
            r@ == it.seq().take(it.index() as int),
    {
        r.push(c);
    }
    r
}

/// The string that `chars` spell.
pub fn string_of(chars: &Vec<char>) -> (r: String)
    ensures
        r@ == chars@,
{
    let mut r = String::new();
    let mut i: usize = 0;
    while i < chars.len()
        invariant
            i <= chars.len(),
            r@ == chars@.take(i as int),
        decreases chars.len() - i,
    {
        r.push(chars[i]);
        i += 1;
    }
    r
}

/// `text` with every occurrence of `from` replaced by `to`. Occurrences are
/// found left to right and do not overlap; an empty `from` occurs nowhere.
pub open spec fn replace_all(text: Seq<char>, from: Seq<char>, to: Seq<char>) -> Seq<char>
    decreases text.len(),
{
    if from.len() == 0 || text.len() < from.len() {
        text
    } else if text.take(from.len() as int) == from {
        to + replace_all(text.skip(from.len() as int), from, to)
    } else {
        seq![text[0]] + replace_all(text.drop_first(), from, to)
    }
}

/// Whether `pattern` stands in `text` at position `at`.
fn occurs_at(text: &Vec<char>, at: usize, pattern: &Vec<char>) -> (r: bool)
    requires
        at <= text.len(),
    ensures
        r == (pattern.len() <= text.len() - at && text@.skip(at as int).take(pattern.len() as int)
            == pattern@),
{
    if pattern.len() > text.len() - at {
        return false;
    }
    let ghost window = text@.skip(at as int).take(pattern.len() as int);
    let mut i: usize = 0;
    while i < pattern.len()
        invariant
            i <= pattern.len(),
            pattern.len() <= text.len() - at,
            window == text@.skip(at as int).take(pattern.len() as int),
            forall|j: int| 0 <= j < i ==> window[j] == pattern[j],
        decreases pattern.len() - i,
    {
        if text[at + i] != pattern[i] {
            assert(window[i as int] != pattern[i as int]);
            return false;
        }
        i += 1;
    }
    assert(window =~= pattern@);
    true
}

/// Replaces every occurrence of `from` in `text` by `to`.
pub fn replace(text: &Vec<char>, from: &Vec<char>, to: &Vec<char>) -> (r: Vec<char>)
    ensures
        r@ == replace_all(text@, from@, to@),
{
    let mut r: Vec<char> = Vec::new();
    let mut i: usize = 0;
    assert(text@.skip(0) =~= text@);
    while i < text.len()
        invariant
            i <= text.len(),
            r@ + replace_all(text@.skip(i as int), from@, to@) == replace_all(text@, from@, to@),
        decreases text.len() - i,
    {
        let ghost rest = text@.skip(i as int);
        if from.len() > 0 && occurs_at(text, i, from) {
            let ghost before = r@;
            let mut k: usize = 0;
            while k < to.len()
                invariant
                    k <= to.len(),
                    r@ == before + to@.take(k as int),
                decreases to.len() - k,
            {
                r.push(to[k]);
                k += 1;
                assert(before + to@.take(k as int) =~= (before + to@.take(k - 1)).push(to[k - 1]));
            }
            assert(to@.take(to.len() as int) =~= to@);
            assert(rest.skip(from.len() as int) =~= text@.skip(i + from.len()));
            assert((before + to@) + replace_all(rest.skip(from.len() as int), from@, to@) =~= before
                + replace_all(rest, from@, to@));
            i += from.len();
        } else {
            let ghost before = r@;
            r.push(text[i]);
            assert(rest.drop_first() =~= text@.skip(i + 1));
            proof {
                if from.len() == 0 || rest.len() < from.len() {
                    assert(rest =~= seq![rest[0]] + rest.drop_first());
                }
            }
            assert(before.push(text[i as int]) + replace_all(rest.drop_first(), from@, to@) =~= before
                + replace_all(rest, from@, to@));
            i += 1;
        }
    }
    assert(r@ + Seq::<char>::empty() =~= r@);
    r
}

/// The pieces of `text` between occurrences of `separator`: one piece more
/// than there are separators, so an empty text has one empty piece.
pub open spec fn split(text: Seq<char>, separator: char) -> Seq<Seq<char>>
    decreases text.len(),
{
    if text.len() == 0 {
        seq![Seq::<char>::empty()]
    } else {
        let pieces = split(text.drop_last(), separator);
        if text.last() == separator {
            pieces.push(Seq::<char>::empty())
        } else {
            pieces.drop_last().push(pieces.last().push(text.last()))
        }
    }
}

/// The views of a list of strings.
pub open spec fn texts(list: Seq<String>) -> Seq<Seq<char>> {
    list.map_values(|s: String| s@)
}

/// Splits `text` at every occurrence of `separator`.
pub fn split_at(text: &Vec<char>, separator: char) -> (r: Vec<String>)
    ensures
        texts(r@) == split(text@, separator),
{
    let mut done: Vec<String> = Vec::new();
    let mut piece = String::new();
    let mut i: usize = 0;
    assert(texts(done@).push(piece@) =~= split(text@.take(0), separator));
    while i < text.len()
        invariant
            i <= text.len(),
            texts(done@).push(piece@) == split(text@.take(i as int), separator),
        decreases text.len() - i,
    {
        let ghost before = text@.take(i as int);
        let ghost pieces = split(before, separator);
        assert(text@.take(i + 1).drop_last() =~= before);
        if text[i] == separator {
            let ghost old_done = done@;
            done.push(piece);
            piece = String::new();
            assert(texts(done@) =~= texts(old_done).push(done@.last()@));
        } else {
            piece.push(text[i]);
            assert(pieces.drop_last() =~= texts(done@));
        }
        i += 1;
    }
    assert(text@.take(text.len() as int) =~= text@);
    let ghost old_done = done@;
    done.push(piece);
    assert(texts(done@) =~= texts(old_done).push(piece@));
    done
}

/// The character that writes the digit `d`.
pub open spec fn digit(d: nat) -> char {
    ((48 + d) as u8) as char
}

/// `n` in decimal, without leading zeros.
pub open spec fn decimal(n: nat) -> Seq<char>
    decreases n,
{
    if n < 10 {
        seq![digit(n)]
    } else {
        decimal(n / 10).push(digit(n % 10))
    }
}

/// Appends `n` in decimal to `text`.
pub fn push_decimal(text: &mut String, n: usize)
    ensures
        final(text)@ == old(text)@ + decimal(n as nat),
    decreases n,
{
    if n >= 10 {
        push_decimal(text, n / 10);
    }
    let d: u8 = (n % 10) as u8;
    text.push((48u8 + d) as char);
    assert(text@ =~= old(text)@ + decimal(n as nat));
}

/// Whether `c` is one of the ten digits.
pub open spec fn is_digit(c: char) -> bool {
    '0' <= c <= '9'
}

/// A number in decimal has at least one character, and all are digits.
pub proof fn lemma_decimal_digits(n: nat)
    ensures
        decimal(n).len() >= 1,
        n >= 10 ==> decimal(n).len() >= 2,
        forall|k: int| 0 <= k < decimal(n).len() ==> is_digit(#[trigger] decimal(n)[k]),
    decreases n,
{
    if n >= 10 {
        lemma_decimal_digits(n / 10);
    }
}

/// Different numbers are written differently.
pub proof fn lemma_decimal_injective(a: nat, b: nat)
    requires
        decimal(a) == decimal(b),
    ensures
        a == b,
    decreases a,
{
    lemma_decimal_digits(a);
    lemma_decimal_digits(b);
    if a >= 10 && b >= 10 {
        assert(decimal(a).drop_last() =~= decimal(a / 10));
        assert(decimal(b).drop_last() =~= decimal(b / 10));
        assert(decimal(a).last() == digit(a % 10));
        assert(decimal(b).last() == digit(b % 10));
        lemma_decimal_injective(a / 10, b / 10);
    } else if a < 10 && b < 10 {
        assert(decimal(a)[0] == digit(a));
        assert(decimal(b)[0] == digit(b));
    }
}

/// Two numbered names with the same prefix, each followed by a suffix that
/// does not start with a digit, are the same only where the numbers and the
/// suffixes are.
pub proof fn lemma_numbered_differ(
    prefix: Seq<char>,
    i: nat,
    suffix_i: Seq<char>,
    j: nat,
    suffix_j: Seq<char>,
)
    requires
        suffix_i.len() > 0 ==> !is_digit(suffix_i[0]),
        suffix_j.len() > 0 ==> !is_digit(suffix_j[0]),
        numbered(prefix, i) + suffix_i == numbered(prefix, j) + suffix_j,
    ensures
        i == j,
        suffix_i == suffix_j,
{
    lemma_decimal_digits(i);
    lemma_decimal_digits(j);
    let a = numbered(prefix, i) + suffix_i;
    let b = numbered(prefix, j) + suffix_j;
    let x = decimal(i) + suffix_i;
    let y = decimal(j) + suffix_j;
    assert(a.skip(prefix.len() as int) =~= x);
    assert(b.skip(prefix.len() as int) =~= y);
    let n = decimal(i).len() as int;
    let m = decimal(j).len() as int;
    if n < m {
        if suffix_i.len() > 0 {
            assert(x[n] == suffix_i[0]);
            assert(y[n] == decimal(j)[n]);
        }
    } else if m < n {
        if suffix_j.len() > 0 {
            assert(y[m] == suffix_j[0]);
            assert(x[m] == decimal(i)[m]);
        }
    } else {
        assert(x.take(n) =~= decimal(i));
        assert(y.take(n) =~= decimal(j));
        assert(x.skip(n) =~= suffix_i);
        assert(y.skip(n) =~= suffix_j);
        lemma_decimal_injective(i, j);
    }
}

/// Numbered names with the same prefix are the same only where the numbers are.
pub proof fn lemma_numbered_injective(prefix: Seq<char>, i: nat, j: nat)
    requires
        numbered(prefix, i) == numbered(prefix, j),
    ensures
        i == j,
{
    let none = Seq::<char>::empty();
    assert(numbered(prefix, i) + none =~= numbered(prefix, i));
    assert(numbered(prefix, j) + none =~= numbered(prefix, j));
    lemma_numbered_differ(prefix, i, none, j, none);
}

/// A numbered name starts like its prefix and ends in a digit.
pub proof fn lemma_numbered_ends(prefix: Seq<char>, index: nat)
    ensures
        numbered(prefix, index).len() > prefix.len(),
        forall|k: int| 0 <= k < prefix.len() ==> numbered(prefix, index)[k] == prefix[k],
        is_digit(numbered(prefix, index).last()),
{
    lemma_decimal_digits(index);
    let d = decimal(index);
    assert(numbered(prefix, index).last() == d[d.len() - 1]);
}

/// A name with a number at its end: `prefix`, then `index` in decimal.
pub open spec fn numbered(prefix: Seq<char>, index: nat) -> Seq<char> {
    prefix + decimal(index)
}

/// The name made of `prefix` and `index` in decimal.
pub fn numbered_name(prefix: &str, index: usize) -> (r: String)
    ensures
        r@ == numbered(prefix@, index as nat),
{
    let mut r = prefix.to_owned();
    push_decimal(&mut r, index);
    r
}

/// Whether `a` comes before `b` when the two are compared byte by byte: at the
/// first place where they differ `a` has the smaller byte, or `a` ends there
/// and `b` goes on.
pub open spec fn bytes_precede(a: Seq<u8>, b: Seq<u8>) -> bool
    decreases a.len(),
{
    if b.len() == 0 {
        false
    } else if a.len() == 0 {
        true
    } else if a[0] != b[0] {
        a[0] < b[0]
    } else {
        bytes_precede(a.drop_first(), b.drop_first())
    }
}

/// The order of strings: that of their UTF-8 encodings, byte by byte.
pub open spec fn precedes(a: Seq<char>, b: Seq<char>) -> bool {
    bytes_precede(vstd::utf8::encode_utf8(a), vstd::utf8::encode_utf8(b))
}

proof fn lemma_bytes_skip_common(a: Seq<u8>, b: Seq<u8>, n: int)
    requires
        0 <= n <= a.len(),
        n <= b.len(),
        forall|j: int| 0 <= j < n ==> a[j] == b[j],
    ensures
        bytes_precede(a, b) == bytes_precede(a.skip(n), b.skip(n)),
    decreases n,
{
    if n == 0 {
        assert(a.skip(0) =~= a);
        assert(b.skip(0) =~= b);
    } else {
        assert(a.drop_first().skip(n - 1) =~= a.skip(n));
        assert(b.drop_first().skip(n - 1) =~= b.skip(n));
        lemma_bytes_skip_common(a.drop_first(), b.drop_first(), n - 1);
    }
}

proof fn lemma_bytes_irreflexive(a: Seq<u8>)
    ensures
        !bytes_precede(a, a),
    decreases a.len(),
{
    if a.len() > 0 {
        lemma_bytes_irreflexive(a.drop_first());
    }
}

proof fn lemma_bytes_transitive(a: Seq<u8>, b: Seq<u8>, c: Seq<u8>)
    requires
        bytes_precede(a, b),
        bytes_precede(b, c),
    ensures
        bytes_precede(a, c),
    decreases a.len(),
{
    if a.len() > 0 && a[0] == b[0] && b[0] == c[0] {
        lemma_bytes_transitive(a.drop_first(), b.drop_first(), c.drop_first());
    }
}

proof fn lemma_bytes_total(a: Seq<u8>, b: Seq<u8>)
    ensures
        bytes_precede(a, b) || bytes_precede(b, a) || a == b,
    decreases a.len(),
{
    if a.len() > 0 && b.len() > 0 && a[0] == b[0] {
        lemma_bytes_total(a.drop_first(), b.drop_first());
        if a.drop_first() == b.drop_first() {
            assert(a =~= seq![a[0]] + a.drop_first());
            assert(b =~= seq![b[0]] + b.drop_first());
        }
    } else if a.len() == 0 && b.len() == 0 {
        assert(a =~= b);
    }
}

/// No string comes before itself.
pub proof fn lemma_precedes_irreflexive(a: Seq<char>)
    ensures
        !precedes(a, a),
{
    lemma_bytes_irreflexive(vstd::utf8::encode_utf8(a));
}

/// The order of strings is transitive.
pub proof fn lemma_precedes_transitive(a: Seq<char>, b: Seq<char>, c: Seq<char>)
    requires
        precedes(a, b),
        precedes(b, c),
    ensures
        precedes(a, c),
{
    lemma_bytes_transitive(
        vstd::utf8::encode_utf8(a),
        vstd::utf8::encode_utf8(b),
        vstd::utf8::encode_utf8(c),
    );
}

/// Of two different strings one comes before the other.
pub proof fn lemma_precedes_total(a: Seq<char>, b: Seq<char>)
    ensures
        precedes(a, b) || precedes(b, a) || a == b,
{
    lemma_bytes_total(vstd::utf8::encode_utf8(a), vstd::utf8::encode_utf8(b));
    vstd::utf8::encode_utf8_decode_utf8(a);
    vstd::utf8::encode_utf8_decode_utf8(b);
}

/// Whether `a` comes before `b` in the order of strings.
pub fn comes_before(a: &str, b: &str) -> (r: bool)
    ensures
        r == precedes(a@, b@),
{
    let x = a.as_bytes();
    let y = b.as_bytes();
    let mut i: usize = 0;
    while i < x.len() && i < y.len()
        invariant
            i <= x.len(),
            i <= y.len(),
            x@ == vstd::utf8::encode_utf8(a@),
            y@ == vstd::utf8::encode_utf8(b@),
            forall|j: int| 0 <= j < i ==> x@[j] == y@[j],
        decreases x.len() - i,
    {
        if x[i] != y[i] {
            proof {
                lemma_bytes_skip_common(x@, y@, i as int);
            }
            return x[i] < y[i];
        }
        i += 1;
    }
    proof {
        lemma_bytes_skip_common(x@, y@, i as int);
    }
    i < y.len()
}

} // verus!
