//! Character-level text helpers shared by the writers: decimal rendering,
//! XML escaping, spreadsheet column letters, prefix and order tests.
use vstd::prelude::*;

verus! {

/// `String::push` appends one character.
pub assume_specification[ std::string::String::push ](s: &mut String, ch: char)
    ensures
        final(s)@ == old(s)@.push(ch),
;

/// The ASCII digit for `d` (expected below ten).
pub open spec fn digit_char(d: nat) -> char {
    (d + 48) as char
}

/// Decimal rendering of a natural number, most significant digit first,
/// without leading zeros ("0" for zero).
pub open spec fn decimal(n: nat) -> Seq<char>
    decreases n,
{
    if n < 10 {
        seq![digit_char(n)]
    } else {
        decimal(n / 10).push(digit_char(n % 10))
    }
}

/// The number that a string of decimal digits denotes, most significant
/// digit first.
pub open spec fn numeral_value(s: Seq<char>) -> int
    decreases s.len(),
{
    if s.len() == 0 {
        0
    } else {
        numeral_value(s.drop_last()) * 10 + (s.last() as int - 48)
    }
}

/// `decimal(n)` is the usual base-10 numeral of `n`: a nonempty string of the
/// digits `0`..`9` that reads back as `n`, with no leading zero unless it is
/// the single digit `0`.
pub proof fn lemma_decimal_numeral(n: nat)
    ensures
        decimal(n).len() > 0,
        forall|k: int| 0 <= k < decimal(n).len() ==> '0' <= #[trigger] decimal(n)[k] <= '9',
        numeral_value(decimal(n)) == n,
        decimal(n)[0] == '0' ==> n == 0,
    decreases n,
{
    let d = decimal(n);
    if n < 10 {
        assert(digit_char(n) as int == n + 48);
        assert(d.drop_last() =~= Seq::<char>::empty());
        assert(numeral_value(d) == numeral_value(d.drop_last()) * 10 + (d.last() as int - 48));
    } else {
        let q = n / 10;
        let r = n % 10;
        lemma_decimal_numeral(q);
        assert(digit_char(r) as int == r + 48);
        assert(d.drop_last() =~= decimal(q));
        assert forall|k: int| 0 <= k < d.len() implies '0' <= #[trigger] d[k] <= '9' by {
            if k < d.len() - 1 {
                assert(d[k] == decimal(q)[k]);
            }
        }
        assert(d[0] == decimal(q)[0]);
        assert(d.last() == digit_char(r));
        assert(numeral_value(d) == numeral_value(d.drop_last()) * 10 + (d.last() as int - 48));
        assert(n == q * 10 + r);
    }
}

/// Appends the decimal rendering of `n` to `s`.
pub fn push_decimal(s: &mut String, n: usize)
    ensures
        final(s)@ == old(s)@ + decimal(n as nat),
    decreases n,
{
    if n >= 10 {
        push_decimal(s, n / 10);
    }
    let d: u8 = (n % 10) as u8;
    s.push((48u8 + d) as char);
    proof {
        assert(old(s)@ + decimal(n as nat) =~= (old(s)@ + if n >= 10 { decimal((n / 10) as nat) } else { seq![] }).push(digit_char((n % 10) as nat)));
    }
}


/// The escaped form of one character in XML text and attribute values:
/// `&`, `<`, `>` and `"` become entity references, any other character stays.
pub open spec fn escape_char(c: char) -> Seq<char> {
    if c == '&' {
        seq!['&', 'a', 'm', 'p', ';']
    } else if c == '<' {
        seq!['&', 'l', 't', ';']
    } else if c == '>' {
        seq!['&', 'g', 't', ';']
    } else if c == '"' {
        seq!['&', 'q', 'u', 'o', 't', ';']
    } else {
        seq![c]
    }
}

/// XML escaping of a whole text, character by character.
pub open spec fn escape(s: Seq<char>) -> Seq<char>
    decreases s.len(),
{
    if s.len() == 0 {
        seq![]
    } else {
        escape(s.drop_last()) + escape_char(s.last())
    }
}

/// Appends the escaped form of `c` to `out`.
fn push_escaped_char(out: &mut String, c: char)
    ensures
        final(out)@ == old(out)@ + escape_char(c),
{
    if c == '&' {
        out.push('&');
        out.push('a');
        out.push('m');
        out.push('p');
        out.push(';');
    } else if c == '<' {
        out.push('&');
        out.push('l');
        out.push('t');
        out.push(';');
    } else if c == '>' {
        out.push('&');
        out.push('g');
        out.push('t');
        out.push(';');
    } else if c == '"' {
        out.push('&');
        out.push('q');
        out.push('u');
        out.push('o');
        out.push('t');
        out.push(';');
    } else {
        out.push(c);
    }
    assert(final(out)@ =~= old(out)@ + escape_char(c));
}

/// Appends the XML-escaped form of `s` to `out`.
pub fn push_escaped(out: &mut String, s: &str)
    ensures
        final(out)@ == old(out)@ + escape(s@),
{
    let n = s.unicode_len();
    let mut i: usize = 0;
    while i < n
        invariant
            n == s@.len(),
            i <= n,
            out@ == old(out)@ + escape(s@.subrange(0, i as int)),
        decreases n - i,
    {
        let c = s.get_char(i);
        push_escaped_char(out, c);
        proof {
            let pre = s@.subrange(0, i as int);
            let next = s@.subrange(0, i + 1);
            assert(next.drop_last() =~= pre);
            assert(next.last() == c);
        }
        i = i + 1;
    }
    assert(s@.subrange(0, n as int) =~= s@);
}

/// Escaped text never holds a raw `<`, `>` or `"`: each of them comes out as
/// an entity reference.
pub proof fn lemma_escape_no_markup(s: Seq<char>)
    ensures
        forall|i: int|
            0 <= i < escape(s).len() ==> {
                let c = #[trigger] escape(s)[i];
                c != '<' && c != '>' && c != '"'
            },
    decreases s.len(),
{
    if s.len() > 0 {
        lemma_escape_no_markup(s.drop_last());
        let a = escape(s.drop_last());
        let b = escape_char(s.last());
        assert forall|i: int| 0 <= i < escape(s).len() implies {
            let c = #[trigger] escape(s)[i];
            c != '<' && c != '>' && c != '"'
        } by {
            if i >= a.len() {
                assert(escape(s)[i] == b[i - a.len()]);
            } else {
                assert(escape(s)[i] == a[i]);
            }
        }
    }
}

/// Escaping distributes over concatenation.
pub proof fn lemma_escape_append(a: Seq<char>, b: Seq<char>)
    ensures
        escape(a + b) == escape(a) + escape(b),
    decreases b.len(),
{
    if b.len() == 0 {
        assert(a + b =~= a);
        assert(escape(a) + escape(b) =~= escape(a));
    } else {
        lemma_escape_append(a, b.drop_last());
        assert((a + b).drop_last() =~= a + b.drop_last());
        assert((a + b).last() == b.last());
        assert(escape(a) + escape(b) =~= escape(a) + escape(b.drop_last()) + escape_char(b.last()));
    }
}

/// The four entity references that escaping produces.
pub open spec fn amp_entity() -> Seq<char> {
    seq!['&', 'a', 'm', 'p', ';']
}

/// `&lt;`.
pub open spec fn lt_entity() -> Seq<char> {
    seq!['&', 'l', 't', ';']
}

/// `&gt;`.
pub open spec fn gt_entity() -> Seq<char> {
    seq!['&', 'g', 't', ';']
}

/// `&quot;`.
pub open spec fn quot_entity() -> Seq<char> {
    seq!['&', 'q', 'u', 'o', 't', ';']
}

/// `t` starts with one of the four entity references.
pub open spec fn starts_with_entity(t: Seq<char>) -> bool {
    amp_entity().is_prefix_of(t) || lt_entity().is_prefix_of(t) || gt_entity().is_prefix_of(t)
        || quot_entity().is_prefix_of(t)
}

/// Decoding of the four entity references in one left-to-right pass; any
/// other character is kept.
pub open spec fn unescape(t: Seq<char>) -> Seq<char>
    decreases t.len(),
{
    if t.len() == 0 {
        seq![]
    } else if amp_entity().is_prefix_of(t) {
        seq!['&'] + unescape(t.skip(5))
    } else if lt_entity().is_prefix_of(t) {
        seq!['<'] + unescape(t.skip(4))
    } else if gt_entity().is_prefix_of(t) {
        seq!['>'] + unescape(t.skip(4))
    } else if quot_entity().is_prefix_of(t) {
        seq!['"'] + unescape(t.skip(6))
    } else {
        seq![t[0]] + unescape(t.drop_first())
    }
}

/// Whether `c` is one of the characters that escaping replaces.
pub open spec fn is_markup_char(c: char) -> bool {
    c == '&' || c == '<' || c == '>' || c == '"'
}

/// Decoding an escaped character in front of any text gives the character back.
proof fn lemma_unescape_escape_char(c: char, rest: Seq<char>)
    ensures
        unescape(escape_char(c) + rest) == seq![c] + unescape(rest),
{
    let t = escape_char(c) + rest;
    if c == '&' {
        assert(amp_entity().is_prefix_of(t)) by {
            assert(t.subrange(0, 5) =~= amp_entity());
        }
        assert(t.skip(5) =~= rest);
    } else if c == '<' {
        assert(t.subrange(0, 4) =~= lt_entity());
        assert(!amp_entity().is_prefix_of(t)) by {
            assert(t[1] == 'l');
        }
        assert(t.skip(4) =~= rest);
    } else if c == '>' {
        assert(t.subrange(0, 4) =~= gt_entity());
        assert(!amp_entity().is_prefix_of(t)) by {
            assert(t[1] == 'g');
        }
        assert(!lt_entity().is_prefix_of(t)) by {
            assert(t[1] == 'g');
        }
        assert(t.skip(4) =~= rest);
    } else if c == '"' {
        assert(t.subrange(0, 6) =~= quot_entity());
        assert(!amp_entity().is_prefix_of(t)) by {
            assert(t[1] == 'q');
        }
        assert(!lt_entity().is_prefix_of(t)) by {
            assert(t[1] == 'q');
        }
        assert(!gt_entity().is_prefix_of(t)) by {
            assert(t[1] == 'q');
        }
        assert(t.skip(6) =~= rest);
    } else {
        assert(t[0] == c);
        assert(!amp_entity().is_prefix_of(t)) by {
            assert(t[0] != amp_entity()[0]);
        }
        assert(!lt_entity().is_prefix_of(t)) by {
            assert(t[0] != lt_entity()[0]);
        }
        assert(!gt_entity().is_prefix_of(t)) by {
            assert(t[0] != gt_entity()[0]);
        }
        assert(!quot_entity().is_prefix_of(t)) by {
            assert(t[0] != quot_entity()[0]);
        }
        assert(t.drop_first() =~= rest);
    }
}

/// Escaping one character.
proof fn lemma_escape_single(c: char)
    ensures
        escape(seq![c]) == escape_char(c),
{
    let s = seq![c];
    assert(s.drop_last() =~= Seq::<char>::empty());
    assert(s.last() == c);
    assert(escape(Seq::<char>::empty()) =~= Seq::<char>::empty());
    assert(escape(s) =~= escape(s.drop_last()) + escape_char(c));
    assert(escape(s) =~= escape_char(c));
}

/// Escaping a text then decoding it gives the text back.
pub proof fn lemma_unescape_escape(s: Seq<char>)
    ensures
        unescape(escape(s)) == s,
    decreases s.len(),
{
    if s.len() > 0 {
        let tail = s.drop_first();
        assert(s =~= seq![s[0]] + tail);
        lemma_escape_append(seq![s[0]], tail);
        lemma_escape_single(s[0]);
        lemma_unescape_escape_char(s[0], escape(tail));
        lemma_unescape_escape(tail);
        assert(unescape(escape(s)) =~= seq![s[0]] + tail);
    }
}

/// A text that starts with an entity reference still does when more text follows.
proof fn lemma_entity_prefix_extends(x: Seq<char>, y: Seq<char>)
    requires
        starts_with_entity(x),
    ensures
        starts_with_entity(x + y),
{
    let t = x + y;
    if amp_entity().is_prefix_of(x) {
        assert(t.subrange(0, 5) =~= x.subrange(0, 5));
    } else if lt_entity().is_prefix_of(x) {
        assert(t.subrange(0, 4) =~= x.subrange(0, 4));
    } else if gt_entity().is_prefix_of(x) {
        assert(t.subrange(0, 4) =~= x.subrange(0, 4));
    } else {
        assert(t.subrange(0, 6) =~= x.subrange(0, 6));
    }
}

/// In the escaped form of one character, an `&` stands only first, and then
/// starts an entity reference.
proof fn lemma_escape_char_ampersand(c: char)
    ensures
        forall|j: int| 0 <= j < escape_char(c).len() && #[trigger] escape_char(c)[j] == '&' ==> j == 0 && starts_with_entity(escape_char(c)),
{
    let b = escape_char(c);
    if c == '&' {
        assert(amp_entity().is_prefix_of(b)) by {
            assert(b.subrange(0, 5) =~= amp_entity());
        }
    } else if c == '<' {
        assert(lt_entity().is_prefix_of(b)) by {
            assert(b.subrange(0, 4) =~= lt_entity());
        }
    } else if c == '>' {
        assert(gt_entity().is_prefix_of(b)) by {
            assert(b.subrange(0, 4) =~= gt_entity());
        }
    } else if c == '"' {
        assert(quot_entity().is_prefix_of(b)) by {
            assert(b.subrange(0, 6) =~= quot_entity());
        }
    }
}

/// In escaped text every `&` starts one of the four entity references.
pub proof fn lemma_escape_ampersands(s: Seq<char>)
    ensures
        forall|i: int| 0 <= i < escape(s).len() && #[trigger] escape(s)[i] == '&' ==> starts_with_entity(escape(s).skip(i)),
    decreases s.len(),
{
    if s.len() > 0 {
        let init = s.drop_last();
        lemma_escape_ampersands(init);
        lemma_escape_char_ampersand(s.last());
        let a = escape(init);
        let b = escape_char(s.last());
        let t = escape(s);
        assert(t == a + b);
        assert forall|i: int| 0 <= i < t.len() && #[trigger] t[i] == '&' implies starts_with_entity(t.skip(i)) by {
            if i < a.len() {
                assert(a[i] == '&');
                assert(starts_with_entity(a.skip(i)));
                lemma_entity_prefix_extends(a.skip(i), b);
                assert(t.skip(i) =~= a.skip(i) + b);
            } else {
                assert(b[i - a.len()] == '&');
                assert(t.skip(i) =~= b);
            }
        }
    }
}

/// Escaping never shortens a text, and it changes a text exactly when the
/// text holds `&`, `<`, `>` or `"`.
pub proof fn lemma_escape_identity(s: Seq<char>)
    ensures
        escape(s).len() >= s.len(),
        escape(s) == s <==> forall|i: int| 0 <= i < s.len() ==> !is_markup_char(#[trigger] s[i]),
    decreases s.len(),
{
    if s.len() > 0 {
        let init = s.drop_last();
        lemma_escape_identity(init);
        let c = s.last();
        let plain = forall|i: int| 0 <= i < s.len() ==> !is_markup_char(#[trigger] s[i]);
        let plain_init = forall|i: int| 0 <= i < init.len() ==> !is_markup_char(#[trigger] init[i]);
        assert(escape(s) == escape(init) + escape_char(c));
        if is_markup_char(c) {
            assert(escape_char(c).len() > 1);
            assert(escape(s).len() > s.len());
            assert(!plain) by {
                assert(is_markup_char(s[s.len() - 1]));
            }
        } else {
            assert(escape_char(c) =~= seq![c]);
            if plain {
                assert(plain_init) by {
                    assert forall|i: int| 0 <= i < init.len() implies !is_markup_char(#[trigger] init[i]) by {
                        assert(init[i] == s[i]);
                    }
                }
                assert(escape(s) =~= s);
            } else {
                let i = choose|i: int| 0 <= i < s.len() && is_markup_char(#[trigger] s[i]);
                assert(i != s.len() - 1);
                assert(init[i] == s[i]);
                assert(!plain_init);
                assert(escape(init) != init);
                if escape(s) == s {
                    assert(escape(s).drop_last() =~= escape(init));
                    assert(s.drop_last() == init);
                }
            }
        }
    } else {
        assert(escape(s) =~= s);
    }
}

/// The capital letter with index `d` (0 is `A`).
pub open spec fn letter(d: nat) -> char {
    (d + 65) as char
}

/// Bijective base-26 numeral of `n` written with `A`..`Z` (`A` = 1, `Z` = 26,
/// `AA` = 27); empty for zero.
pub open spec fn column_letters(n: nat) -> Seq<char>
    decreases n,
{
    if n == 0 {
        seq![]
    } else {
        column_letters(((n - 1) / 26) as nat).push(letter(((n - 1) % 26) as nat))
    }
}

/// The value that a bijective base-26 numeral denotes.
pub open spec fn column_value(s: Seq<char>) -> int
    decreases s.len(),
{
    if s.len() == 0 {
        0
    } else {
        column_value(s.drop_last()) * 26 + (s.last() as int - 64)
    }
}

/// Reading a column numeral back gives the number it was written from.
pub proof fn lemma_column_letters_value(n: nat)
    ensures
        column_value(column_letters(n)) == n,
    decreases n,
{
    if n > 0 {
        let q = ((n - 1) / 26) as nat;
        lemma_column_letters_value(q);
        let s = column_letters(n);
        assert(s.drop_last() =~= column_letters(q));
        assert(s.last() == letter(((n - 1) % 26) as nat));
    }
}

/// Different numbers have different column numerals.
pub proof fn lemma_column_letters_injective(a: nat, b: nat)
    ensures
        a != b ==> column_letters(a) != column_letters(b),
{
    lemma_column_letters_value(a);
    lemma_column_letters_value(b);
}

/// A nonempty column numeral is made of capital letters `A`..`Z` only.
pub proof fn lemma_column_letters_alphabet(n: nat)
    ensures
        n > 0 ==> column_letters(n).len() > 0,
        forall|k: int|
            0 <= k < column_letters(n).len() ==> 'A' <= #[trigger] column_letters(n)[k] <= 'Z',
    decreases n,
{
    if n > 0 {
        let q = ((n - 1) / 26) as nat;
        let r = ((n - 1) % 26) as nat;
        lemma_column_letters_alphabet(q);
        let s = column_letters(n);
        assert(s == column_letters(q).push(letter(r)));
        assert('A' <= letter(r) <= 'Z');
        assert forall|k: int| 0 <= k < s.len() implies 'A' <= #[trigger] s[k] <= 'Z' by {
            if k < s.len() - 1 {
                assert(s[k] == column_letters(q)[k]);
            }
        }
    }
}

/// Shortlex order: a shorter text comes first; texts of one length are in
/// lexicographic order, decided by the first position where they differ.
pub open spec fn shortlex_lt(s: Seq<char>, t: Seq<char>) -> bool {
    ||| s.len() < t.len()
    ||| (s.len() == t.len() && exists|i: int|
        0 <= i < s.len() && s.subrange(0, i) == t.subrange(0, i) && #[trigger] s[i] < t[i])
}

/// Shortlex order is irreflexive and asymmetric.
pub proof fn lemma_shortlex_asymmetric(s: Seq<char>, t: Seq<char>)
    ensures
        !shortlex_lt(s, s),
        shortlex_lt(s, t) ==> !shortlex_lt(t, s),
{
    if shortlex_lt(s, t) && shortlex_lt(t, s) {
        let i = choose|i: int|
            0 <= i < s.len() && s.subrange(0, i) == t.subrange(0, i) && #[trigger] s[i] < t[i];
        let j = choose|j: int|
            0 <= j < t.len() && t.subrange(0, j) == s.subrange(0, j) && #[trigger] t[j] < s[j];
        if i < j {
            assert(t.subrange(0, j)[i] == s.subrange(0, j)[i]);
        } else if j < i {
            assert(s.subrange(0, i)[j] == t.subrange(0, i)[j]);
        }
    }
}

/// Appending one character to each of two texts of one length keeps their
/// shortlex order.
proof fn lemma_shortlex_push(s: Seq<char>, t: Seq<char>, x: char, y: char)
    requires
        shortlex_lt(s, t),
    ensures
        shortlex_lt(s.push(x), t.push(y)),
{
    if s.len() == t.len() {
        let i = choose|i: int|
            0 <= i < s.len() && s.subrange(0, i) == t.subrange(0, i) && #[trigger] s[i] < t[i];
        assert(s.push(x).subrange(0, i) =~= s.subrange(0, i));
        assert(t.push(y).subrange(0, i) =~= t.subrange(0, i));
        assert(s.push(x)[i] < t.push(y)[i]);
    }
}

/// Column numerals are in shortlex order exactly when the numbers are in order.
pub proof fn lemma_column_letters_order(a: nat, b: nat)
    ensures
        a < b <==> shortlex_lt(column_letters(a), column_letters(b)),
{
    lemma_shortlex_asymmetric(column_letters(a), column_letters(b));
    if a < b {
        lemma_column_letters_increasing(a, b);
    } else if b < a {
        lemma_column_letters_increasing(b, a);
    }
}

/// A smaller number has a column numeral that comes first in shortlex order.
proof fn lemma_column_letters_increasing(a: nat, b: nat)
    requires
        a < b,
    ensures
        shortlex_lt(column_letters(a), column_letters(b)),
    decreases b,
{
    lemma_column_letters_alphabet(b);
    if a > 0 {
        let qa = ((a - 1) / 26) as nat;
        let qb = ((b - 1) / 26) as nat;
        let ra = ((a - 1) % 26) as nat;
        let rb = ((b - 1) % 26) as nat;
        if qa < qb {
            lemma_column_letters_increasing(qa, qb);
            lemma_shortlex_push(column_letters(qa), column_letters(qb), letter(ra), letter(rb));
        } else {
            let p = column_letters(qa);
            let i = p.len() as int;
            assert(p.push(letter(ra)).subrange(0, i) =~= p.push(letter(rb)).subrange(0, i));
            assert(p.push(letter(ra))[i] < p.push(letter(rb))[i]);
        }
    }
}

/// Appends the column numeral of `n` to `out`.
pub fn push_column_letters(out: &mut String, n: usize)
    ensures
        final(out)@ == old(out)@ + column_letters(n as nat),
    decreases n,
{
    if n > 0 {
        push_column_letters(out, (n - 1) / 26);
        let r: u8 = ((n - 1) % 26) as u8;
        out.push((65u8 + r) as char);
        assert(final(out)@ =~= old(out)@ + column_letters(n as nat));
    } else {
        assert(final(out)@ =~= old(out)@ + column_letters(n as nat));
    }
}

/// Whether `p` is a prefix of `s`.
pub fn has_prefix(s: &str, p: &str) -> (b: bool)
    ensures
        b == p@.is_prefix_of(s@),
{
    let n = s.unicode_len();
    let m = p.unicode_len();
    if m > n {
        return false;
    }
    let mut i: usize = 0;
    while i < m
        invariant
            n == s@.len(),
            m == p@.len(),
            m <= n,
            i <= m,
            forall|k: int| 0 <= k < i ==> s@[k] == p@[k],
        decreases m - i,
    {
        if s.get_char(i) != p.get_char(i) {
            assert(p@[i as int] != s@.subrange(0, m as int)[i as int]);
            return false;
        }
        i = i + 1;
    }
    assert(p@ =~= s@.subrange(0, m as int));
    true
}

/// Whether two texts are equal, character by character.
pub fn text_eq(a: &str, b: &str) -> (r: bool)
    ensures
        r == (a@ == b@),
{
    let n = a.unicode_len();
    let m = b.unicode_len();
    if n != m {
        return false;
    }
    let mut i: usize = 0;
    while i < n
        invariant
            n == a@.len(),
            m == b@.len(),
            n == m,
            i <= n,
            forall|k: int| 0 <= k < i ==> a@[k] == b@[k],
        decreases n - i,
    {
        if a.get_char(i) != b.get_char(i) {
            return false;
        }
        i = i + 1;
    }
    assert(a@ =~= b@);
    true
}

/// Lexicographic order of character sequences (code point by code point; a
/// proper prefix comes first). On Rust strings this is the order of `str`'s
/// `Ord`, since UTF-8 preserves code point order.
pub open spec fn chars_le(a: Seq<char>, b: Seq<char>) -> bool
    decreases a.len(),
{
    if a.len() == 0 {
        true
    } else if b.len() == 0 {
        false
    } else if a[0] != b[0] {
        a[0] < b[0]
    } else {
        chars_le(a.drop_first(), b.drop_first())
    }
}

/// `chars_le` is a total order: reflexive, total, antisymmetric, transitive.
pub proof fn lemma_chars_le_total_order(a: Seq<char>, b: Seq<char>, c: Seq<char>)
    ensures
        chars_le(a, a),
        chars_le(a, b) || chars_le(b, a),
        chars_le(a, b) && chars_le(b, a) ==> a == b,
        chars_le(a, b) && chars_le(b, c) ==> chars_le(a, c),
    decreases a.len(),
{
    if a.len() > 0 {
        lemma_chars_le_total_order(a.drop_first(), b.drop_first(), c.drop_first());
        if b.len() > 0 && a[0] == b[0] && chars_le(a, b) && chars_le(b, a) {
            assert(a =~= seq![a[0]] + a.drop_first());
            assert(b =~= seq![b[0]] + b.drop_first());
        }
    } else {
        if chars_le(b, a) {
            assert(b.len() == 0);
            assert(a =~= b);
        }
    }
}

/// `chars_le` is the lexicographic order: where two texts first differ,
/// the smaller character decides, whatever the texts' lengths.
pub proof fn lemma_chars_le_first_difference(a: Seq<char>, b: Seq<char>, i: int)
    requires
        0 <= i < a.len(),
        i < b.len(),
        a.subrange(0, i) == b.subrange(0, i),
        a[i] != b[i],
    ensures
        chars_le(a, b) <==> a[i] < b[i],
    decreases i,
{
    if i > 0 {
        assert(a[0] == a.subrange(0, i)[0]);
        assert(b[0] == b.subrange(0, i)[0]);
        assert(a.drop_first().subrange(0, i - 1) =~= b.drop_first().subrange(0, i - 1)) by {
            assert forall|j: int| 0 <= j < i - 1 implies a.drop_first()[j] == b.drop_first()[j] by {
                assert(a[j + 1] == a.subrange(0, i)[j + 1]);
                assert(b[j + 1] == b.subrange(0, i)[j + 1]);
            }
        }
        lemma_chars_le_first_difference(a.drop_first(), b.drop_first(), i - 1);
    }
}

/// A prefix of a text comes no later than the text.
pub proof fn lemma_chars_le_prefix(a: Seq<char>, b: Seq<char>)
    requires
        a.len() <= b.len(),
        a == b.subrange(0, a.len() as int),
    ensures
        chars_le(a, b),
    decreases a.len(),
{
    if a.len() > 0 {
        assert(a[0] == b.subrange(0, a.len() as int)[0]);
        assert(a.drop_first() =~= b.drop_first().subrange(0, a.drop_first().len() as int));
        lemma_chars_le_prefix(a.drop_first(), b.drop_first());
    }
}

/// Whether `a` comes no later than `b` in lexicographic order.
pub fn text_le(a: &str, b: &str) -> (r: bool)
    ensures
        r == chars_le(a@, b@),
{
    let n = a.unicode_len();
    let m = b.unicode_len();
    let mut i: usize = 0;
    assert(a@.skip(0) =~= a@);
    assert(b@.skip(0) =~= b@);
    while i < n && i < m
        invariant
            n == a@.len(),
            m == b@.len(),
            i <= n,
            i <= m,
            chars_le(a@, b@) == chars_le(a@.skip(i as int), b@.skip(i as int)),
        decreases n - i,
    {
        let x = a.get_char(i);
        let y = b.get_char(i);
        assert(a@.skip(i as int)[0] == x);
        assert(b@.skip(i as int)[0] == y);
        if x != y {
            return x < y;
        }
        assert(a@.skip(i as int).drop_first() =~= a@.skip(i + 1));
        assert(b@.skip(i as int).drop_first() =~= b@.skip(i + 1));
        i = i + 1;
    }
    assert(a@.skip(i as int).len() == n - i);
    i == n
}

} // verus!
