//! Decimal and JSON text building blocks.
use vstd::prelude::*;

verus! {

/// Concatenation regroups to the left, so that text appended piece by piece
/// meets a specification written as one concatenation.
pub broadcast proof fn lemma_concat_regroup<A>(a: Seq<A>, b: Seq<A>, c: Seq<A>)
    ensures
        #[trigger] (a + (b + c)) == (a + b) + c,
{
    assert(a + (b + c) =~= (a + b) + c);
}

/// The ASCII digit character for `d` (`d < 10`).
pub open spec fn digit_char(d: nat) -> char {
    (('0' as int) + d) as char
}

/// The decimal representation of `n`, without leading zeros.
pub open spec fn decimal(n: nat) -> Seq<char>
    decreases n,
{
    if n < 10 {
        seq![digit_char(n)]
    } else {
        decimal(n / 10).push(digit_char(n % 10))
    }
}

/// `String::push`. What it claims: the character is appended to the
/// string, as std documents.
#[verifier::external_body]
pub(crate) fn push_char(s: &mut String, c: char)
    ensures
        final(s)@ == old(s)@.push(c),
{
    s.push(c);
}

fn digit(d: u32) -> (c: char)
    requires
        d < 10,
    ensures
        c == digit_char(d as nat),
{
    let b: u8 = 48u8 + (d as u8);
    b as char
}

/// The decimal text of `n`, as `n.to_string()` writes it.
pub fn u32_to_decimal(n: u32) -> (s: String)
    ensures
        s@ == decimal(n as nat),
    decreases n,
{
    if n < 10 {
        let mut s = String::new();
        push_char(&mut s, digit(n));
        s
    } else {
        let mut s = u32_to_decimal(n / 10);
        push_char(&mut s, digit(n % 10));
        s
    }
}


/// The upper-case hexadecimal digit for `n` (`n < 16`).
pub open spec fn hex_digit_char(n: nat) -> char {
    if n < 10 {
        digit_char(n)
    } else {
        (('A' as int) + n - 10) as char
    }
}

/// How one character stands inside a JSON string: quote, backslash and the
/// control characters are escaped, every other character stands as itself.
pub open spec fn json_escape_char(c: char) -> Seq<char> {
    if c == '\\' {
        seq!['\\', '\\']
    } else if c == '"' {
        seq!['\\', '"']
    } else if c == '\u{08}' {
        seq!['\\', 'b']
    } else if c == '\t' {
        seq!['\\', 't']
    } else if c == '\n' {
        seq!['\\', 'n']
    } else if c == '\u{0C}' {
        seq!['\\', 'f']
    } else if c == '\r' {
        seq!['\\', 'r']
    } else if (c as int) < 0x20 {
        seq!['\\', 'u', '0', '0', hex_digit_char((c as nat) / 16), hex_digit_char((c as nat) % 16)]
    } else {
        seq![c]
    }
}

/// The escaped body of a JSON string holding `s`.
pub open spec fn json_escape(s: Seq<char>) -> Seq<char>
    decreases s.len(),
{
    if s.len() == 0 {
        Seq::empty()
    } else {
        json_escape(s.drop_last()) + json_escape_char(s.last())
    }
}

/// The JSON string literal that holds `s`.
pub open spec fn json_string(s: Seq<char>) -> Seq<char> {
    seq!['"'] + json_escape(s) + seq!['"']
}

fn hex_digit(n: u32) -> (c: char)
    requires
        n < 16,
    ensures
        c == hex_digit_char(n as nat),
{
    if n < 10 {
        digit(n)
    } else {
        let b: u8 = 55u8 + (n as u8);
        b as char
    }
}

fn push_escaped_char(out: &mut String, c: char)
    ensures
        final(out)@ == old(out)@ + json_escape_char(c),
{
    let code = c as u32;
    if c == '\\' {
        push_char(out, '\\');
        push_char(out, '\\');
    } else if c == '"' {
        push_char(out, '\\');
        push_char(out, '"');
    } else if c == '\u{08}' {
        push_char(out, '\\');
        push_char(out, 'b');
    } else if c == '\t' {
        push_char(out, '\\');
        push_char(out, 't');
    } else if c == '\n' {
        push_char(out, '\\');
        push_char(out, 'n');
    } else if c == '\u{0C}' {
        push_char(out, '\\');
        push_char(out, 'f');
    } else if c == '\r' {
        push_char(out, '\\');
        push_char(out, 'r');
    } else if code < 0x20 {
        push_char(out, '\\');
        push_char(out, 'u');
        push_char(out, '0');
        push_char(out, '0');
        push_char(out, hex_digit(code / 16));
        push_char(out, hex_digit(code % 16));
    } else {
        push_char(out, c);
    }
    assert(out@ =~= old(out)@ + json_escape_char(c));
}

/// Appends the JSON string literal holding `s`, escaped as serde_json_wasm
/// escapes it.
pub fn push_json_string(out: &mut String, s: &str)
    ensures
        final(out)@ == old(out)@ + json_string(s@),
{
    let n = s.unicode_len();
    push_char(out, '"');
    let ghost start = old(out)@.push('"');
    assert(s@.take(0) =~= Seq::<char>::empty());
    for i in 0..n
        invariant
            n == s@.len(),
            out@ == start + json_escape(s@.take(i as int)),
    {
        let c = s.get_char(i);
        push_escaped_char(out, c);
        assert(s@.take(i + 1).drop_last() =~= s@.take(i as int));
        assert(out@ =~= start + json_escape(s@.take(i + 1)));
    }
    assert(s@.take(n as int) =~= s@);
    push_char(out, '"');
    assert(out@ =~= old(out)@ + json_string(s@));
}

/// Escaping a character in front escapes it first.
pub proof fn lemma_escape_front(c: char, s: Seq<char>)
    ensures
        json_escape(seq![c] + s) == json_escape_char(c) + json_escape(s),
    decreases s.len(),
{
    if s.len() == 0 {
        assert(seq![c] + s =~= seq![c]);
        assert(seq![c].drop_last() =~= Seq::<char>::empty());
        assert(seq![c].last() == c);
        assert(json_escape(Seq::<char>::empty()) == Seq::<char>::empty());
        assert(json_escape(seq![c]) =~= json_escape(Seq::<char>::empty()) + json_escape_char(c));
        assert(json_escape_char(c) + json_escape(s) =~= json_escape_char(c));
    } else {
        lemma_escape_front(c, s.drop_last());
        assert((seq![c] + s).drop_last() =~= seq![c] + s.drop_last());
        assert((seq![c] + s).last() == s.last());
        assert(json_escape(seq![c] + s) =~= json_escape_char(c) + json_escape(s));
    }
}

/// An escaped character never starts with a quote, and starts with a
/// backslash unless it is the character itself.
pub proof fn lemma_escape_char_head(c: char)
    ensures
        json_escape_char(c).len() > 0,
        json_escape_char(c)[0] != '"',
        json_escape_char(c)[0] != '\\' ==> json_escape_char(c) == seq![c],
{
}

/// Different characters escape to texts neither of which is a prefix of the
/// other, so the first escaped character of a text is read back uniquely.
pub proof fn lemma_escape_char_unique(c1: char, c2: char, y1: Seq<char>, y2: Seq<char>)
    requires
        json_escape_char(c1) + y1 == json_escape_char(c2) + y2,
    ensures
        c1 == c2,
        y1 == y2,
{
    let e1 = json_escape_char(c1);
    let e2 = json_escape_char(c2);
    let t = e1 + y1;
    assert(t == e2 + y2);
    assert(t[0] == e1[0] && t[0] == e2[0]);
    if e1[0] != '\\' {
        assert(e2[0] != '\\');
    } else {
        assert(e2[0] == '\\');
        assert(t[1] == e1[1] && t[1] == e2[1]);
        if e1[1] == 'u' {
            assert(e2[1] == 'u');
            assert(t[4] == e1[4] && t[4] == e2[4]);
            assert(t[5] == e1[5] && t[5] == e2[5]);
            assert((c1 as nat) / 16 == (c2 as nat) / 16);
            assert((c1 as nat) % 16 == (c2 as nat) % 16);
            assert(c1 as int == c2 as int);
        }
    }
    assert(c1 == c2);
    assert(y1 =~= t.subrange(e1.len() as int, t.len() as int));
    assert(y2 =~= t.subrange(e2.len() as int, t.len() as int));
}

/// An escaped text is read back uniquely up to the quote that closes it:
/// two escaped texts each followed by a quote-led rest agree only when the
/// texts and the rests agree.
pub proof fn lemma_escape_prefix_free(a1: Seq<char>, a2: Seq<char>, x1: Seq<char>, x2: Seq<char>)
    requires
        json_escape(a1) + x1 == json_escape(a2) + x2,
        x1.len() > 0 && x1[0] == '"',
        x2.len() > 0 && x2[0] == '"',
    ensures
        a1 == a2,
        x1 == x2,
    decreases a1.len() + a2.len(),
{
    if a1.len() == 0 && a2.len() == 0 {
        assert(x1 =~= json_escape(a1) + x1);
        assert(x2 =~= json_escape(a2) + x2);
        assert(a1 =~= a2);
    } else if a1.len() == 0 {
        assert(a2 =~= seq![a2[0]] + a2.drop_first());
        lemma_escape_front(a2[0], a2.drop_first());
        lemma_escape_char_head(a2[0]);
        assert(x1 =~= json_escape(a1) + x1);
        assert((json_escape(a2) + x2)[0] == json_escape_char(a2[0])[0]);
    } else if a2.len() == 0 {
        assert(a1 =~= seq![a1[0]] + a1.drop_first());
        lemma_escape_front(a1[0], a1.drop_first());
        lemma_escape_char_head(a1[0]);
        assert(x2 =~= json_escape(a2) + x2);
        assert((json_escape(a1) + x1)[0] == json_escape_char(a1[0])[0]);
    } else {
        let r1 = a1.drop_first();
        let r2 = a2.drop_first();
        assert(a1 =~= seq![a1[0]] + r1);
        assert(a2 =~= seq![a2[0]] + r2);
        lemma_escape_front(a1[0], r1);
        lemma_escape_front(a2[0], r2);
        assert(json_escape(a1) + x1 =~= json_escape_char(a1[0]) + (json_escape(r1) + x1));
        assert(json_escape(a2) + x2 =~= json_escape_char(a2[0]) + (json_escape(r2) + x2));
        lemma_escape_char_unique(a1[0], a2[0], json_escape(r1) + x1, json_escape(r2) + x2);
        lemma_escape_prefix_free(r1, r2, x1, x2);
    }
}

/// A decimal text has at least one digit, and two when the number is ten or
/// more.
pub proof fn lemma_decimal_len(n: nat)
    ensures
        decimal(n).len() >= 1,
        n >= 10 ==> decimal(n).len() >= 2,
    decreases n,
{
    if n >= 10 {
        lemma_decimal_len(n / 10);
    }
}

/// Different numbers have different decimal texts.
pub proof fn lemma_decimal_injective(n: nat, m: nat)
    requires
        decimal(n) == decimal(m),
    ensures
        n == m,
    decreases n,
{
    lemma_decimal_len(n);
    lemma_decimal_len(m);
    if n < 10 && m < 10 {
        assert(decimal(n)[0] == digit_char(n));
    } else if n < 10 {
        assert(decimal(n).len() == 1);
    } else if m < 10 {
        assert(decimal(m).len() == 1);
    } else {
        let d = decimal(n);
        assert(d.last() == digit_char(n % 10));
        assert(decimal(m).last() == digit_char(m % 10));
        assert(decimal(n / 10) =~= d.drop_last());
        assert(decimal(m / 10) =~= decimal(m).drop_last());
        lemma_decimal_injective(n / 10, m / 10);
    }
}

} // verus!
