//! Decimal and hexadecimal text: how numbers are written and read back.

use vstd::prelude::*;

verus! {

/// The character of the decimal digit `d` (for `d < 10`).
pub open spec fn digit_char(d: nat) -> char {
    (d + 48) as char
}

/// Whether `c` is one of `0` to `9`.
pub open spec fn is_digit(c: char) -> bool {
    48 <= (c as int) && (c as int) <= 57
}

/// The value of a decimal digit character.
pub open spec fn digit_value(c: char) -> nat {
    ((c as int) - 48) as nat
}

/// Whether every character of `s` is a decimal digit.
pub open spec fn all_digits(s: Seq<char>) -> bool {
    forall|i: int| 0 <= i < s.len() ==> is_digit(#[trigger] s[i])
}

/// The number that a string of decimal digits denotes (leading zeros allowed).
pub open spec fn decimal_value(s: Seq<char>) -> nat
    decreases s.len(),
{
    if s.len() == 0 {
        0
    } else {
        decimal_value(s.drop_last()) * 10 + digit_value(s.last())
    }
}

/// `n` written in decimal, without leading zeros.
pub open spec fn decimal(n: nat) -> Seq<char>
    decreases n,
{
    if n < 10 {
        seq![digit_char(n)]
    } else {
        decimal(n / 10).push(digit_char(n % 10))
    }
}

/// The digits of a `u8` in text: an optional leading `+` is dropped.
pub open spec fn u8_digits(s: Seq<char>) -> Seq<char> {
    if s.len() > 0 && s[0] == '+' {
        s.drop_first()
    } else {
        s
    }
}

/// What reading `s` as a `u8` gives: `Some` exactly when, after an optional
/// `+`, `s` is a non-empty run of decimal digits whose value is at most 255.
pub open spec fn parse_u8_spec(s: Seq<char>) -> Option<u8> {
    let body = u8_digits(s);
    if body.len() > 0 && all_digits(body) && decimal_value(body) <= 255 {
        Some(decimal_value(body) as u8)
    } else {
        None
    }
}

/// The lowercase hexadecimal character of `d` (for `d < 16`).
pub open spec fn hex_char(d: nat) -> char {
    if d < 10 {
        digit_char(d)
    } else {
        (d + 87) as char
    }
}

/// Each byte of `b` as two lowercase hexadecimal characters, high nibble first.
pub open spec fn lower_hex(b: Seq<u8>) -> Seq<char>
    decreases b.len(),
{
    if b.len() == 0 {
        seq![]
    } else {
        lower_hex(b.drop_last()) + seq![hex_char((b.last() / 16) as nat), hex_char((b.last() % 16) as nat)]
    }
}

/// The items of a byte list as the standard debug format writes them: each
/// byte in decimal, separated by a comma and a space.
pub open spec fn debug_items(b: Seq<u8>) -> Seq<char>
    decreases b.len(),
{
    if b.len() == 0 {
        seq![]
    } else if b.len() == 1 {
        decimal(b[0] as nat)
    } else {
        debug_items(b.drop_last()) + seq![',', ' '] + decimal(b.last() as nat)
    }
}

/// A byte list in the standard debug format, such as `[1, 22, 255]`.
pub open spec fn debug_bytes(b: Seq<u8>) -> Seq<char> {
    seq!['['] + debug_items(b) + seq![']']
}

/// Appends one character to a string (std's `String::push`).
#[verifier::external_body]
pub(crate) fn push_char(s: &mut String, c: char)
    ensures
        final(s)@ == old(s)@.push(c),
{
    s.push(c)
}

/// The character of a decimal digit.
pub fn digit(d: u8) -> (c: char)
    requires
        d < 10,
    ensures
        c == digit_char(d as nat),
{
    match d {
        0 => '0',
        1 => '1',
        2 => '2',
        3 => '3',
        4 => '4',
        5 => '5',
        6 => '6',
        7 => '7',
        8 => '8',
        _ => '9',
    }
}

/// The lowercase hexadecimal character of a nibble.
pub fn hex_digit(d: u8) -> (c: char)
    requires
        d < 16,
    ensures
        c == hex_char(d as nat),
{
    if d < 10 {
        digit(d)
    } else {
        match d {
            10 => 'a',
            11 => 'b',
            12 => 'c',
            13 => 'd',
            14 => 'e',
            _ => 'f',
        }
    }
}

/// Appends `n` in decimal to `out`.
pub fn push_decimal(out: &mut String, n: u64)
    ensures
        final(out)@ == old(out)@ + decimal(n as nat),
    decreases n,
{
    if n >= 10 {
        push_decimal(out, n / 10);
    }
    let d: u8 = (n % 10) as u8;
    push_char(out, digit(d));
    proof {
        if n < 10 {
            assert(decimal(n as nat) == seq![digit_char(n as nat)]);
        }
    }
}

/// Decimal writing is a non-empty run of digits whose value is the number.
pub proof fn lemma_decimal(n: nat)
    ensures
        decimal(n).len() > 0,
        all_digits(decimal(n)),
        decimal_value(decimal(n)) == n,
    decreases n,
{
    let k = n % 10;
    assert(digit_value(digit_char(k)) == k) by {
        assert(((k + 48) as char) as int == k + 48);
    }
    if n >= 10 {
        lemma_decimal(n / 10);
        let d = decimal(n);
        assert(d.drop_last() == decimal(n / 10));
        assert(n == (n / 10) * 10 + k);
        assert(d.last() == digit_char(k));
        assert(decimal_value(d) == decimal_value(d.drop_last()) * 10 + digit_value(d.last()));
        assert forall|i: int| 0 <= i < d.len() implies is_digit(#[trigger] d[i]) by {
            if i < d.len() - 1 {
                assert(d[i] == decimal(n / 10)[i]);
            }
        }
    } else {
        assert(decimal(n).drop_last() == Seq::<char>::empty());
        assert(n == k);
        let d = decimal(n);
        assert(d.last() == digit_char(k));
        assert(decimal_value(d.drop_last()) == 0);
        assert(decimal_value(d) == decimal_value(d.drop_last()) * 10 + digit_value(d.last()));
    }
}

/// Reading back the decimal writing of a byte gives the byte.
pub proof fn lemma_parse_decimal_u8(b: u8)
    ensures
        parse_u8_spec(decimal(b as nat)) == Some(b),
{
    lemma_decimal(b as nat);
    let d = decimal(b as nat);
    assert(is_digit(d[0]));
    assert(u8_digits(d) == d);
}


/// Two characters per byte.
pub proof fn lemma_lower_hex_len(b: Seq<u8>)
    ensures
        lower_hex(b).len() == 2 * b.len(),
    decreases b.len(),
{
    if b.len() > 0 {
        lemma_lower_hex_len(b.drop_last());
    }
}


/// The pieces of `s` between commas: one more piece than there are commas,
/// empty pieces included.
pub open spec fn split_commas(s: Seq<char>) -> Seq<Seq<char>>
    decreases s.len(),
{
    if s.len() == 0 {
        seq![Seq::<char>::empty()]
    } else {
        let prev = split_commas(s.drop_last());
        if s.last() == ',' {
            prev.push(Seq::<char>::empty())
        } else {
            prev.update(prev.len() - 1, prev.last().push(s.last()))
        }
    }
}

/// The byte that one item of a debug list denotes: its digits, after the
/// space that follows a comma.
pub open spec fn read_item(piece: Seq<char>) -> Option<u8> {
    if piece.len() > 0 && piece[0] == ' ' {
        parse_u8_spec(piece.drop_first())
    } else {
        parse_u8_spec(piece)
    }
}

/// There is always at least one piece.
proof fn lemma_split_commas_len(s: Seq<char>)
    ensures
        split_commas(s).len() >= 1,
    decreases s.len(),
{
    if s.len() > 0 {
        lemma_split_commas_len(s.drop_last());
    }
}

/// Appending text without commas extends the last piece.
proof fn lemma_split_commas_append(p: Seq<char>, y: Seq<char>)
    requires
        forall|i: int| 0 <= i < y.len() ==> #[trigger] y[i] != ',',
    ensures
        split_commas(p + y) == split_commas(p).update(
            split_commas(p).len() - 1,
            split_commas(p).last() + y,
        ),
    decreases y.len(),
{
    lemma_split_commas_len(p);
    let sp = split_commas(p);
    if y.len() == 0 {
        assert(p + y == p);
        assert(sp.last() + y == sp.last());
        assert(sp.update(sp.len() - 1, sp.last()) == sp);
    } else {
        let y0 = y.drop_last();
        assert forall|i: int| 0 <= i < y0.len() implies #[trigger] y0[i] != ',' by {
            assert(y0[i] == y[i]);
        }
        lemma_split_commas_append(p, y0);
        assert((p + y).drop_last() == p + y0);
        assert(y[y.len() - 1] != ',');
        assert((p + y).last() == y.last());
        assert((sp.last() + y0).push(y.last()) == sp.last() + y);
        assert(split_commas(p + y) == sp.update(sp.len() - 1, sp.last() + y));
    }
}

/// The pieces of the items of a non-empty debug list: the first byte's
/// digits, then a space and the digits of each further byte.
spec fn debug_pieces(b: Seq<u8>) -> Seq<Seq<char>> {
    Seq::new(
        b.len(),
        |i: int| if i == 0 { decimal(b[0] as nat) } else { seq![' '] + decimal(b[i] as nat) },
    )
}

/// Decimal digits hold no comma.
proof fn lemma_decimal_no_comma(n: nat)
    ensures
        forall|i: int| 0 <= i < decimal(n).len() ==> #[trigger] decimal(n)[i] != ',',
        decimal(n).len() > 0 && decimal(n)[0] != ' ',
{
    lemma_decimal(n);
    assert forall|i: int| 0 <= i < decimal(n).len() implies #[trigger] decimal(n)[i] != ',' by {
        assert(is_digit(decimal(n)[i]));
    }
    assert(is_digit(decimal(n)[0]));
}

proof fn lemma_debug_items_split(b: Seq<u8>)
    requires
        b.len() > 0,
    ensures
        split_commas(debug_items(b)) == debug_pieces(b),
    decreases b.len(),
{
    let e = Seq::<char>::empty();
    if b.len() == 1 {
        lemma_decimal_no_comma(b[0] as nat);
        lemma_split_commas_append(e, decimal(b[0] as nat));
        assert(e + decimal(b[0] as nat) == decimal(b[0] as nat));
        assert(split_commas(e) == seq![e]);
        assert(split_commas(debug_items(b)) == debug_pieces(b));
    } else {
        let b0 = b.drop_last();
        lemma_debug_items_split(b0);
        let p = debug_items(b0);
        let y = seq![' '] + decimal(b.last() as nat);
        lemma_decimal_no_comma(b.last() as nat);
        assert forall|i: int| 0 <= i < y.len() implies #[trigger] y[i] != ',' by {
            if i > 0 {
                assert(y[i] == decimal(b.last() as nat)[i - 1]);
            }
        }
        assert(p.push(',').drop_last() == p);
        assert(split_commas(p.push(',')) == split_commas(p).push(e));
        lemma_split_commas_append(p.push(','), y);
        assert(debug_items(b) == p.push(',') + y);
        assert(e + y == y);
        assert(split_commas(debug_items(b)) == debug_pieces(b));
    }
}

/// The debug form of a byte list is the list in square brackets, and reading
/// back the items between the brackets, piece by piece between commas, gives
/// every byte, in order: one item per byte.
pub proof fn debug_bytes_read_back(b: Seq<u8>)
    ensures
        debug_bytes(b).len() >= 2,
        debug_bytes(b)[0] == '[',
        debug_bytes(b).last() == ']',
        b.len() == 0 ==> debug_bytes(b) == seq!['[', ']'],
        b.len() > 0 ==> split_commas(debug_bytes(b).subrange(1, debug_bytes(b).len() - 1)).len()
            == b.len(),
        b.len() > 0 ==> forall|i: int|
            0 <= i < b.len() ==> #[trigger] read_item(
                split_commas(debug_bytes(b).subrange(1, debug_bytes(b).len() - 1))[i],
            ) == Some(b[i]),
{
    let d = debug_bytes(b);
    let mid = debug_items(b);
    assert(d.subrange(1, d.len() - 1) == mid);
    if b.len() == 0 {
        assert(mid == Seq::<char>::empty());
        assert(d == seq!['[', ']']);
    } else {
        lemma_debug_items_split(b);
        assert forall|i: int| 0 <= i < b.len() implies #[trigger] read_item(split_commas(mid)[i]) == Some(b[i]) by {
            lemma_parse_decimal_u8(b[i]);
            lemma_decimal_no_comma(b[i] as nat);
            let piece = split_commas(mid)[i];
            if i == 0 {
                assert(piece == decimal(b[0] as nat));
            } else {
                assert(piece == seq![' '] + decimal(b[i] as nat));
                assert(piece.drop_first() == decimal(b[i] as nat));
            }
        }
    }
}

/// Reads a `u8` from text as std's `str::parse::<u8>` does.
pub fn parse_u8(s: &Vec<char>) -> (r: Option<u8>)
    ensures
        r == parse_u8_spec(s@),
{
    let len: usize = s.len();
    let mut start: usize = 0;
    if len > 0 && s[0] == '+' {
        start = 1;
    }
    let ghost body = u8_digits(s@);
    assert(body == s@.skip(start as int));
    if start == len {
        return None;
    }
    let mut v: u32 = 0;
    let mut i: usize = start;
    while i < len
        invariant
            start <= i <= len,
            len == s@.len(),
            start < len,
            body == s@.skip(start as int),
            body == u8_digits(s@),
            all_digits(body.take(i - start)),
            v <= 256,
            v == (if decimal_value(body.take(i - start)) < 256 {
                decimal_value(body.take(i - start))
            } else {
                256
            }),
        decreases len - i,
    {
        let c: char = s[i];
        if !('0' <= c && c <= '9') {
            assert(body[i - start] == c);
            assert(!all_digits(body));
            return None;
        }
        let d: u32 = (c as u32) - 48;
        let ghost k: int = i - start;
        assert(body.take(k + 1).drop_last() == body.take(k));
        assert(body.take(k + 1).last() == c);
        if v * 10 + d > 256 {
            v = 256;
        } else {
            v = v * 10 + d;
        }
        i = i + 1;
        assert forall|j: int| 0 <= j < body.take(k + 1).len() implies is_digit(#[trigger] body.take(k + 1)[j]) by {
            if j < k {
                assert(body.take(k + 1)[j] == body.take(k)[j]);
            }
        }
    }
    assert(body.take(len - start) == body);
    if v <= 255 {
        Some(v as u8)
    } else {
        None
    }
}

/// Appends the lowercase hexadecimal form of `b` to `out`.
pub fn push_lower_hex(out: &mut String, b: &[u8])
    ensures
        final(out)@ == old(out)@ + lower_hex(b@),
{
    let len: usize = b.len();
    let mut i: usize = 0;
    assert(b@.take(0) == Seq::<u8>::empty());
    assert(out@ == old(out)@ + lower_hex(b@.take(0)));
    while i < len
        invariant
            i <= len,
            len == b@.len(),
            out@ == old(out)@ + lower_hex(b@.take(i as int)),
        decreases len - i,
    {
        let x: u8 = b[i];
        push_char(out, hex_digit(x / 16));
        push_char(out, hex_digit(x % 16));
        assert(b@.take(i + 1).drop_last() == b@.take(i as int));
        assert(b@.take(i + 1).last() == x);
        i = i + 1;
    }
    assert(b@.take(len as int) == b@);
}

/// A byte list in the standard debug format (`format!("{:?}", bytes)`).
pub fn debug_string(b: &[u8]) -> (s: String)
    ensures
        s@ == debug_bytes(b@),
{
    let mut s = String::new();
    push_char(&mut s, '[');
    let len: usize = b.len();
    let mut i: usize = 0;
    assert(b@.take(0) == Seq::<u8>::empty());
    while i < len
        invariant
            i <= len,
            len == b@.len(),
            s@ == seq!['['] + debug_items(b@.take(i as int)),
        decreases len - i,
    {
        if i > 0 {
            push_char(&mut s, ',');
            push_char(&mut s, ' ');
        }
        push_decimal(&mut s, b[i] as u64);
        assert(b@.take(i + 1).drop_last() == b@.take(i as int));
        assert(b@.take(i + 1).last() == b@[i as int]);
        if i == 0 {
            assert(b@.take(1).len() == 1);
            assert(debug_items(b@.take(1)) == decimal(b@[0] as nat));
        }
        i = i + 1;
    }
    assert(b@.take(len as int) == b@);
    push_char(&mut s, ']');
    s
}

} // verus!
