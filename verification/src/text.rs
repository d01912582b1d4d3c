//! Building the text of trace lines: hexadecimal numbers and padding.
use vstd::prelude::*;

verus! {

/// The upper-case hexadecimal digit of `n` (0 to 15).
pub open spec fn hex_char(n: int) -> char {
    if n < 10 {
        (48 + n) as char
    } else {
        (55 + n) as char
    }
}

/// A byte as two hexadecimal digits.
#[verifier::opaque]
pub open spec fn hex2(b: u8) -> Seq<char> {
    seq![hex_char(b as int / 16), hex_char(b as int % 16)]
}

/// A word as four hexadecimal digits.
#[verifier::opaque]
pub open spec fn hex4(w: u16) -> Seq<char> {
    seq![
        hex_char(w as int / 4096),
        hex_char(w as int / 256 % 16),
        hex_char(w as int / 16 % 16),
        hex_char(w as int % 16),
    ]
}

/// A byte takes two digits and a word four.
pub proof fn lemma_hex_len(b: u8, w: u16)
    ensures
        hex2(b).len() == 2,
        hex4(w).len() == 4,
{
    reveal(hex2);
    reveal(hex4);
}

/// A hexadecimal digit: 0-9 or upper-case A-F.
pub open spec fn is_hex_digit(ch: char) -> bool {
    ('0' <= ch <= '9') || ('A' <= ch <= 'F')
}

/// The value of a hexadecimal digit.
pub open spec fn hex_value(ch: char) -> int {
    if ch <= '9' {
        ch as int - '0' as int
    } else {
        ch as int - 'A' as int + 10
    }
}

/// A byte is written as two upper-case hexadecimal digits, most significant
/// first.
pub proof fn law_hex2_digits(b: u8)
    ensures
        hex2(b).len() == 2,
        is_hex_digit(hex2(b)[0]) && is_hex_digit(hex2(b)[1]),
        16 * hex_value(hex2(b)[0]) + hex_value(hex2(b)[1]) == b,
{
    reveal(hex2);
    lemma_hex_char(b as int / 16);
    lemma_hex_char(b as int % 16);
}

/// A word is written as four upper-case hexadecimal digits, most
/// significant first.
pub proof fn law_hex4_digits(w: u16)
    ensures
        hex4(w).len() == 4,
        is_hex_digit(hex4(w)[0]) && is_hex_digit(hex4(w)[1]) && is_hex_digit(hex4(w)[2])
            && is_hex_digit(hex4(w)[3]),
        4096 * hex_value(hex4(w)[0]) + 256 * hex_value(hex4(w)[1]) + 16 * hex_value(hex4(w)[2])
            + hex_value(hex4(w)[3]) == w,
{
    reveal(hex4);
    let n = w as int;
    let d0 = n / 4096;
    let d1 = n / 256 % 16;
    let d2 = n / 16 % 16;
    let d3 = n % 16;
    lemma_hex_char(d0);
    lemma_hex_char(d1);
    lemma_hex_char(d2);
    lemma_hex_char(d3);
    assert(n / 256 == 16 * d0 + d1);
    assert(n / 16 == 16 * (n / 256) + d2);
    assert(n == 16 * (n / 16) + d3);
}

/// Each digit value gets its own digit, which reads back as the value.
proof fn lemma_hex_char(n: int)
    requires
        0 <= n < 16,
    ensures
        is_hex_digit(hex_char(n)),
        hex_value(hex_char(n)) == n,
{
    if n < 10 {
        assert(hex_char(n) as int == 48 + n);
    } else {
        assert(hex_char(n) as int == 55 + n);
    }
}

/// `s` followed by spaces up to `width` characters.
pub open spec fn pad_right(s: Seq<char>, width: nat) -> Seq<char> {
    if s.len() >= width {
        s
    } else {
        s + Seq::new((width - s.len()) as nat, |i: int| ' ')
    }
}

/// The hexadecimal digit of `n`, as text.
fn hex_digit(n: u8) -> (r: &'static str)
    requires
        n < 16,
    ensures
        r@ == seq![hex_char(n as int)],
{
    proof {
        reveal_strlit("0");
        reveal_strlit("1");
        reveal_strlit("2");
        reveal_strlit("3");
        reveal_strlit("4");
        reveal_strlit("5");
        reveal_strlit("6");
        reveal_strlit("7");
        reveal_strlit("8");
        reveal_strlit("9");
        reveal_strlit("A");
        reveal_strlit("B");
        reveal_strlit("C");
        reveal_strlit("D");
        reveal_strlit("E");
        reveal_strlit("F");
    }
    match n {
        0 => "0",
        1 => "1",
        2 => "2",
        3 => "3",
        4 => "4",
        5 => "5",
        6 => "6",
        7 => "7",
        8 => "8",
        9 => "9",
        10 => "A",
        11 => "B",
        12 => "C",
        13 => "D",
        14 => "E",
        15 => "F",
        _ => "F",
    }
}

/// Appends the two hexadecimal digits of `b`.
pub fn push_hex2(out: &mut String, b: u8)
    ensures
        final(out)@ == old(out)@ + hex2(b),
{
    out.append(hex_digit(b / 16));
    out.append(hex_digit(b % 16));
    proof {
        reveal(hex2);
    }
    assert(out@ =~= old(out)@ + hex2(b));
}

/// Appends the four hexadecimal digits of `w`.
pub fn push_hex4(out: &mut String, w: u16)
    ensures
        final(out)@ == old(out)@ + hex4(w),
{
    out.append(hex_digit((w / 4096) as u8));
    out.append(hex_digit((w / 256 % 16) as u8));
    out.append(hex_digit((w / 16 % 16) as u8));
    out.append(hex_digit((w % 16) as u8));
    proof {
        reveal(hex4);
    }
    assert(out@ =~= old(out)@ + hex4(w));
}

/// Appends the characters of `s`.
pub fn push_str(out: &mut String, s: &str)
    ensures
        final(out)@ == old(out)@ + s@,
{
    out.append(s);
}

/// The number of characters of `s`.
pub fn char_count(s: &String) -> (r: usize)
    ensures
        r == s@.len(),
{
    s.as_str().unicode_len()
}

/// Appends spaces until the text added since `start` is `width` characters long.
pub fn pad_to(out: &mut String, start: usize, width: usize)
    requires
        start <= old(out)@.len(),
        start + width <= usize::MAX,
    ensures
        final(out)@ == old(out)@.subrange(0, start as int) + pad_right(
            old(out)@.subrange(start as int, old(out)@.len() as int),
            width as nat,
        ),
{
    let ghost head = old(out)@.subrange(0, start as int);
    let ghost body = old(out)@.subrange(start as int, old(out)@.len() as int);
    assert(old(out)@ =~= head + body);
    proof {
        reveal_strlit(" ");
    }
    while char_count(out) < start + width
        invariant
            start <= out@.len(),
            start + width <= usize::MAX,
            " "@ == seq![' '],
            out@.subrange(0, start as int) == head,
            body.len() < width ==> out@.len() <= start + width,
            body.len() < width ==> out@.subrange(start as int, out@.len() as int) == body
                + Seq::new((out@.len() - start - body.len()) as nat, |i: int| ' '),
            body.len() >= width ==> out@ == head + body,
        decreases start + width - out@.len(),
    {
        let ghost before = out@;
        out.append(" ");
        assert(out@.subrange(0, start as int) =~= before.subrange(0, start as int));
        assert(out@.subrange(start as int, out@.len() as int) =~= before.subrange(
            start as int,
            before.len() as int,
        ).push(' '));
        assert(body + Seq::new((out@.len() - start - body.len()) as nat, |i: int| ' ') =~= (body
            + Seq::new((before.len() - start - body.len()) as nat, |i: int| ' ')).push(' '));
    }
    assert(out@ =~= out@.subrange(0, start as int) + out@.subrange(start as int, out@.len() as int));
}

/// Whether the characters of `a` are those of `b`.
pub fn chars_eq(a: &Vec<char>, b: &str) -> (r: bool)
    ensures
        r == (a@ == b@),
{
    let n = b.unicode_len();
    if a.len() != n {
        return false;
    }
    let mut i: usize = 0;
    while i < n
        invariant
            i <= n,
            n == b@.len(),
            a@.len() == n,
            forall|j: int| 0 <= j < i ==> a@[j] == b@[j],
        decreases n - i,
    {
        if a[i] != b.get_char(i) {
            return false;
        }
        i += 1;
    }
    assert(a@ =~= b@);
    true
}

} // verus!
