//! IPv4 addresses. An address is four octets, written in text as a dotted
//! quad: four decimal numbers without leading zeros, joined by dots. Reading
//! an address is the inverse of writing it.

use vstd::prelude::*;
use crate::text::string_of;

verus! {

/// An IPv4 address, by its four octets.
#[derive(Clone, Copy, Debug, PartialEq, Eq, Structural)]
pub struct Ipv4Address {
    pub a: u8,
    pub b: u8,
    pub c: u8,
    pub d: u8,
}

/// The character of a decimal digit.
pub open spec fn digit(n: int) -> char {
    ((48 + n) as u8) as char
}

/// Whether `c` is one of the characters `0` to `9`.
pub open spec fn is_digit(c: char) -> bool {
    48 <= c as u32 <= 57
}

/// The decimal text of an octet: one to three digits, no leading zero.
pub open spec fn octet_text(v: u8) -> Seq<char> {
    if v < 10 {
        seq![digit(v as int)]
    } else if v < 100 {
        seq![digit(v as int / 10), digit(v as int % 10)]
    } else {
        seq![digit(v as int / 100), digit((v as int / 10) % 10), digit(v as int % 10)]
    }
}

/// The dotted quad of four octets.
pub open spec fn dotted_quad(a: u8, b: u8, c: u8, d: u8) -> Seq<char> {
    octet_text(a) + seq!['.'] + octet_text(b) + seq!['.'] + octet_text(c) + seq!['.'] + octet_text(
        d,
    )
}

/// The address that a text denotes: the one whose dotted quad the text is,
/// if there is one.
pub open spec fn ipv4_of(text: Seq<char>) -> Option<Ipv4Address> {
    if exists|x: Ipv4Address| #[trigger] x.text() == text {
        Some(choose|x: Ipv4Address| #[trigger] x.text() == text)
    } else {
        None
    }
}

spec fn digit_at(s: Seq<char>, i: int) -> bool {
    0 <= i < s.len() && is_digit(s[i])
}

spec fn dot_at(s: Seq<char>, i: int) -> bool {
    0 <= i < s.len() && s[i] == '.'
}

spec fn digit_value(c: char) -> int {
    c as u32 - 48
}

/// The number of digits that start at `pos`, counted up to four.
spec fn digit_run(s: Seq<char>, pos: int) -> int {
    if !digit_at(s, pos) {
        0
    } else if !digit_at(s, pos + 1) {
        1
    } else if !digit_at(s, pos + 2) {
        2
    } else if !digit_at(s, pos + 3) {
        3
    } else {
        4
    }
}

spec fn run_value(s: Seq<char>, pos: int, n: int) -> int {
    if n == 1 {
        digit_value(s[pos])
    } else if n == 2 {
        10 * digit_value(s[pos]) + digit_value(s[pos + 1])
    } else {
        100 * digit_value(s[pos]) + 10 * digit_value(s[pos + 1]) + digit_value(s[pos + 2])
    }
}

/// The octet written at `pos` and the position after it.
spec fn octet_at(s: Seq<char>, pos: int) -> Option<(u8, int)> {
    let n = digit_run(s, pos);
    if n < 1 || n > 3 {
        None
    } else if n > 1 && s[pos] == '0' {
        None
    } else if run_value(s, pos, n) > 255 {
        None
    } else {
        Some((run_value(s, pos, n) as u8, pos + n))
    }
}

/// Reading a dotted quad from left to right.
spec fn scan(s: Seq<char>) -> Option<Ipv4Address> {
    match octet_at(s, 0) {
        None => None,
        Some((a, end1)) => if !dot_at(s, end1) {
            None
        } else {
            match octet_at(s, end1 + 1) {
                None => None,
                Some((b, end2)) => if !dot_at(s, end2) {
                    None
                } else {
                    match octet_at(s, end2 + 1) {
                        None => None,
                        Some((c, end3)) => if !dot_at(s, end3) {
                            None
                        } else {
                            match octet_at(s, end3 + 1) {
                                None => None,
                                Some((d, end4)) => if end4 != s.len() {
                                    None
                                } else {
                                    Some(Ipv4Address { a, b, c, d })
                                },
                            }
                        },
                    }
                },
            }
        },
    }
}

proof fn lemma_digit_roundtrip(c: char)
    requires
        is_digit(c),
    ensures
        digit(digit_value(c)) == c,
        0 <= digit_value(c) <= 9,
{
}

proof fn lemma_digit_is_digit(n: int)
    requires
        0 <= n <= 9,
    ensures
        is_digit(digit(n)),
        digit_value(digit(n)) == n,
        digit(n) != '.',
        (digit(n) == '0') == (n == 0),
{
}

proof fn lemma_octet_text_shape(v: u8)
    ensures
        1 <= octet_text(v).len() <= 3,
        forall|k: int| 0 <= k < octet_text(v).len() ==> is_digit(#[trigger] octet_text(v)[k]),
{
    lemma_digit_is_digit(v as int % 10);
    if v >= 100 {
        lemma_digit_is_digit(v as int / 100);
        lemma_digit_is_digit((v as int / 10) % 10);
    } else if v >= 10 {
        lemma_digit_is_digit(v as int / 10);
    }
}

/// What `octet_at` reads is the decimal text of the octet it returns.
proof fn lemma_octet_at_sound(s: Seq<char>, pos: int)
    requires
        0 <= pos,
        octet_at(s, pos) is Some,
    ensures
        pos < octet_at(s, pos).unwrap().1 <= s.len(),
        s.subrange(pos, octet_at(s, pos).unwrap().1) == octet_text(octet_at(s, pos).unwrap().0),
        !digit_at(s, octet_at(s, pos).unwrap().1),
{
    let n = digit_run(s, pos);
    lemma_digit_roundtrip(s[pos]);
    if n >= 2 {
        lemma_digit_roundtrip(s[pos + 1]);
    }
    if n >= 3 {
        lemma_digit_roundtrip(s[pos + 2]);
    }
}

/// Where the decimal text of an octet stands at `pos` and no digit follows
/// it, `octet_at` reads that octet.
proof fn lemma_octet_at_complete(s: Seq<char>, pos: int, v: u8)
    requires
        0 <= pos,
        pos + octet_text(v).len() <= s.len(),
        s.subrange(pos, pos + octet_text(v).len()) == octet_text(v),
        !digit_at(s, pos + octet_text(v).len()),
    ensures
        octet_at(s, pos) == Some((v, pos + octet_text(v).len())),
{
    let t = octet_text(v);
    let part = s.subrange(pos, pos + t.len());
    lemma_octet_text_shape(v);
    assert(part[0] == s[pos]);
    if v < 10 {
        lemma_digit_is_digit(v as int);
    } else if v < 100 {
        lemma_digit_is_digit(v as int / 10);
        lemma_digit_is_digit(v as int % 10);
    } else {
        lemma_digit_is_digit(v as int / 100);
        lemma_digit_is_digit((v as int / 10) % 10);
        lemma_digit_is_digit(v as int % 10);
    }
}

/// Cutting a sequence at a dot and gluing the parts gives it back.
proof fn lemma_glue(s: Seq<char>, dot: int, end: int)
    requires
        0 <= dot < end <= s.len(),
        s[dot] == '.',
    ensures
        s.subrange(0, dot) + seq!['.'] + s.subrange(dot + 1, end) == s.subrange(0, end),
{
}

proof fn lemma_scan_sound(s: Seq<char>)
    requires
        scan(s) is Some,
    ensures
        scan(s).unwrap().text() == s,
{
    lemma_octet_at_sound(s, 0);
    let end1 = octet_at(s, 0).unwrap().1;
    lemma_octet_at_sound(s, end1 + 1);
    let end2 = octet_at(s, end1 + 1).unwrap().1;
    lemma_octet_at_sound(s, end2 + 1);
    let end3 = octet_at(s, end2 + 1).unwrap().1;
    lemma_octet_at_sound(s, end3 + 1);
    let end4 = octet_at(s, end3 + 1).unwrap().1;
    lemma_glue(s, end1, end2);
    lemma_glue(s, end2, end3);
    lemma_glue(s, end3, end4);
}

proof fn lemma_scan_complete(x: Ipv4Address)
    ensures
        scan(x.text()) == Some(x),
{
    let s = x.text();
    let ta = octet_text(x.a);
    let tb = octet_text(x.b);
    let tc = octet_text(x.c);
    let td = octet_text(x.d);
    lemma_octet_text_shape(x.a);
    lemma_octet_text_shape(x.b);
    lemma_octet_text_shape(x.c);
    lemma_octet_text_shape(x.d);
    let end1 = ta.len() as int;
    let end2 = end1 + 1 + tb.len();
    let end3 = end2 + 1 + tc.len();
    let end4 = end3 + 1 + td.len();
    assert(s.subrange(0, end1) =~= ta);
    assert(s.subrange(end1 + 1, end2) =~= tb);
    assert(s.subrange(end2 + 1, end3) =~= tc);
    assert(s.subrange(end3 + 1, end4) =~= td);
    lemma_octet_at_complete(s, 0, x.a);
    lemma_octet_at_complete(s, end1 + 1, x.b);
    lemma_octet_at_complete(s, end2 + 1, x.c);
    lemma_octet_at_complete(s, end3 + 1, x.d);
}

proof fn lemma_scan_is_ipv4_of(s: Seq<char>)
    ensures
        scan(s) == ipv4_of(s),
{
    if scan(s) is Some {
        lemma_scan_sound(s);
        let y = choose|x: Ipv4Address| #[trigger] x.text() == s;
        lemma_scan_complete(y);
    } else {
        if exists|x: Ipv4Address| #[trigger] x.text() == s {
            let y = choose|x: Ipv4Address| #[trigger] x.text() == s;
            lemma_scan_complete(y);
        }
    }
}

/// The text of an address holds digits and dots only, and at least one dot.
pub proof fn lemma_ipv4_text_shape(x: Ipv4Address)
    ensures
        forall|i: int|
            0 <= i < x.text().len() ==> is_digit(#[trigger] x.text()[i]) || x.text()[i] == '.',
        exists|i: int| 0 <= i < x.text().len() && #[trigger] x.text()[i] == '.',
{
    lemma_octet_text_shape(x.a);
    lemma_octet_text_shape(x.b);
    lemma_octet_text_shape(x.c);
    lemma_octet_text_shape(x.d);
    assert(x.text()[octet_text(x.a).len() as int] == '.');
}

/// Reading what was written gives the address back.
pub proof fn lemma_ipv4_roundtrip(x: Ipv4Address)
    ensures
        ipv4_of(x.text()) == Some(x),
{
    lemma_scan_complete(x);
    lemma_scan_is_ipv4_of(x.text());
}

fn digit_char(n: u8) -> (c: char)
    requires
        n <= 9,
    ensures
        c == digit(n as int),
{
    (48u8 + n) as char
}

fn is_digit_char(c: char) -> (b: bool)
    ensures
        b == is_digit(c),
{
    let u: u32 = c as u32;
    48 <= u && u <= 57
}

fn digit_of(c: char) -> (n: u16)
    requires
        is_digit(c),
    ensures
        n == digit_value(c),
{
    let u: u32 = c as u32;
    (u - 48) as u16
}

fn push_octet(out: &mut Vec<char>, v: u8)
    ensures
        final(out)@ == old(out)@ + octet_text(v),
{
    if v < 10 {
        out.push(digit_char(v));
    } else if v < 100 {
        out.push(digit_char(v / 10));
        out.push(digit_char(v % 10));
    } else {
        out.push(digit_char(v / 100));
        out.push(digit_char((v / 10) % 10));
        out.push(digit_char(v % 10));
    }
}

fn read_octet(text: &[char], pos: usize) -> (r: Option<(u8, usize)>)
    requires
        pos <= text.len(),
    ensures
        match r {
            Some((v, end)) => octet_at(text@, pos as int) == Some((v, end as int)) && end
                <= text.len(),
            None => octet_at(text@, pos as int) is None,
        },
{
    let len = text.len();
    if pos >= len || !is_digit_char(text[pos]) {
        return None;
    }
    let d0: u16 = digit_of(text[pos]);
    if pos + 1 >= len || !is_digit_char(text[pos + 1]) {
        return Some((d0 as u8, pos + 1));
    }
    if d0 == 0 {
        proof {
            lemma_digit_roundtrip(text@[pos as int]);
        }
        return None;
    }
    proof {
        lemma_digit_is_digit(0);
    }
    let d1: u16 = digit_of(text[pos + 1]);
    if pos + 2 >= len || !is_digit_char(text[pos + 2]) {
        return Some(((10 * d0 + d1) as u8, pos + 2));
    }
    let d2: u16 = digit_of(text[pos + 2]);
    if pos + 3 < len && is_digit_char(text[pos + 3]) {
        return None;
    }
    let v: u16 = 100 * d0 + 10 * d1 + d2;
    if v > 255 {
        None
    } else {
        Some((v as u8, pos + 3))
    }
}

fn is_dot(text: &[char], pos: usize) -> (b: bool)
    ensures
        b == dot_at(text@, pos as int),
{
    pos < text.len() && text[pos] == '.'
}

impl Ipv4Address {
    /// The address written as a dotted quad.
    pub open spec fn text(self) -> Seq<char> {
        dotted_quad(self.a, self.b, self.c, self.d)
    }

    /// Reads an address from its dotted quad. Any other text is no address.
    pub fn parse(text: &[char]) -> (r: Option<Ipv4Address>)
        ensures
            r == ipv4_of(text@),
            r matches Some(x) ==> x.text() == text@,
            r is None ==> forall|x: Ipv4Address| #[trigger] x.text() != text@,
    {
        proof {
            lemma_scan_is_ipv4_of(text@);
            if scan(text@) is Some {
                lemma_scan_sound(text@);
            }
            assert forall|x: Ipv4Address| scan(text@) is None implies #[trigger] x.text()
                != text@ by {
                lemma_scan_complete(x);
            }
        }
        let (a, end1) = match read_octet(text, 0) {
            Some(found) => found,
            None => { return None; },
        };
        if !is_dot(text, end1) {
            return None;
        }
        let (b, end2) = match read_octet(text, end1 + 1) {
            Some(found) => found,
            None => { return None; },
        };
        if !is_dot(text, end2) {
            return None;
        }
        let (c, end3) = match read_octet(text, end2 + 1) {
            Some(found) => found,
            None => { return None; },
        };
        if !is_dot(text, end3) {
            return None;
        }
        let (d, end4) = match read_octet(text, end3 + 1) {
            Some(found) => found,
            None => { return None; },
        };
        if end4 != text.len() {
            return None;
        }
        Some(Ipv4Address { a, b, c, d })
    }

    /// The characters of the address written as a dotted quad.
    pub fn to_chars(&self) -> (out: Vec<char>)
        ensures
            out@ == self.text(),
    {
        let mut out: Vec<char> = Vec::new();
        push_octet(&mut out, self.a);
        out.push('.');
        push_octet(&mut out, self.b);
        out.push('.');
        push_octet(&mut out, self.c);
        out.push('.');
        push_octet(&mut out, self.d);
        out
    }

    /// The address written as a dotted quad.
    pub fn to_string(&self) -> (s: String)
        ensures
            s@ == self.text(),
    {
        string_of(self.to_chars().as_slice())
    }

    /// The four octets, first to last.
    pub fn octets(&self) -> (o: [u8; 4])
        ensures
            o@ == seq![self.a, self.b, self.c, self.d],
    {
        [self.a, self.b, self.c, self.d]
    }
}

} // verus!
