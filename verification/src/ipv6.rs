//! IPv6 addresses. An address is eight groups of sixteen bits. In text the
//! groups are written in hexadecimal and joined by colons; one run of zero
//! groups may be left out and marked by a double colon, and the last two
//! groups may be written as a dotted quad. An address is written in its
//! shortest form, and reading what was written gives the address back.

use vstd::prelude::*;
use crate::ipv4::{ipv4_of, is_digit, lemma_ipv4_roundtrip, lemma_ipv4_text_shape, Ipv4Address};
use crate::text::{copy_range, find_from, index_of, lemma_index_of_first, rows, string_of};

verus! {

/// An IPv6 address, by its eight groups.
#[derive(Clone, Copy, Debug, PartialEq, Eq, Structural)]
pub struct Ipv6Address {
    pub s0: u16,
    pub s1: u16,
    pub s2: u16,
    pub s3: u16,
    pub s4: u16,
    pub s5: u16,
    pub s6: u16,
    pub s7: u16,
}

/// Whether `c` is a hexadecimal digit, of either case.
pub open spec fn is_hex_digit(c: char) -> bool {
    48 <= c as u32 <= 57 || 97 <= c as u32 <= 102 || 65 <= c as u32 <= 70
}

/// The value of a hexadecimal digit.
pub open spec fn hex_value(c: char) -> int {
    if c as u32 <= 57 {
        c as u32 - 48
    } else if c as u32 >= 97 {
        c as u32 - 87
    } else {
        c as u32 - 55
    }
}

/// The number that a sequence of hexadecimal digits writes.
pub open spec fn hex_number(t: Seq<char>) -> int
    decreases t.len(),
{
    if t.len() == 0 {
        0
    } else {
        16 * hex_number(t.drop_last()) + hex_value(t.last())
    }
}

/// The group that a text writes: one to four hexadecimal digits.
pub open spec fn hextet_of(t: Seq<char>) -> Option<u16> {
    if 1 <= t.len() <= 4 && (forall|i: int| 0 <= i < t.len() ==> is_hex_digit(#[trigger] t[i])) {
        Some(hex_number(t) as u16)
    } else {
        None
    }
}

/// The parts of a text between its colons: one more than it has colons.
pub open spec fn pieces(text: Seq<char>) -> Seq<Seq<char>>
    decreases text.len(),
{
    let n = index_of(text, ':');
    if n >= text.len() {
        seq![text]
    } else {
        seq![text.take(n as int)] + pieces(text.skip(n as int + 1))
    }
}

/// The groups that a sequence of parts writes, where each part is a group.
pub open spec fn hextets_of(p: Seq<Seq<char>>) -> Option<Seq<u16>>
    decreases p.len(),
{
    if p.len() == 0 {
        Some(Seq::empty())
    } else {
        match hextets_of(p.drop_last()) {
            None => None,
            Some(front) => match hextet_of(p.last()) {
                None => None,
                Some(v) => Some(front.push(v)),
            },
        }
    }
}

/// The first of the two groups that an IPv4 address fills.
pub open spec fn high_group(quad: Ipv4Address) -> u16 {
    (quad.a * 256 + quad.b) as u16
}

/// The second of the two groups that an IPv4 address fills.
pub open spec fn low_group(quad: Ipv4Address) -> u16 {
    (quad.c * 256 + quad.d) as u16
}

/// The groups that a text without double colon writes: its parts are
/// groups, but the last may be a dotted quad, which fills two.
pub open spec fn groups_of(text: Seq<char>) -> Option<Seq<u16>> {
    let p = pieces(text);
    match ipv4_of(p.last()) {
        Some(quad) => match hextets_of(p.drop_last()) {
            None => None,
            Some(front) => Some(front.push(high_group(quad)).push(low_group(quad))),
        },
        None => hextets_of(p),
    }
}

/// The position of the first double colon of a text, or its length if it
/// holds none.
pub open spec fn first_gap(text: Seq<char>) -> nat
    decreases text.len(),
{
    if text.len() < 2 {
        text.len()
    } else if text[0] == ':' && text[1] == ':' {
        0
    } else {
        1 + first_gap(text.drop_first())
    }
}

/// A run of zero groups.
pub open spec fn zeros(n: nat) -> Seq<u16> {
    Seq::new(n, |i: int| 0u16)
}

/// The eight groups that a text writes. Without a double colon the text
/// writes all eight. With one, what stands before it writes the first
/// groups, what stands after it the last, at most seven in all, and zeros
/// fill the gap.
pub open spec fn segments_of(text: Seq<char>) -> Option<Seq<u16>> {
    let d = first_gap(text);
    if d >= text.len() {
        match groups_of(text) {
            Some(g) => if g.len() == 8 {
                Some(g)
            } else {
                None
            },
            None => None,
        }
    } else {
        let head = if d == 0 {
            Some(Seq::empty())
        } else {
            hextets_of(pieces(text.take(d as int)))
        };
        let tail = if d + 2 == text.len() {
            Some(Seq::empty())
        } else {
            groups_of(text.skip(d as int + 2))
        };
        match (head, tail) {
            (Some(h), Some(t)) => if h.len() + t.len() <= 7 {
                Some(h + zeros((8 - h.len() - t.len()) as nat) + t)
            } else {
                None
            },
            _ => None,
        }
    }
}

/// The address of eight groups.
pub open spec fn from_segments(g: Seq<u16>) -> Ipv6Address {
    Ipv6Address { s0: g[0], s1: g[1], s2: g[2], s3: g[3], s4: g[4], s5: g[5], s6: g[6], s7: g[7] }
}

/// The address that a text writes, if it writes one.
pub open spec fn ipv6_of(text: Seq<char>) -> Option<Ipv6Address> {
    match segments_of(text) {
        Some(g) => Some(from_segments(g)),
        None => None,
    }
}

/// The character of a hexadecimal digit, in lower case.
pub open spec fn hex_digit(n: int) -> char {
    if n < 10 {
        ((48 + n) as u8) as char
    } else {
        ((87 + n) as u8) as char
    }
}

/// The hexadecimal text of a group: one to four digits in lower case, no
/// leading zero.
pub open spec fn hex_text(v: u16) -> Seq<char> {
    if v < 0x10 {
        seq![hex_digit(v as int)]
    } else if v < 0x100 {
        seq![hex_digit(v as int / 16), hex_digit(v as int % 16)]
    } else if v < 0x1000 {
        seq![hex_digit(v as int / 256), hex_digit((v as int / 16) % 16), hex_digit(v as int % 16)]
    } else {
        seq![
            hex_digit(v as int / 4096),
            hex_digit((v as int / 256) % 16),
            hex_digit((v as int / 16) % 16),
            hex_digit(v as int % 16),
        ]
    }
}

/// The texts of groups, joined by colons.
pub open spec fn joined(groups: Seq<u16>) -> Seq<char>
    decreases groups.len(),
{
    if groups.len() == 0 {
        Seq::empty()
    } else if groups.len() == 1 {
        hex_text(groups[0])
    } else {
        hex_text(groups.first()) + seq![':'] + joined(groups.drop_first())
    }
}

proof fn lemma_hex_digit(n: int)
    requires
        0 <= n <= 15,
    ensures
        is_hex_digit(hex_digit(n)),
        hex_value(hex_digit(n)) == n,
        hex_digit(n) != ':',
        hex_digit(n) != '.',
{
}

proof fn lemma_hex_text_shape(v: u16)
    ensures
        1 <= hex_text(v).len() <= 4,
        forall|k: int| 0 <= k < hex_text(v).len() ==> is_hex_digit(#[trigger] hex_text(v)[k]),
        forall|k: int| 0 <= k < hex_text(v).len() ==> #[trigger] hex_text(v)[k] != ':',
        forall|k: int| 0 <= k < hex_text(v).len() ==> #[trigger] hex_text(v)[k] != '.',
{
    lemma_hex_digit(v as int % 16);
    lemma_hex_digit((v as int / 16) % 16);
    lemma_hex_digit((v as int / 256) % 16);
    lemma_hex_digit(v as int / 4096);
}

/// The text of a group writes that group.
proof fn lemma_hex_text_reads_back(v: u16)
    ensures
        hextet_of(hex_text(v)) == Some(v),
{
    lemma_hex_text_shape(v);
    lemma_hex_digit(v as int % 16);
    lemma_hex_digit((v as int / 16) % 16);
    lemma_hex_digit((v as int / 256) % 16);
    lemma_hex_digit(v as int / 4096);
    reveal_with_fuel(hex_number, 5);
}

/// In the joined text of two groups or more, the first colon stands right
/// after the text of the first group.
proof fn lemma_joined_first_colon(groups: Seq<u16>)
    requires
        groups.len() >= 2,
    ensures
        index_of(joined(groups), ':') == hex_text(groups.first()).len(),
        joined(groups).take(hex_text(groups.first()).len() as int) == hex_text(groups.first()),
        joined(groups).skip(hex_text(groups.first()).len() as int + 1) == joined(
            groups.drop_first(),
        ),
{
    let s = joined(groups);
    let t = hex_text(groups.first());
    let n = t.len() as int;
    lemma_hex_text_shape(groups.first());
    lemma_index_of_first(s, ':');
    assert(s[n] == ':');
}

/// The joined text of groups holds no colon exactly when there is at most
/// one group.
proof fn lemma_joined_single_has_no_colon(groups: Seq<u16>)
    requires
        groups.len() == 1,
    ensures
        index_of(joined(groups), ':') == joined(groups).len(),
{
    let s = joined(groups);
    lemma_hex_text_shape(groups[0]);
    lemma_index_of_first(s, ':');
}

/// The number of zero groups that stand in a row from position `i` on.
pub open spec fn zero_run(groups: Seq<u16>, i: int) -> nat
    decreases groups.len() - i,
{
    if 0 <= i < groups.len() && groups[i] == 0 {
        1 + zero_run(groups, i + 1)
    } else {
        0
    }
}

/// The first of the positions up to `n` from which the longest run of zero
/// groups starts.
pub open spec fn longest_run_start(groups: Seq<u16>, n: nat) -> nat
    decreases n,
{
    if n == 0 {
        0
    } else {
        let best = longest_run_start(groups, (n - 1) as nat);
        if zero_run(groups, n as int) > zero_run(groups, best as int) {
            n
        } else {
            best
        }
    }
}

/// Whether eight groups hold an IPv4 address mapped into IPv6: five zero
/// groups, then one of all ones.
pub open spec fn is_mapped(groups: Seq<u16>) -> bool {
    groups[0] == 0 && groups[1] == 0 && groups[2] == 0 && groups[3] == 0 && groups[4] == 0
        && groups[5] == 0xffff
}

/// The IPv4 address that the last two of eight groups hold.
pub open spec fn mapped_quad(groups: Seq<u16>) -> Ipv4Address {
    Ipv4Address {
        a: (groups[6] / 256) as u8,
        b: (groups[6] % 256) as u8,
        c: (groups[7] / 256) as u8,
        d: (groups[7] % 256) as u8,
    }
}

/// What stands before the dotted quad in the text of a mapped address.
pub open spec fn mapped_prefix() -> Seq<char> {
    seq![':', ':', 'f', 'f', 'f', 'f', ':']
}

/// Eight groups in text. A mapped IPv4 address is written as a dotted quad
/// behind `::ffff:`. Otherwise the groups are joined by colons, and the
/// longest run of two or more zero groups, the first of them where several
/// are as long, is left out and marked by a double colon.
pub open spec fn written(groups: Seq<u16>) -> Seq<char> {
    if is_mapped(groups) {
        mapped_prefix() + mapped_quad(groups).text()
    } else {
        let start = longest_run_start(groups, 7);
        let len = zero_run(groups, start as int);
        if len > 1 {
            joined(groups.take(start as int)) + seq![':', ':'] + joined(
                groups.skip(start as int + len as int),
            )
        } else {
            joined(groups)
        }
    }
}

impl Ipv6Address {
    /// The eight groups, first to last.
    pub open spec fn groups(self) -> Seq<u16> {
        seq![self.s0, self.s1, self.s2, self.s3, self.s4, self.s5, self.s6, self.s7]
    }

    /// The address in text, in its shortest form.
    pub open spec fn text(self) -> Seq<char> {
        written(self.groups())
    }
}

/// The texts of groups, one by one.
pub open spec fn group_texts(groups: Seq<u16>) -> Seq<Seq<char>> {
    Seq::new(groups.len(), |i: int| hex_text(groups[i]))
}

/// The parts of a joined text are the texts of its groups.
proof fn lemma_pieces_of_joined(groups: Seq<u16>)
    requires
        groups.len() >= 1,
    ensures
        pieces(joined(groups)) == group_texts(groups),
    decreases groups.len(),
{
    if groups.len() == 1 {
        lemma_joined_single_has_no_colon(groups);
    } else {
        lemma_joined_first_colon(groups);
        lemma_pieces_of_joined(groups.drop_first());
        lemma_hex_text_shape(groups.first());
        assert(pieces(joined(groups)) =~= group_texts(groups));
    }
}

/// The texts of groups write those groups.
proof fn lemma_hextets_of_texts(groups: Seq<u16>)
    ensures
        hextets_of(group_texts(groups)) == Some(groups),
    decreases groups.len(),
{
    if groups.len() > 0 {
        let front = groups.drop_last();
        lemma_hextets_of_texts(front);
        lemma_hex_text_reads_back(groups.last());
        assert(group_texts(groups).drop_last() =~= group_texts(front));
    }
}

/// In a joined text no colon stands first, last, or next to another.
proof fn lemma_joined_colons_stand_apart(groups: Seq<u16>)
    requires
        groups.len() >= 1,
    ensures
        joined(groups).len() >= 1,
        joined(groups)[0] != ':',
        joined(groups).last() != ':',
        forall|i: int|
            0 <= i && i + 1 < joined(groups).len() ==> !(#[trigger] joined(groups)[i] == ':'
                && joined(groups)[i + 1] == ':'),
    decreases groups.len(),
{
    lemma_hex_text_shape(groups.first());
    if groups.len() >= 2 {
        lemma_joined_colons_stand_apart(groups.drop_first());
    }
}

/// The first double colon is where `first_gap` says, if there is one, and
/// none stands before it.
proof fn lemma_first_gap(text: Seq<char>)
    ensures
        first_gap(text) <= text.len(),
        first_gap(text) < text.len() ==> first_gap(text) + 1 < text.len() && text[first_gap(
            text,
        ) as int] == ':' && text[first_gap(text) as int + 1] == ':',
        forall|i: int|
            0 <= i < first_gap(text) && i + 1 < text.len() ==> !(#[trigger] text[i] == ':'
                && text[i + 1] == ':'),
    decreases text.len(),
{
    if text.len() >= 2 && !(text[0] == ':' && text[1] == ':') {
        let rest = text.drop_first();
        lemma_first_gap(rest);
        assert forall|i: int| 0 <= i < first_gap(text) && i + 1 < text.len() implies !(
        #[trigger] text[i] == ':' && text[i + 1] == ':') by {
            if i > 0 {
                assert(rest[i - 1] == text[i]);
                assert(rest[i] == text[i + 1]);
            }
        }
    }
}

/// Where a double colon stands at `d` and none before it, `first_gap` is
/// `d`.
proof fn lemma_gap_found(text: Seq<char>, d: int)
    requires
        0 <= d,
        d + 1 < text.len(),
        text[d] == ':',
        text[d + 1] == ':',
        forall|i: int| 0 <= i < d ==> !(#[trigger] text[i] == ':' && text[i + 1] == ':'),
    ensures
        first_gap(text) == d,
{
    lemma_first_gap(text);
}

/// A text that holds a colon writes no IPv4 address.
proof fn lemma_colon_is_no_ipv4(text: Seq<char>, i: int)
    requires
        0 <= i < text.len(),
        text[i] == ':',
    ensures
        ipv4_of(text) is None,
{
    if ipv4_of(text) is Some {
        let quad = ipv4_of(text).unwrap();
        lemma_ipv4_text_shape(quad);
        assert(quad.text()[i] == ':');
    }
}

/// The joined text of groups writes those groups, as the part before a
/// double colon.
proof fn lemma_reads_joined_hextets(groups: Seq<u16>)
    requires
        groups.len() >= 1,
    ensures
        hextets_of(pieces(joined(groups))) == Some(groups),
{
    lemma_pieces_of_joined(groups);
    lemma_hextets_of_texts(groups);
}

/// The joined text of groups writes those groups, as a text without double
/// colon.
proof fn lemma_reads_joined_groups(groups: Seq<u16>)
    requires
        groups.len() >= 1,
    ensures
        groups_of(joined(groups)) == Some(groups),
{
    lemma_pieces_of_joined(groups);
    lemma_hextets_of_texts(groups);
    let last = hex_text(groups.last());
    assert(group_texts(groups).last() == last);
    lemma_hex_text_shape(groups.last());
    if ipv4_of(last) is Some {
        let quad = ipv4_of(last).unwrap();
        lemma_ipv4_text_shape(quad);
        let i = choose|i: int| 0 <= i < quad.text().len() && #[trigger] quad.text()[i] == '.';
        assert(last[i] == '.');
    }
}

/// A run of zero groups lies within the groups and holds zeros only.
proof fn lemma_zero_run(groups: Seq<u16>, i: int)
    requires
        0 <= i <= groups.len(),
    ensures
        i + zero_run(groups, i) <= groups.len(),
        forall|k: int| i <= k < i + zero_run(groups, i) ==> groups[k] == 0,
    decreases groups.len() - i,
{
    if i < groups.len() && groups[i] == 0 {
        lemma_zero_run(groups, i + 1);
    }
}

proof fn lemma_longest_run_start(groups: Seq<u16>, n: nat)
    ensures
        longest_run_start(groups, n) <= n,
    decreases n,
{
    if n > 0 {
        lemma_longest_run_start(groups, (n - 1) as nat);
    }
}

/// Eight groups joined in full are read back.
proof fn lemma_reads_full(groups: Seq<u16>)
    requires
        groups.len() == 8,
    ensures
        segments_of(joined(groups)) == Some(groups),
        ipv4_of(joined(groups)) is None,
{
    let s = joined(groups);
    lemma_joined_colons_stand_apart(groups);
    lemma_first_gap(s);
    lemma_reads_joined_groups(groups);
    lemma_joined_first_colon(groups);
    lemma_hex_text_shape(groups.first());
    lemma_colon_is_no_ipv4(s, hex_text(groups.first()).len() as int);
}

/// Eight groups with a run of zeros left out are read back.
proof fn lemma_reads_compressed(groups: Seq<u16>, start: int, len: int)
    requires
        groups.len() == 8,
        0 <= start,
        2 <= len,
        start + len <= 8,
        forall|k: int| start <= k < start + len ==> groups[k] == 0,
    ensures
        segments_of(
            joined(groups.take(start)) + seq![':', ':'] + joined(groups.skip(start + len)),
        ) == Some(groups),
        ipv4_of(joined(groups.take(start)) + seq![':', ':'] + joined(groups.skip(start + len)))
            is None,
{
    let head = groups.take(start);
    let tail = groups.skip(start + len);
    let before = joined(head);
    let after = joined(tail);
    let s = before + seq![':', ':'] + after;
    let d = before.len() as int;
    assert(s[d] == ':');
    assert(s[d + 1] == ':');
    lemma_colon_is_no_ipv4(s, d);
    if head.len() >= 1 {
        lemma_joined_colons_stand_apart(head);
        lemma_reads_joined_hextets(head);
        assert(s.take(d) =~= before);
        assert forall|i: int| 0 <= i < d implies !(#[trigger] s[i] == ':' && s[i + 1] == ':') by {
            assert(s[i] == before[i]);
            if i + 1 < d {
                assert(s[i + 1] == before[i + 1]);
            }
        }
    }
    lemma_gap_found(s, d);
    if tail.len() >= 1 {
        lemma_joined_colons_stand_apart(tail);
        lemma_reads_joined_groups(tail);
        assert(s.skip(d + 2) =~= after);
    }
    assert(head + zeros(len as nat) + tail =~= groups);
}

/// A mapped IPv4 address in text is read back.
proof fn lemma_reads_mapped(groups: Seq<u16>)
    requires
        groups.len() == 8,
        is_mapped(groups),
    ensures
        segments_of(mapped_prefix() + mapped_quad(groups).text()) == Some(groups),
        ipv4_of(mapped_prefix() + mapped_quad(groups).text()) is None,
{
    let quad = mapped_quad(groups);
    let s = mapped_prefix() + quad.text();
    let rest = s.skip(2);
    lemma_colon_is_no_ipv4(s, 0);
    lemma_ipv4_text_shape(quad);
    lemma_ipv4_roundtrip(quad);
    lemma_index_of_first(rest, ':');
    lemma_index_of_first(quad.text(), ':');
    assert(rest[4] == ':');
    assert(index_of(rest, ':') == 4) by {
        let n = index_of(rest, ':') as int;
        if n < 4 {
            assert(rest[n] == 'f');
        }
    }
    assert(index_of(quad.text(), ':') == quad.text().len()) by {
        let n = index_of(quad.text(), ':') as int;
        if n < quad.text().len() {
            assert(is_digit(quad.text()[n]) || quad.text()[n] == '.');
        }
    }
    assert(rest.skip(5) =~= quad.text());
    let ones = seq!['f', 'f', 'f', 'f'];
    assert(rest.take(4) =~= ones);
    assert(pieces(quad.text()) =~= seq![quad.text()]);
    assert(pieces(rest) =~= seq![rest.take(4)] + pieces(rest.skip(5)));
    assert(pieces(rest) =~= seq![ones, quad.text()]);
    assert(pieces(rest).drop_last() =~= seq![ones]);
    assert(hextet_of(ones) == Some(0xffffu16)) by {
        reveal_with_fuel(hex_number, 5);
    }
    assert(hextets_of(seq![ones]) == Some(seq![0xffffu16])) by {
        let none = Seq::<Seq<char>>::empty();
        assert(hextets_of(none) == Some(Seq::<u16>::empty()));
        assert(seq![ones].drop_last() =~= none);
        assert(seq![ones].last() == ones);
        assert(Seq::<u16>::empty().push(0xffffu16) =~= seq![0xffffu16]);
    }
    let tail = seq![0xffffu16].push(high_group(quad)).push(low_group(quad));
    assert(groups_of(rest) == Some(tail));
    assert(zeros(5) + tail =~= groups);
}

/// Eight groups in text are read back as those groups, and not as an IPv4
/// address.
proof fn lemma_written_reads_back(groups: Seq<u16>)
    requires
        groups.len() == 8,
    ensures
        segments_of(written(groups)) == Some(groups),
        ipv4_of(written(groups)) is None,
{
    if is_mapped(groups) {
        lemma_reads_mapped(groups);
    } else {
        let start = longest_run_start(groups, 7);
        lemma_longest_run_start(groups, 7);
        lemma_zero_run(groups, start as int);
        if zero_run(groups, start as int) > 1 {
            lemma_reads_compressed(groups, start as int, zero_run(groups, start as int) as int);
        } else {
            lemma_reads_full(groups);
        }
    }
}

/// Reading the text of an address gives the address back, and never an
/// IPv4 address.
pub proof fn lemma_ipv6_roundtrip(x: Ipv6Address)
    ensures
        ipv6_of(x.text()) == Some(x),
        ipv4_of(x.text()) is None,
{
    lemma_written_reads_back(x.groups());
}

/// Where the first parts of a sequence write no groups, neither does the
/// whole.
proof fn lemma_hextets_prefix(p: Seq<Seq<char>>, k: int)
    requires
        0 <= k <= p.len(),
        hextets_of(p.take(k)) is None,
    ensures
        hextets_of(p) is None,
    decreases p.len() - k,
{
    if k < p.len() {
        assert(p.take(k + 1).drop_last() =~= p.take(k));
        lemma_hextets_prefix(p, k + 1);
    } else {
        assert(p.take(k) =~= p);
    }
}

fn is_hex_char(c: char) -> (b: bool)
    ensures
        b == is_hex_digit(c),
{
    let u: u32 = c as u32;
    (48 <= u && u <= 57) || (97 <= u && u <= 102) || (65 <= u && u <= 70)
}

fn hex_of(c: char) -> (n: u32)
    requires
        is_hex_digit(c),
    ensures
        n == hex_value(c),
        n <= 15,
{
    let u: u32 = c as u32;
    if u <= 57 {
        u - 48
    } else if u >= 97 {
        u - 87
    } else {
        u - 55
    }
}

fn hex_char(n: u16) -> (c: char)
    requires
        n <= 15,
    ensures
        c == hex_digit(n as int),
{
    if n < 10 {
        (48u8 + n as u8) as char
    } else {
        (87u8 + n as u8) as char
    }
}

/// The group that a part writes.
fn read_hextet(piece: &[char]) -> (r: Option<u16>)
    ensures
        r == hextet_of(piece@),
{
    if piece.len() == 0 || piece.len() > 4 {
        return None;
    }
    let mut v: u32 = 0;
    let mut i: usize = 0;
    while i < piece.len()
        invariant
            i <= piece.len() <= 4,
            v == hex_number(piece@.take(i as int)),
            i == 0 ==> v == 0,
            i == 1 ==> v < 0x10,
            i == 2 ==> v < 0x100,
            i == 3 ==> v < 0x1000,
            i == 4 ==> v < 0x10000,
            forall|k: int| 0 <= k < i ==> is_hex_digit(#[trigger] piece@[k]),
        decreases piece.len() - i,
    {
        if !is_hex_char(piece[i]) {
            return None;
        }
        assert(piece@.take(i + 1).drop_last() == piece@.take(i as int));
        v = v * 16 + hex_of(piece[i]);
        i += 1;
    }
    assert(piece@.take(i as int) == piece@);
    Some(v as u16)
}

/// The parts of a text between its colons.
fn split_colons(text: &[char]) -> (parts: Vec<Vec<char>>)
    ensures
        rows(parts@) == pieces(text@),
        parts@.len() >= 1,
{
    let mut parts: Vec<Vec<char>> = Vec::new();
    let mut pos: usize = 0;
    let mut finished = false;
    assert(text@.skip(0) == text@);
    while !finished
        invariant
            pos <= text.len(),
            !finished ==> pieces(text@) == rows(parts@) + pieces(text@.skip(pos as int)),
            finished ==> pieces(text@) == rows(parts@) && parts@.len() >= 1,
        decreases text.len() - pos + (if finished { 0int } else { 1int }),
    {
        let ghost rest = text@.skip(pos as int);
        let end = find_from(text, pos, ':');
        let part = copy_range(text, pos, end);
        assert(rest.take(end - pos) == text@.subrange(pos as int, end as int));
        parts.push(part);
        if end < text.len() {
            assert(rest.skip(end - pos + 1) == text@.skip(end + 1));
            pos = end + 1;
        } else {
            finished = true;
        }
    }
    parts
}

/// The groups that the first `count` parts write.
fn read_hextets(parts: &Vec<Vec<char>>, count: usize) -> (r: Option<Vec<u16>>)
    requires
        count <= parts.len(),
    ensures
        match r {
            Some(groups) => hextets_of(rows(parts@).take(count as int)) == Some(groups@),
            None => hextets_of(rows(parts@).take(count as int)) is None,
        },
{
    let ghost p = rows(parts@).take(count as int);
    let mut groups: Vec<u16> = Vec::new();
    let mut k: usize = 0;
    while k < count
        invariant
            k <= count <= parts.len(),
            p == rows(parts@).take(count as int),
            hextets_of(p.take(k as int)) == Some(groups@),
        decreases count - k,
    {
        assert(p.take(k + 1).drop_last() == p.take(k as int));
        match read_hextet(parts[k].as_slice()) {
            None => {
                proof {
                    lemma_hextets_prefix(p, k + 1);
                }
                return None;
            },
            Some(v) => {
                groups.push(v);
            },
        }
        k += 1;
    }
    assert(p.take(k as int) == p);
    Some(groups)
}

/// The groups that a text without double colon writes.
fn read_groups(text: &[char]) -> (r: Option<Vec<u16>>)
    ensures
        match r {
            Some(groups) => groups_of(text@) == Some(groups@),
            None => groups_of(text@) is None,
        },
{
    let parts = split_colons(text);
    let last = parts.len() - 1;
    assert(rows(parts@).take(parts.len() as int) == rows(parts@));
    match Ipv4Address::parse(parts[last].as_slice()) {
        Some(quad) => match read_hextets(&parts, last) {
            None => None,
            Some(mut groups) => {
                groups.push((quad.a as u16) * 256 + quad.b as u16);
                groups.push((quad.c as u16) * 256 + quad.d as u16);
                Some(groups)
            },
        },
        None => read_hextets(&parts, parts.len()),
    }
}

/// The position of the first double colon, or the length of the text.
fn find_gap(text: &[char]) -> (d: usize)
    ensures
        d == first_gap(text@),
        d <= text.len(),
        d < text.len() ==> d + 2 <= text.len(),
{
    if text.len() < 2 {
        return text.len();
    }
    let last = text.len() - 1;
    let mut i: usize = 0;
    assert(text@.skip(0) == text@);
    while i < last && !(text[i] == ':' && text[i + 1] == ':')
        invariant
            i <= last,
            last + 1 == text.len(),
            first_gap(text@) == i + first_gap(text@.skip(i as int)),
        decreases last - i,
    {
        assert(text@.skip(i as int).drop_first() == text@.skip(i + 1));
        i += 1;
    }
    if i < last {
        i
    } else {
        text.len()
    }
}

impl Ipv6Address {
    /// The eight groups that a text writes.
    fn read_segments(text: &[char]) -> (r: Option<Vec<u16>>)
        ensures
            match r {
                Some(groups) => segments_of(text@) == Some(groups@) && groups@.len() == 8,
                None => segments_of(text@) is None,
            },
    {
        let d = find_gap(text);
        if d >= text.len() {
            return match read_groups(text) {
                Some(groups) => if groups.len() == 8 {
                    Some(groups)
                } else {
                    None
                },
                None => None,
            };
        }
        let mut groups: Vec<u16> = if d == 0 {
            Vec::new()
        } else {
            let before = copy_range(text, 0, d);
            let parts = split_colons(before.as_slice());
            assert(rows(parts@).take(parts.len() as int) == rows(parts@));
            match read_hextets(&parts, parts.len()) {
                Some(head) => head,
                None => { return None; },
            }
        };
        let tail: Vec<u16> = if d + 2 == text.len() {
            Vec::new()
        } else {
            let after = copy_range(text, d + 2, text.len());
            match read_groups(after.as_slice()) {
                Some(tail) => tail,
                None => { return None; },
            }
        };
        if groups.len() > 7 || tail.len() > 7 - groups.len() {
            return None;
        }
        let ghost head = groups@;
        let fill: usize = 8 - groups.len() - tail.len();
        let mut i: usize = 0;
        while i < fill
            invariant
                i <= fill,
                head.len() + fill + tail.len() == 8,
                groups@ == head + zeros(i as nat),
            decreases fill - i,
        {
            groups.push(0);
            i += 1;
        }
        let mut j: usize = 0;
        while j < tail.len()
            invariant
                j <= tail.len(),
                head.len() + fill + tail.len() == 8,
                groups@ == head + zeros(fill as nat) + tail@.take(j as int),
            decreases tail.len() - j,
        {
            groups.push(tail[j]);
            j += 1;
        }
        Some(groups)
    }

    /// Reads an address from its text.
    pub fn parse(text: &[char]) -> (r: Option<Ipv6Address>)
        ensures
            r == ipv6_of(text@),
    {
        match Self::read_segments(text) {
            None => None,
            Some(g) => Some(
                Ipv6Address {
                    s0: g[0],
                    s1: g[1],
                    s2: g[2],
                    s3: g[3],
                    s4: g[4],
                    s5: g[5],
                    s6: g[6],
                    s7: g[7],
                },
            ),
        }
    }

    /// The eight groups, first to last.
    pub fn segments(&self) -> (g: [u16; 8])
        ensures
            g@ == self.groups(),
    {
        [self.s0, self.s1, self.s2, self.s3, self.s4, self.s5, self.s6, self.s7]
    }

    /// The characters of the address in text.
    pub fn to_chars(&self) -> (out: Vec<char>)
        ensures
            out@ == self.text(),
    {
        let g = self.segments();
        if g[0] == 0 && g[1] == 0 && g[2] == 0 && g[3] == 0 && g[4] == 0 && g[5] == 0xffff {
            let quad = Ipv4Address {
                a: (g[6] / 256) as u8,
                b: (g[6] % 256) as u8,
                c: (g[7] / 256) as u8,
                d: (g[7] % 256) as u8,
            };
            let mut out: Vec<char> = Vec::new();
            out.push(':');
            out.push(':');
            out.push('f');
            out.push('f');
            out.push('f');
            out.push('f');
            out.push(':');
            let mut dotted = quad.to_chars();
            out.append(&mut dotted);
            assert(out@ =~= mapped_prefix() + quad.text());
            out
        } else {
            let (start, len) = longest_zero_run(&g);
            if len > 1 {
                let mut out = join_range(&g, 0, start);
                out.push(':');
                out.push(':');
                let mut tail = join_range(&g, start + len, 8);
                out.append(&mut tail);
                assert(out@ =~= self.text());
                out
            } else {
                assert(g@.subrange(0, 8) =~= g@);
                join_range(&g, 0, 8)
            }
        }
    }

    /// The address in text.
    pub fn to_string(&self) -> (s: String)
        ensures
            s@ == self.text(),
    {
        string_of(self.to_chars().as_slice())
    }
}

/// The number of zero groups that stand in a row from position `i` on.
fn zero_run_from(g: &[u16; 8], i: usize) -> (n: usize)
    requires
        i <= 8,
        g@.len() == 8,
    ensures
        n == zero_run(g@, i as int),
        i + n <= 8,
{
    let mut j: usize = i;
    while j < 8 && g[j] == 0
        invariant
            i <= j <= 8,
            g@.len() == 8,
            zero_run(g@, i as int) == (j - i) + zero_run(g@, j as int),
        decreases 8 - j,
    {
        j += 1;
    }
    j - i
}

/// Where the longest run of zero groups starts, the first of them where
/// several are as long, and how long it is.
fn longest_zero_run(g: &[u16; 8]) -> (r: (usize, usize))
    requires
        g@.len() == 8,
    ensures
        r.0 == longest_run_start(g@, 7),
        r.1 == zero_run(g@, r.0 as int),
        r.0 + r.1 <= 8,
{
    let mut best: usize = 0;
    let mut best_len: usize = zero_run_from(g, 0);
    let mut n: usize = 1;
    while n < 8
        invariant
            1 <= n <= 8,
            g@.len() == 8,
            best == longest_run_start(g@, (n - 1) as nat),
            best_len == zero_run(g@, best as int),
            best + best_len <= 8,
        decreases 8 - n,
    {
        let len = zero_run_from(g, n);
        if len > best_len {
            best = n;
            best_len = len;
        }
        n += 1;
    }
    (best, best_len)
}

/// The groups from `from` up to `to`, joined by colons.
fn join_range(g: &[u16; 8], from: usize, to: usize) -> (out: Vec<char>)
    requires
        from <= to <= 8,
        g@.len() == 8,
    ensures
        out@ == joined(g@.subrange(from as int, to as int)),
{
    let mut out: Vec<char> = Vec::new();
    let mut i: usize = to;
    assert(g@.subrange(to as int, to as int) =~= Seq::<u16>::empty());
    while i > from
        invariant
            from <= i <= to <= 8,
            g@.len() == 8,
            out@ == joined(g@.subrange(i as int, to as int)),
        decreases i,
    {
        i -= 1;
        let ghost rest = g@.subrange(i as int, to as int);
        assert(rest.drop_first() =~= g@.subrange(i + 1, to as int));
        let mut group = hex_chars(g[i]);
        if i + 1 < to {
            group.push(':');
            group.append(&mut out);
        }
        out = group;
        assert(out@ =~= joined(rest));
    }
    out
}

/// The hexadecimal text of a group.
fn hex_chars(v: u16) -> (out: Vec<char>)
    ensures
        out@ == hex_text(v),
{
    let mut out: Vec<char> = Vec::new();
    if v < 0x10 {
        out.push(hex_char(v));
    } else if v < 0x100 {
        out.push(hex_char(v / 16));
        out.push(hex_char(v % 16));
    } else if v < 0x1000 {
        out.push(hex_char(v / 256));
        out.push(hex_char((v / 16) % 16));
        out.push(hex_char(v % 16));
    } else {
        out.push(hex_char(v / 4096));
        out.push(hex_char((v / 256) % 16));
        out.push(hex_char((v / 16) % 16));
        out.push(hex_char(v % 16));
    }
    out
}

} // verus!
