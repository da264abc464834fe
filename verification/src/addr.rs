use crate::text::{append_decimal, append_hex, decimal, hex, hex2};
use vstd::prelude::*;
use vstd::string::*;

verus! {

/// A link-layer address: six octets in the order of the wire.
#[derive(Clone, Copy, Debug, PartialEq, Eq)]
pub struct MacAddr {
    pub octets: [u8; 6],
}

/// An IPv4 address: four octets in the order of the wire.
#[derive(Clone, Copy, Debug, PartialEq, Eq)]
pub struct Ipv4Address {
    pub octets: [u8; 4],
}

/// An IPv6 address: eight 16-bit groups in the order of the wire.
#[derive(Clone, Copy, Debug, PartialEq, Eq)]
pub struct Ipv6Address {
    pub segments: [u16; 8],
}

/// An address of either family.
#[derive(Clone, Copy, Debug, PartialEq, Eq)]
pub enum IpAddress {
    V4(Ipv4Address),
    V6(Ipv6Address),
}

/// Dotted decimal: the four octets in base 10 with `.` between them.
pub open spec fn ipv4_text(o: Seq<u8>) -> Seq<char> {
    decimal(o[0] as nat) + seq!['.'] + decimal(o[1] as nat) + seq!['.'] + decimal(o[2] as nat)
        + seq!['.'] + decimal(o[3] as nat)
}

/// The groups of `s` in base 16 with `:` between them.
pub open spec fn hex_join(s: Seq<u16>) -> Seq<char>
    decreases s.len(),
{
    if s.len() == 0 {
        Seq::empty()
    } else if s.len() == 1 {
        hex(s[0] as nat)
    } else {
        hex_join(s.drop_last()) + seq![':'] + hex(s.last() as nat)
    }
}

/// How many groups in a row are zero, counted from `start`.
pub open spec fn zero_run_len(seg: Seq<u16>, start: int) -> nat
    decreases seg.len() - start,
{
    if 0 <= start < seg.len() && seg[start] == 0 {
        1 + zero_run_len(seg, start + 1)
    } else {
        0
    }
}

/// Among the runs of zero groups that start below `upto`, the longest, as
/// its start and its length; of several longest ones the first.
pub open spec fn best_zero_run(seg: Seq<u16>, upto: nat) -> (int, nat)
    decreases upto,
{
    if upto == 0 {
        (0, 0)
    } else {
        let prev = best_zero_run(seg, (upto - 1) as nat);
        let here = zero_run_len(seg, upto - 1);
        if here > prev.1 {
            (upto - 1, here)
        } else {
            prev
        }
    }
}

/// Whether the address carries an IPv4 address behind the prefix
/// `0:0:0:0:0:ffff`.
pub open spec fn is_ipv4_mapped(seg: Seq<u16>) -> bool {
    seg[0] == 0 && seg[1] == 0 && seg[2] == 0 && seg[3] == 0 && seg[4] == 0 && seg[5] == 0xffff
}

/// The four octets held in the last two groups.
pub open spec fn mapped_octets(seg: Seq<u16>) -> Seq<u8> {
    seq![(seg[6] / 256) as u8, (seg[6] % 256) as u8, (seg[7] / 256) as u8, (seg[7] % 256) as u8]
}

/// The canonical text of an IPv6 address of eight groups: groups in base 16
/// without leading zeros; the longest run of two or more zero groups, the
/// first of several, written as `::`; an IPv4-mapped address with its last
/// 32 bits in dotted decimal.
pub open spec fn ipv6_text(seg: Seq<u16>) -> Seq<char> {
    if is_ipv4_mapped(seg) {
        seq![':', ':', 'f', 'f', 'f', 'f', ':'] + ipv4_text(mapped_octets(seg))
    } else {
        let run = best_zero_run(seg, 8);
        if run.1 > 1 {
            hex_join(seg.subrange(0, run.0)) + seq![':', ':'] + hex_join(
                seg.subrange(run.0 + run.1, 8),
            )
        } else {
            hex_join(seg)
        }
    }
}

/// The text of an address of either family.
pub open spec fn ip_text(a: IpAddress) -> Seq<char> {
    match a {
        IpAddress::V4(v4) => ipv4_text(v4.octets@),
        IpAddress::V6(v6) => ipv6_text(v6.segments@),
    }
}

/// The six octets as two digits of base 16 each, with `:` between them.
#[verifier::opaque]
pub open spec fn mac_text(o: Seq<u8>) -> Seq<char> {
    hex2(o[0]) + seq![':'] + hex2(o[1]) + seq![':'] + hex2(o[2]) + seq![':'] + hex2(o[3]) + seq![
        ':',
    ] + hex2(o[4]) + seq![':'] + hex2(o[5])
}

/// Appends four octets in dotted decimal.
fn append_octets(s: &mut String, o: &[u8; 4])
    ensures
        final(s)@ == old(s)@ + ipv4_text(o@),
{
    proof {
        reveal_strlit(".");
    }
    append_decimal(s, o[0] as u64);
    s.append(".");
    append_decimal(s, o[1] as u64);
    s.append(".");
    append_decimal(s, o[2] as u64);
    s.append(".");
    append_decimal(s, o[3] as u64);
    assert(s@ =~= old(s)@ + ipv4_text(o@));
}

impl Ipv4Address {
    /// Appends the address in dotted decimal.
    pub fn append_to(&self, s: &mut String)
        ensures
            final(s)@ == old(s)@ + ipv4_text(self.octets@),
    {
        append_octets(s, &self.octets);
    }

    /// The address in dotted decimal.
    pub fn to_text(&self) -> (r: String)
        ensures
            r@ == ipv4_text(self.octets@),
    {
        let mut s = String::new();
        self.append_to(&mut s);
        assert(s@ =~= ipv4_text(self.octets@));
        s
    }
}

/// The length of the run of zero groups that starts at `start`.
fn zero_run(seg: &[u16; 8], start: usize) -> (n: usize)
    requires
        start <= 8,
    ensures
        n == zero_run_len(seg@, start as int),
        start + n <= 8,
{
    let mut j: usize = start;
    while j < 8 && seg[j] == 0
        invariant
            start <= j <= 8,
            zero_run_len(seg@, start as int) == (j - start) + zero_run_len(seg@, j as int),
        decreases 8 - j,
    {
        j = j + 1;
    }
    j - start
}

/// The longest run of zero groups, as its start and its length.
fn longest_zero_run(seg: &[u16; 8]) -> (r: (usize, usize))
    ensures
        (r.0 as int, r.1 as nat) == best_zero_run(seg@, 8),
        r.0 + r.1 <= 8,
{
    let mut best: (usize, usize) = (0, 0);
    let mut i: usize = 0;
    while i < 8
        invariant
            i <= 8,
            (best.0 as int, best.1 as nat) == best_zero_run(seg@, i as nat),
            best.0 + best.1 <= 8,
        decreases 8 - i,
    {
        let here = zero_run(seg, i);
        if here > best.1 {
            best = (i, here);
        }
        i = i + 1;
    }
    best
}

/// Appends the groups from `from` up to `to` in base 16 with `:` between
/// them.
fn append_hex_join(s: &mut String, seg: &[u16; 8], from: usize, to: usize)
    requires
        from <= to <= 8,
    ensures
        final(s)@ == old(s)@ + hex_join(seg@.subrange(from as int, to as int)),
{
    proof {
        reveal_strlit(":");
    }
    let mut i: usize = from;
    assert(s@ =~= old(s)@ + hex_join(seg@.subrange(from as int, i as int)));
    while i < to
        invariant
            from <= i <= to <= 8,
            ":"@ == seq![':'],
            s@ == old(s)@ + hex_join(seg@.subrange(from as int, i as int)),
        decreases to - i,
    {
        if i > from {
            s.append(":");
        }
        append_hex(s, seg[i] as u64);
        proof {
            let next = seg@.subrange(from as int, i + 1);
            assert(next.drop_last() =~= seg@.subrange(from as int, i as int));
            assert(next.last() == seg@[i as int]);
            assert(s@ =~= old(s)@ + hex_join(next));
        }
        i = i + 1;
    }
}

impl Ipv6Address {
    /// Appends the canonical text of the address.
    pub fn append_to(&self, s: &mut String)
        ensures
            final(s)@ == old(s)@ + ipv6_text(self.segments@),
    {
        let seg = &self.segments;
        if seg[0] == 0 && seg[1] == 0 && seg[2] == 0 && seg[3] == 0 && seg[4] == 0 && seg[5]
            == 0xffff {
            proof {
                reveal_strlit("::ffff:");
            }
            let o: [u8; 4] = [
                (seg[6] / 256) as u8,
                (seg[6] % 256) as u8,
                (seg[7] / 256) as u8,
                (seg[7] % 256) as u8,
            ];
            assert(o@ =~= mapped_octets(seg@));
            s.append("::ffff:");
            assert(s@ =~= old(s)@ + seq![':', ':', 'f', 'f', 'f', 'f', ':']);
            append_octets(s, &o);
            assert(s@ =~= old(s)@ + ipv6_text(seg@));
        } else {
            let run = longest_zero_run(seg);
            if run.1 > 1 {
                proof {
                    reveal_strlit("::");
                }
                append_hex_join(s, seg, 0, run.0);
                s.append("::");
                append_hex_join(s, seg, run.0 + run.1, 8);
                assert(s@ =~= old(s)@ + ipv6_text(seg@));
            } else {
                append_hex_join(s, seg, 0, 8);
                assert(seg@.subrange(0, 8) =~= seg@);
            }
        }
    }

    /// The canonical text of the address.
    pub fn to_text(&self) -> (r: String)
        ensures
            r@ == ipv6_text(self.segments@),
    {
        let mut s = String::new();
        self.append_to(&mut s);
        assert(s@ =~= ipv6_text(self.segments@));
        s
    }
}

impl IpAddress {
    /// Appends the text of the address.
    pub fn append_to(&self, s: &mut String)
        ensures
            final(s)@ == old(s)@ + ip_text(*self),
    {
        match self {
            IpAddress::V4(a) => a.append_to(s),
            IpAddress::V6(a) => a.append_to(s),
        }
    }

    /// The text of the address.
    pub fn to_text(&self) -> (r: String)
        ensures
            r@ == ip_text(*self),
    {
        match self {
            IpAddress::V4(a) => a.to_text(),
            IpAddress::V6(a) => a.to_text(),
        }
    }
}

} // verus!
