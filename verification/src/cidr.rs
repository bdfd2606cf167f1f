//! IPv4 source-address allowlists written in CIDR notation.

use vstd::prelude::*;
use crate::text::{chars_of, all_digits, digits_value, is_digit, parse_uint_chars, spec_parse_uint};

verus! {

/// `s` cut at every occurrence of `c` (as `str::split`): always at least
/// one piece, empty pieces kept.
pub open spec fn split_char(s: Seq<char>, c: char) -> Seq<Seq<char>>
    decreases s.len(),
{
    if s.len() == 0 {
        seq![Seq::<char>::empty()]
    } else {
        let r = split_char(s.drop_last(), c);
        if s.last() == c {
            r.push(Seq::<char>::empty())
        } else {
            r.update(r.len() - 1, r.last().push(s.last()))
        }
    }
}

proof fn lemma_split_nonempty(s: Seq<char>, c: char)
    ensures
        split_char(s, c).len() >= 1,
    decreases s.len(),
{
    if s.len() > 0 {
        lemma_split_nonempty(s.drop_last(), c);
    }
}

pub open spec fn pieces_view(v: Seq<Vec<char>>) -> Seq<Seq<char>> {
    v.map_values(|p: Vec<char>| p@)
}

/// The pieces of `s` between occurrences of `c`.
pub fn split_on(s: &Vec<char>, c: char) -> (r: Vec<Vec<char>>)
    ensures
        pieces_view(r@) == split_char(s@, c),
{
    let mut parts: Vec<Vec<char>> = Vec::new();
    let mut cur: Vec<char> = Vec::new();
    let mut k: usize = 0;
    proof {
        assert(s@.subrange(0, 0) =~= Seq::<char>::empty());
        assert(pieces_view(parts@).push(cur@) =~= split_char(Seq::<char>::empty(), c));
    }
    while k < s.len()
        invariant
            k <= s@.len(),
            pieces_view(parts@).push(cur@) == split_char(s@.subrange(0, k as int), c),
        decreases s@.len() - k,
    {
        let ghost pre = s@.subrange(0, k as int);
        let ghost next = s@.subrange(0, k + 1);
        proof {
            assert(next.drop_last() =~= pre);
            assert(next.last() == s@[k as int]);
            lemma_split_nonempty(pre, c);
        }
        if s[k] == c {
            let done = cur;
            parts.push(done);
            cur = Vec::new();
            proof {
                assert(pieces_view(parts@).push(cur@) =~= split_char(pre, c).push(Seq::<char>::empty()));
            }
        } else {
            let ghost before = cur@;
            cur.push(s[k]);
            proof {
                let r = split_char(pre, c);
                assert(pieces_view(parts@).push(cur@) =~= r.update(r.len() - 1, r.last().push(s@[k as int])));
            }
        }
        k = k + 1;
    }
    parts.push(cur);
    proof {
        assert(s@.subrange(0, s@.len() as int) =~= s@);
        assert(pieces_view(parts@) =~= split_char(s@, c));
    }
    parts
}

/// One dotted-quad component as `Ipv4Addr`'s parser accepts it: one to
/// three ASCII digits, no leading zero (but `0` itself), at most 255.
pub open spec fn octet_ok(p: Seq<char>) -> bool {
    &&& 1 <= p.len() <= 3
    &&& all_digits(p)
    &&& (p.len() == 1 || p[0] != '0')
    &&& digits_value(p) <= 255
}

/// A dotted-quad IPv4 address as a big-endian `u32`.
pub open spec fn spec_parse_ipv4(s: Seq<char>) -> Option<u32> {
    let ps = split_char(s, '.');
    if ps.len() == 4 && octet_ok(ps[0]) && octet_ok(ps[1]) && octet_ok(ps[2]) && octet_ok(ps[3]) {
        Some((digits_value(ps[0]) * 0x100_0000 + digits_value(ps[1]) * 0x1_0000
            + digits_value(ps[2]) * 0x100 + digits_value(ps[3])) as u32)
    } else {
        None
    }
}

fn parse_octet(p: &Vec<char>) -> (r: Option<u32>)
    ensures
        r matches Some(v) ==> octet_ok(p@) && v == digits_value(p@),
        r is None ==> !octet_ok(p@),
{
    if p.len() == 0 || p.len() > 3 {
        return None;
    }
    if p.len() > 1 && p[0] == '0' {
        return None;
    }
    if p[0] == '+' {
        proof {
            assert(!is_digit(p@[0]));
        }
        return None;
    }
    proof {
        assert(p@.subrange(0, p@.len() as int) =~= p@);
    }
    match parse_uint_chars(p, 0, p.len(), 255) {
        Some(v) => Some(v as u32),
        None => None,
    }
}

/// `Ipv4Addr`'s dotted-quad parse of `s`, as a big-endian `u32`.
pub fn parse_ipv4(s: &Vec<char>) -> (r: Option<u32>)
    ensures
        r == spec_parse_ipv4(s@),
{
    let ps = split_on(s, '.');
    proof {
        assert(ps@.len() == split_char(s@, '.').len());
    }
    if ps.len() != 4 {
        return None;
    }
    proof {
        assert(ps@[0]@ == split_char(s@, '.')[0]);
        assert(ps@[1]@ == split_char(s@, '.')[1]);
        assert(ps@[2]@ == split_char(s@, '.')[2]);
        assert(ps@[3]@ == split_char(s@, '.')[3]);
    }
    let a = match parse_octet(&ps[0]) {
        Some(v) => v,
        None => return None,
    };
    let b = match parse_octet(&ps[1]) {
        Some(v) => v,
        None => return None,
    };
    let c = match parse_octet(&ps[2]) {
        Some(v) => v,
        None => return None,
    };
    let d = match parse_octet(&ps[3]) {
        Some(v) => v,
        None => return None,
    };
    Some(a * 0x100_0000 + b * 0x1_0000 + c * 0x100 + d)
}

/// An IPv4 network: an address and a prefix length (bits of the address
/// that a source must share).
#[derive(Clone, Copy, Debug, PartialEq, Eq, Structural)]
pub struct Ipv4Cidr {
    pub addr: u32,
    pub prefix: u8,
}

/// `a.b.c.d` (a single host, `/32`) or `a.b.c.d/n` with `n` parsed as an
/// unsigned decimal of at most 32.
pub open spec fn spec_parse_cidr(s: Seq<char>) -> Option<Ipv4Cidr> {
    let ps = split_char(s, '/');
    if ps.len() == 1 {
        match spec_parse_ipv4(ps[0]) {
            Some(a) => Some(Ipv4Cidr { addr: a, prefix: 32 }),
            None => None,
        }
    } else if ps.len() == 2 {
        match (spec_parse_ipv4(ps[0]), spec_parse_uint(ps[1], 32)) {
            (Some(a), Some(n)) => Some(Ipv4Cidr { addr: a, prefix: n as u8 }),
            _ => None,
        }
    } else {
        None
    }
}

/// The network mask of a prefix length (prefixes above 32 act as 32).
pub open spec fn prefix_mask(prefix: u8) -> u32 {
    if prefix == 0 {
        0
    } else if prefix >= 32 {
        0xffff_ffff
    } else {
        (0xffff_ffffu32 << ((32 - prefix) as u32)) as u32
    }
}

impl Ipv4Cidr {
    /// Parse CIDR notation; `None` for anything else.
    pub fn parse(s: &str) -> (r: Option<Ipv4Cidr>)
        ensures
            r == spec_parse_cidr(s@),
    {
        let cs = chars_of(s);
        let ps = split_on(&cs, '/');
        proof {
            assert(ps@.len() == split_char(s@, '/').len());
        }
        if ps.len() == 1 {
            proof {
                assert(ps@[0]@ == split_char(s@, '/')[0]);
            }
            match parse_ipv4(&ps[0]) {
                Some(a) => Some(Ipv4Cidr { addr: a, prefix: 32 }),
                None => None,
            }
        } else if ps.len() == 2 {
            proof {
                assert(ps@[0]@ == split_char(s@, '/')[0]);
                assert(ps@[1]@ == split_char(s@, '/')[1]);
                assert(ps@[1]@.subrange(0, ps@[1]@.len() as int) =~= ps@[1]@);
            }
            let a = parse_ipv4(&ps[0]);
            let n = parse_uint_chars(&ps[1], 0, ps[1].len(), 32);
            match (a, n) {
                (Some(a), Some(n)) => Some(Ipv4Cidr { addr: a, prefix: n as u8 }),
                _ => None,
            }
        } else {
            None
        }
    }

    /// Whether `ip` lies in this network.
    pub fn contains(&self, ip: u32) -> (r: bool)
        ensures
            r == ((ip & prefix_mask(self.prefix)) == (self.addr & prefix_mask(self.prefix))),
    {
        let mask: u32 = if self.prefix == 0 {
            0
        } else if self.prefix >= 32 {
            0xffff_ffff
        } else {
            0xffff_ffffu32 << ((32 - self.prefix) as u32)
        };
        (ip & mask) == (self.addr & mask)
    }
}

/// The entries of `raw` that parse, in order; the rest are dropped.
pub open spec fn parsed_allowlist(raw: Seq<Seq<char>>) -> Seq<Ipv4Cidr>
    decreases raw.len(),
{
    if raw.len() == 0 {
        Seq::empty()
    } else {
        let r = parsed_allowlist(raw.drop_last());
        match spec_parse_cidr(raw.last()) {
            Some(c) => r.push(c),
            None => r,
        }
    }
}

pub open spec fn strings_view(raw: Seq<String>) -> Seq<Seq<char>> {
    raw.map_values(|s: String| s@)
}

/// An allowlist admits `ip` when it is empty (no restriction) or one of its
/// networks contains `ip`.
pub open spec fn spec_admits(list: Seq<Ipv4Cidr>, ip: u32) -> bool {
    list.len() == 0 || exists|i: int| 0 <= i < list.len()
        && (ip & prefix_mask(#[trigger] list[i].prefix)) == (list[i].addr & prefix_mask(list[i].prefix))
}

/// Whether a source address `ip` may connect under `list`.
pub fn admits(list: &[Ipv4Cidr], ip: u32) -> (r: bool)
    ensures
        r == spec_admits(list@, ip),
{
    if list.len() == 0 {
        return true;
    }
    let mut i: usize = 0;
    while i < list.len()
        invariant
            i <= list@.len(),
            forall|j: int| 0 <= j < i ==> !((ip & prefix_mask(#[trigger] list@[j].prefix)) == (list@[j].addr & prefix_mask(list@[j].prefix))),
        decreases list@.len() - i,
    {
        if list[i].contains(ip) {
            return true;
        }
        i = i + 1;
    }
    false
}

} // verus!
