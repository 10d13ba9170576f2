//! IP addresses as plain values, and the address classes the server reasons about.

use vstd::prelude::*;

use crate::text::{decimal, decimal_text, hex, hex_text};

verus! {

/// An IPv4 address (four octets) or an IPv6 address (eight 16-bit segments).
#[derive(Clone, Copy, Debug, PartialEq, Eq, Structural, Hash)]
pub enum IpAddress {
    V4(u8, u8, u8, u8),
    V6(u16, u16, u16, u16, u16, u16, u16, u16),
}

/// IPv4 classes as the standard library documents them.
pub open spec fn v4_is_loopback(a: u8) -> bool {
    a == 127
}

/// RFC 1918: 10/8, 172.16/12, 192.168/16.
pub open spec fn v4_is_private(a: u8, b: u8) -> bool {
    a == 10 || (a == 172 && 16 <= b <= 31) || (a == 192 && b == 168)
}

/// 169.254/16.
pub open spec fn v4_is_link_local(a: u8, b: u8) -> bool {
    a == 169 && b == 254
}

/// 192.0.2/24, 198.51.100/24, 203.0.113/24.
pub open spec fn v4_is_documentation(a: u8, b: u8, c: u8) -> bool {
    (a == 192 && b == 0 && c == 2) || (a == 198 && b == 51 && c == 100) || (a == 203 && b == 0
        && c == 113)
}

/// Shared address space 100.64.0.0/10.
pub open spec fn v4_is_shared(a: u8, b: u8) -> bool {
    a == 100 && 64 <= b <= 127
}

/// The SSRF rule for an IPv4 address.
pub open spec fn v4_is_internal(a: u8, b: u8, c: u8, d: u8) -> bool {
    ||| v4_is_loopback(a)
    ||| v4_is_private(a, b)
    ||| v4_is_link_local(a, b)
    ||| (a == 0 && b == 0 && c == 0 && d == 0)
    ||| (a == 255 && b == 255 && c == 255 && d == 255)
    ||| v4_is_documentation(a, b, c)
    ||| v4_is_shared(a, b)
}

/// The SSRF rule for an IPv6 address that is not IPv4-mapped.
pub open spec fn v6_is_internal(s0: u16, s1: u16, s2: u16, s3: u16, s4: u16, s5: u16, s6: u16, s7: u16) -> bool {
    let zero_prefix = s0 == 0 && s1 == 0 && s2 == 0 && s3 == 0 && s4 == 0 && s5 == 0 && s6 == 0;
    ||| (zero_prefix && s7 == 1)
    ||| (zero_prefix && s7 == 0)
    ||| (0xfc00 <= s0 <= 0xfdff)
    ||| (0xfe80 <= s0 <= 0xfebf)
}

impl IpAddress {
    /// IPv4-mapped IPv6 (`::ffff:a.b.c.d`) folded to IPv4; every other address unchanged.
    pub open spec fn canonical(self) -> IpAddress {
        match self {
            IpAddress::V6(0, 0, 0, 0, 0, 0xffff, hi, lo) => IpAddress::V4(
                (hi / 256) as u8,
                (hi % 256) as u8,
                (lo / 256) as u8,
                (lo % 256) as u8,
            ),
            other => other,
        }
    }

    /// Whether an address is private, loopback or otherwise internal.
    pub open spec fn internal(self) -> bool {
        match self.canonical() {
            IpAddress::V4(a, b, c, d) => v4_is_internal(a, b, c, d),
            IpAddress::V6(s0, s1, s2, s3, s4, s5, s6, s7) => v6_is_internal(s0, s1, s2, s3, s4, s5, s6, s7),
        }
    }

    /// Loopback: 127.0.0.0/8 or `::1`.
    pub open spec fn loopback(self) -> bool {
        match self {
            IpAddress::V4(a, _, _, _) => a == 127,
            IpAddress::V6(s0, s1, s2, s3, s4, s5, s6, s7) => s0 == 0 && s1 == 0 && s2 == 0 && s3
                == 0 && s4 == 0 && s5 == 0 && s6 == 0 && s7 == 1,
        }
    }

    /// Exactly 127.0.0.1 or `::1`.
    pub open spec fn localhost(self) -> bool {
        self == IpAddress::V4(127, 0, 0, 1) || self == IpAddress::V6(0, 0, 0, 0, 0, 0, 0, 1)
    }

    /// The address with IPv4-mapped IPv6 folded to IPv4.
    pub fn to_canonical(&self) -> (r: IpAddress)
        ensures
            r == self.canonical(),
    {
        match *self {
            IpAddress::V6(0, 0, 0, 0, 0, 0xffff, hi, lo) => IpAddress::V4(
                (hi / 256) as u8,
                (hi % 256) as u8,
                (lo / 256) as u8,
                (lo % 256) as u8,
            ),
            other => other,
        }
    }

    /// Whether this address is loopback (127.0.0.0/8 or `::1`).
    pub fn is_loopback(&self) -> (r: bool)
        ensures
            r == self.loopback(),
    {
        match *self {
            IpAddress::V4(a, _, _, _) => a == 127,
            IpAddress::V6(s0, s1, s2, s3, s4, s5, s6, s7) => s0 == 0 && s1 == 0 && s2 == 0 && s3
                == 0 && s4 == 0 && s5 == 0 && s6 == 0 && s7 == 1,
        }
    }

    /// Whether this address is exactly 127.0.0.1 or `::1`.
    pub fn is_localhost(&self) -> (r: bool)
        ensures
            r == self.localhost(),
    {
        match *self {
            IpAddress::V4(a, b, c, d) => a == 127 && b == 0 && c == 0 && d == 1,
            IpAddress::V6(s0, s1, s2, s3, s4, s5, s6, s7) => s0 == 0 && s1 == 0 && s2 == 0 && s3
                == 0 && s4 == 0 && s5 == 0 && s6 == 0 && s7 == 1,
        }
    }
}

/// Whether an address is private, loopback or internal — the addresses a
/// server-originated request must never reach in a cloud deployment.
pub fn is_private_ip(addr: &IpAddress) -> (r: bool)
    ensures
        r == addr.internal(),
{
    match addr.to_canonical() {
        IpAddress::V4(a, b, c, d) => {
            a == 127 || a == 10 || (a == 172 && 16 <= b && b <= 31) || (a == 192 && b == 168) || (a
                == 169 && b == 254) || (a == 0 && b == 0 && c == 0 && d == 0) || (a == 255 && b
                == 255 && c == 255 && d == 255) || (a == 192 && b == 0 && c == 2) || (a == 198
                && b == 51 && c == 100) || (a == 203 && b == 0 && c == 113) || (a == 100 && 64 <= b && b <= 127)
        },
        IpAddress::V6(s0, s1, s2, s3, s4, s5, s6, s7) => {
            let zero_prefix = s0 == 0 && s1 == 0 && s2 == 0 && s3 == 0 && s4 == 0 && s5 == 0 && s6
                == 0;
            (zero_prefix && s7 == 1) || (zero_prefix && s7 == 0) || (0xfc00 <= s0 && s0 <= 0xfdff) || (0xfe80 <= s0
                && s0 <= 0xfebf)
        },
    }
}

// ---------------------------------------------------------------------------
// Text form, as the standard library's `Display` writes addresses
// ---------------------------------------------------------------------------

/// Dotted-decimal IPv4 text.
pub open spec fn v4_text(a: u8, b: u8, c: u8, d: u8) -> Seq<char> {
    decimal(a as nat) + seq!['.'] + decimal(b as nat) + seq!['.'] + decimal(c as nat) + seq!['.']
        + decimal(d as nat)
}

/// 16-bit groups in lowercase hexadecimal, separated by colons.
pub open spec fn hex_groups(s: Seq<u16>) -> Seq<char>
    decreases s.len(),
{
    if s.len() == 0 {
        Seq::empty()
    } else if s.len() == 1 {
        hex(s[0] as nat)
    } else {
        hex_groups(s.drop_last()) + seq![':'] + hex(s.last() as nat)
    }
}

/// Scanning `s` left to right: the first longest run of zero groups
/// `(start, len)`, followed by the run in progress at the end `(start, len)`.
pub open spec fn zero_scan(s: Seq<u16>) -> (int, int, int, int)
    decreases s.len(),
{
    if s.len() == 0 {
        (0, 0, 0, 0)
    } else {
        let (ls, ll, cs, cl) = zero_scan(s.drop_last());
        if s.last() == 0 {
            let start = if cl == 0 {
                s.len() - 1
            } else {
                cs
            };
            if cl + 1 > ll {
                (start, cl + 1, start, cl + 1)
            } else {
                (ls, ll, start, cl + 1)
            }
        } else {
            (ls, ll, 0, 0)
        }
    }
}

/// IPv6 text for groups that are not IPv4-mapped: the first longest run of two
/// or more zero groups is written as `::`.
pub open spec fn v6_groups_text(s: Seq<u16>) -> Seq<char> {
    let (start, len, _, _) = zero_scan(s);
    if len > 1 {
        hex_groups(s.take(start)) + seq![':', ':'] + hex_groups(s.skip(start + len))
    } else {
        hex_groups(s)
    }
}

impl IpAddress {
    /// The address as text: dotted decimal for IPv4; for IPv6 `::ffff:a.b.c.d`
    /// when IPv4-mapped, otherwise compressed lowercase hexadecimal groups.
    pub open spec fn text(self) -> Seq<char> {
        match self {
            IpAddress::V4(a, b, c, d) => v4_text(a, b, c, d),
            IpAddress::V6(s0, s1, s2, s3, s4, s5, s6, s7) => if s0 == 0 && s1 == 0 && s2 == 0 && s3
                == 0 && s4 == 0 && s5 == 0xffff {
                seq![':', ':', 'f', 'f', 'f', 'f', ':'] + v4_text(
                    (s6 / 256) as u8,
                    (s6 % 256) as u8,
                    (s7 / 256) as u8,
                    (s7 % 256) as u8,
                )
            } else {
                v6_groups_text(seq![s0, s1, s2, s3, s4, s5, s6, s7])
            },
        }
    }
}

fn v4_string(a: u8, b: u8, c: u8, d: u8) -> (r: String)
    ensures
        r@ == v4_text(a, b, c, d),
{
    proof {
        reveal_strlit(".");
    }
    let mut s = decimal_text(a as u64);
    s.append(".");
    s.append(decimal_text(b as u64).as_str());
    s.append(".");
    s.append(decimal_text(c as u64).as_str());
    s.append(".");
    s.append(decimal_text(d as u64).as_str());
    s
}

fn hex_groups_string(s: &Vec<u16>, from: usize, to: usize) -> (r: String)
    requires
        from <= to <= s@.len(),
    ensures
        r@ == hex_groups(s@.subrange(from as int, to as int)),
{
    proof {
        reveal_strlit(":");
        assert(":"@ =~= seq![':']);
    }
    let mut out = String::new();
    let mut i: usize = from;
    while i < to
        invariant
            from <= i <= to,
            to <= s@.len(),
            out@ == hex_groups(s@.subrange(from as int, i as int)),
            ":"@ == seq![':'],
        decreases to - i,
    {
        let ghost before = out@;
        if i > from {
            out.append(":");
        }
        let h = hex_text(s[i] as u64);
        out.append(h.as_str());
        proof {
            let sub = s@.subrange(from as int, i + 1);
            assert(sub.drop_last() =~= s@.subrange(from as int, i as int));
            assert(sub.last() == s@[i as int]);
            if i == from {
                assert(sub.len() == 1);
                assert(out@ =~= hex(s@[i as int] as nat));
            } else {
                assert(out@ =~= before + seq![':'] + hex(s@[i as int] as nat));
            }
        }
        i = i + 1;
    }
    out
}

/// The first longest run of zero groups in `s`, as `(start, len)`.
fn longest_zero_run(s: &Vec<u16>) -> (r: (usize, usize))
    ensures
        r.0 == zero_scan(s@).0,
        r.1 == zero_scan(s@).1,
        r.0 + r.1 <= s@.len(),
{
    let mut ls: usize = 0;
    let mut ll: usize = 0;
    let mut cs: usize = 0;
    let mut cl: usize = 0;
    let mut i: usize = 0;
    while i < s.len()
        invariant
            i <= s@.len(),
            zero_scan(s@.take(i as int)) == (ls as int, ll as int, cs as int, cl as int),
            ls + ll <= i,
            cs + cl <= i,
            cl > 0 ==> cs + cl == i,
        decreases s@.len() - i,
    {
        proof {
            assert(s@.take(i + 1).drop_last() =~= s@.take(i as int));
            assert(s@.take(i + 1).last() == s@[i as int]);
        }
        if s[i] == 0 {
            if cl == 0 {
                cs = i;
            }
            cl = cl + 1;
            if cl > ll {
                ls = cs;
                ll = cl;
            }
        } else {
            cs = 0;
            cl = 0;
        }
        i = i + 1;
    }
    proof {
        assert(s@.take(i as int) =~= s@);
    }
    (ls, ll)
}

impl IpAddress {
    /// The address as text, as the standard library's `Display` writes it.
    pub fn to_text(&self) -> (r: String)
        ensures
            r@ == self.text(),
    {
        match *self {
            IpAddress::V4(a, b, c, d) => v4_string(a, b, c, d),
            IpAddress::V6(s0, s1, s2, s3, s4, s5, s6, s7) => {
                if s0 == 0 && s1 == 0 && s2 == 0 && s3 == 0 && s4 == 0 && s5 == 0xffff {
                    proof {
                        reveal_strlit("::ffff:");
                    }
                    let mut t = String::from_str("::ffff:");
                    let v4 = v4_string((s6 / 256) as u8, (s6 % 256) as u8, (s7 / 256) as u8, (s7 % 256) as u8);
                    t.append(v4.as_str());
                    t
                } else {
                    let segs: Vec<u16> = vec![s0, s1, s2, s3, s4, s5, s6, s7];
                    let ghost g = seq![s0, s1, s2, s3, s4, s5, s6, s7];
                    proof {
                        assert(segs@ =~= g);
                    }
                    let (start, len) = longest_zero_run(&segs);
                    if len > 1 {
                        proof {
                            reveal_strlit("::");
                            assert(segs@.subrange(0, start as int) =~= g.take(start as int));
                            assert(segs@.subrange(start + len, 8) =~= g.skip(start + len));
                        }
                        let mut t = hex_groups_string(&segs, 0, start);
                        t.append("::");
                        t.append(hex_groups_string(&segs, start + len, 8).as_str());
                        t
                    } else {
                        proof {
                            assert(segs@.subrange(0, 8) =~= g);
                        }
                        hex_groups_string(&segs, 0, 8)
                    }
                }
            },
        }
    }
}

} // verus!
