//! Socket addresses as the admission layer sees them, and their textual
//! form: the fallback routing key when a ClientHello carries no SNI.
//!
//! An IPv4 address prints as four decimal octets. An IPv6 address prints in
//! lowercase hexadecimal groups with the leftmost longest run of two or more
//! zero groups compressed to `::`; an IPv4-mapped or IPv4-compatible IPv6
//! address is normalized to plain IPv4 text first.

use vstd::prelude::*;

use crate::text::{
    dec_byte_text, dec_u16_text, hex_group_text, push_dec_byte, push_dec_u16, push_hex_group,
};

verus! {

/// An IP address, IPv4 as four octets or IPv6 as eight 16-bit groups.
#[derive(Clone, Copy, Debug, PartialEq, Eq)]
pub enum IpAddress {
    V4 { a: u8, b: u8, c: u8, d: u8 },
    V6 { groups: [u16; 8] },
}

/// A socket address: an IP address and a port.
#[derive(Clone, Copy, Debug, PartialEq, Eq)]
pub struct SockAddr {
    pub ip: IpAddress,
    pub port: u16,
}

/// The text of an IPv4 address: four decimal octets joined by dots.
pub open spec fn ipv4_text(a: int, b: int, c: int, d: int) -> Seq<char> {
    dec_byte_text(a) + seq!['.'] + dec_byte_text(b) + seq!['.'] + dec_byte_text(c) + seq!['.']
        + dec_byte_text(d)
}

/// The length of the run of zero groups starting at `i`.
pub open spec fn run_len(g: Seq<u16>, i: int) -> int
    decreases g.len() - i,
{
    if i < 0 || i >= g.len() || g[i] != 0 {
        0
    } else {
        1 + run_len(g, i + 1)
    }
}

/// The leftmost longest run of at least two zero groups among those starting
/// before `i`, as `(start, length)`; `(-1, 0)` if there is none. A later run
/// replaces an earlier one only when strictly longer, so ties go to the
/// leftmost run.
pub open spec fn best_run_upto(g: Seq<u16>, i: int) -> (int, int)
    decreases i,
{
    if i <= 0 {
        (-1, 0)
    } else {
        let prev = best_run_upto(g, i - 1);
        let l = run_len(g, i - 1);
        if l >= 2 && l > prev.1 {
            (i - 1, l)
        } else {
            prev
        }
    }
}

/// The leftmost longest run of at least two zero groups in `g`, as
/// `(start, length)`; `(-1, 0)` if there is none.
pub open spec fn best_zero_run(g: Seq<u16>) -> (int, int) {
    best_run_upto(g, g.len() as int)
}

/// The groups `g[from..to]` in lowercase hexadecimal, joined by colons.
pub open spec fn groups_text(g: Seq<u16>, from: int, to: int) -> Seq<char>
    decreases to - from,
{
    if from >= to {
        Seq::empty()
    } else if from == to - 1 {
        hex_group_text(g[from] as int)
    } else {
        hex_group_text(g[from] as int) + seq![':'] + groups_text(g, from + 1, to)
    }
}

/// The text of an IPv6 address: hexadecimal groups joined by colons, with
/// the leftmost longest run of at least two zero groups compressed to `::`.
pub open spec fn ipv6_text(g: Seq<u16>) -> Seq<char> {
    let best = best_zero_run(g);
    if best.0 < 0 {
        groups_text(g, 0, 8)
    } else {
        groups_text(g, 0, best.0) + seq![':'] + seq![':'] + groups_text(g, best.0 + best.1, 8)
    }
}

/// Whether an IPv6 address is IPv4-mapped (`::ffff:a.b.c.d`) or
/// IPv4-compatible (`::a.b.c.d`), and therefore normalized to IPv4 text.
pub open spec fn is_v4_form(g: Seq<u16>) -> bool {
    g[0] == 0 && g[1] == 0 && g[2] == 0 && g[3] == 0 && g[4] == 0 && (g[5] == 0 || g[5] == 0xffff)
}

/// The textual form of an IP address used as a routing key: IPv4 as dotted
/// decimal; an IPv4-mapped or IPv4-compatible IPv6 address as the dotted
/// decimal of its last four bytes; any other IPv6 address per `ipv6_text`.
pub open spec fn spec_ip_text(ip: IpAddress) -> Seq<char> {
    match ip {
        IpAddress::V4 { a, b, c, d } => ipv4_text(a as int, b as int, c as int, d as int),
        IpAddress::V6 { groups } => {
            if is_v4_form(groups@) {
                ipv4_text(
                    groups@[6] as int / 256,
                    groups@[6] as int % 256,
                    groups@[7] as int / 256,
                    groups@[7] as int % 256,
                )
            } else {
                ipv6_text(groups@)
            }
        },
    }
}

/// Append the dotted-decimal text of four octets.
fn push_ipv4_text(out: &mut String, a: u8, b: u8, c: u8, d: u8)
    ensures
        final(out)@ == old(out)@ + ipv4_text(a as int, b as int, c as int, d as int),
{
    proof {
        reveal_strlit(".");
    }
    push_dec_byte(out, a);
    out.append(".");
    push_dec_byte(out, b);
    out.append(".");
    push_dec_byte(out, c);
    out.append(".");
    push_dec_byte(out, d);
    proof {
        assert(out@ =~= old(out)@ + ipv4_text(a as int, b as int, c as int, d as int));
    }
}

/// The length of the run of zero groups starting at `i`.
fn run_length_at(g: &[u16; 8], i: usize) -> (l: usize)
    requires
        i <= 8,
    ensures
        l as int == run_len(g@, i as int),
        i + l <= 8,
{
    let mut j: usize = i;
    while j < 8 && g[j] == 0
        invariant
            i <= j <= 8,
            g@.len() == 8,
            run_len(g@, i as int) == j - i + run_len(g@, j as int),
        decreases 8 - j,
    {
        j = j + 1;
    }
    assert(run_len(g@, j as int) == 0);
    j - i
}

/// The leftmost longest run of at least two zero groups, as
/// `(start, length)`; a length of zero means there is none.
fn find_best_run(g: &[u16; 8]) -> (r: (usize, usize))
    ensures
        r.1 as int == best_zero_run(g@).1,
        r.1 > 0 ==> r.0 as int == best_zero_run(g@).0,
        r.1 == 0 ==> best_zero_run(g@).0 == -1,
        r.0 + r.1 <= 8,
{
    let mut bs: usize = 0;
    let mut bl: usize = 0;
    let mut i: usize = 0;
    while i < 8
        invariant
            i <= 8,
            g@.len() == 8,
            bl as int == best_run_upto(g@, i as int).1,
            bl > 0 ==> bs as int == best_run_upto(g@, i as int).0,
            bl == 0 ==> best_run_upto(g@, i as int) == (-1int, 0int),
            bs + bl <= 8,
        decreases 8 - i,
    {
        let l: usize = run_length_at(g, i);
        if l >= 2 && l > bl {
            bs = i;
            bl = l;
        }
        i = i + 1;
    }
    (bs, bl)
}

/// Append the groups `g[from..to]` in lowercase hexadecimal, joined by
/// colons.
fn push_groups(out: &mut String, g: &[u16; 8], from: usize, to: usize)
    requires
        from <= to <= 8,
    ensures
        final(out)@ == old(out)@ + groups_text(g@, from as int, to as int),
    decreases to - from,
{
    if from < to {
        push_hex_group(out, g[from]);
        if from + 1 < to {
            proof {
                reveal_strlit(":");
            }
            out.append(":");
            push_groups(out, g, from + 1, to);
        }
    }
    proof {
        assert(out@ =~= old(out)@ + groups_text(g@, from as int, to as int));
    }
}

/// The textual form of an IP address, per `spec_ip_text`.
pub fn ip_text(ip: &IpAddress) -> (s: String)
    ensures
        s@ == spec_ip_text(*ip),
{
    let mut out = String::new();
    match ip {
        IpAddress::V4 { a, b, c, d } => {
            push_ipv4_text(&mut out, *a, *b, *c, *d);
        },
        IpAddress::V6 { groups } => {
            if groups[0] == 0 && groups[1] == 0 && groups[2] == 0 && groups[3] == 0 && groups[4]
                == 0 && (groups[5] == 0 || groups[5] == 0xffff) {
                push_ipv4_text(
                    &mut out,
                    (groups[6] / 256) as u8,
                    (groups[6] % 256) as u8,
                    (groups[7] / 256) as u8,
                    (groups[7] % 256) as u8,
                );
            } else {
                let best = find_best_run(groups);
                if best.1 == 0 {
                    push_groups(&mut out, groups, 0, 8);
                } else {
                    proof {
                        reveal_strlit("::");
                    }
                    push_groups(&mut out, groups, 0, best.0);
                    out.append("::");
                    push_groups(&mut out, groups, best.0 + best.1, 8);
                    proof {
                        assert(out@ =~= spec_ip_text(*ip));
                    }
                }
            }
        },
    }
    out
}

/// The textual form of a socket address's IP, used as the fallback routing
/// key when a ClientHello carries no SNI hostname. The port is not part of
/// the key.
pub fn extract_ip_string(addr: &SockAddr) -> (s: String)
    ensures
        s@ == spec_ip_text(addr.ip),
{
    ip_text(&addr.ip)
}

/// The canonical text of a whole socket address: `ip:port`, with an IPv6
/// host in brackets. Used when an error message names a peer.
pub open spec fn spec_sock_addr_text(a: SockAddr) -> Seq<char> {
    match a.ip {
        IpAddress::V4 { .. } => spec_ip_text(a.ip) + seq![':'] + dec_u16_text(a.port as int),
        IpAddress::V6 { .. } => seq!['['] + spec_ip_text(a.ip) + seq![']'] + seq![':']
            + dec_u16_text(a.port as int),
    }
}

/// The text of a socket address, per `spec_sock_addr_text`.
pub fn sock_addr_text(a: &SockAddr) -> (s: String)
    ensures
        s@ == spec_sock_addr_text(*a),
{
    proof {
        reveal_strlit("[");
        reveal_strlit("]");
        reveal_strlit(":");
    }
    let mut out = String::new();
    match a.ip {
        IpAddress::V4 { .. } => {
            let host = ip_text(&a.ip);
            out.append(host.as_str());
            out.append(":");
        },
        IpAddress::V6 { .. } => {
            let host = ip_text(&a.ip);
            out.append("[");
            out.append(host.as_str());
            out.append("]");
            out.append(":");
        },
    }
    push_dec_u16(&mut out, a.port);
    proof {
        assert(out@ =~= spec_sock_addr_text(*a));
    }
    out
}

} // verus!
