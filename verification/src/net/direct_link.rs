//! Link-local address selection: the addresses a direct Ethernet link between two
//! machines assigns itself when no DHCP server is present.

use vstd::prelude::*;

verus! {

/// An IP address, held as its octets (IPv4) or its 16-bit segments (IPv6).
#[derive(Clone, Copy, Debug, PartialEq, Eq)]
pub enum IpAddress {
    V4([u8; 4]),
    V6([u16; 8]),
}

/// Link-local: IPv4 `169.254.0.0/16`, IPv6 `fe80::/10`.
pub open spec fn is_link_local_spec(ip: IpAddress) -> bool {
    match ip {
        IpAddress::V4(o) => o[0] == 169 && o[1] == 254,
        IpAddress::V6(s) => s[0] & 0xffc0u16 == 0xfe80u16,
    }
}

/// The 32-bit value of an IPv4 address given by its octets, most significant first.
pub open spec fn v4_value(o: [u8; 4]) -> int {
    o[0] * 0x1000000 + o[1] * 0x10000 + o[2] * 0x100 + o[3]
}

/// Whether `ip` is a link-local address.
pub fn is_link_local(ip: IpAddress) -> (b: bool)
    ensures
        b == is_link_local_spec(ip),
        ip matches IpAddress::V4(o) ==> (b <==> (0xa9fe0000 <= v4_value(o) && v4_value(o) <= 0xa9feffff)),
        ip matches IpAddress::V6(s) ==> (b <==> (0xfe80 <= s[0] && s[0] <= 0xfebf)),
{
    proof {
        if let IpAddress::V4(o) = ip {
            lemma_v4_link_local_range(o);
        }
        if let IpAddress::V6(s) = ip {
            lemma_v6_link_local_range(s[0]);
        }
    }
    match ip {
        IpAddress::V4(o) => o[0] == 169 && o[1] == 254,
        IpAddress::V6(s) => (s[0] & 0xffc0) == 0xfe80,
    }
}

/// IPv4 link-local is the block `169.254.0.0/16`: an address is link-local exactly
/// when its 32-bit value lies in `0xa9fe0000..=0xa9feffff`.
pub proof fn lemma_v4_link_local_range(o: [u8; 4])
    ensures
        is_link_local_spec(IpAddress::V4(o)) <==> (0xa9fe0000 <= v4_value(o) && v4_value(o)
            <= 0xa9feffff),
{
    let (a, b, c, d) = (o[0] as int, o[1] as int, o[2] as int, o[3] as int);
    assert(0 <= b < 256 && 0 <= c < 256 && 0 <= d < 256 && 0 <= a < 256);
    assert((a == 169 && b == 254) <==> (0xa9fe0000 <= a * 0x1000000 + b * 0x10000 + c * 0x100 + d
        && a * 0x1000000 + b * 0x10000 + c * 0x100 + d <= 0xa9feffff)) by (nonlinear_arith)
        requires
            0 <= a < 256,
            0 <= b < 256,
            0 <= c < 256,
            0 <= d < 256,
    ;
}

/// IPv6 link-local is `fe80::/10`: an address is link-local exactly when its first
/// segment lies in `fe80..=febf`.
pub proof fn lemma_v6_link_local(s: [u16; 8])
    ensures
        is_link_local_spec(IpAddress::V6(s)) <==> (0xfe80 <= s[0] && s[0] <= 0xfebf),
{
    lemma_v6_link_local_range(s[0]);
}

/// The IPv6 prefix test reads as a range: the first segment lies in `fe80..=febf`.
pub proof fn lemma_v6_link_local_range(first_segment: u16)
    ensures
        (first_segment & 0xffc0u16 == 0xfe80u16) <==> (0xfe80u16 <= first_segment
            && first_segment <= 0xfebfu16),
{
    assert((first_segment & 0xffc0u16 == 0xfe80u16) <==> (0xfe80u16 <= first_segment
        && first_segment <= 0xfebfu16)) by (bit_vector);
}

/// The link-local addresses among `addrs`, in their order.
pub fn select_link_local(addrs: &Vec<IpAddress>) -> (out: Vec<IpAddress>)
    ensures
        out@ == addrs@.filter(|ip: IpAddress| is_link_local_spec(ip)),
{
    let ghost pred = |ip: IpAddress| is_link_local_spec(ip);
    let mut out: Vec<IpAddress> = Vec::new();
    let mut i: usize = 0;
    while i < addrs.len()
        invariant
            i <= addrs@.len(),
            pred == (|ip: IpAddress| is_link_local_spec(ip)),
            out@ == addrs@.take(i as int).filter(pred),
        decreases addrs.len() - i,
    {
        let ip = addrs[i];
        if is_link_local(ip) {
            out.push(ip);
        }
        proof {
            assert(addrs@.take(i + 1) =~= addrs@.take(i as int).push(ip));
            addrs@.take(i as int).lemma_filter_push(ip, pred);
        }
        i += 1;
    }
    assert(addrs@.take(addrs@.len() as int) =~= addrs@);
    out
}

} // verus!
