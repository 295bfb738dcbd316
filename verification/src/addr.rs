//! Network addresses as the library models them: an IPv4 address is
//! its 32-bit value, an IPv6 address its 128-bit value, both in host
//! integer form.

use vstd::prelude::*;

verus! {

/// A layer-3 address, tagged with its family.
#[derive(Clone, Copy, Debug, PartialEq, Eq, Structural)]
pub enum Addr {
    V4(u32),
    V6(u128),
}

impl Addr {
    /// The address widened to the common 128-bit width used by the
    /// wire record; an IPv4 address occupies the low 32 bits.
    pub open spec fn spec_bits(self) -> u128 {
        match self {
            Addr::V4(a) => a as u128,
            Addr::V6(a) => a,
        }
    }

    /// True of an IPv4 address.
    pub open spec fn spec_is_v4(self) -> bool {
        self is V4
    }

    /// Executable form of [`Addr::spec_bits`].
    pub fn bits(&self) -> (r: u128)
        ensures
            r == self.spec_bits(),
    {
        match self {
            Addr::V4(a) => *a as u128,
            Addr::V6(a) => *a,
        }
    }

    /// Executable form of [`Addr::spec_is_v4`].
    pub fn is_v4(&self) -> (r: bool)
        ensures
            r == self.spec_is_v4(),
    {
        matches!(self, Addr::V4(_))
    }
}

/// The decimal digits of `n`, as ASCII bytes, most significant first,
/// with no leading zeros (`0` itself is one digit).
pub open spec fn spec_dec_bytes(n: nat) -> Seq<u8>
    decreases n,
{
    if n < 10 {
        seq![(48 + n) as u8]
    } else {
        spec_dec_bytes(n / 10).push((48 + n % 10) as u8)
    }
}

/// One hexadecimal digit as a lowercase ASCII byte.
pub open spec fn spec_hex_digit(d: nat) -> u8 {
    if d < 10 {
        (48 + d) as u8
    } else {
        (87 + d) as u8
    }
}

/// The hexadecimal digits of `n`, as lowercase ASCII bytes, most
/// significant first, with no leading zeros.
pub open spec fn spec_hex_bytes(n: nat) -> Seq<u8>
    decreases n,
{
    if n < 16 {
        seq![spec_hex_digit(n)]
    } else {
        spec_hex_bytes(n / 16).push(spec_hex_digit(n % 16))
    }
}

/// Appends the decimal digits of `n` to `out`.
pub fn push_dec_u64(out: &mut Vec<u8>, n: u64)
    ensures
        final(out)@ == old(out)@ + spec_dec_bytes(n as nat),
    decreases n,
{
    if n < 10 {
        out.push(48 + n as u8);
        proof {
            assert(out@ =~= old(out)@ + spec_dec_bytes(n as nat));
        }
    } else {
        push_dec_u64(out, n / 10);
        out.push(48 + (n % 10) as u8);
        proof {
            assert(out@ =~= old(out)@ + spec_dec_bytes(n as nat));
        }
    }
}

/// Appends the hexadecimal digits of `n` to `out`.
pub fn push_hex_u16(out: &mut Vec<u8>, n: u16)
    ensures
        final(out)@ == old(out)@ + spec_hex_bytes(n as nat),
    decreases n,
{
    if n < 16 {
        let d = if n < 10 {
            48 + n as u8
        } else {
            87 + n as u8
        };
        out.push(d);
        proof {
            assert(out@ =~= old(out)@ + spec_hex_bytes(n as nat));
        }
    } else {
        push_hex_u16(out, n / 16);
        let r = n % 16;
        let d = if r < 10 {
            48 + r as u8
        } else {
            87 + r as u8
        };
        out.push(d);
        proof {
            assert(out@ =~= old(out)@ + spec_hex_bytes(n as nat));
        }
    }
}

/// The dotted-quad text of an IPv4 address, as ASCII bytes: four
/// decimal octets, most significant first, joined by dots.
pub open spec fn spec_ipv4_text(a: u32) -> Seq<u8> {
    spec_dec_bytes((a / 0x100_0000) as nat) + seq![46u8] + spec_dec_bytes(
        ((a / 0x1_0000) % 0x100) as nat,
    ) + seq![46u8] + spec_dec_bytes(((a / 0x100) % 0x100) as nat) + seq![46u8] + spec_dec_bytes(
        (a % 0x100) as nat,
    )
}

/// The text of an IPv6 address, as ASCII bytes: eight 16-bit groups
/// in lowercase hexadecimal, most significant first, joined by
/// colons, each group without leading zeros and none elided.
pub open spec fn spec_ipv6_text(a: u128) -> Seq<u8> {
    spec_hex_bytes((a / 0x1_0000_0000_0000_0000_0000_0000_0000) as nat) + seq![58u8]
        + spec_hex_bytes(((a / 0x1_0000_0000_0000_0000_0000_0000) % 0x1_0000) as nat) + seq![58u8]
        + spec_hex_bytes(((a / 0x1_0000_0000_0000_0000_0000) % 0x1_0000) as nat) + seq![58u8]
        + spec_hex_bytes(((a / 0x1_0000_0000_0000_0000) % 0x1_0000) as nat) + seq![58u8]
        + spec_hex_bytes(((a / 0x1_0000_0000_0000) % 0x1_0000) as nat) + seq![58u8]
        + spec_hex_bytes(((a / 0x1_0000_0000) % 0x1_0000) as nat) + seq![58u8] + spec_hex_bytes(
        ((a / 0x1_0000) % 0x1_0000) as nat,
    ) + seq![58u8] + spec_hex_bytes((a % 0x1_0000) as nat)
}

/// The text of an address, as its family writes it.
pub open spec fn spec_addr_text(addr: Addr) -> Seq<u8> {
    match addr {
        Addr::V4(a) => spec_ipv4_text(a),
        Addr::V6(a) => spec_ipv6_text(a),
    }
}

/// Appends the dotted-quad text of an IPv4 address to `out`.
pub fn push_ipv4_text(out: &mut Vec<u8>, a: u32)
    ensures
        final(out)@ == old(out)@ + spec_ipv4_text(a),
{
    push_dec_u64(out, (a / 0x100_0000) as u64);
    out.push(46);
    push_dec_u64(out, ((a / 0x1_0000) % 0x100) as u64);
    out.push(46);
    push_dec_u64(out, ((a / 0x100) % 0x100) as u64);
    out.push(46);
    push_dec_u64(out, (a % 0x100) as u64);
    proof {
        assert(out@ =~= old(out)@ + spec_ipv4_text(a));
    }
}

/// Appends the colon-grouped text of an IPv6 address to `out`.
pub fn push_ipv6_text(out: &mut Vec<u8>, a: u128)
    ensures
        final(out)@ == old(out)@ + spec_ipv6_text(a),
{
    push_hex_u16(out, (a / 0x1_0000_0000_0000_0000_0000_0000_0000) as u16);
    out.push(58);
    push_hex_u16(out, ((a / 0x1_0000_0000_0000_0000_0000_0000) % 0x1_0000) as u16);
    out.push(58);
    push_hex_u16(out, ((a / 0x1_0000_0000_0000_0000_0000) % 0x1_0000) as u16);
    out.push(58);
    push_hex_u16(out, ((a / 0x1_0000_0000_0000_0000) % 0x1_0000) as u16);
    out.push(58);
    push_hex_u16(out, ((a / 0x1_0000_0000_0000) % 0x1_0000) as u16);
    out.push(58);
    push_hex_u16(out, ((a / 0x1_0000_0000) % 0x1_0000) as u16);
    out.push(58);
    push_hex_u16(out, ((a / 0x1_0000) % 0x1_0000) as u16);
    out.push(58);
    push_hex_u16(out, (a % 0x1_0000) as u16);
    proof {
        assert(out@ =~= old(out)@ + spec_ipv6_text(a));
    }
}

impl Addr {
    /// Appends the text of the address to `out`.
    pub fn push_text(&self, out: &mut Vec<u8>)
        ensures
            final(out)@ == old(out)@ + spec_addr_text(*self),
    {
        match self {
            Addr::V4(a) => push_ipv4_text(out, *a),
            Addr::V6(a) => push_ipv6_text(out, *a),
        }
    }

    /// The text of the address as a fresh byte vector.
    pub fn to_text(&self) -> (r: Vec<u8>)
        ensures
            r@ == spec_addr_text(*self),
    {
        let mut out: Vec<u8> = Vec::new();
        self.push_text(&mut out);
        proof {
            assert(out@ =~= spec_addr_text(*self));
        }
        out
    }
}

/// An ASCII decimal digit.
pub open spec fn spec_is_digit(b: u8) -> bool {
    48 <= b <= 57
}

/// The first position at or after `i` that is not a digit (the end of
/// the digit run starting at `i`).
pub open spec fn spec_digit_run_end(s: Seq<u8>, i: int) -> int
    recommends
        0 <= i <= s.len(),
    decreases s.len() - i,
{
    if i < 0 || i >= s.len() || !spec_is_digit(s[i]) {
        i
    } else {
        spec_digit_run_end(s, i + 1)
    }
}

/// The digit run starting at `i` ends within the sequence, covers
/// digits only, and stops at the first non-digit.
pub proof fn lemma_digit_run_end(s: Seq<u8>, i: int)
    requires
        0 <= i <= s.len(),
    ensures
        i <= spec_digit_run_end(s, i) <= s.len(),
        forall|k: int| i <= k < spec_digit_run_end(s, i) ==> spec_is_digit(#[trigger] s[k]),
        spec_digit_run_end(s, i) < s.len() ==> !spec_is_digit(s[spec_digit_run_end(s, i)]),
    decreases s.len() - i,
{
    if i < s.len() && spec_is_digit(s[i]) {
        lemma_digit_run_end(s, i + 1);
    }
}

/// The value of the digits at `[i, j)`, read as a decimal number.
pub open spec fn spec_dec_value(s: Seq<u8>, i: int, j: int) -> int
    recommends
        0 <= i <= j <= s.len(),
    decreases j - i,
{
    if j <= i {
        0
    } else {
        spec_dec_value(s, i, j - 1) * 10 + (s[j - 1] - 48)
    }
}

/// A well-formed textual octet at `[i, j)`, where `j` is the end of
/// the digit run at `i`: one to three digits, no leading zero (other
/// than `0` itself), value at most 255.
pub open spec fn spec_valid_octet(s: Seq<u8>, i: int, j: int) -> bool {
    &&& 1 <= j - i <= 3
    &&& (j - i > 1 ==> s[i] != 48)
    &&& spec_dec_value(s, i, j) <= 255
}

/// The IPv4 address a byte string spells, if it spells one: four
/// octets in decimal, each one to three digits with no leading zero
/// and at most 255, joined by single dots, with nothing before,
/// between, or after. The address is the big-endian combination of
/// the octets.
pub open spec fn spec_parse_ipv4(s: Seq<u8>) -> Option<u32> {
    let j0 = spec_digit_run_end(s, 0);
    if !(spec_valid_octet(s, 0, j0) && j0 < s.len() && s[j0] == 46) {
        None
    } else {
        let i1 = j0 + 1;
        let j1 = spec_digit_run_end(s, i1);
        if !(spec_valid_octet(s, i1, j1) && j1 < s.len() && s[j1] == 46) {
            None
        } else {
            let i2 = j1 + 1;
            let j2 = spec_digit_run_end(s, i2);
            if !(spec_valid_octet(s, i2, j2) && j2 < s.len() && s[j2] == 46) {
                None
            } else {
                let i3 = j2 + 1;
                let j3 = spec_digit_run_end(s, i3);
                if !(spec_valid_octet(s, i3, j3) && j3 == s.len()) {
                    None
                } else {
                    Some(
                        (spec_dec_value(s, 0, j0) * 0x100_0000 + spec_dec_value(s, i1, j1)
                            * 0x1_0000 + spec_dec_value(s, i2, j2) * 0x100 + spec_dec_value(
                            s,
                            i3,
                            j3,
                        )) as u32,
                    )
                }
            }
        }
    }
}

/// Walks to the end of the digit run starting at `i`.
fn digit_run_end(s: &[u8], i: usize) -> (j: usize)
    requires
        i <= s@.len(),
    ensures
        j == spec_digit_run_end(s@, i as int),
        i <= j <= s@.len(),
{
    let mut j = i;
    while j < s.len() && 48 <= s[j] && s[j] <= 57
        invariant
            i <= j <= s@.len(),
            spec_digit_run_end(s@, i as int) == spec_digit_run_end(s@, j as int),
        decreases s@.len() - j,
    {
        j = j + 1;
    }
    j
}

/// Reads the octet whose digit run starts at `i`: its value and the
/// position after it, or nothing when the run is not a well-formed
/// octet.
fn parse_octet(s: &[u8], i: usize) -> (r: Option<(u32, usize)>)
    requires
        i <= s@.len(),
    ensures
        spec_valid_octet(s@, i as int, spec_digit_run_end(s@, i as int)) ==> (r matches Some(p)
            && p.0 == spec_dec_value(s@, i as int, spec_digit_run_end(s@, i as int)) && p.1
            == spec_digit_run_end(s@, i as int) && p.0 <= 255),
        !spec_valid_octet(s@, i as int, spec_digit_run_end(s@, i as int)) ==> r is None,
{
    let j = digit_run_end(s, i);
    proof {
        lemma_digit_run_end(s@, i as int);
    }
    if j - i < 1 || j - i > 3 {
        return None;
    }
    if j - i > 1 && s[i] == 48 {
        return None;
    }
    let len = j - i;
    proof {
        let si = i as int;
        assert(spec_dec_value(s@, si, si) == 0);
        assert(spec_dec_value(s@, si, si + 1) == s@[si] - 48);
        if len >= 2 {
            assert(spec_dec_value(s@, si, si + 2) == (s@[si] - 48) * 10 + (s@[si + 1] - 48));
        }
        if len == 3 {
            assert(spec_dec_value(s@, si, si + 3) == ((s@[si] - 48) * 10 + (s@[si + 1] - 48)) * 10
                + (s@[si + 2] - 48));
        }
    }
    let v: u32 = if len == 1 {
        (s[i] - 48) as u32
    } else if len == 2 {
        (s[i] - 48) as u32 * 10 + (s[i + 1] - 48) as u32
    } else {
        (s[i] - 48) as u32 * 100 + (s[i + 1] - 48) as u32 * 10 + (s[i + 2] - 48) as u32
    };
    if v > 255 {
        return None;
    }
    Some((v, j))
}

/// Parses the dotted-quad text of an IPv4 address, exactly as
/// [`spec_parse_ipv4`] states: anything else yields nothing. This is
/// how entries of the banned-address list are normalized before they
/// seed the blocklist.
pub fn parse_ipv4(s: &[u8]) -> (r: Option<u32>)
    ensures
        r == spec_parse_ipv4(s@),
{
    let (v0, j0) = match parse_octet(s, 0) {
        Some(p) => p,
        None => {
            return None;
        },
    };
    if j0 >= s.len() || s[j0] != 46 {
        return None;
    }
    let (v1, j1) = match parse_octet(s, j0 + 1) {
        Some(p) => p,
        None => {
            return None;
        },
    };
    if j1 >= s.len() || s[j1] != 46 {
        return None;
    }
    let (v2, j2) = match parse_octet(s, j1 + 1) {
        Some(p) => p,
        None => {
            return None;
        },
    };
    if j2 >= s.len() || s[j2] != 46 {
        return None;
    }
    let (v3, j3) = match parse_octet(s, j2 + 1) {
        Some(p) => p,
        None => {
            return None;
        },
    };
    if j3 != s.len() {
        return None;
    }
    Some(v0 * 0x100_0000 + v1 * 0x1_0000 + v2 * 0x100 + v3)
}

/// The low 32 bits of a 128-bit stored address, as an IPv4 address.
pub open spec fn spec_low32(bits: u128) -> u32 {
    (bits % 0x1_0000_0000) as u32
}

/// Executable form of [`spec_low32`]: discards the high 96 bits.
pub fn low32(bits: u128) -> (r: u32)
    ensures
        r == spec_low32(bits),
{
    (bits % 0x1_0000_0000) as u32
}

} // verus!
