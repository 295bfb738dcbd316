//! Small helpers of the user-space pipeline: the printable name of a
//! transport protocol, and the capture timestamp.

use vstd::prelude::*;

use crate::protocol::{ICMP_PROTOCOL, TCP_PROTOCOL, UDP_PROTOCOL};

verus! {

/// One hexadecimal digit as a lowercase character.
pub open spec fn spec_hex_char(d: nat) -> char {
    if d == 0 {
        '0'
    } else if d == 1 {
        '1'
    } else if d == 2 {
        '2'
    } else if d == 3 {
        '3'
    } else if d == 4 {
        '4'
    } else if d == 5 {
        '5'
    } else if d == 6 {
        '6'
    } else if d == 7 {
        '7'
    } else if d == 8 {
        '8'
    } else if d == 9 {
        '9'
    } else if d == 10 {
        'a'
    } else if d == 11 {
        'b'
    } else if d == 12 {
        'c'
    } else if d == 13 {
        'd'
    } else if d == 14 {
        'e'
    } else {
        'f'
    }
}

/// The name printed for a transport protocol number: the three the
/// pipeline classifies by name, and the two-digit hexadecimal form
/// for every other number.
pub open spec fn spec_l3_protocol_name(protocol: u8) -> Seq<char> {
    if protocol == ICMP_PROTOCOL {
        "ICMP"@
    } else if protocol == UDP_PROTOCOL {
        "UDP"@
    } else if protocol == TCP_PROTOCOL {
        "TCP"@
    } else {
        seq!['0', 'x', spec_hex_char((protocol / 16) as nat), spec_hex_char((protocol % 16) as nat)]
    }
}

/// One hexadecimal digit as a string slice.
fn hex_char_str(d: u8) -> (r: &'static str)
    requires
        d < 16,
    ensures
        r@ == seq![spec_hex_char(d as nat)],
{
    if d == 0 {
        proof {
            reveal_strlit("0");
        }
        let s = "0";
        proof {
            assert(s@ =~= seq![spec_hex_char(d as nat)]);
        }
        s
    } else if d == 1 {
        proof {
            reveal_strlit("1");
        }
        let s = "1";
        proof {
            assert(s@ =~= seq![spec_hex_char(d as nat)]);
        }
        s
    } else if d == 2 {
        proof {
            reveal_strlit("2");
        }
        let s = "2";
        proof {
            assert(s@ =~= seq![spec_hex_char(d as nat)]);
        }
        s
    } else if d == 3 {
        proof {
            reveal_strlit("3");
        }
        let s = "3";
        proof {
            assert(s@ =~= seq![spec_hex_char(d as nat)]);
        }
        s
    } else if d == 4 {
        proof {
            reveal_strlit("4");
        }
        let s = "4";
        proof {
            assert(s@ =~= seq![spec_hex_char(d as nat)]);
        }
        s
    } else if d == 5 {
        proof {
            reveal_strlit("5");
        }
        let s = "5";
        proof {
            assert(s@ =~= seq![spec_hex_char(d as nat)]);
        }
        s
    } else if d == 6 {
        proof {
            reveal_strlit("6");
        }
        let s = "6";
        proof {
            assert(s@ =~= seq![spec_hex_char(d as nat)]);
        }
        s
    } else if d == 7 {
        proof {
            reveal_strlit("7");
        }
        let s = "7";
        proof {
            assert(s@ =~= seq![spec_hex_char(d as nat)]);
        }
        s
    } else if d == 8 {
        proof {
            reveal_strlit("8");
        }
        let s = "8";
        proof {
            assert(s@ =~= seq![spec_hex_char(d as nat)]);
        }
        s
    } else if d == 9 {
        proof {
            reveal_strlit("9");
        }
        let s = "9";
        proof {
            assert(s@ =~= seq![spec_hex_char(d as nat)]);
        }
        s
    } else if d == 10 {
        proof {
            reveal_strlit("a");
        }
        let s = "a";
        proof {
            assert(s@ =~= seq![spec_hex_char(d as nat)]);
        }
        s
    } else if d == 11 {
        proof {
            reveal_strlit("b");
        }
        let s = "b";
        proof {
            assert(s@ =~= seq![spec_hex_char(d as nat)]);
        }
        s
    } else if d == 12 {
        proof {
            reveal_strlit("c");
        }
        let s = "c";
        proof {
            assert(s@ =~= seq![spec_hex_char(d as nat)]);
        }
        s
    } else if d == 13 {
        proof {
            reveal_strlit("d");
        }
        let s = "d";
        proof {
            assert(s@ =~= seq![spec_hex_char(d as nat)]);
        }
        s
    } else if d == 14 {
        proof {
            reveal_strlit("e");
        }
        let s = "e";
        proof {
            assert(s@ =~= seq![spec_hex_char(d as nat)]);
        }
        s
    } else {
        proof {
            reveal_strlit("f");
        }
        let s = "f";
        proof {
            assert(s@ =~= seq![spec_hex_char(d as nat)]);
        }
        s
    }
}

/// The printable name of a transport protocol number, as
/// [`spec_l3_protocol_name`] states it.
pub fn l3_protocol(protocol: u8) -> (name: String)
    ensures
        name@ == spec_l3_protocol_name(protocol),
{
    if protocol == ICMP_PROTOCOL {
        String::from_str("ICMP")
    } else if protocol == UDP_PROTOCOL {
        String::from_str("UDP")
    } else if protocol == TCP_PROTOCOL {
        String::from_str("TCP")
    } else {
        let mut name = String::from_str("0x");
        name.append(hex_char_str(protocol / 16));
        name.append(hex_char_str(protocol % 16));
        proof {
            reveal_strlit("0x");
            assert(name@ =~= spec_l3_protocol_name(protocol));
        }
        name
    }
}

/// Capture timestamps come from the system clock. Relies on
/// `std::time::SystemTime::now` followed by `duration_since` against
/// `std::time::UNIX_EPOCH` and `Duration::as_secs`: the whole seconds
/// of the clock's offset past the Unix epoch. The value depends on
/// the clock at the moment of the call, so nothing is promised of it;
/// the call stops the process if the clock reads before the epoch.
#[verifier::external_body]
pub fn timestamp() -> u64 {
    std::time::SystemTime::now().duration_since(std::time::UNIX_EPOCH).expect(
        "Time went backwards",
    ).as_secs()
}

} // verus!
