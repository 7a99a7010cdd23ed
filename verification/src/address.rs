//! The public IPv4 address, and the text that stands for it in a record.

use vstd::prelude::*;
use vstd::string::*;

verus! {

/// An IPv4 address, as its four octets from first to last.
#[derive(Clone, Copy, Debug, PartialEq, Eq, Structural)]
pub struct Ipv4 {
    pub a: u8,
    pub b: u8,
    pub c: u8,
    pub d: u8,
}

/// The character of a decimal digit.
pub open spec fn digit(d: nat) -> char
    recommends
        d < 10,
{
    if d == 0 {
        '0'
    } else if d == 1 {
        '1'
    } else if d == 2 {
        '2'
    } else if d == 3 {
        '3'
    } else if d == 4 {
        '4'
    } else if d == 5 {
        '5'
    } else if d == 6 {
        '6'
    } else if d == 7 {
        '7'
    } else if d == 8 {
        '8'
    } else {
        '9'
    }
}

/// A number in decimal, without leading zeros.
pub open spec fn decimal(n: nat) -> Seq<char>
    decreases n,
{
    if n < 10 {
        seq![digit(n)]
    } else {
        decimal(n / 10).push(digit(n % 10))
    }
}

/// An address in dotted-decimal notation: its octets in decimal, with a
/// dot between each two.
pub open spec fn dotted(ip: Ipv4) -> Seq<char> {
    decimal(ip.a as nat) + seq!['.'] + decimal(ip.b as nat) + seq!['.'] + decimal(ip.c as nat)
        + seq!['.'] + decimal(ip.d as nat)
}

fn digit_text(d: u8) -> (text: &'static str)
    requires
        d < 10,
    ensures
        text@ == seq![digit(d as nat)],
{
    proof {
        reveal_strlit("0");
        reveal_strlit("1");
        reveal_strlit("2");
        reveal_strlit("3");
        reveal_strlit("4");
        reveal_strlit("5");
        reveal_strlit("6");
        reveal_strlit("7");
        reveal_strlit("8");
        reveal_strlit("9");
    }
    let text = if d == 0 {
        "0"
    } else if d == 1 {
        "1"
    } else if d == 2 {
        "2"
    } else if d == 3 {
        "3"
    } else if d == 4 {
        "4"
    } else if d == 5 {
        "5"
    } else if d == 6 {
        "6"
    } else if d == 7 {
        "7"
    } else if d == 8 {
        "8"
    } else {
        "9"
    };
    assert(text@ =~= seq![digit(d as nat)]);
    text
}

/// Writes an octet in decimal at the end of `out`.
fn push_octet(out: &mut String, octet: u8)
    ensures
        final(out)@ == old(out)@ + decimal(octet as nat),
{
    proof {
        reveal_with_fuel(decimal, 3);
    }
    if octet >= 100 {
        out.append(digit_text(octet / 100));
    }
    if octet >= 10 {
        out.append(digit_text((octet / 10) % 10));
    }
    out.append(digit_text(octet % 10));
    assert(out@ =~= old(out)@ + decimal(octet as nat));
}

impl Ipv4 {
    /// The address with these four octets.
    pub fn new(a: u8, b: u8, c: u8, d: u8) -> (ip: Ipv4)
        ensures
            ip == (Ipv4 { a, b, c, d }),
    {
        Ipv4 { a, b, c, d }
    }

    /// The address in dotted-decimal notation, as a record holds it.
    pub fn to_text(&self) -> (text: String)
        ensures
            text@ == dotted(*self),
    {
        proof {
            reveal_strlit(".");
        }
        let mut text = String::new();
        push_octet(&mut text, self.a);
        text.append(".");
        push_octet(&mut text, self.b);
        text.append(".");
        push_octet(&mut text, self.c);
        text.append(".");
        push_octet(&mut text, self.d);
        assert(text@ =~= dotted(*self));
        text
    }
}

} // verus!
