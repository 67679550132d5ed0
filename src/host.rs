//! Address strings of the listener: `127.0.0.1:<port>` and the same with an
//! `http://` prefix, the port written in decimal.

use vstd::prelude::*;

verus! {

/// The character of a decimal digit `d` (`d < 10`).
pub open spec fn digit_char(d: nat) -> char {
    if d == 0 {
        '0'
    } else if d == 1 {
        '1'
    } else if d == 2 {
        '2'
    } else if d == 3 {
        '3'
    } else if d == 4 {
        '4'
    } else if d == 5 {
        '5'
    } else if d == 6 {
        '6'
    } else if d == 7 {
        '7'
    } else if d == 8 {
        '8'
    } else {
        '9'
    }
}

/// `n` in decimal, most significant digit first, with no leading zeros
/// (zero is `"0"`).
pub open spec fn decimal(n: nat) -> Seq<char>
    decreases n,
{
    if n < 10 {
        seq![digit_char(n)]
    } else {
        decimal(n / 10).push(digit_char(n % 10))
    }
}

/// The loopback address with `port`: `127.0.0.1:<port>`.
pub open spec fn host_text(port: nat) -> Seq<char> {
    "127.0.0.1:"@ + decimal(port)
}

/// The loopback URL with `port`: `http://127.0.0.1:<port>`.
pub open spec fn host_with_protocol_text(port: nat) -> Seq<char> {
    "http://"@ + host_text(port)
}

/// The one-character string of the digit `d`.
fn digit_str(d: usize) -> (r: &'static str)
    requires
        d < 10,
    ensures
        r@ == seq![digit_char(d as nat)],
{
    proof {
        reveal_strlit("0");
        reveal_strlit("1");
        reveal_strlit("2");
        reveal_strlit("3");
        reveal_strlit("4");
        reveal_strlit("5");
        reveal_strlit("6");
        reveal_strlit("7");
        reveal_strlit("8");
        reveal_strlit("9");
    }
    if d == 0 {
        "0"
    } else if d == 1 {
        "1"
    } else if d == 2 {
        "2"
    } else if d == 3 {
        "3"
    } else if d == 4 {
        "4"
    } else if d == 5 {
        "5"
    } else if d == 6 {
        "6"
    } else if d == 7 {
        "7"
    } else if d == 8 {
        "8"
    } else {
        "9"
    }
}

/// Appends `n` in decimal to `s`.
pub fn push_decimal(s: &mut String, n: usize)
    ensures
        final(s)@ == old(s)@ + decimal(n as nat),
    decreases n,
{
    if n >= 10 {
        push_decimal(s, n / 10);
    }
    s.append(digit_str(n % 10));
    proof {
        assert(final(s)@ =~= old(s)@ + decimal(n as nat));
    }
}

/// The loopback address of a listener on `port`.
pub fn host_for_port(port: usize) -> (r: String)
    ensures
        r@ == host_text(port as nat),
{
    let mut s = String::from_str("127.0.0.1:");
    push_decimal(&mut s, port);
    s
}

/// The loopback URL of a listener on `port`.
pub fn host_with_protocol_for_port(port: usize) -> (r: String)
    ensures
        r@ == host_with_protocol_text(port as nat),
{
    let mut s = String::from_str("http://127.0.0.1:");
    push_decimal(&mut s, port);
    proof {
        reveal_strlit("http://127.0.0.1:");
        reveal_strlit("http://");
        reveal_strlit("127.0.0.1:");
        assert(s@ =~= host_with_protocol_text(port as nat));
    }
    s
}

} // verus!
