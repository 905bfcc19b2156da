//! A small versioned echo message, kept beside the transfer protocol as a
//! plain-text diagnostic format.

use vstd::prelude::*;

verus! {

/// An echo message: a format version, a message type tag, and a text body.
pub struct EchoProtocol {
    pub ver: u8,
    pub mtype: u8,
    pub msg: String,
}

/// The decimal digit character for `d`.
pub open spec fn spec_digit(d: u8) -> char {
    ((d + 0x30) as u8) as char
}

/// The shortest decimal rendering of `x`: no leading zeros, except that zero
/// itself renders as one digit.
pub open spec fn spec_u8_decimal(x: u8) -> Seq<char> {
    if x >= 100 {
        seq![spec_digit(x / 100), spec_digit((x / 10) % 10), spec_digit(x % 10)]
    } else if x >= 10 {
        seq![spec_digit((x / 10) % 10), spec_digit(x % 10)]
    } else {
        seq![spec_digit(x)]
    }
}

/// The rendering [`EchoProtocol::to_string`] produces.
pub open spec fn spec_echo_string(ver: u8, mtype: u8, msg: Seq<char>) -> Seq<char> {
    "EchoProtocol { ver: "@ + spec_u8_decimal(ver) + ", mtype: "@ + spec_u8_decimal(mtype)
        + ", msg: "@ + msg + " }"@
}

fn digit_str(d: u8) -> (r: &'static str)
    requires
        d < 10,
    ensures
        r@ == seq![spec_digit(d)],
{
    proof {
        reveal_strlit("0");
        reveal_strlit("1");
        reveal_strlit("2");
        reveal_strlit("3");
        reveal_strlit("4");
        reveal_strlit("5");
        reveal_strlit("6");
        reveal_strlit("7");
        reveal_strlit("8");
        reveal_strlit("9");
    }
    if d == 0 {
        "0"
    } else if d == 1 {
        "1"
    } else if d == 2 {
        "2"
    } else if d == 3 {
        "3"
    } else if d == 4 {
        "4"
    } else if d == 5 {
        "5"
    } else if d == 6 {
        "6"
    } else if d == 7 {
        "7"
    } else if d == 8 {
        "8"
    } else {
        "9"
    }
}

fn push_u8_decimal(s: &mut String, x: u8)
    ensures
        final(s)@ == old(s)@ + spec_u8_decimal(x),
{
    if x >= 100 {
        s.append(digit_str(x / 100));
        s.append(digit_str((x / 10) % 10));
        s.append(digit_str(x % 10));
    } else if x >= 10 {
        s.append(digit_str((x / 10) % 10));
        s.append(digit_str(x % 10));
    } else {
        s.append(digit_str(x));
    }
    assert(s@ =~= old(s)@ + spec_u8_decimal(x));
}

impl EchoProtocol {
    /// A fresh message of the current format version.
    pub fn new(mtype: u8, msg: String) -> (r: EchoProtocol)
        ensures
            r.ver == 1,
            r.mtype == mtype,
            r.msg@ == msg@,
    {
        EchoProtocol { ver: 1, mtype, msg }
    }

    /// Renders the message as one line of plain text.
    pub fn to_string(&self) -> (r: String)
        ensures
            r@ == spec_echo_string(self.ver, self.mtype, self.msg@),
    {
        let mut out = String::new();
        out.append("EchoProtocol { ver: ");
        push_u8_decimal(&mut out, self.ver);
        out.append(", mtype: ");
        push_u8_decimal(&mut out, self.mtype);
        out.append(", msg: ");
        out.append(self.msg.as_str());
        out.append(" }");
        assert(out@ =~= spec_echo_string(self.ver, self.mtype, self.msg@));
        out
    }
}

} // verus!
