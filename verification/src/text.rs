//! Small pieces of text the server writes: decimal numbers and string joins.
use vstd::prelude::*;
use vstd::string::*;

verus! {

/// The ten decimal digits, in order.
pub open spec fn decimal_digits() -> Seq<char> {
    seq!['0', '1', '2', '3', '4', '5', '6', '7', '8', '9']
}

/// The decimal representation of `n`, without sign or leading zeros
/// (`0` is written `"0"`), as Rust's `Display` for unsigned integers writes it.
pub open spec fn spec_decimal(n: nat) -> Seq<char>
    decreases n,
{
    if n < 10 {
        seq![decimal_digits()[n as int]]
    } else {
        spec_decimal(n / 10) + seq![decimal_digits()[(n % 10) as int]]
    }
}

/// The digit `d` as a one-character string.
fn digit_text(d: u32) -> (text: String)
    requires
        d < 10,
    ensures
        text@ == seq![decimal_digits()[d as int]],
{
    let all: &str = "0123456789";
    proof {
        reveal_strlit("0123456789");
    }
    let one = all.substring_char(d as usize, (d + 1) as usize);
    assert(one@ =~= seq![decimal_digits()[d as int]]);
    String::from_str(one)
}

/// Writes `n` in decimal.
pub fn decimal(n: u32) -> (text: String)
    ensures
        text@ == spec_decimal(n as nat),
    decreases n,
{
    if n < 10 {
        digit_text(n)
    } else {
        let mut text = decimal(n / 10);
        let last = digit_text(n % 10);
        text.append(last.as_str());
        text
    }
}

} // verus!
