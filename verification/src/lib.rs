pub mod chars;
pub mod color;
pub mod hex;
pub mod scan;

use vstd::prelude::*;

verus! {

// A color-notation conversion utility: a string in one textual color
// notation is classified by the token it contains and re-emitted in another
// notation, honoring optional output formatting flags.

use crate::color::{classifies_as_hex, Color, Error};
use crate::hex::{hex_to_hex, hex_to_rgb, strip_hash, valid_hex_digits};
use crate::scan::str_eq;

/// The target-notation name that selects hex output.
pub open spec fn hex_name() -> Seq<char> {
    seq!['h', 'e', 'x']
}

/// The target-notation name that selects rgb output.
pub open spec fn rgb_name() -> Seq<char> {
    seq!['r', 'g', 'b']
}

/// Classify `input` and convert it to the notation named by `target`, with
/// every formatting flag off. Only "hex" and "rgb" name implemented
/// conversions, and only a HEX-classified source has conversion routines;
/// every other combination is `NotMatch`, and malformed hex digits are
/// `Format`.
pub fn convert(input: &str, target: &str) -> (res: Result<String, Error>)
    ensures
        match res {
            Ok(out) => classifies_as_hex(input@) && ((target@ == hex_name() && hex_to_hex(
                input@,
                false,
                false,
                false,
            ) == Some(out@)) || (target@ == rgb_name() && hex_to_rgb(input@, false, false) == Some(
                out@,
            ))),
            Err(Error::Format) => classifies_as_hex(input@) && (target@ == hex_name() || target@
                == rgb_name()) && !valid_hex_digits(strip_hash(input@)),
            Err(Error::NotMatch) => !classifies_as_hex(input@) || (target@ != hex_name() && target@
                != rgb_name()),
        },
{
    proof {
        reveal_strlit("hex");
        reveal_strlit("rgb");
        assert("hex"@ =~= hex_name());
        assert("rgb"@ =~= rgb_name());
    }
    let color = Color::init(input);
    if str_eq(target, "hex") {
        color.to_hex()
    } else if str_eq(target, "rgb") {
        color.to_rgb()
    } else {
        Err(Error::NotMatch)
    }
}

} // verus!
