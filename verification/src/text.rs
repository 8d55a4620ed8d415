//! The greeting itself: a fixed, non-empty ASCII text.

use vstd::prelude::*;
use vstd::string::*;

verus! {

/// The characters of the greeting.
pub open spec fn greeting_text() -> Seq<char> {
    seq!['R', 'u', 's', 't', '!']
}

/// The bytes of the greeting in UTF-8.
pub open spec fn greeting_bytes() -> Seq<u8> {
    seq![0x52u8, 0x75u8, 0x73u8, 0x74u8, 0x21u8]
}

/// The greeting as a Rust string.
///
/// The result is the same on every call: it depends on nothing.
pub fn greeting() -> (text: &'static str)
    ensures
        text@ == greeting_text(),
        text.spec_bytes() == greeting_bytes(),
        text.is_ascii(),
{
    let message = "Rust!";
    proof {
        reveal_strlit("Rust!");
        is_ascii_spec_bytes(message);
    }
    message
}

} // verus!
