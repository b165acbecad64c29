//! The startup banner: Ferris the crab greets whoever starts the server.

use vstd::prelude::*;

verus! {

/// What `ferris_says::say` writes for a text and a maximal line width.
pub uninterp spec fn ferris_rendering(text: Seq<char>, max_width: usize) -> Seq<u8>;

/// The longest text that is handed to `ferris_says::say`, in characters.
pub const MAX_TEXT_CHARS: usize = 64;

/// The widest line that is asked of `ferris_says::say`.
pub const MAX_LINE_WIDTH: usize = 255;

/// Calls `ferris_says::say` with a vector as its writer and hands out what
/// was written. Trusted: there is a rendering, since `say` fails only where
/// its writer fails and a vector takes every write, and it is what
/// `ferris_rendering` names. The text is short and the width small and not
/// zero, so that the line breaking inside works on small numbers.
#[verifier::external_body]
fn say(text: &str, max_width: usize) -> (rendering: Option<Vec<u8>>)
    requires
        text@.len() <= MAX_TEXT_CHARS,
        1 <= max_width <= MAX_LINE_WIDTH,
    ensures
        rendering is Some,
        rendering matches Some(bytes) ==> bytes@ == ferris_rendering(text@, max_width),
{
    let mut buffer: Vec<u8> = Vec::new();
    ferris_says::say(text.as_bytes(), max_width, &mut buffer).ok()?;
    Some(buffer)
}

/// Ends a rendering with an empty line.
pub fn finish_banner(rendering: Vec<u8>) -> (banner: Vec<u8>)
    ensures
        banner@ == rendering@.push(0x0au8),
{
    let mut banner = rendering;
    banner.push(0x0a);
    banner
}

/// The greeting that Ferris says.
pub open spec fn hello() -> Seq<char> {
    "Hello fellow ChatBros!"@
}

/// The bytes of the startup banner, to be written to standard output: Ferris
/// saying the greeting on one line, then an empty line.
pub fn hello_from_ferris() -> (banner: Vec<u8>)
    ensures
        banner@ == ferris_rendering(hello(), 22).push(0x0au8),
{
    let out = "Hello fellow ChatBros!";
    proof {
        reveal_strlit("Hello fellow ChatBros!");
    }
    let width = out.unicode_len();
    match say(out, width) {
        Some(rendering) => finish_banner(rendering),
        None => unreached(),
    }
}

} // verus!
