//! Synthesis of the names and relative paths the target project uses:
//! uniform channel names ("iChannel0", ...), buffer input names
//! ("Buffer A" to "Buffer D"), and the per-stage shader file paths under
//! the render-chain directory.

use vstd::prelude::*;

use crate::source::InputConfig;

verus! {

/// The decimal digit character for a value below ten.
pub open spec fn digit_char(d: nat) -> char {
    if d == 0 {
        '0'
    } else if d == 1 {
        '1'
    } else if d == 2 {
        '2'
    } else if d == 3 {
        '3'
    } else if d == 4 {
        '4'
    } else if d == 5 {
        '5'
    } else if d == 6 {
        '6'
    } else if d == 7 {
        '7'
    } else if d == 8 {
        '8'
    } else {
        '9'
    }
}

/// The usual decimal rendering of a natural number, most significant
/// digit first, with no leading zeros (zero itself is "0").
pub open spec fn decimal_str(n: nat) -> Seq<char>
    decreases n,
{
    if n < 10 {
        seq![digit_char(n)]
    } else {
        decimal_str(n / 10).push(digit_char(n % 10))
    }
}

/// The uniform a pass's shader samples channel slot `j` through.
pub open spec fn uniform_name_spec(j: nat) -> Seq<char> {
    "iChannel"@ + decimal_str(j)
}

/// The input name bound to a buffer reference: channel 0 to 3 select
/// "Buffer A" to "Buffer D".
pub open spec fn buffer_name_spec(channel: int) -> Seq<char> {
    if channel == 0 {
        "Buffer A"@
    } else if channel == 1 {
        "Buffer B"@
    } else if channel == 2 {
        "Buffer C"@
    } else {
        "Buffer D"@
    }
}

/// The input name a supported channel input resolves to.
pub open spec fn input_name_spec(input: InputConfig) -> Seq<char> {
    match input {
        InputConfig::Buffer { channel } => buffer_name_spec(channel as int),
        InputConfig::Webcam { .. } => "webcam"@,
    }
}

/// Path of the shared fragment-shader header, relative to the project
/// directory; every stage's fragment shader list starts with it.
pub open spec fn header_path_spec() -> Seq<char> {
    "render_chain/utils/header.glsl"@
}

/// Path of a stage's vertex shader file, relative to the project
/// directory.
pub open spec fn vertex_path_spec(stage: Seq<char>) -> Seq<char> {
    "render_chain/"@ + stage + "/vertex/main.glsl"@
}

/// Path of a stage's fragment shader file, relative to the project
/// directory.
pub open spec fn fragment_path_spec(stage: Seq<char>) -> Seq<char> {
    "render_chain/"@ + stage + "/fragment/main.glsl"@
}

fn digit_literal(d: usize) -> (r: &'static str)
    requires
        d < 10,
    ensures
        r@ =~= seq![digit_char(d as nat)],
{
    proof {
        reveal_strlit("0");
        reveal_strlit("1");
        reveal_strlit("2");
        reveal_strlit("3");
        reveal_strlit("4");
        reveal_strlit("5");
        reveal_strlit("6");
        reveal_strlit("7");
        reveal_strlit("8");
        reveal_strlit("9");
    }
    match d {
        0 => "0",
        1 => "1",
        2 => "2",
        3 => "3",
        4 => "4",
        5 => "5",
        6 => "6",
        7 => "7",
        8 => "8",
        _ => "9",
    }
}

/// Renders `n` in decimal.
pub fn decimal_string(n: usize) -> (s: String)
    ensures
        s@ == decimal_str(n as nat),
    decreases n,
{
    if n < 10 {
        digit_literal(n).to_owned()
    } else {
        let mut s = decimal_string(n / 10);
        s.append(digit_literal(n % 10));
        proof {
            assert(s@ =~= decimal_str(n as nat));
        }
        s
    }
}

/// Builds the uniform name for channel slot `j`: "iChannel" followed by
/// the slot in decimal.
pub fn uniform_name(j: usize) -> (s: String)
    ensures
        s@ == uniform_name_spec(j as nat),
{
    let mut s = String::from_str("iChannel");
    let digits = decimal_string(j);
    s.append(digits.as_str());
    s
}

/// Resolves a channel input to its bound input name; a buffer channel
/// outside 0..=3 has no translation and yields `None`.
pub fn input_name(input: &InputConfig) -> (r: Option<String>)
    ensures
        match r {
            Some(s) => crate::source::input_supported(*input) && s@ == input_name_spec(*input),
            None => !crate::source::input_supported(*input),
        },
{
    match input {
        InputConfig::Buffer { channel } => {
            let c = *channel;
            if c == 0 {
                Some(String::from_str("Buffer A"))
            } else if c == 1 {
                Some(String::from_str("Buffer B"))
            } else if c == 2 {
                Some(String::from_str("Buffer C"))
            } else if c == 3 {
                Some(String::from_str("Buffer D"))
            } else {
                None
            }
        },
        InputConfig::Webcam { .. } => Some(String::from_str("webcam")),
    }
}

/// Builds the path of a stage's vertex shader file.
pub fn vertex_path(stage: &str) -> (s: String)
    ensures
        s@ == vertex_path_spec(stage@),
{
    let mut s = String::from_str("render_chain/");
    s.append(stage);
    s.append("/vertex/main.glsl");
    s
}

/// Builds the path of a stage's fragment shader file.
pub fn fragment_path(stage: &str) -> (s: String)
    ensures
        s@ == fragment_path_spec(stage@),
{
    let mut s = String::from_str("render_chain/");
    s.append(stage);
    s.append("/fragment/main.glsl");
    s
}

/// Path of the shared fragment-shader header.
pub fn header_path() -> (s: String)
    ensures
        s@ == header_path_spec(),
{
    String::from_str("render_chain/utils/header.glsl")
}

} // verus!
