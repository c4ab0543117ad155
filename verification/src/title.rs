//! The window's title, which shows the frame rate.

use vstd::prelude::*;

verus! {

/// `String::push_str`: appends `tail` to the end of `text`.
#[verifier::external_body]
fn append_str(text: &mut String, tail: &str)
    ensures
        final(text)@ == old(text)@ + tail@,
{
    text.push_str(tail);
}

/// `String::push`: appends `c` to the end of `text`.
#[verifier::external_body]
fn append_char(text: &mut String, c: char)
    ensures
        final(text)@ == old(text)@.push(c),
{
    text.push(c);
}

/// The character for a decimal digit.
pub open spec fn digit(d: nat) -> char {
    if d == 0 {
        '0'
    } else if d == 1 {
        '1'
    } else if d == 2 {
        '2'
    } else if d == 3 {
        '3'
    } else if d == 4 {
        '4'
    } else if d == 5 {
        '5'
    } else if d == 6 {
        '6'
    } else if d == 7 {
        '7'
    } else if d == 8 {
        '8'
    } else {
        '9'
    }
}

/// A number in decimal, without leading zeros.
pub open spec fn decimal(n: nat) -> Seq<char>
    decreases n,
{
    if n < 10 {
        seq![digit(n)]
    } else {
        decimal(n / 10).push(digit(n % 10))
    }
}

/// The title: name, version and frames per second.
pub open spec fn title_text(name: Seq<char>, version: Seq<char>, fps: nat) -> Seq<char> {
    name + " v"@ + version + " | FPS: "@ + decimal(fps)
}

fn digit_char(d: u32) -> (c: char)
    requires
        d < 10,
    ensures
        c == digit(d as nat),
{
    match d {
        0 => '0',
        1 => '1',
        2 => '2',
        3 => '3',
        4 => '4',
        5 => '5',
        6 => '6',
        7 => '7',
        8 => '8',
        _ => '9',
    }
}

fn append_decimal(text: &mut String, n: u32)
    ensures
        final(text)@ == old(text)@ + decimal(n as nat),
    decreases n,
{
    if n < 10 {
        append_char(text, digit_char(n));
        assert(old(text)@.push(digit(n as nat)) =~= old(text)@ + decimal(n as nat));
    } else {
        append_decimal(text, n / 10);
        append_char(text, digit_char(n % 10));
        assert((old(text)@ + decimal((n / 10) as nat)).push(digit((n % 10) as nat)) =~= old(text)@
            + decimal(n as nat));
    }
}

/// The window's title for `fps` frames per second: the name, ` v`, the
/// version, ` | FPS: ` and the rate in decimal.
pub fn window_title(name: &str, version: &str, fps: u32) -> (title: String)
    ensures
        title@ == title_text(name@, version@, fps as nat),
{
    let mut title = String::new();
    append_str(&mut title, name);
    append_str(&mut title, " v");
    append_str(&mut title, version);
    append_str(&mut title, " | FPS: ");
    append_decimal(&mut title, fps);
    assert(title@ =~= title_text(name@, version@, fps as nat));
    title
}

} // verus!
