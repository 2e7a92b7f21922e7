//! Classifying a key byte and reporting it.

use vstd::prelude::*;

verus! {

/// The two kinds of key byte.
#[derive(Clone, Copy, Debug, PartialEq, Eq, Structural)]
pub enum KeyClass {
    /// A byte of value 31 or less, or 127.
    Control,
    /// Any other byte.
    Printable,
}

/// What a key byte tells the session to do next.
#[derive(Clone, Copy, Debug, PartialEq, Eq, Structural)]
pub enum Signal {
    /// Go on reading.
    Continue,
    /// End the session.
    Terminate,
}

/// What one key byte comes to: its class, the line that reports it, and the
/// signal to the session.
#[derive(Clone, Debug, PartialEq, Eq)]
pub struct KeyReport {
    /// Whether the byte is a control byte or a printable one.
    pub class: KeyClass,
    /// The text to write for the byte, carriage return included.
    pub line: String,
    /// Whether the session goes on.
    pub signal: Signal,
}

/// The quit key, Ctrl+Q.
pub const QUIT_KEY: u8 = 17;

/// The highest of the control bytes that lie in one run from 0.
pub const LAST_LOW_CONTROL: u8 = 31;

/// The delete byte, a control byte apart from the others.
pub const DELETE_KEY: u8 = 127;

/// The class of a key byte.
pub open spec fn key_class(key: u8) -> KeyClass {
    if key <= LAST_LOW_CONTROL || key == DELETE_KEY {
        KeyClass::Control
    } else {
        KeyClass::Printable
    }
}

/// The signal of a key byte: only the quit key ends the session.
pub open spec fn key_signal(key: u8) -> Signal {
    if key == QUIT_KEY {
        Signal::Terminate
    } else {
        Signal::Continue
    }
}

/// The character of a decimal digit.
pub open spec fn digit_char(digit: nat) -> char {
    (digit + 48) as char
}

/// A number in decimal, without leading zeros.
pub open spec fn decimal(n: nat) -> Seq<char>
    decreases n,
{
    if n < 10 {
        seq![digit_char(n)]
    } else {
        decimal(n / 10).push(digit_char(n % 10))
    }
}

/// The line that reports a key byte. For a control byte it is the value in
/// decimal; for a printable byte the value, a comma, a space and the character
/// whose code point the byte is. Either way a carriage return ends it.
pub open spec fn key_line(key: u8) -> Seq<char> {
    match key_class(key) {
        KeyClass::Control => decimal(key as nat).push('\r'),
        KeyClass::Printable => decimal(key as nat) + seq![',', ' ', key as char, '\r'],
    }
}

/// `String::push`: appends one character to the end of the string.
pub assume_specification[ String::push ](string: &mut String, ch: char)
    ensures
        final(string)@ == old(string)@.push(ch),
;

/// The class of a key byte.
pub fn classify(key: u8) -> (class: KeyClass)
    ensures
        class == key_class(key),
        (class is Control) <==> (key <= 31 || key == 127),
{
    if key <= LAST_LOW_CONTROL || key == DELETE_KEY {
        KeyClass::Control
    } else {
        KeyClass::Printable
    }
}

/// The character of a decimal digit.
fn digit(value: u8) -> (ch: char)
    requires
        value < 10,
    ensures
        ch == digit_char(value as nat),
{
    (value + 48) as char
}

/// Appends a byte's value in decimal to a line.
fn push_decimal(line: &mut String, value: u8)
    ensures
        final(line)@ == old(line)@ + decimal(value as nat),
{
    proof {
        reveal_with_fuel(decimal, 3);
    }
    if value >= 100 {
        line.push(digit(value / 100));
    }
    if value >= 10 {
        line.push(digit((value / 10) % 10));
    }
    line.push(digit(value % 10));
    assert(line@ =~= old(line)@ + decimal(value as nat));
}

/// Interprets one key byte.
///
/// The report holds the byte's class, the line to write for it and the signal
/// to the session, which is `Terminate` for the quit key and for no other.
/// Each byte is taken by itself: no byte changes what the next one means.
pub fn editor_process_key(key: u8) -> (report: KeyReport)
    ensures
        report.class == key_class(key),
        report.line@ == key_line(key),
        report.signal == key_signal(key),
        (report.class is Control) <==> (key <= 31 || key == 127),
        (report.signal is Terminate) <==> key == 17,
{
    let class = classify(key);
    let mut line = String::new();
    push_decimal(&mut line, key);
    match class {
        KeyClass::Control => {},
        KeyClass::Printable => {
            line.push(',');
            line.push(' ');
            line.push(key as char);
        },
    }
    line.push('\r');
    let signal = if key == QUIT_KEY {
        Signal::Terminate
    } else {
        Signal::Continue
    };
    assert(line@ =~= key_line(key));
    KeyReport { class, line, signal }
}

} // verus!
