//! Primitive edits and the character codes that stand for them on the wire.
use ascii::AsciiChar;
use vstd::prelude::*;

verus! {

/// One unit of change that the remote display can apply.
#[derive(Clone, Copy, Debug, PartialEq, Eq, Structural)]
pub enum PrimitiveEdit {
    /// Append one character at the end.
    Append(char),
    /// Remove the last character.
    Backspace,
    /// Remove every character.
    Clear,
}

/// The ASCII control characters that the wire protocol uses.
#[derive(Clone, Copy, Debug, PartialEq, Eq, Structural)]
pub enum Control {
    /// The pulse sent between two equal codes.
    Null,
    /// Stands for `PrimitiveEdit::Backspace`.
    BackSpace,
    /// Stands for `PrimitiveEdit::Clear`.
    LineFeed,
}

/// Code of the null pulse.
pub const NULL_CODE: u32 = 0;

/// Code of a backspace.
pub const BACKSPACE_CODE: u32 = 8;

/// Code of a clear (line feed).
pub const CLEAR_CODE: u32 = 10;

/// The character code of a control character.
pub open spec fn control_code(k: Control) -> u32 {
    match k {
        Control::Null => NULL_CODE,
        Control::BackSpace => BACKSPACE_CODE,
        Control::LineFeed => CLEAR_CODE,
    }
}

/// Relies on `ascii::AsciiChar::as_char`, which turns an ASCII character
/// into the `char` of the same code.
#[verifier::external_body]
fn control_char(k: Control) -> (r: char)
    ensures
        r as u32 == control_code(k),
{
    match k {
        Control::Null => AsciiChar::Null,
        Control::BackSpace => AsciiChar::BackSpace,
        Control::LineFeed => AsciiChar::LineFeed,
    }.as_char()
}

/// The integer code that carries an edit on the wire.
pub open spec fn code_of(e: PrimitiveEdit) -> u32 {
    match e {
        PrimitiveEdit::Append(c) => c as u32,
        PrimitiveEdit::Backspace => BACKSPACE_CODE,
        PrimitiveEdit::Clear => CLEAR_CODE,
    }
}

/// The code of a control character.
pub fn control_to_code(k: Control) -> (r: u32)
    ensures
        r == control_code(k),
{
    control_char(k) as u32
}

/// The integer code that carries `e` on the wire: a character's own code for
/// an append, the backspace code for a backspace, the line feed for a clear.
pub fn edit_code(e: PrimitiveEdit) -> (r: u32)
    ensures
        r == code_of(e),
{
    match e {
        PrimitiveEdit::Append(c) => c as u32,
        PrimitiveEdit::Backspace => control_to_code(Control::BackSpace),
        PrimitiveEdit::Clear => control_to_code(Control::LineFeed),
    }
}

} // verus!
