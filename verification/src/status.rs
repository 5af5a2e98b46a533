//! The text of the status line.

use vstd::prelude::*;
use vstd::string::*;
use byte_unit::{Byte, UnitType};
use crate::decimal::{decimal, decimal_string, lemma_decimal_single_line};

verus! {

/// How the status line words the buffer's size.
#[derive(Clone, Copy, Debug, PartialEq, Eq, Structural)]
pub enum StatusStyle {
    /// The byte count alone.
    Plain,
    /// The byte count, then its magnitude in binary units in parentheses.
    WithMagnitude,
}

/// What `byte_unit` prints for a byte count adjusted to the fitting binary
/// unit, with two fractional digits.
pub uninterp spec fn binary_magnitude(bytes: u64) -> Seq<char>;

/// `byte_unit::Byte::from_u64`, `Byte::get_appropriate_unit` with
/// `UnitType::Binary`, and the `Display` of the resulting `AdjustedByte` at
/// precision two. Claimed of them: the text is a function of the byte count
/// alone. Nothing is claimed about what the text holds.
#[verifier::external_body]
fn binary_magnitude_text(bytes: u64) -> (text: String)
    ensures
        text@ == binary_magnitude(bytes),
{
    format!("{:.2}", Byte::from_u64(bytes).get_appropriate_unit(UnitType::Binary))
}

/// A text without a line break.
pub open spec fn single_line(text: Seq<char>) -> bool {
    !text.contains('\n')
}

/// The status line that gives the byte count alone.
pub open spec fn plain_status(length: nat) -> Seq<char> {
    "Buffer: "@ + decimal(length) + " bytes"@
}

/// The status line that adds a magnitude. A magnitude that would break the
/// line is left out.
pub open spec fn status_with_magnitude(length: nat, magnitude: Seq<char>) -> Seq<char> {
    if single_line(magnitude) {
        plain_status(length) + " ("@ + magnitude + ")"@
    } else {
        plain_status(length)
    }
}

/// The status line for a buffer of `length` bytes in the given style.
pub open spec fn status_text(style: StatusStyle, length: nat) -> Seq<char> {
    match style {
        StatusStyle::Plain => plain_status(length),
        StatusStyle::WithMagnitude => status_with_magnitude(
            length,
            binary_magnitude(length as u64),
        ),
    }
}

/// Whether `text` holds no line break.
pub fn is_single_line(text: &str) -> (answer: bool)
    ensures
        answer == single_line(text@),
{
    let count = text.unicode_len();
    let mut index: usize = 0;
    while index < count
        invariant
            count == text@.len(),
            index <= count,
            forall|i: int| 0 <= i < index ==> text@[i] != '\n',
        decreases count - index,
    {
        if text.get_char(index) == '\n' {
            return false;
        }
        index += 1;
    }
    true
}

/// `Buffer: <length> bytes`.
pub fn plain_status_line(length: usize) -> (text: String)
    ensures
        text@ == plain_status(length as nat),
{
    let mut text = String::from_str("Buffer: ");
    let count = decimal_string(length);
    text.append(count.as_str());
    text.append(" bytes");
    text
}

/// `Buffer: <length> bytes (<magnitude>)`, or the plain line where the
/// magnitude holds a line break.
pub fn status_line_with_magnitude(length: usize, magnitude: &str) -> (text: String)
    ensures
        text@ == status_with_magnitude(length as nat, magnitude@),
{
    let mut text = plain_status_line(length);
    if is_single_line(magnitude) {
        text.append(" (");
        text.append(magnitude);
        text.append(")");
    }
    text
}

/// The status line for a buffer of `length` bytes.
pub fn status_line(style: StatusStyle, length: usize) -> (text: String)
    ensures
        text@ == status_text(style, length as nat),
{
    match style {
        StatusStyle::Plain => plain_status_line(length),
        StatusStyle::WithMagnitude => {
            let magnitude = binary_magnitude_text(length as u64);
            status_line_with_magnitude(length, magnitude.as_str())
        },
    }
}

/// The plain status line holds no line break.
pub proof fn lemma_plain_status_single_line(length: nat)
    ensures
        single_line(plain_status(length)),
{
    reveal_strlit("Buffer: ");
    reveal_strlit(" bytes");
    lemma_decimal_single_line(length);
    let head = "Buffer: "@;
    let tail = " bytes"@;
    let text = plain_status(length);
    if text.contains('\n') {
        let i = choose|i: int| 0 <= i < text.len() && text[i] == '\n';
        if i < head.len() {
            assert(text[i] == head[i]);
        } else if i < head.len() + decimal(length).len() {
            assert(text[i] == decimal(length)[i - head.len()]);
            assert(decimal(length).contains('\n'));
        } else {
            assert(text[i] == tail[i - head.len() - decimal(length).len()]);
        }
    }
}

/// The status line with a magnitude holds no line break, whatever the
/// magnitude is.
pub proof fn lemma_status_with_magnitude_single_line(length: nat, magnitude: Seq<char>)
    ensures
        single_line(status_with_magnitude(length, magnitude)),
{
    reveal_strlit(" (");
    reveal_strlit(")");
    lemma_plain_status_single_line(length);
    let plain = plain_status(length);
    let open = " ("@;
    let text = status_with_magnitude(length, magnitude);
    if single_line(magnitude) && text.contains('\n') {
        let i = choose|i: int| 0 <= i < text.len() && text[i] == '\n';
        if i < plain.len() {
            assert(text[i] == plain[i]);
            assert(plain.contains('\n'));
        } else if i < plain.len() + open.len() {
            assert(text[i] == open[i - plain.len()]);
        } else if i < plain.len() + open.len() + magnitude.len() {
            assert(text[i] == magnitude[i - plain.len() - open.len()]);
            assert(magnitude.contains('\n'));
        } else {
            assert(text[i] == ")"@[i - plain.len() - open.len() - magnitude.len()]);
        }
    }
}

/// No status line holds a line break: repainting it never scrolls the
/// terminal.
pub proof fn lemma_status_single_line(style: StatusStyle, length: nat)
    ensures
        single_line(status_text(style, length)),
{
    lemma_plain_status_single_line(length);
    lemma_status_with_magnitude_single_line(length, binary_magnitude(length as u64));
}

/// Every status line opens with the plain line, and so reports the byte count
/// it was made for.
pub proof fn lemma_status_reports_length(style: StatusStyle, length: nat)
    ensures
        plain_status(length).is_prefix_of(status_text(style, length)),
{
    let plain = plain_status(length);
    let text = status_text(style, length);
    assert(text.subrange(0, plain.len() as int) =~= plain);
}

} // verus!
