use vstd::prelude::*;

use qrcodegen::{DataTooLong, QrCode, QrCodeEcc};

use crate::grid::{is_square, ModuleGrid};
use crate::path::{render, render_squares};
use crate::text::path_text;

verus! {

/// Padding, in modules, kept around the symbol on every side.
pub const BORDER: usize = 4;

#[verifier::external_type_specification]
#[verifier::external_body]
pub struct ExDataTooLong(DataTooLong);

/// The module grid that qrcodegen encodes `text` into at the low error
/// correction level, or `None` where the text does not fit any version.
pub uninterp spec fn qr_symbol_low(text: Seq<char>) -> Option<Seq<Seq<bool>>>;

/// Relies on qrcodegen's `QrCode::encode_text` at `QrCodeEcc::Low`, read back
/// through `QrCode::size` and `QrCode::get_module`: the result depends on the
/// text alone, its side lies between 21 and 177, and any text of at most 738
/// code points fits.
#[verifier::external_body]
fn encode_low(text: &str) -> (r: Result<Vec<Vec<bool>>, DataTooLong>)
    ensures
        match r {
            Ok(rows) => qr_symbol_low(text@) == Some(rows.deep_view()),
            Err(_) => qr_symbol_low(text@) is None,
        },
        r matches Ok(rows) ==> 21 <= rows@.len() <= 177 && is_square(rows.deep_view()),
        text@.len() <= 738 ==> r is Ok,
{
    let qr = QrCode::encode_text(text, QrCodeEcc::Low)?;
    let n = qr.size();
    Ok((0..n).map(|y| (0..n).map(|x| qr.get_module(x, y)).collect()).collect())
}

/// Why a text could not become a symbol.
#[derive(Debug, Clone, Copy, PartialEq, Eq, Structural)]
pub enum EncodeError {
    /// The text is longer than the largest symbol holds at the low
    /// error correction level.
    CapacityExceeded,
}

/// What `encode` gives for a text whose view is `text`.
pub open spec fn encode_outcome(text: Seq<char>) -> Result<Seq<Seq<bool>>, EncodeError> {
    match qr_symbol_low(text) {
        Some(g) => Ok(g),
        None => Err(EncodeError::CapacityExceeded),
    }
}

/// Encodes `text` as a QR symbol at the low error correction level.
pub fn encode(text: &str) -> (r: Result<ModuleGrid, EncodeError>)
    ensures
        match r {
            Ok(g) => encode_outcome(text@) == Ok::<Seq<Seq<bool>>, EncodeError>(g@) && g.wf()
                && 21 <= g@.len() <= 177,
            Err(e) => encode_outcome(text@) == Err::<Seq<Seq<bool>>, EncodeError>(e),
        },
        text@.len() <= 738 ==> r is Ok,
{
    match encode_low(text) {
        Ok(rows) => {
            match ModuleGrid::from_rows(rows) {
                Some(g) => Ok(g),
                None => {
                    assert(false);
                    Err(EncodeError::CapacityExceeded)
                },
            }
        },
        Err(_) => Err(EncodeError::CapacityExceeded),
    }
}

/// The path data that `text_2_qr_string` gives for a text whose view is `text`.
pub open spec fn qr_path_text(text: Seq<char>) -> Result<Seq<char>, EncodeError> {
    match qr_symbol_low(text) {
        Some(g) => Ok(path_text(render_squares(g, BORDER as int))),
        None => Err(EncodeError::CapacityExceeded),
    }
}

/// Encodes `text` at the low error correction level and gives the path data
/// of its dark modules, with a border of four modules.
pub fn text_2_qr_string(text: &str) -> (r: Result<String, EncodeError>)
    ensures
        match r {
            Ok(s) => qr_path_text(text@) == Ok::<Seq<char>, EncodeError>(s@),
            Err(e) => qr_path_text(text@) == Err::<Seq<char>, EncodeError>(e),
        },
        text@.len() <= 738 ==> r is Ok,
{
    match encode(text) {
        Ok(grid) => Ok(render(&grid, BORDER).data()),
        Err(e) => Err(e),
    }
}

} // verus!
