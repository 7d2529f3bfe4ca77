//! `std::io::Error` as the library sees it: an opaque value with a kind and a text.

use vstd::prelude::*;

verus! {

#[verifier::external_type_specification]
#[verifier::external_body]
pub struct ExIoError(std::io::Error);

/// The text that an I/O error displays.
pub uninterp spec fn io_error_text(error: std::io::Error) -> Seq<char>;

/// Whether an I/O error is of the kind `std::io::ErrorKind::Other`.
pub uninterp spec fn io_error_is_other(error: std::io::Error) -> bool;

/// Calls `std::io::Error::new` with `ErrorKind::Other` and `message` as the payload.
/// The error that comes back has that kind and displays exactly `message`.
#[verifier::external_body]
pub(crate) fn other_io_error(message: String) -> (error: std::io::Error)
    ensures
        io_error_is_other(error),
        io_error_text(error) == message@,
{
    std::io::Error::new(std::io::ErrorKind::Other, message)
}

/// Calls `to_string` on an I/O error: the text that it displays.
#[verifier::external_body]
pub(crate) fn io_error_to_string(error: &std::io::Error) -> (text: String)
    ensures
        text@ == io_error_text(*error),
{
    error.to_string()
}

} // verus!
