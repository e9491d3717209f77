//! Declaration of the outside error type that the error taxonomy carries.

use vstd::prelude::*;

verus! {

/// Relies on std's `io::Error` being an ordinary value that is carried, shown and dropped.
#[verifier::external_type_specification]
#[verifier::external_body]
pub struct ExIoError(std::io::Error);

} // verus!
