use vstd::prelude::*;
use jni::errors::Error as JniError;

verus! {

#[verifier::external_type_specification]
#[verifier::external_body]
pub struct ExJniError(JniError);

/// The single failure kind of this library: a call into the foreign runtime
/// failed. The runtime's own error is kept as the cause.
#[derive(Debug)]
pub enum Error {
    Jni(JniError),
}

/// The result of every binding operation.
pub type PdfResult<T> = Result<T, Error>;

/// Turns the runtime's error into this library's error.
pub fn from_jni(e: JniError) -> (r: Error)
    ensures
        r == Error::Jni(e),
{
    Error::Jni(e)
}

} // verus!
