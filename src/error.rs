use vstd::prelude::*;

verus! {

/// An error that occurred when generating CodeView data.
///
/// `WriteErrorType` is the error type of the sink that was written to.
#[derive(Debug)]
pub enum Error<WriteErrorType> {
    /// The sink reported an error, handed on as it came.
    WriteError(WriteErrorType),
    /// A count or a computed length does not fit its field's width.
    IntError(std::num::TryFromIntError),
    /// A string field holds a NUL byte; the offending string is carried.
    StringError(String),
    /// A subsection kind that cannot be emitted was scheduled.
    UnsupportedSubsection,
}

/// Wraps a sink error into an `Error`, leaving a success as it is.
pub(crate) fn wu<T, W>(result: Result<T, W>) -> (r: Result<T, Error<W>>)
    ensures
        match result {
            Ok(v) => r == Ok::<T, Error<W>>(v),
            Err(e) => r == Err::<T, Error<W>>(Error::WriteError(e)),
        },
{
    match result {
        Ok(v) => Ok(v),
        Err(e) => Err(Error::WriteError(e)),
    }
}

} // verus!
