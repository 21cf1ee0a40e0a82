use vstd::prelude::*;

verus! {

/// Errors of the high-level codec operations.
#[derive(Debug, Copy, Clone, PartialEq, Eq, Structural)]
#[non_exhaustive]
pub enum Error {
    /// The native engine could not start a codec.
    InitCodec,
    /// The header was read but the destination size could not be computed.
    ComputeSize,
    /// Any other failure of the native engine, with its status code.
    JpegLsError {
        /// The native status code.
        code: i32,
    },
}

impl Error {
    /// The text of the error where it does not depend on the native engine.
    /// A `JpegLsError` has none: its text is the engine's message for its code.
    pub fn description(&self) -> (r: Option<&'static str>)
        ensures
            *self == Error::InitCodec ==> (r matches Some(m) && m@ == "Unable to start the codec"@),
            *self == Error::ComputeSize ==> (r matches Some(m) && m@
                == "Unable to compute decompressed size"@),
            *self is JpegLsError ==> r is None,
    {
        match self {
            Error::InitCodec => Some("Unable to start the codec"),
            Error::ComputeSize => Some("Unable to compute decompressed size"),
            Error::JpegLsError { .. } => None,
        }
    }

    /// The native status code that the error carries, if any.
    pub fn native_code(&self) -> (r: Option<i32>)
        ensures
            r == (match *self {
                Error::JpegLsError { code } => Some(code),
                _ => None,
            }),
    {
        match self {
            Error::JpegLsError { code } => Some(*code),
            _ => None,
        }
    }
}

/// Result of a high-level codec operation.
pub type CharlsResult<T> = Result<T, Error>;

/// The meaning of a native status code: zero is success, anything else a failure.
pub open spec fn status_result(code: i32) -> CharlsResult<()> {
    if code == 0 {
        Ok(())
    } else {
        Err(Error::JpegLsError { code })
    }
}

/// Turns a native status code into a result.
pub fn translate_error(code: i32) -> (r: CharlsResult<()>)
    ensures
        r == status_result(code),
{
    if code != 0 {
        return Err(Error::JpegLsError { code });
    }
    Ok(())
}

} // verus!
