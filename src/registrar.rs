//! Decisions of installing this logger as the process-wide sink.
use vstd::prelude::*;
use crate::record::{admits, Level, LevelFilter};
use crate::signature::{detect, is_signature};
use log::SetLoggerError;

verus! {

#[verifier::external_type_specification]
#[verifier::external_body]
pub struct ExSetLoggerError(log::SetLoggerError);

/// An error occurring during initialization.
#[derive(Debug)]
pub enum Error {
    /// The program is not running in no$gba. The logger was not set, so another one may be.
    NotRunningInNoCashGba,
    /// Installing the logger failed, most often because another logger was already set.
    SetLoggerError(SetLoggerError),
}

impl From<SetLoggerError> for Error {
    fn from(error: SetLoggerError) -> (r: Self)
        ensures
            r == Error::SetLoggerError(error),
    {
        Error::SetLoggerError(error)
    }
}

impl vstd::std_specs::convert::FromSpecImpl<SetLoggerError> for Error {
    open spec fn obeys_from_spec() -> bool {
        true
    }

    open spec fn from_spec(v: SetLoggerError) -> Error {
        Error::SetLoggerError(v)
    }
}

/// What initialization yields once the installation of the sink has answered: on
/// success the threshold to set, which admits every level; on failure that failure.
pub open spec fn install_outcome(installed: Result<(), SetLoggerError>) -> Result<
    LevelFilter,
    Error,
> {
    match installed {
        Ok(()) => Ok(LevelFilter::Trace),
        Err(e) => Err(Error::SetLoggerError(e)),
    }
}

/// First step of initialization: refuses to go on unless the signature read from the
/// emulator is `"no$gba "`. It only looks at its argument, so asking again with the
/// same bytes gives the same answer and changes nothing.
pub fn check_environment(signature: &[u8; 7]) -> (r: Result<(), Error>)
    ensures
        is_signature(signature@) <==> r is Ok,
        !is_signature(signature@) ==> r == Err::<(), Error>(Error::NotRunningInNoCashGba),
{
    if detect(signature) {
        Ok(())
    } else {
        Err(Error::NotRunningInNoCashGba)
    }
}

/// Last step of initialization, given what installing the sink returned: the
/// threshold to set when it was installed, the wrapped failure when it was not.
pub fn finish_install(installed: Result<(), SetLoggerError>) -> (r: Result<LevelFilter, Error>)
    ensures
        r == install_outcome(installed),
{
    match installed {
        Ok(()) => Ok(LevelFilter::Trace),
        Err(e) => Err(Error::from(e)),
    }
}

/// A successful installation sets the threshold to one that admits every level.
pub proof fn lemma_installed_admits_all(level: Level)
    ensures
        install_outcome(Ok(())) is Ok,
        admits(install_outcome(Ok(())).unwrap(), level),
{
}

/// A refused installation is reported as that refusal and sets no threshold.
pub proof fn lemma_refusal_reported(e: SetLoggerError)
    ensures
        install_outcome(Err(e)) == Err::<LevelFilter, Error>(Error::SetLoggerError(e)),
{
}

} // verus!
