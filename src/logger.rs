use vstd::prelude::*;

verus! {

/// Relies on log::SetLoggerError: the error that log hands back when a
/// process-wide logger is already installed. Carried through, never read.
#[verifier::external_type_specification]
#[verifier::external_body]
pub struct ExSetLoggerError(log::SetLoggerError);

/// Relies on simple_logger::init: installs a SimpleLogger at its default
/// configuration (every level, timestamps, colours) as the process-wide logger
/// through log::set_boxed_logger, which fails where one is already installed. Whether it
/// succeeds depends on the state of the process, so nothing is promised.
pub assume_specification[ simple_logger::init ]() -> (r: Result<(), log::SetLoggerError>);

/// Why installing the logger failed.
#[derive(Clone, Copy, Debug, PartialEq, Eq, Structural)]
pub enum InstallError {
    /// The process already has a logger; a process gets at most one.
    AlreadyInstalled,
}

/// Installs the process-wide logger at its default configuration.
pub fn install_logger() -> (r: Result<(), InstallError>) {
    match simple_logger::init() {
        Ok(()) => Ok(()),
        Err(_) => Err(InstallError::AlreadyInstalled),
    }
}

} // verus!
