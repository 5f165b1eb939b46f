use vstd::prelude::*;

use crate::service::ParseRawError;

verus! {

/// Indicates an invalid nul value was found when converting a string to a nul-terminated wide
/// string. This error holds the position of the nul value, as well as the faulty string.
#[derive(Debug, Clone, PartialEq, Eq)]
pub struct NulError(pub usize, pub Option<Vec<u16>>);

impl NulError {
    /// Returns the position of the nul value in the string that was checked.
    pub fn nul_position(&self) -> (r: usize)
        ensures
            r == self.0,
    {
        self.0
    }

    /// Consumes this error, returning the string that held the nul value.
    pub fn into_vec(self) -> (r: Option<Vec<u16>>)
        ensures
            r == self.1,
    {
        self.1
    }
}

/// The errors of the library.
#[derive(Debug, Clone, PartialEq, Eq)]
pub enum Error {
    /// Invalid account name.
    InvalidAccountName(NulError),
    /// Invalid account password.
    InvalidAccountPassword(NulError),
    /// Invalid display name.
    InvalidDisplayName(NulError),
    /// Invalid database name.
    InvalidDatabaseName(NulError),
    /// Invalid executable path.
    InvalidExecutablePath(NulError),
    /// Invalid launch argument, at the given index.
    InvalidLaunchArgument(usize, NulError),
    /// Launch arguments are not supported for drivers.
    LaunchArgumentsNotSupported,
    /// Invalid dependency name.
    InvalidDependency(NulError),
    /// Invalid machine name.
    InvalidMachineName(NulError),
    /// Invalid service name.
    InvalidServiceName(NulError),
    /// Invalid start argument.
    InvalidStartArgument(NulError),
    /// Invalid raw representation of a service state.
    InvalidServiceState(ParseRawError),
    /// Invalid raw representation of a service start type.
    InvalidServiceStartType(ParseRawError),
    /// Invalid raw representation of a service error control.
    InvalidServiceErrorControl(ParseRawError),
    /// Invalid raw representation of a service action type.
    InvalidServiceActionType(ParseRawError),
    /// Invalid reboot message of the failure actions.
    InvalidServiceActionFailuresRebootMessage(NulError),
    /// Invalid command of the failure actions.
    InvalidServiceActionFailuresCommand(NulError),
    /// Invalid service description.
    InvalidServiceDescription(NulError),
    /// A call into the service control manager failed with this system error code.
    Winapi(i32),
}

} // verus!
