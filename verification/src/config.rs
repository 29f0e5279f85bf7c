use vstd::prelude::*;
use vstd::utf8::{decode_utf8, valid_utf8};
use crate::error::{Error, Operation};
use crate::provision::Outcome;
use crate::text::{lossy_text, text_from_utf8_lossy};

verus! {

/// What the host keeps of one distribution, read and written as a whole.
/// The flags are the host's bit set, kept as the number it hands out.
#[derive(Clone, Debug)]
pub struct DistributionConfiguration {
    pub distribution_version: u32,
    pub default_uid: u32,
    pub wsl_distribution_flags: u32,
    pub default_environment_variables: Vec<String>,
}

/// A configuration as plain values.
pub struct ConfigurationView {
    pub version: u32,
    pub default_uid: u32,
    pub flags: u32,
    pub environment: Seq<Seq<char>>,
}

impl View for DistributionConfiguration {
    type V = ConfigurationView;

    open spec fn view(&self) -> ConfigurationView {
        ConfigurationView {
            version: self.distribution_version,
            default_uid: self.default_uid,
            flags: self.wsl_distribution_flags,
            environment: self.default_environment_variables@.map_values(|v: String| v@),
        }
    }
}

/// What the host is asked to set on a distribution: the two values that its
/// configure entry point takes.
#[derive(Clone, Copy, Debug, PartialEq, Eq, Structural)]
pub struct ConfigureRequest {
    pub default_uid: u32,
    pub flags: u32,
}

/// The configuration that `request` asks for on a distribution that has
/// `current`: user id and flags are replaced, version and environment are not
/// part of a request and stay.
pub open spec fn requested(current: ConfigurationView, request: ConfigureRequest)
    -> ConfigurationView {
    ConfigurationView {
        version: current.version,
        default_uid: request.default_uid,
        flags: request.flags,
        environment: current.environment,
    }
}

/// The low 32 bits of a user id, which is what the host can store of it.
pub fn low_u32(uid: u64) -> (low: u32)
    ensures
        low == uid % 0x1_0000_0000,
{
    (uid % 0x1_0000_0000) as u32
}

impl DistributionConfiguration {
    /// The request that makes `uid` the default user and hands every flag
    /// back as it was read.
    pub fn with_default_uid(&self, uid: u64) -> (request: ConfigureRequest)
        ensures
            request.flags == self.wsl_distribution_flags,
            request.default_uid == uid % 0x1_0000_0000,
            requested(self@, request).flags == self@.flags,
            requested(self@, request).environment == self@.environment,
            requested(self@, request).version == self@.version,
    {
        ConfigureRequest { default_uid: low_u32(uid), flags: self.wsl_distribution_flags }
    }
}

/// Reading a configuration and writing it back with the user id that was
/// read asks the host for exactly the configuration it already has: flags and
/// environment come back unchanged.
pub proof fn unchanged_uid_changes_nothing(current: DistributionConfiguration)
    ensures
        requested(
            current@,
            (ConfigureRequest {
                default_uid: (current.default_uid as u64 % 0x1_0000_0000) as u32,
                flags: current.wsl_distribution_flags,
            }),
        ) == current@,
{
}

/// Whether a host status code reports success: the codes that do are the
/// non-negative ones, zero among them.
pub open spec fn succeeded(status_code: i32) -> bool {
    status_code >= 0
}

/// Turns the status code that `operation` returned into a result.
pub fn check_status(operation: Operation, status_code: i32) -> (r: Result<(), Error>)
    ensures
        succeeded(status_code) ==> r is Ok,
        !succeeded(status_code) ==> r == Err::<(), Error>(
            Error::Platform { operation, status_code },
        ),
{
    if status_code >= 0 {
        Ok(())
    } else {
        Err(Error::Platform { operation, status_code })
    }
}

/// What reading a configuration from the host comes to. A failing status is
/// the error of the read, whatever else was handed over. Otherwise the values
/// are taken as they are and each environment variable, which the host hands
/// over as bytes, becomes text, in the host's order; a variable that is valid
/// UTF-8 becomes exactly the text that it encodes.
pub fn configuration_from_host(
    status_code: i32,
    distribution_version: u32,
    default_uid: u32,
    wsl_distribution_flags: u32,
    raw_environment: &Vec<Vec<u8>>,
) -> (r: Result<DistributionConfiguration, Error>)
    ensures
        match r {
            Ok(conf) => {
                &&& succeeded(status_code)
                &&& conf@.version == distribution_version
                &&& conf@.default_uid == default_uid
                &&& conf@.flags == wsl_distribution_flags
                &&& conf@.environment == raw_environment@.map_values(
                    |raw: Vec<u8>| lossy_text(raw@),
                )
                &&& forall|i: int|
                    0 <= i < raw_environment@.len() && valid_utf8(raw_environment@[i]@)
                        ==> #[trigger] conf@.environment[i] == decode_utf8(raw_environment@[i]@)
            },
            Err(e) => !succeeded(status_code) && e == (Error::Platform {
                operation: Operation::GetConfiguration,
                status_code,
            }),
        },
{
    if status_code < 0 {
        return Err(Error::Platform { operation: Operation::GetConfiguration, status_code });
    }
    let mut environment: Vec<String> = Vec::new();
    let mut i: usize = 0;
    while i < raw_environment.len()
        invariant
            0 <= i <= raw_environment@.len(),
            environment@.len() == i,
            forall|j: int|
                0 <= j < i ==> (#[trigger] environment@[j])@ == lossy_text(raw_environment@[j]@),
            forall|j: int|
                0 <= j < i && valid_utf8(raw_environment@[j]@) ==> (#[trigger] environment@[j])@
                    == decode_utf8(raw_environment@[j]@),
        decreases raw_environment@.len() - i,
    {
        environment.push(text_from_utf8_lossy(&raw_environment[i]));
        i = i + 1;
    }
    let conf = DistributionConfiguration {
        distribution_version,
        default_uid,
        wsl_distribution_flags,
        default_environment_variables: environment,
    };
    assert(conf@.environment =~= raw_environment@.map_values(|raw: Vec<u8>| lossy_text(raw@)));
    Ok(conf)
}

/// What a launch inside the guest came to: the guest's exit code where the
/// host ran the command, whatever the code; the host's status where it did not.
pub fn launch_outcome(status_code: i32, exit_code: u32) -> (outcome: Outcome)
    ensures
        succeeded(status_code) ==> outcome == (Outcome::Exited { code: exit_code }),
        !succeeded(status_code) ==> outcome == (Outcome::HostFailed { status_code }),
{
    if status_code >= 0 {
        Outcome::Exited { code: exit_code }
    } else {
        Outcome::HostFailed { status_code }
    }
}

/// The result of a launch as the caller of the binding sees it: the exit
/// code, or the host's failure.
pub fn launch_result(outcome: Outcome) -> (r: Result<u32, Error>)
    ensures
        r == match outcome {
            Outcome::Exited { code } => Ok::<u32, Error>(code),
            Outcome::HostFailed { status_code } => Err::<u32, Error>(
                Error::Platform { operation: Operation::LaunchInteractive, status_code },
            ),
        },
{
    match outcome {
        Outcome::Exited { code } => Ok(code),
        Outcome::HostFailed { status_code } => Err(
            Error::Platform { operation: Operation::LaunchInteractive, status_code },
        ),
    }
}

} // verus!
