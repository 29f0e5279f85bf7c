use vstd::prelude::*;

verus! {

/// The host entry point whose call reported a failure.
#[derive(Clone, Copy, Debug, PartialEq, Eq, Structural)]
pub enum Operation {
    Configure,
    GetConfiguration,
    LaunchInteractive,
    Unregister,
}

/// The helper program run whose failure ended a pipeline.
#[derive(Clone, Copy, Debug, PartialEq, Eq, Structural)]
pub enum Stage {
    Pull,
    Create,
    Export,
    Persist,
    Import,
    QueryUid,
}

/// The in-guest step of user provisioning that a failure belongs to.
#[derive(Clone, Copy, Debug, PartialEq, Eq, Structural)]
pub enum GuestStep {
    ProbeShell,
    CreateAccount,
    SetRootPassword,
    SetUserPassword,
    JoinWheel,
    JoinSudo,
}

/// Everything that can go wrong while a distribution is provisioned.
#[derive(Clone, Copy, Debug, PartialEq, Eq, Structural)]
pub enum Error {
    /// A host entry point returned a failing status code.
    Platform { operation: Operation, status_code: i32 },
    /// A helper program could not be started or exited with failure.
    ExternalTool { stage: Stage },
    /// A command inside the guest exited with a nonzero code.
    GuestCommand { step: GuestStep, exit_code: u32 },
    /// The requested install name is already taken on the host.
    AlreadyRegistered,
    /// The distribution to remove is not installed.
    NotInstalled,
    /// The text is not an image name with an optional tag.
    InvalidDistroName,
    /// Output of a helper program could not be decoded.
    InvalidOutput,
    /// The operating system refused something: a file, a directory, a prompt.
    Io,
}

} // verus!
