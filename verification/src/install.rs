use vstd::prelude::*;
use vstd::string::*;
use crate::error::Error;
use crate::names::{default_install_name, names_image, parse_distro_name, sanitized};

verus! {

/// What an installation works on: the image and the name it gets on the host.
pub struct InstallPlan {
    pub image_name: String,
    pub image_tag: String,
    pub install_name: String,
}

/// Works out what `distro` (an image name, with or without a tag) and the
/// install name, where the caller chose one, ask for. Without a chosen name
/// the distribution is named after the image and its tag.
pub fn plan_install(distro: &str, install_name: Option<String>) -> (r: Result<InstallPlan, Error>)
    ensures
        match r {
            Ok(plan) => {
                &&& names_image(distro@, plan.image_name@, plan.image_tag@)
                &&& plan.install_name@ == match install_name {
                    Some(chosen) => chosen@,
                    None => sanitized(plan.image_name@) + seq!['-'] + plan.image_tag@,
                }
            },
            Err(e) => e == Error::InvalidDistroName && forall|n: Seq<char>, t: Seq<char>|
                !names_image(distro@, n, t),
        },
{
    match parse_distro_name(distro) {
        Ok((image_name, image_tag)) => {
            let install_name = match install_name {
                Some(chosen) => chosen,
                None => default_install_name(image_name.as_str(), image_tag.as_str()),
            };
            Ok(InstallPlan { image_name, image_tag, install_name })
        },
        Err(_) => Err(Error::InvalidDistroName),
    }
}

/// The steps of an installation, in the order in which they are taken, and
/// its two ends.
#[derive(Clone, Copy, Debug, PartialEq, Eq, Structural)]
pub enum InstallStep {
    CheckName,
    Package,
    AskCredentials,
    Register,
    CreateUser,
    QueryUid,
    ReadConfiguration,
    Configure,
    Done,
    Failed { cause: Error },
}

/// How one step ended.
#[derive(Clone, Copy, Debug, PartialEq, Eq, Structural)]
pub enum StepOutcome {
    Succeeded,
    /// The name check found the install name registered already.
    NameTaken,
    Failed { cause: Error },
}

/// The step an installation begins with: nothing is touched before the
/// install name is known to be free.
pub open spec fn first_step() -> InstallStep {
    InstallStep::CheckName
}

/// The step after `step` when it succeeded. Without a user the installation
/// asks for no credentials and is done once the distribution is registered.
pub open spec fn following(step: InstallStep, no_user: bool) -> InstallStep {
    match step {
        InstallStep::CheckName => InstallStep::Package,
        InstallStep::Package => if no_user {
            InstallStep::Register
        } else {
            InstallStep::AskCredentials
        },
        InstallStep::AskCredentials => InstallStep::Register,
        InstallStep::Register => if no_user {
            InstallStep::Done
        } else {
            InstallStep::CreateUser
        },
        InstallStep::CreateUser => InstallStep::QueryUid,
        InstallStep::QueryUid => InstallStep::ReadConfiguration,
        InstallStep::ReadConfiguration => InstallStep::Configure,
        InstallStep::Configure => InstallStep::Done,
        InstallStep::Done => step,
        InstallStep::Failed { .. } => step,
    }
}

/// The transition function of an installation: the first failure ends it,
/// with that failure; a taken name ends it before anything is done.
pub open spec fn install_step(step: InstallStep, no_user: bool, outcome: StepOutcome)
    -> InstallStep {
    if step is Done || step is Failed {
        step
    } else {
        match outcome {
            StepOutcome::Succeeded => following(step, no_user),
            StepOutcome::NameTaken => InstallStep::Failed { cause: Error::AlreadyRegistered },
            StepOutcome::Failed { cause } => InstallStep::Failed { cause },
        }
    }
}

/// Moves the installation on by how `step` ended.
pub fn next_install_step(step: InstallStep, no_user: bool, outcome: StepOutcome) -> (next:
    InstallStep)
    ensures
        next == install_step(step, no_user, outcome),
{
    match step {
        InstallStep::Done => step,
        InstallStep::Failed { .. } => step,
        _ => match outcome {
            StepOutcome::NameTaken => InstallStep::Failed { cause: Error::AlreadyRegistered },
            StepOutcome::Failed { cause } => InstallStep::Failed { cause },
            StepOutcome::Succeeded => match step {
                InstallStep::CheckName => InstallStep::Package,
                InstallStep::Package => if no_user {
                    InstallStep::Register
                } else {
                    InstallStep::AskCredentials
                },
                InstallStep::AskCredentials => InstallStep::Register,
                InstallStep::Register => if no_user {
                    InstallStep::Done
                } else {
                    InstallStep::CreateUser
                },
                InstallStep::CreateUser => InstallStep::QueryUid,
                InstallStep::QueryUid => InstallStep::ReadConfiguration,
                InstallStep::ReadConfiguration => InstallStep::Configure,
                InstallStep::Configure => InstallStep::Done,
                _ => step,
            },
        },
    }
}

/// The step after each of `outcomes` was delivered in turn, from `step` on.
pub open spec fn install_run(step: InstallStep, no_user: bool, outcomes: Seq<StepOutcome>)
    -> InstallStep
    decreases outcomes.len(),
{
    if outcomes.len() == 0 {
        step
    } else {
        install_run(install_step(step, no_user, outcomes[0]), no_user, outcomes.drop_first())
    }
}

/// Whether the configure step was taken while `outcomes` were delivered in
/// turn, from `step` on.
pub open spec fn configures(step: InstallStep, no_user: bool, outcomes: Seq<StepOutcome>) -> bool
    decreases outcomes.len(),
{
    if outcomes.len() == 0 {
        false
    } else {
        step is Configure || configures(
            install_step(step, no_user, outcomes[0]),
            no_user,
            outcomes.drop_first(),
        )
    }
}

/// An installation that is over stays as it ended and configures nothing.
pub proof fn ended_install_is_final(step: InstallStep, no_user: bool, outcomes: Seq<StepOutcome>)
    requires
        step is Done || step is Failed,
    ensures
        install_run(step, no_user, outcomes) == step,
        !configures(step, no_user, outcomes),
    decreases outcomes.len(),
{
    if outcomes.len() > 0 {
        ended_install_is_final(step, no_user, outcomes.drop_first());
    }
}

/// A step before the configure step that does not succeed ends the
/// installation with its failure, and the default user is never configured,
/// whatever is delivered afterwards. So a user whose provisioning fails is
/// never made the default user.
pub proof fn failure_prevents_configuration(
    step: InstallStep,
    no_user: bool,
    outcome: StepOutcome,
    rest: Seq<StepOutcome>,
)
    requires
        !(step is Done || step is Failed || step is Configure),
        !(outcome is Succeeded),
    ensures
        install_step(step, no_user, outcome) is Failed,
        outcome matches StepOutcome::Failed { cause } ==> install_run(
            step,
            no_user,
            seq![outcome] + rest,
        ) == (InstallStep::Failed { cause }),
        outcome is NameTaken ==> install_run(step, no_user, seq![outcome] + rest) == (
        InstallStep::Failed { cause: Error::AlreadyRegistered }),
        !configures(step, no_user, seq![outcome] + rest),
{
    let all = seq![outcome] + rest;
    assert(all[0] == outcome);
    assert(all.drop_first() =~= rest);
    ended_install_is_final(install_step(step, no_user, outcome), no_user, rest);
}

/// An installation without a user never configures a default user,
/// whatever its steps come to.
pub proof fn no_user_never_configures(step: InstallStep, outcomes: Seq<StepOutcome>)
    requires
        step is CheckName || step is Package || step is Register || step is Done
            || step is Failed,
    ensures
        !configures(step, true, outcomes),
    decreases outcomes.len(),
{
    if outcomes.len() > 0 {
        no_user_never_configures(install_step(step, true, outcomes[0]), outcomes.drop_first());
    }
}

/// Whether `distro` is among the installed distributions.
pub fn is_installed(installed: &Vec<String>, distro: &str) -> (found: bool)
    ensures
        found == exists|i: int| 0 <= i < installed@.len() && (#[trigger] installed@[i])@ == distro@,
{
    let wanted = distro.to_owned();
    let mut i: usize = 0;
    while i < installed.len()
        invariant
            0 <= i <= installed@.len(),
            wanted@ == distro@,
            forall|j: int| 0 <= j < i ==> (#[trigger] installed@[j])@ != distro@,
        decreases installed@.len() - i,
    {
        if installed[i].eq(&wanted) {
            return true;
        }
        i = i + 1;
    }
    false
}

/// What an uninstall request comes to.
#[derive(Clone, Copy, Debug, PartialEq, Eq, Structural)]
pub enum UninstallDecision {
    /// The distribution is not installed: refuse with `NotInstalled`.
    Refuse,
    /// Ask the user to confirm first; unregister only on a yes.
    Confirm,
    /// Unregister without asking.
    Unregister,
}

/// Decides an uninstall request: a distribution that is not installed is
/// refused; an installed one is removed at once where `yes` was given, and
/// after a confirmation otherwise.
pub fn decide_uninstall(installed: &Vec<String>, distro: &str, yes: bool) -> (d: UninstallDecision)
    ensures
        d == if !(exists|i: int|
            0 <= i < installed@.len() && (#[trigger] installed@[i])@ == distro@) {
            UninstallDecision::Refuse
        } else if yes {
            UninstallDecision::Unregister
        } else {
            UninstallDecision::Confirm
        },
{
    if !is_installed(installed, distro) {
        UninstallDecision::Refuse
    } else if yes {
        UninstallDecision::Unregister
    } else {
        UninstallDecision::Confirm
    }
}

/// How far a step is along the way that every installation takes.
pub open spec fn install_rank(step: InstallStep) -> nat {
    match step {
        InstallStep::CheckName => 0,
        InstallStep::Package => 1,
        InstallStep::AskCredentials => 2,
        InstallStep::Register => 3,
        InstallStep::CreateUser => 4,
        InstallStep::QueryUid => 5,
        InstallStep::ReadConfiguration => 6,
        InstallStep::Configure => 7,
        InstallStep::Done => 8,
        InstallStep::Failed { .. } => 8,
    }
}

/// Every outcome takes an unfinished installation further along its way, so
/// that no installation takes more than eight steps.
pub proof fn install_step_advances(step: InstallStep, no_user: bool, outcome: StepOutcome)
    requires
        !(step is Done || step is Failed),
    ensures
        install_rank(step) < install_rank(install_step(step, no_user, outcome)) <= 8,
{
}

/// Delivering one more outcome is one more step.
pub proof fn install_run_one_more(
    step: InstallStep,
    no_user: bool,
    outcomes: Seq<StepOutcome>,
    outcome: StepOutcome,
)
    ensures
        install_run(step, no_user, outcomes.push(outcome)) == install_step(
            install_run(step, no_user, outcomes),
            no_user,
            outcome,
        ),
    decreases outcomes.len(),
{
    let longer = outcomes.push(outcome);
    if outcomes.len() == 0 {
        assert(longer.drop_first() =~= outcomes);
        assert(install_run(install_step(step, no_user, longer[0]), no_user, longer.drop_first())
            == install_step(step, no_user, outcome));
    } else {
        assert(longer.drop_first() =~= outcomes.drop_first().push(outcome));
        install_run_one_more(
            install_step(step, no_user, outcomes[0]),
            no_user,
            outcomes.drop_first(),
            outcome,
        );
    }
}

/// `outcomes` are what `perform` returned, in turn, for the steps of an
/// installation: each outcome is one that `perform` may return for the step
/// that the outcomes before it led to.
pub open spec fn carried_out<F: Fn(InstallStep) -> StepOutcome>(
    perform: F,
    no_user: bool,
    outcomes: Seq<StepOutcome>,
) -> bool
    decreases outcomes.len(),
{
    outcomes.len() == 0 || {
        let before = outcomes.drop_last();
        &&& carried_out(perform, no_user, before)
        &&& perform.ensures((install_run(first_step(), no_user, before),), outcomes.last())
    }
}

/// Installs a distribution, handing each step to `perform` and going by what
/// it returns: the name check first, and no step after one that did not
/// succeed. The result is that of the installation which those outcomes make.
pub fn install<F: Fn(InstallStep) -> StepOutcome>(perform: F, no_user: bool) -> (r: Result<
    (),
    Error,
>)
    requires
        forall|step: InstallStep| perform.requires((step,)),
    ensures
        exists|outcomes: Seq<StepOutcome>|
            #[trigger] carried_out(perform, no_user, outcomes) && install_run(
                first_step(),
                no_user,
                outcomes,
            ) == match r {
                Ok(()) => InstallStep::Done,
                Err(cause) => InstallStep::Failed { cause },
            },
{
    let mut step = InstallStep::CheckName;
    let ghost mut seen: Seq<StepOutcome> = Seq::empty();
    loop
        invariant
            forall|step: InstallStep| perform.requires((step,)),
            step == install_run(first_step(), no_user, seen),
            carried_out(perform, no_user, seen),
        ensures
            step is Done || step is Failed,
        decreases 8 - install_rank(step),
    {
        match step {
            InstallStep::Done => {
                break ;
            },
            InstallStep::Failed { .. } => {
                break ;
            },
            _ => {
                let outcome = perform(step);
                proof {
                    let longer = seen.push(outcome);
                    install_step_advances(step, no_user, outcome);
                    install_run_one_more(first_step(), no_user, seen, outcome);
                    assert(longer.drop_last() =~= seen);
                    assert(longer.last() == outcome);
                    seen = longer;
                }
                step = next_install_step(step, no_user, outcome);
            },
        }
    }
    match step {
        InstallStep::Done => Ok(()),
        InstallStep::Failed { cause } => Err(cause),
        _ => vstd::pervasive::unreached(),
    }
}

} // verus!
