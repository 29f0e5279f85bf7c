use vstd::prelude::*;
use vstd::string::*;
use crate::commands::{
    chpasswd_command, chpasswd_text, join_group_command, join_group_text, probe_command,
    probe_text, useradd_command, useradd_text, userdel_command, userdel_text,
};
use crate::error::{Error, GuestStep, Operation};

verus! {

/// How many login shells are probed for.
pub const SHELL_CANDIDATES: usize = 4;

/// The login shells looked for inside the guest, most preferred first.
pub open spec fn shell_path(i: int) -> Seq<char> {
    if i == 0 {
        "/usr/bin/bash"@
    } else if i == 1 {
        "/bin/bash"@
    } else if i == 2 {
        "/usr/bin/sh"@
    } else {
        "/bin/sh"@
    }
}

/// The path of the shell candidate with preference rank `i`.
pub fn shell_candidate(i: usize) -> (path: &'static str)
    ensures
        path@ == shell_path(i as int),
{
    if i == 0 {
        "/usr/bin/bash"
    } else if i == 1 {
        "/bin/bash"
    } else if i == 2 {
        "/usr/bin/sh"
    } else {
        "/bin/sh"
    }
}

/// What the host reports of one command launched inside the guest.
#[derive(Clone, Copy, Debug, PartialEq, Eq, Structural)]
pub enum Outcome {
    /// The command ran and the guest returned this exit code.
    Exited { code: u32 },
    /// The host could not run the command and returned this status code.
    HostFailed { status_code: i32 },
}

/// Where a provisioning transaction stands. Every phase but the last two
/// waits for the outcome of one in-guest command.
#[derive(Clone, Copy, Debug, PartialEq, Eq, Structural)]
pub enum Phase {
    ProbingShell { candidate: usize },
    CreatingAccount { shell: Option<usize> },
    SettingRootPassword,
    SettingUserPassword,
    JoiningWheel,
    JoiningSudo,
    RollingBack { cause: Error },
    Complete,
    Failed { cause: Error },
}

/// The guest step that a phase performs, for the phases that can fail on
/// an exit code.
pub open spec fn guest_step(phase: Phase) -> GuestStep {
    match phase {
        Phase::ProbingShell { .. } => GuestStep::ProbeShell,
        Phase::CreatingAccount { .. } => GuestStep::CreateAccount,
        Phase::SettingRootPassword => GuestStep::SetRootPassword,
        Phase::SettingUserPassword => GuestStep::SetUserPassword,
        Phase::JoiningWheel => GuestStep::JoinWheel,
        _ => GuestStep::JoinSudo,
    }
}

/// The account exists in the guest and the transaction is not yet complete.
pub open spec fn account_pending(phase: Phase) -> bool {
    phase is SettingRootPassword || phase is SettingUserPassword || phase is JoiningWheel
        || phase is JoiningSudo
}

/// No command is left to run.
pub open spec fn is_terminal(phase: Phase) -> bool {
    phase is Complete || phase is Failed
}

/// The error, if any, with which `outcome` fails the step of `phase`.
/// A failing probe only means that the file is absent, and a failing group
/// join that the group is; a host failure fails every step.
pub open spec fn failure(phase: Phase, outcome: Outcome) -> Option<Error> {
    match outcome {
        Outcome::HostFailed { status_code } => Some(
            Error::Platform { operation: Operation::LaunchInteractive, status_code },
        ),
        Outcome::Exited { code } => if code != 0 && (phase is CreatingAccount
            || phase is SettingRootPassword || phase is SettingUserPassword) {
            Some(Error::GuestCommand { step: guest_step(phase), exit_code: code })
        } else {
            None
        },
    }
}

/// Whether the probed file exists, from the outcome of its probe: it does
/// where the probe exited with zero, and a nonzero exit only says that it
/// does not. A host failure is an error.
pub fn file_exists(probe: Outcome) -> (r: Result<bool, Error>)
    ensures
        r == match probe {
            Outcome::Exited { code } => Ok::<bool, Error>(code == 0),
            Outcome::HostFailed { status_code } => Err::<bool, Error>(
                Error::Platform { operation: Operation::LaunchInteractive, status_code },
            ),
        },
{
    match probe {
        Outcome::Exited { code } => Ok(code == 0),
        Outcome::HostFailed { status_code } => Err(
            Error::Platform { operation: Operation::LaunchInteractive, status_code },
        ),
    }
}

/// The phase that follows `phase` when its command succeeded, or, for a
/// probe or a group join, ended without a host failure.
pub open spec fn successor(phase: Phase, outcome: Outcome) -> Phase {
    match phase {
        Phase::ProbingShell { candidate } => if outcome == (Outcome::Exited { code: 0 }) {
            Phase::CreatingAccount { shell: Some(candidate) }
        } else if candidate + 1 < SHELL_CANDIDATES {
            Phase::ProbingShell { candidate: (candidate + 1) as usize }
        } else {
            Phase::CreatingAccount { shell: None }
        },
        Phase::CreatingAccount { .. } => Phase::SettingRootPassword,
        Phase::SettingRootPassword => Phase::SettingUserPassword,
        Phase::SettingUserPassword => Phase::JoiningWheel,
        Phase::JoiningWheel => Phase::JoiningSudo,
        _ => Phase::Complete,
    }
}

/// The transition function of the transaction. A failure before the account
/// exists ends it at once; a failure after that goes through the rollback,
/// whose own outcome is ignored and which ends in the first failure.
pub open spec fn step(phase: Phase, outcome: Outcome) -> Phase {
    match phase {
        Phase::Complete => phase,
        Phase::Failed { .. } => phase,
        Phase::RollingBack { cause } => Phase::Failed { cause },
        _ => match failure(phase, outcome) {
            Some(cause) => if account_pending(phase) {
                Phase::RollingBack { cause }
            } else {
                Phase::Failed { cause }
            },
            None => successor(phase, outcome),
        },
    }
}

/// The phase a transaction starts in: probing for the most preferred shell.
pub open spec fn start() -> Phase {
    Phase::ProbingShell { candidate: 0 }
}

/// Moves the transaction on by the outcome of the command of `phase`.
pub fn advance(phase: Phase, outcome: Outcome) -> (next: Phase)
    ensures
        next == step(phase, outcome),
{
    let failed: Option<Error> = match outcome {
        Outcome::HostFailed { status_code } => Some(
            Error::Platform { operation: Operation::LaunchInteractive, status_code },
        ),
        Outcome::Exited { code } => if code == 0 {
            None
        } else {
            match phase {
                Phase::CreatingAccount { .. } => Some(
                    Error::GuestCommand { step: GuestStep::CreateAccount, exit_code: code },
                ),
                Phase::SettingRootPassword => Some(
                    Error::GuestCommand { step: GuestStep::SetRootPassword, exit_code: code },
                ),
                Phase::SettingUserPassword => Some(
                    Error::GuestCommand { step: GuestStep::SetUserPassword, exit_code: code },
                ),
                _ => None,
            }
        },
    };
    match phase {
        Phase::Complete => phase,
        Phase::Failed { .. } => phase,
        Phase::RollingBack { cause } => Phase::Failed { cause },
        Phase::ProbingShell { candidate } => match failed {
            Some(cause) => Phase::Failed { cause },
            None => match outcome {
                Outcome::Exited { code: 0 } => Phase::CreatingAccount { shell: Some(candidate) },
                _ => if candidate < SHELL_CANDIDATES - 1 {
                    Phase::ProbingShell { candidate: candidate + 1 }
                } else {
                    Phase::CreatingAccount { shell: None }
                },
            },
        },
        Phase::CreatingAccount { .. } => match failed {
            Some(cause) => Phase::Failed { cause },
            None => Phase::SettingRootPassword,
        },
        Phase::SettingRootPassword => match failed {
            Some(cause) => Phase::RollingBack { cause },
            None => Phase::SettingUserPassword,
        },
        Phase::SettingUserPassword => match failed {
            Some(cause) => Phase::RollingBack { cause },
            None => Phase::JoiningWheel,
        },
        Phase::JoiningWheel => match failed {
            Some(cause) => Phase::RollingBack { cause },
            None => Phase::JoiningSudo,
        },
        Phase::JoiningSudo => match failed {
            Some(cause) => Phase::RollingBack { cause },
            None => Phase::Complete,
        },
    }
}

/// The phase after each of `outcomes` was delivered in turn, from `phase` on.
pub open spec fn run(phase: Phase, outcomes: Seq<Outcome>) -> Phase
    decreases outcomes.len(),
{
    if outcomes.len() == 0 {
        phase
    } else {
        run(step(phase, outcomes[0]), outcomes.drop_first())
    }
}

/// How often the account deletion was launched while `outcomes` were
/// delivered in turn, from `phase` on. A command is launched when its phase is
/// entered and an outcome for it is there.
pub open spec fn rollbacks(phase: Phase, outcomes: Seq<Outcome>) -> nat
    decreases outcomes.len(),
{
    if outcomes.len() == 0 {
        0
    } else {
        let here: nat = if phase is RollingBack {
            1
        } else {
            0
        };
        here + rollbacks(step(phase, outcomes[0]), outcomes.drop_first())
    }
}

/// A finished transaction stays where it is and launches nothing more.
pub proof fn terminal_is_final(phase: Phase, outcomes: Seq<Outcome>)
    requires
        is_terminal(phase),
    ensures
        run(phase, outcomes) == phase,
        rollbacks(phase, outcomes) == 0,
    decreases outcomes.len(),
{
    if outcomes.len() > 0 {
        terminal_is_final(phase, outcomes.drop_first());
    }
}

/// Whatever happens, the account deletion is launched at most once.
pub proof fn rollback_at_most_once(phase: Phase, outcomes: Seq<Outcome>)
    ensures
        rollbacks(phase, outcomes) <= 1,
    decreases outcomes.len(),
{
    if outcomes.len() > 0 {
        if phase is RollingBack {
            terminal_is_final(step(phase, outcomes[0]), outcomes.drop_first());
        } else {
            rollback_at_most_once(step(phase, outcomes[0]), outcomes.drop_first());
        }
    }
}

/// A transaction that reaches completion never launched the account deletion.
pub proof fn complete_means_no_rollback(phase: Phase, outcomes: Seq<Outcome>)
    requires
        run(phase, outcomes) is Complete,
    ensures
        rollbacks(phase, outcomes) == 0,
    decreases outcomes.len(),
{
    if outcomes.len() > 0 {
        if phase is RollingBack {
            terminal_is_final(step(phase, outcomes[0]), outcomes.drop_first());
        } else {
            complete_means_no_rollback(step(phase, outcomes[0]), outcomes.drop_first());
        }
    }
}

/// A failure while the shell is probed for or the account is created ends the
/// transaction at once: the account deletion is never launched, whatever is
/// delivered afterwards.
pub proof fn failure_before_account_needs_no_rollback(
    phase: Phase,
    outcome: Outcome,
    rest: Seq<Outcome>,
)
    requires
        phase is ProbingShell || phase is CreatingAccount,
        failure(phase, outcome) is Some,
    ensures
        step(phase, outcome) == (Phase::Failed { cause: failure(phase, outcome)->0 }),
        rollbacks(phase, seq![outcome] + rest) == 0,
        run(phase, seq![outcome] + rest) == step(phase, outcome),
{
    let all = seq![outcome] + rest;
    assert(all[0] == outcome);
    assert(all.drop_first() =~= rest);
    terminal_is_final(step(phase, outcome), rest);
}

/// A failure of any step after the account was created leads to the rollback
/// phase. Once the rollback's outcome is in, whatever it is, the account
/// deletion has been launched exactly once and the transaction has failed with
/// the error of the step that failed first.
pub proof fn failure_after_account_rolls_back_once(
    phase: Phase,
    outcome: Outcome,
    rollback_outcome: Outcome,
    rest: Seq<Outcome>,
)
    requires
        account_pending(phase),
        failure(phase, outcome) is Some,
    ensures
        step(phase, outcome) == (Phase::RollingBack { cause: failure(phase, outcome)->0 }),
        rollbacks(phase, seq![outcome, rollback_outcome] + rest) == 1,
        run(phase, seq![outcome, rollback_outcome] + rest) == (Phase::Failed {
            cause: failure(phase, outcome)->0,
        }),
{
    let all = seq![outcome, rollback_outcome] + rest;
    let tail = seq![rollback_outcome] + rest;
    assert(all[0] == outcome);
    assert(all.drop_first() =~= tail);
    assert(tail[0] == rollback_outcome);
    assert(tail.drop_first() =~= rest);
    let failed = Phase::Failed { cause: failure(phase, outcome)->0 };
    terminal_is_final(failed, rest);
    assert(rollbacks(step(phase, outcome), tail) == 1);
    assert(run(step(phase, outcome), tail) == run(failed, rest));
    assert(run(phase, all) == run(step(phase, outcome), tail));
}

/// A transaction that stands after the creation of the account and ends in
/// failure, by whatever outcomes, has launched the account deletion exactly
/// once on its way.
pub proof fn failed_after_account_rolled_back_once(phase: Phase, outcomes: Seq<Outcome>)
    requires
        account_pending(phase) || phase is RollingBack,
        run(phase, outcomes) is Failed,
    ensures
        rollbacks(phase, outcomes) == 1,
    decreases outcomes.len(),
{
    if outcomes.len() > 0 {
        let next = step(phase, outcomes[0]);
        if is_terminal(next) {
            terminal_is_final(next, outcomes.drop_first());
        } else {
            failed_after_account_rolled_back_once(next, outcomes.drop_first());
        }
    }
}

/// The command of the rollback phase deletes the account of the transaction,
/// that one and no other, together with its home directory.
pub proof fn rollback_deletes_that_user(cause: Error, user: Seq<char>, password: Seq<char>)
    ensures
        command_text(Phase::RollingBack { cause }, user, password) == Some(userdel_text(user)),
        userdel_text(user) == "/usr/sbin/userdel --remove "@ + user,
{
}

/// A group join that exits with a nonzero code, as it does where the guest
/// has no such group, fails nothing: the transaction goes on to the next
/// group and, after the last, completes.
pub proof fn missing_group_is_not_fatal(wheel_code: u32, sudo_code: u32)
    ensures
        step(Phase::JoiningWheel, Outcome::Exited { code: wheel_code }) == Phase::JoiningSudo,
        step(Phase::JoiningSudo, Outcome::Exited { code: sudo_code }) == Phase::Complete,
        run(
            Phase::JoiningWheel,
            seq![Outcome::Exited { code: wheel_code }, Outcome::Exited { code: sudo_code }],
        ) == Phase::Complete,
{
    let both = seq![Outcome::Exited { code: wheel_code }, Outcome::Exited { code: sudo_code }];
    let last = both.drop_first();
    assert(last.len() == 1);
    assert(last.drop_first().len() == 0);
    assert(run(Phase::JoiningWheel, both) == run(Phase::JoiningSudo, last));
    assert(run(Phase::JoiningSudo, last) == run(Phase::Complete, last.drop_first()));
}

/// The first candidate that the probes found, if any: the position of the
/// first zero among the exit codes.
pub open spec fn first_existing(codes: Seq<u32>) -> Option<usize>
    recommends
        codes.len() == SHELL_CANDIDATES,
{
    if codes[0] == 0 {
        Some(0)
    } else if codes[1] == 0 {
        Some(1)
    } else if codes[2] == 0 {
        Some(2)
    } else if codes[3] == 0 {
        Some(3)
    } else {
        None
    }
}

/// The outcomes of probes that ran and returned the first `n` of `codes`.
pub open spec fn probe_outcomes(codes: Seq<u32>, n: int) -> Seq<Outcome> {
    Seq::new(n as nat, |i: int| Outcome::Exited { code: codes[i] })
}

/// The shell lookup takes the first candidate, in the order of preference,
/// whose probe exits with zero, and probes no further; where no probe does, it
/// goes on without a shell after the last one.
pub proof fn lookup_takes_first_existing(codes: Seq<u32>)
    requires
        codes.len() == SHELL_CANDIDATES,
    ensures
        match first_existing(codes) {
            Some(k) => {
                &&& codes[k as int] == 0
                &&& forall|j: int| 0 <= j < k ==> codes[j] != 0
                &&& run(start(), probe_outcomes(codes, k + 1)) == (Phase::CreatingAccount {
                    shell: Some(k),
                })
            },
            None => {
                &&& forall|j: int| 0 <= j < codes.len() ==> codes[j] != 0
                &&& run(start(), probe_outcomes(codes, 4)) == (Phase::CreatingAccount {
                    shell: None,
                })
            },
        },
{
    let n: int = match first_existing(codes) {
        Some(k) => k + 1,
        None => 4,
    };
    let o0 = probe_outcomes(codes, n);
    let o1 = o0.drop_first();
    let at1 = step(start(), o0[0]);
    assert(run(start(), o0) == run(at1, o1));
    if n >= 2 {
        let o2 = o1.drop_first();
        let at2 = step(at1, o1[0]);
        assert(run(at1, o1) == run(at2, o2));
        if n >= 3 {
            let o3 = o2.drop_first();
            let at3 = step(at2, o2[0]);
            assert(run(at2, o2) == run(at3, o3));
            if n >= 4 {
                let o4 = o3.drop_first();
                let at4 = step(at3, o3[0]);
                assert(run(at3, o3) == run(at4, o4));
                assert(run(at4, o4) == at4);
            } else {
                assert(run(at3, o3) == at3);
            }
        } else {
            assert(run(at2, o2) == at2);
        }
    } else {
        assert(run(at1, o1) == at1);
    }
}

/// The command that `phase` launches inside the guest for the account `user`
/// with `password`; a finished transaction launches none.
pub open spec fn command_text(phase: Phase, user: Seq<char>, password: Seq<char>) -> Option<
    Seq<char>,
> {
    match phase {
        Phase::ProbingShell { candidate } => Some(probe_text(shell_path(candidate as int))),
        Phase::CreatingAccount { shell } => Some(
            useradd_text(
                match shell {
                    Some(i) => Some(shell_path(i as int)),
                    None => None,
                },
                user,
            ),
        ),
        Phase::SettingRootPassword => Some(chpasswd_text("root"@, password)),
        Phase::SettingUserPassword => Some(chpasswd_text(user, password)),
        Phase::JoiningWheel => Some(join_group_text("wheel"@, user)),
        Phase::JoiningSudo => Some(join_group_text("sudo"@, user)),
        Phase::RollingBack { .. } => Some(userdel_text(user)),
        Phase::Complete => None,
        Phase::Failed { .. } => None,
    }
}

/// One provisioning transaction: the account to create and where the
/// transaction stands. The caller launches `pending_command` inside the guest
/// and hands the outcome to `record`, until `result` is there.
pub struct UserProvisioning {
    pub user_name: String,
    pub password: String,
    pub phase: Phase,
}

impl UserProvisioning {
    /// A transaction for `user_name` that has launched nothing yet.
    pub fn new(user_name: String, password: String) -> (tx: Self)
        ensures
            tx.user_name == user_name,
            tx.password == password,
            tx.phase == start(),
    {
        UserProvisioning { user_name, password, phase: Phase::ProbingShell { candidate: 0 } }
    }

    /// The command to launch next, or `None` once the transaction is over.
    pub fn pending_command(&self) -> (cmd: Option<String>)
        ensures
            match cmd {
                Some(text) => command_text(self.phase, self.user_name@, self.password@) == Some(
                    text@,
                ),
                None => is_terminal(self.phase),
            },
    {
        let user = self.user_name.as_str();
        let password = self.password.as_str();
        match self.phase {
            Phase::ProbingShell { candidate } => Some(probe_command(shell_candidate(candidate))),
            Phase::CreatingAccount { shell } => match shell {
                Some(i) => Some(useradd_command(Some(shell_candidate(i)), user)),
                None => Some(useradd_command(None, user)),
            },
            Phase::SettingRootPassword => Some(chpasswd_command("root", password)),
            Phase::SettingUserPassword => Some(chpasswd_command(user, password)),
            Phase::JoiningWheel => Some(join_group_command("wheel", user)),
            Phase::JoiningSudo => Some(join_group_command("sudo", user)),
            Phase::RollingBack { .. } => Some(userdel_command(user)),
            Phase::Complete => None,
            Phase::Failed { .. } => None,
        }
    }

    /// Takes in the outcome of the pending command.
    pub fn record(&mut self, outcome: Outcome)
        ensures
            final(self).phase == step(old(self).phase, outcome),
            final(self).user_name == old(self).user_name,
            final(self).password == old(self).password,
    {
        self.phase = advance(self.phase, outcome);
    }

    /// How the transaction ended: `None` while a command is pending, `Ok` at
    /// completion, and after a failure the error of the step that failed.
    pub fn result(&self) -> (r: Option<Result<(), Error>>)
        ensures
            r == result_of(self.phase),
    {
        match self.phase {
            Phase::Complete => Some(Ok(())),
            Phase::Failed { cause } => Some(Err(cause)),
            _ => None,
        }
    }

    /// The shell that the probes settled on, once they are over: its path,
    /// or `None` where the guest has none of the candidates.
    pub fn found_shell(&self) -> (r: Option<Option<&'static str>>)
        ensures
            match self.phase {
                Phase::CreatingAccount { shell: Some(i) } => r matches Some(Some(path))
                    && path@ == shell_path(i as int),
                Phase::CreatingAccount { shell: None } => r == Some(None::<&'static str>),
                _ => r is None,
            },
    {
        match self.phase {
            Phase::CreatingAccount { shell: Some(i) } => Some(Some(shell_candidate(i))),
            Phase::CreatingAccount { shell: None } => Some(None),
            _ => None,
        }
    }
}

/// How far a phase is along the way that every transaction takes.
pub open spec fn rank(phase: Phase) -> nat {
    match phase {
        Phase::ProbingShell { candidate } => if candidate < 3 {
            candidate as nat
        } else {
            3
        },
        Phase::CreatingAccount { .. } => 4,
        Phase::SettingRootPassword => 5,
        Phase::SettingUserPassword => 6,
        Phase::JoiningWheel => 7,
        Phase::JoiningSudo => 8,
        Phase::RollingBack { .. } => 9,
        Phase::Complete => 10,
        Phase::Failed { .. } => 10,
    }
}

/// Every outcome takes an unfinished transaction further along its way, so
/// that no transaction launches more than ten commands.
pub proof fn step_advances(phase: Phase, outcome: Outcome)
    requires
        !is_terminal(phase),
    ensures
        rank(phase) < rank(step(phase, outcome)) <= 10,
{
}

/// Delivering one more outcome is one more step.
pub proof fn run_one_more(phase: Phase, outcomes: Seq<Outcome>, outcome: Outcome)
    ensures
        run(phase, outcomes.push(outcome)) == step(run(phase, outcomes), outcome),
    decreases outcomes.len(),
{
    let longer = outcomes.push(outcome);
    if outcomes.len() == 0 {
        assert(longer.drop_first() =~= outcomes);
        assert(run(step(phase, longer[0]), longer.drop_first()) == step(phase, outcome));
    } else {
        assert(longer.drop_first() =~= outcomes.drop_first().push(outcome));
        run_one_more(step(phase, outcomes[0]), outcomes.drop_first(), outcome);
    }
}

/// `outcomes` are answers that `launch` gave, in turn, to the commands of a
/// transaction for `user` with `password`: each outcome is one that `launch`
/// may return for the command of the phase that the outcomes before it led to.
pub open spec fn answers<F: Fn(String) -> Outcome>(
    launch: F,
    user: Seq<char>,
    password: Seq<char>,
    outcomes: Seq<Outcome>,
) -> bool
    decreases outcomes.len(),
{
    outcomes.len() == 0 || {
        let before = outcomes.drop_last();
        &&& answers(launch, user, password, before)
        &&& exists|cmd: String|
            command_text(run(start(), before), user, password) == Some(cmd@) && #[trigger] launch.ensures(
                (cmd,),
                outcomes.last(),
            )
    }
}

/// How a transaction in `phase` has ended, if it has.
pub open spec fn result_of(phase: Phase) -> Option<Result<(), Error>> {
    match phase {
        Phase::Complete => Some(Ok(())),
        Phase::Failed { cause } => Some(Err(cause)),
        _ => None,
    }
}

/// Creates the account `user_name` with `password` in a guest, launching each
/// command through `launch` and going by what it answers. The result is that
/// of the transaction which those answers make: success where it completed,
/// and else the error of the step that failed first, after the account, if it
/// had been created, was deleted again.
pub fn create_user<F: Fn(String) -> Outcome>(launch: F, user_name: &str, password: &str) -> (r:
    Result<(), Error>)
    requires
        forall|cmd: String| launch.requires((cmd,)),
    ensures
        exists|outcomes: Seq<Outcome>|
            #[trigger] answers(launch, user_name@, password@, outcomes) && result_of(
                run(start(), outcomes),
            ) == Some(r),
{
    let mut tx = UserProvisioning::new(user_name.to_owned(), password.to_owned());
    let ghost mut seen: Seq<Outcome> = Seq::empty();
    loop
        invariant
            forall|cmd: String| launch.requires((cmd,)),
            tx.user_name@ == user_name@,
            tx.password@ == password@,
            tx.phase == run(start(), seen),
            answers(launch, user_name@, password@, seen),
        ensures
            is_terminal(tx.phase),
        decreases 10 - rank(tx.phase),
    {
        match tx.pending_command() {
            Some(cmd) => {
                let ghost sent = cmd;
                let outcome = launch(cmd);
                proof {
                    let longer = seen.push(outcome);
                    step_advances(tx.phase, outcome);
                    run_one_more(start(), seen, outcome);
                    assert(longer.drop_last() =~= seen);
                    assert(longer.last() == outcome);
                    assert(launch.ensures((sent,), outcome));
                    seen = longer;
                }
                tx.record(outcome);
            },
            None => {
                break ;
            },
        }
    }
    match tx.phase {
        Phase::Complete => Ok(()),
        Phase::Failed { cause } => Err(cause),
        _ => vstd::pervasive::unreached(),
    }
}

/// Looks for a login shell in a guest, probing the candidates in their order
/// of preference through `launch` until one exists. The result is where those
/// probes lead: the first candidate whose probe exited with zero, none where
/// all four exited otherwise, and an error where the host failed to run one.
pub fn lookup_shell<F: Fn(String) -> Outcome>(launch: F) -> (r: Result<
    Option<&'static str>,
    Error,
>)
    requires
        forall|cmd: String| launch.requires((cmd,)),
    ensures
        exists|outcomes: Seq<Outcome>|
            #[trigger] answers(launch, Seq::<char>::empty(), Seq::<char>::empty(), outcomes)
                && match r {
                Ok(Some(path)) => exists|i: usize|
                    run(start(), outcomes) == (Phase::CreatingAccount { shell: Some(i) })
                        && path@ == shell_path(i as int),
                Ok(None) => run(start(), outcomes) == (Phase::CreatingAccount { shell: None }),
                Err(e) => run(start(), outcomes) == (Phase::Failed { cause: e }),
            },
{
    let mut phase = Phase::ProbingShell { candidate: 0 };
    let ghost mut seen: Seq<Outcome> = Seq::empty();
    loop
        invariant
            forall|cmd: String| launch.requires((cmd,)),
            phase == run(start(), seen),
            phase is ProbingShell || phase is CreatingAccount || phase is Failed,
            answers(launch, Seq::<char>::empty(), Seq::<char>::empty(), seen),
        ensures
            !(phase is ProbingShell),
        decreases 10 - rank(phase),
    {
        match phase {
            Phase::ProbingShell { candidate } => {
                let cmd = probe_command(shell_candidate(candidate));
                let ghost sent = cmd;
                let outcome = launch(cmd);
                proof {
                    let longer = seen.push(outcome);
                    step_advances(phase, outcome);
                    run_one_more(start(), seen, outcome);
                    assert(longer.drop_last() =~= seen);
                    assert(longer.last() == outcome);
                    assert(launch.ensures((sent,), outcome));
                    seen = longer;
                }
                phase = advance(phase, outcome);
            },
            _ => {
                break ;
            },
        }
    }
    match phase {
        Phase::CreatingAccount { shell: Some(i) } => Ok(Some(shell_candidate(i))),
        Phase::CreatingAccount { shell: None } => Ok(None),
        Phase::Failed { cause } => Err(cause),
        _ => vstd::pervasive::unreached(),
    }
}

} // verus!
