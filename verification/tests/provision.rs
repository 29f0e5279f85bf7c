use wsl_get::commands::{
    chpasswd_command, join_group_command, probe_command, useradd_command, userdel_command,
};
use wsl_get::error::{Error, GuestStep, Operation};
use wsl_get::install::{next_install_step, InstallStep, StepOutcome};
use std::cell::RefCell;
use wsl_get::provision::{
    advance, create_user, file_exists, lookup_shell, shell_candidate, Outcome, Phase,
    UserProvisioning,
};

/// Runs a transaction against a guest that answers each command with
/// `guest`, and returns the commands launched and the result.
fn provision(
    user: &str,
    password: &str,
    guest: &dyn Fn(&str) -> Outcome,
) -> (Vec<String>, Result<(), Error>) {
    let mut tx = UserProvisioning::new(user.to_string(), password.to_string());
    let mut launched = Vec::new();
    while let Some(cmd) = tx.pending_command() {
        let outcome = guest(&cmd);
        launched.push(cmd);
        tx.record(outcome);
        assert!(launched.len() < 20);
    }
    (launched, tx.result().unwrap())
}

fn ok() -> Outcome {
    Outcome::Exited { code: 0 }
}

fn exit(code: u32) -> Outcome {
    Outcome::Exited { code }
}

fn count(launched: &[String], cmd: &str) -> usize {
    launched.iter().filter(|c| c.as_str() == cmd).count()
}

#[test]
fn guest_commands_are_exact() {
    assert_eq!(probe_command("/bin/sh"), "/usr/bin/test -e /bin/sh");
    assert_eq!(
        useradd_command(Some("/bin/bash"), "alice"),
        "/usr/sbin/useradd -s /bin/bash -m alice"
    );
    assert_eq!(useradd_command(None, "alice"), "/usr/sbin/useradd -m alice");
    assert_eq!(userdel_command("bob"), "/usr/sbin/userdel --remove bob");
    assert_eq!(chpasswd_command("root", "s3cret"), "echo root:s3cret | /usr/sbin/chpasswd");
    assert_eq!(
        join_group_command("wheel", "alice"),
        "getent group wheel > /dev/null && /usr/sbin/usermod -aG wheel alice"
    );
}

#[test]
fn shells_are_preferred_in_order() {
    assert_eq!(shell_candidate(0), "/usr/bin/bash");
    assert_eq!(shell_candidate(1), "/bin/bash");
    assert_eq!(shell_candidate(2), "/usr/bin/sh");
    assert_eq!(shell_candidate(3), "/bin/sh");
}

#[test]
fn lookup_returns_first_existing_shell() {
    let paths = ["/usr/bin/bash", "/bin/bash", "/usr/bin/sh", "/bin/sh"];
    for mask in 0u32..16 {
        let exists = |i: usize| mask & (1 << i) != 0;
        let mut tx = UserProvisioning::new("u".to_string(), "p".to_string());
        let mut probes = Vec::new();
        while let Phase::ProbingShell { candidate } = tx.phase {
            probes.push(tx.pending_command().unwrap());
            tx.record(if exists(candidate) { ok() } else { exit(1) });
        }
        let expected = (0..4).find(|&i| exists(i));
        assert_eq!(tx.found_shell(), Some(expected.map(|i| paths[i])));
        let asked = expected.map(|i| i + 1).unwrap_or(4);
        let wanted: Vec<String> =
            paths[..asked].iter().map(|p| format!("/usr/bin/test -e {}", p)).collect();
        assert_eq!(probes, wanted);
    }
}

#[test]
fn full_success_launches_every_step_once() {
    let (launched, result) = provision("carol", "pw", &|_| ok());
    assert_eq!(result, Ok(()));
    assert_eq!(
        launched,
        vec![
            "/usr/bin/test -e /usr/bin/bash".to_string(),
            "/usr/sbin/useradd -s /usr/bin/bash -m carol".to_string(),
            "echo root:pw | /usr/sbin/chpasswd".to_string(),
            "echo carol:pw | /usr/sbin/chpasswd".to_string(),
            "getent group wheel > /dev/null && /usr/sbin/usermod -aG wheel carol".to_string(),
            "getent group sudo > /dev/null && /usr/sbin/usermod -aG sudo carol".to_string(),
        ]
    );
}

#[test]
fn no_shell_found_uses_system_default() {
    let (launched, result) =
        provision("dave", "pw", &|c| if c.starts_with("/usr/bin/test") { exit(1) } else { ok() });
    assert_eq!(result, Ok(()));
    assert_eq!(launched.len(), 9);
    assert_eq!(launched[4], "/usr/sbin/useradd -m dave");
}

#[test]
fn missing_wheel_group_is_not_fatal() {
    let (launched, result) = provision("alice", "pw", &|c| {
        if c.starts_with("getent group wheel") {
            exit(2)
        } else {
            ok()
        }
    });
    assert_eq!(result, Ok(()));
    assert_eq!(
        count(&launched, "getent group sudo > /dev/null && /usr/sbin/usermod -aG sudo alice"),
        1
    );
    assert_eq!(count(&launched, "/usr/sbin/userdel --remove alice"), 0);
    assert_eq!(
        launched.last().unwrap(),
        "getent group sudo > /dev/null && /usr/sbin/usermod -aG sudo alice"
    );
}

#[test]
fn failed_root_password_rolls_back_and_never_configures() {
    let (launched, result) =
        provision("bob", "pw", &|c| if c.starts_with("echo root:") { exit(1) } else { ok() });
    assert_eq!(
        result,
        Err(Error::GuestCommand { step: GuestStep::SetRootPassword, exit_code: 1 })
    );
    assert_eq!(count(&launched, "/usr/sbin/userdel --remove bob"), 1);
    assert_eq!(launched.last().unwrap(), "/usr/sbin/userdel --remove bob");
    assert_eq!(launched.len(), 4);

    let step = next_install_step(
        InstallStep::CreateUser,
        false,
        StepOutcome::Failed { cause: result.unwrap_err() },
    );
    assert_eq!(
        step,
        InstallStep::Failed {
            cause: Error::GuestCommand { step: GuestStep::SetRootPassword, exit_code: 1 }
        }
    );
    assert_eq!(next_install_step(step, false, StepOutcome::Succeeded), step);
}

#[test]
fn failed_account_creation_rolls_nothing_back() {
    let (launched, result) =
        provision("erin", "pw", &|c| if c.contains("useradd") { exit(9) } else { ok() });
    assert_eq!(result, Err(Error::GuestCommand { step: GuestStep::CreateAccount, exit_code: 9 }));
    assert_eq!(count(&launched, "/usr/sbin/userdel --remove erin"), 0);
    assert_eq!(launched.len(), 2);
}

#[test]
fn host_failure_while_probing_rolls_nothing_back() {
    let (launched, result) = provision("erin", "pw", &|_| Outcome::HostFailed { status_code: -3 });
    assert_eq!(
        result,
        Err(Error::Platform { operation: Operation::LaunchInteractive, status_code: -3 })
    );
    assert_eq!(launched, vec!["/usr/bin/test -e /usr/bin/bash".to_string()]);
}

#[test]
fn every_late_failure_deletes_the_user_exactly_once() {
    let late = ["echo root:", "echo frank:", "getent group wheel", "getent group sudo"];
    for (i, prefix) in late.iter().enumerate() {
        for soft in [false, true] {
            let (launched, result) = provision("frank", "pw", &|c| {
                if c.starts_with(prefix) {
                    if soft {
                        exit(3)
                    } else {
                        Outcome::HostFailed { status_code: -7 }
                    }
                } else {
                    ok()
                }
            });
            let group_join = i >= 2;
            if soft && group_join {
                assert_eq!(result, Ok(()));
                assert_eq!(count(&launched, "/usr/sbin/userdel --remove frank"), 0);
            } else {
                assert!(result.is_err());
                assert_eq!(count(&launched, "/usr/sbin/userdel --remove frank"), 1);
                assert_eq!(launched.last().unwrap(), "/usr/sbin/userdel --remove frank");
            }
        }
    }
}

#[test]
fn failing_rollback_keeps_the_first_error() {
    let (launched, result) = provision("gina", "pw", &|c| {
        if c.starts_with("echo gina:") {
            exit(4)
        } else if c.contains("userdel") {
            Outcome::HostFailed { status_code: -9 }
        } else {
            ok()
        }
    });
    assert_eq!(
        result,
        Err(Error::GuestCommand { step: GuestStep::SetUserPassword, exit_code: 4 })
    );
    assert_eq!(count(&launched, "/usr/sbin/userdel --remove gina"), 1);
}

#[test]
fn finished_transaction_ignores_further_outcomes() {
    assert_eq!(advance(Phase::Complete, exit(1)), Phase::Complete);
    let failed = Phase::Failed { cause: Error::InvalidOutput };
    assert_eq!(advance(failed, ok()), failed);
    assert_eq!(
        advance(Phase::ProbingShell { candidate: 3 }, exit(1)),
        Phase::CreatingAccount { shell: None }
    );
    assert_eq!(
        advance(Phase::ProbingShell { candidate: 2 }, ok()),
        Phase::CreatingAccount { shell: Some(2) }
    );
}

#[test]
fn probe_outcome_says_whether_the_file_exists() {
    assert_eq!(file_exists(exit(0)), Ok(true));
    assert_eq!(file_exists(exit(1)), Ok(false));
    assert_eq!(
        file_exists(Outcome::HostFailed { status_code: -1 }),
        Err(Error::Platform { operation: Operation::LaunchInteractive, status_code: -1 })
    );
}

#[test]
fn create_user_runs_the_whole_transaction() {
    let launched = RefCell::new(Vec::new());
    let result = create_user(
        |cmd: String| {
            let outcome = if cmd.starts_with("getent group wheel") { exit(2) } else { ok() };
            launched.borrow_mut().push(cmd);
            outcome
        },
        "alice",
        "pw",
    );
    assert_eq!(result, Ok(()));
    let launched = launched.into_inner();
    assert_eq!(launched.len(), 6);
    assert_eq!(launched[1], "/usr/sbin/useradd -s /usr/bin/bash -m alice");
    assert_eq!(count(&launched, "/usr/sbin/userdel --remove alice"), 0);
}

#[test]
fn create_user_rolls_back_after_a_late_failure() {
    let launched = RefCell::new(Vec::new());
    let result = create_user(
        |cmd: String| {
            let outcome = if cmd.starts_with("echo root:") { exit(1) } else { ok() };
            launched.borrow_mut().push(cmd);
            outcome
        },
        "bob",
        "pw",
    );
    assert_eq!(
        result,
        Err(Error::GuestCommand { step: GuestStep::SetRootPassword, exit_code: 1 })
    );
    let launched = launched.into_inner();
    assert_eq!(count(&launched, "/usr/sbin/userdel --remove bob"), 1);
    assert_eq!(launched.last().unwrap(), "/usr/sbin/userdel --remove bob");
}

#[test]
fn create_user_stops_at_a_failed_account_creation() {
    let launched = RefCell::new(Vec::new());
    let result = create_user(
        |cmd: String| {
            let outcome = if cmd.contains("useradd") { exit(9) } else { ok() };
            launched.borrow_mut().push(cmd);
            outcome
        },
        "erin",
        "pw",
    );
    assert_eq!(result, Err(Error::GuestCommand { step: GuestStep::CreateAccount, exit_code: 9 }));
    assert_eq!(launched.into_inner().len(), 2);
}

#[test]
fn lookup_shell_probes_in_order_of_preference() {
    let probed = RefCell::new(Vec::new());
    let found = lookup_shell(|cmd: String| {
        let outcome = if cmd.ends_with(" /usr/bin/sh") { ok() } else { exit(1) };
        probed.borrow_mut().push(cmd);
        outcome
    });
    assert_eq!(found, Ok(Some("/usr/bin/sh")));
    assert_eq!(
        probed.into_inner(),
        vec![
            "/usr/bin/test -e /usr/bin/bash".to_string(),
            "/usr/bin/test -e /bin/bash".to_string(),
            "/usr/bin/test -e /usr/bin/sh".to_string(),
        ]
    );
    assert_eq!(lookup_shell(|_| exit(1)), Ok(None));
    assert_eq!(lookup_shell(|_| ok()), Ok(Some("/usr/bin/bash")));
    assert_eq!(
        lookup_shell(|_| Outcome::HostFailed { status_code: -2 }),
        Err(Error::Platform { operation: Operation::LaunchInteractive, status_code: -2 })
    );
}
