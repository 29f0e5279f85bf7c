use wsl_get::error::Error;
use std::cell::RefCell;
use wsl_get::install::{
    decide_uninstall, install, is_installed, next_install_step, plan_install, InstallStep,
    StepOutcome, UninstallDecision,
};

fn steps(no_user: bool) -> Vec<InstallStep> {
    let mut step = InstallStep::CheckName;
    let mut seen = vec![step];
    while step != InstallStep::Done {
        step = next_install_step(step, no_user, StepOutcome::Succeeded);
        seen.push(step);
        assert!(seen.len() < 20);
    }
    seen
}

#[test]
fn install_name_defaults_to_image_and_tag() {
    let plan = plan_install("library/ubuntu:20.04", None).unwrap();
    assert_eq!(plan.image_name, "library/ubuntu");
    assert_eq!(plan.image_tag, "20.04");
    assert_eq!(plan.install_name, "library-ubuntu-20.04");
    let plan = plan_install("alpine", None).unwrap();
    assert_eq!(plan.image_tag, "latest");
    assert_eq!(plan.install_name, "alpine-latest");
}

#[test]
fn chosen_install_name_is_kept() {
    let plan = plan_install("ubuntu:20.04", Some("work".to_string())).unwrap();
    assert_eq!(plan.image_name, "ubuntu");
    assert_eq!(plan.install_name, "work");
}

#[test]
fn malformed_image_gives_no_plan() {
    assert_eq!(plan_install("a:b:c", None).err(), Some(Error::InvalidDistroName));
    assert_eq!(plan_install("", Some("x".to_string())).err(), Some(Error::InvalidDistroName));
}

#[test]
fn install_with_user_takes_every_step_in_order() {
    assert_eq!(
        steps(false),
        vec![
            InstallStep::CheckName,
            InstallStep::Package,
            InstallStep::AskCredentials,
            InstallStep::Register,
            InstallStep::CreateUser,
            InstallStep::QueryUid,
            InstallStep::ReadConfiguration,
            InstallStep::Configure,
            InstallStep::Done,
        ]
    );
}

#[test]
fn install_without_user_ends_after_registration() {
    assert_eq!(
        steps(true),
        vec![
            InstallStep::CheckName,
            InstallStep::Package,
            InstallStep::Register,
            InstallStep::Done
        ]
    );
}

#[test]
fn taken_name_ends_the_install_before_anything_is_done() {
    let step = next_install_step(InstallStep::CheckName, false, StepOutcome::NameTaken);
    assert_eq!(step, InstallStep::Failed { cause: Error::AlreadyRegistered });
    assert_eq!(next_install_step(step, false, StepOutcome::Succeeded), step);
}

#[test]
fn first_failure_ends_the_install() {
    let cause = Error::InvalidOutput;
    for step in [
        InstallStep::Package,
        InstallStep::Register,
        InstallStep::CreateUser,
        InstallStep::QueryUid,
        InstallStep::ReadConfiguration,
        InstallStep::Configure,
    ] {
        assert_eq!(
            next_install_step(step, false, StepOutcome::Failed { cause }),
            InstallStep::Failed { cause }
        );
    }
    assert_eq!(
        next_install_step(InstallStep::Done, false, StepOutcome::Failed { cause }),
        InstallStep::Done
    );
}

#[test]
fn uninstall_is_decided_by_the_list() {
    let installed = vec!["Ubuntu".to_string(), "work".to_string()];
    assert!(is_installed(&installed, "work"));
    assert!(!is_installed(&installed, "Work"));
    assert!(!is_installed(&Vec::new(), "work"));
    assert_eq!(decide_uninstall(&installed, "play", true), UninstallDecision::Refuse);
    assert_eq!(decide_uninstall(&installed, "play", false), UninstallDecision::Refuse);
    assert_eq!(decide_uninstall(&installed, "work", true), UninstallDecision::Unregister);
    assert_eq!(decide_uninstall(&installed, "work", false), UninstallDecision::Confirm);
}

#[test]
fn install_driver_never_configures_after_a_failed_user() {
    let taken = RefCell::new(Vec::new());
    let cause = Error::InvalidOutput;
    let result = install(
        |step: InstallStep| {
            taken.borrow_mut().push(step);
            if step == InstallStep::CreateUser {
                StepOutcome::Failed { cause }
            } else {
                StepOutcome::Succeeded
            }
        },
        false,
    );
    assert_eq!(result, Err(cause));
    let taken = taken.into_inner();
    assert_eq!(taken.last(), Some(&InstallStep::CreateUser));
    assert!(!taken.contains(&InstallStep::Configure));
    assert_eq!(taken.len(), 5);
}

#[test]
fn install_driver_refuses_a_taken_name_first() {
    let taken = RefCell::new(Vec::new());
    let result = install(
        |step: InstallStep| {
            taken.borrow_mut().push(step);
            StepOutcome::NameTaken
        },
        false,
    );
    assert_eq!(result, Err(Error::AlreadyRegistered));
    assert_eq!(taken.into_inner(), vec![InstallStep::CheckName]);
}

#[test]
fn install_driver_takes_every_step_once() {
    let taken = RefCell::new(Vec::new());
    let result = install(
        |step: InstallStep| {
            taken.borrow_mut().push(step);
            StepOutcome::Succeeded
        },
        false,
    );
    assert_eq!(result, Ok(()));
    assert_eq!(taken.into_inner().len(), 8);
    assert_eq!(install(|_| StepOutcome::Succeeded, true), Ok(()));
}
