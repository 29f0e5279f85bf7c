use std::cell::RefCell;
use std::io::Write;
use wsl_get::commands::{container_args, image_args, import_args, list_args, query_uid_args};
use wsl_get::error::{Error, Stage};
use wsl_get::packaging::{
    get_distribution_rootfs_tar_gz, pack_advance, Packaging, PackagingAction, PackagingPhase,
    ToolEvent,
};

/// Runs a pipeline against tools that answer each action with `tools`, and
/// returns what was done, in order, and the pipeline at its end.
fn package(
    name: &str,
    tag: &str,
    tools: &dyn Fn(&str) -> (bool, Vec<u8>),
) -> (Vec<String>, Packaging) {
    let mut pipeline = Packaging::new(name.to_string(), tag.to_string());
    let mut done = Vec::new();
    loop {
        let line = match pipeline.pending_action() {
            PackagingAction::RunTool { args, capture_output } => {
                assert_eq!(capture_output, args[0] == "create");
                args.join(" ")
            }
            PackagingAction::ExportCompressed { args } => format!("{} | gzip", args.join(" ")),
            PackagingAction::Persist => "persist".to_string(),
            PackagingAction::Finished => break,
        };
        let (success, stdout) = tools(&line);
        done.push(line);
        pipeline.record(success, stdout);
        assert!(done.len() < 20);
    }
    (done, pipeline)
}

fn fine(line: &str) -> (bool, Vec<u8>) {
    if line.starts_with("create") {
        (true, b"abc123\n".to_vec())
    } else {
        (true, Vec::new())
    }
}

#[test]
fn tool_arguments_are_exact() {
    assert_eq!(image_args("pull", "ubuntu", "20.04"), vec!["pull", "ubuntu:20.04"]);
    assert_eq!(container_args("rm", "abc123"), vec!["rm", "abc123"]);
    assert_eq!(
        import_args("my-distro", "C:\\cache\\my-distro", "C:\\tmp\\x.tar.gz"),
        vec!["--import", "my-distro", "C:\\cache\\my-distro", "C:\\tmp\\x.tar.gz", "--version", "2"]
    );
    assert_eq!(
        query_uid_args("my-distro", "alice"),
        vec!["-d", "my-distro", "--", "/usr/bin/id", "-u", "alice"]
    );
    assert_eq!(list_args(), vec!["--list", "--quiet"]);
}

#[test]
fn successful_packaging_removes_the_container_once() {
    let (done, pipeline) = package("ubuntu", "20.04", &fine);
    assert_eq!(
        done,
        vec![
            "pull ubuntu:20.04",
            "create ubuntu:20.04",
            "export abc123 | gzip",
            "persist",
            "rm abc123"
        ]
    );
    assert_eq!(done.iter().filter(|l| l.as_str() == "rm abc123").count(), 1);
    assert_eq!(pipeline.result(), Some(Ok(())));
    assert!(!pipeline.cleanup_failed());
    assert_eq!(pipeline.instance_id, "abc123");
}

#[test]
fn compressed_export_is_persisted_non_empty() {
    let dir = tempfile::tempdir().unwrap();
    let destination = dir.path().join("rootfs.tar.gz");
    let mut pipeline = Packaging::new("ubuntu".to_string(), "20.04".to_string());
    let mut temp = None;
    let mut removed = 0;
    loop {
        match pipeline.pending_action() {
            PackagingAction::RunTool { args, .. } => {
                if args[0] == "rm" {
                    assert_eq!(args[1], "abc123");
                    removed += 1;
                }
                let out = if args[0] == "create" { b"abc123\n".to_vec() } else { Vec::new() };
                pipeline.record(true, out);
            }
            PackagingAction::ExportCompressed { args } => {
                assert_eq!(args, vec!["export", "abc123"]);
                let file = tempfile::NamedTempFile::new().unwrap();
                let mut gz = flate2::write::GzEncoder::new(
                    file.reopen().unwrap(),
                    flate2::Compression::fast(),
                );
                gz.write_all(b"the exported file system").unwrap();
                gz.finish().unwrap();
                temp = Some(file);
                pipeline.record(true, Vec::new());
            }
            PackagingAction::Persist => {
                let ok = temp.take().unwrap().persist(&destination).is_ok();
                pipeline.record(ok, Vec::new());
            }
            PackagingAction::Finished => break,
        }
    }
    assert_eq!(pipeline.result(), Some(Ok(())));
    assert_eq!(removed, 1);
    assert!(destination.metadata().unwrap().len() > 0);
}

#[test]
fn failed_pull_creates_nothing() {
    let (done, pipeline) = package("ubuntu", "20.04", &|_| (false, Vec::new()));
    assert_eq!(done, vec!["pull ubuntu:20.04"]);
    assert_eq!(pipeline.result(), Some(Err(Error::ExternalTool { stage: Stage::Pull })));
    assert!(!pipeline.cleanup_failed());
}

#[test]
fn failed_create_removes_nothing() {
    let (done, pipeline) =
        package("ubuntu", "latest", &|l| (!l.starts_with("create"), Vec::new()));
    assert_eq!(done, vec!["pull ubuntu:latest", "create ubuntu:latest"]);
    assert_eq!(pipeline.result(), Some(Err(Error::ExternalTool { stage: Stage::Create })));
}

#[test]
fn unreadable_container_id_ends_the_pipeline() {
    let (done, pipeline) = package("ubuntu", "latest", &|_| (true, vec![0xff, 0xfe]));
    assert_eq!(done.len(), 2);
    assert_eq!(pipeline.result(), Some(Err(Error::InvalidOutput)));
}

#[test]
fn failed_export_still_removes_the_container() {
    let (done, pipeline) = package("ubuntu", "20.04", &|l| {
        if l.starts_with("export") {
            (false, Vec::new())
        } else {
            fine(l)
        }
    });
    assert_eq!(
        done,
        vec!["pull ubuntu:20.04", "create ubuntu:20.04", "export abc123 | gzip", "rm abc123"]
    );
    assert_eq!(pipeline.result(), Some(Err(Error::ExternalTool { stage: Stage::Export })));
}

#[test]
fn failed_persist_still_removes_the_container() {
    let (done, pipeline) =
        package("ubuntu", "20.04", &|l| if l == "persist" { (false, Vec::new()) } else { fine(l) });
    assert_eq!(done.last().unwrap(), "rm abc123");
    assert_eq!(done.iter().filter(|l| l.starts_with("rm ")).count(), 1);
    assert_eq!(pipeline.result(), Some(Err(Error::ExternalTool { stage: Stage::Persist })));
}

#[test]
fn failed_removal_is_only_a_warning() {
    let (_, pipeline) = package("ubuntu", "20.04", &|l| {
        if l.starts_with("rm") {
            (false, Vec::new())
        } else {
            fine(l)
        }
    });
    assert_eq!(pipeline.result(), Some(Ok(())));
    assert!(pipeline.cleanup_failed());

    let (_, pipeline) = package("ubuntu", "20.04", &|l| {
        if l.starts_with("rm") || l.starts_with("export") {
            (false, Vec::new())
        } else {
            fine(l)
        }
    });
    assert_eq!(pipeline.result(), Some(Err(Error::ExternalTool { stage: Stage::Export })));
    assert!(pipeline.cleanup_failed());
}

#[test]
fn finished_pipeline_stays_finished() {
    let done = PackagingPhase::Done { failure: None, cleanup_failed: false };
    assert_eq!(pack_advance(done, ToolEvent::Failed), done);
    assert_eq!(
        pack_advance(PackagingPhase::Removing { failure: None }, ToolEvent::Failed),
        PackagingPhase::Done { failure: None, cleanup_failed: true }
    );
    assert_eq!(pack_advance(PackagingPhase::Pulling, ToolEvent::Succeeded), PackagingPhase::Creating);
}

#[test]
fn pipeline_driver_removes_the_container_once() {
    let done = RefCell::new(Vec::new());
    let pipeline = get_distribution_rootfs_tar_gz(
        |action: PackagingAction| {
            let (line, reply) = match action {
                PackagingAction::RunTool { args, .. } => {
                    let out = if args[0] == "create" { b"abc123\n".to_vec() } else { Vec::new() };
                    (args.join(" "), (true, out))
                }
                PackagingAction::ExportCompressed { args } => (args.join(" "), (false, Vec::new())),
                PackagingAction::Persist => ("persist".to_string(), (true, Vec::new())),
                PackagingAction::Finished => ("finished".to_string(), (true, Vec::new())),
            };
            done.borrow_mut().push(line);
            reply
        },
        "ubuntu",
        "20.04",
    );
    assert_eq!(
        done.into_inner(),
        vec!["pull ubuntu:20.04", "create ubuntu:20.04", "export abc123", "rm abc123"]
    );
    assert_eq!(pipeline.result(), Some(Err(Error::ExternalTool { stage: Stage::Export })));
    assert_eq!(pipeline.instance_id, "abc123");
}

#[test]
fn pipeline_driver_stops_at_a_failed_pull() {
    let asked = RefCell::new(0);
    let pipeline = get_distribution_rootfs_tar_gz(
        |_| {
            *asked.borrow_mut() += 1;
            (false, Vec::new())
        },
        "ubuntu",
        "latest",
    );
    assert_eq!(*asked.borrow(), 1);
    assert_eq!(pipeline.result(), Some(Err(Error::ExternalTool { stage: Stage::Pull })));
    assert!(!pipeline.cleanup_failed());
}
