use installer::command::{CapturedOutput, Command, Error, ExitStatus};
use installer::steps::partitions::{
    lookup_format_tool, BindMount, FormatPartition, MountPartition, Partition, SyncFS, Unmount,
};
use installer::steps::{Action, Cleanup, Progress, Step};

fn partition(path: &str) -> Partition {
    Partition { path: path.to_string(), mountpoint: None }
}

fn command(program: &str, args: &[&str]) -> Command {
    Command { program: program.to_string(), args: args.iter().map(|a| a.to_string()).collect() }
}

fn exited(code: Option<i32>) -> Result<CapturedOutput, Error> {
    Ok(CapturedOutput { status: ExitStatus { code }, stdout: vec![], stderr: b"noise".to_vec() })
}

fn io_error(cause: &str) -> Error {
    Error::Io { cause: cause.to_string() }
}

#[test]
fn format_invokes_mkfs_on_the_device() {
    let sda2 = partition("/dev/sda2");
    let step = FormatPartition { partition: &sda2, filesystem: "ext4".to_string() };
    assert_eq!(
        step.execute(Progress::Start),
        Action::RunCaptured { command: command("mkfs.ext4", &["/dev/sda2"]) }
    );
    assert_eq!(step.command(), command("mkfs.ext4", &["/dev/sda2"]));
    assert_eq!(step.tool(), Some(command("mkfs.ext4", &["/dev/sda2"])));
}

#[test]
fn format_reports_a_failed_tool() {
    let sda2 = partition("/dev/sda2");
    let step = FormatPartition { partition: &sda2, filesystem: "ext4".to_string() };
    assert_eq!(
        step.execute(Progress::CommandCaptured(exited(Some(1)))),
        Action::Finished {
            result: Err(Error::CommandFailed {
                program: "mkfs.ext4".to_string(),
                status: ExitStatus { code: Some(1) },
            })
        }
    );
    assert_eq!(
        step.conclude(exited(None)),
        Err(Error::CommandFailed {
            program: "mkfs.ext4".to_string(),
            status: ExitStatus { code: None }
        })
    );
}

#[test]
fn format_succeeds_on_exit_zero() {
    let sda2 = partition("/dev/sda2");
    let step = FormatPartition { partition: &sda2, filesystem: "ext4".to_string() };
    assert_eq!(
        step.execute(Progress::CommandCaptured(exited(Some(0)))),
        Action::Finished { result: Ok(()) }
    );
}

#[test]
fn format_passes_on_a_tool_that_could_not_run() {
    let sda2 = partition("/dev/sda2");
    let step = FormatPartition { partition: &sda2, filesystem: "ext4".to_string() };
    assert_eq!(
        step.execute(Progress::CommandCaptured(Err(io_error("no such file")))),
        Action::Finished { result: Err(io_error("no such file")) }
    );
    assert_eq!(
        step.execute(Progress::DirectoryCreated(Err(io_error("denied")))),
        Action::Finished { result: Err(io_error("denied")) }
    );
    assert_eq!(
        step.execute(Progress::DirectoryCreated(Ok(()))),
        Action::RunCaptured { command: command("mkfs.ext4", &["/dev/sda2"]) }
    );
}

#[test]
fn filesystem_name_is_matched_in_any_case() {
    let sda2 = partition("/dev/sda2");
    let lower = FormatPartition { partition: &sda2, filesystem: "ext4".to_string() };
    for name in ["EXT4", "Ext4", "eXt4", "ext4"] {
        let step = FormatPartition { partition: &sda2, filesystem: name.to_string() };
        assert!(step.is_supported());
        assert_eq!(step.tool(), lower.tool());
        assert_eq!(step.command(), command("mkfs.ext4", &["/dev/sda2"]));
        assert_eq!(step.try_execute(Progress::Start), Some(lower.execute(Progress::Start)));
    }
}

#[test]
fn unknown_filesystem_has_no_tool() {
    let sda2 = partition("/dev/sda2");
    for name in ["btrfs", "", "ext", "ext44", "mkfs.ext4"] {
        let step = FormatPartition { partition: &sda2, filesystem: name.to_string() };
        assert!(!step.is_supported());
        assert_eq!(step.tool(), None);
        assert_eq!(step.try_execute(Progress::Start), None);
        assert_eq!(Step::Format(step).try_execute(Progress::Start), None);
    }
}

#[test]
fn format_tool_table() {
    assert_eq!(lookup_format_tool(&"ext4".to_string()), Some("mkfs.ext4"));
    assert_eq!(lookup_format_tool(&"EXT4".to_string()), None);
    assert_eq!(lookup_format_tool(&"xfs".to_string()), None);
}

#[test]
fn format_title_and_description() {
    let sda2 = partition("/dev/sda2");
    let step = FormatPartition { partition: &sda2, filesystem: "ext4".to_string() };
    assert_eq!(step.title(), "Format partition");
    assert_eq!(step.describe(), "/dev/sda2 as ext4");
}

#[test]
fn mount_creates_the_directory_then_mounts() {
    let sda2 = partition("/dev/sda2");
    let step = MountPartition { partition: &sda2, mountpoint: "/tmp/lichen".to_string() };
    assert_eq!(
        step.execute(Progress::Start),
        Action::CreateDirectory { path: "/tmp/lichen".to_string() }
    );
    assert_eq!(
        step.execute(Progress::DirectoryCreated(Ok(()))),
        Action::RunCaptured { command: command("mount", &["/dev/sda2", "/tmp/lichen"]) }
    );
    assert_eq!(
        step.execute(Progress::CommandCaptured(exited(Some(0)))),
        Action::Finished { result: Ok(()) }
    );
}

#[test]
fn mount_stops_when_the_directory_cannot_be_made() {
    let sda2 = partition("/dev/sda2");
    let step = MountPartition { partition: &sda2, mountpoint: "/tmp/lichen".to_string() };
    assert_eq!(
        step.execute(Progress::DirectoryCreated(Err(io_error("read-only")))),
        Action::Finished { result: Err(io_error("read-only")) }
    );
    assert_eq!(
        step.execute(Progress::CommandCaptured(Err(io_error("spawn")))),
        Action::Finished { result: Err(io_error("spawn")) }
    );
}

#[test]
fn mount_reports_a_failed_tool() {
    let sda2 = partition("/dev/sda2");
    let step = MountPartition { partition: &sda2, mountpoint: "/tmp/lichen".to_string() };
    assert_eq!(
        step.execute(Progress::CommandCaptured(exited(Some(32)))),
        Action::Finished {
            result: Err(Error::CommandFailed {
                program: "mount".to_string(),
                status: ExitStatus { code: Some(32) },
            })
        }
    );
}

#[test]
fn mount_title_and_description() {
    let sda2 = partition("/dev/sda2");
    let step = MountPartition { partition: &sda2, mountpoint: "/tmp/lichen".to_string() };
    assert_eq!(step.title(), "Mount filesystem");
    assert_eq!(step.describe(), "/dev/sda2 as /tmp/lichen");
    assert_eq!(step.command(), command("mount", &["/dev/sda2", "/tmp/lichen"]));
}

#[test]
fn bind_mount_invokes_mount_bind() {
    let step = BindMount { source: "/dev".to_string(), dest: "/tmp/lichen/dev".to_string() };
    assert_eq!(
        step.execute(Progress::Start),
        Action::CreateDirectory { path: "/tmp/lichen/dev".to_string() }
    );
    assert_eq!(
        step.execute(Progress::DirectoryCreated(Ok(()))),
        Action::RunCaptured { command: command("mount", &["--bind", "/dev", "/tmp/lichen/dev"]) }
    );
    assert_eq!(step.command(), command("mount", &["--bind", "/dev", "/tmp/lichen/dev"]));
    assert_eq!(
        step.execute(Progress::DirectoryCreated(Err(io_error("denied")))),
        Action::Finished { result: Err(io_error("denied")) }
    );
    assert_eq!(
        step.execute(Progress::CommandCaptured(exited(Some(0)))),
        Action::Finished { result: Ok(()) }
    );
    assert_eq!(
        step.execute(Progress::CommandCaptured(exited(Some(1)))),
        Action::Finished {
            result: Err(Error::CommandFailed {
                program: "mount".to_string(),
                status: ExitStatus { code: Some(1) },
            })
        }
    );
}

#[test]
fn bind_mount_title_and_description() {
    let step = BindMount { source: "/dev".to_string(), dest: "/tmp/lichen/dev".to_string() };
    assert_eq!(step.title(), "Bind mount filesystem");
    assert_eq!(step.describe(), "/dev on /tmp/lichen/dev");
}

#[test]
fn unmount_tolerates_nothing_mounted() {
    let step = Unmount { mountpoint: "/tmp/lichen".to_string() };
    assert_eq!(
        step.execute(Progress::Start),
        Action::RunCaptured { command: command("umount", &["/tmp/lichen"]) }
    );
    assert_eq!(
        step.execute(Progress::CommandCaptured(exited(Some(32)))),
        Action::Finished { result: Ok(()) }
    );
    assert_eq!(
        step.execute(Progress::CommandCaptured(exited(None))),
        Action::Finished { result: Ok(()) }
    );
}

#[test]
fn unmount_surfaces_a_tool_that_could_not_run() {
    let step = Unmount { mountpoint: "/tmp/lichen".to_string() };
    assert_eq!(
        step.execute(Progress::CommandCaptured(Err(io_error("umount missing")))),
        Action::Finished { result: Err(io_error("umount missing")) }
    );
}

#[test]
fn unmount_title_and_description() {
    let step = Unmount { mountpoint: "/tmp/lichen".to_string() };
    assert_eq!(step.title(), "Unmount");
    assert_eq!(step.describe(), "/tmp/lichen");
}

#[test]
fn sync_runs_sync_and_never_fails() {
    let step = SyncFS {};
    assert_eq!(step.execute(Progress::Start), Action::RunCaptured { command: command("sync", &[]) });
    assert_eq!(
        step.execute(Progress::CommandCaptured(Err(io_error("spawn")))),
        Action::Finished { result: Ok(()) }
    );
    assert_eq!(
        step.execute(Progress::CommandCaptured(exited(Some(1)))),
        Action::Finished { result: Ok(()) }
    );
    assert_eq!(step.title(), "Sync");
    assert_eq!(step.describe(), "filesystems");
}

#[test]
fn step_dispatches_to_its_kind() {
    let sda2 = partition("/dev/sda2");
    let format = Step::Format(FormatPartition { partition: &sda2, filesystem: "Ext4".to_string() });
    let mount =
        Step::Mount(MountPartition { partition: &sda2, mountpoint: "/tmp/lichen".to_string() });
    let bind = Step::Bind(BindMount { source: "/sys".to_string(), dest: "/tmp/lichen/sys".to_string() });
    assert_eq!(format.title(), "Format partition");
    assert_eq!(mount.title(), "Mount filesystem");
    assert_eq!(bind.title(), "Bind mount filesystem");
    assert_eq!(format.describe(), "/dev/sda2 as ext4");
    assert_eq!(mount.describe(), "/dev/sda2 as /tmp/lichen");
    assert_eq!(bind.describe(), "/sys on /tmp/lichen/sys");
    assert!(format.is_indeterminate() && mount.is_indeterminate() && bind.is_indeterminate());
    assert!(format.is_supported() && mount.is_supported() && bind.is_supported());
    assert_eq!(
        format.execute(Progress::Start),
        Action::RunCaptured { command: command("mkfs.ext4", &["/dev/sda2"]) }
    );
    assert_eq!(
        mount.try_execute(Progress::Start),
        Some(Action::CreateDirectory { path: "/tmp/lichen".to_string() })
    );
    assert_eq!(
        bind.execute(Progress::DirectoryCreated(Ok(()))),
        Action::RunCaptured { command: command("mount", &["--bind", "/sys", "/tmp/lichen/sys"]) }
    );
}

#[test]
fn cleanup_dispatches_to_its_kind() {
    let unmount = Cleanup::Unmount(Unmount { mountpoint: "/tmp/lichen".to_string() });
    let sync = Cleanup::Sync(SyncFS {});
    assert_eq!(unmount.title(), "Unmount");
    assert_eq!(unmount.describe(), "/tmp/lichen");
    assert_eq!(sync.title(), "Sync");
    assert_eq!(sync.describe(), "filesystems");
    assert_eq!(
        unmount.execute(Progress::Start),
        Action::RunCaptured { command: command("umount", &["/tmp/lichen"]) }
    );
    assert_eq!(sync.execute(Progress::Start), Action::RunCaptured { command: command("sync", &[]) });
    assert_eq!(
        sync.execute(Progress::CommandCaptured(Err(io_error("x")))),
        Action::Finished { result: Ok(()) }
    );
}
