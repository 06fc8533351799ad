use installer::command::{Error, MissingField};
use installer::context::Context;
use installer::plan::{compile_to_steps, find_root, nest_path, Account, Model};
use installer::steps::partitions::{
    BindMount, FormatPartition, MountPartition, Partition, SyncFS, Unmount,
};
use installer::steps::{Cleanup, Step};

fn partition(path: &str, mountpoint: Option<&str>) -> Partition {
    Partition { path: path.to_string(), mountpoint: mountpoint.map(|m| m.to_string()) }
}

fn model(partitions: Vec<Partition>, locale: Option<&str>) -> Model {
    Model {
        accounts: vec![Account {
            username: "root".to_string(),
            password: None,
            shell: "/usr/bin/bash".to_string(),
        }],
        boot_partition: partition("/dev/sda1", None),
        partitions,
        locale: locale.map(|l| l.to_string()),
        timezone: Some("Europe/London".to_string()),
        packages: vec!["develop".to_string()],
    }
}

fn unmount(mountpoint: &str) -> Cleanup {
    Cleanup::Unmount(Unmount { mountpoint: mountpoint.to_string() })
}

#[test]
fn missing_locale_is_refused() {
    let model = model(vec![partition("/dev/sda2", Some("/"))], None);
    let context = Context::new("/tmp/lichen");
    assert_eq!(
        compile_to_steps(&model, &context, &vec!["/dev".to_string()]),
        Err(Error::ModelIncomplete { missing: MissingField::Locale })
    );
}

#[test]
fn missing_root_partition_is_refused() {
    let context = Context::new("/tmp/lichen");
    let none = model(vec![], Some("en_GB.UTF-8"));
    assert_eq!(
        compile_to_steps(&none, &context, &vec![]),
        Err(Error::ModelIncomplete { missing: MissingField::RootPartition })
    );
    let unassigned = model(
        vec![partition("/dev/sda2", None), partition("/dev/sda3", Some("/home"))],
        Some("en_GB.UTF-8"),
    );
    assert_eq!(
        compile_to_steps(&unassigned, &context, &vec![]),
        Err(Error::ModelIncomplete { missing: MissingField::RootPartition })
    );
}

#[test]
fn missing_root_partition_is_named_before_missing_locale() {
    let context = Context::new("/tmp/lichen");
    let model = model(vec![], None);
    assert_eq!(
        compile_to_steps(&model, &context, &vec![]),
        Err(Error::ModelIncomplete { missing: MissingField::RootPartition })
    );
}

#[test]
fn root_only_plan() {
    let model = model(vec![partition("/dev/sda2", Some("/"))], Some("en_GB.UTF-8"));
    let context = Context::new("/tmp/lichen");
    let (cleanups, steps) = compile_to_steps(&model, &context, &vec![]).unwrap();
    let sda2 = partition("/dev/sda2", Some("/"));
    assert_eq!(
        steps,
        vec![
            Step::Format(FormatPartition { partition: &sda2, filesystem: "ext4".to_string() }),
            Step::Mount(MountPartition { partition: &sda2, mountpoint: "/tmp/lichen".to_string() }),
        ]
    );
    assert_eq!(cleanups, vec![unmount("/tmp/lichen"), Cleanup::Sync(SyncFS {})]);
}

#[test]
fn cleanups_unmount_in_reverse_and_sync_last() {
    let model = model(
        vec![
            partition("/dev/sda3", Some("/home")),
            partition("/dev/sda4", None),
            partition("/dev/sda2", Some("/")),
            partition("/dev/sda5", Some("var")),
        ],
        Some("en_GB.UTF-8"),
    );
    let context = Context::new("/tmp/lichen");
    let shared = vec!["/dev".to_string(), "/proc".to_string()];
    let (cleanups, steps) = compile_to_steps(&model, &context, &shared).unwrap();
    let sda2 = partition("/dev/sda2", Some("/"));
    let sda3 = partition("/dev/sda3", Some("/home"));
    let sda5 = partition("/dev/sda5", Some("var"));
    assert_eq!(
        steps,
        vec![
            Step::Format(FormatPartition { partition: &sda2, filesystem: "ext4".to_string() }),
            Step::Mount(MountPartition { partition: &sda2, mountpoint: "/tmp/lichen".to_string() }),
            Step::Format(FormatPartition { partition: &sda3, filesystem: "ext4".to_string() }),
            Step::Mount(MountPartition {
                partition: &sda3,
                mountpoint: "/tmp/lichen/home".to_string()
            }),
            Step::Format(FormatPartition { partition: &sda5, filesystem: "ext4".to_string() }),
            Step::Mount(MountPartition {
                partition: &sda5,
                mountpoint: "/tmp/lichen/var".to_string()
            }),
            Step::Bind(BindMount {
                source: "/dev".to_string(),
                dest: "/tmp/lichen/dev".to_string()
            }),
            Step::Bind(BindMount {
                source: "/proc".to_string(),
                dest: "/tmp/lichen/proc".to_string()
            }),
        ]
    );
    assert_eq!(
        cleanups,
        vec![
            unmount("/tmp/lichen/proc"),
            unmount("/tmp/lichen/dev"),
            unmount("/tmp/lichen/var"),
            unmount("/tmp/lichen/home"),
            unmount("/tmp/lichen"),
            Cleanup::Sync(SyncFS {}),
        ]
    );
}

#[test]
fn every_planned_step_is_supported() {
    let model = model(
        vec![partition("/dev/sda2", Some("/")), partition("/dev/sda3", Some("/home"))],
        Some("en_GB.UTF-8"),
    );
    let context = Context::new("/mnt");
    let (_, steps) = compile_to_steps(&model, &context, &vec!["/sys".to_string()]).unwrap();
    assert_eq!(steps.len(), 5);
    for step in &steps {
        assert!(step.is_supported());
    }
}

#[test]
fn second_root_is_mounted_like_any_other() {
    let model = model(
        vec![partition("/dev/sda2", Some("/")), partition("/dev/sdb1", Some("/"))],
        Some("C"),
    );
    let context = Context::new("/mnt");
    let (cleanups, steps) = compile_to_steps(&model, &context, &vec![]).unwrap();
    assert_eq!(steps.len(), 4);
    assert_eq!(cleanups, vec![unmount("/mnt"), unmount("/mnt"), Cleanup::Sync(SyncFS {})]);
}

#[test]
fn find_root_takes_the_first() {
    assert_eq!(find_root(&vec![]), None);
    assert_eq!(find_root(&vec![partition("/dev/a", None), partition("/dev/b", Some("/boot"))]), None);
    assert_eq!(
        find_root(&vec![
            partition("/dev/a", Some("/home")),
            partition("/dev/b", Some("/")),
            partition("/dev/c", Some("/")),
        ]),
        Some(1)
    );
}

#[test]
fn nest_path_places_paths_under_the_root() {
    assert_eq!(nest_path("/tmp/lichen", "/"), "/tmp/lichen");
    assert_eq!(nest_path("/tmp/lichen", "/dev"), "/tmp/lichen/dev");
    assert_eq!(nest_path("/tmp/lichen", "dev/pts"), "/tmp/lichen/dev/pts");
    assert_eq!(nest_path("/tmp/lichen", ""), "/tmp/lichen/");
    assert_eq!(nest_path("", "/sys"), "/sys");
}

#[test]
fn context_keeps_its_root() {
    let context = Context::new("/tmp/lichen");
    assert_eq!(context.root(), "/tmp/lichen");
}
