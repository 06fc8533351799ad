//! The plan compiler: from a model of the target system to the ordered
//! filesystem steps of an installation and the cleanups that undo them.

use vstd::prelude::*;
use crate::command::{Error, MissingField};
use crate::context::Context;
use crate::steps::{Cleanup, CleanupView, Step, StepView};
use crate::steps::partitions::{BindMount, FormatPartition, MountPartition, Partition, SyncFS, Unmount};

verus! {

/// A user of the target system.
#[derive(Debug, PartialEq, Eq)]
pub struct Account {
    pub username: String,
    pub password: Option<String>,
    pub shell: String,
}

/// The target system, as it was chosen.
#[derive(Debug, PartialEq, Eq)]
pub struct Model {
    pub accounts: Vec<Account>,
    pub boot_partition: Partition,
    /// The partitions to install onto. One without a mountpoint is left alone.
    pub partitions: Vec<Partition>,
    pub locale: Option<String>,
    pub timezone: Option<String>,
    pub packages: Vec<String>,
}

/// The partition is to hold the root of the target system.
pub open spec fn is_root(partition: Partition) -> bool {
    partition.mountpoint matches Some(mountpoint) && mountpoint@ == "/"@
}

/// The index of the first root partition at or after `start`.
pub open spec fn root_from(partitions: Seq<Partition>, start: int) -> Option<int>
    decreases partitions.len() - start,
{
    if start < 0 || start >= partitions.len() {
        None
    } else if is_root(partitions[start]) {
        Some(start)
    } else {
        root_from(partitions, start + 1)
    }
}

/// The index of the first partition that is to hold the root.
pub open spec fn root_index(partitions: Seq<Partition>) -> Option<int> {
    root_from(partitions, 0)
}

/// Finds the first partition that is to hold the root.
pub fn find_root(partitions: &Vec<Partition>) -> (found: Option<usize>)
    ensures
        match found {
            Some(index) => index < partitions.len() && root_index(partitions@) == Some(
                index as int,
            ),
            None => root_index(partitions@) is None,
        },
{
    let root = String::from_str("/");
    let mut index: usize = 0;
    while index < partitions.len()
        invariant
            index <= partitions.len(),
            root@ == "/"@,
            root_index(partitions@) == root_from(partitions@, index as int),
        decreases partitions.len() - index,
    {
        let holds_root = match &partitions[index].mountpoint {
            Some(mountpoint) => *mountpoint == root,
            None => false,
        };
        if holds_root {
            return Some(index);
        }
        index += 1;
    }
    None
}

/// Where a path of the target system lies while the target is mounted at
/// `root`: the root of the target is `root` itself, and any other path
/// follows it, parted from it by one `/`.
pub open spec fn nested_path(root: Seq<char>, inner: Seq<char>) -> Seq<char> {
    if inner == "/"@ {
        root
    } else if inner.len() > 0 && inner[0] == '/' {
        root + inner
    } else {
        root + "/"@ + inner
    }
}

/// Places a path of the target system under the root it is mounted at.
pub fn nest_path(root: &str, inner: &str) -> (path: String)
    ensures
        path@ == nested_path(root@, inner@),
{
    let mut path = String::from_str(root);
    if String::from_str(inner) == String::from_str("/") {
        return path;
    }
    if !inner.is_empty() && inner.get_char(0) == '/' {
        path.append(inner);
    } else {
        path.append("/");
        path.append(inner);
    }
    path
}

/// Formatting a device and mounting it at `target`, in that order.
pub open spec fn mount_steps(device: Seq<char>, target: Seq<char>) -> Seq<StepView> {
    seq![
        StepView::Format { device, filesystem: "ext4"@ },
        StepView::Mount { device, mountpoint: target },
    ]
}

/// The steps for the first `upto` partitions, in their order, leaving out
/// the partition at `first` and every partition without a mountpoint.
pub open spec fn partition_steps(
    partitions: Seq<Partition>,
    root: Seq<char>,
    first: int,
    upto: int,
) -> Seq<StepView>
    decreases upto,
{
    if upto <= 0 {
        Seq::empty()
    } else {
        let before = partition_steps(partitions, root, first, upto - 1);
        let partition = partitions[upto - 1];
        if upto - 1 != first && partition.mountpoint is Some {
            before + mount_steps(
                partition.path@,
                nested_path(root, partition.mountpoint.unwrap()@),
            )
        } else {
            before
        }
    }
}

/// One bind mount for each shared directory of the host, in their order, each
/// onto the same path under the root of the target.
pub open spec fn bind_steps(shared: Seq<String>, root: Seq<char>) -> Seq<StepView> {
    Seq::new(
        shared.len(),
        |i: int| StepView::Bind { source: shared[i]@, dest: nested_path(root, shared[i]@) },
    )
}

/// The forward plan: the root partition, at `first`, is formatted and
/// mounted at `root`; then every other partition with a mountpoint is
/// formatted and mounted under it; then the shared directories are bound.
pub open spec fn plan_steps(
    partitions: Seq<Partition>,
    root: Seq<char>,
    shared: Seq<String>,
    first: int,
) -> Seq<StepView> {
    mount_steps(partitions[first].path@, root) + partition_steps(
        partitions,
        root,
        first,
        partitions.len() as int,
    ) + bind_steps(shared, root)
}

/// The mountpoints that a sequence of steps brings into being, in the order
/// in which it does.
pub open spec fn established(steps: Seq<StepView>) -> Seq<Seq<char>>
    decreases steps.len(),
{
    if steps.len() == 0 {
        Seq::empty()
    } else {
        let before = established(steps.drop_last());
        match steps.last() {
            StepView::Format { .. } => before,
            StepView::Mount { mountpoint, .. } => before.push(mountpoint),
            StepView::Bind { dest, .. } => before.push(dest),
        }
    }
}

/// The cleanups that undo a sequence of steps: one unmount for each
/// mountpoint it brings into being, the last one first, and then one sync.
pub open spec fn unwinding(steps: Seq<StepView>) -> Seq<CleanupView> {
    let mounts = established(steps);
    Seq::new(
        mounts.len() + 1,
        |k: int|
            if k < mounts.len() {
                CleanupView::Unmount { mountpoint: mounts[mounts.len() - 1 - k] }
            } else {
                CleanupView::Sync
            },
    )
}

/// The model can be planned for: it names a root partition and a locale.
pub open spec fn complete(model: Model) -> bool {
    root_index(model.partitions@) is Some && model.locale is Some
}

proof fn lemma_established_push(steps: Seq<StepView>, step: StepView)
    ensures
        established(steps.push(step)) == match step {
            StepView::Format { .. } => established(steps),
            StepView::Mount { mountpoint, .. } => established(steps).push(mountpoint),
            StepView::Bind { dest, .. } => established(steps).push(dest),
        },
{
    assert(steps.push(step).drop_last() =~= steps);
}

proof fn lemma_established_mount(steps: Seq<StepView>, device: Seq<char>, target: Seq<char>)
    ensures
        established(steps + mount_steps(device, target)) == established(steps).push(target),
{
    let format = StepView::Format { device, filesystem: "ext4"@ };
    let mount = StepView::Mount { device, mountpoint: target };
    assert(steps + mount_steps(device, target) =~= steps.push(format).push(mount));
    lemma_established_push(steps, format);
    lemma_established_push(steps.push(format), mount);
}

/// Appends the formatting and the mounting of one partition to a plan.
fn push_mount<'a>(
    steps: &mut Vec<Step<'a>>,
    mounts: &mut Vec<String>,
    partition: &'a Partition,
    target: String,
)
    requires
        old(mounts).deep_view() == established(old(steps).deep_view()),
    ensures
        final(steps).deep_view() == old(steps).deep_view() + mount_steps(partition.path@, target@),
        final(mounts).deep_view() == established(final(steps).deep_view()),
{
    proof {
        lemma_established_mount(steps.deep_view(), partition.path@, target@);
    }
    let format = FormatPartition { partition, filesystem: String::from_str("ext4") };
    let mount = MountPartition { partition, mountpoint: target.clone() };
    steps.push(Step::Format(format));
    steps.push(Step::Mount(mount));
    mounts.push(target);
    assert(mounts.deep_view() =~= old(mounts).deep_view().push(target@));
}

/// The cleanups that release the given mountpoints, the last one first,
/// followed by one sync.
fn unwind(mounts: &Vec<String>) -> (cleanups: Vec<Cleanup>)
    ensures
        cleanups.deep_view() == Seq::new(
            mounts.len() as nat + 1,
            |k: int|
                if k < mounts.len() {
                    CleanupView::Unmount { mountpoint: mounts[mounts.len() - 1 - k]@ }
                } else {
                    CleanupView::Sync
                },
        ),
{
    let mut cleanups: Vec<Cleanup> = Vec::new();
    let mut left: usize = mounts.len();
    while left > 0
        invariant
            left <= mounts.len(),
            cleanups.len() == mounts.len() - left,
            forall|k: int|
                0 <= k < cleanups.len() ==> #[trigger] cleanups[k]@ == (CleanupView::Unmount {
                    mountpoint: mounts[mounts.len() - 1 - k]@,
                }),
        decreases left,
    {
        left -= 1;
        cleanups.push(Cleanup::Unmount(Unmount { mountpoint: mounts[left].clone() }));
    }
    cleanups.push(Cleanup::Sync(SyncFS {  }));
    cleanups
}

/// Compiles a model into the cleanups and the forward steps of its
/// installation under the root of `context`, with the `shared` directories of
/// the host exposed inside the target.
///
/// A model without a root partition, or else without a locale, is refused
/// before any step is made. Otherwise the steps are exactly the forward plan
/// and the cleanups exactly what undoes it.
pub fn compile_to_steps<'a>(model: &'a Model, context: &Context, shared: &Vec<String>) -> (plan:
    Result<(Vec<Cleanup>, Vec<Step<'a>>), Error>)
    ensures
        match plan {
            Ok((cleanups, steps)) => {
                &&& complete(*model)
                &&& steps.deep_view() == plan_steps(
                    model.partitions@,
                    context.root_spec(),
                    shared@,
                    root_index(model.partitions@).unwrap(),
                )
                &&& cleanups.deep_view() == unwinding(steps.deep_view())
            },
            Err(e) => {
                &&& !complete(*model)
                &&& e == (Error::ModelIncomplete {
                    missing: if root_index(model.partitions@) is None {
                        MissingField::RootPartition
                    } else {
                        MissingField::Locale
                    },
                })
            },
        },
{
    let first = match find_root(&model.partitions) {
        Some(index) => index,
        None => {
            return Err(Error::ModelIncomplete { missing: MissingField::RootPartition });
        },
    };
    if model.locale.is_none() {
        return Err(Error::ModelIncomplete { missing: MissingField::Locale });
    }
    let root = context.root();
    let mut steps: Vec<Step<'a>> = Vec::new();
    let mut mounts: Vec<String> = Vec::new();
    assert(mounts.deep_view() =~= established(steps.deep_view()));
    push_mount(&mut steps, &mut mounts, &model.partitions[first], root.clone());
    let ghost head = steps.deep_view();

    let mut index: usize = 0;
    while index < model.partitions.len()
        invariant
            index <= model.partitions.len(),
            first < model.partitions.len(),
            root@ == context.root_spec(),
            steps.deep_view() == head + partition_steps(
                model.partitions@,
                root@,
                first as int,
                index as int,
            ),
            mounts.deep_view() == established(steps.deep_view()),
        decreases model.partitions.len() - index,
    {
        let partition = &model.partitions[index];
        if index != first {
            if let Some(mountpoint) = &partition.mountpoint {
                let target = nest_path(root.as_str(), mountpoint.as_str());
                push_mount(&mut steps, &mut mounts, partition, target);
            }
        }
        index += 1;
    }
    let ghost body = steps.deep_view();

    let mut bound: usize = 0;
    while bound < shared.len()
        invariant
            bound <= shared.len(),
            root@ == context.root_spec(),
            steps.deep_view() == body + bind_steps(shared@, root@).take(bound as int),
            mounts.deep_view() == established(steps.deep_view()),
        decreases shared.len() - bound,
    {
        let source = &shared[bound];
        let dest = nest_path(root.as_str(), source.as_str());
        let ghost before = steps.deep_view();
        let ghost step = StepView::Bind { source: source@, dest: dest@ };
        proof {
            lemma_established_push(before, step);
        }
        steps.push(Step::Bind(BindMount { source: source.clone(), dest: dest.clone() }));
        mounts.push(dest);
        bound += 1;
        assert(steps.deep_view() =~= before.push(step));
    }

    let cleanups = unwind(&mounts);
    Ok((cleanups, steps))
}

/// The step brings a mountpoint into being.
pub open spec fn is_mount(step: StepView) -> bool {
    !(step is Format)
}

/// Every mount in the sequence directly follows the formatting of the
/// device it mounts.
pub open spec fn formatted_before_mounted(steps: Seq<StepView>) -> bool {
    forall|k: int|
        0 <= k < steps.len() && (#[trigger] steps[k]) is Mount ==> k > 0 && steps[k - 1] == (
        StepView::Format { device: steps[k]->Mount_device, filesystem: "ext4"@ })
}

/// A sequence of steps brings into being one mountpoint for each of its
/// mounts and bind mounts.
pub proof fn law_one_mountpoint_per_mount(steps: Seq<StepView>)
    ensures
        established(steps).len() == steps.filter(|step: StepView| is_mount(step)).len(),
    decreases steps.len(),
{
    reveal(Seq::filter);
    if steps.len() > 0 {
        law_one_mountpoint_per_mount(steps.drop_last());
    }
}

/// The cleanups that undo a sequence of steps with N mounts are N unmounts,
/// of the mountpoints in the reverse of the order in which they came into
/// being, and then one sync, which is last.
pub proof fn law_cleanups_mirror_mounts(steps: Seq<StepView>)
    ensures
        unwinding(steps).len() == established(steps).len() + 1,
        unwinding(steps).last() == CleanupView::Sync,
        forall|k: int|
            0 <= k < established(steps).len() ==> #[trigger] unwinding(steps)[k] == (
            CleanupView::Unmount {
                mountpoint: established(steps)[established(steps).len() - 1 - k],
            }),
{
}

proof fn lemma_partition_steps_paired(
    partitions: Seq<Partition>,
    root: Seq<char>,
    first: int,
    upto: int,
)
    ensures
        formatted_before_mounted(partition_steps(partitions, root, first, upto)),
        forall|k: int|
            0 <= k < partition_steps(partitions, root, first, upto).len() ==> !(
            #[trigger] partition_steps(partitions, root, first, upto)[k] is Bind),
    decreases upto,
{
    if upto > 0 {
        lemma_partition_steps_paired(partitions, root, first, upto - 1);
    }
}

/// In a forward plan every partition is formatted directly before it is
/// mounted.
pub proof fn law_format_precedes_mount(
    partitions: Seq<Partition>,
    root: Seq<char>,
    shared: Seq<String>,
    first: int,
)
    ensures
        formatted_before_mounted(plan_steps(partitions, root, shared, first)),
{
    lemma_partition_steps_paired(partitions, root, first, partitions.len() as int);
}

/// In a forward plan the root of the target is mounted by the second step,
/// right after its partition is formatted, so before any other mount; and
/// every bind mount comes after every mount of a partition.
pub proof fn law_root_mounted_first(
    partitions: Seq<Partition>,
    root: Seq<char>,
    shared: Seq<String>,
    first: int,
)
    ensures
        ({
            let plan = plan_steps(partitions, root, shared, first);
            &&& plan.len() >= 2
            &&& plan[0] == (StepView::Format {
                device: partitions[first].path@,
                filesystem: "ext4"@,
            })
            &&& plan[1] == (StepView::Mount { device: partitions[first].path@, mountpoint: root })
            &&& forall|j: int, k: int|
                0 <= j < plan.len() && 0 <= k < plan.len() && (#[trigger] plan[j]) is Bind && !(
                #[trigger] plan[k] is Bind) ==> k < j
        }),
{
    lemma_partition_steps_paired(partitions, root, first, partitions.len() as int);
}

} // verus!
