//! The descriptors of a batch and the entry of each item's result into it.

use vstd::prelude::*;
use crate::coordinator::Coordinator;
use crate::coordinator::CoordinatorModel;
use crate::error::BatchSetupError;
use crate::error::SetupModel;
use crate::outcome::DescriptorModel;
use crate::outcome::TransferDescriptor;
use crate::path::directory_path;
use crate::path::resolve_for_directory;

verus! {

/// How many transfers of a batch run at once where the caller names no
/// limit.
pub const DEFAULT_CONCURRENCY: usize = 5;

/// Which way a batch moves its objects.
#[derive(Clone, Copy, Debug, PartialEq, Eq, Structural)]
pub enum Direction {
    /// From the store to local files.
    Download,
    /// From local files to the store.
    Upload,
}

/// The descriptors of a directory-mode download: one per key, in order,
/// each with the path of the key's final segment inside `base`.
pub open spec fn directory_plan(keys: Seq<Seq<char>>, base: Seq<char>) -> Seq<DescriptorModel> {
    Seq::new(
        keys.len(),
        |i: int| DescriptorModel { object_key: keys[i], local_path: directory_path(keys[i], base) },
    )
}

/// The descriptors of an explicit-path download: one per pair of key and
/// local path, in order.
pub open spec fn explicit_plan(downloads: Seq<(Seq<char>, Seq<char>)>) -> Seq<DescriptorModel> {
    Seq::new(
        downloads.len(),
        |i: int| DescriptorModel { object_key: downloads[i].0, local_path: downloads[i].1 },
    )
}

/// The descriptors of an upload: one per pair of local path and key, in
/// order.
pub open spec fn upload_plan(paths_and_keys: Seq<(Seq<char>, Seq<char>)>) -> Seq<DescriptorModel> {
    Seq::new(
        paths_and_keys.len(),
        |i: int|
            DescriptorModel { object_key: paths_and_keys[i].1, local_path: paths_and_keys[i].0 },
    )
}

/// Describes a directory-mode download of `object_keys` into
/// `base_directory`.
pub fn plan_directory_downloads(object_keys: Vec<String>, base_directory: &str) -> (plan: Vec<
    TransferDescriptor,
>)
    ensures
        plan.deep_view() == directory_plan(object_keys.deep_view(), base_directory@),
{
    let ghost keys = object_keys.deep_view();
    let mut plan: Vec<TransferDescriptor> = Vec::new();
    for object_key in it: object_keys
        invariant
            keys == object_keys.deep_view(),
            it.seq() == object_keys@,
            plan.len() == it.index(),
            forall|i: int|
                0 <= i < plan.len() ==> (#[trigger] plan[i])@ == directory_plan(
                    keys,
                    base_directory@,
                )[i],
    {
        let local_path = resolve_for_directory(object_key.as_str(), base_directory);
        plan.push(TransferDescriptor { object_key, local_path });
    }
    assert(plan.deep_view() =~= directory_plan(keys, base_directory@));
    plan
}

/// Describes an explicit-path download of pairs `(object key, local path)`.
pub fn plan_explicit_downloads(downloads: Vec<(String, String)>) -> (plan: Vec<TransferDescriptor>)
    ensures
        plan.deep_view() == explicit_plan(downloads.deep_view()),
{
    let ghost pairs = downloads.deep_view();
    let mut plan: Vec<TransferDescriptor> = Vec::new();
    for pair in it: downloads
        invariant
            pairs == downloads.deep_view(),
            it.seq() == downloads@,
            plan.len() == it.index(),
            forall|i: int| 0 <= i < plan.len() ==> (#[trigger] plan[i])@ == explicit_plan(pairs)[i],
    {
        plan.push(TransferDescriptor { object_key: pair.0, local_path: pair.1 });
    }
    assert(plan.deep_view() =~= explicit_plan(pairs));
    plan
}

/// Describes an upload of pairs `(local path, object key)`.
pub fn plan_uploads(paths_and_keys: Vec<(String, String)>) -> (plan: Vec<TransferDescriptor>)
    ensures
        plan.deep_view() == upload_plan(paths_and_keys.deep_view()),
{
    let ghost pairs = paths_and_keys.deep_view();
    let mut plan: Vec<TransferDescriptor> = Vec::new();
    for pair in it: paths_and_keys
        invariant
            pairs == paths_and_keys.deep_view(),
            it.seq() == paths_and_keys@,
            plan.len() == it.index(),
            forall|i: int| 0 <= i < plan.len() ==> (#[trigger] plan[i])@ == upload_plan(pairs)[i],
    {
        plan.push(TransferDescriptor { object_key: pair.1, local_path: pair.0 });
    }
    assert(plan.deep_view() =~= upload_plan(pairs));
    plan
}

/// Decides whether a directory-mode batch can start, from the attempt to
/// create `base_directory`: a failure there stops the whole batch before
/// any item is tried.
pub fn check_setup(base_directory: &str, created: Result<(), String>) -> (ready: Result<
    (),
    BatchSetupError,
>)
    ensures
        created is Ok <==> ready is Ok,
        created matches Err(cause) ==> ready->Err_0@ == (SetupModel::Directory {
            directory: base_directory@,
            cause: cause@,
        }),
{
    match created {
        Ok(()) => Ok(()),
        Err(cause) => Err(
            BatchSetupError::Directory { directory: String::from_str(base_directory), cause },
        ),
    }
}

/// Whether the descriptors at `first` and `second`, two positions of `plan`
/// in this order, name the same local path.
pub open spec fn shares_path(plan: Seq<DescriptorModel>, first: int, second: int) -> bool {
    0 <= first < second < plan.len() && plan[first].local_path == plan[second].local_path
}

/// Whether `first` and `second` are the first two positions of `plan` that
/// share a local path: no pair ends before `second`, and none that ends at
/// `second` begins before `first`.
pub open spec fn is_first_shared(plan: Seq<DescriptorModel>, first: int, second: int) -> bool {
    &&& shares_path(plan, first, second)
    &&& forall|a: int, b: int| b < second ==> !shares_path(plan, a, b)
    &&& forall|a: int| a < first ==> !shares_path(plan, a, second)
}

/// Looks for two descriptors of one batch that name the same local path.
///
/// Returns `None` exactly when all local paths differ, else the first two
/// positions that share one.
pub fn find_shared_path(plan: &Vec<TransferDescriptor>) -> (found: Option<(usize, usize)>)
    ensures
        found is None ==> forall|a: int, b: int| !shares_path(plan.deep_view(), a, b),
        found matches Some((first, second)) ==> is_first_shared(
            plan.deep_view(),
            first as int,
            second as int,
        ),
{
    let ghost items = plan.deep_view();
    let n = plan.len();
    let mut second: usize = 0;
    while second < n
        invariant
            items == plan.deep_view(),
            n == plan.len(),
            0 <= second <= n,
            forall|a: int, b: int| b < second ==> !shares_path(items, a, b),
        decreases n - second,
    {
        let mut first: usize = 0;
        while first < second
            invariant
                items == plan.deep_view(),
                n == plan.len(),
                0 <= first <= second < n,
                forall|a: int, b: int| b < second ==> !shares_path(items, a, b),
                forall|a: int| a < first ==> !shares_path(items, a, second as int),
            decreases second - first,
        {
            if plan[first].local_path == plan[second].local_path {
                return Some((first, second));
            }
            first = first + 1;
        }
        second = second + 1;
    }
    None
}

/// Whether a batch of `plan` under `limit` may start: the limit lets at
/// least one transfer run, and no two downloads write to one local path.
/// Uploads may read one file twice.
pub open spec fn may_start(plan: Seq<DescriptorModel>, limit: nat, direction: Direction) -> bool {
    &&& limit >= 1
    &&& direction == Direction::Download ==> forall|a: int, b: int| !shares_path(plan, a, b)
}

/// Sets up the batch of `plan`, or says why it cannot start.
///
/// A limit of zero is refused first. A download batch is then refused where
/// two of its items name one local path; the failure names the first two
/// that do. Otherwise the batch is ready, with nothing started.
pub fn begin_batch(plan: Vec<TransferDescriptor>, limit: usize, direction: Direction) -> (ready:
    Result<Coordinator, BatchSetupError>)
    ensures
        ready is Ok <==> may_start(plan.deep_view(), limit as nat, direction),
        ready matches Ok(coordinator) ==> {
            &&& coordinator@ == CoordinatorModel::initial(plan.deep_view(), limit as nat)
            &&& coordinator@.wf()
        },
        ready matches Err(failure) ==> {
            &&& limit == 0 ==> failure@ == SetupModel::ZeroLimit
            &&& limit >= 1 ==> exists|first: int, second: int|
                {
                    &&& is_first_shared(plan.deep_view(), first, second)
                    &&& failure@ == (SetupModel::SharedPath {
                        first_key: plan.deep_view()[first].object_key,
                        second_key: plan.deep_view()[second].object_key,
                        path: plan.deep_view()[second].local_path,
                    })
                }
        },
{
    if limit == 0 {
        return Err(BatchSetupError::ZeroLimit);
    }
    match direction {
        Direction::Download => {
            match find_shared_path(&plan) {
                Some((first, second)) => {
                    let failure = BatchSetupError::SharedPath {
                        first_key: plan[first].object_key.clone(),
                        second_key: plan[second].object_key.clone(),
                        path: plan[second].local_path.clone(),
                    };
                    assert(is_first_shared(plan.deep_view(), first as int, second as int));
                    return Err(failure);
                },
                None => {},
            }
        },
        Direction::Upload => {},
    }
    Ok(Coordinator::new(plan, limit))
}

} // verus!
