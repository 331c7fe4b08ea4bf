use vstd::prelude::*;

use crate::layout::{lemma_files_distinct, ResourceFile};
use crate::load::{LoadResource, LoadStage, LoadStep};
use crate::request::{Reply, Request};
use crate::save::{SaveResource, SaveStage, SaveStep};

verus! {

/// Files on disk, each named by its directory and its file name, with the
/// text it holds.
pub type Disk = Map<(String, Seq<char>), String>;

/// How a faithful outside world answers a request: `locate` gives each
/// resource type its directory, a write replaces the file's text, a read
/// returns the text last written, and reading a missing file fails with
/// `missing`.
pub open spec fn answer(
    disk: Disk,
    locate: spec_fn(String) -> String,
    missing: String,
    request: Request,
) -> (Disk, Reply) {
    match request {
        Request::Locate { resource_type } => (disk, Reply::Located(Ok(locate(resource_type)))),
        Request::Write { dir, file, text } => (
            disk.insert((dir, file.name_spec()), text),
            Reply::Written(Ok(())),
        ),
        Request::Read { dir, file } => if disk.contains_key((dir, file.name_spec())) {
            (disk, Reply::ReadText(Ok(disk[(dir, file.name_spec())])))
        } else {
            (disk, Reply::ReadText(Err(missing)))
        },
    }
}

/// Runs a save against a faithful world for at most `fuel` requests; `None`
/// where it did not finish or was handed a reply it does not accept.
pub open spec fn run_save(
    disk: Disk,
    locate: spec_fn(String) -> String,
    missing: String,
    job: SaveResource,
    request: Request,
    fuel: nat,
) -> (Disk, Option<Result<(), String>>)
    decreases fuel,
{
    if fuel == 0 {
        (disk, None)
    } else {
        let (next_disk, reply) = answer(disk, locate, missing, request);
        if !job.accepts(reply) {
            (next_disk, None)
        } else {
            let (next_job, step) = job.next_spec(reply);
            match step {
                SaveStep::Finish(r) => (next_disk, Some(r)),
                SaveStep::Perform(next) => run_save(
                    next_disk,
                    locate,
                    missing,
                    next_job,
                    next,
                    (fuel - 1) as nat,
                ),
            }
        }
    }
}

/// Runs a load against a faithful world for at most `fuel` requests.
pub open spec fn run_load(
    disk: Disk,
    locate: spec_fn(String) -> String,
    missing: String,
    job: LoadResource,
    request: Request,
    fuel: nat,
) -> Option<Result<(String, String), String>>
    decreases fuel,
{
    if fuel == 0 {
        None
    } else {
        let (next_disk, reply) = answer(disk, locate, missing, request);
        if !job.accepts(reply) {
            None
        } else {
            let (next_job, step) = job.next_spec(reply);
            match step {
                LoadStep::Finish(r) => Some(r),
                LoadStep::Perform(next) => run_load(
                    next_disk,
                    locate,
                    missing,
                    next_job,
                    next,
                    (fuel - 1) as nat,
                ),
            }
        }
    }
}

/// A whole save, as `save_resource` starts it: the disk after it and its result.
pub open spec fn saved(
    disk: Disk,
    locate: spec_fn(String) -> String,
    missing: String,
    resource_type: String,
    content: String,
    meta: String,
) -> (Disk, Option<Result<(), String>>) {
    run_save(
        disk,
        locate,
        missing,
        SaveResource { content, meta, stage: SaveStage::Locating },
        Request::Locate { resource_type },
        3,
    )
}

/// A whole load, as `load_resource` starts it.
pub open spec fn loaded(
    disk: Disk,
    locate: spec_fn(String) -> String,
    missing: String,
    resource_type: String,
) -> Option<Result<(String, String), String>> {
    run_load(
        disk,
        locate,
        missing,
        LoadResource { stage: LoadStage::Locating },
        Request::Locate { resource_type },
        3,
    )
}

/// A save succeeds in a faithful world and leaves the two texts, exactly as
/// given, in the content and metadata files of the type's directory; nothing
/// else on disk changes.
pub proof fn lemma_save_stores_texts(
    disk: Disk,
    locate: spec_fn(String) -> String,
    missing: String,
    resource_type: String,
    content: String,
    meta: String,
)
    ensures
        saved(disk, locate, missing, resource_type, content, meta) == (
            disk.insert((locate(resource_type), ResourceFile::Content.name_spec()), content).insert(
                (locate(resource_type), ResourceFile::Meta.name_spec()),
                meta,
            ),
            Some(Ok::<(), String>(())),
        ),
{
    reveal_with_fuel(run_save, 4);
}

/// Loading a type after saving it returns the saved content and metadata,
/// whatever the texts are.
pub proof fn lemma_round_trip(
    disk: Disk,
    locate: spec_fn(String) -> String,
    missing: String,
    resource_type: String,
    content: String,
    meta: String,
)
    ensures
        saved(disk, locate, missing, resource_type, content, meta).1 == Some(Ok::<(), String>(())),
        loaded(
            saved(disk, locate, missing, resource_type, content, meta).0,
            locate,
            missing,
            resource_type,
        ) == Some(Ok::<(String, String), String>((content, meta))),
{
    reveal_with_fuel(run_save, 4);
    reveal_with_fuel(run_load, 4);
    lemma_files_distinct();
}

/// A second save of a type replaces the first: a load then returns what the
/// second save stored.
pub proof fn lemma_save_overwrites(
    disk: Disk,
    locate: spec_fn(String) -> String,
    missing: String,
    resource_type: String,
    content1: String,
    meta1: String,
    content2: String,
    meta2: String,
)
    ensures
        ({
            let first = saved(disk, locate, missing, resource_type, content1, meta1).0;
            let second = saved(first, locate, missing, resource_type, content2, meta2).0;
            loaded(second, locate, missing, resource_type) == Some(
                Ok::<(String, String), String>((content2, meta2)),
            )
        }),
{
    let first = saved(disk, locate, missing, resource_type, content1, meta1).0;
    lemma_round_trip(first, locate, missing, resource_type, content2, meta2);
}

/// Loading a type whose content file is not on disk fails with the read's
/// error; no empty or default value comes back.
pub proof fn lemma_load_unsaved(
    disk: Disk,
    locate: spec_fn(String) -> String,
    missing: String,
    resource_type: String,
)
    requires
        !disk.contains_key((locate(resource_type), ResourceFile::Content.name_spec())),
    ensures
        loaded(disk, locate, missing, resource_type) == Some(
            Err::<(String, String), String>(missing),
        ),
{
    reveal_with_fuel(run_load, 4);
}

/// Where each resource type has a directory of its own, saving one type
/// leaves what a load of another type returns unchanged.
pub proof fn lemma_types_independent(
    disk: Disk,
    locate: spec_fn(String) -> String,
    missing: String,
    saved_type: String,
    other_type: String,
    content: String,
    meta: String,
)
    requires
        saved_type != other_type,
        forall|a: String, b: String| #[trigger] locate(a) == #[trigger] locate(b) ==> a == b,
    ensures
        loaded(
            saved(disk, locate, missing, saved_type, content, meta).0,
            locate,
            missing,
            other_type,
        ) == loaded(disk, locate, missing, other_type),
{
    reveal_with_fuel(run_load, 4);
    lemma_save_stores_texts(disk, locate, missing, saved_type, content, meta);
    assert(locate(saved_type) != locate(other_type));
}

} // verus!
