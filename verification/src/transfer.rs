//! The steps of one transfer.
//!
//! A transfer alternates work on the store or the filesystem with the
//! decision what to do next. The work is done by the caller; the decisions
//! are the two functions here, each from what has just happened to what is to
//! happen now. A failure of any step ends the transfer: nothing is retried
//! and nothing written so far is taken back.

use vstd::prelude::*;
use crate::error::Stage;
use crate::error::TransferError;
use crate::outcome::DescriptorModel;
use crate::outcome::TransferDescriptor;

verus! {

/// How the local paths of a download batch are provided for.
#[derive(Clone, Copy, Debug, PartialEq, Eq, Structural)]
pub enum DownloadMode {
    /// All files go into one directory, created once before the batch.
    Directory,
    /// Each item names its own path and creates that path's parent
    /// directory before it asks for the object.
    ExplicitPath,
}

/// What has just happened in a download.
#[derive(Debug, Clone, PartialEq, Eq)]
pub enum DownloadEvent {
    /// Nothing yet: the item's turn has come.
    Begin,
    /// The parent directory of the local path exists.
    DirectoryReady,
    /// The store has answered and the object's body can be read.
    ObjectOpened,
    /// The destination file is created, empty.
    FileCreated,
    /// A chunk of the body has arrived.
    ChunkRead,
    /// The body has no more chunks.
    BodyExhausted,
    /// The chunk read last has been written to the file.
    ChunkWritten,
    /// Everything written has reached the file.
    Flushed,
    /// The parent directory `directory` could not be created.
    DirectoryFailed { directory: String, cause: String },
    /// The step `stage` failed.
    Failed { stage: Stage, cause: String },
}

/// What has just happened in an upload.
#[derive(Debug, Clone, PartialEq, Eq)]
pub enum UploadEvent {
    /// Nothing yet: the item's turn has come.
    Begin,
    /// The local file is open for reading.
    FileOpened,
    /// The store has acknowledged the object.
    ObjectStored,
    /// The step `stage` failed.
    Failed { stage: Stage, cause: String },
}

/// What is to happen now in a transfer.
#[derive(Debug, Clone, PartialEq, Eq)]
pub enum TransferAction {
    /// Do the work of `stage`, then report what happened.
    Perform { stage: Stage },
    /// The transfer is over and went through; `path` is the local file.
    Succeed { path: String },
    /// The transfer is over and failed.
    Fail { error: TransferError },
}

/// An action as plain text.
pub enum ActionModel {
    Perform { stage: Stage },
    Succeed { path: Seq<char> },
    Fail { stage: Stage, key: Seq<char>, path: Seq<char>, cause: Seq<char> },
}

impl View for TransferAction {
    type V = ActionModel;

    open spec fn view(&self) -> ActionModel {
        match self {
            TransferAction::Perform { stage } => ActionModel::Perform { stage: *stage },
            TransferAction::Succeed { path } => ActionModel::Succeed { path: path@ },
            TransferAction::Fail { error } => ActionModel::Fail {
                stage: error.stage,
                key: error.key@,
                path: error.path@,
                cause: error.cause@,
            },
        }
    }
}

/// The step of a download that follows `event`.
///
/// The object is asked for first, in explicit-path mode after the parent
/// directory is there. The file is created once the store has answered.
/// Then chunks are read and written in turn, each written before the next
/// is read, until the body is exhausted; the file is flushed, and the
/// download returns its local path. Any failure ends it with an error that
/// names the step, the key and the path.
pub open spec fn download_action(
    mode: DownloadMode,
    event: DownloadEvent,
    item: DescriptorModel,
) -> ActionModel {
    match event {
        DownloadEvent::Begin => match mode {
            DownloadMode::Directory => ActionModel::Perform { stage: Stage::GetObject },
            DownloadMode::ExplicitPath => ActionModel::Perform { stage: Stage::CreateDirectory },
        },
        DownloadEvent::DirectoryReady => ActionModel::Perform { stage: Stage::GetObject },
        DownloadEvent::ObjectOpened => ActionModel::Perform { stage: Stage::CreateFile },
        DownloadEvent::FileCreated => ActionModel::Perform { stage: Stage::ReadBody },
        DownloadEvent::ChunkRead => ActionModel::Perform { stage: Stage::WriteFile },
        DownloadEvent::ChunkWritten => ActionModel::Perform { stage: Stage::ReadBody },
        DownloadEvent::BodyExhausted => ActionModel::Perform { stage: Stage::FlushFile },
        DownloadEvent::Flushed => ActionModel::Succeed { path: item.local_path },
        DownloadEvent::DirectoryFailed { directory, cause } => ActionModel::Fail {
            stage: Stage::CreateDirectory,
            key: item.object_key,
            path: directory@,
            cause: cause@,
        },
        DownloadEvent::Failed { stage, cause } => ActionModel::Fail {
            stage,
            key: item.object_key,
            path: item.local_path,
            cause: cause@,
        },
    }
}

/// The step of an upload that follows `event`: the local file is opened,
/// then sent, and the upload returns the local path. Any failure ends it.
pub open spec fn upload_action(event: UploadEvent, item: DescriptorModel) -> ActionModel {
    match event {
        UploadEvent::Begin => ActionModel::Perform { stage: Stage::OpenFile },
        UploadEvent::FileOpened => ActionModel::Perform { stage: Stage::PutObject },
        UploadEvent::ObjectStored => ActionModel::Succeed { path: item.local_path },
        UploadEvent::Failed { stage, cause } => ActionModel::Fail {
            stage,
            key: item.object_key,
            path: item.local_path,
            cause: cause@,
        },
    }
}

/// Decides the next step of the download of `item`.
pub fn download_next(mode: DownloadMode, event: DownloadEvent, item: &TransferDescriptor) -> (action:
    TransferAction)
    ensures
        action@ == download_action(mode, event, item@),
{
    match event {
        DownloadEvent::Begin => match mode {
            DownloadMode::Directory => TransferAction::Perform { stage: Stage::GetObject },
            DownloadMode::ExplicitPath => TransferAction::Perform { stage: Stage::CreateDirectory },
        },
        DownloadEvent::DirectoryReady => TransferAction::Perform { stage: Stage::GetObject },
        DownloadEvent::ObjectOpened => TransferAction::Perform { stage: Stage::CreateFile },
        DownloadEvent::FileCreated => TransferAction::Perform { stage: Stage::ReadBody },
        DownloadEvent::ChunkRead => TransferAction::Perform { stage: Stage::WriteFile },
        DownloadEvent::ChunkWritten => TransferAction::Perform { stage: Stage::ReadBody },
        DownloadEvent::BodyExhausted => TransferAction::Perform { stage: Stage::FlushFile },
        DownloadEvent::Flushed => TransferAction::Succeed { path: item.local_path.clone() },
        DownloadEvent::DirectoryFailed { directory, cause } => TransferAction::Fail {
            error: TransferError {
                stage: Stage::CreateDirectory,
                key: item.object_key.clone(),
                path: directory,
                cause,
            },
        },
        DownloadEvent::Failed { stage, cause } => TransferAction::Fail {
            error: TransferError {
                stage,
                key: item.object_key.clone(),
                path: item.local_path.clone(),
                cause,
            },
        },
    }
}

/// Decides the next step of the upload of `item`.
pub fn upload_next(event: UploadEvent, item: &TransferDescriptor) -> (action: TransferAction)
    ensures
        action@ == upload_action(event, item@),
{
    match event {
        UploadEvent::Begin => TransferAction::Perform { stage: Stage::OpenFile },
        UploadEvent::FileOpened => TransferAction::Perform { stage: Stage::PutObject },
        UploadEvent::ObjectStored => TransferAction::Succeed { path: item.local_path.clone() },
        UploadEvent::Failed { stage, cause } => TransferAction::Fail {
            error: TransferError {
                stage,
                key: item.object_key.clone(),
                path: item.local_path.clone(),
                cause,
            },
        },
    }
}

impl TransferAction {
    /// The result of a transfer that is over; `None` while a step is still
    /// to be performed.
    pub fn into_result(self) -> (result: Option<Result<String, TransferError>>)
        ensures
            match self {
                TransferAction::Perform { .. } => result is None,
                TransferAction::Succeed { path } => result == Some(
                    Ok::<String, TransferError>(path),
                ),
                TransferAction::Fail { error } => result == Some(
                    Err::<String, TransferError>(error),
                ),
            },
    {
        match self {
            TransferAction::Perform { .. } => None,
            TransferAction::Succeed { path } => Some(Ok(path)),
            TransferAction::Fail { error } => Some(Err(error)),
        }
    }
}

/// Whether `event` tells how the work of `stage` went.
pub open spec fn reports_on(event: DownloadEvent, stage: Stage) -> bool {
    match event {
        DownloadEvent::Begin => false,
        DownloadEvent::DirectoryReady => stage == Stage::CreateDirectory,
        DownloadEvent::DirectoryFailed { .. } => stage == Stage::CreateDirectory,
        DownloadEvent::ObjectOpened => stage == Stage::GetObject,
        DownloadEvent::FileCreated => stage == Stage::CreateFile,
        DownloadEvent::ChunkRead => stage == Stage::ReadBody,
        DownloadEvent::BodyExhausted => stage == Stage::ReadBody,
        DownloadEvent::ChunkWritten => stage == Stage::WriteFile,
        DownloadEvent::Flushed => stage == Stage::FlushFile,
        DownloadEvent::Failed { stage: failed, .. } => failed == stage,
    }
}

/// Whether `events` can be what happens in one download of `item`, in
/// order: it begins with the item's turn, and each later event tells how
/// the step went that was decided on the event before it.
pub open spec fn is_download_run(
    mode: DownloadMode,
    item: DescriptorModel,
    events: Seq<DownloadEvent>,
) -> bool {
    &&& events.len() >= 1
    &&& events[0] is Begin
    &&& forall|i: int|
        0 <= i < events.len() - 1 ==> (#[trigger] download_action(mode, events[i], item)
            matches ActionModel::Perform { stage } && reports_on(events[i + 1], stage))
}

/// How many chunks `events` reports as read.
pub open spec fn chunks_read(events: Seq<DownloadEvent>) -> nat
    decreases events.len(),
{
    if events.len() == 0 {
        0
    } else if events.last() is ChunkRead {
        chunks_read(events.drop_last()) + 1
    } else {
        chunks_read(events.drop_last())
    }
}

/// How many chunks `events` reports as written.
pub open spec fn chunks_written(events: Seq<DownloadEvent>) -> nat
    decreases events.len(),
{
    if events.len() == 0 {
        0
    } else if events.last() is ChunkWritten {
        chunks_written(events.drop_last()) + 1
    } else {
        chunks_written(events.drop_last())
    }
}

/// A download writes the chunks it reads, one by one: at no time is more
/// than one chunk read and not yet written, and a download that goes through
/// has written every chunk it read and flushed the file after the last.
pub proof fn lemma_download_writes_what_it_reads(
    mode: DownloadMode,
    item: DescriptorModel,
    events: Seq<DownloadEvent>,
)
    requires
        is_download_run(mode, item, events),
    ensures
        chunks_written(events) <= chunks_read(events) <= chunks_written(events) + 1,
        events.last() is ChunkRead ==> chunks_read(events) == chunks_written(events) + 1,
        !(events.last() is ChunkRead) && !(download_action(mode, events.last(), item) is Fail)
            ==> chunks_read(events) == chunks_written(events),
        download_action(mode, events.last(), item) is Succeed ==> {
            &&& chunks_read(events) == chunks_written(events)
            &&& events.last() is Flushed
            &&& events.len() >= 2
            &&& events[events.len() - 2] is BodyExhausted
        },
    decreases events.len(),
{
    if events.len() == 1 {
        assert(chunks_read(events.drop_last()) == 0);
        assert(chunks_written(events.drop_last()) == 0);
        assert(events.last() == events[0]);
    } else {
        let earlier = events.drop_last();
        let before = earlier.last();
        assert(is_download_run(mode, item, earlier)) by {
            assert forall|i: int| 0 <= i < earlier.len() - 1 implies (#[trigger] download_action(
                mode,
                earlier[i],
                item,
            ) matches ActionModel::Perform { stage } && reports_on(earlier[i + 1], stage)) by {
                assert(earlier[i] == events[i]);
                assert(earlier[i + 1] == events[i + 1]);
            }
        }
        lemma_download_writes_what_it_reads(mode, item, earlier);
        assert(before == events[events.len() - 2]);
        let decided = download_action(mode, events[events.len() - 2], item);
        assert(decided matches ActionModel::Perform { stage } && reports_on(
            events[events.len() - 2 + 1],
            stage,
        ));
        assert(events[events.len() - 2 + 1] == events.last());
        assert(!(download_action(mode, before, item) is Fail));
        if before is ChunkRead {
            assert(decided == (ActionModel::Perform { stage: Stage::WriteFile }));
            assert(chunks_read(earlier) == chunks_written(earlier) + 1);
        } else {
            assert(chunks_read(earlier) == chunks_written(earlier));
        }
    }
}

/// A failed step is never tried again: whatever step fails, what follows is
/// the end of the transfer with that step's error.
pub proof fn lemma_failure_is_final(
    mode: DownloadMode,
    item: DescriptorModel,
    stage: Stage,
    cause: String,
)
    ensures
        download_action(mode, DownloadEvent::Failed { stage, cause }, item) == (ActionModel::Fail {
            stage,
            key: item.object_key,
            path: item.local_path,
            cause: cause@,
        }),
        upload_action(UploadEvent::Failed { stage, cause }, item) == (ActionModel::Fail {
            stage,
            key: item.object_key,
            path: item.local_path,
            cause: cause@,
        }),
{
}


} // verus!
