//! Failures of a transfer and of a batch, with the text each one is reported by.

use vstd::prelude::*;

verus! {

/// The step of a transfer at which something went wrong.
#[derive(Clone, Copy, Debug, PartialEq, Eq, Structural)]
pub enum Stage {
    /// Asking the store for an object.
    GetObject,
    /// Creating or truncating the destination file.
    CreateFile,
    /// Reading the next chunk of the object's body.
    ReadBody,
    /// Writing a chunk to the destination file.
    WriteFile,
    /// Flushing the destination file.
    FlushFile,
    /// Opening the local file that is to be uploaded.
    OpenFile,
    /// Sending an object to the store.
    PutObject,
    /// Creating the directory a file is to be written into.
    CreateDirectory,
}

/// Which side a failure came from.
#[derive(Clone, Copy, Debug, PartialEq, Eq, Structural)]
pub enum ErrorKind {
    /// The store refused or the network failed.
    Remote,
    /// The local filesystem failed.
    Io,
}

/// The side that the given stage talks to.
pub open spec fn stage_kind(stage: Stage) -> ErrorKind {
    match stage {
        Stage::GetObject | Stage::ReadBody | Stage::PutObject => ErrorKind::Remote,
        _ => ErrorKind::Io,
    }
}

/// The text of a failure at `stage`, for an object `key`, a local `path` and
/// the `cause` given by whatever failed.
pub open spec fn message_text(stage: Stage, key: Seq<char>, path: Seq<char>, cause: Seq<char>) -> Seq<
    char,
> {
    match stage {
        Stage::GetObject => "Failed to get S3 object '"@ + key + "': "@ + cause,
        Stage::CreateFile => "Failed to create file '"@ + path + "': "@ + cause,
        Stage::ReadBody => "Failed to read S3 response body for '"@ + key + "': "@ + cause,
        Stage::WriteFile => "Failed to write to file '"@ + path + "': "@ + cause,
        Stage::FlushFile => "Failed to flush file '"@ + path + "': "@ + cause,
        Stage::OpenFile => "Failed to open file '"@ + path + "': "@ + cause,
        Stage::PutObject => "Failed to upload S3 object '"@ + path + "': '"@ + cause + "'"@,
        Stage::CreateDirectory => "Failed to create directory '"@ + path + "': "@ + cause,
    }
}

/// `head`, then `subject`, then `middle`, then `cause`, then `tail`.
fn compose(head: &str, subject: &str, middle: &str, cause: &str, tail: &str) -> (text: String)
    ensures
        text@ == head@ + subject@ + middle@ + cause@ + tail@,
{
    let mut text = String::from_str(head);
    text.append(subject);
    text.append(middle);
    text.append(cause);
    text.append(tail);
    text
}

/// The failure of one transfer. It is final for that item: nothing is retried.
#[derive(Debug, Clone, PartialEq, Eq)]
pub struct TransferError {
    /// The step that failed.
    pub stage: Stage,
    /// The object's key in the store.
    pub key: String,
    /// The local path the step worked on: the file, or at
    /// [`Stage::CreateDirectory`] the directory.
    pub path: String,
    /// What the store or the filesystem reported.
    pub cause: String,
}

impl TransferError {
    /// The side the failure came from.
    pub fn kind(&self) -> (kind: ErrorKind)
        ensures
            kind == stage_kind(self.stage),
    {
        match self.stage {
            Stage::GetObject | Stage::ReadBody | Stage::PutObject => ErrorKind::Remote,
            _ => ErrorKind::Io,
        }
    }

    /// The text the failure is reported by.
    pub fn message(&self) -> (text: String)
        ensures
            text@ == message_text(self.stage, self.key@, self.path@, self.cause@),
    {
        let key = self.key.as_str();
        let path = self.path.as_str();
        let cause = self.cause.as_str();
        let text = match self.stage {
            Stage::GetObject => compose("Failed to get S3 object '", key, "': ", cause, ""),
            Stage::CreateFile => compose("Failed to create file '", path, "': ", cause, ""),
            Stage::ReadBody => compose(
                "Failed to read S3 response body for '",
                key,
                "': ",
                cause,
                "",
            ),
            Stage::WriteFile => compose("Failed to write to file '", path, "': ", cause, ""),
            Stage::FlushFile => compose("Failed to flush file '", path, "': ", cause, ""),
            Stage::OpenFile => compose("Failed to open file '", path, "': ", cause, ""),
            Stage::PutObject => compose("Failed to upload S3 object '", path, "': '", cause, "'"),
            Stage::CreateDirectory => compose(
                "Failed to create directory '",
                path,
                "': ",
                cause,
                "",
            ),
        };
        proof {
            reveal_strlit("");
            assert(""@ =~= Seq::<char>::empty());
            assert(text@ =~= message_text(self.stage, self.key@, self.path@, self.cause@));
        }
        text
    }
}

/// A batch that could not start. No item was attempted.
#[derive(Debug, Clone, PartialEq, Eq)]
pub enum BatchSetupError {
    /// The directory shared by all items could not be created.
    Directory {
        /// The directory that could not be created.
        directory: String,
        /// What the filesystem reported.
        cause: String,
    },
    /// Two downloads of the batch would write to one local path, so what
    /// the file held afterwards would be open.
    SharedPath {
        /// The object key of the earlier of the two items.
        first_key: String,
        /// The object key of the later of the two items.
        second_key: String,
        /// The local path that both name.
        path: String,
    },
    /// The limit allows no transfer to run at all.
    ZeroLimit,
}

/// A setup failure as plain text.
pub enum SetupModel {
    Directory { directory: Seq<char>, cause: Seq<char> },
    SharedPath { first_key: Seq<char>, second_key: Seq<char>, path: Seq<char> },
    ZeroLimit,
}

impl View for BatchSetupError {
    type V = SetupModel;

    open spec fn view(&self) -> SetupModel {
        match self {
            BatchSetupError::Directory { directory, cause } => SetupModel::Directory {
                directory: directory@,
                cause: cause@,
            },
            BatchSetupError::SharedPath { first_key, second_key, path } => SetupModel::SharedPath {
                first_key: first_key@,
                second_key: second_key@,
                path: path@,
            },
            BatchSetupError::ZeroLimit => SetupModel::ZeroLimit,
        }
    }
}

/// The text a batch that could not start is reported by.
pub open spec fn setup_text(failure: SetupModel) -> Seq<char> {
    match failure {
        SetupModel::Directory { directory, cause } => message_text(
            Stage::CreateDirectory,
            Seq::empty(),
            directory,
            cause,
        ),
        SetupModel::SharedPath { first_key, second_key, path } => "Objects '"@ + first_key
            + "' and '"@ + second_key + "' would both be written to '"@ + path + "'"@,
        SetupModel::ZeroLimit => "The concurrency limit must be at least 1"@,
    }
}

impl BatchSetupError {
    /// The text the failure is reported by.
    pub fn message(&self) -> (text: String)
        ensures
            text@ == setup_text(self@),
    {
        match self {
            BatchSetupError::Directory { directory, cause } => {
                let text = compose(
                    "Failed to create directory '",
                    directory.as_str(),
                    "': ",
                    cause.as_str(),
                    "",
                );
                proof {
                    reveal_strlit("");
                    assert(""@ =~= Seq::<char>::empty());
                    assert(text@ =~= setup_text(self@));
                }
                text
            },
            BatchSetupError::SharedPath { first_key, second_key, path } => {
                let mut text = compose(
                    "Objects '",
                    first_key.as_str(),
                    "' and '",
                    second_key.as_str(),
                    "' would both be written to '",
                );
                text.append(path.as_str());
                text.append("'");
                text
            },
            BatchSetupError::ZeroLimit => String::from_str(
                "The concurrency limit must be at least 1",
            ),
        }
    }
}

} // verus!
