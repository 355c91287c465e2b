//! What one transfer is asked to do, and how it ended.

use vstd::prelude::*;
use crate::error::TransferError;
use crate::error::message_text;

verus! {

/// One item of a batch: an object in the store and a file on this machine.
#[derive(Debug, Clone, PartialEq, Eq)]
pub struct TransferDescriptor {
    /// The object's key in the store.
    pub object_key: String,
    /// The local file that is written (download) or read (upload).
    pub local_path: String,
}

/// A descriptor as plain text.
pub struct DescriptorModel {
    pub object_key: Seq<char>,
    pub local_path: Seq<char>,
}

impl View for TransferDescriptor {
    type V = DescriptorModel;

    open spec fn view(&self) -> DescriptorModel {
        DescriptorModel { object_key: self.object_key@, local_path: self.local_path@ }
    }
}

impl DeepView for TransferDescriptor {
    type V = DescriptorModel;

    open spec fn deep_view(&self) -> DescriptorModel {
        self.view()
    }
}

/// How one transfer ended. Each descriptor of a batch gets exactly one.
#[derive(Debug, Clone, PartialEq, Eq)]
pub enum TransferOutcome {
    /// The transfer went through; `path` is the local file involved.
    Success { path: String },
    /// The transfer failed; `key` names the item and `message` says why.
    Failure { key: String, message: String },
}

/// An outcome as plain text.
pub enum OutcomeModel {
    Success { path: Seq<char> },
    Failure { key: Seq<char>, message: Seq<char> },
}

impl View for TransferOutcome {
    type V = OutcomeModel;

    open spec fn view(&self) -> OutcomeModel {
        match self {
            TransferOutcome::Success { path } => OutcomeModel::Success { path: path@ },
            TransferOutcome::Failure { key, message } => OutcomeModel::Failure {
                key: key@,
                message: message@,
            },
        }
    }
}

impl DeepView for TransferOutcome {
    type V = OutcomeModel;

    open spec fn deep_view(&self) -> OutcomeModel {
        self.view()
    }
}

/// The outcome of `item` whose transfer ended with `ended`: a success
/// carries the item's local path, a failure the item's object key and the
/// error's text.
pub open spec fn outcome_of(item: DescriptorModel, ended: Result<(), TransferError>) -> OutcomeModel {
    match ended {
        Ok(_) => OutcomeModel::Success { path: item.local_path },
        Err(e) => OutcomeModel::Failure {
            key: item.object_key,
            message: message_text(e.stage, e.key@, e.path@, e.cause@),
        },
    }
}

/// Whether `outcome` speaks of `item`: a success by the item's local path,
/// a failure by the item's object key.
pub open spec fn belongs_to(outcome: OutcomeModel, item: DescriptorModel) -> bool {
    match outcome {
        OutcomeModel::Success { path } => path == item.local_path,
        OutcomeModel::Failure { key, .. } => key == item.object_key,
    }
}

impl TransferOutcome {
    /// Turns the end of one item's transfer into the item's outcome. A
    /// failure stops here: it is recorded under the item's object key and
    /// never reaches the batch as a fault.
    pub fn of_item(item: &TransferDescriptor, ended: Result<(), TransferError>) -> (outcome:
        TransferOutcome)
        ensures
            outcome@ == outcome_of(item@, ended),
            belongs_to(outcome@, item@),
    {
        match ended {
            Ok(_) => TransferOutcome::Success { path: item.local_path.clone() },
            Err(e) => {
                let message = e.message();
                TransferOutcome::Failure { key: item.object_key.clone(), message }
            },
        }
    }

    /// Whether the transfer went through.
    pub fn is_success(&self) -> (b: bool)
        ensures
            b == (self@ is Success),
    {
        match self {
            TransferOutcome::Success { .. } => true,
            TransferOutcome::Failure { .. } => false,
        }
    }
}

} // verus!
