//! The ways in which an operation on the log can fail.

use vstd::prelude::*;
use vstd::string::StringExecFns;

verus! {

/// The step of file handling at which the storage layer failed.
#[derive(Clone, Copy, Debug, PartialEq, Eq, Structural)]
pub enum IoStep {
    /// Finding the directory that holds the application's data.
    ResolveDataDir,
    /// Creating the directory that a file is to stand in.
    CreateDirectory,
    /// Creating a file.
    CreateFile,
    /// Writing a file's content.
    WriteFile,
    /// Opening a file in order to flush it.
    OpenForSync,
    /// Flushing a file to the storage device.
    SyncFile,
    /// Reading the log's file.
    ReadLog,
    /// Deleting the log's file.
    RemoveLog,
}

impl IoStep {
    /// The words that introduce a failure at this step.
    pub open spec fn spec_prefix(self) -> Seq<char> {
        match self {
            IoStep::ResolveDataDir => "Failed to get app data dir: "@,
            IoStep::CreateDirectory => "Failed to create directory: "@,
            IoStep::CreateFile => "Failed to create file: "@,
            IoStep::WriteFile => "Failed to write file: "@,
            IoStep::OpenForSync => "Failed to open file for sync: "@,
            IoStep::SyncFile => "Failed to sync file: "@,
            IoStep::ReadLog => "Failed to read WAL: "@,
            IoStep::RemoveLog => "Failed to remove WAL file: "@,
        }
    }

    /// The words that introduce a failure at this step.
    pub fn prefix(&self) -> (text: &'static str)
        ensures
            text@ == self.spec_prefix(),
    {
        match self {
            IoStep::ResolveDataDir => "Failed to get app data dir: ",
            IoStep::CreateDirectory => "Failed to create directory: ",
            IoStep::CreateFile => "Failed to create file: ",
            IoStep::WriteFile => "Failed to write file: ",
            IoStep::OpenForSync => "Failed to open file for sync: ",
            IoStep::SyncFile => "Failed to sync file: ",
            IoStep::ReadLog => "Failed to read WAL: ",
            IoStep::RemoveLog => "Failed to remove WAL file: ",
        }
    }
}

/// The direction in which an entry could not be turned into text or back.
#[derive(Clone, Copy, Debug, PartialEq, Eq, Structural)]
pub enum CodecStep {
    /// Writing an entry out as text.
    Encode,
    /// Reading an entry from the text in the log's file.
    Decode,
}

impl CodecStep {
    /// The words that introduce a failure in this direction.
    pub open spec fn spec_prefix(self) -> Seq<char> {
        match self {
            CodecStep::Encode => "Failed to serialize WAL entry: "@,
            CodecStep::Decode => "Failed to parse WAL: "@,
        }
    }

    /// The words that introduce a failure in this direction.
    pub fn prefix(&self) -> (text: &'static str)
        ensures
            text@ == self.spec_prefix(),
    {
        match self {
            CodecStep::Encode => "Failed to serialize WAL entry: ",
            CodecStep::Decode => "Failed to parse WAL: ",
        }
    }
}

/// Why an operation on the log failed.
#[derive(Debug, PartialEq, Eq)]
pub enum WalError {
    /// A transaction was to begin while the log still held another.
    Conflict,
    /// The storage layer failed at `step`; `cause` is what it reported.
    Io { step: IoStep, cause: String },
    /// An entry could not be encoded or decoded; `cause` is what the codec reported.
    Serialization { direction: CodecStep, cause: String },
}

/// A `WalError` as a mathematical value.
pub enum WalErrorView {
    Conflict,
    Io { step: IoStep, cause: Seq<char> },
    Serialization { direction: CodecStep, cause: Seq<char> },
}

impl View for WalError {
    type V = WalErrorView;

    open spec fn view(&self) -> WalErrorView {
        match self {
            WalError::Conflict => WalErrorView::Conflict,
            WalError::Io { step, cause } => WalErrorView::Io { step: *step, cause: cause@ },
            WalError::Serialization { direction, cause } => WalErrorView::Serialization {
                direction: *direction,
                cause: cause@,
            },
        }
    }
}

/// What a caller is told when a transaction is to begin while another is logged.
pub open spec fn spec_conflict_message() -> Seq<char> {
    "Cannot start new transaction: previous transaction still in progress. Please restart the application to recover."@
}

impl WalErrorView {
    /// The failure in words: what was attempted, then what the layer below reported.
    pub open spec fn message(self) -> Seq<char> {
        match self {
            WalErrorView::Conflict => spec_conflict_message(),
            WalErrorView::Io { step, cause } => step.spec_prefix() + cause,
            WalErrorView::Serialization { direction, cause } => direction.spec_prefix() + cause,
        }
    }
}

impl WalError {
    /// The failure in words: what was attempted, then what the layer below reported.
    pub fn message(&self) -> (text: String)
        ensures
            text@ == self@.message(),
    {
        match self {
            WalError::Conflict => String::from_str(
                "Cannot start new transaction: previous transaction still in progress. Please restart the application to recover.",
            ),
            WalError::Io { step, cause } => String::from_str(step.prefix()).concat(cause.as_str()),
            WalError::Serialization { direction, cause } => String::from_str(
                direction.prefix(),
            ).concat(cause.as_str()),
        }
    }
}

impl Clone for WalError {
    fn clone(&self) -> (copy: Self)
        ensures
            copy@ == self@,
    {
        match self {
            WalError::Conflict => WalError::Conflict,
            WalError::Io { step, cause } => WalError::Io { step: *step, cause: cause.clone() },
            WalError::Serialization { direction, cause } => WalError::Serialization {
                direction: *direction,
                cause: cause.clone(),
            },
        }
    }
}

/// A result of the storage layer as a mathematical value.
pub open spec fn result_view<T: View>(result: Result<T, WalError>) -> Result<T::V, WalErrorView> {
    match result {
        Ok(value) => Ok(value@),
        Err(error) => Err(error@),
    }
}

} // verus!
