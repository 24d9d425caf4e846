//! The refusals that the commands answer with, and their wording.

use vstd::prelude::*;
use vstd::string::*;

verus! {

/// Why a command was refused.
#[derive(Debug, Clone, PartialEq, Eq)]
pub enum AppError {
    /// A backup or snapshot folder was chosen that is the input folder; `role`
    /// names the folder that was being chosen.
    SameAsInput { role: String },
    /// The folder dialog gave no folder.
    PathFetch,
    /// The backup interval was not given as a number.
    BackupTimeNotNumber,
    /// The number of backups to keep was not given as a number.
    BackupNumberNotNumber,
    /// The snapshot name was not given as text.
    SnapshotNameNotText,
    /// An input field that does not exist was named.
    InvalidField,
    /// No profile name was found in the configuration at start-up.
    NoProfileInConfig,
    /// The save dialog for a new profile gave no file.
    ProfileSaveAsFailed,
    /// A save was asked for while no profile is selected.
    NoProfileSelected,
    /// A profile request that is neither of the known ones.
    UnknownRequest,
    /// The open dialog for a profile gave no file.
    ProfileLoadFailed,
}

impl AppError {
    /// The message that reports the refusal.
    pub open spec fn text(&self) -> Seq<char> {
        match self {
            AppError::SameAsInput { role } => role@ + " folder cannot be the same as input folder"@,
            AppError::PathFetch => "Path fetch error"@,
            AppError::BackupTimeNotNumber => "Expected a number for backup_time"@,
            AppError::BackupNumberNotNumber => "Expected a number for backup_number"@,
            AppError::SnapshotNameNotText => "Expected a string for snapshot_name"@,
            AppError::InvalidField => "Invalid invoke_message"@,
            AppError::NoProfileInConfig => "No profile saved in config"@,
            AppError::ProfileSaveAsFailed => "Profile save as failed"@,
            AppError::NoProfileSelected => "No profile selected"@,
            AppError::UnknownRequest => "Unknown invoke_message"@,
            AppError::ProfileLoadFailed => "Profile load failed"@,
        }
    }

    /// The message that reports the refusal, as the user sees it.
    pub fn message(&self) -> (m: String)
        ensures
            m@ == self.text(),
    {
        match self {
            AppError::SameAsInput { role } => {
                let m = String::from_str(role.as_str());
                m.concat(" folder cannot be the same as input folder")
            },
            AppError::PathFetch => String::from_str("Path fetch error"),
            AppError::BackupTimeNotNumber => String::from_str("Expected a number for backup_time"),
            AppError::BackupNumberNotNumber => String::from_str(
                "Expected a number for backup_number",
            ),
            AppError::SnapshotNameNotText => String::from_str("Expected a string for snapshot_name"),
            AppError::InvalidField => String::from_str("Invalid invoke_message"),
            AppError::NoProfileInConfig => String::from_str("No profile saved in config"),
            AppError::ProfileSaveAsFailed => String::from_str("Profile save as failed"),
            AppError::NoProfileSelected => String::from_str("No profile selected"),
            AppError::UnknownRequest => String::from_str("Unknown invoke_message"),
            AppError::ProfileLoadFailed => String::from_str("Profile load failed"),
        }
    }
}

} // verus!
