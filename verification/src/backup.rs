//! The rotating backup schedule: which backup slot is written next, what is
//! announced after each backup, and when the schedule stops.

use vstd::prelude::*;
use vstd::string::*;
use crate::text::{decimal_spec, with_decimal};

verus! {

/// The name of the folder that backup slot `slot` is written to: slots are
/// numbered from one, so slot 0 is written to "Backup 1".
pub open spec fn entry_name_spec(slot: nat) -> Seq<char> {
    "Backup "@ + decimal_spec(slot + 1)
}

/// The message announced once backup slot `slot` is written.
pub open spec fn saved_message_spec(slot: nat) -> Seq<char> {
    "Backup "@ + decimal_spec(slot + 1) + " saved"@
}

/// The pause between two backups, in seconds, for an interval of `minutes`;
/// `None` where the number of seconds does not fit in a `u32`.
pub open spec fn pause_seconds_spec(minutes: u32) -> Option<u64> {
    if minutes * 60 > u32::MAX {
        None
    } else {
        Some((minutes * 60) as u64)
    }
}

/// What a running schedule decides when it looks at the application state.
#[derive(Debug, Clone, Copy, PartialEq, Eq)]
pub enum Outcome {
    /// The schedule ends.
    Stop,
    /// Backup slot `0` is to be written.
    Copy(u32),
    /// A round is over: the schedule starts again from the first slot and
    /// looks at the state once more.
    Recheck,
}

/// The abstract state of a running schedule.
#[derive(Debug, Clone, Copy, PartialEq, Eq)]
pub struct LoopModel {
    /// The start counter of the application when this schedule was started.
    pub count: u32,
    /// Minutes between two backups.
    pub backup_time: u32,
    /// Number of backup slots that are written in turn.
    pub backup_number: u32,
    /// The next slot to be written.
    pub slot: u32,
    /// Whether a backup was asked for and is not yet announced.
    pub pending: bool,
}

impl LoopModel {
    /// A schedule that has just been started.
    pub open spec fn fresh(count: u32, backup_time: u32, backup_number: u32) -> LoopModel {
        LoopModel { count, backup_time, backup_number, slot: 0, pending: false }
    }

    /// Whether the state seen tells the schedule to end: another schedule was
    /// started since (the counter moved), or backups were switched off.
    pub open spec fn must_stop(self, current_count: u32, backup_status: bool) -> bool {
        current_count != self.count || !backup_status
    }

    /// What the schedule decides on seeing the counter and the backup switch.
    pub open spec fn check_outcome(self, current_count: u32, backup_status: bool) -> Outcome {
        if self.must_stop(current_count, backup_status) {
            Outcome::Stop
        } else if self.slot < self.backup_number {
            Outcome::Copy(self.slot)
        } else {
            Outcome::Recheck
        }
    }

    /// The schedule after seeing the counter and the backup switch; once told
    /// to stop, no backup is pending any more.
    pub open spec fn checked(self, current_count: u32, backup_status: bool) -> LoopModel {
        if self.must_stop(current_count, backup_status) {
            LoopModel { pending: false, ..self }
        } else if self.slot < self.backup_number {
            LoopModel { pending: true, ..self }
        } else {
            LoopModel { slot: 0, pending: false, ..self }
        }
    }

    /// The schedule after the pending backup has been written and announced.
    pub open spec fn finished(self) -> LoopModel {
        if self.pending {
            LoopModel { slot: (self.slot + 1) as u32, pending: false, ..self }
        } else {
            self
        }
    }

    /// The slots written by the next `k` backups when every look at the state
    /// lets the schedule go on.
    pub open spec fn uninterrupted_slots(self, k: nat) -> Seq<u32>
        decreases k, (if self.slot < self.backup_number { 0int } else { 1int }),
    {
        if k == 0 {
            Seq::empty()
        } else if self.slot < self.backup_number {
            seq![self.slot] + self.checked(self.count, true).finished().uninterrupted_slots(
                (k - 1) as nat,
            )
        } else if self.backup_number == 0 {
            Seq::empty()
        } else {
            self.checked(self.count, true).uninterrupted_slots(k)
        }
    }
}

/// What the caller is asked to do after a look at the state.
#[derive(Debug, Clone, PartialEq, Eq)]
pub enum LoopAction {
    /// End the schedule.
    Stop,
    /// Copy the folder `source` into the folder named `entry` inside `folder`,
    /// then call `finish`.
    Copy { source: String, folder: String, entry: String },
    /// Look at the state again.
    Recheck,
}

/// What is announced after a backup, and how long to pause before the next.
#[derive(Debug, Clone, PartialEq, Eq)]
pub struct Announcement {
    /// The message sent to the user interface.
    pub message: String,
    /// The pause in seconds; `None` where the interval in seconds overflows,
    /// and the schedule cannot go on.
    pub sleep_seconds: Option<u64>,
}

/// A running backup schedule.
pub struct BackupLoop {
    source: String,
    count: u32,
    backup_time: u32,
    backup_number: u32,
    slot: u32,
    pending: bool,
}

impl View for BackupLoop {
    type V = LoopModel;

    closed spec fn view(&self) -> LoopModel {
        LoopModel {
            count: self.count,
            backup_time: self.backup_time,
            backup_number: self.backup_number,
            slot: self.slot,
            pending: self.pending,
        }
    }
}

/// The name of the folder that backup slot `slot` is written to.
pub fn entry_name(slot: u32) -> (r: String)
    requires
        slot < u32::MAX,
    ensures
        r@ == entry_name_spec(slot as nat),
{
    with_decimal("Backup ", slot + 1)
}

/// The message announced once backup slot `slot` is written.
pub fn saved_message(slot: u32) -> (r: String)
    requires
        slot < u32::MAX,
    ensures
        r@ == saved_message_spec(slot as nat),
{
    let s = with_decimal("Backup ", slot + 1);
    s.concat(" saved")
}

/// The pause between two backups, in seconds, for an interval of `minutes`.
pub fn pause_seconds(minutes: u32) -> (r: Option<u64>)
    ensures
        r == pause_seconds_spec(minutes),
{
    match minutes.checked_mul(60) {
        Some(s) => Some(s as u64),
        None => None,
    }
}

impl BackupLoop {
    #[verifier::type_invariant]
    spec fn well_formed(self) -> bool {
        &&& self.slot <= self.backup_number
        &&& self.pending ==> self.slot < self.backup_number
    }

    /// The folder that every backup of this schedule copies.
    pub closed spec fn source_spec(&self) -> Seq<char> {
        self.source@
    }

    /// A schedule, just started, that copies `source`.
    pub fn new(source: String, count: u32, backup_time: u32, backup_number: u32) -> (r: Self)
        ensures
            r@ == LoopModel::fresh(count, backup_time, backup_number),
            r.source_spec() == source@,
    {
        BackupLoop { source, count, backup_time, backup_number, slot: 0, pending: false }
    }

    /// Looks at the state: the current start counter, the backup switch and
    /// the backup folder now chosen.
    pub fn check(&mut self, current_count: u32, backup_status: bool, backup_folder: String) -> (r:
        LoopAction)
        ensures
            final(self)@ == old(self)@.checked(current_count, backup_status),
            final(self).source_spec() == old(self).source_spec(),
            match old(self)@.check_outcome(current_count, backup_status) {
                Outcome::Stop => r == LoopAction::Stop,
                Outcome::Recheck => r == LoopAction::Recheck,
                Outcome::Copy(slot) => r matches LoopAction::Copy { source, folder, entry } && source@
                    == old(self).source_spec() && folder@ == backup_folder@ && entry@
                    == entry_name_spec(slot as nat),
            },
    {
        proof {
            use_type_invariant(&*self);
        }
        if current_count != self.count || !backup_status {
            self.pending = false;
            LoopAction::Stop
        } else if self.slot < self.backup_number {
            self.pending = true;
            let entry = entry_name(self.slot);
            LoopAction::Copy { source: self.source.clone(), folder: backup_folder, entry }
        } else {
            self.slot = 0;
            self.pending = false;
            LoopAction::Recheck
        }
    }

    /// Ends the backup that `check` asked for: what to announce and how long
    /// to pause. `None` where no backup was asked for.
    pub fn finish(&mut self) -> (r: Option<Announcement>)
        ensures
            final(self)@ == old(self)@.finished(),
            final(self).source_spec() == old(self).source_spec(),
            r is Some <==> old(self)@.pending,
            r matches Some(a) ==> a.message@ == saved_message_spec(old(self)@.slot as nat)
                && a.sleep_seconds == pause_seconds_spec(old(self)@.backup_time),
    {
        proof {
            use_type_invariant(&*self);
        }
        if self.pending {
            let message = saved_message(self.slot);
            let sleep_seconds = pause_seconds(self.backup_time);
            self.pending = false;
            self.slot = self.slot + 1;
            Some(Announcement { message, sleep_seconds })
        } else {
            None
        }
    }
}

} // verus!
