//! Moving the data of older releases into the current layout: the
//! `recent-inode` data directory becomes `rinode`, and a `vault` directory
//! becomes `storage`. The decisions are a state machine: each step names one
//! thing to look at or to do on disk, the caller does it and reports whether
//! the path looked at exists, and the machine goes on. Every step that
//! changes the disk is best effort: its failure changes nothing here.

use vstd::prelude::*;
use crate::path::{join_path, join_paths};
use crate::text::{chars_of, string_of};

verus! {

/// How far the migration has got.
#[derive(Debug, Clone, Copy, PartialEq, Eq, Structural)]
pub enum Phase {
    Start,
    LegacyChecked,
    NewCheckedWithLegacy,
    LegacyMoved,
    LegacyDbChecked,
    NewDbChecked,
    DbMoved,
    LegacyVaultChecked,
    StorageMade,
    ChildrenMoved,
    LegacyVaultRemoved,
    LegacyRemoved,
    NewChecked,
    OldVaultChecked,
    StorageChecked,
    StorageMadeForMerge,
    ChildrenMerged,
    Finished,
}

/// One thing to look at or to do.
#[derive(Debug, Clone, PartialEq, Eq)]
pub enum MigrationStep {
    /// Report whether this path exists.
    Check(String),
    /// Rename the first path to the second.
    Rename(String, String),
    /// Create this directory and its parents.
    MakeDir(String),
    /// Rename every entry of the first directory into the second.
    MoveChildren(String, String),
    /// Remove this directory and all it holds.
    RemoveTree(String),
    /// Nothing is left to do.
    Done,
}

/// A step, with its paths as character sequences.
pub enum StepModel {
    Check(Seq<char>),
    Rename(Seq<char>, Seq<char>),
    MakeDir(Seq<char>),
    MoveChildren(Seq<char>, Seq<char>),
    RemoveTree(Seq<char>),
    Done,
}

impl View for MigrationStep {
    type V = StepModel;

    open spec fn view(&self) -> StepModel {
        match self {
            MigrationStep::Check(p) => StepModel::Check(p@),
            MigrationStep::Rename(a, b) => StepModel::Rename(a@, b@),
            MigrationStep::MakeDir(p) => StepModel::MakeDir(p@),
            MigrationStep::MoveChildren(a, b) => StepModel::MoveChildren(a@, b@),
            MigrationStep::RemoveTree(p) => StepModel::RemoveTree(p@),
            MigrationStep::Done => StepModel::Done,
        }
    }
}

/// The paths that the migration works on, under the data directory `base`.
pub struct Layout {
    pub legacy_dir: Seq<char>,
    pub new_dir: Seq<char>,
    pub legacy_db: Seq<char>,
    pub new_db: Seq<char>,
    pub legacy_vault: Seq<char>,
    pub new_storage: Seq<char>,
    pub old_vault: Seq<char>,
}

pub open spec fn layout(base: Seq<char>) -> Layout {
    let legacy = join_path(base, "recent-inode"@);
    let new = join_path(base, "rinode"@);
    Layout {
        legacy_dir: legacy,
        new_dir: new,
        legacy_db: join_path(legacy, "rinode.db"@),
        new_db: join_path(new, "rinode.db"@),
        legacy_vault: join_path(legacy, "vault"@),
        new_storage: join_path(new, "storage"@),
        old_vault: join_path(new, "vault"@),
    }
}

/// The next phase and step, given the answer to the last check (ignored
/// after a step that checks nothing).
///
/// When the old directory exists: without a new one it is renamed whole;
/// with one, its database moves over unless the new one has a database, the
/// entries of its vault move into the new storage, and it is removed. Then,
/// when the new directory has a `vault`, it becomes `storage`, or its
/// entries move into the existing `storage`.
pub open spec fn advance(l: Layout, phase: Phase, exists: bool) -> (Phase, StepModel) {
    match phase {
        Phase::Start => (Phase::LegacyChecked, StepModel::Check(l.legacy_dir)),
        Phase::LegacyChecked => if exists {
            (Phase::NewCheckedWithLegacy, StepModel::Check(l.new_dir))
        } else {
            (Phase::NewChecked, StepModel::Check(l.new_dir))
        },
        Phase::NewCheckedWithLegacy => if !exists {
            (Phase::LegacyMoved, StepModel::Rename(l.legacy_dir, l.new_dir))
        } else {
            (Phase::LegacyDbChecked, StepModel::Check(l.legacy_db))
        },
        Phase::LegacyMoved => (Phase::NewChecked, StepModel::Check(l.new_dir)),
        Phase::LegacyDbChecked => if exists {
            (Phase::NewDbChecked, StepModel::Check(l.new_db))
        } else {
            (Phase::LegacyVaultChecked, StepModel::Check(l.legacy_vault))
        },
        Phase::NewDbChecked => if !exists {
            (Phase::DbMoved, StepModel::Rename(l.legacy_db, l.new_db))
        } else {
            (Phase::LegacyVaultChecked, StepModel::Check(l.legacy_vault))
        },
        Phase::DbMoved => (Phase::LegacyVaultChecked, StepModel::Check(l.legacy_vault)),
        Phase::LegacyVaultChecked => if exists {
            (Phase::StorageMade, StepModel::MakeDir(l.new_storage))
        } else {
            (Phase::LegacyRemoved, StepModel::RemoveTree(l.legacy_dir))
        },
        Phase::StorageMade => (Phase::ChildrenMoved, StepModel::MoveChildren(l.legacy_vault, l.new_storage)),
        Phase::ChildrenMoved => (Phase::LegacyVaultRemoved, StepModel::RemoveTree(l.legacy_vault)),
        Phase::LegacyVaultRemoved => (Phase::LegacyRemoved, StepModel::RemoveTree(l.legacy_dir)),
        Phase::LegacyRemoved => (Phase::NewChecked, StepModel::Check(l.new_dir)),
        Phase::NewChecked => if exists {
            (Phase::OldVaultChecked, StepModel::Check(l.old_vault))
        } else {
            (Phase::Finished, StepModel::Done)
        },
        Phase::OldVaultChecked => if exists {
            (Phase::StorageChecked, StepModel::Check(l.new_storage))
        } else {
            (Phase::Finished, StepModel::Done)
        },
        Phase::StorageChecked => if !exists {
            (Phase::Finished, StepModel::Rename(l.old_vault, l.new_storage))
        } else {
            (Phase::StorageMadeForMerge, StepModel::MakeDir(l.new_storage))
        },
        Phase::StorageMadeForMerge => (Phase::ChildrenMerged, StepModel::MoveChildren(l.old_vault, l.new_storage)),
        Phase::ChildrenMerged => (Phase::Finished, StepModel::RemoveTree(l.old_vault)),
        Phase::Finished => (Phase::Finished, StepModel::Done),
    }
}

/// How many steps at most are left from a phase.
pub open spec fn steps_left(p: Phase) -> nat {
    match p {
        Phase::Start => 18,
        Phase::LegacyChecked => 17,
        Phase::NewCheckedWithLegacy => 16,
        Phase::LegacyMoved => 6,
        Phase::LegacyDbChecked => 15,
        Phase::NewDbChecked => 14,
        Phase::DbMoved => 13,
        Phase::LegacyVaultChecked => 12,
        Phase::StorageMade => 11,
        Phase::ChildrenMoved => 10,
        Phase::LegacyVaultRemoved => 9,
        Phase::LegacyRemoved => 8,
        Phase::NewChecked => 5,
        Phase::OldVaultChecked => 4,
        Phase::StorageChecked => 3,
        Phase::StorageMadeForMerge => 2,
        Phase::ChildrenMerged => 1,
        Phase::Finished => 0,
    }
}

/// The migration of the data directory, step by step.
pub struct Migration {
    pub legacy_dir: String,
    pub new_dir: String,
    pub legacy_db: String,
    pub new_db: String,
    pub legacy_vault: String,
    pub new_storage: String,
    pub old_vault: String,
    pub phase: Phase,
}

impl Migration {
    /// Its paths.
    pub open spec fn paths(&self) -> Layout {
        Layout {
            legacy_dir: self.legacy_dir@,
            new_dir: self.new_dir@,
            legacy_db: self.legacy_db@,
            new_db: self.new_db@,
            legacy_vault: self.legacy_vault@,
            new_storage: self.new_storage@,
            old_vault: self.old_vault@,
        }
    }

    /// A migration of the data directory `base`, not yet started.
    pub fn new(base: &str) -> (m: Migration)
        ensures
            m.paths() == layout(base@),
            m.phase == Phase::Start,
    {
        let b = chars_of(base);
        let legacy = join_paths(b.as_slice(), chars_of("recent-inode").as_slice());
        let new = join_paths(b.as_slice(), chars_of("rinode").as_slice());
        let legacy_db = join_paths(legacy.as_slice(), chars_of("rinode.db").as_slice());
        let new_db = join_paths(new.as_slice(), chars_of("rinode.db").as_slice());
        let legacy_vault = join_paths(legacy.as_slice(), chars_of("vault").as_slice());
        let new_storage = join_paths(new.as_slice(), chars_of("storage").as_slice());
        let old_vault = join_paths(new.as_slice(), chars_of("vault").as_slice());
        Migration {
            legacy_dir: string_of(legacy.as_slice()),
            new_dir: string_of(new.as_slice()),
            legacy_db: string_of(legacy_db.as_slice()),
            new_db: string_of(new_db.as_slice()),
            legacy_vault: string_of(legacy_vault.as_slice()),
            new_storage: string_of(new_storage.as_slice()),
            old_vault: string_of(old_vault.as_slice()),
            phase: Phase::Start,
        }
    }

    /// Takes the answer to the last check and says what to do next (see
    /// `advance`).
    pub fn next(&mut self, exists: bool) -> (step: MigrationStep)
        ensures
            final(self).paths() == old(self).paths(),
            (final(self).phase, step@) == advance(old(self).paths(), old(self).phase, exists),
    {
        let (phase, step) = match self.phase {
            Phase::Start => (Phase::LegacyChecked, MigrationStep::Check(self.legacy_dir.clone())),
            Phase::LegacyChecked => if exists {
                (Phase::NewCheckedWithLegacy, MigrationStep::Check(self.new_dir.clone()))
            } else {
                (Phase::NewChecked, MigrationStep::Check(self.new_dir.clone()))
            },
            Phase::NewCheckedWithLegacy => if !exists {
                (Phase::LegacyMoved, MigrationStep::Rename(self.legacy_dir.clone(), self.new_dir.clone()))
            } else {
                (Phase::LegacyDbChecked, MigrationStep::Check(self.legacy_db.clone()))
            },
            Phase::LegacyMoved => (Phase::NewChecked, MigrationStep::Check(self.new_dir.clone())),
            Phase::LegacyDbChecked => if exists {
                (Phase::NewDbChecked, MigrationStep::Check(self.new_db.clone()))
            } else {
                (Phase::LegacyVaultChecked, MigrationStep::Check(self.legacy_vault.clone()))
            },
            Phase::NewDbChecked => if !exists {
                (Phase::DbMoved, MigrationStep::Rename(self.legacy_db.clone(), self.new_db.clone()))
            } else {
                (Phase::LegacyVaultChecked, MigrationStep::Check(self.legacy_vault.clone()))
            },
            Phase::DbMoved => (Phase::LegacyVaultChecked, MigrationStep::Check(self.legacy_vault.clone())),
            Phase::LegacyVaultChecked => if exists {
                (Phase::StorageMade, MigrationStep::MakeDir(self.new_storage.clone()))
            } else {
                (Phase::LegacyRemoved, MigrationStep::RemoveTree(self.legacy_dir.clone()))
            },
            Phase::StorageMade => (
                Phase::ChildrenMoved,
                MigrationStep::MoveChildren(self.legacy_vault.clone(), self.new_storage.clone()),
            ),
            Phase::ChildrenMoved => (Phase::LegacyVaultRemoved, MigrationStep::RemoveTree(self.legacy_vault.clone())),
            Phase::LegacyVaultRemoved => (Phase::LegacyRemoved, MigrationStep::RemoveTree(self.legacy_dir.clone())),
            Phase::LegacyRemoved => (Phase::NewChecked, MigrationStep::Check(self.new_dir.clone())),
            Phase::NewChecked => if exists {
                (Phase::OldVaultChecked, MigrationStep::Check(self.old_vault.clone()))
            } else {
                (Phase::Finished, MigrationStep::Done)
            },
            Phase::OldVaultChecked => if exists {
                (Phase::StorageChecked, MigrationStep::Check(self.new_storage.clone()))
            } else {
                (Phase::Finished, MigrationStep::Done)
            },
            Phase::StorageChecked => if !exists {
                (Phase::Finished, MigrationStep::Rename(self.old_vault.clone(), self.new_storage.clone()))
            } else {
                (Phase::StorageMadeForMerge, MigrationStep::MakeDir(self.new_storage.clone()))
            },
            Phase::StorageMadeForMerge => (
                Phase::ChildrenMerged,
                MigrationStep::MoveChildren(self.old_vault.clone(), self.new_storage.clone()),
            ),
            Phase::ChildrenMerged => (Phase::Finished, MigrationStep::RemoveTree(self.old_vault.clone())),
            Phase::Finished => (Phase::Finished, MigrationStep::Done),
        };
        self.phase = phase;
        step
    }
}

/// The migration always ends: every step but the last brings it closer to
/// the end, and once finished it only says that it is done.
pub proof fn migration_always_ends(l: Layout, p: Phase, exists: bool)
    ensures
        p != Phase::Finished ==> steps_left(advance(l, p, exists).0) < steps_left(p),
        p == Phase::Finished ==> advance(l, p, exists) == (Phase::Finished, StepModel::Done),
        advance(l, p, exists).1 is Done ==> advance(l, p, exists).0 == Phase::Finished,
{
}

/// Nothing is removed before what it held was moved: the old vault goes
/// only after its entries were moved into the new storage, and the old data
/// directory only once its vault was dealt with.
pub proof fn removal_comes_after_moving(l: Layout, p: Phase, exists: bool)
    ensures
        advance(l, p, exists).1 == StepModel::RemoveTree(l.legacy_vault) && l.legacy_vault != l.legacy_dir
            && l.legacy_vault != l.old_vault ==> p == Phase::ChildrenMoved,
        advance(l, p, exists).1 == StepModel::RemoveTree(l.old_vault) && l.old_vault != l.legacy_dir
            && l.old_vault != l.legacy_vault ==> p == Phase::ChildrenMerged,
{
}

} // verus!
