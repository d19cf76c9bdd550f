//! The files that the log works on, held in memory.
//!
//! `Storage` is the reference for what each request of an operation means.
//! Every request is answered here without fail, so what is proved of an
//! operation run against a `Storage` is what the operation does to files
//! that answer as `Storage` does.

use vstd::prelude::*;
use vstd::string::StringExecFns;
use crate::entry::{WalEntry, WalEntryView};
use crate::error::{CodecStep, IoStep, WalError, WalErrorView};
use crate::protocol::DirListing;

verus! {

/// What stands at the log's path.
#[derive(Debug, PartialEq, Eq)]
pub enum WalFile {
    /// No file.
    Absent,
    /// A file whose content is no entry; the text is what the decoder says of it.
    Corrupt(String),
    /// A file that holds this entry.
    Holds(WalEntry),
}

/// A `WalFile` as a mathematical value.
pub enum WalFileView {
    Absent,
    Corrupt(Seq<char>),
    Holds(WalEntryView),
}

impl View for WalFile {
    type V = WalFileView;

    open spec fn view(&self) -> WalFileView {
        match self {
            WalFile::Absent => WalFileView::Absent,
            WalFile::Corrupt(complaint) => WalFileView::Corrupt(complaint@),
            WalFile::Holds(entry) => WalFileView::Holds(entry@),
        }
    }
}

/// What stands at the path of a vault's directory.
#[derive(Debug, PartialEq, Eq)]
pub struct VaultDir {
    pub path: String,
    pub listing: DirListing,
}

/// A `VaultDir` as a mathematical value.
pub struct VaultDirView {
    pub path: Seq<char>,
    pub listing: DirListing,
}

impl View for VaultDir {
    type V = VaultDirView;

    open spec fn view(&self) -> VaultDirView {
        VaultDirView { path: self.path@, listing: self.listing }
    }
}

/// The directories as mathematical values, in their order.
pub open spec fn dirs_view(dirs: Seq<VaultDir>) -> Seq<VaultDirView> {
    dirs.map_values(|dir: VaultDir| dir@)
}

/// What a look at `path` finds among `dirs`. Where a path stands more than
/// once, the last one counts.
pub open spec fn listing_in(dirs: Seq<VaultDirView>, path: Seq<char>) -> DirListing
    decreases dirs.len(),
{
    if dirs.len() == 0 {
        DirListing::Missing
    } else if dirs.last().path == path {
        dirs.last().listing
    } else {
        listing_in(dirs.drop_last(), path)
    }
}

/// The directories but those at `path`.
pub open spec fn without_path(dirs: Seq<VaultDirView>, path: Seq<char>) -> Seq<VaultDirView>
    decreases dirs.len(),
{
    if dirs.len() == 0 {
        Seq::empty()
    } else if dirs.last().path == path {
        without_path(dirs.drop_last(), path)
    } else {
        without_path(dirs.drop_last(), path).push(dirs.last())
    }
}

/// Once the directories at `path` are gone, a look at `path` finds nothing,
/// and a look at any other path finds what it found before.
pub proof fn lemma_listing_without(dirs: Seq<VaultDirView>, path: Seq<char>, other: Seq<char>)
    ensures
        listing_in(without_path(dirs, path), other) == if other == path {
            DirListing::Missing
        } else {
            listing_in(dirs, other)
        },
    decreases dirs.len(),
{
    if dirs.len() > 0 {
        lemma_listing_without(dirs.drop_last(), path, other);
        if dirs.last().path != path {
            let kept = without_path(dirs.drop_last(), path);
            assert(kept.push(dirs.last()).drop_last() =~= kept);
        }
    }
}

/// What the storage layer reports when the file it is to read or delete is not there.
pub open spec fn spec_missing_file() -> Seq<char> {
    "file not found"@
}

/// The log's file, the registry's file and the vaults' directories.
#[derive(Debug, PartialEq, Eq)]
pub struct Storage {
    /// What stands at the log's path.
    pub wal: WalFile,
    /// The text of the registry's file, if the file exists.
    pub registry: Option<String>,
    /// The directories that exist.
    pub dirs: Vec<VaultDir>,
}

/// A `Storage` as a mathematical value.
pub struct StorageView {
    pub wal: WalFileView,
    pub registry: Option<Seq<char>>,
    pub dirs: Seq<VaultDirView>,
}

impl View for Storage {
    type V = StorageView;

    open spec fn view(&self) -> StorageView {
        StorageView {
            wal: self.wal@,
            registry: self.registry.deep_view(),
            dirs: dirs_view(self.dirs@),
        }
    }
}

impl StorageView {
    /// Whether the log's file exists.
    pub open spec fn present(self) -> bool {
        !(self.wal is Absent)
    }

    /// What reading the log's file gives.
    pub open spec fn read(self) -> Result<WalEntryView, WalErrorView> {
        match self.wal {
            WalFileView::Absent => Err(
                WalErrorView::Io { step: IoStep::ReadLog, cause: spec_missing_file() },
            ),
            WalFileView::Corrupt(complaint) => Err(
                WalErrorView::Serialization { direction: CodecStep::Decode, cause: complaint },
            ),
            WalFileView::Holds(entry) => Ok(entry),
        }
    }

    /// The storage once `entry` is written to the log's file.
    pub open spec fn with_entry(self, entry: WalEntryView) -> StorageView {
        StorageView { wal: WalFileView::Holds(entry), ..self }
    }

    /// The storage without the log's file.
    pub open spec fn without_wal(self) -> StorageView {
        StorageView { wal: WalFileView::Absent, ..self }
    }

    /// What deleting the log's file reports.
    pub open spec fn removal(self) -> Result<(), WalErrorView> {
        if self.present() {
            Ok(())
        } else {
            Err(WalErrorView::Io { step: IoStep::RemoveLog, cause: spec_missing_file() })
        }
    }

    /// The storage once `text` is written to the registry's file.
    pub open spec fn with_registry(self, text: Seq<char>) -> StorageView {
        StorageView { registry: Some(text), ..self }
    }

    /// What a look at the directory at `path` finds.
    pub open spec fn listing(self, path: Seq<char>) -> DirListing {
        listing_in(self.dirs, path)
    }

    /// The storage without the directory at `path`.
    pub open spec fn without_dir(self, path: Seq<char>) -> StorageView {
        StorageView { dirs: without_path(self.dirs, path), ..self }
    }
}

} // verus!

verus! {

impl Storage {
    /// A storage with no log, no registry and no directory.
    pub fn new() -> (storage: Storage)
        ensures
            storage@ == (StorageView { wal: WalFileView::Absent, registry: None, dirs: Seq::empty() }),
    {
        let storage = Storage { wal: WalFile::Absent, registry: None, dirs: Vec::new() };
        assert(dirs_view(storage.dirs@) =~= Seq::empty());
        storage
    }

    /// Whether the log's file exists.
    pub fn wal_exists(&self) -> (present: bool)
        ensures
            present == self@.present(),
    {
        match &self.wal {
            WalFile::Absent => false,
            _ => true,
        }
    }

    /// Reads the log's file and decodes the entry in it.
    pub fn read_wal(&self) -> (read: Result<WalEntry, WalError>)
        ensures
            crate::error::result_view(read) == self@.read(),
    {
        match &self.wal {
            WalFile::Absent => Err(
                WalError::Io { step: IoStep::ReadLog, cause: String::from_str("file not found") },
            ),
            WalFile::Corrupt(complaint) => Err(
                WalError::Serialization { direction: CodecStep::Decode, cause: complaint.clone() },
            ),
            WalFile::Holds(entry) => Ok(entry.clone()),
        }
    }

    /// Writes `entry` to the log's file, in place of what the file held.
    pub fn write_wal(&mut self, entry: WalEntry)
        ensures
            final(self)@ == old(self)@.with_entry(entry@),
    {
        self.wal = WalFile::Holds(entry);
    }

    /// Deletes the log's file. Fails, and changes nothing, where there is none.
    pub fn remove_wal(&mut self) -> (removed: Result<(), WalError>)
        ensures
            crate::error::result_view(removed) == old(self)@.removal(),
            final(self)@ == old(self)@.without_wal(),
    {
        if self.wal_exists() {
            self.wal = WalFile::Absent;
            Ok(())
        } else {
            Err(WalError::Io { step: IoStep::RemoveLog, cause: String::from_str("file not found") })
        }
    }

    /// Writes `text` to the registry's file, in place of what the file held.
    pub fn write_registry(&mut self, text: String)
        ensures
            final(self)@ == old(self)@.with_registry(text@),
    {
        self.registry = Some(text);
    }

    /// Looks at the directory at `path`.
    pub fn inspect_dir(&self, path: &String) -> (listing: DirListing)
        ensures
            listing == self@.listing(path@),
    {
        let ghost dirs = dirs_view(self.dirs@);
        let mut i: usize = self.dirs.len();
        assert(dirs.take(i as int) =~= dirs);
        while i > 0
            invariant
                i <= self.dirs.len(),
                dirs == dirs_view(self.dirs@),
                listing_in(dirs, path@) == listing_in(dirs.take(i as int), path@),
            decreases i,
        {
            i = i - 1;
            assert(dirs.take(i + 1).drop_last() =~= dirs.take(i as int));
            assert(dirs.take(i + 1).last() == self.dirs@[i as int]@);
            if self.dirs[i].path == *path {
                return self.dirs[i].listing;
            }
        }
        DirListing::Missing
    }

    /// Deletes the directory at `path`, if it is there.
    pub fn remove_dir_tree(&mut self, path: &String)
        ensures
            final(self)@ == old(self)@.without_dir(path@),
    {
        let ghost dirs = dirs_view(self.dirs@);
        let mut kept: Vec<VaultDir> = Vec::new();
        let mut i: usize = 0;
        assert(dirs.take(0) =~= Seq::empty());
        assert(dirs_view(kept@) =~= Seq::empty());
        while i < self.dirs.len()
            invariant
                i <= self.dirs.len(),
                dirs == dirs_view(self.dirs@),
                dirs_view(kept@) == without_path(dirs.take(i as int), path@),
            decreases self.dirs.len() - i,
        {
            assert(dirs.take(i + 1).drop_last() =~= dirs.take(i as int));
            assert(dirs.take(i + 1).last() == self.dirs@[i as int]@);
            if !(self.dirs[i].path == *path) {
                let ghost before = dirs_view(kept@);
                let dir = VaultDir {
                    path: self.dirs[i].path.clone(),
                    listing: self.dirs[i].listing,
                };
                kept.push(dir);
                assert(dirs_view(kept@) =~= before.push(self.dirs@[i as int]@));
            }
            i = i + 1;
        }
        assert(dirs.take(i as int) =~= dirs);
        self.dirs = kept;
    }
}

} // verus!

verus! {

impl Clone for WalFile {
    fn clone(&self) -> (copy: Self)
        ensures
            copy@ == self@,
    {
        match self {
            WalFile::Absent => WalFile::Absent,
            WalFile::Corrupt(complaint) => WalFile::Corrupt(complaint.clone()),
            WalFile::Holds(entry) => WalFile::Holds(entry.clone()),
        }
    }
}

impl Clone for VaultDir {
    fn clone(&self) -> (copy: Self)
        ensures
            copy@ == self@,
    {
        VaultDir { path: self.path.clone(), listing: self.listing }
    }
}

impl Clone for Storage {
    fn clone(&self) -> (copy: Self)
        ensures
            copy@ == self@,
    {
        let mut dirs: Vec<VaultDir> = Vec::new();
        let mut i: usize = 0;
        while i < self.dirs.len()
            invariant
                i <= self.dirs.len(),
                dirs_view(dirs@) =~= dirs_view(self.dirs@).take(i as int),
            decreases self.dirs.len() - i,
        {
            let ghost before = dirs_view(dirs@);
            let dir = self.dirs[i].clone();
            dirs.push(dir);
            assert(dirs_view(dirs@) =~= before.push(self.dirs@[i as int]@));
            i = i + 1;
        }
        assert(dirs_view(self.dirs@).take(i as int) =~= dirs_view(self.dirs@));
        let registry = match &self.registry {
            Some(text) => Some(text.clone()),
            None => None,
        };
        Storage { wal: self.wal.clone(), registry, dirs }
    }
}

} // verus!
