//! A storage that lives in memory: one committed file, one temporary file and a
//! lock.

use vstd::prelude::*;
use vstd::slice::slice_to_vec;
use vstd::string::StringSliceAdditionalSpecFns;

use crate::bytes::same_bytes;
use crate::error::StorageError;

verus! {

/// The path of the temporary file. Every other path is the committed file's.
pub const TEMP_PATH: &'static str = "tmp";

/// What a storage holds.
#[verifier::ext_equal]
pub struct StorageView {
    pub committed: Option<Seq<u8>>,
    pub temporary: Option<Seq<u8>>,
    pub locked: bool,
}

impl StorageView {
    /// What is under a path.
    pub open spec fn file(self, path: Seq<u8>) -> Option<Seq<u8>> {
        if path == TEMP_PATH.spec_bytes() {
            self.temporary
        } else {
            self.committed
        }
    }

    /// The storage with its lock taken or free.
    pub open spec fn with_lock(self, locked: bool) -> StorageView {
        StorageView { locked, ..self }
    }

    /// What an attempt to take the lock gives.
    pub open spec fn lock_answer(self) -> Result<(), StorageError> {
        if self.locked {
            Err(StorageError::Busy)
        } else {
            Ok(())
        }
    }

    /// The storage with new contents in the temporary file.
    pub open spec fn with_temporary(self, contents: Seq<u8>) -> StorageView {
        StorageView { temporary: Some(contents), ..self }
    }

    /// The storage once the temporary file has taken the committed one's place.
    pub open spec fn replaced(self) -> StorageView {
        StorageView { committed: self.temporary, temporary: None, ..self }
    }
}

pub open spec fn contents_view(file: Option<Vec<u8>>) -> Option<Seq<u8>> {
    match file {
        Some(contents) => Some(contents@),
        None => None,
    }
}

pub struct MemoryStorage {
    pub committed: Option<Vec<u8>>,
    pub temporary: Option<Vec<u8>>,
    pub locked: bool,
}

impl View for MemoryStorage {
    type V = StorageView;

    open spec fn view(&self) -> StorageView {
        StorageView {
            committed: contents_view(self.committed),
            temporary: contents_view(self.temporary),
            locked: self.locked,
        }
    }
}

impl Default for MemoryStorage {
    /// An unlocked storage without files.
    fn default() -> (storage: MemoryStorage)
        ensures
            storage@ == (StorageView { committed: None, temporary: None, locked: false }),
    {
        MemoryStorage { committed: None, temporary: None, locked: false }
    }
}

impl MemoryStorage {
    /// Appends the file under a path to `output`.
    pub fn read(&mut self, path: &[u8], output: &mut Vec<u8>) -> (result: Result<(), StorageError>)
        ensures
            final(self)@ == old(self)@,
            match old(self)@.file(path@) {
                Some(contents) => result == Ok::<(), StorageError>(()) && final(output)@ == old(
                    output,
                )@ + contents,
                None => result == Err::<(), StorageError>(StorageError::Missing) && final(output)@
                    == old(output)@,
            },
    {
        let source = if same_bytes(path, TEMP_PATH.as_bytes()) {
            &self.temporary
        } else {
            &self.committed
        };
        match source {
            Some(contents) => {
                output.extend_from_slice(contents.as_slice());
                assert(output@ =~= old(output)@ + contents@);
                Ok(())
            },
            None => Err(StorageError::Missing),
        }
    }

    /// Takes the lock, unless it is taken.
    pub fn lock(&mut self) -> (result: Result<(), StorageError>)
        ensures
            final(self)@ == old(self)@.with_lock(true),
            result == old(self)@.lock_answer(),
    {
        if self.locked {
            Err(StorageError::Busy)
        } else {
            self.locked = true;
            Ok(())
        }
    }

    /// Writes the temporary file, whatever path it is given.
    pub fn write_temp(&mut self, _path: &[u8], contents: &[u8]) -> (result: Result<
        (),
        StorageError,
    >)
        ensures
            final(self)@ == old(self)@.with_temporary(contents@),
            result == Ok::<(), StorageError>(()),
    {
        self.temporary = Some(slice_to_vec(contents));
        Ok(())
    }

    /// Does nothing: memory needs no syncing.
    pub fn sync_file(&mut self, _path: &[u8]) -> (result: Result<(), StorageError>)
        ensures
            final(self)@ == old(self)@,
            result == Ok::<(), StorageError>(()),
    {
        Ok(())
    }

    /// Puts the temporary file in the committed one's place, whatever paths it is
    /// given. Without a temporary file there is no committed one afterwards.
    pub fn replace(&mut self, _temp_path: &[u8], _committed_path: &[u8]) -> (result: Result<
        (),
        StorageError,
    >)
        ensures
            final(self)@ == old(self)@.replaced(),
            result == Ok::<(), StorageError>(()),
    {
        self.committed = self.temporary.take();
        Ok(())
    }

    /// Does nothing: memory needs no syncing.
    pub fn sync_parent(&mut self, _committed_path: &[u8]) -> (result: Result<(), StorageError>)
        ensures
            final(self)@ == old(self)@,
            result == Ok::<(), StorageError>(()),
    {
        Ok(())
    }

    /// Gives the lock back, whether or not it is taken.
    pub fn unlock(&mut self) -> (result: Result<(), StorageError>)
        ensures
            final(self)@ == old(self)@.with_lock(false),
            result == Ok::<(), StorageError>(()),
    {
        self.locked = false;
        Ok(())
    }
}

/// Until the replacement a write leaves the committed file alone and is read
/// back from the temporary one; after it the write is read back from every
/// other path, and the temporary file is gone. The lock is not touched.
pub proof fn law_replacement_publishes_the_write(
    storage: StorageView,
    path: Seq<u8>,
    contents: Seq<u8>,
)
    requires
        path != TEMP_PATH.spec_bytes(),
    ensures
        storage.with_temporary(contents).file(TEMP_PATH.spec_bytes()) == Some(contents),
        storage.with_temporary(contents).file(path) == storage.file(path),
        storage.with_temporary(contents).replaced().file(path) == Some(contents),
        storage.with_temporary(contents).replaced().file(TEMP_PATH.spec_bytes()) is None,
        storage.with_temporary(contents).replaced().locked == storage.locked,
{
}

/// A lock that is taken keeps everyone else out, whatever is written or
/// replaced meanwhile, until it is given back.
pub proof fn law_lock_excludes(storage: StorageView, contents: Seq<u8>)
    ensures
        storage.with_lock(true).lock_answer() == Err::<(), StorageError>(StorageError::Busy),
        storage.with_lock(true).with_temporary(contents).lock_answer() == Err::<(), StorageError>(
            StorageError::Busy,
        ),
        storage.with_lock(true).replaced().lock_answer() == Err::<(), StorageError>(
            StorageError::Busy,
        ),
        storage.with_lock(false).lock_answer() == Ok::<(), StorageError>(()),
{
}

/// A storage is what its fields say.
pub proof fn law_view_is_the_fields(storage: MemoryStorage)
    ensures
        storage@.locked == storage.locked,
        storage@.committed is Some <==> storage.committed is Some,
        storage.committed is Some ==> storage@.committed->0 == storage.committed->0@,
        storage@.temporary is Some <==> storage.temporary is Some,
        storage.temporary is Some ==> storage@.temporary->0 == storage.temporary->0@,
{
}

/// The bytes of `tmp` name the temporary file, and every other path names the
/// committed one.
pub proof fn law_paths_name_files(storage: StorageView, path: Seq<u8>)
    ensures
        path == seq![116u8, 109u8, 112u8] ==> storage.file(path) == storage.temporary,
        path != seq![116u8, 109u8, 112u8] ==> storage.file(path) == storage.committed,
{
    reveal_strlit("tmp");
    assert("tmp".is_ascii());
    assert("tmp".spec_bytes() =~= seq![116u8, 109u8, 112u8]);
}

/// Each operation changes one thing: a write the temporary file, a lock or an
/// unlock the lock. A replacement moves the temporary file to where the committed
/// one was, and leaves none behind.
pub proof fn law_operations_change_one_thing(
    storage: StorageView,
    contents: Seq<u8>,
    locked: bool,
)
    ensures
        storage.with_temporary(contents).temporary == Some(contents),
        storage.with_temporary(contents).committed == storage.committed,
        storage.with_temporary(contents).locked == storage.locked,
        storage.with_lock(locked).locked == locked,
        storage.with_lock(locked).committed == storage.committed,
        storage.with_lock(locked).temporary == storage.temporary,
        storage.replaced().committed == storage.temporary,
        storage.replaced().temporary is None,
        storage.replaced().locked == storage.locked,
        storage.lock_answer() is Ok <==> !storage.locked,
        storage.lock_answer() is Err ==> storage.lock_answer()->Err_0 == StorageError::Busy,
{
}

/// `MemoryStorage::read` appends the temporary file for the path `tmp`, and the
/// committed one for every other path; without that file it fails and appends
/// nothing. It leaves the storage as it is.
pub proof fn law_read(
    storage: &mut MemoryStorage,
    path: &[u8],
    output: &mut Vec<u8>,
    result: Result<(), StorageError>,
)
    requires
        call_ensures(MemoryStorage::read, (storage, path, output), result),
    ensures
        ({
            let file = if path@ == "tmp".spec_bytes() {
                old(storage)@.temporary
            } else {
                old(storage)@.committed
            };
            &&& file is Some ==> result == Ok::<(), StorageError>(()) && final(output)@ == old(
                output,
            )@ + file->0
            &&& file is None ==> result == Err::<(), StorageError>(StorageError::Missing)
                && final(output)@ == old(output)@
        }),
        final(storage)@ == old(storage)@,
{
}

/// `MemoryStorage::lock` takes the lock if it is free and fails if it is not;
/// `MemoryStorage::unlock` gives it back in any case. The files stay as they are.
pub proof fn law_lock_and_unlock(
    first: &mut MemoryStorage,
    taken: Result<(), StorageError>,
    second: &mut MemoryStorage,
    given: Result<(), StorageError>,
)
    requires
        call_ensures(MemoryStorage::lock, (first,), taken),
        call_ensures(MemoryStorage::unlock, (second,), given),
    ensures
        taken is Ok <==> !old(first)@.locked,
        taken is Err ==> taken->Err_0 == StorageError::Busy,
        final(first)@.locked,
        final(first)@.committed == old(first)@.committed,
        final(first)@.temporary == old(first)@.temporary,
        given is Ok,
        !final(second)@.locked,
        final(second)@.committed == old(second)@.committed,
        final(second)@.temporary == old(second)@.temporary,
{
}

/// `MemoryStorage::write_temp` sets the temporary file and nothing else, and
/// `MemoryStorage::replace` moves it to where the committed one was, whatever paths
/// they are given. Both always succeed.
pub proof fn law_write_and_replace(
    first: &mut MemoryStorage,
    path: &[u8],
    contents: &[u8],
    written: Result<(), StorageError>,
    second: &mut MemoryStorage,
    temp_path: &[u8],
    committed_path: &[u8],
    replaced: Result<(), StorageError>,
)
    requires
        call_ensures(MemoryStorage::write_temp, (first, path, contents), written),
        call_ensures(MemoryStorage::replace, (second, temp_path, committed_path), replaced),
    ensures
        written is Ok,
        final(first)@.temporary == Some(contents@),
        final(first)@.committed == old(first)@.committed,
        final(first)@.locked == old(first)@.locked,
        replaced is Ok,
        final(second)@.committed == old(second)@.temporary,
        final(second)@.temporary is None,
        final(second)@.locked == old(second)@.locked,
{
}

/// `MemoryStorage::sync_file` and `MemoryStorage::sync_parent` succeed and change
/// nothing.
pub proof fn law_sync(
    storage: &mut MemoryStorage,
    path: &[u8],
    result: Result<(), StorageError>,
)
    requires
        call_ensures(MemoryStorage::sync_file, (storage, path), result) || call_ensures(
            MemoryStorage::sync_parent,
            (storage, path),
            result,
        ),
    ensures
        result is Ok,
        final(storage)@ == old(storage)@,
{
}

} // verus!
