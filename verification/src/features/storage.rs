//! The storage of images: one volume and its root directory, opened once,
//! lent out for each write and closed in order at the end.

use crate::text::decimal_chars;
use crate::text::push_decimal;
use vstd::prelude::*;
use vstd::string::StringExecFns;

verus! {

/// What manages the volumes of a block device.
pub trait VolumeManager {
    /// An open volume.
    type Volume;

    /// An open directory.
    type Directory;

    /// What the device can fail with.
    type Error;

    /// Opens the first volume of the device.
    fn open_volume(&mut self) -> Result<Self::Volume, Self::Error>;

    /// Opens the root directory of an open volume.
    fn open_root_dir(&mut self, volume: &Self::Volume) -> Result<Self::Directory, Self::Error>;

    /// Creates the file `file_name` in the directory, or empties it where
    /// it exists, writes all of `bytes` to it and closes it.
    fn write_file(&mut self, directory: &Self::Directory, file_name: &str, bytes: &[u8]) -> Result<
        (),
        Self::Error,
    >;

    /// Closes an open directory.
    fn close_dir(&mut self, directory: Self::Directory) -> Result<(), Self::Error>;

    /// Closes an open volume.
    fn close_volume(&mut self, volume: Self::Volume) -> Result<(), Self::Error>;
}

/// Why an image could not be stored.
#[derive(Debug)]
pub enum StorageError<E> {
    /// The directory was not there to be lent out.
    DirectoryUnavailable,
    /// The device failed.
    Device(E),
}

/// One step of closing the storage.
#[derive(Debug, PartialEq, Eq)]
pub enum CloseStep<Vol, Dir> {
    /// Close this directory.
    Directory(Dir),
    /// Close this volume.
    Volume(Vol),
}

/// The steps that close what a handle holds open, in their order: the
/// directory, where it is there, before the volume.
pub open spec fn closing_steps<Vol, Dir>(handle: HandleView<Vol, Dir>) -> Seq<CloseStep<Vol, Dir>> {
    match handle.root_dir {
        Some(root_dir) => seq![CloseStep::Directory(root_dir), CloseStep::Volume(handle.volume)],
        None => seq![CloseStep::Volume(handle.volume)],
    }
}

/// What a storage handle holds, as mathematical values.
pub struct HandleView<Vol, Dir> {
    /// The open volume.
    pub volume: Vol,
    /// The open root directory, while it is not lent out.
    pub root_dir: Option<Dir>,
    /// How many file names have been given out.
    pub file_counter: nat,
}

/// The open volume, its root directory and the counter of the files.
///
/// The directory is lent out for each write and taken back after it.
pub struct StorageHandle<Vol, Dir> {
    volume: Vol,
    raw_root_dir: Option<Dir>,
    file_counter: u64,
}

impl<Vol, Dir> View for StorageHandle<Vol, Dir> {
    type V = HandleView<Vol, Dir>;

    closed spec fn view(&self) -> HandleView<Vol, Dir> {
        HandleView {
            volume: self.volume,
            root_dir: self.raw_root_dir,
            file_counter: self.file_counter as nat,
        }
    }
}

/// The name of the file with the given number: `img_`, the number in
/// decimal digits, `.jpg`.
pub open spec fn file_name_chars(number: nat) -> Seq<char> {
    "img_"@ + decimal_chars(number) + ".jpg"@
}

impl<Vol, Dir> StorageHandle<Vol, Dir> {
    /// A handle on an open volume and its open root directory. No file
    /// name has been given out yet.
    pub fn new(volume: Vol, root_dir: Dir) -> (r: Self)
        ensures
            r@ == (HandleView { volume, root_dir: Some(root_dir), file_counter: 0 }),
    {
        StorageHandle { volume, raw_root_dir: Some(root_dir), file_counter: 0 }
    }

    /// Lends the directory out, if it is there.
    pub fn check_out(&mut self) -> (r: Option<Dir>)
        ensures
            r == old(self)@.root_dir,
            final(self)@ == (HandleView { root_dir: None, ..old(self)@ }),
    {
        self.raw_root_dir.take()
    }

    /// Takes the directory back.
    pub fn check_in(&mut self, root_dir: Dir)
        ensures
            final(self)@ == (HandleView { root_dir: Some(root_dir), ..old(self)@ }),
    {
        self.raw_root_dir = Some(root_dir);
    }

    /// Whether the directory is there to be lent out.
    pub fn is_parked(&self) -> (r: bool)
        ensures
            r == self@.root_dir.is_some(),
    {
        self.raw_root_dir.is_some()
    }

    /// The name of the next file. The files are numbered from 1; the
    /// counter goes up before the name is made. Gives nothing, and leaves
    /// the counter, once the numbers have run out.
    pub fn next_file_name(&mut self) -> (r: Option<String>)
        ensures
            r.is_some() <==> old(self)@.file_counter < u64::MAX,
            r matches Some(name) ==> {
                &&& final(self)@ == (HandleView {
                    file_counter: old(self)@.file_counter + 1,
                    ..old(self)@
                })
                &&& name@ == file_name_chars(final(self)@.file_counter)
            },
            r.is_none() ==> final(self)@ == old(self)@,
    {
        if self.file_counter == u64::MAX {
            None
        } else {
            self.file_counter = self.file_counter + 1;
            let mut name: String = String::from_str("img_");
            push_decimal(&mut name, self.file_counter);
            name.append(".jpg");
            Some(name)
        }
    }

    /// Gives up the handle for closing: the steps to take, in their
    /// order.
    pub fn teardown(self) -> (r: Vec<CloseStep<Vol, Dir>>)
        ensures
            r@ == closing_steps(self@),
    {
        let mut steps: Vec<CloseStep<Vol, Dir>> = Vec::new();
        if let Some(root_dir) = self.raw_root_dir {
            steps.push(CloseStep::Directory(root_dir));
        }
        steps.push(CloseStep::Volume(self.volume));
        assert(steps@ =~= closing_steps(self@));
        steps
    }
}

/// What a run of steps comes to once one more step is done: the first
/// failure, or success where no step failed.
pub open spec fn spec_first_failure<E>(so_far: Result<(), E>, next: Result<(), E>) -> Result<
    (),
    E,
> {
    match so_far {
        Err(error) => Err(error),
        Ok(()) => next,
    }
}

/// The outcome of a run of steps, from its outcome so far and that of its
/// next step.
pub fn first_failure<E>(so_far: Result<(), E>, next: Result<(), E>) -> (r: Result<(), E>)
    ensures
        r == spec_first_failure(so_far, next),
{
    match so_far {
        Err(error) => Err(error),
        Ok(()) => next,
    }
}

/// What a whole run of steps comes to: the first failure among their
/// outcomes, or success where no step failed.
pub open spec fn first_failure_of<E>(outcomes: Seq<Result<(), E>>) -> Result<(), E>
    decreases outcomes.len(),
{
    if outcomes.len() == 0 {
        Ok(())
    } else {
        spec_first_failure(first_failure_of(outcomes.drop_last()), outcomes.last())
    }
}

/// What a run of stores leaves on the device: each image under its name, a
/// later one in place of an earlier one of the same name.
pub open spec fn stored_all(
    files: Map<Seq<char>, Seq<u8>>,
    stores: Seq<(Seq<char>, Seq<u8>)>,
) -> Map<Seq<char>, Seq<u8>>
    decreases stores.len(),
{
    if stores.len() == 0 {
        files
    } else {
        stored_all(files, stores.drop_last()).insert(stores.last().0, stores.last().1)
    }
}

/// Images stored under names that differ can all be read back: after a run
/// of stores, each name of the run holds exactly the bytes stored under
/// it, and the names from before the run hold what they held.
pub proof fn lemma_stored_images_read_back(
    files: Map<Seq<char>, Seq<u8>>,
    stores: Seq<(Seq<char>, Seq<u8>)>,
)
    requires
        forall|i: int, j: int|
            0 <= i < j < stores.len() ==> (#[trigger] stores[i]).0 != (#[trigger] stores[j]).0,
    ensures
        forall|i: int|
            0 <= i < stores.len() ==> stored_all(files, stores).contains_key(
                (#[trigger] stores[i]).0,
            ) && stored_all(files, stores)[stores[i].0] == stores[i].1,
        forall|name: Seq<char>|
            files.contains_key(name) && (forall|i: int|
                0 <= i < stores.len() ==> (#[trigger] stores[i]).0 != name) ==> #[trigger] stored_all(
                files,
                stores,
            ).contains_key(name) && stored_all(files, stores)[name] == files[name],
    decreases stores.len(),
{
    if stores.len() > 0 {
        let front = stores.drop_last();
        assert forall|i: int, j: int| 0 <= i < j < front.len() implies (#[trigger] front[i]).0 != (
        #[trigger] front[j]).0 by {
            assert(front[i] == stores[i]);
            assert(front[j] == stores[j]);
        }
        lemma_stored_images_read_back(files, front);
        assert forall|i: int| 0 <= i < stores.len() implies stored_all(files, stores).contains_key(
            (#[trigger] stores[i]).0,
        ) && stored_all(files, stores)[stores[i].0] == stores[i].1 by {
            if i < front.len() {
                assert(front[i] == stores[i]);
                assert(stores[i].0 != stores[stores.len() - 1].0);
            }
        }
        assert forall|name: Seq<char>|
            files.contains_key(name) && (forall|i: int|
                0 <= i < stores.len() ==> (#[trigger] stores[i]).0 != name) implies #[trigger] stored_all(
            files,
            stores,
        ).contains_key(name) && stored_all(files, stores)[name] == files[name] by {
            assert forall|i: int| 0 <= i < front.len() implies (#[trigger] front[i]).0 != name by {
                assert(front[i] == stores[i]);
            }
            assert(stores[stores.len() - 1].0 != name);
            assert(stored_all(files, front).contains_key(name));
            assert(stored_all(files, front)[name] == files[name]);
        }
    }
}

/// The outcome of a write, from what the device said.
pub fn write_outcome<E>(written: Result<(), E>) -> (r: Result<(), StorageError<E>>)
    ensures
        r == match written {
            Ok(()) => Ok::<(), StorageError<E>>(()),
            Err(error) => Err(StorageError::Device(error)),
        },
{
    match written {
        Ok(()) => Ok(()),
        Err(error) => Err(StorageError::Device(error)),
    }
}

/// The storage of images on the first volume of a block device.
///
/// What it holds open is closed by [`Storage::close`] and by nothing else:
/// who owns a storage calls `close` on every way out.
pub struct Storage<M: VolumeManager> {
    volume_manager: M,
    handle: StorageHandle<M::Volume, M::Directory>,
    stored: Ghost<Map<Seq<char>, Seq<u8>>>,
}

impl<M: VolumeManager> Storage<M> {
    /// What the storage holds open, apart from the manager.
    pub closed spec fn handle(&self) -> HandleView<M::Volume, M::Directory> {
        self.handle@
    }

    /// The images that the device has stored through this storage, by its
    /// own word: under each name the bytes of the last image that it said
    /// it stored there.
    pub closed spec fn files(&self) -> Map<Seq<char>, Seq<u8>> {
        self.stored@
    }

    /// Opens the first volume and its root directory. Where the directory
    /// cannot be opened the volume is closed again, and the failure of
    /// the directory is returned.
    pub fn new(volume_manager: M) -> (r: Result<Self, M::Error>)
        ensures
            r matches Ok(storage) ==> storage.handle().root_dir.is_some()
                && storage.handle().file_counter == 0 && storage.files() == Map::<
                Seq<char>,
                Seq<u8>,
            >::empty(),
    {
        let mut volume_manager = volume_manager;
        match volume_manager.open_volume() {
            Err(error) => Err(error),
            Ok(volume) => {
                let root_dir = volume_manager.open_root_dir(&volume);
                Self::over_volume(volume_manager, volume, root_dir)
            },
        }
    }

    /// The storage over an open volume, from what opening its root
    /// directory gave: with the directory, the storage that holds both and
    /// has given out no file name; without it, the failure of the
    /// directory, after the volume was closed again.
    pub fn over_volume(
        volume_manager: M,
        volume: M::Volume,
        root_dir: Result<M::Directory, M::Error>,
    ) -> (r: Result<Self, M::Error>)
        ensures
            match root_dir {
                Ok(directory) => r matches Ok(storage) && storage.handle() == (HandleView {
                    volume,
                    root_dir: Some(directory),
                    file_counter: 0,
                }) && storage.files() == Map::<Seq<char>, Seq<u8>>::empty(),
                Err(error) => r matches Err(returned) && returned == error,
            },
    {
        let mut volume_manager = volume_manager;
        match root_dir {
            Err(error) => {
                let _ = volume_manager.close_volume(volume);
                Err(error)
            },
            Ok(directory) => Ok(
                Storage {
                    volume_manager,
                    handle: StorageHandle::new(volume, directory),
                    stored: Ghost(Map::empty()),
                },
            ),
        }
    }

    /// The storage over a manager and what is already open on it.
    pub fn from_handle(volume_manager: M, handle: StorageHandle<M::Volume, M::Directory>) -> (r:
        Self)
        ensures
            r.handle() == handle@,
            r.files() == Map::<Seq<char>, Seq<u8>>::empty(),
    {
        Storage { volume_manager, handle, stored: Ghost(Map::empty()) }
    }

    /// Writes `image` to the file `file_name` in the root directory. The
    /// directory is lent out for the write and taken back after it,
    /// whether the write succeeded or not. Fails without touching the
    /// device where the directory is not there. An image that the device
    /// stored is from then on the file of that name; a failure leaves the
    /// files as they were known.
    pub fn store_image(&mut self, image: &[u8], file_name: &str) -> (r: Result<
        (),
        StorageError<M::Error>,
    >)
        ensures
            final(self).handle() == old(self).handle(),
            r matches Err(StorageError::DirectoryUnavailable) <==> old(
                self,
            ).handle().root_dir.is_none(),
            r is Ok ==> final(self).files() == old(self).files().insert(file_name@, image@),
            r is Err ==> final(self).files() == old(self).files(),
    {
        match self.handle.check_out() {
            None => Err(StorageError::DirectoryUnavailable),
            Some(root_dir) => {
                let written = self.volume_manager.write_file(&root_dir, file_name, image);
                self.handle.check_in(root_dir);
                assert(self.handle@ == old(self).handle@);
                if written.is_ok() {
                    proof {
                        self.stored@ = self.stored@.insert(file_name@, image@);
                    }
                }
                write_outcome(written)
            },
        }
    }

    /// The name of the next file; see [`StorageHandle::next_file_name`].
    pub fn next_file_name(&mut self) -> (r: Option<String>)
        ensures
            r.is_some() <==> old(self).handle().file_counter < u64::MAX,
            r matches Some(name) ==> {
                &&& final(self).handle() == (HandleView {
                    file_counter: old(self).handle().file_counter + 1,
                    ..old(self).handle()
                })
                &&& name@ == file_name_chars(final(self).handle().file_counter)
            },
            r.is_none() ==> final(self).handle() == old(self).handle(),
            final(self).files() == old(self).files(),
    {
        self.handle.next_file_name()
    }

    /// Closes the directory, where it is there, and then the volume. Every
    /// step is taken even where an earlier one fails; the first failure
    /// is returned. So the result is the first failure among as many
    /// outcomes as the handle has steps to close.
    pub fn close(self) -> (r: Result<(), M::Error>)
        ensures
            exists|closed: Seq<Result<(), M::Error>>|
                closed.len() == closing_steps(self.handle()).len() && r == #[trigger] first_failure_of(
                    closed,
                ),
    {
        let mut volume_manager = self.volume_manager;
        let mut steps = self.handle.teardown();
        let ghost all_steps = steps@;
        let ghost mut closed: Seq<Result<(), M::Error>> = Seq::empty();
        let mut outcome: Result<(), M::Error> = Ok(());
        while steps.len() > 0
            invariant
                closed.len() + steps@.len() == all_steps.len(),
                steps@ == all_steps.subrange(closed.len() as int, all_steps.len() as int),
                outcome == first_failure_of(closed),
            decreases steps@.len(),
        {
            let step_closed = match steps.remove(0) {
                CloseStep::Directory(root_dir) => volume_manager.close_dir(root_dir),
                CloseStep::Volume(volume) => volume_manager.close_volume(volume),
            };
            proof {
                let before = closed;
                closed = closed.push(step_closed);
                assert(closed.drop_last() =~= before);
            }
            outcome = first_failure(outcome, step_closed);
            assert(steps@ =~= all_steps.subrange(closed.len() as int, all_steps.len() as int));
        }
        assert(closed.len() == closing_steps(self.handle()).len());
        outcome
    }
}

} // verus!
