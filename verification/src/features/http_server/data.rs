//! The slot through which the control loop hands the latest image to the
//! handlers of the stream.

use crate::clock::Timestamp;
use crate::features::http_server::stream::part;
use crate::features::http_server::stream::part_bytes;
use std::sync::Arc;
use vstd::prelude::*;
use vstd::slice::slice_to_vec;

verus! {

/// An image with the time of its capture.
#[derive(Debug)]
pub struct Frame {
    pub pixels: Vec<u8>,
    pub timestamp: Timestamp,
}

/// A slot for one image.
///
/// Writing replaces what the slot holds; reading empties it, so that no
/// image is read twice. An image without bytes is no image: writing one
/// empties the slot.
#[derive(Debug)]
pub struct FrameSlot {
    pixels: Vec<u8>,
    timestamp: Timestamp,
}

impl View for FrameSlot {
    type V = Option<(Seq<u8>, Timestamp)>;

    /// The image that the next read will see, with its time of capture.
    closed spec fn view(&self) -> Option<(Seq<u8>, Timestamp)> {
        if self.pixels@.len() == 0 {
            None
        } else {
            Some((self.pixels@, self.timestamp))
        }
    }
}

/// What a slot holds, as mathematical values: the bytes of the image that
/// the next read will see and the time of its capture, or nothing.
pub type SlotView = Option<(Seq<u8>, Timestamp)>;

/// What a slot holds after a write, whatever it held before: the image
/// written, or nothing where the image has no bytes.
pub open spec fn write(slot: SlotView, image: Seq<u8>, timestamp: Timestamp) -> SlotView {
    if image.len() == 0 {
        None
    } else {
        Some((image, timestamp))
    }
}

/// What a read sees of a slot, and what it leaves in it: nothing.
pub open spec fn read(slot: SlotView) -> (SlotView, SlotView) {
    (slot, None)
}

/// What is seen of a frame taken out of a slot.
pub open spec fn seen_of(frame: Option<Frame>) -> SlotView {
    match frame {
        Some(frame) => Some((frame.pixels@, frame.timestamp)),
        None => None,
    }
}

/// What is seen of the bytes handed to a reader.
pub open spec fn seen_by(handed: Option<(&[u8], Timestamp)>) -> SlotView {
    match handed {
        Some((bytes, timestamp)) => Some((bytes@, timestamp)),
        None => None,
    }
}

impl FrameSlot {
    /// An empty slot.
    pub fn new() -> (r: FrameSlot)
        ensures
            r@.is_none(),
    {
        FrameSlot { pixels: Vec::new(), timestamp: Timestamp::zero() }
    }

    /// Puts a copy of `image` into the slot, in place of whatever it held.
    pub fn write_image(&mut self, image: &[u8], timestamp: Timestamp)
        ensures
            final(self)@ == write(old(self)@, image@, timestamp),
    {
        self.pixels = slice_to_vec(image);
        self.timestamp = timestamp;
    }

    /// Takes the image out of the slot, if it holds one, and leaves the
    /// slot empty.
    pub fn take(&mut self) -> (r: Option<Frame>)
        ensures
            seen_of(r) == read(old(self)@).0,
            final(self)@ == read(old(self)@).1,
    {
        if self.pixels.len() == 0 {
            None
        } else {
            let mut pixels: Vec<u8> = Vec::new();
            std::mem::swap(&mut self.pixels, &mut pixels);
            Some(Frame { pixels, timestamp: self.timestamp })
        }
    }

    /// Hands the image in the slot to `callback`, or nothing where the slot
    /// is empty, and leaves the slot empty. Returns what `callback`
    /// returned.
    pub fn read_image_bytes<T>(
        &mut self,
        callback: impl FnOnce(Option<(&[u8], Timestamp)>) -> T,
    ) -> (r: T)
        requires
            forall|handed: Option<(&[u8], Timestamp)>|
                #[trigger] seen_by(handed) == read(old(self)@).0 ==> call_requires(
                    callback,
                    (handed,),
                ),
        ensures
            final(self)@ == read(old(self)@).1,
            exists|handed: Option<(&[u8], Timestamp)>|
                {
                    &&& #[trigger] call_ensures(callback, (handed,), r)
                    &&& seen_by(handed) == read(old(self)@).0
                },
    {
        match self.take() {
            None => {
                let seen: Option<(&[u8], Timestamp)> = None;
                assert(seen_by(seen) == read(old(self)@).0);
                callback(seen)
            },
            Some(frame) => {
                let seen: Option<(&[u8], Timestamp)> = Some(
                    (frame.pixels.as_slice(), frame.timestamp),
                );
                assert(seen_by(seen) == read(old(self)@).0);
                callback(seen)
            },
        }
    }

    /// Takes the image out of the slot and makes the part of the stream
    /// that carries it; gives nothing where the slot is empty.
    pub fn next_part(&mut self) -> (r: Option<Vec<u8>>)
        ensures
            final(self)@ == read(old(self)@).1,
            r.is_some() == old(self)@.is_some(),
            old(self)@ matches Some((image, timestamp)) ==> r.unwrap()@ == part_bytes(
                image,
                timestamp,
            ),
    {
        match self.take() {
            Some(frame) => Some(part(frame.pixels.as_slice(), frame.timestamp)),
            None => None,
        }
    }
}

/// Each image is read at most once: a read of an empty slot sees nothing; a
/// read after one write sees the image written, and every read after that
/// sees nothing until the next write.
pub proof fn lemma_read_at_most_once(slot: SlotView, image: Seq<u8>, timestamp: Timestamp)
    requires
        image.len() > 0,
    ensures
        read(None).0.is_none(),
        read(None).1.is_none(),
        read(write(slot, image, timestamp)).0 == Some((image, timestamp)),
        read(read(write(slot, image, timestamp)).1).0.is_none(),
        read(read(slot).1) == (None::<(Seq<u8>, Timestamp)>, None::<(Seq<u8>, Timestamp)>),
{
}

/// One use of a slot.
pub enum SlotOp {
    /// An image is written.
    Write(Seq<u8>, Timestamp),
    /// The slot is read.
    Read,
}

/// What a slot holds after a run of uses.
pub open spec fn slot_after(slot: SlotView, ops: Seq<SlotOp>) -> SlotView
    decreases ops.len(),
{
    if ops.len() == 0 {
        slot
    } else {
        let before = slot_after(slot, ops.drop_last());
        match ops.last() {
            SlotOp::Write(image, timestamp) => write(before, image, timestamp),
            SlotOp::Read => read(before).1,
        }
    }
}

/// What the use at `index` sees, where it is a read.
pub open spec fn seen_at(slot: SlotView, ops: Seq<SlotOp>, index: int) -> SlotView
    recommends
        0 <= index < ops.len(),
        ops[index] is Read,
{
    read(slot_after(slot, ops.subrange(0, index))).0
}

/// No image is read twice: in any run of uses, a read that follows another
/// read with no write between them sees nothing.
pub proof fn lemma_no_image_is_read_twice(
    slot: SlotView,
    ops: Seq<SlotOp>,
    earlier: int,
    later: int,
)
    requires
        0 <= earlier < later < ops.len(),
        ops[earlier] is Read,
        ops[later] is Read,
        forall|k: int| earlier < k < later ==> #[trigger] ops[k] is Read,
    ensures
        seen_at(slot, ops, later).is_none(),
{
    let before = ops.subrange(0, later);
    assert(before.last() == ops[later - 1]);
    assert(ops[later - 1] is Read);
}

/// A read that follows a write with no other use between them sees the
/// image written, whatever happened before.
pub proof fn lemma_read_sees_the_last_write(slot: SlotView, ops: Seq<SlotOp>, index: int)
    requires
        1 <= index < ops.len(),
        ops[index] is Read,
        ops[index - 1] is Write,
    ensures
        seen_at(slot, ops, index) == write(
            None,
            ops[index - 1]->Write_0,
            ops[index - 1]->Write_1,
        ),
{
    let before = ops.subrange(0, index);
    assert(before.last() == ops[index - 1]);
}

/// Of two images written one after the other, with no read between them,
/// only the second is there to be read.
pub proof fn lemma_latest_image_wins(
    slot: SlotView,
    first: Seq<u8>,
    first_timestamp: Timestamp,
    second: Seq<u8>,
    second_timestamp: Timestamp,
)
    ensures
        write(write(slot, first, first_timestamp), second, second_timestamp) == write(
            slot,
            second,
            second_timestamp,
        ),
        second.len() > 0 ==> read(
            write(write(slot, first, first_timestamp), second, second_timestamp),
        ).0 == Some((second, second_timestamp)),
{
}

/// The lock of an outside crate that guards the slot.
#[verifier::external_type_specification]
#[verifier::external_body]
#[verifier::reject_recursive_types(T)]
#[verifier::reject_recursive_types(R)]
pub struct ExMutex<T: ?Sized, R>(spin::mutex::Mutex<T, R>);

/// The way in which that lock waits.
#[verifier::external_type_specification]
#[verifier::external_body]
pub struct ExSpin(spin::relax::Spin);

/// The hold on that lock.
#[verifier::external_type_specification]
#[verifier::external_body]
#[verifier::reject_recursive_types(T)]
pub struct ExMutexGuard<'a, T: 'a + ?Sized>(spin::mutex::MutexGuard<'a, T>);

/// `spin::Mutex::new`: a lock around `value`. Nothing is claimed of it.
#[verifier::external_body]
fn guarded<T>(value: T) -> spin::Mutex<T> {
    spin::Mutex::new(value)
}

/// `spin::Mutex::lock`: waits until the lock is free and takes it. Nothing
/// is claimed of what the lock guards: other holders may have changed it.
/// The call does not return while the caller itself holds the lock.
#[verifier::external_body]
fn lock<'a, T>(mutex: &'a spin::Mutex<T>) -> spin::MutexGuard<'a, T> {
    mutex.lock()
}

/// `DerefMut::deref_mut` of `spin::MutexGuard`: the guarded value, for as
/// long as the lock is held. Nothing is claimed of it.
#[verifier::external_body]
fn guarded_value<'a, 'b, T>(guard: &'a mut spin::MutexGuard<'b, T>) -> &'a mut T {
    &mut **guard
}

/// `Arc::clone`: one more handle on the same value.
#[verifier::external_body]
fn share<T>(handle: &Arc<T>) -> (r: Arc<T>)
    ensures
        r == *handle,
{
    Arc::clone(handle)
}

/// The slot as the control loop and the handlers of the stream share it.
///
/// Every handle made by `clone` leads to the same slot, and each operation
/// holds the slot's lock for as long as it runs. So what a read sees is the
/// last image that any handle wrote and that no handle has read yet. A
/// handle keeps its own account of the slot: what the slot held when the
/// handle last let go of it, which is what the slot holds for as long as no
/// other handle uses it.
pub struct HttpServerData {
    image: Arc<spin::Mutex<FrameSlot>>,
    account: Ghost<SlotView>,
}

impl Clone for HttpServerData {
    /// One more handle on the same slot, with the same account of it.
    fn clone(&self) -> (r: Self)
        ensures
            r == *self,
    {
        HttpServerData { image: share(&self.image), account: Ghost(self.account@) }
    }
}

impl HttpServerData {
    /// What the slot holds by this handle's own account: what it held when
    /// the handle last let go of it. The slot itself holds this for as long
    /// as no other handle has used it since.
    pub closed spec fn expected(&self) -> SlotView {
        self.account@
    }

    /// The slot that the handle leads to: handles lead to the same slot
    /// where this is equal.
    pub closed spec fn slot(&self) -> Arc<spin::Mutex<FrameSlot>> {
        self.image
    }

    /// A handle on a new, empty slot.
    pub fn new() -> (r: Self)
        ensures
            r.expected().is_none(),
    {
        HttpServerData { image: Arc::new(guarded(FrameSlot::new())), account: Ghost(None) }
    }

    /// Hands the image in the slot to `callback`, or nothing where the slot
    /// is empty, and leaves the slot empty. `callback` runs while the lock
    /// is held: it must not use a handle on the same slot.
    pub fn read_image_bytes<T>(
        &mut self,
        callback: impl FnOnce(Option<(&[u8], Timestamp)>) -> T,
    ) -> (r: T)
        requires
            forall|handed: Option<(&[u8], Timestamp)>| call_requires(callback, (handed,)),
        ensures
            final(self).slot() == old(self).slot(),
            final(self).expected() == read(old(self).expected()).1,
            exists|handed: Option<(&[u8], Timestamp)>|
                {
                    &&& #[trigger] call_ensures(callback, (handed,), r)
                    &&& handed matches Some((bytes, _)) ==> bytes@.len() > 0
                },
    {
        let mut image_guard = lock(&self.image);
        let slot = guarded_value(&mut image_guard);
        let returned = slot.read_image_bytes(callback);
        proof {
            self.account@ = slot@;
        }
        returned
    }

    /// Takes the image out of the slot, if it holds one, and leaves the
    /// slot empty. An image that is handed out has bytes.
    pub fn take_image(&mut self) -> (r: Option<Frame>)
        ensures
            final(self).slot() == old(self).slot(),
            final(self).expected() == read(old(self).expected()).1,
            r matches Some(frame) ==> frame.pixels@.len() > 0,
    {
        let mut image_guard = lock(&self.image);
        let slot = guarded_value(&mut image_guard);
        let taken = slot.take();
        proof {
            self.account@ = slot@;
        }
        taken
    }

    /// Takes the image out of the slot and makes the part of the stream
    /// that carries it; gives nothing where the slot is empty. The part is
    /// made after the slot is let go of.
    pub fn next_part(&mut self) -> (r: Option<Vec<u8>>)
        ensures
            final(self).slot() == old(self).slot(),
            final(self).expected() == read(old(self).expected()).1,
            r matches Some(bytes) ==> exists|image: Seq<u8>, timestamp: Timestamp|
                image.len() > 0 && bytes@ == #[trigger] part_bytes(image, timestamp),
    {
        match self.take_image() {
            Some(frame) => {
                let bytes = part(frame.pixels.as_slice(), frame.timestamp);
                assert(bytes@ == part_bytes(frame.pixels@, frame.timestamp));
                Some(bytes)
            },
            None => None,
        }
    }

    /// Puts a copy of `image` into the slot, in place of whatever it held.
    /// The handle still leads to the same slot, and by its account the slot
    /// now holds the image written.
    pub fn write_image(&mut self, image: &[u8], timestamp: Timestamp)
        ensures
            final(self).slot() == old(self).slot(),
            final(self).expected() == write(old(self).expected(), image@, timestamp),
    {
        let mut image_guard = lock(&self.image);
        let slot = guarded_value(&mut image_guard);
        slot.write_image(image, timestamp);
        proof {
            self.account@ = slot@;
        }
    }
}

} // verus!
