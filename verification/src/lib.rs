//! Control core of a motion-triggered camera: the enable schedule, the
//! debounced motion trigger, the single-slot frame relay, the storage
//! lifecycle and the tick that ties them together.

pub mod clock;
pub mod configuration;
pub mod errors;
pub mod esp32_cam;
pub mod features;
pub mod text;

use clock::Date;
use clock::Span;
use clock::NANOS_PER_SECOND;
use clock::Time;
use clock::Timestamp;
use configuration::customization::Customization;
use configuration::peripherals::camera::Camera as CameraTrait;
use configuration::peripherals::camera::Image;
use configuration::peripherals::Capability;
use configuration::peripherals::Claimed;
use configuration::peripherals::MotionPin;
use configuration::peripherals::Peripherals;
use configuration::peripherals::RealTimeClock;
use configuration::peripherals::ServerStarter;
use configuration::peripherals::Watchdog;
use configuration::peripherals::WatchdogCreator;
use configuration::Configuration;
use errors::CreationError;
use errors::TickError;
use features::http_server::register_all_requests;
use features::http_server::data::SlotView;
use features::http_server::stream::PossibleHttpRequest as StreamPossibleHttpRequest;
use features::http_server::HttpServerData;
use features::http_server::PossibleHttpRequest;
use features::http_server::Registrar;
use features::storage::closing_steps;
use features::storage::file_name_chars;
use features::storage::first_failure_of;
use features::storage::HandleView;
use features::storage::Storage;
use features::trigger::debounce::FilterState;
use features::trigger::EnableOnConditions;
use features::trigger::ImageTrigger;
use features::trigger::StorePolicy;
use features::trigger::HOLD_SECONDS;
use features::trigger::TriggerView;
use vstd::prelude::*;

verus! {

/// The camera trap: it owns the hardware it was given and runs the tick.
pub struct Camera<C: Configuration> {
    camera: <C::Peripherals as Peripherals>::Camera,
    http_server: Registrar<<C::Peripherals as Peripherals>::Server>,
    stream_http_server: Registrar<<C::Peripherals as Peripherals>::StreamServer>,
    wifi_driver: <C::Peripherals as Peripherals>::WifiDriver,
    watchdog: Option<
        <<C::Peripherals as Peripherals>::WatchdogCreator as WatchdogCreator>::Watchdog,
    >,
    controller: Controller<
        <C::Peripherals as Peripherals>::PirSensorPin,
        <C::Peripherals as Peripherals>::VolumeManager,
    >,
    real_time_clock: <C::Peripherals as Peripherals>::RealTimeClock,
}

/// What decides and what takes the images in: the trigger, the storage,
/// the slot of the stream and the count of the images that could not be
/// stored.
pub struct Controller<P: MotionPin, M: features::storage::VolumeManager> {
    storage: Storage<M>,
    store_failures: u64,
    http_server_data: HttpServerData,
    image_trigger: ImageTrigger<P>,
}

/// What a controller holds, as mathematical values.
pub struct ControllerView<Vol, Dir> {
    /// What the trigger holds.
    pub trigger: TriggerView,
    /// What the storage holds open.
    pub storage: HandleView<Vol, Dir>,
    /// The images that the device has stored, by its own word.
    pub files: Map<Seq<char>, Seq<u8>>,
    /// What the slot of the stream holds by the controller's own account:
    /// what the controller left in it.
    pub published: SlotView,
    /// How many images could not be stored.
    pub store_failures: nat,
}

/// What the hardware gave in the course of one tick.
pub struct TickEvents {
    /// Whether the watchdog took its feed; true where there is none.
    pub fed: bool,
    /// The reading of the clock, where it gave one.
    pub reading: Option<(Date, Time)>,
    /// The level of the pin, where it was read and gave one.
    pub level: Option<bool>,
    /// The image that the camera gave when asked, with the time of its
    /// capture, where it gave one.
    pub shot: Option<(Seq<u8>, Timestamp)>,
    /// Whether the device stored the image when asked.
    pub stored: bool,
}

/// How a tick ends.
#[derive(Clone, Copy, Debug, PartialEq, Eq, Structural)]
pub enum TickEnd {
    /// Well.
    Done,
    /// The watchdog could not be fed.
    WatchdogReset,
    /// The pin of the motion sensor could not be read.
    CouldntReadPirSensorPin,
    /// The camera gave no image.
    Camera,
}

/// How the result of a tick says that it ended.
pub open spec fn end_of<C: Configuration>(result: Result<(), TickError<C>>) -> TickEnd {
    match result {
        Ok(()) => TickEnd::Done,
        Err(TickError::WatchdogReset(_)) => TickEnd::WatchdogReset,
        Err(TickError::CouldntReadPirSensorPin(_)) => TickEnd::CouldntReadPirSensorPin,
        Err(TickError::Camera(_)) => TickEnd::Camera,
    }
}

/// A count of failures with one more, held at the end of its range.
pub open spec fn counted(failures: nat) -> nat {
    if failures < u64::MAX {
        failures + 1
    } else {
        failures
    }
}

impl<Vol, Dir> ControllerView<Vol, Dir> {
    /// The controller after `image` was written to the slot of the stream.
    pub open spec fn shown(self, image: Seq<u8>, timestamp: Timestamp) -> Self {
        ControllerView { published: crate::features::http_server::data::write(
                self.published,
                image,
                timestamp,
            ), ..self }
    }

    /// The controller after `image` was to be kept. The next file name is
    /// given out first, so the counter of the files goes up whether the
    /// image is stored or not. A stored image is the file of that name. The
    /// failure is counted where the device did not store the image, where
    /// the directory was not there, or where the file names have run out.
    /// In every case the slot of the stream is emptied afterwards.
    pub open spec fn kept(self, image: Seq<u8>, stored: bool) -> Self {
        let emptied = ControllerView { published: crate::features::http_server::data::read(self.published).1, ..self };
        if self.storage.file_counter >= u64::MAX {
            ControllerView { store_failures: counted(self.store_failures), ..emptied }
        } else {
            let storage = HandleView {
                file_counter: self.storage.file_counter + 1,
                ..self.storage
            };
            if stored && storage.root_dir.is_some() {
                ControllerView {
                    storage,
                    files: self.files.insert(file_name_chars(storage.file_counter), image),
                    ..emptied
                }
            } else {
                ControllerView {
                    storage,
                    store_failures: counted(self.store_failures),
                    ..emptied
                }
            }
        }
    }

    /// The controller after one tick in which the hardware gave `events`,
    /// and how that tick ends.
    ///
    /// A watchdog that does not take its feed ends the tick before anything
    /// else. Without a reading of the clock the tick ends well and nothing
    /// has changed. Else the trigger takes the first part of its tick; where
    /// it needs the level of the pin and the pin gives none, the tick ends
    /// there. Else the trigger takes the rest of its tick. While it asks for
    /// an image, one is taken, and a camera that gives none ends the tick.
    /// The image is written to the slot of the stream. Where the trigger
    /// asks for the image to be kept, it is kept.
    pub open spec fn ticked(self, events: TickEvents) -> (Self, TickEnd) {
        if !events.fed {
            (self, TickEnd::WatchdogReset)
        } else if events.reading.is_none() {
            (self, TickEnd::Done)
        } else {
            let prepared = self.trigger.prepared(events.reading);
            if prepared.needs_level(events.reading) && events.level.is_none() {
                (ControllerView { trigger: prepared, ..self }, TickEnd::CouldntReadPirSensorPin)
            } else {
                let after = ControllerView {
                    trigger: prepared.completed(events.reading, events.level),
                    ..self
                };
                if !after.trigger.needs_capture() {
                    (after, TickEnd::Done)
                } else {
                    match events.shot {
                        None => (after, TickEnd::Camera),
                        Some((image, timestamp)) => {
                            if !after.trigger.needs_store() {
                                (after.shown(image, timestamp), TickEnd::Done)
                            } else {
                                (
                                    after.shown(image, timestamp).kept(image, events.stored),
                                    TickEnd::Done,
                                )
                            }
                        },
                    }
                }
            }
        }
    }
}

/// No tick closes what the storage holds open or takes a file name back,
/// and a tick gives out at most one file name and counts at most one
/// failure.
pub proof fn lemma_tick_keeps_the_storage_open<Vol, Dir>(
    before: ControllerView<Vol, Dir>,
    events: TickEvents,
)
    ensures
        ({
            let after = before.ticked(events).0;
            &&& after.storage.volume == before.storage.volume
            &&& after.storage.root_dir == before.storage.root_dir
            &&& before.storage.file_counter <= after.storage.file_counter
                <= before.storage.file_counter + 1
            &&& before.store_failures <= after.store_failures <= before.store_failures + 1
            &&& after.trigger.trigger_duration == before.trigger.trigger_duration
            &&& after.trigger.store_policy == before.trigger.store_policy
        }),
{
}

/// An image that a tick captured and did not keep is there to be read: by
/// the controller's account the slot of the stream holds the bytes and the
/// time of capture that the camera gave.
pub proof fn lemma_captured_image_is_published<Vol, Dir>(
    before: ControllerView<Vol, Dir>,
    events: TickEvents,
)
    requires
        before.ticked(events).1 == TickEnd::Done,
        events.reading.is_some(),
        before.ticked(events).0.trigger.needs_capture(),
        !before.ticked(events).0.trigger.needs_store(),
    ensures
        events.shot matches Some((image, timestamp)) && before.ticked(events).0.published
            == crate::features::http_server::data::write(before.published, image, timestamp),
{
}

/// What the outside gave in the course of putting a controller together.
pub struct AssemblyEvents {
    /// Whether the main server started.
    pub main_started: bool,
    /// Whether the stream server started.
    pub stream_started: bool,
    /// Whether both servers took all their handlers.
    pub registered: bool,
    /// Whether the storage opened.
    pub storage_opened: bool,
}

/// How putting a controller together ends.
#[derive(Clone, Copy, Debug, PartialEq, Eq, Structural)]
pub enum AssemblyEnd {
    /// With a controller.
    Whole,
    /// A needed piece of hardware is missing.
    PeripheralMissing,
    /// The main server did not start.
    StartHttpServer,
    /// The stream server did not start.
    StartStreamHttpServer,
    /// A server refused a handler.
    RegisterURIHandlerHttpServer,
    /// The storage did not open.
    SdCard,
}

/// How the result of putting a controller together says that it ended.
pub open spec fn end_of_assembly<C: Configuration>(
    result: Result<Camera<C>, CreationError<C>>,
) -> AssemblyEnd {
    match result {
        Ok(_) => AssemblyEnd::Whole,
        Err(CreationError::PeripheralMissing { .. }) => AssemblyEnd::PeripheralMissing,
        Err(CreationError::StartHttpServer(_)) => AssemblyEnd::StartHttpServer,
        Err(CreationError::StartStreamHttpServer(_)) => AssemblyEnd::StartStreamHttpServer,
        Err(CreationError::RegisterURIHandlerHttpServer(_)) => AssemblyEnd::RegisterURIHandlerHttpServer,
        Err(CreationError::SdCard(_)) => AssemblyEnd::SdCard,
    }
}

/// How putting a controller together ends, from whether a piece is missing
/// and what the outside gave: a missing piece ends it before anything is
/// put to use; else the main server is started, then the stream server,
/// then the handlers are registered, then the storage is opened, and the
/// first of these to fail ends it.
pub open spec fn assembly(missing: bool, events: AssemblyEvents) -> AssemblyEnd {
    if missing {
        AssemblyEnd::PeripheralMissing
    } else if !events.main_started {
        AssemblyEnd::StartHttpServer
    } else if !events.stream_started {
        AssemblyEnd::StartStreamHttpServer
    } else if !events.registered {
        AssemblyEnd::RegisterURIHandlerHttpServer
    } else if !events.storage_opened {
        AssemblyEnd::SdCard
    } else {
        AssemblyEnd::Whole
    }
}

impl<P: MotionPin, M: features::storage::VolumeManager> Controller<P, M> {
    /// What the trigger holds.
    pub closed spec fn trigger(&self) -> TriggerView {
        self.image_trigger.state()
    }

    /// What the storage holds open.
    pub closed spec fn storage(&self) -> HandleView<M::Volume, M::Directory> {
        self.storage.handle()
    }

    /// How many images could not be stored.
    pub closed spec fn spec_store_failures(&self) -> nat {
        self.store_failures as nat
    }

    /// The images that the device has stored, by its own word.
    pub closed spec fn files(&self) -> Map<Seq<char>, Seq<u8>> {
        self.storage.files()
    }

    /// The controller's own handle on the slot through which the images
    /// reach the stream.
    pub closed spec fn relay(&self) -> HttpServerData {
        self.http_server_data
    }

    /// What the controller holds.
    pub open spec fn state(&self) -> ControllerView<M::Volume, M::Directory> {
        ControllerView {
            trigger: self.trigger(),
            storage: self.storage(),
            files: self.files(),
            published: self.relay().expected(),
            store_failures: self.spec_store_failures(),
        }
    }

    /// A controller over a trigger, a storage and a handle on the slot of
    /// the stream, with no failure counted.
    pub fn new(image_trigger: ImageTrigger<P>, storage: Storage<M>, http_server_data: HttpServerData) -> (r:
        Self)
        ensures
            r.trigger() == image_trigger.state(),
            r.storage() == storage.handle(),
            r.files() == storage.files(),
            r.relay() == http_server_data,
            r.spec_store_failures() == 0,
    {
        Controller { storage, store_failures: 0, http_server_data, image_trigger }
    }

    /// Takes in an image that the camera gave. The image is written to the
    /// slot of the stream. Where the trigger asks for images to be kept, the
    /// image is then stored under the next file name, a failure to store it
    /// is counted, and the slot is emptied; else the image stays in the slot
    /// to be read.
    pub fn take_in(&mut self, pixels: &[u8], timestamp: Timestamp)
        ensures
            !old(self).trigger().needs_store() ==> final(self).state() == old(self).state().shown(
                pixels@,
                timestamp,
            ),
            old(self).trigger().needs_store() ==> exists|stored: bool|
                final(self).state() == #[trigger] old(self).state().shown(pixels@, timestamp).kept(
                    pixels@,
                    stored,
                ),
            final(self).relay().slot() == old(self).relay().slot(),
    {
        self.http_server_data.write_image(pixels, timestamp);
        if self.image_trigger.needs_to_store_image() {
            let stored = match self.storage.next_file_name() {
                Some(file_name) => self.storage.store_image(pixels, file_name.as_str()).is_ok(),
                None => false,
            };
            if !stored && self.store_failures < u64::MAX {
                self.store_failures = self.store_failures + 1;
            }
            let nothing: [u8; 0] = [];
            self.http_server_data.write_image(nothing.as_slice(), Timestamp::zero());
            assert(self.state() == old(self).state().shown(pixels@, timestamp).kept(pixels@, stored));
        }
    }
}

impl<C: Configuration> Camera<C> {
    /// What the trigger holds.
    pub closed spec fn trigger(&self) -> TriggerView {
        self.controller.trigger()
    }

    /// What the storage holds open.
    pub closed spec fn storage(&self) -> HandleView<
        <<C::Peripherals as Peripherals>::VolumeManager as features::storage::VolumeManager>::Volume,
        <<C::Peripherals as Peripherals>::VolumeManager as features::storage::VolumeManager>::Directory,
    > {
        self.controller.storage()
    }

    /// How many images could not be stored.
    pub closed spec fn spec_store_failures(&self) -> nat {
        self.controller.spec_store_failures()
    }

    /// The images that the device has stored, by its own word.
    pub closed spec fn files(&self) -> Map<Seq<char>, Seq<u8>> {
        self.controller.files()
    }

    /// The requests that the main server has taken.
    pub closed spec fn main_handlers(&self) -> Seq<PossibleHttpRequest> {
        self.http_server.registered()
    }

    /// The requests that the stream server has taken.
    pub closed spec fn stream_handlers(&self) -> Seq<StreamPossibleHttpRequest> {
        self.stream_http_server.registered()
    }

    /// What the controller holds.
    pub open spec fn state(&self) -> ControllerView<
        <<C::Peripherals as Peripherals>::VolumeManager as features::storage::VolumeManager>::Volume,
        <<C::Peripherals as Peripherals>::VolumeManager as features::storage::VolumeManager>::Directory,
    > {
        ControllerView {
            trigger: self.trigger(),
            storage: self.storage(),
            files: self.files(),
            published: self.relay().expected(),
            store_failures: self.spec_store_failures(),
        }
    }

    /// Whether a watchdog is set on the control loop.
    pub closed spec fn has_watchdog(&self) -> bool {
        self.watchdog.is_some()
    }

    /// The controller's own handle on the slot through which the images
    /// reach the stream.
    pub closed spec fn relay(&self) -> HttpServerData {
        self.controller.relay()
    }

    /// Puts a controller together from a configuration: takes every needed
    /// piece of hardware and the watchdog once, asks for the choices of
    /// the user, and goes on as [`Camera::assemble`] does.
    pub fn new(configuration: C) -> (r: Result<Self, CreationError<C>>)
        ensures
            r matches Ok(camera) ==> {
                &&& camera.trigger().last_tick.is_none()
                &&& camera.trigger().trigger.is_none()
                &&& !camera.trigger().is_enabled
                &&& camera.trigger().store_policy == StorePolicy::Never
                &&& camera.storage().root_dir.is_some()
                &&& camera.storage().file_counter == 0
                &&& camera.files() == Map::<Seq<char>, Seq<u8>>::empty()
                &&& camera.relay().expected().is_none()
                &&& camera.main_handlers() == PossibleHttpRequest::spec_all()
                &&& camera.stream_handlers() == StreamPossibleHttpRequest::spec_all()
                &&& camera.spec_store_failures() == 0
            },
            r matches Err(CreationError::PeripheralMissing { name }) ==> exists|
                capability: Capability,
            | name@ == #[trigger] capability.spec_name(),
    {
        let mut configuration = configuration;
        let mut peripherals = configuration.peripherals();
        let customization = configuration.customization();
        let claimed = Claimed::claim_all(&mut peripherals);
        let watchdog_creator = peripherals.take_watchdog_creator();
        let enable_on = customization.enable_image_trigger_on();
        let trigger_duration = customization.trigger_duration();
        let assembled = Self::assemble(claimed, watchdog_creator, enable_on, trigger_duration);
        proof {
            if let Some(capability) = claimed.spec_first_missing() {
                assert(assembled matches Err(CreationError::PeripheralMissing { name }) && name@
                    == capability.spec_name());
            }
        }
        assembled
    }

    /// Puts a controller together from what taking the hardware gave.
    ///
    /// Where a needed piece is missing, the first missing one is named and
    /// nothing has been put to use. Else the two servers are started, the
    /// handlers registered and the storage opened, in this order; the first
    /// failure ends the construction with the error of its kind. The
    /// watchdog is optional: there is one only where a creator was given and
    /// could set it. The new controller has seen no tick and keeps no image;
    /// its servers have taken the handlers of all their requests, its
    /// storage has stored nothing and the slot of the stream is empty.
    pub fn assemble(
        claimed: Claimed<C::Peripherals>,
        watchdog_creator: Option<<C::Peripherals as Peripherals>::WatchdogCreator>,
        enable_on: EnableOnConditions,
        trigger_duration: Span,
    ) -> (r: Result<Self, CreationError<C>>)
        ensures
            match claimed.spec_first_missing() {
                Some(capability) => r matches Err(CreationError::PeripheralMissing { name })
                    && name@ == capability.spec_name(),
                None => !(r matches Err(CreationError::PeripheralMissing { .. })),
            },
            exists|events: AssemblyEvents|
                end_of_assembly(r) == #[trigger] assembly(
                    claimed.spec_first_missing().is_some(),
                    events,
                ),
            r matches Ok(camera) ==> {
                &&& camera.trigger() == (TriggerView {
                    filter: FilterState::initial(false, HOLD_SECONDS * NANOS_PER_SECOND),
                    last_tick: None,
                    trigger: None,
                    trigger_duration: trigger_duration@,
                    is_enabled: false,
                    enable_on,
                    store_policy: StorePolicy::Never,
                })
                &&& camera.storage().root_dir.is_some()
                &&& camera.storage().file_counter == 0
                &&& camera.files() == Map::<Seq<char>, Seq<u8>>::empty()
                &&& camera.relay().expected().is_none()
                &&& camera.main_handlers() == PossibleHttpRequest::spec_all()
                &&& camera.stream_handlers() == StreamPossibleHttpRequest::spec_all()
                &&& camera.spec_store_failures() == 0
                &&& camera.has_watchdog() ==> watchdog_creator.is_some()
            },
    {
        let ghost missing = claimed.spec_first_missing().is_some();
        let parts = match claimed.require_all() {
            Ok(parts) => parts,
            Err(capability) => {
                let result = Err(CreationError::PeripheralMissing { name: capability.name() });
                proof {
                    let events = AssemblyEvents {
                        main_started: false,
                        stream_started: false,
                        registered: false,
                        storage_opened: false,
                    };
                    assert(end_of_assembly::<C>(result) == assembly(missing, events));
                }
                return result;
            },
        };
        let started = parts.http_server.start();
        let mut http_server = match CreationError::<C>::main_server_started(started) {
            Ok(server) => Registrar::new(server),
            Err(error) => {
                let result = Err(error);
                proof {
                    let events = AssemblyEvents {
                        main_started: false,
                        stream_started: false,
                        registered: false,
                        storage_opened: false,
                    };
                    assert(end_of_assembly::<C>(result) == assembly(missing, events));
                }
                return result;
            },
        };
        let stream_started = parts.stream_http_server.start();
        let mut stream_http_server = match CreationError::<C>::stream_server_started(
            stream_started,
        ) {
            Ok(server) => Registrar::new(server),
            Err(error) => {
                let result = Err(error);
                proof {
                    let events = AssemblyEvents {
                        main_started: true,
                        stream_started: false,
                        registered: false,
                        storage_opened: false,
                    };
                    assert(end_of_assembly::<C>(result) == assembly(missing, events));
                }
                return result;
            },
        };
        let http_server_data = HttpServerData::new();
        let registered = register_all_requests(
            &mut http_server,
            &mut stream_http_server,
            http_server_data.clone(),
        );
        match CreationError::<C>::handlers_registered(registered) {
            Ok(()) => {},
            Err(error) => {
                let result = Err(error);
                proof {
                    let events = AssemblyEvents {
                        main_started: true,
                        stream_started: true,
                        registered: false,
                        storage_opened: false,
                    };
                    assert(end_of_assembly::<C>(result) == assembly(missing, events));
                }
                return result;
            },
        }
        assert(http_server.registered() =~= PossibleHttpRequest::spec_all());
        assert(stream_http_server.registered() =~= StreamPossibleHttpRequest::spec_all());
        let volume_manager = <C::Peripherals as Peripherals>::volume_manager(
            parts.sd_card_spi,
            parts.sd_card_cs,
            parts.sd_card_delay,
            parts.sd_card_time_source,
        );
        let opened = Storage::new(volume_manager);
        let storage = match CreationError::<C>::storage_opened(opened) {
            Ok(storage) => storage,
            Err(error) => {
                let result = Err(error);
                proof {
                    let events = AssemblyEvents {
                        main_started: true,
                        stream_started: true,
                        registered: true,
                        storage_opened: false,
                    };
                    assert(end_of_assembly::<C>(result) == assembly(missing, events));
                }
                return result;
            },
        };
        let watchdog = match watchdog_creator {
            Some(creator) => creator.watch_current_thread(),
            None => None,
        };
        let image_trigger = ImageTrigger::new(parts.pir_sensor_pin, enable_on, trigger_duration);
        let result = Ok(
            Camera {
                camera: parts.camera,
                http_server,
                stream_http_server,
                wifi_driver: parts.wifi_driver,
                watchdog,
                controller: Controller::new(image_trigger, storage, http_server_data),
                real_time_clock: parts.real_time_clock,
            },
        );
        proof {
            let events = AssemblyEvents {
                main_started: true,
                stream_started: true,
                registered: true,
                storage_opened: true,
            };
            assert(end_of_assembly::<C>(result) == assembly(missing, events));
        }
        result
    }

    /// The same controller with another policy on keeping images.
    pub fn with_store_policy(self, store_policy: StorePolicy) -> (r: Self)
        ensures
            r.trigger() == (TriggerView { store_policy, ..self.trigger() }),
            r.storage() == self.storage(),
            r.spec_store_failures() == self.spec_store_failures(),
            r.relay() == self.relay(),
            r.has_watchdog() == self.has_watchdog(),
            r.files() == self.files(),
            r.main_handlers() == self.main_handlers(),
            r.stream_handlers() == self.stream_handlers(),
    {
        Camera {
            camera: self.camera,
            http_server: self.http_server,
            stream_http_server: self.stream_http_server,
            wifi_driver: self.wifi_driver,
            watchdog: self.watchdog,
            controller: Controller {
                storage: self.controller.storage,
                store_failures: self.controller.store_failures,
                http_server_data: self.controller.http_server_data,
                image_trigger: self.controller.image_trigger.with_store_policy(store_policy),
            },
            real_time_clock: self.real_time_clock,
        }
    }

    /// A handle on the slot through which the images reach the stream:
    /// one more of the controller's own, so that what a tick writes is there
    /// to be read through it.
    pub fn http_server_data(&self) -> (r: HttpServerData)
        ensures
            r == self.relay(),
    {
        self.controller.http_server_data.clone()
    }

    /// The trigger, as it stands.
    pub fn image_trigger(&self) -> (r: &ImageTrigger<<C::Peripherals as Peripherals>::PirSensorPin>)
        ensures
            r.state() == self.trigger(),
    {
        &self.controller.image_trigger
    }

    /// Whether the trigger asks for an image to be captured.
    pub fn needs_to_capture_image(&self) -> (r: bool)
        ensures
            r == self.trigger().needs_capture(),
    {
        self.controller.image_trigger.needs_to_capture_image()
    }

    /// How many images could not be stored since the controller was put
    /// together.
    pub fn store_failures(&self) -> (r: u64)
        ensures
            r == self.spec_store_failures(),
    {
        self.controller.store_failures
    }

    /// One turn of the control loop.
    ///
    /// Feeds the watchdog, where there is one; its failure ends the tick
    /// before anything else is done. Reads the clock; without a reading
    /// the tick ends well and nothing else is done. Else the trigger takes
    /// its tick; where the pin cannot be read the tick ends with that
    /// error. While the trigger asks for it, an image is taken and written
    /// to the slot of the stream; where the camera gives none, the tick
    /// ends with that error. The image is taken in as
    /// [`Controller::take_in`] says: where the trigger asks for it to be
    /// kept, it is stored under the next file name and the slot is emptied,
    /// and an image that could not be stored is counted; else it stays in the
    /// slot. The tick then ends well.
    ///
    /// So, for what the hardware gave in its course, the controller and the
    /// result are those of [`ControllerView::ticked`]; without a watchdog no
    /// tick ends for want of a feed. The handle on the slot of the stream
    /// leads to the same slot as before, and the servers keep their
    /// handlers.
    pub fn tick(&mut self) -> (r: Result<(), TickError<C>>)
        ensures
            exists|events: TickEvents|
                {
                    &&& (final(self).state(), end_of(r)) == #[trigger] old(self).state().ticked(
                        events,
                    )
                    &&& !old(self).has_watchdog() ==> events.fed
                },
            final(self).has_watchdog() == old(self).has_watchdog(),
            final(self).relay().slot() == old(self).relay().slot(),
            final(self).main_handlers() == old(self).main_handlers(),
            final(self).stream_handlers() == old(self).stream_handlers(),
    {
        let ghost before = self.state();
        if let Some(watchdog) = self.watchdog.as_mut() {
            match watchdog.feed() {
                Ok(()) => {},
                Err(error) => {
                    let result = Err(TickError::WatchdogReset(error));
                    proof {
                        let events = TickEvents {
                            fed: false,
                            reading: None,
                            level: None,
                            shot: None,
                            stored: false,
                        };
                        assert((self.state(), end_of(result)) == before.ticked(events));
                    }
                    return result;
                },
            }
        }
        let current_date_and_time = match self.real_time_clock.now() {
            Ok(reading) => reading,
            Err(_) => {
                let result = Ok(());
                proof {
                    let events = TickEvents {
                        fed: true,
                        reading: None,
                        level: None,
                        shot: None,
                        stored: false,
                    };
                    assert((self.state(), end_of(result)) == before.ticked(events));
                }
                return result;
            },
        };
        let ghost reading = Some(current_date_and_time);
        match self.controller.image_trigger.tick(Some(current_date_and_time)) {
            Ok(()) => {},
            Err(error) => {
                let result = Err(TickError::CouldntReadPirSensorPin(error));
                proof {
                    let events = TickEvents {
                        fed: true,
                        reading,
                        level: None,
                        shot: None,
                        stored: false,
                    };
                    assert((self.state(), end_of(result)) == before.ticked(events));
                }
                return result;
            },
        }
        let ghost level = choose|level: Option<bool>|
            level.is_some() == before.trigger.prepared(reading).needs_level(reading)
                && self.controller.image_trigger.state() == #[trigger] before.trigger.ticked(
                reading,
                level,
            );
        if !self.controller.image_trigger.needs_to_capture_image() {
            let result = Ok(());
            proof {
                let events = TickEvents { fed: true, reading, level, shot: None, stored: false };
                assert((self.state(), end_of(result)) == before.ticked(events));
            }
            return result;
        }
        let image = match self.camera.get_image() {
            Ok(image) => image,
            Err(error) => {
                let result = Err(TickError::Camera(error));
                proof {
                    let events = TickEvents {
                        fed: true,
                        reading,
                        level,
                        shot: None,
                        stored: false,
                    };
                    assert((self.state(), end_of(result)) == before.ticked(events));
                }
                return result;
            },
        };
        let pixels = image.get_pixels();
        let timestamp = image.get_timestamp();
        let ghost captured = self.state();
        self.controller.take_in(pixels, timestamp);
        let result = Ok(());
        proof {
            let stored = if captured.trigger.needs_store() {
                choose|stored: bool|
                    self.state() == #[trigger] captured.shown(pixels@, timestamp).kept(
                        pixels@,
                        stored,
                    )
            } else {
                false
            };
            let events = TickEvents {
                fed: true,
                reading,
                level,
                shot: Some((pixels@, timestamp)),
                stored,
            };
            assert((self.state(), end_of(result)) == before.ticked(events));
        }
        result
    }

    /// Closes the storage: the directory first, then the volume. The rest
    /// of the hardware is let go of. The result is the first failure among
    /// as many outcomes as the storage has steps to close.
    ///
    /// A controller that is let go of in any other way closes nothing: who
    /// owns it calls this on every way out.
    pub fn shut_down(self) -> (r: Result<
        (),
        <<C::Peripherals as Peripherals>::VolumeManager as features::storage::VolumeManager>::Error,
    >)
        ensures
            exists|closed: Seq<
                Result<
                    (),
                    <<C::Peripherals as Peripherals>::VolumeManager as features::storage::VolumeManager>::Error,
                >,
            >|
                closed.len() == closing_steps(self.storage()).len() && r
                    == #[trigger] first_failure_of(closed),
    {
        self.controller.storage.close()
    }
}

} // verus!

