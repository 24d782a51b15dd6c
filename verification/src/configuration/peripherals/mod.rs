//! The hardware that the controller is given: each piece can be taken
//! once, and the controller needs all but the watchdog.

pub mod camera;

use crate::clock::Date;
use crate::clock::Time;
use crate::features::http_server::stream::PossibleHttpRequest as StreamPossibleHttpRequest;
use crate::features::http_server::HttpServer;
use crate::features::http_server::PossibleHttpRequest;
use crate::features::storage::VolumeManager;
use camera::Camera;
use core::fmt::Debug;
use vstd::prelude::*;

verus! {

/// The pin of the motion sensor.
pub trait MotionPin {
    /// What reading the pin can fail with.
    type Error;

    /// Reads the raw level of the pin.
    fn is_high(&mut self) -> Result<bool, Self::Error>;
}

/// A watchdog that resets the device unless it is fed in time.
pub trait Watchdog {
    /// What feeding can fail with.
    type Error;

    /// Feeds the watchdog.
    fn feed(&mut self) -> Result<(), Self::Error>;
}

/// What can set a watchdog on the running thread.
pub trait WatchdogCreator {
    type Watchdog: Watchdog;

    /// Sets a watchdog on the running thread, where that is possible.
    fn watch_current_thread(self) -> Option<Self::Watchdog>;
}

/// A clock that knows the date and the time of day.
pub trait RealTimeClock {
    /// What reading the clock can fail with.
    type Error;

    /// The date and the time of day, where the clock knows them.
    fn now(&self) -> Result<(Date, Time), Self::Error>;
}

/// A server that is not started yet, so that its handlers can be made
/// ready before it listens.
pub trait ServerStarter<S, E> {
    /// Starts the server.
    fn start(self) -> Result<S, E>;
}

/// The hardware of a controller. Each `take` hands a piece out at most
/// once.
pub trait Peripherals {
    type Camera: Camera;

    type WifiDriver;

    type Server: HttpServer<HttpRequest = PossibleHttpRequest>;

    type StreamServer: HttpServer<HttpRequest = StreamPossibleHttpRequest>;

    type ServerError: Debug;

    type ServerStarter: ServerStarter<Self::Server, Self::ServerError>;

    type StreamServerStarter: ServerStarter<Self::StreamServer, Self::ServerError>;

    type SdCardSpi;

    type SdCardCS;

    type SdCardDelay;

    type SdCardTimeSource;

    type VolumeManager: VolumeManager;

    type PirSensorPin: MotionPin;

    type WatchdogCreator: WatchdogCreator;

    type RealTimeClock: RealTimeClock;

    fn take_camera(&mut self) -> Option<Self::Camera>;

    fn take_wifi_driver(&mut self) -> Option<Self::WifiDriver>;

    fn take_http_server(&mut self) -> Option<Self::ServerStarter>;

    fn take_stream_http_server(&mut self) -> Option<Self::StreamServerStarter>;

    fn take_sd_card_spi(&mut self) -> Option<Self::SdCardSpi>;

    fn take_sd_card_cs(&mut self) -> Option<Self::SdCardCS>;

    fn take_sd_card_delay(&mut self) -> Option<Self::SdCardDelay>;

    fn take_sd_card_time_source(&mut self) -> Option<Self::SdCardTimeSource>;

    fn take_pir_sensor_pin(&mut self) -> Option<Self::PirSensorPin>;

    fn take_watchdog_creator(&mut self) -> Option<Self::WatchdogCreator>;

    fn take_real_time_clock(&mut self) -> Option<Self::RealTimeClock>;

    /// Puts the four pieces of the card reader together.
    fn volume_manager(
        spi: Self::SdCardSpi,
        cs: Self::SdCardCS,
        delay: Self::SdCardDelay,
        time_source: Self::SdCardTimeSource,
    ) -> Self::VolumeManager;
}

/// What claiming does to what a slot holds: the claimant gets it, and
/// nothing is left.
pub open spec fn claimed<T>(resource: Option<T>) -> (Option<T>, Option<T>) {
    (resource, None)
}

/// A piece of hardware that can be claimed once.
pub struct CapabilitySlot<T> {
    name: &'static str,
    resource: Option<T>,
}

impl<T> CapabilitySlot<T> {
    /// The name of the piece, as it shows in diagnostics.
    pub closed spec fn spec_name(&self) -> &'static str {
        self.name
    }

    /// What the slot holds.
    pub closed spec fn spec_resource(&self) -> Option<T> {
        self.resource
    }

    /// A slot that holds `resource`.
    pub fn new(name: &'static str, resource: T) -> (r: Self)
        ensures
            r.spec_name() == name,
            r.spec_resource() == Some(resource),
    {
        CapabilitySlot { name, resource: Some(resource) }
    }

    /// A slot for a piece that is not there.
    pub fn empty(name: &'static str) -> (r: Self)
        ensures
            r.spec_name() == name,
            r.spec_resource().is_none(),
    {
        CapabilitySlot { name, resource: None }
    }

    /// The name of the piece.
    pub fn name(&self) -> (r: &'static str)
        ensures
            r == self.spec_name(),
    {
        self.name
    }

    /// Whether the piece is still there to be claimed.
    pub fn is_available(&self) -> (r: bool)
        ensures
            r == self.spec_resource().is_some(),
    {
        self.resource.is_some()
    }

    /// The same slot with nothing in it.
    pub closed spec fn emptied(self) -> Self {
        CapabilitySlot { name: self.name, resource: None }
    }

    /// Hands the piece out and leaves the slot empty: a second claim gets
    /// nothing.
    pub fn claim(&mut self) -> (r: Option<T>)
        ensures
            r == claimed(old(self).spec_resource()).0,
            final(self).spec_resource() == claimed(old(self).spec_resource()).1,
            final(self).spec_name() == old(self).spec_name(),
            *final(self) == old(self).emptied(),
    {
        self.resource.take()
    }
}

/// The kinds of hardware of a board, and how its card reader is put
/// together.
pub trait Board {
    type Camera: Camera;

    type WifiDriver;

    type Server: HttpServer<HttpRequest = PossibleHttpRequest>;

    type StreamServer: HttpServer<HttpRequest = StreamPossibleHttpRequest>;

    type ServerError: Debug;

    type ServerStarter: ServerStarter<Self::Server, Self::ServerError>;

    type StreamServerStarter: ServerStarter<Self::StreamServer, Self::ServerError>;

    type SdCardSpi;

    type SdCardCS;

    type SdCardDelay;

    type SdCardTimeSource;

    type VolumeManager: VolumeManager;

    type PirSensorPin: MotionPin;

    type WatchdogCreator: WatchdogCreator;

    type RealTimeClock: RealTimeClock;

    /// Puts the four pieces of the card reader together.
    fn volume_manager(
        spi: Self::SdCardSpi,
        cs: Self::SdCardCS,
        delay: Self::SdCardDelay,
        time_source: Self::SdCardTimeSource,
    ) -> Self::VolumeManager;
}

/// The hardware of a board, one slot for each piece: each piece is handed
/// out once, and a piece that was never there or was handed out before is
/// not handed out.
pub struct Registry<B: Board> {
    pub camera: CapabilitySlot<B::Camera>,
    pub wifi_driver: CapabilitySlot<B::WifiDriver>,
    pub http_server: CapabilitySlot<B::ServerStarter>,
    pub stream_http_server: CapabilitySlot<B::StreamServerStarter>,
    pub sd_card_spi: CapabilitySlot<B::SdCardSpi>,
    pub sd_card_cs: CapabilitySlot<B::SdCardCS>,
    pub sd_card_delay: CapabilitySlot<B::SdCardDelay>,
    pub sd_card_time_source: CapabilitySlot<B::SdCardTimeSource>,
    pub pir_sensor_pin: CapabilitySlot<B::PirSensorPin>,
    pub watchdog_creator: CapabilitySlot<B::WatchdogCreator>,
    pub real_time_clock: CapabilitySlot<B::RealTimeClock>,
}

impl<B: Board> Peripherals for Registry<B> {
    type Camera = B::Camera;

    type WifiDriver = B::WifiDriver;

    type Server = B::Server;

    type StreamServer = B::StreamServer;

    type ServerError = B::ServerError;

    type ServerStarter = B::ServerStarter;

    type StreamServerStarter = B::StreamServerStarter;

    type SdCardSpi = B::SdCardSpi;

    type SdCardCS = B::SdCardCS;

    type SdCardDelay = B::SdCardDelay;

    type SdCardTimeSource = B::SdCardTimeSource;

    type VolumeManager = B::VolumeManager;

    type PirSensorPin = B::PirSensorPin;

    type WatchdogCreator = B::WatchdogCreator;

    type RealTimeClock = B::RealTimeClock;

    /// Hands out what the slot holds and leaves it empty; every other slot
    /// stays as it is.
    fn take_camera(&mut self) -> (r: Option<B::Camera>)
        ensures
            r == old(self).camera.spec_resource(),
            final(self).camera.spec_resource().is_none(),
            *final(self) == (Registry { camera: old(self).camera.emptied(), ..*old(self) }),
    {
        self.camera.claim()
    }

    /// Hands out what the slot holds and leaves it empty; every other slot
    /// stays as it is.
    fn take_wifi_driver(&mut self) -> (r: Option<B::WifiDriver>)
        ensures
            r == old(self).wifi_driver.spec_resource(),
            final(self).wifi_driver.spec_resource().is_none(),
            *final(self) == (Registry { wifi_driver: old(self).wifi_driver.emptied(), ..*old(self) }),
    {
        self.wifi_driver.claim()
    }

    /// Hands out what the slot holds and leaves it empty; every other slot
    /// stays as it is.
    fn take_http_server(&mut self) -> (r: Option<B::ServerStarter>)
        ensures
            r == old(self).http_server.spec_resource(),
            final(self).http_server.spec_resource().is_none(),
            *final(self) == (Registry { http_server: old(self).http_server.emptied(), ..*old(self) }),
    {
        self.http_server.claim()
    }

    /// Hands out what the slot holds and leaves it empty; every other slot
    /// stays as it is.
    fn take_stream_http_server(&mut self) -> (r: Option<B::StreamServerStarter>)
        ensures
            r == old(self).stream_http_server.spec_resource(),
            final(self).stream_http_server.spec_resource().is_none(),
            *final(self) == (Registry { stream_http_server: old(self).stream_http_server.emptied(), ..*old(self) }),
    {
        self.stream_http_server.claim()
    }

    /// Hands out what the slot holds and leaves it empty; every other slot
    /// stays as it is.
    fn take_sd_card_spi(&mut self) -> (r: Option<B::SdCardSpi>)
        ensures
            r == old(self).sd_card_spi.spec_resource(),
            final(self).sd_card_spi.spec_resource().is_none(),
            *final(self) == (Registry { sd_card_spi: old(self).sd_card_spi.emptied(), ..*old(self) }),
    {
        self.sd_card_spi.claim()
    }

    /// Hands out what the slot holds and leaves it empty; every other slot
    /// stays as it is.
    fn take_sd_card_cs(&mut self) -> (r: Option<B::SdCardCS>)
        ensures
            r == old(self).sd_card_cs.spec_resource(),
            final(self).sd_card_cs.spec_resource().is_none(),
            *final(self) == (Registry { sd_card_cs: old(self).sd_card_cs.emptied(), ..*old(self) }),
    {
        self.sd_card_cs.claim()
    }

    /// Hands out what the slot holds and leaves it empty; every other slot
    /// stays as it is.
    fn take_sd_card_delay(&mut self) -> (r: Option<B::SdCardDelay>)
        ensures
            r == old(self).sd_card_delay.spec_resource(),
            final(self).sd_card_delay.spec_resource().is_none(),
            *final(self) == (Registry { sd_card_delay: old(self).sd_card_delay.emptied(), ..*old(self) }),
    {
        self.sd_card_delay.claim()
    }

    /// Hands out what the slot holds and leaves it empty; every other slot
    /// stays as it is.
    fn take_sd_card_time_source(&mut self) -> (r: Option<B::SdCardTimeSource>)
        ensures
            r == old(self).sd_card_time_source.spec_resource(),
            final(self).sd_card_time_source.spec_resource().is_none(),
            *final(self) == (Registry { sd_card_time_source: old(self).sd_card_time_source.emptied(), ..*old(self) }),
    {
        self.sd_card_time_source.claim()
    }

    /// Hands out what the slot holds and leaves it empty; every other slot
    /// stays as it is.
    fn take_pir_sensor_pin(&mut self) -> (r: Option<B::PirSensorPin>)
        ensures
            r == old(self).pir_sensor_pin.spec_resource(),
            final(self).pir_sensor_pin.spec_resource().is_none(),
            *final(self) == (Registry { pir_sensor_pin: old(self).pir_sensor_pin.emptied(), ..*old(self) }),
    {
        self.pir_sensor_pin.claim()
    }

    /// Hands out what the slot holds and leaves it empty; every other slot
    /// stays as it is.
    fn take_watchdog_creator(&mut self) -> (r: Option<B::WatchdogCreator>)
        ensures
            r == old(self).watchdog_creator.spec_resource(),
            final(self).watchdog_creator.spec_resource().is_none(),
            *final(self) == (Registry { watchdog_creator: old(self).watchdog_creator.emptied(), ..*old(self) }),
    {
        self.watchdog_creator.claim()
    }

    /// Hands out what the slot holds and leaves it empty; every other slot
    /// stays as it is.
    fn take_real_time_clock(&mut self) -> (r: Option<B::RealTimeClock>)
        ensures
            r == old(self).real_time_clock.spec_resource(),
            final(self).real_time_clock.spec_resource().is_none(),
            *final(self) == (Registry { real_time_clock: old(self).real_time_clock.emptied(), ..*old(self) }),
    {
        self.real_time_clock.claim()
    }

    fn volume_manager(
        spi: B::SdCardSpi,
        cs: B::SdCardCS,
        delay: B::SdCardDelay,
        time_source: B::SdCardTimeSource,
    ) -> B::VolumeManager {
        B::volume_manager(spi, cs, delay, time_source)
    }
}

/// Each piece of a registry is handed out at most once: after a take the
/// slot is empty and stays empty, so every later take of the same piece
/// gets nothing, whatever else is taken in between.
pub proof fn lemma_registry_hands_out_once<B: Board>(registry: Registry<B>)
    ensures
        registry.camera.emptied().spec_resource().is_none(),
        registry.camera.emptied().emptied() == registry.camera.emptied(),
        registry.wifi_driver.emptied().spec_resource().is_none(),
        registry.wifi_driver.emptied().emptied() == registry.wifi_driver.emptied(),
        registry.http_server.emptied().spec_resource().is_none(),
        registry.http_server.emptied().emptied() == registry.http_server.emptied(),
        registry.stream_http_server.emptied().spec_resource().is_none(),
        registry.stream_http_server.emptied().emptied() == registry.stream_http_server.emptied(),
        registry.sd_card_spi.emptied().spec_resource().is_none(),
        registry.sd_card_spi.emptied().emptied() == registry.sd_card_spi.emptied(),
        registry.sd_card_cs.emptied().spec_resource().is_none(),
        registry.sd_card_cs.emptied().emptied() == registry.sd_card_cs.emptied(),
        registry.sd_card_delay.emptied().spec_resource().is_none(),
        registry.sd_card_delay.emptied().emptied() == registry.sd_card_delay.emptied(),
        registry.sd_card_time_source.emptied().spec_resource().is_none(),
        registry.sd_card_time_source.emptied().emptied() == registry.sd_card_time_source.emptied(),
        registry.pir_sensor_pin.emptied().spec_resource().is_none(),
        registry.pir_sensor_pin.emptied().emptied() == registry.pir_sensor_pin.emptied(),
        registry.watchdog_creator.emptied().spec_resource().is_none(),
        registry.watchdog_creator.emptied().emptied() == registry.watchdog_creator.emptied(),
        registry.real_time_clock.emptied().spec_resource().is_none(),
        registry.real_time_clock.emptied().emptied() == registry.real_time_clock.emptied(),
{
}

/// Whatever a slot holds, the second of two claims gets nothing, and so
/// does every claim after it.
pub proof fn lemma_second_claim_gets_nothing<T>(resource: Option<T>)
    ensures
        claimed(claimed(resource).1).0.is_none(),
        claimed(claimed(resource).1).1.is_none(),
{
}

/// The pieces that a controller cannot do without, in the order in which
/// their absence is reported.
#[derive(Clone, Copy, Debug, PartialEq, Eq, Structural)]
pub enum Capability {
    HttpServer,
    StreamHttpServer,
    Camera,
    WifiDriver,
    SdCardSpi,
    SdCardCs,
    SdCardDelay,
    SdCardTimeSource,
    PirSensorPin,
    RealTimeClock,
}

impl Capability {
    /// The name of the piece, as it shows in diagnostics.
    pub open spec fn spec_name(self) -> Seq<char> {
        match self {
            Capability::HttpServer => "HTTP server"@,
            Capability::StreamHttpServer => "Stream HTTP server"@,
            Capability::Camera => "Camera"@,
            Capability::WifiDriver => "WiFi driver"@,
            Capability::SdCardSpi => "SD Card SPI"@,
            Capability::SdCardCs => "SD Card CS"@,
            Capability::SdCardDelay => "SD Card delay"@,
            Capability::SdCardTimeSource => "SD Card time source"@,
            Capability::PirSensorPin => "PIR sensor pin"@,
            Capability::RealTimeClock => "Real time clock"@,
        }
    }

    /// The name of the piece.
    pub fn name(self) -> (r: &'static str)
        ensures
            r@ == self.spec_name(),
    {
        match self {
            Capability::HttpServer => "HTTP server",
            Capability::StreamHttpServer => "Stream HTTP server",
            Capability::Camera => "Camera",
            Capability::WifiDriver => "WiFi driver",
            Capability::SdCardSpi => "SD Card SPI",
            Capability::SdCardCs => "SD Card CS",
            Capability::SdCardDelay => "SD Card delay",
            Capability::SdCardTimeSource => "SD Card time source",
            Capability::PirSensorPin => "PIR sensor pin",
            Capability::RealTimeClock => "Real time clock",
        }
    }
}

/// What came of taking each needed piece once.
pub struct Claimed<P: Peripherals> {
    pub http_server: Option<P::ServerStarter>,
    pub stream_http_server: Option<P::StreamServerStarter>,
    pub camera: Option<P::Camera>,
    pub wifi_driver: Option<P::WifiDriver>,
    pub sd_card_spi: Option<P::SdCardSpi>,
    pub sd_card_cs: Option<P::SdCardCS>,
    pub sd_card_delay: Option<P::SdCardDelay>,
    pub sd_card_time_source: Option<P::SdCardTimeSource>,
    pub pir_sensor_pin: Option<P::PirSensorPin>,
    pub real_time_clock: Option<P::RealTimeClock>,
}

/// Every needed piece, each in hand.
pub struct Parts<P: Peripherals> {
    pub http_server: P::ServerStarter,
    pub stream_http_server: P::StreamServerStarter,
    pub camera: P::Camera,
    pub wifi_driver: P::WifiDriver,
    pub sd_card_spi: P::SdCardSpi,
    pub sd_card_cs: P::SdCardCS,
    pub sd_card_delay: P::SdCardDelay,
    pub sd_card_time_source: P::SdCardTimeSource,
    pub pir_sensor_pin: P::PirSensorPin,
    pub real_time_clock: P::RealTimeClock,
}

impl<P: Peripherals> Claimed<P> {
    /// Whether the given piece is in hand.
    pub open spec fn has(self, capability: Capability) -> bool {
        match capability {
            Capability::HttpServer => self.http_server.is_some(),
            Capability::StreamHttpServer => self.stream_http_server.is_some(),
            Capability::Camera => self.camera.is_some(),
            Capability::WifiDriver => self.wifi_driver.is_some(),
            Capability::SdCardSpi => self.sd_card_spi.is_some(),
            Capability::SdCardCs => self.sd_card_cs.is_some(),
            Capability::SdCardDelay => self.sd_card_delay.is_some(),
            Capability::SdCardTimeSource => self.sd_card_time_source.is_some(),
            Capability::PirSensorPin => self.pir_sensor_pin.is_some(),
            Capability::RealTimeClock => self.real_time_clock.is_some(),
        }
    }

    /// The first piece that is missing, in the order of [`Capability`], or
    /// nothing where all are in hand.
    pub open spec fn spec_first_missing(self) -> Option<Capability> {
        if !self.has(Capability::HttpServer) {
            Some(Capability::HttpServer)
        } else if !self.has(Capability::StreamHttpServer) {
            Some(Capability::StreamHttpServer)
        } else if !self.has(Capability::Camera) {
            Some(Capability::Camera)
        } else if !self.has(Capability::WifiDriver) {
            Some(Capability::WifiDriver)
        } else if !self.has(Capability::SdCardSpi) {
            Some(Capability::SdCardSpi)
        } else if !self.has(Capability::SdCardCs) {
            Some(Capability::SdCardCs)
        } else if !self.has(Capability::SdCardDelay) {
            Some(Capability::SdCardDelay)
        } else if !self.has(Capability::SdCardTimeSource) {
            Some(Capability::SdCardTimeSource)
        } else if !self.has(Capability::PirSensorPin) {
            Some(Capability::PirSensorPin)
        } else if !self.has(Capability::RealTimeClock) {
            Some(Capability::RealTimeClock)
        } else {
            None
        }
    }

    /// The pieces in hand, where none is missing.
    pub open spec fn spec_parts(self) -> Parts<P>
        recommends
            self.spec_first_missing().is_none(),
    {
        Parts {
            http_server: self.http_server.unwrap(),
            stream_http_server: self.stream_http_server.unwrap(),
            camera: self.camera.unwrap(),
            wifi_driver: self.wifi_driver.unwrap(),
            sd_card_spi: self.sd_card_spi.unwrap(),
            sd_card_cs: self.sd_card_cs.unwrap(),
            sd_card_delay: self.sd_card_delay.unwrap(),
            sd_card_time_source: self.sd_card_time_source.unwrap(),
            pir_sensor_pin: self.pir_sensor_pin.unwrap(),
            real_time_clock: self.real_time_clock.unwrap(),
        }
    }

    /// Takes each needed piece once. No piece is put to use.
    pub fn claim_all(peripherals: &mut P) -> (r: Self) {
        let http_server = peripherals.take_http_server();
        let stream_http_server = peripherals.take_stream_http_server();
        let camera = peripherals.take_camera();
        let wifi_driver = peripherals.take_wifi_driver();
        let sd_card_spi = peripherals.take_sd_card_spi();
        let sd_card_cs = peripherals.take_sd_card_cs();
        let sd_card_delay = peripherals.take_sd_card_delay();
        let sd_card_time_source = peripherals.take_sd_card_time_source();
        let pir_sensor_pin = peripherals.take_pir_sensor_pin();
        let real_time_clock = peripherals.take_real_time_clock();
        Claimed {
            http_server,
            stream_http_server,
            camera,
            wifi_driver,
            sd_card_spi,
            sd_card_cs,
            sd_card_delay,
            sd_card_time_source,
            pir_sensor_pin,
            real_time_clock,
        }
    }

    /// All the pieces, or the first one that is missing.
    pub fn require_all(self) -> (r: Result<Parts<P>, Capability>)
        ensures
            match self.spec_first_missing() {
                Some(capability) => r == Err::<Parts<P>, Capability>(capability),
                None => r == Ok::<Parts<P>, Capability>(self.spec_parts()),
            },
    {
        let http_server = match self.http_server {
            Some(piece) => piece,
            None => {
                return Err(Capability::HttpServer);
            },
        };
        let stream_http_server = match self.stream_http_server {
            Some(piece) => piece,
            None => {
                return Err(Capability::StreamHttpServer);
            },
        };
        let camera = match self.camera {
            Some(piece) => piece,
            None => {
                return Err(Capability::Camera);
            },
        };
        let wifi_driver = match self.wifi_driver {
            Some(piece) => piece,
            None => {
                return Err(Capability::WifiDriver);
            },
        };
        let sd_card_spi = match self.sd_card_spi {
            Some(piece) => piece,
            None => {
                return Err(Capability::SdCardSpi);
            },
        };
        let sd_card_cs = match self.sd_card_cs {
            Some(piece) => piece,
            None => {
                return Err(Capability::SdCardCs);
            },
        };
        let sd_card_delay = match self.sd_card_delay {
            Some(piece) => piece,
            None => {
                return Err(Capability::SdCardDelay);
            },
        };
        let sd_card_time_source = match self.sd_card_time_source {
            Some(piece) => piece,
            None => {
                return Err(Capability::SdCardTimeSource);
            },
        };
        let pir_sensor_pin = match self.pir_sensor_pin {
            Some(piece) => piece,
            None => {
                return Err(Capability::PirSensorPin);
            },
        };
        let real_time_clock = match self.real_time_clock {
            Some(piece) => piece,
            None => {
                return Err(Capability::RealTimeClock);
            },
        };
        Ok(
            Parts {
                http_server,
                stream_http_server,
                camera,
                wifi_driver,
                sd_card_spi,
                sd_card_cs,
                sd_card_delay,
                sd_card_time_source,
                pir_sensor_pin,
                real_time_clock,
            },
        )
    }
}

/// Withholding one piece is reported by its name: where exactly one piece
/// is missing, it is the one named; and nothing is reported exactly when
/// every piece is in hand.
pub proof fn lemma_withheld_piece_is_named<P: Peripherals>(claimed: Claimed<P>, withheld: Capability)
    requires
        forall|capability: Capability| claimed.has(capability) == (capability != withheld),
    ensures
        claimed.spec_first_missing() == Some(withheld),
{
    assert(!claimed.has(withheld));
    assert(claimed.has(Capability::HttpServer) == (Capability::HttpServer != withheld));
    assert(claimed.has(Capability::StreamHttpServer) == (Capability::StreamHttpServer
        != withheld));
    assert(claimed.has(Capability::Camera) == (Capability::Camera != withheld));
    assert(claimed.has(Capability::WifiDriver) == (Capability::WifiDriver != withheld));
    assert(claimed.has(Capability::SdCardSpi) == (Capability::SdCardSpi != withheld));
    assert(claimed.has(Capability::SdCardCs) == (Capability::SdCardCs != withheld));
    assert(claimed.has(Capability::SdCardDelay) == (Capability::SdCardDelay != withheld));
    assert(claimed.has(Capability::SdCardTimeSource) == (Capability::SdCardTimeSource
        != withheld));
    assert(claimed.has(Capability::PirSensorPin) == (Capability::PirSensorPin != withheld));
    assert(claimed.has(Capability::RealTimeClock) == (Capability::RealTimeClock != withheld));
}

/// Nothing is reported missing exactly when every piece is in hand, and a
/// piece that is reported is indeed missing.
pub proof fn lemma_first_missing_is_missing<P: Peripherals>(claimed: Claimed<P>)
    ensures
        claimed.spec_first_missing().is_none() <==> forall|capability: Capability|
            claimed.has(capability),
        claimed.spec_first_missing() matches Some(capability) ==> !claimed.has(capability),
{
    if claimed.spec_first_missing().is_none() {
        assert forall|capability: Capability| claimed.has(capability) by {
            match capability {
                Capability::HttpServer => {},
                Capability::StreamHttpServer => {},
                Capability::Camera => {},
                Capability::WifiDriver => {},
                Capability::SdCardSpi => {},
                Capability::SdCardCs => {},
                Capability::SdCardDelay => {},
                Capability::SdCardTimeSource => {},
                Capability::PirSensorPin => {},
                Capability::RealTimeClock => {},
            }
        }
    }
}

} // verus!
