//! What can go wrong when a controller is put together, and in a tick.

use crate::configuration::peripherals::camera::Camera;
use crate::configuration::peripherals::MotionPin;
use crate::configuration::peripherals::Peripherals;
use crate::configuration::peripherals::Watchdog;
use crate::configuration::peripherals::WatchdogCreator;
use crate::configuration::Configuration;
use crate::features::http_server::HttpServer;
use crate::features::http_server::RegisterError;
use crate::features::storage::VolumeManager;
use vstd::prelude::*;

verus! {

/// An error that can occur when a controller is put together.
pub enum CreationError<C: Configuration> {
    /// A piece of hardware is missing: taking it gave nothing. `name` is
    /// the name of the piece.
    PeripheralMissing { name: &'static str },
    /// The main server did not start.
    StartHttpServer(<C::Peripherals as Peripherals>::ServerError),
    /// The stream server did not start.
    StartStreamHttpServer(<C::Peripherals as Peripherals>::ServerError),
    /// A server refused the handler of a request.
    RegisterURIHandlerHttpServer(
        RegisterError<
            <<C::Peripherals as Peripherals>::Server as HttpServer>::Error,
            <<C::Peripherals as Peripherals>::StreamServer as HttpServer>::Error,
        >,
    ),
    /// The volume of the card, or its root directory, did not open.
    SdCard(<<C::Peripherals as Peripherals>::VolumeManager as VolumeManager>::Error),
}

impl<C: Configuration> CreationError<C> {
    /// What starting the main server comes to: the server, or the failure
    /// as that of the main server.
    pub fn main_server_started<S>(
        started: Result<S, <C::Peripherals as Peripherals>::ServerError>,
    ) -> (r: Result<S, Self>)
        ensures
            match started {
                Ok(server) => r matches Ok(given) && given == server,
                Err(error) => r matches Err(CreationError::StartHttpServer(given)) && given
                    == error,
            },
    {
        match started {
            Ok(server) => Ok(server),
            Err(error) => Err(CreationError::StartHttpServer(error)),
        }
    }

    /// What starting the stream server comes to: the server, or the
    /// failure as that of the stream server.
    pub fn stream_server_started<S>(
        started: Result<S, <C::Peripherals as Peripherals>::ServerError>,
    ) -> (r: Result<S, Self>)
        ensures
            match started {
                Ok(server) => r matches Ok(given) && given == server,
                Err(error) => r matches Err(CreationError::StartStreamHttpServer(given)) && given
                    == error,
            },
    {
        match started {
            Ok(server) => Ok(server),
            Err(error) => Err(CreationError::StartStreamHttpServer(error)),
        }
    }

    /// What registering the handlers comes to: success, or the refusal as
    /// one of registering.
    pub fn handlers_registered(
        registered: Result<
            (),
            RegisterError<
                <<C::Peripherals as Peripherals>::Server as HttpServer>::Error,
                <<C::Peripherals as Peripherals>::StreamServer as HttpServer>::Error,
            >,
        >,
    ) -> (r: Result<(), Self>)
        ensures
            match registered {
                Ok(()) => r is Ok,
                Err(error) => r matches Err(CreationError::RegisterURIHandlerHttpServer(given))
                    && given == error,
            },
    {
        match registered {
            Ok(()) => Ok(()),
            Err(error) => Err(CreationError::RegisterURIHandlerHttpServer(error)),
        }
    }

    /// What opening the storage comes to: the storage, or the failure as
    /// that of the card.
    pub fn storage_opened<S>(
        opened: Result<S, <<C::Peripherals as Peripherals>::VolumeManager as VolumeManager>::Error>,
    ) -> (r: Result<S, Self>)
        ensures
            match opened {
                Ok(storage) => r matches Ok(given) && given == storage,
                Err(error) => r matches Err(CreationError::SdCard(given)) && given == error,
            },
    {
        match opened {
            Ok(storage) => Ok(storage),
            Err(error) => Err(CreationError::SdCard(error)),
        }
    }

    /// The kind of the error, in words.
    pub fn describe(&self) -> (r: &'static str)
        ensures
            r@ == match self {
                CreationError::PeripheralMissing { .. } => "PeripheralMissing"@,
                CreationError::StartHttpServer(_) => "Start HTTP server"@,
                CreationError::StartStreamHttpServer(_) => "Start stream HTTP server"@,
                CreationError::RegisterURIHandlerHttpServer(_) => "Register URI handler HTTP server"@,
                CreationError::SdCard(_) => "SD Card"@,
            },
    {
        match self {
            CreationError::PeripheralMissing { .. } => "PeripheralMissing",
            CreationError::StartHttpServer(_) => "Start HTTP server",
            CreationError::StartStreamHttpServer(_) => "Start stream HTTP server",
            CreationError::RegisterURIHandlerHttpServer(_) => "Register URI handler HTTP server",
            CreationError::SdCard(_) => "SD Card",
        }
    }
}

/// An error that can occur in a tick.
pub enum TickError<C: Configuration> {
    /// The camera gave no image. The next tick may do better.
    Camera(<<C::Peripherals as Peripherals>::Camera as Camera>::Error),
    /// The pin of the motion sensor could not be read.
    CouldntReadPirSensorPin(<<C::Peripherals as Peripherals>::PirSensorPin as MotionPin>::Error),
    /// The watchdog could not be fed.
    WatchdogReset(
        <<<C::Peripherals as Peripherals>::WatchdogCreator as WatchdogCreator>::Watchdog as Watchdog>::Error,
    ),
}

impl<C: Configuration> TickError<C> {
    /// The kind of the error, in words.
    pub fn describe(&self) -> (r: &'static str)
        ensures
            r@ == match self {
                TickError::Camera(_) => "Camera"@,
                TickError::CouldntReadPirSensorPin(_) => "CouldntReadPirSensorPin"@,
                TickError::WatchdogReset(_) => "WatchdogReset"@,
            },
    {
        match self {
            TickError::Camera(_) => "Camera",
            TickError::CouldntReadPirSensorPin(_) => "CouldntReadPirSensorPin",
            TickError::WatchdogReset(_) => "WatchdogReset",
        }
    }

    /// Whether the control loop may go on after the error: only where the
    /// camera gave no image.
    pub fn is_tolerable(&self) -> (r: bool)
        ensures
            r == (self is Camera),
    {
        match self {
            TickError::Camera(_) => true,
            _ => false,
        }
    }
}

} // verus!
