//! What an embedder adds to its host: one plugin for the backend it selects.
use crate::error::ConfigError;
use crate::pixels_impl::PixelsConfig;
use crate::schedule::refusal;
use crate::schedule::registered;
use crate::schedule::MainOrder;
use crate::schedule::ScheduleError;
use crate::schedule::SchedulePlugin;
use crate::softbuffer_impl::SoftBufferConfig;
use vstd::prelude::*;

verus! {

/// The backends to select from.
#[derive(Clone, Copy, Debug, PartialEq, Eq, Structural)]
pub enum Backend {
    /// The pixel-array backend, on the `pixels` library.
    Pixels,
    /// The line-surface backend, on the `softbuffer` library.
    Softbuffer,
}

/// The backend of a composition in which `pixels` and `softbuffer` say
/// whether each was selected. Exactly one has to be.
pub fn select(pixels: bool, softbuffer: bool) -> (outcome: Result<Backend, ConfigError>)
    ensures
        outcome == (if pixels && softbuffer {
            Err::<Backend, ConfigError>(ConfigError::MultipleBackends)
        } else if pixels {
            Ok::<Backend, ConfigError>(Backend::Pixels)
        } else if softbuffer {
            Ok::<Backend, ConfigError>(Backend::Softbuffer)
        } else {
            Err::<Backend, ConfigError>(ConfigError::NoBackend)
        }),
{
    if pixels && softbuffer {
        Err(ConfigError::MultipleBackends)
    } else if pixels {
        Ok(Backend::Pixels)
    } else if softbuffer {
        Ok(Backend::Softbuffer)
    } else {
        Err(ConfigError::NoBackend)
    }
}

/// Plugin for the `pixels` library. Its startup leaves a `PixelsFrame` with
/// the host, bound to the thread that ran it.
pub struct PixelsPlugin {
    /// Configuration for the `pixels` library.
    pub config: PixelsConfig,
}

/// Plugin for the `softbuffer` library. Its startup leaves a
/// `SoftBufferFrame` with the host, bound to the thread that ran it.
pub struct SoftbufferPlugin {
    /// Configuration for the `softbuffer` library.
    pub config: SoftBufferConfig,
}

impl PixelsPlugin {
    /// Registers the surface and render phases in `order`, as
    /// `SchedulePlugin::build` does, and hands out a copy of the
    /// configuration for the startup operation, which runs once before the
    /// first frame. Where the phases are refused nothing is handed out.
    pub fn build(&self, order: &mut MainOrder) -> (outcome: Result<PixelsConfig, ScheduleError>)
        requires
            old(order).wf(),
        ensures
            final(order).wf(),
            refusal(old(order)@) matches Some(error) ==> outcome == Err::<
                PixelsConfig,
                ScheduleError,
            >(error) && final(order)@ == old(order)@,
            refusal(old(order)@) is None ==> outcome == Ok::<PixelsConfig, ScheduleError>(
                self.config,
            ) && final(order)@ == registered(old(order)@),
    {
        match SchedulePlugin.build(order) {
            Ok(()) => Ok(self.config.clone()),
            Err(error) => Err(error),
        }
    }
}

impl SoftbufferPlugin {
    /// Registers the surface and render phases in `order`, as
    /// `SchedulePlugin::build` does, and hands out a copy of the
    /// configuration for the startup operation, which runs once before the
    /// first frame. Where the phases are refused nothing is handed out.
    pub fn build(&self, order: &mut MainOrder) -> (outcome: Result<
        SoftBufferConfig,
        ScheduleError,
    >)
        requires
            old(order).wf(),
        ensures
            final(order).wf(),
            refusal(old(order)@) matches Some(error) ==> outcome == Err::<
                SoftBufferConfig,
                ScheduleError,
            >(error) && final(order)@ == old(order)@,
            refusal(old(order)@) is None ==> outcome == Ok::<SoftBufferConfig, ScheduleError>(
                self.config,
            ) && final(order)@ == registered(old(order)@),
    {
        match SchedulePlugin.build(order) {
            Ok(()) => Ok(self.config.clone()),
            Err(error) => Err(error),
        }
    }
}

} // verus!
