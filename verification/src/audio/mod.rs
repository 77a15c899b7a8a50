//! Audio output: the virtual microphone device.
pub mod loudness;
pub mod playback;
pub mod virtual_device;

use vstd::prelude::*;
use crate::pactl::{CommandOutcome, PactlError, PactlStep};
use virtual_device::{CreateOp, DestroyOp, VirtualDevice};

verus! {

/// Owns the virtual microphone device.
pub struct AudioManager {
    pub virtual_device: VirtualDevice,
}

impl AudioManager {
    /// A manager for a device named `device_name`, with nothing loaded yet.
    pub fn new(device_name: &str) -> (m: Self)
        ensures
            m.virtual_device@.sink_name == device_name@,
            m.virtual_device@.sink_module is None,
            m.virtual_device@.source_module is None,
            m.virtual_device@.loopback_module is None,
            m.virtual_device@.ladspa_module is None,
    {
        AudioManager { virtual_device: VirtualDevice::new(device_name) }
    }

    /// Starts creating the device (see `VirtualDevice::create`).
    pub fn ensure_device(&self) -> (r: (CreateOp, PactlStep))
        ensures
            r.0.phase is CheckSink,
            crate::pactl::runs(r.1, virtual_device::list_sinks_args()),
    {
        self.virtual_device.create()
    }

    /// Whether the device's sink exists, from what `pactl list short sinks` came to.
    pub fn device_exists(&self, sinks: &CommandOutcome) -> (r: Result<bool, PactlError>)
        ensures
            match sinks {
                CommandOutcome::NotStarted => r is Err,
                CommandOutcome::Finished(o) => r == Ok::<bool, PactlError>(
                    crate::pactl::listing_has(o.stdout@, self.virtual_device@.sink_name),
                ),
            },
    {
        self.virtual_device.exists_in_listing(sinks)
    }

    /// Starts destroying the device (see `VirtualDevice::destroy`).
    pub fn destroy_device(&mut self) -> (r: (DestroyOp, PactlStep))
        ensures
            virtual_device::routes(
                old(self).virtual_device@,
                final(self).virtual_device@,
                virtual_device::RoutingChange::SetTo(None),
            ),
            virtual_device::destroy_begins(
                old(self).virtual_device@,
                final(self).virtual_device@,
                r.0.phase,
                r.1,
            ),
    {
        self.virtual_device.destroy()
    }
}

} // verus!
