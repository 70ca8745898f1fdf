//! The device that framebuffers are created against: its per-axis
//! framebuffer limits and its allocation entry point.

use vstd::prelude::*;

verus! {

/// An allocation failure of the underlying device.
#[derive(Clone, Copy, Debug, PartialEq, Eq, Structural)]
pub enum OomError {
    /// No memory available on the host.
    OutOfHostMemory,
    /// No memory available on the device.
    OutOfDeviceMemory,
}

/// The device's per-axis framebuffer limits: no framebuffer may be requested
/// wider, taller or deeper than these.
#[derive(Clone, Copy, Debug, PartialEq, Eq, Structural)]
pub struct DeviceLimits {
    /// Largest framebuffer width the device supports, in pixels.
    pub max_framebuffer_width: u32,
    /// Largest framebuffer height the device supports, in pixels.
    pub max_framebuffer_height: u32,
    /// Largest framebuffer layer count the device supports.
    pub max_framebuffer_layers: u32,
}

/// What a framebuffer allocation hands to the device: the render pass's raw
/// handle, the raw image-view handles in attachment-index order, and the
/// requested extent.
pub struct FramebufferCreateInfo {
    /// Raw handle of the render pass the framebuffer is built against.
    pub render_pass: u64,
    /// Raw handles of the attached image views, in attachment-index order.
    pub attachments: Vec<u64>,
    /// Requested width in pixels.
    pub width: u32,
    /// Requested height in pixels.
    pub height: u32,
    /// Requested number of layers.
    pub layers: u32,
}

/// A device, reduced to what framebuffer construction reads of it: its raw
/// handle and its framebuffer limits. The driver behind it is outside this
/// model; see [`Device::create_framebuffer`].
#[derive(Clone, Copy, Debug, PartialEq, Eq, Structural)]
pub struct Device {
    /// Raw handle of the device.
    pub handle: u64,
    /// The device's framebuffer limits.
    pub limits: DeviceLimits,
}

impl Device {
    /// Returns a device with the given handle and limits.
    pub fn new(handle: u64, limits: DeviceLimits) -> (r: Device)
        ensures
            r == (Device { handle, limits }),
    {
        Device { handle, limits }
    }

    /// Returns the device's framebuffer limits.
    pub fn limits(&self) -> (r: DeviceLimits)
        ensures
            r == self.limits,
    {
        self.limits
    }

    /// Allocates a native framebuffer for the given creation data and
    /// returns its raw handle.
    ///
    /// This stands for the driver's allocation call, which is outside this
    /// model: the model device always succeeds, and the handle it returns is
    /// an opaque token whose value no contract constrains, as a driver's
    /// handle would be. `OomError` remains the shape in which a real
    /// driver's allocation failure would surface.
    pub fn create_framebuffer(&self, info: &FramebufferCreateInfo) -> (r: Result<u64, OomError>)
        ensures
            r is Ok,
    {
        Ok(self.handle)
    }
}

} // verus!
