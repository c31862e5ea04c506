//! The surface-bearing window: composes a window handle with its
//! presentation surface, and the initialization that binds the two to a
//! graphics device.
//!
//! Creating the native window and the graphics device belongs to the window
//! system and the device library; initialization here takes their reported
//! outcomes as plain values and is verified for every value of them: it
//! fails closed on a missing window, an unmappable format or a missing
//! driver, and otherwise builds the attached surface with its first
//! acquisition already performed.

use vstd::prelude::*;
use crate::format::{Format, NativeFormat, map_format, spec_map_format};
use crate::surface::{
    acquire_transition, ColorTarget, Error, PresentationSurface, DEFAULT_DRAWABLE_POOL,
};

verus! {

/// A native window as the window system reports it: its handle, its inner
/// size in device pixels, and its content view, if it has one.
#[derive(Clone, Copy, PartialEq, Eq, Debug)]
pub struct Window {
    /// The native window handle.
    pub id: u64,
    /// Inner width in device pixels.
    pub width: u32,
    /// Inner height in device pixels.
    pub height: u32,
    /// The native content view backing the window, if any.
    pub view: Option<u64>,
}

/// A graphics device as the device library reports it.
#[derive(Clone, Copy, PartialEq, Eq, Debug)]
pub struct Device {
    /// Handle to the underlying GPU device object; the presentation layer
    /// is associated with it.
    pub device: u64,
}

/// A resource allocator as the device library reports it.
#[derive(Clone, Copy, PartialEq, Eq, Debug)]
pub struct Factory {
    /// Handle to the allocator.
    pub id: u64,
}

/// The outcome the device library reports for device creation.
#[derive(Clone, Copy, PartialEq, Eq, Debug)]
pub enum DeviceCreation {
    /// A device and its resource allocator were created.
    Created(Device, Factory),
    /// No compatible device or driver type exists on this host.
    NoSupportedDriver,
}

/// Initialization errors.
#[derive(Clone, Copy, Debug)]
pub enum InitError {
    /// Unable to create a window.
    Window,
    /// Unable to map the requested format to a native one.
    Format(Format),
    /// Unable to find a supported driver type.
    DriverType,
}

/// A typed handle to a color target: the raw target together with the
/// requested format it is viewed as.
#[derive(Clone, Copy, PartialEq, Eq, Debug)]
pub struct ColorTargetHandle {
    /// The raw color target.
    pub target: ColorTarget,
    /// The requested format the target is viewed as.
    pub format: Format,
}

/// A window composed with its presentation surface. Adds no state beyond
/// the surface; window queries go through `window()`.
pub struct MetalWindow {
    window: Window,
    surface: PresentationSurface,
}

impl MetalWindow {
    /// The underlying native window.
    pub closed spec fn spec_window(self) -> Window {
        self.window
    }

    /// The owned presentation surface.
    pub closed spec fn spec_surface(self) -> PresentationSurface {
        self.surface
    }

    /// Well-formedness: the surface is well formed, its layer backs this
    /// window's content view, and at least one acquisition has happened, so
    /// a color target exists.
    pub open spec fn wf(self) -> bool {
        &&& self.spec_surface().wf()
        &&& self.spec_surface().attached_view() == self.spec_window().view
        &&& self.spec_window().view is Some
        &&& self.spec_surface().current_pair() is Some
    }

    /// The underlying native window, for window-level queries.
    pub fn window(&self) -> (r: &Window)
        ensures
            r == self.spec_window(),
    {
        &self.window
    }

    /// Retires the current drawable and acquires a fresh one for the next
    /// frame, per the surface's `acquire_next`. Fails with
    /// `Error::NoDrawable`, leaving everything unchanged, exactly when the
    /// layer's pool is exhausted; retryable on the next frame.
    pub fn swap_buffers(&mut self) -> (r: Result<(), Error>)
        requires
            old(self).wf(),
            old(self).spec_surface().acquired_ids().len() < u64::MAX,
        ensures
            final(self).wf(),
            final(self).spec_window() == old(self).spec_window(),
            acquire_transition(old(self).spec_surface(), final(self).spec_surface(), r),
    {
        self.surface.acquire_next()
    }

    /// The color target of the presently held drawable; the rendering
    /// backend must re-fetch it after each `swap_buffers`, since the
    /// underlying image changes identity every frame.
    pub fn current_color_target(&self) -> (r: ColorTarget)
        requires
            self.wf(),
        ensures
            self.spec_surface().current_pair() matches Some(p) && r == p.target,
    {
        self.surface.current_color_target()
    }

    /// How many backing surfaces are free in the surface's pool.
    pub fn free_slot_count(&self) -> (r: usize)
        ensures
            r == self.spec_surface().free_slots(),
    {
        self.surface.free_slot_count()
    }

    /// The display pipeline returns a spent backing surface to the layer's
    /// pool.
    pub fn recycle_drawable(&mut self)
        requires
            old(self).wf(),
            old(self).spec_surface().free_slots() < usize::MAX,
        ensures
            final(self).wf(),
            final(self).spec_window() == old(self).spec_window(),
            final(self).spec_surface().current_pair() == old(self).spec_surface().current_pair(),
            final(self).spec_surface().acquired_ids() == old(self).spec_surface().acquired_ids(),
            final(self).spec_surface().free_slots() == old(self).spec_surface().free_slots() + 1,
    {
        self.surface.recycle_drawable()
    }
}

/// Exactly when initialization fails: there is no window, the requested
/// format has no native equivalent, or no driver is supported.
pub open spec fn init_fails(window: Option<Window>, color_format: Format, device: DeviceCreation)
    -> bool {
    ||| window is None
    ||| spec_map_format(color_format) is None
    ||| device is NoSupportedDriver
}

/// What a successful initialization hands back, given the window `w`, the
/// created device `dev` and factory `fac`, and the requested format: a well
/// formed composed window whose layer shows the mapped format, the window's
/// inner size and the device, with the first acquisition performed, plus
/// the device, the factory and the initial raw color target.
pub open spec fn init_ok(
    w: Window,
    color_format: Format,
    dev: Device,
    fac: Factory,
    t: (MetalWindow, Device, Factory, ColorTarget),
) -> bool {
    &&& t.0.wf()
    &&& t.0.spec_window() == w
    &&& t.1 == dev
    &&& t.2 == fac
    &&& (spec_map_format(color_format) matches Some(nf) ==> t.0.spec_surface().pixel_format()
        == nf)
    &&& t.0.spec_surface().size() == (w.width, w.height)
    &&& t.0.spec_surface().device() == Some(dev.device)
    &&& t.0.spec_surface().acquired_ids().len() == 1
    &&& (t.0.spec_surface().current_pair() matches Some(p) && t.3 == p.target)
}

/// Binds a freshly created window and device together: checks that the
/// requested format has a native equivalent, builds the presentation
/// surface attached to the window's view, and returns the composed window,
/// the device, the factory and the initial raw color target. Fails closed:
/// `InitError::Window` when there is no window, `InitError::Format` with
/// the requested format when it cannot be mapped, `InitError::DriverType`
/// when no driver is supported — and then no surface is built at all.
pub fn init_raw(window: Option<Window>, color_format: Format, device: DeviceCreation)
    -> (r: Result<(MetalWindow, Device, Factory, ColorTarget), InitError>)
    requires
        (window matches Some(w) ==> w.view is Some && w.width > 0 && w.height > 0),
    ensures
        r is Err <==> init_fails(window, color_format, device),
        window is None ==> (r matches Err(e) && e is Window),
        (window is Some && spec_map_format(color_format) is None) ==> (r matches Err(e)
            && e matches InitError::Format(f) && f == color_format),
        (window is Some && spec_map_format(color_format) is Some
            && device is NoSupportedDriver) ==> (r matches Err(e) && e is DriverType),
        window matches Some(w) ==> device matches DeviceCreation::Created(dev, fac)
            ==> r matches Ok(t) ==> init_ok(w, color_format, dev, fac, t),
{
    let w = match window {
        None => {
            return Err(InitError::Window);
        },
        Some(w) => w,
    };
    let native_format = match map_format(color_format) {
        None => {
            return Err(InitError::Format(color_format));
        },
        Some(nf) => nf,
    };
    let (dev, fac) = match device {
        DeviceCreation::NoSupportedDriver => {
            return Err(InitError::DriverType);
        },
        DeviceCreation::Created(dev, fac) => (dev, fac),
    };
    let surface = match PresentationSurface::create_configured(
        w.view,
        w.width,
        w.height,
        dev.device,
        native_format,
        DEFAULT_DRAWABLE_POOL,
    ) {
        Ok(s) => s,
        Err(_) => {
            // Unreachable: the window has a view and a nonzero size, and
            // the default pool is not empty.
            return Err(InitError::Window);
        },
    };
    let target = surface.current_color_target();
    Ok((MetalWindow { window: w, surface }, dev, fac, target))
}

/// Initializes per `init_raw` and types the returned color target with the
/// requested format.
pub fn init(window: Option<Window>, color_format: Format, device: DeviceCreation)
    -> (r: Result<(MetalWindow, Device, Factory, ColorTargetHandle), InitError>)
    requires
        (window matches Some(w) ==> w.view is Some && w.width > 0 && w.height > 0),
    ensures
        r is Err <==> init_fails(window, color_format, device),
        window is None ==> (r matches Err(e) && e is Window),
        (window is Some && spec_map_format(color_format) is None) ==> (r matches Err(e)
            && e matches InitError::Format(f) && f == color_format),
        (window is Some && spec_map_format(color_format) is Some
            && device is NoSupportedDriver) ==> (r matches Err(e) && e is DriverType),
        window matches Some(w) ==> device matches DeviceCreation::Created(dev, fac)
            ==> r matches Ok(t) ==> ({
            &&& init_ok(w, color_format, dev, fac, (t.0, t.1, t.2, t.3.target))
            &&& t.3.format == color_format
        }),
{
    match init_raw(window, color_format, device) {
        Ok((mw, dev, fac, target)) => Ok(
            (mw, dev, fac, ColorTargetHandle { target, format: color_format }),
        ),
        Err(e) => Err(e),
    }
}

} // verus!
