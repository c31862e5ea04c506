//! The presentation surface: a compositor-facing layer and the single
//! in-flight drawable/color-target pair, with the per-frame handoff.
//!
//! The layer hands out drawables from a bounded pool of backing surfaces;
//! the surface holds exactly one live (drawable, color target) pair at a
//! time. Acquiring the next drawable retires the previous pair exactly once
//! and as part of the same transition, so a stale drawable is never
//! referenced again and no drawable is released twice.

use vstd::prelude::*;
use crate::format::NativeFormat;

verus! {

/// Errors of the presentation surface.
#[derive(Clone, Copy, PartialEq, Eq, Structural, Debug)]
pub enum Error {
    /// The presentation layer could not be attached to the window's view.
    SurfaceCreation,
    /// No presentable backing surface could be obtained for this frame.
    NoDrawable,
}

/// One presentable backing surface, valid for a single frame.
#[derive(Clone, Copy, PartialEq, Eq, Structural, Debug)]
pub struct Drawable {
    /// Identity of this backing surface. Each acquisition hands out a new
    /// identity; holding one beyond its frame is a lifetime violation.
    pub id: u64,
}

/// The texture backing a drawable; rendering commands write into it.
#[derive(Clone, Copy, PartialEq, Eq, Structural, Debug)]
pub struct ColorTarget {
    /// Identity of the drawable whose image this target exposes. The target
    /// lives exactly as long as that drawable.
    pub drawable_id: u64,
}

/// The current (drawable, color target) pair of a surface.
#[derive(Clone, Copy, PartialEq, Eq, Structural, Debug)]
pub struct FramePair {
    /// The drawable the next present will hand to the compositor.
    pub drawable: Drawable,
    /// The texture backing that drawable.
    pub target: ColorTarget,
}

/// The compositor-facing layer: pixel format, drawable size, the associated
/// device, and a bounded pool of free backing surfaces.
pub struct PresentationLayer {
    pixel_format: NativeFormat,
    drawable_width: u32,
    drawable_height: u32,
    presents_with_transaction: bool,
    device: Option<u64>,
    attached_view: Option<u64>,
    free_drawables: usize,
    next_drawable_id: u64,
}

impl PresentationLayer {
    /// The native format the layer presents in.
    pub closed spec fn pixel_format(self) -> NativeFormat {
        self.pixel_format
    }

    /// The drawable size in device pixels.
    pub closed spec fn size(self) -> (u32, u32) {
        (self.drawable_width, self.drawable_height)
    }

    /// Whether presentation is tied to a compositor transaction. Always
    /// false here: presentation is driven by the application.
    pub closed spec fn synchronous(self) -> bool {
        self.presents_with_transaction
    }

    /// The GPU device the layer renders with, once one is associated.
    pub closed spec fn device(self) -> Option<u64> {
        self.device
    }

    /// The native view this layer backs, once attached.
    pub closed spec fn attached_view(self) -> Option<u64> {
        self.attached_view
    }

    /// How many backing surfaces are free in the layer's pool.
    pub closed spec fn free_slots(self) -> nat {
        self.free_drawables as nat
    }

    /// How many drawables the layer has handed out so far.
    pub closed spec fn vended(self) -> nat {
        self.next_drawable_id as nat
    }

    /// The layer's configuration — everything except the drawable pool —
    /// is the same in `pre` and `post`.
    pub open spec fn same_config(pre: PresentationLayer, post: PresentationLayer) -> bool {
        &&& post.pixel_format() == pre.pixel_format()
        &&& post.size() == pre.size()
        &&& post.synchronous() == pre.synchronous()
        &&& post.device() == pre.device()
        &&& post.attached_view() == pre.attached_view()
    }

    /// Creates a layer with the given format and drawable size, presenting
    /// asynchronously, with `pool_size` free backing surfaces and no device
    /// or view attached yet.
    pub fn new(pixel_format: NativeFormat, width: u32, height: u32, pool_size: usize)
        -> (layer: PresentationLayer)
        ensures
            layer.pixel_format() == pixel_format,
            layer.size() == (width, height),
            !layer.synchronous(),
            layer.device() is None,
            layer.attached_view() is None,
            layer.free_slots() == pool_size,
            layer.vended() == 0,
    {
        PresentationLayer {
            pixel_format,
            drawable_width: width,
            drawable_height: height,
            presents_with_transaction: false,
            device: None,
            attached_view: None,
            free_drawables: pool_size,
            next_drawable_id: 0,
        }
    }

    /// The drawable size in device pixels.
    pub fn drawable_size(&self) -> (r: (u32, u32))
        ensures
            r == self.size(),
    {
        (self.drawable_width, self.drawable_height)
    }

    /// Makes the given native view layer-backed by this layer.
    pub(crate) fn attach(&mut self, view: u64)
        ensures
            final(self).attached_view() == Some(view),
            final(self).pixel_format() == old(self).pixel_format(),
            final(self).size() == old(self).size(),
            final(self).synchronous() == old(self).synchronous(),
            final(self).device() == old(self).device(),
            final(self).free_slots() == old(self).free_slots(),
            final(self).vended() == old(self).vended(),
    {
        self.attached_view = Some(view);
    }

    /// Associates the GPU device the layer renders with.
    pub(crate) fn set_device(&mut self, device: u64)
        ensures
            final(self).device() == Some(device),
            final(self).pixel_format() == old(self).pixel_format(),
            final(self).size() == old(self).size(),
            final(self).synchronous() == old(self).synchronous(),
            final(self).attached_view() == old(self).attached_view(),
            final(self).free_slots() == old(self).free_slots(),
            final(self).vended() == old(self).vended(),
    {
        self.device = Some(device);
    }

    /// Hands out the next presentable backing surface, if one is free and
    /// the layer has a nonzero size. Each drawable handed out has a fresh
    /// identity.
    pub(crate) fn next_drawable(&mut self) -> (r: Option<Drawable>)
        requires
            old(self).vended() < u64::MAX,
        ensures
            Self::same_config(*old(self), *final(self)),
            (r is Some <==> (old(self).free_slots() > 0 && old(self).size().0 > 0
                && old(self).size().1 > 0)),
            r is None ==> *final(self) == *old(self),
            (r matches Some(d) ==> {
                &&& d.id == old(self).vended()
                &&& final(self).vended() == old(self).vended() + 1
                &&& final(self).free_slots() + 1 == old(self).free_slots()
            }),
    {
        if self.free_drawables == 0 || self.drawable_width == 0 || self.drawable_height == 0 {
            None
        } else {
            let d = Drawable { id: self.next_drawable_id };
            self.next_drawable_id = self.next_drawable_id + 1;
            self.free_drawables = self.free_drawables - 1;
            Some(d)
        }
    }

    /// A spent backing surface returns to the free pool.
    pub(crate) fn reclaim_slot(&mut self)
        requires
            old(self).free_slots() < usize::MAX,
        ensures
            Self::same_config(*old(self), *final(self)),
            final(self).free_slots() == old(self).free_slots() + 1,
            final(self).vended() == old(self).vended(),
    {
        self.free_drawables = self.free_drawables + 1;
    }
}

/// Owns the presentation layer and the single in-flight (drawable, color
/// target) pair, and mediates the frame-to-frame handoff.
pub struct PresentationSurface {
    layer: PresentationLayer,
    current: Option<FramePair>,
    history: Ghost<Seq<u64>>,
}

impl PresentationSurface {
    /// The surface's layer state.
    pub closed spec fn spec_layer(self) -> PresentationLayer {
        self.layer
    }

    /// The current (drawable, color target) pair; `None` before the first
    /// acquisition.
    pub closed spec fn current_pair(self) -> Option<FramePair> {
        self.current
    }

    /// The identities of every drawable acquired so far, oldest first.
    pub closed spec fn acquired_ids(self) -> Seq<u64> {
        self.history@
    }

    /// The identities of the drawables that have been released: every
    /// acquired drawable except the one currently held.
    pub open spec fn released_ids(self) -> Seq<u64> {
        if self.current_pair() is Some {
            self.acquired_ids().drop_last()
        } else {
            self.acquired_ids()
        }
    }

    /// The drawable size of the layer, in device pixels.
    pub open spec fn size(self) -> (u32, u32) {
        self.spec_layer().size()
    }

    /// The native format the layer presents in.
    pub open spec fn pixel_format(self) -> NativeFormat {
        self.spec_layer().pixel_format()
    }

    /// The view the layer is attached to.
    pub open spec fn attached_view(self) -> Option<u64> {
        self.spec_layer().attached_view()
    }

    /// The device the layer renders with.
    pub open spec fn device(self) -> Option<u64> {
        self.spec_layer().device()
    }

    /// How many backing surfaces are free in the layer's pool.
    pub open spec fn free_slots(self) -> nat {
        self.spec_layer().free_slots()
    }

    /// Well-formedness: the surface holds exactly the most recently acquired
    /// pair (or none before the first acquisition), the pair's target backs
    /// its drawable, and drawable identities are handed out in order, so no
    /// two acquisitions share one.
    pub open spec fn wf(self) -> bool {
        &&& (match self.current_pair() {
            Some(p) => {
                &&& self.acquired_ids().len() > 0
                &&& p.drawable.id == self.acquired_ids().last()
                &&& p.target.drawable_id == p.drawable.id
            },
            None => self.acquired_ids().len() == 0,
        })
        &&& self.acquired_ids().len() == self.spec_layer().vended()
        &&& (forall|i: int|
            0 <= i < self.acquired_ids().len() ==> self.acquired_ids()[i] as int == i)
    }
}

/// How one `acquire_next` call relates the surface after the call (`post`)
/// to the surface before it (`pre`), given its result `r`: the layer's
/// configuration is untouched; the call succeeds exactly when a backing
/// surface is free and the layer has a nonzero size; on success the new pair
/// holds a never-seen drawable and every earlier acquisition — including the
/// previously current pair — is released; on failure nothing changes.
pub open spec fn acquire_transition(
    pre: PresentationSurface,
    post: PresentationSurface,
    r: Result<(), Error>,
) -> bool {
    &&& PresentationLayer::same_config(pre.spec_layer(), post.spec_layer())
    &&& (r is Ok <==> (pre.free_slots() > 0 && pre.size().0 > 0 && pre.size().1 > 0))
    &&& (r matches Err(e) ==> e == Error::NoDrawable && post == pre)
    &&& (r is Ok ==> {
        &&& (post.current_pair() matches Some(p) && ({
            &&& p.target.drawable_id == p.drawable.id
            &&& post.acquired_ids() == pre.acquired_ids().push(p.drawable.id)
            &&& !pre.acquired_ids().contains(p.drawable.id)
            &&& (pre.current_pair() matches Some(q) ==> q.drawable.id != p.drawable.id)
        }))
        &&& post.released_ids() == pre.acquired_ids()
        &&& (pre.current_pair() is Some ==> post.free_slots() == pre.free_slots())
        &&& (pre.current_pair() is None ==> post.free_slots() + 1 == pre.free_slots())
    })
}

impl PresentationSurface {
    /// Requests the next presentable surface from the layer and swaps it
    /// into the current slot. The previously current drawable, if any, is
    /// released as part of the same transition — never before, and never
    /// twice. Fails with `Error::NoDrawable`, leaving the surface unchanged,
    /// exactly when the pool is exhausted or the layer has zero size; that
    /// failure is retryable.
    pub fn acquire_next(&mut self) -> (r: Result<(), Error>)
        requires
            old(self).wf(),
            old(self).acquired_ids().len() < u64::MAX,
        ensures
            final(self).wf(),
            acquire_transition(*old(self), *final(self), r),
    {
        match self.layer.next_drawable() {
            None => Err(Error::NoDrawable),
            Some(d) => {
                proof {
                    assert forall|k: int| 0 <= k < old(self).acquired_ids().len()
                        implies old(self).acquired_ids()[k] != d.id by {
                        assert(old(self).acquired_ids()[k] as int == k);
                    }
                    assert(!old(self).acquired_ids().contains(d.id));
                }
                // The previous occupant's backing surface goes back to the
                // pool; the new pair then takes the slot.
                match self.current {
                    Some(_) => self.layer.reclaim_slot(),
                    None => (),
                }
                let target = ColorTarget { drawable_id: d.id };
                self.current = Some(FramePair { drawable: d, target });
                proof {
                    self.history@ = self.history@.push(d.id);
                    assert(self.acquired_ids().drop_last() =~= old(self).acquired_ids());
                }
                Ok(())
            },
        }
    }

    /// The color target of the presently held drawable. Callers must have
    /// acquired at least once.
    pub fn current_color_target(&self) -> (r: ColorTarget)
        requires
            self.current_pair() is Some,
        ensures
            self.current_pair() matches Some(p) && r == p.target,
    {
        match &self.current {
            Some(pair) => pair.target,
            None => unreached(),
        }
    }

    /// How many backing surfaces are free in the layer's pool.
    pub fn free_slot_count(&self) -> (r: usize)
        ensures
            r == self.free_slots(),
    {
        self.layer.free_drawables
    }

    /// The drawable size of the layer, in device pixels.
    pub fn drawable_size(&self) -> (r: (u32, u32))
        ensures
            r == self.size(),
    {
        self.layer.drawable_size()
    }

    /// The display pipeline returns a spent backing surface to the layer's
    /// pool: one more drawable becomes free. The surface's pair and history
    /// are untouched.
    pub fn recycle_drawable(&mut self)
        requires
            old(self).wf(),
            old(self).free_slots() < usize::MAX,
        ensures
            final(self).wf(),
            PresentationLayer::same_config(old(self).spec_layer(), final(self).spec_layer()),
            final(self).current_pair() == old(self).current_pair(),
            final(self).acquired_ids() == old(self).acquired_ids(),
            final(self).free_slots() == old(self).free_slots() + 1,
    {
        self.layer.reclaim_slot();
    }

    /// Creates a surface: a fresh layer with the given format and size and
    /// `pool_size` backing surfaces, attached to the window's native view
    /// and associated with `device`, with one initial acquisition performed
    /// so a valid color target exists before the first frame. Fails with
    /// `Error::SurfaceCreation`, creating nothing, when the window has no
    /// attachable native view, and with `Error::NoDrawable` when the
    /// requested size or the pool is empty.
    pub fn create_configured(
        view: Option<u64>,
        width: u32,
        height: u32,
        device: u64,
        pixel_format: NativeFormat,
        pool_size: usize,
    ) -> (r: Result<PresentationSurface, Error>)
        ensures
            (r is Ok <==> (view is Some && width > 0 && height > 0 && pool_size > 0)),
            view is None ==> (r matches Err(e) && e == Error::SurfaceCreation),
            (view is Some && !(width > 0 && height > 0 && pool_size > 0)) ==> (r matches Err(e)
                && e == Error::NoDrawable),
            (r matches Ok(s) ==> {
                &&& s.wf()
                &&& s.pixel_format() == pixel_format
                &&& s.size() == (width, height)
                &&& !s.spec_layer().synchronous()
                &&& s.attached_view() == view
                &&& s.device() == Some(device)
                &&& s.acquired_ids().len() == 1
                &&& s.current_pair() is Some
                &&& s.free_slots() + 1 == pool_size
            }),
    {
        let v = match view {
            None => {
                return Err(Error::SurfaceCreation);
            },
            Some(v) => v,
        };
        let mut layer = PresentationLayer::new(pixel_format, width, height, pool_size);
        layer.attach(v);
        layer.set_device(device);
        let mut surface = PresentationSurface { layer, current: None, history: Ghost(Seq::empty()) };
        match surface.acquire_next() {
            Ok(()) => Ok(surface),
            Err(e) => Err(e),
        }
    }

    /// Creates a surface per `create_configured` with the fixed presentation
    /// format and the default pool of backing surfaces.
    pub fn create(view: Option<u64>, width: u32, height: u32, device: u64)
        -> (r: Result<PresentationSurface, Error>)
        ensures
            (r is Ok <==> (view is Some && width > 0 && height > 0)),
            view is None ==> (r matches Err(e) && e == Error::SurfaceCreation),
            (view is Some && !(width > 0 && height > 0)) ==> (r matches Err(e)
                && e == Error::NoDrawable),
            (r matches Ok(s) ==> {
                &&& s.wf()
                &&& s.pixel_format() == FIXED_PIXEL_FORMAT
                &&& s.size() == (width, height)
                &&& !s.spec_layer().synchronous()
                &&& s.attached_view() == view
                &&& s.device() == Some(device)
                &&& s.acquired_ids().len() == 1
                &&& s.current_pair() is Some
                &&& s.free_slots() + 1 == DEFAULT_DRAWABLE_POOL
            }),
    {
        Self::create_configured(view, width, height, device, FIXED_PIXEL_FORMAT, DEFAULT_DRAWABLE_POOL)
    }
}

/// The fixed native format the presentation layer is configured with.
pub const FIXED_PIXEL_FORMAT: NativeFormat = NativeFormat::Bgra8Unorm;

/// How many backing surfaces the layer's pool holds by default.
pub const DEFAULT_DRAWABLE_POOL: usize = 3;

/// After any sequence of acquisitions, a well-formed surface references
/// exactly one live pair — the most recently acquired one — and that pair's
/// drawable is not among the released ones; before the first acquisition it
/// references none.
pub proof fn lemma_single_current_pair(s: PresentationSurface)
    requires
        s.wf(),
    ensures
        (s.current_pair() matches Some(p) ==> p.drawable.id == s.acquired_ids().last()
            && !s.released_ids().contains(p.drawable.id)),
        s.current_pair() is None ==> s.acquired_ids().len() == 0,
{
    if let Some(p) = s.current_pair() {
        let ids = s.acquired_ids();
        assert forall|k: int| 0 <= k < s.released_ids().len()
            implies s.released_ids()[k] != p.drawable.id by {
            assert(s.released_ids()[k] == ids[k]);
            assert(ids[k] as int == k);
            assert(ids[ids.len() - 1] as int == ids.len() - 1);
        }
    }
}

/// The color target a well-formed surface hands out backs a drawable that
/// has not been released: retirement happens only as part of the transition
/// that replaces the pair, never before it.
pub proof fn lemma_no_premature_release(s: PresentationSurface)
    requires
        s.wf(),
        s.current_pair() is Some,
    ensures
        (s.current_pair() matches Some(p) ==> !s.released_ids().contains(p.target.drawable_id)),
{
    lemma_single_current_pair(s);
}

/// Acquisitions replace monotonically: the drawable identities a well-formed
/// surface has acquired are pairwise distinct, so no drawable is ever handed
/// out twice.
pub proof fn lemma_distinct_acquisitions(s: PresentationSurface)
    requires
        s.wf(),
    ensures
        forall|i: int, j: int|
            0 <= i < j < s.acquired_ids().len() ==> s.acquired_ids()[i] != s.acquired_ids()[j],
{
    assert forall|i: int, j: int| 0 <= i < j < s.acquired_ids().len()
        implies s.acquired_ids()[i] != s.acquired_ids()[j] by {
        assert(s.acquired_ids()[i] as int == i);
        assert(s.acquired_ids()[j] as int == j);
    }
}

} // verus!
