//! The per-output surface lifecycle and the draw pipeline.
//!
//! Every output gets one surface. A surface starts unconfigured; the
//! compositor's configure event, once acknowledged, gives it its size.
//! Drawing allocates a fresh frame for the surface's area, fills it, and
//! records it as that output's published frame; each output's pipeline is
//! independent, so a failed draw leaves every frame exactly as it was.

use vstd::prelude::*;

use crate::pixel::{
    allocate, fill_image, fill_solid, spec_pack_sample, resample_of, Color, FrameBuffer,
};

verus! {

/// The negotiated state of one surface: its size and whether the configure
/// handshake has completed.
#[derive(Clone, Copy, Debug, PartialEq, Eq, Structural)]
pub struct SurfaceState {
    pub width: u32,
    pub height: u32,
    pub configured: bool,
}

impl SurfaceState {
    /// A surface may be drawn into only once it is configured with a
    /// non-zero area.
    pub open spec fn drawable(self) -> bool {
        self.configured && self.width > 0 && self.height > 0
    }

    /// The surface's frame, in bytes, fits the address space.
    pub open spec fn area_fits(self) -> bool {
        4 * (self.width as int) * (self.height as int) <= usize::MAX as int
    }

    /// The state every surface starts in: no size, not configured.
    pub fn new() -> (s: SurfaceState)
        ensures
            s == (SurfaceState { width: 0u32, height: 0u32, configured: false }),
    {
        SurfaceState { width: 0, height: 0, configured: false }
    }
}

/// One draw request: a constant color, or a source RGBA grid to resample to
/// the surface's size.
pub enum FillRequest {
    Solid(Color),
    Image { samples: Vec<u8>, width: u32, height: u32 },
}

impl FillRequest {
    /// An image source must hold exactly the samples its dimensions claim.
    pub open spec fn source_ok(self) -> bool {
        match self {
            FillRequest::Solid(_) => true,
            FillRequest::Image { samples, width, height } => samples@.len() == 4 * width
                * height,
        }
    }

    /// The resampler's working grid — the source's width by the surface's
    /// height — must fit the address space along with the frame itself.
    pub open spec fn intermediate_fits(self, s: SurfaceState) -> bool {
        match self {
            FillRequest::Solid(_) => true,
            FillRequest::Image { width, .. } => 4 * (width as int) * (s.height as int)
                <= usize::MAX as int,
        }
    }

    /// The words the frame of a surface in state `s` holds after this
    /// request is drawn.
    pub open spec fn rendered(self, s: SurfaceState) -> Seq<u32> {
        Seq::new(
            (s.width * s.height) as nat,
            |i: int|
                match self {
                    FillRequest::Solid(c) => c.packed(),
                    FillRequest::Image { samples, width, height } => spec_pack_sample(
                        resample_of(
                            samples@,
                            width as int,
                            height as int,
                            s.width as int,
                            s.height as int,
                        ),
                        i,
                    ),
                },
        )
    }
}

/// Why a draw request or a configure event was rejected.
#[derive(Clone, Copy, Debug, PartialEq, Eq, Structural)]
pub enum DrawError {
    /// The output index names no tracked surface.
    NoSuchOutput,
    /// The surface has not completed its configure handshake.
    NotConfigured,
    /// The surface was configured with a zero area.
    InvalidDimensions,
    /// The surface's frame would not fit the address space.
    ResourceExhausted,
    /// The image source does not match its declared dimensions.
    BadSource,
}

/// The published frame of one output, as a sequence of packed words.
pub open spec fn frame_words(f: Option<FrameBuffer>) -> Option<Seq<u32>> {
    match f {
        Some(fb) => Some(fb.words@),
        None => None,
    }
}

/// All tracked surfaces, with the frame each output last published.
pub struct SurfaceManager {
    pub surfaces: Vec<SurfaceState>,
    pub frames: Vec<Option<FrameBuffer>>,
}

impl SurfaceManager {
    /// One frame slot per surface.
    pub open spec fn wf(self) -> bool {
        self.frames@.len() == self.surfaces@.len()
    }

    /// What makes a draw request fail on this state, if anything; the first
    /// listed cause wins.
    pub open spec fn draw_failure(self, idx: int, req: FillRequest) -> Option<DrawError> {
        if idx >= self.surfaces@.len() {
            Some(DrawError::NoSuchOutput)
        } else if !self.surfaces@[idx].configured {
            Some(DrawError::NotConfigured)
        } else if self.surfaces@[idx].width == 0 || self.surfaces@[idx].height == 0 {
            Some(DrawError::InvalidDimensions)
        } else if !self.surfaces@[idx].area_fits() || !req.intermediate_fits(
            self.surfaces@[idx],
        ) {
            Some(DrawError::ResourceExhausted)
        } else if !req.source_ok() {
            Some(DrawError::BadSource)
        } else {
            None
        }
    }

    /// An empty manager, before any output is known.
    pub fn new() -> (m: SurfaceManager)
        ensures
            m.wf(),
            m.surfaces@.len() == 0,
    {
        SurfaceManager { surfaces: Vec::new(), frames: Vec::new() }
    }

    /// Tracks one more output, with a fresh unconfigured surface and no
    /// published frame.
    pub fn add_surface(&mut self)
        requires
            old(self).wf(),
        ensures
            final(self).wf(),
            final(self).surfaces@ == old(self).surfaces@.push(
                SurfaceState { width: 0u32, height: 0u32, configured: false },
            ),
            final(self).frames@ == old(self).frames@.push(None::<FrameBuffer>),
    {
        self.surfaces.push(SurfaceState::new());
        self.frames.push(None);
    }

    /// How many outputs are tracked.
    pub fn surface_count(&self) -> (n: usize)
        ensures
            n == self.surfaces@.len(),
    {
        self.surfaces.len()
    }

    /// The readiness predicate the startup sequence blocks on: every
    /// tracked surface has completed its configure handshake.
    pub fn all_configured(&self) -> (r: bool)
        ensures
            r <==> forall|j: int| 0 <= j < self.surfaces@.len() ==> self.surfaces@[j].configured,
    {
        let n = self.surfaces.len();
        let mut i: usize = 0;
        while i < n
            invariant
                i <= n,
                n == self.surfaces@.len(),
                forall|j: int| 0 <= j < i ==> self.surfaces@[j].configured,
            decreases n - i,
        {
            if !self.surfaces[i].configured {
                return false;
            }
            i = i + 1;
        }
        true
    }

    /// Applies one configure event to the surface it names: records the
    /// negotiated size, marks the surface configured, and echoes the serial
    /// that must be acknowledged. Published frames are untouched.
    pub fn apply_configure(&mut self, idx: usize, serial: u32, width: u32, height: u32) -> (r:
        Result<u32, DrawError>)
        requires
            old(self).wf(),
        ensures
            final(self).wf(),
            final(self).frames@ == old(self).frames@,
            match r {
                Ok(ack) => {
                    &&& idx < old(self).surfaces@.len()
                    &&& ack == serial
                    &&& final(self).surfaces@ == old(self).surfaces@.update(
                        idx as int,
                        SurfaceState { width, height, configured: true },
                    )
                },
                Err(e) => {
                    &&& e == DrawError::NoSuchOutput
                    &&& idx >= old(self).surfaces@.len()
                    &&& final(self).surfaces@ == old(self).surfaces@
                },
            },
    {
        if idx >= self.surfaces.len() {
            return Err(DrawError::NoSuchOutput);
        }
        self.surfaces[idx] = SurfaceState { width, height, configured: true };
        Ok(serial)
    }

    /// Draws one request to one output: allocates a frame of the surface's
    /// exact area, fills it as requested, and publishes it as that output's
    /// frame. Fails, leaving every frame untouched, exactly on the causes
    /// `draw_failure` lists; no other output's frame ever changes.
    pub fn draw(&mut self, idx: usize, req: &FillRequest) -> (r: Result<(), DrawError>)
        requires
            old(self).wf(),
        ensures
            final(self).wf(),
            final(self).surfaces@ == old(self).surfaces@,
            final(self).frames@.len() == old(self).frames@.len(),
            match r {
                Ok(_) => {
                    &&& old(self).draw_failure(idx as int, *req) is None
                    &&& idx < old(self).frames@.len()
                    &&& old(self).surfaces@[idx as int].drawable()
                    &&& frame_words(final(self).frames@[idx as int]) == Some(
                        req.rendered(old(self).surfaces@[idx as int]),
                    )
                    &&& forall|j: int|
                        0 <= j < old(self).frames@.len() && j != idx ==> final(self).frames@[j]
                            == old(self).frames@[j]
                    &&& (match *req {
                        FillRequest::Image { samples, width, height } => (width == old(
                            self,
                        ).surfaces@[idx as int].width && height == old(
                            self,
                        ).surfaces@[idx as int].height) ==> frame_words(
                            final(self).frames@[idx as int],
                        ) == Some(
                            Seq::new(
                                (width * height) as nat,
                                |i: int| spec_pack_sample(samples@, i),
                            ),
                        ),
                        FillRequest::Solid(_) => true,
                    })
                },
                Err(e) => {
                    &&& Some(e) == old(self).draw_failure(idx as int, *req)
                    &&& final(self).frames@ == old(self).frames@
                },
            },
    {
        if idx >= self.surfaces.len() {
            return Err(DrawError::NoSuchOutput);
        }
        let s = self.surfaces[idx];
        if !s.configured {
            return Err(DrawError::NotConfigured);
        }
        if s.width == 0 || s.height == 0 {
            return Err(DrawError::InvalidDimensions);
        }
        assert(4 * (s.width as int) * (s.height as int) < u128::MAX as int) by (nonlinear_arith)
            requires
                s.width <= u32::MAX,
                s.height <= u32::MAX,
        {}
        if 4u128 * (s.width as u128) * (s.height as u128) > (usize::MAX as u128) {
            return Err(DrawError::ResourceExhausted);
        }
        match req {
            FillRequest::Solid(_) => {},
            FillRequest::Image { samples, width, height } => {
                assert(4 * (*width as int) * (*height as int) < u128::MAX as int
                    && 4 * (*width as int) * (s.height as int) < u128::MAX as int)
                    by (nonlinear_arith)
                    requires
                        *width <= u32::MAX,
                        *height <= u32::MAX,
                        s.height <= u32::MAX,
                {}
                if 4u128 * (*width as u128) * (s.height as u128) > (usize::MAX as u128) {
                    return Err(DrawError::ResourceExhausted);
                }
                if (samples.len() as u128) != 4u128 * (*width as u128) * (*height as u128) {
                    return Err(DrawError::BadSource);
                }
            },
        }
        let mut fb = match allocate(s.width, s.height) {
            Ok(fb) => fb,
            Err(_) => {
                return Err(DrawError::InvalidDimensions);
            },
        };
        match req {
            FillRequest::Solid(c) => fill_solid(&mut fb, *c),
            FillRequest::Image { samples, width, height } => fill_image(
                &mut fb,
                samples,
                *width,
                *height,
            ),
        }
        assert(fb.words@ =~= req.rendered(self.surfaces@[idx as int]));
        assert(match *req {
            FillRequest::Image { samples, width, height } => (width == s.width && height
                == s.height) ==> fb.words@ =~= Seq::new(
                (width * height) as nat,
                |i: int| spec_pack_sample(samples@, i),
            ),
            FillRequest::Solid(_) => true,
        });
        self.frames[idx] = Some(fb);
        Ok(())
    }

    /// The frame the output last published, if any.
    pub fn frame_at(&self, idx: usize) -> (r: Option<&FrameBuffer>)
        requires
            idx < self.frames@.len(),
        ensures
            match r {
                Some(fb) => self.frames@[idx as int] == Some(*fb),
                None => self.frames@[idx as int] is None,
            },
    {
        self.frames[idx].as_ref()
    }

    /// The state of one tracked surface.
    pub fn surface_at(&self, idx: usize) -> (s: SurfaceState)
        requires
            idx < self.surfaces@.len(),
        ensures
            s == self.surfaces@[idx as int],
    {
        self.surfaces[idx]
    }
}

/// A surface that has not completed its configure handshake rejects every
/// draw request, whatever the request asks for: nothing is drawn before
/// the handshake, so an unconfigured surface can never publish a frame.
pub proof fn lemma_unconfigured_rejects_draw(m: SurfaceManager, idx: int, req: FillRequest)
    requires
        m.wf(),
        0 <= idx < m.surfaces@.len(),
        !m.surfaces@[idx].configured,
    ensures
        m.draw_failure(idx, req) == Some(DrawError::NotConfigured),
{
}

} // verus!
