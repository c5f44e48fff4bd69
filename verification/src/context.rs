//! The render context: output sizing, per-frame buffers, and the auto-fit
//! transform derived from mesh extents.

use vstd::prelude::*;
use vstd::math::{max, max3, min};
use vstd::arithmetic::div_mod::{lemma_div_is_ordered, lemma_div_is_ordered_by_denominator};
use crate::mat4::{Mat4, FIXED_ONE, identity_spec, is_product, mat_bounded, MAT_ENTRY_MAX};

verus! {

broadcast use vstd::array::group_array_axioms;

/// A point or extent in model space, in 16.16 fixed point.
#[derive(Clone, Copy, Debug, PartialEq, Eq, Structural)]
pub struct Vec3 {
    pub x: i64,
    pub y: i64,
    pub z: i64,
}

/// An axis-aligned bounding box in model space.
#[derive(Clone, Copy, Debug, PartialEq, Eq, Structural)]
pub struct BoundingBox {
    pub min: Vec3,
    pub max: Vec3,
}

/// One mesh as the context sees it: only its bounding box matters here;
/// vertices and faces belong to the rasterizer.
#[derive(Clone, Copy, Debug, PartialEq, Eq, Structural)]
pub struct SimpleMesh {
    pub bounding_box: BoundingBox,
}

/// One depth + shading candidate for a cell, written by the rasterizer.
/// Depth is a 16.16 fixed-point value; larger means farther away.
#[derive(Clone, Copy, Debug)]
pub struct Pixel {
    pub z: i64,
    pub shade: i64,
    pub color: Option<(u8, u8, u8)>,
}

/// The blank fragment: depth at the largest representable sentinel, so any
/// other depth compares nearer, no shade, no color.
pub open spec fn blank_pixel() -> Pixel {
    Pixel { z: i64::MAX, shade: 0, color: None }
}

impl Pixel {
    /// A fragment that every real surface sample wins the depth test against.
    pub fn blank() -> (r: Pixel)
        ensures
            r == blank_pixel(),
    {
        Pixel { z: i64::MAX, shade: 0, color: None }
    }
}

/// The blank fragment's depth compares farther than every other depth
/// value: a fresh cell loses the depth test to any incoming sample.
pub proof fn lemma_blank_depth_farthest(d: i64)
    ensures
        blank_pixel().z >= d,
        d != i64::MAX ==> blank_pixel().z > d,
{
}

/// The blank committed frame cell: a space on black.
pub open spec fn blank_cell() -> (char, (u8, u8, u8)) {
    (' ', (0u8, 0u8, 0u8))
}

/// Frame-buffer cell count for a (w, h) grid: one cell per grid position,
/// plus one line-terminator cell per row in image mode.
pub open spec fn frame_len(w: int, h: int, image: bool) -> int {
    if image {
        w * h + h
    } else {
        w * h
    }
}

/// After the buffers are cleared for a (w, h) grid, the shading buffer
/// holds w*h cells in either mode, while the frame buffer holds w*h cells
/// in interactive mode and w*h + h cells in image mode.
pub proof fn lemma_cleared_buffer_lengths(w: int, h: int)
    ensures
        frame_len(w, h, false) == w * h,
        frame_len(w, h, true) == w * h + h,
{
}

/// The render context: grid dimensions, the current model-to-screen
/// transform, and the two per-frame buffers the rasterizer writes into.
/// `N` is the number of shading channels accumulated per cell.
pub struct Context<const N: usize> {
    pub utransform: Mat4,
    pub width: usize,
    pub height: usize,
    pub zoom: i64,
    pub frame_buffer: Vec<(char, (u8, u8, u8))>,
    pub shader_buffer: Vec<[Pixel; N]>,
    pub image: bool,
}

/// A frame buffer of `n` blank cells.
fn blank_frame(n: usize) -> (v: Vec<(char, (u8, u8, u8))>)
    ensures
        v@.len() == n,
        forall|i: int| 0 <= i < n ==> v@[i] == blank_cell(),
{
    let mut v: Vec<(char, (u8, u8, u8))> = Vec::new();
    let mut i: usize = 0;
    while i < n
        invariant
            i <= n,
            v@.len() == i,
            forall|j: int| 0 <= j < i ==> v@[j] == blank_cell(),
        decreases n - i,
    {
        v.push((' ', (0u8, 0u8, 0u8)));
        i = i + 1;
    }
    v
}

/// A shading buffer of `n` cells, each holding `N` blank fragments.
fn blank_shader<const N: usize>(n: usize) -> (v: Vec<[Pixel; N]>)
    ensures
        v@.len() == n,
        forall|i: int, j: int| 0 <= i < n && 0 <= j < N ==> v@[i]@[j] == blank_pixel(),
{
    let cell: [Pixel; N] = [Pixel::blank(); N];
    let mut v: Vec<[Pixel; N]> = Vec::new();
    let mut i: usize = 0;
    while i < n
        invariant
            i <= n,
            v@.len() == i,
            forall|j: int| 0 <= j < N ==> cell@[j] == blank_pixel(),
            forall|j: int, k: int| 0 <= j < i && 0 <= k < N ==> v@[j]@[k] == blank_pixel(),
        decreases n - i,
    {
        v.push(cell);
        i = i + 1;
    }
    v
}

impl<const N: usize> Context<N> {
    /// A fresh, zero-sized context with the identity transform and empty
    /// buffers; `set_size` or `update` establish the dimensions.
    pub fn blank(image: bool, zoom: i64) -> (r: Context<N>)
        ensures
            r.utransform == identity_spec(),
            r.width == 0,
            r.height == 0,
            r.zoom == zoom,
            r.frame_buffer@.len() == 0,
            r.shader_buffer@.len() == 0,
            r.image == image,
    {
        Context {
            utransform: Mat4::identity(),
            width: 0,
            height: 0,
            zoom,
            frame_buffer: Vec::new(),
            shader_buffer: Vec::new(),
            image,
        }
    }

    /// Stores the output-grid dimensions; allocation waits for `clear`.
    pub fn set_size(&mut self, width: usize, height: usize)
        ensures
            final(self).width == width,
            final(self).height == height,
            final(self).utransform == old(self).utransform,
            final(self).zoom == old(self).zoom,
            final(self).frame_buffer == old(self).frame_buffer,
            final(self).shader_buffer == old(self).shader_buffer,
            final(self).image == old(self).image,
    {
        self.width = width;
        self.height = height;
    }

    /// Total frame-buffer cell count for the current dimensions and mode.
    fn buffer_size(&self) -> (r: usize)
        requires
            frame_len(self.width as int, self.height as int, self.image) <= usize::MAX,
        ensures
            r == frame_len(self.width as int, self.height as int, self.image),
    {
        if self.image {
            self.width * self.height + self.height
        } else {
            self.width * self.height
        }
    }

    /// Reallocates both per-frame buffers: every frame cell becomes a
    /// space on black, every shading cell a row of blank fragments. The
    /// previous frame's contents are discarded entirely.
    pub fn clear(&mut self)
        requires
            frame_len(old(self).width as int, old(self).height as int, old(self).image) <= usize::MAX,
        ensures
            final(self).frame_buffer@.len() == frame_len(old(self).width as int, old(self).height as int, old(self).image),
            forall|i: int| 0 <= i < final(self).frame_buffer@.len() ==> final(self).frame_buffer@[i] == blank_cell(),
            final(self).shader_buffer@.len() == old(self).width * old(self).height,
            forall|i: int, j: int|
                0 <= i < final(self).shader_buffer@.len() && 0 <= j < N
                    ==> final(self).shader_buffer@[i]@[j] == blank_pixel(),
            final(self).utransform == old(self).utransform,
            final(self).width == old(self).width,
            final(self).height == old(self).height,
            final(self).zoom == old(self).zoom,
            final(self).image == old(self).image,
    {
        self.frame_buffer = blank_frame(self.buffer_size());
        self.shader_buffer = blank_shader(self.width * self.height);
    }

    /// Overwrites the transform with the product of a projection and a
    /// view matrix, discarding any auto-fit result, and returns the
    /// stored transform.
    pub fn camera(&mut self, proj: Mat4, view_mat: Mat4) -> (r: Mat4)
        requires
            mat_bounded(proj, MAT_ENTRY_MAX as int),
            mat_bounded(view_mat, MAT_ENTRY_MAX as int),
        ensures
            is_product(final(self).utransform, proj, view_mat),
            r == final(self).utransform,
            final(self).width == old(self).width,
            final(self).height == old(self).height,
            final(self).zoom == old(self).zoom,
            final(self).frame_buffer == old(self).frame_buffer,
            final(self).shader_buffer == old(self).shader_buffer,
            final(self).image == old(self).image,
    {
        self.utransform = proj.multiply(&view_mat);
        self.utransform
    }
}

/// Largest bounding-box coordinate of one mesh across all three axes.
pub open spec fn mesh_peak(m: SimpleMesh) -> int {
    max3(m.bounding_box.max.x as int, m.bounding_box.max.y as int, m.bounding_box.max.z as int)
}

/// The scene's scale basis: the largest bounding-box coordinate across
/// all meshes and axes, and never below zero.
pub open spec fn scale_basis(meshes: Seq<SimpleMesh>) -> int
    decreases meshes.len(),
{
    if meshes.len() == 0 {
        0
    } else {
        max(scale_basis(meshes.drop_last()), mesh_peak(meshes.last()))
    }
}

/// The auto-fit scale: the largest extent fills about half the smaller
/// output dimension. The width is halved to budget one blank separator
/// column per cell. Computed as one exact rational, truncated once.
pub open spec fn autofit_scale(w: int, h: int, zoom: int, basis: int) -> int
    recommends
        basis > 0,
        zoom >= 0,
{
    min(h * (FIXED_ONE as int), w * ((FIXED_ONE as int) / 2)) * zoom / (2 * basis)
}

/// `m` is the auto-fit transform for output size (w, h) and scale `s`:
/// an axis-aligned scale with the grid's center offsets, and no offset on
/// z, which stays a relative depth metric.
pub open spec fn is_autofit(m: Mat4, w: int, h: int, s: int) -> bool {
    &&& m.m00 == s
    &&& m.m01 == 0
    &&& m.m02 == 0
    &&& m.m03 == w * ((FIXED_ONE as int) / 4)
    &&& m.m10 == 0
    &&& m.m11 == -s
    &&& m.m12 == 0
    &&& m.m13 == h * ((FIXED_ONE as int) / 2)
    &&& m.m20 == 0
    &&& m.m21 == 0
    &&& m.m22 == s
    &&& m.m23 == 0
    &&& m.m30 == 0
    &&& m.m31 == 0
    &&& m.m32 == 0
    &&& m.m33 == FIXED_ONE
}

/// The output size `update` works with: the configured size in image
/// mode, the freshly queried live size otherwise.
pub open spec fn used_size<const N: usize>(c: Context<N>, live_size: (u16, u16)) -> (u16, u16) {
    if c.image {
        (c.width as u16, c.height as u16)
    } else {
        live_size
    }
}

/// Whether `update` recomputes the transform: always in image mode,
/// otherwise only when the output size changed.
pub open spec fn needs_refit<const N: usize>(c: Context<N>, old_size: (u16, u16), live_size: (u16, u16)) -> bool {
    old_size != used_size(c, live_size) || c.image
}

/// What can go wrong inside the context itself.
#[derive(Clone, Copy, Debug, PartialEq, Eq, Structural)]
pub enum RenderError {
    /// An empty mesh set, or bounding boxes with no positive extent,
    /// would drive the auto-fit scale through a division by zero.
    DegenerateGeometry,
}

/// Largest zoom factor `update` accepts, in 16.16 fixed point: keeps the
/// scale computation inside `i64`.
pub const ZOOM_MAX: i64 = 0x8000_0000;

impl<const N: usize> Context<N> {
    /// Derives and stores the auto-fit transform. Recomputes only when
    /// the output size changed, or unconditionally in image mode; an
    /// unchanged size in interactive mode leaves the context untouched.
    /// In interactive mode the freshly used size is also stored, so the
    /// next `clear` sizes the buffers to match. Returns the size used,
    /// or reports degenerate geometry with the context unchanged.
    pub fn update(&mut self, old_size: (u16, u16), live_size: (u16, u16), meshes: &[SimpleMesh]) -> (r: Result<(u16, u16), RenderError>)
        requires
            old(self).image ==> old(self).width <= u16::MAX && old(self).height <= u16::MAX,
            0 <= old(self).zoom <= ZOOM_MAX,
        ensures
            !needs_refit(*old(self), old_size, live_size) ==> {
                &&& r == Ok::<(u16, u16), RenderError>(used_size(*old(self), live_size))
                &&& *final(self) == *old(self)
            },
            needs_refit(*old(self), old_size, live_size) && scale_basis(meshes@) == 0 ==> {
                &&& r == Err::<(u16, u16), RenderError>(RenderError::DegenerateGeometry)
                &&& *final(self) == *old(self)
            },
            needs_refit(*old(self), old_size, live_size) && scale_basis(meshes@) > 0 ==> {
                let ts = used_size(*old(self), live_size);
                &&& r == Ok::<(u16, u16), RenderError>(ts)
                &&& is_autofit(
                    final(self).utransform,
                    ts.0 as int,
                    ts.1 as int,
                    autofit_scale(ts.0 as int, ts.1 as int, old(self).zoom as int, scale_basis(meshes@)),
                )
                &&& final(self).width == (if old(self).image { old(self).width as int } else { ts.0 as int })
                &&& final(self).height == (if old(self).image { old(self).height as int } else { ts.1 as int })
                &&& final(self).zoom == old(self).zoom
                &&& final(self).frame_buffer == old(self).frame_buffer
                &&& final(self).shader_buffer == old(self).shader_buffer
                &&& final(self).image == old(self).image
            },
    {
        let terminal_size: (u16, u16) = if self.image {
            (self.width as u16, self.height as u16)
        } else {
            live_size
        };

        if old_size.0 != terminal_size.0 || old_size.1 != terminal_size.1 || self.image {
            let mut basis: i64 = 0;
            let mut i: usize = 0;
            while i < meshes.len()
                invariant
                    i <= meshes.len(),
                    basis == scale_basis(meshes@.take(i as int)),
                decreases meshes.len() - i,
            {
                let bb_max = meshes[i].bounding_box.max;
                if bb_max.x > basis {
                    basis = bb_max.x;
                }
                if bb_max.y > basis {
                    basis = bb_max.y;
                }
                if bb_max.z > basis {
                    basis = bb_max.z;
                }
                proof {
                    assert(meshes@.take(i + 1).drop_last() =~= meshes@.take(i as int));
                    assert(meshes@.take(i + 1).last() == meshes@[i as int]);
                }
                i = i + 1;
            }
            proof {
                assert(meshes@.take(meshes@.len() as int) =~= meshes@);
            }

            if basis <= 0 {
                return Err(RenderError::DegenerateGeometry);
            }

            let hh: i64 = (terminal_size.1 as i64) * FIXED_ONE;
            let wh: i64 = (terminal_size.0 as i64) * (FIXED_ONE / 2);
            let a: i64 = if hh < wh { hh } else { wh };
            proof {
                assert(0 <= (a as int) * (self.zoom as int) <= 0x8000_0000_0000_0000)
                    by (nonlinear_arith)
                    requires 0 <= (a as int) < 0x1_0000_0000, 0 <= (self.zoom as int) <= 0x8000_0000;
                lemma_div_is_ordered_by_denominator(
                    (a as int) * (self.zoom as int),
                    2,
                    2 * (basis as int),
                );
                lemma_div_is_ordered((a as int) * (self.zoom as int), 0x8000_0000_0000_0000, 2);
                assert(0x8000_0000_0000_0000int / 2int == 0x4000_0000_0000_0000);
            }
            let num: i128 = (a as i128) * (self.zoom as i128);
            let den: i128 = 2 * (basis as i128);
            let q: u128 = (num as u128) / (den as u128);
            let s: i64 = q as i64;

            let tx: i64 = (terminal_size.0 as i64) * (FIXED_ONE / 4);
            let ty: i64 = (terminal_size.1 as i64) * (FIXED_ONE / 2);
            self.utransform = Mat4 {
                m00: s, m01: 0, m02: 0, m03: tx,
                m10: 0, m11: -s, m12: 0, m13: ty,
                m20: 0, m21: 0, m22: s, m23: 0,
                m30: 0, m31: 0, m32: 0, m33: FIXED_ONE,
            };
            if !self.image {
                self.width = terminal_size.0 as usize;
                self.height = terminal_size.1 as usize;
            }
        }

        Ok(terminal_size)
    }
}

} // verus!
