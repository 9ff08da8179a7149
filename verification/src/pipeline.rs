//! The model of the cached GPU pipeline state and its lifecycle.
//!
//! The pipeline cache owns one generation of texture resources at a time:
//! a generation number identifies the texture + view + sampler + bind set
//! built together on an asset swap, and the invariant `bind_generation ==
//! generation` says the bind set always references the complete, current
//! generation — never a half-built one.  The cache is created lazily on
//! the first frame (`Storage` holds the optional slot), the uniform record
//! is overwritten every frame, and a pending image selection is consumed
//! at most once: a failed decode is skipped silently and the previous
//! generation keeps rendering.
//!
//! The actual GPU objects (buffers, textures, bind sets) live with the
//! host, which mirrors this model: the library decides, the host performs.
//! The one outside call in the middle of the logic — decoding an image
//! byte stream to RGBA8 — stays here behind a trusted wrapper.

use vstd::prelude::*;
use crate::transform::{Transform, ZOOM_DEFAULT_FIFTHS, scale_of};
use crate::scene::Primitive;

verus! {

/// The per-frame uniform record: viewport resolution plus the transform's
/// center (fine world units) and scale (Q21 fixed point).
#[derive(Clone, Copy, Debug, PartialEq, Eq, Structural)]
pub struct UniformRecord {
    pub resolution_width: u32,
    pub resolution_height: u32,
    pub center_x: i64,
    pub center_y: i64,
    pub scale: i64,
}

/// One vertex of the full-viewport quad: clip-space position in `{-1, 1}`
/// and texture coordinates in `{0, 1}`.
#[derive(Clone, Copy, Debug, PartialEq, Eq, Structural)]
pub struct Vertex {
    pub position_x: i8,
    pub position_y: i8,
    pub uv_x: u8,
    pub uv_y: u8,
}

/// The fixed six-vertex (two-triangle) full-viewport quad, counter
/// clockwise, with the texture's top row at the top of the viewport.
pub fn quad_vertices() -> (vs: Vec<Vertex>)
    ensures
        vs@.len() == 6,
        vs@[0] == (Vertex { position_x: -1i8, position_y: -1i8, uv_x: 0u8, uv_y: 1u8 }),
        vs@[1] == (Vertex { position_x: 1i8, position_y: -1i8, uv_x: 1u8, uv_y: 1u8 }),
        vs@[2] == (Vertex { position_x: 1i8, position_y: 1i8, uv_x: 1u8, uv_y: 0u8 }),
        vs@[3] == (Vertex { position_x: -1i8, position_y: -1i8, uv_x: 0u8, uv_y: 1u8 }),
        vs@[4] == (Vertex { position_x: 1i8, position_y: 1i8, uv_x: 1u8, uv_y: 0u8 }),
        vs@[5] == (Vertex { position_x: -1i8, position_y: 1i8, uv_x: 0u8, uv_y: 0u8 }),
{
    let mut vs: Vec<Vertex> = Vec::new();
    vs.push(Vertex { position_x: -1, position_y: -1, uv_x: 0, uv_y: 1 });
    vs.push(Vertex { position_x: 1, position_y: -1, uv_x: 1, uv_y: 1 });
    vs.push(Vertex { position_x: 1, position_y: 1, uv_x: 1, uv_y: 0 });
    vs.push(Vertex { position_x: -1, position_y: -1, uv_x: 0, uv_y: 1 });
    vs.push(Vertex { position_x: 1, position_y: 1, uv_x: 1, uv_y: 0 });
    vs.push(Vertex { position_x: -1, position_y: 1, uv_x: 0, uv_y: 0 });
    vs
}

/// A clip rectangle in pixels of the frame target.
#[derive(Clone, Copy, Debug, PartialEq, Eq, Structural)]
pub struct ClipRect {
    pub x: u32,
    pub y: u32,
    pub width: u32,
    pub height: u32,
}

/// What one render submission does, for the host to perform: the pass
/// clears the target (this cache owns its surface), restricts itself to
/// the scissor rectangle, binds the bind set of the given generation and
/// draws the six quad vertices once.
#[derive(Clone, Copy, Debug, PartialEq, Eq, Structural)]
pub struct DrawPlan {
    pub clears: bool,
    pub scissor: ClipRect,
    pub bind_generation: u64,
    pub first_vertex: u32,
    pub vertex_count: u32,
    pub instance_count: u32,
}

/// The pipeline cache entry: the model of the long-lived GPU state owned
/// by one viewport.
pub struct Pipeline {
    /// Contents of the GPU uniform buffer (rewritten every frame).
    pub uniform: UniformRecord,
    /// Native width of the currently bound texture.
    pub texture_width: u32,
    /// Native height of the currently bound texture.
    pub texture_height: u32,
    /// Number of the current resource generation (0 is the placeholder).
    pub generation: u64,
    /// Generation that the active bind set references.
    pub bind_generation: u64,
    /// The pending image asset reference, not yet consumed.
    pub pending_path: Option<String>,
    /// Selection count that came with the pending reference.
    pub pending_seq: u64,
    /// Selection count of the last consumed reference.
    pub loaded_seq: u64,
}

/// The state of a freshly created cache entry: placeholder 1x1 texture as
/// generation 0, uniform record for the default transform over an unknown
/// resolution, nothing pending.
pub open spec fn fresh_pipeline() -> Pipeline {
    Pipeline {
        uniform: UniformRecord {
            resolution_width: 0u32,
            resolution_height: 0u32,
            center_x: 0i64,
            center_y: 0i64,
            scale: scale_of(ZOOM_DEFAULT_FIFTHS as int) as i64,
        },
        texture_width: 1u32,
        texture_height: 1u32,
        generation: 0u64,
        bind_generation: 0u64,
        pending_path: None::<String>,
        pending_seq: 0u64,
        loaded_seq: 0u64,
    }
}

/// Whether the pending reference exists and has not been consumed yet.
pub open spec fn has_new_pending(p: Pipeline) -> bool {
    p.pending_path is Some && p.pending_seq > p.loaded_seq
}

/// Whether a decode result allows a texture swap: it succeeded with
/// positive dimensions.
pub open spec fn decode_ok(d: Option<(Seq<u8>, u32, u32)>) -> bool {
    d is Some && d->Some_0.1 > 0 && d->Some_0.2 > 0
}

/// The cache state after one load attempt against the decode result `d`:
/// a new, unconsumed pending reference is consumed either way; the
/// texture generation advances (dimensions from the decode, bind set
/// rebuilt onto the new generation) exactly when the decode succeeded.
pub open spec fn after_install(p: Pipeline, d: Option<(Seq<u8>, u32, u32)>) -> Pipeline {
    if has_new_pending(p) {
        if decode_ok(d) {
            Pipeline {
                uniform: p.uniform,
                texture_width: d->Some_0.1,
                texture_height: d->Some_0.2,
                generation: (p.generation + 1) as u64,
                bind_generation: (p.generation + 1) as u64,
                pending_path: None::<String>,
                pending_seq: p.pending_seq,
                loaded_seq: p.pending_seq,
            }
        } else {
            Pipeline {
                uniform: p.uniform,
                texture_width: p.texture_width,
                texture_height: p.texture_height,
                generation: p.generation,
                bind_generation: p.bind_generation,
                pending_path: None::<String>,
                pending_seq: p.pending_seq,
                loaded_seq: p.pending_seq,
            }
        }
    } else {
        Pipeline {
            uniform: p.uniform,
            texture_width: p.texture_width,
            texture_height: p.texture_height,
            generation: p.generation,
            bind_generation: p.bind_generation,
            pending_path: None::<String>,
            pending_seq: p.pending_seq,
            loaded_seq: p.loaded_seq,
        }
    }
}

/// The cache state after a new image selection was handed over.
pub open spec fn with_pending(p: Pipeline, path: String, seq: u64) -> Pipeline {
    Pipeline {
        uniform: p.uniform,
        texture_width: p.texture_width,
        texture_height: p.texture_height,
        generation: p.generation,
        bind_generation: p.bind_generation,
        pending_path: Some(path),
        pending_seq: seq,
        loaded_seq: p.loaded_seq,
    }
}

/// What an RGBA8 decode of the given byte stream yields: the pixel bytes
/// and the native width and height, or nothing if the stream is not a
/// decodable image.  The result is a function of the bytes alone.
pub uninterp spec fn rgba_decode_of(bytes: Seq<u8>) -> Option<(Seq<u8>, u32, u32)>;

/// Relies on image::load_from_memory and DynamicImage::to_rgba8 of the
/// image crate: decoding reads nothing but the bytes, and the produced
/// RGBA8 buffer holds exactly width * height * 4 bytes (one byte per
/// channel, rows top to bottom).
#[verifier::external_body]
fn decode_rgba(bytes: &[u8]) -> (r: Option<(Vec<u8>, u32, u32)>)
    ensures
        r is Some <==> rgba_decode_of(bytes@) is Some,
        r matches Some(t) ==> (t.0@, t.1, t.2) == rgba_decode_of(bytes@)->Some_0,
        r matches Some(t) ==> t.0@.len() == 4 * (t.1 as int) * (t.2 as int),
{
    match image::load_from_memory(bytes) {
        Ok(img) => {
            let rgba = img.to_rgba8();
            let (w, h) = rgba.dimensions();
            Some((rgba.into_raw(), w, h))
        },
        Err(_) => None,
    }
}

impl Pipeline {
    /// Bind set complete and current; a real (at least 1x1) texture bound.
    pub open spec fn wf(self) -> bool {
        &&& self.bind_generation == self.generation
        &&& self.texture_width >= 1
        &&& self.texture_height >= 1
    }

    /// Create the cache entry: placeholder texture, quad and uniform
    /// record as generation 0.  Called once per storage slot.
    pub fn new() -> (p: Pipeline)
        ensures
            p == fresh_pipeline(),
            p.wf(),
    {
        let start = Transform::start();
        let s = start.scale();
        Pipeline {
            uniform: UniformRecord {
                resolution_width: 0,
                resolution_height: 0,
                center_x: 0,
                center_y: 0,
                scale: s,
            },
            texture_width: 1,
            texture_height: 1,
            generation: 0,
            bind_generation: 0,
            pending_path: None,
            pending_seq: 0,
            loaded_seq: 0,
        }
    }

    /// Hand over a new image selection; it stays pending until the next
    /// load attempt consumes it.
    pub fn set_image_path(&mut self, path: String, seq: u64)
        ensures
            *final(self) == with_pending(*old(self), path, seq),
    {
        self.pending_path = Some(path);
        self.pending_seq = seq;
    }

    /// Apply one load attempt to the model, given the decode result of
    /// the pending image's bytes.  Returns the pixel buffer for the host
    /// to upload exactly when the texture generation advanced.
    pub fn install_texture(&mut self, decoded: Option<(Vec<u8>, u32, u32)>) -> (pixels: Option<
        Vec<u8>,
    >)
        requires
            old(self).wf(),
            old(self).generation < u64::MAX,
        ensures
            final(self).wf(),
            *final(self) == after_install(*old(self), decoded_view(decoded)),
            ({
                if has_new_pending(*old(self)) && decode_ok(decoded_view(decoded)) {
                    pixels matches Some(px) && px@ == decoded_view(decoded)->Some_0.0
                } else {
                    pixels is None
                }
            }),
    {
        let attempt = match &self.pending_path {
            Some(_) => self.pending_seq > self.loaded_seq,
            None => false,
        };
        self.pending_path = None;
        if attempt {
            self.loaded_seq = self.pending_seq;
            match decoded {
                Some((pixels, width, height)) => {
                    if width > 0 && height > 0 {
                        self.generation = self.generation + 1;
                        self.bind_generation = self.generation;
                        self.texture_width = width;
                        self.texture_height = height;
                        Some(pixels)
                    } else {
                        None
                    }
                },
                None => None,
            }
        } else {
            None
        }
    }

    /// Load the pending image from its byte stream: decode it and swap
    /// the texture generation if the decode succeeds; keep the previous
    /// generation bound if it fails.  A pending reference is consumed at
    /// most once — with no new pending reference nothing is decoded.
    pub fn load_texture(&mut self, bytes: &[u8]) -> (pixels: Option<Vec<u8>>)
        requires
            old(self).wf(),
            old(self).generation < u64::MAX,
        ensures
            final(self).wf(),
            *final(self) == after_install(*old(self), rgba_decode_of(bytes@)),
            ({
                if has_new_pending(*old(self)) && decode_ok(rgba_decode_of(bytes@)) {
                    pixels matches Some(px) && px@ == rgba_decode_of(bytes@)->Some_0.0
                } else {
                    pixels is None
                }
            }),
    {
        let attempt = match &self.pending_path {
            Some(_) => self.pending_seq > self.loaded_seq,
            None => false,
        };
        if attempt {
            let decoded = decode_rgba(bytes);
            self.install_texture(decoded)
        } else {
            self.pending_path = None;
            None
        }
    }

    /// Overwrite the uniform record with this frame's resolution and
    /// transform.  In-place: no other part of the cache entry moves.
    pub fn update_uniforms(
        &mut self,
        resolution_width: u32,
        resolution_height: u32,
        t: &Transform,
    )
        requires
            old(self).wf(),
            t.wf(),
        ensures
            final(self).wf(),
            final(self).uniform == (UniformRecord {
                resolution_width,
                resolution_height,
                center_x: t.center_x,
                center_y: t.center_y,
                scale: scale_of(t.zoom_fifths as int) as i64,
            }),
            final(self).texture_width == old(self).texture_width,
            final(self).texture_height == old(self).texture_height,
            final(self).generation == old(self).generation,
            final(self).bind_generation == old(self).bind_generation,
            final(self).pending_path == old(self).pending_path,
            final(self).pending_seq == old(self).pending_seq,
            final(self).loaded_seq == old(self).loaded_seq,
    {
        let s = t.scale();
        self.uniform = UniformRecord {
            resolution_width,
            resolution_height,
            center_x: t.center_x,
            center_y: t.center_y,
            scale: s,
        };
    }

    /// Describe one render submission into the given clip rectangle: a
    /// clearing pass (this cache owns its surface) that draws the six
    /// quad vertices once with the current generation's bind set.
    pub fn render(&self, clip_bounds: ClipRect) -> (plan: DrawPlan)
        requires
            self.wf(),
        ensures
            plan.clears,
            plan.scissor == clip_bounds,
            plan.bind_generation == self.generation,
            plan.first_vertex == 0,
            plan.vertex_count == 6,
            plan.instance_count == 1,
    {
        DrawPlan {
            clears: true,
            scissor: clip_bounds,
            bind_generation: self.bind_generation,
            first_vertex: 0,
            vertex_count: 6,
            instance_count: 1,
        }
    }
}

/// The view of an already-decoded result, as the specs speak of it.
pub open spec fn decoded_view(d: Option<(Vec<u8>, u32, u32)>) -> Option<(Seq<u8>, u32, u32)> {
    match d {
        Some(t) => Some((t.0@, t.1, t.2)),
        None => None,
    }
}

/// The per-surface storage slot that keeps the cache entry alive between
/// frames; empty until the first frame needs it.
pub struct Storage {
    pub pipeline: Option<Pipeline>,
}

impl Storage {
    /// An empty slot.
    pub fn new() -> (s: Storage)
        ensures
            s.pipeline is None,
    {
        Storage { pipeline: None }
    }

    /// Create the cache entry on first use; idempotent, so the entry is
    /// constructed exactly once per slot and later calls change nothing.
    pub fn ensure_initialized(&mut self)
        ensures
            final(self).pipeline == if old(self).pipeline is Some {
                old(self).pipeline
            } else {
                Some(fresh_pipeline())
            },
    {
        if self.pipeline.is_none() {
            self.pipeline = Some(Pipeline::new());
        }
    }
}

impl Primitive {
    /// The two-phase frame contract, phase one: make sure the cache entry
    /// exists (created exactly once per slot), hand over this frame's
    /// pending image selection, and run a load attempt on its bytes
    /// (which the host read for us).  Returns the pixel buffer to upload
    /// exactly when the texture generation advanced.
    pub fn prepare(&self, storage: &mut Storage, image_bytes: &[u8]) -> (pixels: Option<Vec<u8>>)
        requires
            old(storage).pipeline matches Some(p) ==> p.wf() && p.generation < u64::MAX,
        ensures
            final(storage).pipeline is Some,
            final(storage).pipeline->Some_0.wf(),
            ({
                let p0 = if old(storage).pipeline is Some {
                    old(storage).pipeline->Some_0
                } else {
                    fresh_pipeline()
                };
                match self.image_path {
                    Some(path) => {
                        let p1 = with_pending(p0, path, self.image_seq);
                        &&& final(storage).pipeline->Some_0 == after_install(
                            p1,
                            rgba_decode_of(image_bytes@),
                        )
                        &&& if has_new_pending(p1) && decode_ok(rgba_decode_of(image_bytes@)) {
                            pixels matches Some(px) && px@ == rgba_decode_of(
                                image_bytes@,
                            )->Some_0.0
                        } else {
                            pixels is None
                        }
                    },
                    None => final(storage).pipeline->Some_0 == p0 && pixels is None,
                }
            }),
    {
        storage.ensure_initialized();
        let mut pl: Pipeline = storage.pipeline.take().unwrap();
        let pixels = match &self.image_path {
            Some(path) => {
                pl.set_image_path(path.clone(), self.image_seq);
                pl.load_texture(image_bytes)
            },
            None => None,
        };
        storage.pipeline = Some(pl);
        pixels
    }
}

/// Asset swap: after two successive load attempts whose decodes succeed
/// with different dimensions, the bound texture has the second image's
/// dimensions, the bind set references the second generation, and the
/// first image's generation is no longer referenced by the active bind
/// set.
pub proof fn lemma_asset_swap(
    p: Pipeline,
    path1: String,
    seq1: u64,
    d1: (Seq<u8>, u32, u32),
    path2: String,
    seq2: u64,
    d2: (Seq<u8>, u32, u32),
)
    requires
        p.wf(),
        p.generation + 2 <= u64::MAX,
        seq1 > p.loaded_seq,
        seq2 > seq1,
        d1.1 > 0 && d1.2 > 0,
        d2.1 > 0 && d2.2 > 0,
        d1.1 != d2.1 || d1.2 != d2.2,
    ensures
        ({
            let q1 = after_install(with_pending(p, path1, seq1), Some(d1));
            let q2 = after_install(with_pending(q1, path2, seq2), Some(d2));
            &&& q1.texture_width == d1.1 && q1.texture_height == d1.2
            &&& q2.texture_width == d2.1 && q2.texture_height == d2.2
            &&& q2.bind_generation == q2.generation
            &&& q2.generation != q1.generation
            &&& !(q2.texture_width == d1.1 && q2.texture_height == d1.2)
        }),
{
}

} // verus!
