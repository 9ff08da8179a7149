//! The scene: the long-lived, host-facing state of one viewport, and the
//! immutable per-frame descriptor produced from it.
//!
//! A `Scene` owns the current transform, the interaction mode and the
//! pending image asset reference.  Once per frame the host calls `draw`,
//! which snapshots everything into a `Primitive`; the primitive in turn
//! drives the pipeline cache (see `pipeline`).  Pointer events reach the
//! scene through `handle_event`, which runs the interaction state machine
//! and applies the emitted delta to the transform in the same call.

use vstd::prelude::*;
use crate::transform::{Bounds, Transform, COORD_LIMIT, ZOOM_DEFAULT_FIFTHS, panned, zoomed};
use crate::interaction::{InteractionMode, PointerEvent, TransformDelta, step};

verus! {

/// The transform that results from applying an emitted delta (or none).
pub open spec fn delta_applied(t: Transform, d: Option<TransformDelta>) -> Transform {
    match d {
        None => t,
        Some(TransformDelta::Pan { dx, dy }) => panned(t, dx as int, dy as int),
        Some(TransformDelta::Zoom { cursor_x, cursor_y, bounds, delta_y }) => zoomed(
            t,
            cursor_x as int,
            cursor_y as int,
            bounds,
            delta_y as int,
        ),
    }
}

/// One viewport's long-lived state.
#[derive(Clone, Debug)]
pub struct Scene {
    /// The pending image asset reference, set by the image-selection
    /// collaborator and consumed by the pipeline cache.
    pub image_path: Option<String>,
    /// Counts the image selections, so that one selection is loaded at
    /// most once however many frames see it.
    pub image_seq: u64,
    /// The current viewport transform.
    pub transform: Transform,
    /// The current interaction mode.
    pub mode: InteractionMode,
}

impl Scene {
    /// Transform and mode well-formed.
    pub open spec fn wf(self) -> bool {
        &&& self.transform.wf()
        &&& self.mode.wf()
    }

    /// A fresh scene: no image selected, origin center at the default
    /// zoom, idle.
    pub fn new() -> (s: Scene)
        ensures
            s.image_path is None,
            s.image_seq == 0,
            s.transform == (Transform {
                center_x: 0i64,
                center_y: 0i64,
                zoom_fifths: ZOOM_DEFAULT_FIFTHS,
            }),
            s.mode is Idle,
            s.wf(),
    {
        Scene {
            image_path: None,
            image_seq: 0,
            transform: Transform::start(),
            mode: InteractionMode::Idle,
        }
    }

    /// Select a new image: the pending slot is overwritten and the
    /// selection count advances, so the pipeline cache will load this
    /// selection exactly once.
    pub fn set_image_path(&mut self, path: String)
        requires
            old(self).image_seq < u64::MAX,
        ensures
            final(self).image_path == Some(path),
            final(self).image_seq == old(self).image_seq + 1,
            final(self).transform == old(self).transform,
            final(self).mode == old(self).mode,
    {
        self.image_path = Some(path);
        self.image_seq = self.image_seq + 1;
    }

    /// Snapshot the scene into the per-frame drawing description.  Pure:
    /// the scene itself is untouched, and the primitive is an exact copy
    /// of what the frame needs.
    pub fn draw(&self, _cursor: Option<(i64, i64)>, bounds: Bounds) -> (p: Primitive)
        ensures
            p.bounds == bounds,
            p.transform == self.transform,
            p.image_path == self.image_path,
            p.image_seq == self.image_seq,
    {
        let path = match &self.image_path {
            Some(s) => Some(s.clone()),
            None => None,
        };
        Primitive::new(bounds, self.transform, path, self.image_seq)
    }

    /// Feed one pointer event through the interaction state machine and
    /// apply whatever delta it emits to the transform.  Returns whether
    /// the event was captured by the viewport.
    pub fn handle_event(
        &mut self,
        ev: PointerEvent,
        bounds: Bounds,
        cursor: Option<(i64, i64)>,
    ) -> (captured: bool)
        requires
            old(self).wf(),
            ev.wf(),
            bounds.wf(),
            cursor matches Some(p) ==> -COORD_LIMIT <= p.0 <= COORD_LIMIT && -COORD_LIMIT <= p.1
                <= COORD_LIMIT,
        ensures
            final(self).wf(),
            ({
                let (m2, cap, delta) = step(old(self).mode, ev, bounds, cursor);
                &&& final(self).mode == m2
                &&& captured == cap
                &&& final(self).transform == delta_applied(old(self).transform, delta)
                &&& final(self).image_path == old(self).image_path
                &&& final(self).image_seq == old(self).image_seq
            }),
    {
        let (m2, captured, delta) = crate::interaction::handle_event(
            self.mode,
            ev,
            bounds,
            cursor,
        );
        self.mode = m2;
        match delta {
            None => (),
            Some(TransformDelta::Pan { dx, dy }) => {
                self.transform.apply_pan(dx, dy);
            },
            Some(TransformDelta::Zoom { cursor_x, cursor_y, bounds: zb, delta_y }) => {
                self.transform.apply_zoom(cursor_x, cursor_y, zb, delta_y);
            },
        }
        captured
    }
}

/// The immutable per-frame drawing description: viewport bounds, a
/// transform snapshot, and the pending image reference with its selection
/// count.  Created once per draw call and owned by it.
#[derive(Debug)]
pub struct Primitive {
    pub bounds: Bounds,
    pub transform: Transform,
    pub image_path: Option<String>,
    pub image_seq: u64,
}

impl Primitive {
    /// Package a frame's values.
    pub fn new(
        bounds: Bounds,
        transform: Transform,
        image_path: Option<String>,
        image_seq: u64,
    ) -> (p: Primitive)
        ensures
            p.bounds == bounds,
            p.transform == transform,
            p.image_path == image_path,
            p.image_seq == image_seq,
    {
        Primitive { bounds, transform, image_path, image_seq }
    }
}

} // verus!
