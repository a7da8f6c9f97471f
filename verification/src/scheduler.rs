//! Per-frame orchestration: the dirty-flag-gated dispatch decision and the
//! deferred settings changes discovered during the UI pass.
//!
//! Each frame first consults the views' dirty flags, issues at most one
//! compute dispatch for the main view, and clears the flags only once the
//! dispatch has been decided.  Changes the UI pass discovers (rotate-scene
//! toggle, field weight, field function) are queued and applied after
//! presentation, in that fixed order, each clearing its own pending slot and
//! dirtying the view for the next frame.

use vstd::prelude::*;
use crate::view::{ViewController, Settings, spec_update_settings};

verus! {

/// What the renderer must do this frame.
#[derive(Clone, Copy, PartialEq, Eq, Structural, Debug)]
pub struct DispatchPlan {
    /// Re-run the expensive compute pass of the main view.
    pub dispatch_main: bool,
    /// Re-render the reference view (whenever any view changed).
    pub render_reference: bool,
    /// Submit a command buffer at all.
    pub submit: bool,
}

/// A view with its dirty flag cleared.
pub open spec fn spec_cleared(v: ViewController) -> ViewController {
    ViewController { needs_redraw: false, ..v }
}

/// Decide this frame's dispatches from the dirty flags and clear them: the
/// compute pass runs exactly when the main view is dirty, the reference view
/// re-renders when any view is dirty, and a command buffer is submitted in
/// exactly those cases.
pub fn begin_frame(main: &mut ViewController, reference: &mut ViewController) -> (plan:
    DispatchPlan)
    ensures
        plan.dispatch_main == old(main).needs_redraw,
        plan.render_reference == (old(main).needs_redraw || old(reference).needs_redraw),
        plan.submit == (old(main).needs_redraw || old(reference).needs_redraw),
        *final(main) == spec_cleared(*old(main)),
        *final(reference) == spec_cleared(*old(reference)),
{
    let plan = DispatchPlan {
        dispatch_main: main.needs_redraw,
        render_reference: main.needs_redraw || reference.needs_redraw,
        submit: main.needs_redraw || reference.needs_redraw,
    };
    main.needs_redraw = false;
    reference.needs_redraw = false;
    plan
}

/// The deferred actions gathered during one frame's UI pass.
pub struct FrameScheduler {
    pub pending_rotate_scene: Option<bool>,
    pub pending_field_weight: Option<i64>,
    pub pending_field_function: Option<Vec<u8>>,
}

/// The view after the pending rotate-scene toggle, if one is queued.
pub open spec fn spec_apply_rotate_scene(p: Option<bool>, v: ViewController) -> ViewController {
    match p {
        Some(b) => ViewController { rotate_scene: b, needs_redraw: true, ..v },
        None => v,
    }
}

/// The view after the pending field-weight change, if one is queued; the
/// settings record is rewritten wholesale.
pub open spec fn spec_apply_field_weight(p: Option<i64>, v: ViewController) -> ViewController {
    match p {
        Some(w) => spec_update_settings(v, Settings { field_weight: w, ..v.settings }),
        None => v,
    }
}

impl FrameScheduler {
    /// No deferred work.
    pub fn new() -> (s: FrameScheduler)
        ensures
            s.pending_rotate_scene is None,
            s.pending_field_weight is None,
            s.pending_field_function is None,
    {
        FrameScheduler {
            pending_rotate_scene: None,
            pending_field_weight: None,
            pending_field_function: None,
        }
    }

    /// Queue a rotate-scene toggle for the end of the frame.
    pub fn queue_rotate_scene(&mut self, rotate_scene: bool)
        ensures
            final(self).pending_rotate_scene == Some(rotate_scene),
            final(self).pending_field_weight == old(self).pending_field_weight,
            final(self).pending_field_function == old(self).pending_field_function,
    {
        self.pending_rotate_scene = Some(rotate_scene);
    }

    /// Queue a field-weight change for the end of the frame.
    pub fn queue_field_weight(&mut self, weight: i64)
        ensures
            final(self).pending_field_weight == Some(weight),
            final(self).pending_rotate_scene == old(self).pending_rotate_scene,
            final(self).pending_field_function == old(self).pending_field_function,
    {
        self.pending_field_weight = Some(weight);
    }

    /// Queue a field-function change for the end of the frame.
    pub fn queue_field_function(&mut self, body: Vec<u8>)
        ensures
            final(self).pending_field_function == Some(body),
            final(self).pending_rotate_scene == old(self).pending_rotate_scene,
            final(self).pending_field_weight == old(self).pending_field_weight,
    {
        self.pending_field_function = Some(body);
    }

    /// Apply the deferred actions in their fixed order: rotate-scene toggle,
    /// then field weight, each dirtying the view and clearing its slot.  The
    /// pending field function is handed back for compilation (the shader
    /// swap is the reload coordinator's job); its slot is cleared too.
    pub fn apply_deferred(&mut self, main: &mut ViewController) -> (reload: Option<Vec<u8>>)
        requires
            old(main).wf(),
        ensures
            final(main).wf(),
            final(self).pending_rotate_scene is None,
            final(self).pending_field_weight is None,
            final(self).pending_field_function is None,
            *final(main) == spec_apply_field_weight(
                old(self).pending_field_weight,
                spec_apply_rotate_scene(old(self).pending_rotate_scene, *old(main)),
            ),
            reload == old(self).pending_field_function,
    {
        if let Some(b) = self.pending_rotate_scene {
            main.set_rotate_scene(b);
            self.pending_rotate_scene = None;
        }
        if let Some(w) = self.pending_field_weight {
            let s = Settings { field_weight: w, ..main.settings };
            main.update_settings(s);
            self.pending_field_weight = None;
        }
        self.pending_field_function.take()
    }
}

/// A sequence of settings writes, applied in order.
pub open spec fn apply_settings_seq(v: ViewController, ss: Seq<Settings>) -> ViewController
    decreases ss.len(),
{
    if ss.len() == 0 {
        v
    } else {
        apply_settings_seq(spec_update_settings(v, ss[0]), ss.drop_first())
    }
}

/// Dirty-flag discipline: any non-empty run of settings writes without an
/// intervening frame leaves the dirty flag simply true (dirtying is
/// idempotent), so by the contract of `begin_frame` the next frame issues
/// exactly one compute dispatch for it and clears the flag again.
pub proof fn lemma_dirty_flag_discipline(v: ViewController, ss: Seq<Settings>)
    ensures
        ss.len() > 0 ==> apply_settings_seq(v, ss).needs_redraw == true,
        v.needs_redraw ==> apply_settings_seq(v, ss).needs_redraw == true,
        spec_cleared(apply_settings_seq(v, ss)).needs_redraw == false,
    decreases ss.len(),
{
    if ss.len() > 0 {
        lemma_dirty_flag_discipline(spec_update_settings(v, ss[0]), ss.drop_first());
    }
}

} // verus!
