//! The frame driver: one atomic loop iteration — poll the quit signal,
//! advance the simulation, and project every star, in logical
//! farthest-to-nearest order, into the preallocated scratch buffer.

use vstd::prelude::*;

use crate::conf::Config;
use crate::events::any_quit;
use crate::events::process_events;
use crate::events::DriverState;
use crate::events::WindowEvent;
use crate::project::projects;
use crate::project::update_geometry;
use crate::project::MAX_CENTER;
use crate::star::StarVertex;
use crate::star::Vec2;
use crate::store::StarField;

verus! {

/// Preallocates the per-frame vertex scratch buffer, one zeroed slot per
/// star; the driver reuses it every frame instead of allocating.
pub fn new_scratch(count: usize) -> (scratch: Vec<StarVertex>)
    ensures
        scratch@.len() == count,
{
    let mut scratch: Vec<StarVertex> = Vec::new();
    let mut i: usize = 0;
    while i < count
        invariant
            i <= count,
            scratch@.len() == i,
        decreases count - i,
    {
        scratch.push(StarVertex::default());
        i = i + 1;
    }
    scratch
}

/// One frame of the driver loop. Polls the quit signal first: if the driver
/// stops, nothing else happens this frame. Otherwise every star advances
/// one step (recycling at the near plane) and the scratch buffer is filled
/// with the projection of the stars in logical order — slot `i` holds the
/// star at physical slot `(i + first) % count`, so the batch is drawn
/// farthest to nearest. Returns whether the driver is still running.
pub fn step_frame(
    state: &mut DriverState,
    field: &mut StarField,
    cfg: &Config,
    events: &Vec<WindowEvent>,
    center: Vec2,
    scratch: &mut Vec<StarVertex>,
) -> (running: bool)
    requires
        cfg.wf(),
        old(field).wf(*cfg),
        old(scratch)@.len() == old(field).stars@.len(),
        -MAX_CENTER <= center.x <= MAX_CENTER,
        -MAX_CENTER <= center.y <= MAX_CENTER,
    ensures
        running == (*final(state) is Running),
        *final(state) is Stopped <==> (*old(state) is Stopped || any_quit(events@)),
        final(field).wf(*cfg),
        final(scratch)@.len() == old(scratch)@.len(),
        *final(state) is Stopped ==> *final(field) == *old(field) && *final(scratch)
            == *old(scratch),
        *final(state) is Running ==> crate::store::advanced(*cfg, *old(field), *final(field)),
        *final(state) is Running ==> forall|i: int|
            0 <= i < final(field).stars@.len() ==> projects(
                #[trigger] final(scratch)@[i],
                *cfg,
                final(field).stars@[(i + final(field).first as int) % (
                final(field).stars@.len() as int)],
                center,
            ),
{
    process_events(state, events);
    let running = match state {
        DriverState::Running => true,
        DriverState::Stopped => false,
    };
    if !running {
        return false;
    }
    field.advance(cfg);
    let n = field.stars.len();
    let mut i: usize = 0;
    while i < n
        invariant
            cfg.wf(),
            field.wf(*cfg),
            n == field.stars@.len(),
            scratch@.len() == n,
            i <= n,
            -MAX_CENTER <= center.x <= MAX_CENTER,
            -MAX_CENTER <= center.y <= MAX_CENTER,
            forall|k: int|
                0 <= k < i ==> projects(
                    #[trigger] scratch@[k],
                    *cfg,
                    field.stars@[(k + field.first as int) % (n as int)],
                    center,
                ),
        decreases n - i,
    {
        let idx = field.logical_index(i);
        let star = field.stars[idx];
        let mut vertex = StarVertex::default();
        update_geometry(&star, cfg, center, &mut vertex);
        scratch.set(i, vertex);
        i = i + 1;
    }
    true
}

} // verus!
