//! Event fan-out of the composition layer: the decision tables that bind
//! each button's events to player operations. The interrupt plumbing that
//! delivers the events lives outside the library; these functions are the
//! decisions it dispatches.

use vstd::prelude::*;

use crate::button::Event;
use crate::player::{spec_next, spec_prev, spec_volume_add, spec_volume_sub, Player};

verus! {

/// The player after one event of the first button: a click steps the volume
/// down by 10, any long-press event eases it down by 1, a double click goes
/// to the previous melody; other events do nothing.
pub open spec fn spec_handle_btn1(p: Player, event: Event) -> Player {
    match event {
        Event::Click => Player { volume: spec_volume_sub(p.volume, 10), ..p },
        Event::LongPressStart => Player { volume: spec_volume_sub(p.volume, 1), ..p },
        Event::LongPressDuring => Player { volume: spec_volume_sub(p.volume, 1), ..p },
        Event::LongPressStop => Player { volume: spec_volume_sub(p.volume, 1), ..p },
        Event::DoubleClick => spec_prev(p),
        Event::MultiClick(_) => p,
    }
}

/// The player after one event of the second button: a click steps the volume
/// up by 10, any long-press event eases it up by 1, a double click goes to
/// the next melody; other events do nothing.
pub open spec fn spec_handle_btn2(p: Player, event: Event) -> Player {
    match event {
        Event::Click => Player { volume: spec_volume_add(p.volume, 10), ..p },
        Event::LongPressStart => Player { volume: spec_volume_add(p.volume, 1), ..p },
        Event::LongPressDuring => Player { volume: spec_volume_add(p.volume, 1), ..p },
        Event::LongPressStop => Player { volume: spec_volume_add(p.volume, 1), ..p },
        Event::DoubleClick => spec_next(p),
        Event::MultiClick(_) => p,
    }
}

/// Applies one event of the first button (volume down / previous melody).
pub fn handle_btn1_event(player: &mut Player, event: Event)
    ensures
        *final(player) == spec_handle_btn1(*old(player), event),
        old(player).wf() ==> final(player).wf(),
{
    match event {
        Event::Click => player.volume_sub(10),
        Event::LongPressStart | Event::LongPressDuring | Event::LongPressStop => player.volume_sub(
            1,
        ),
        Event::DoubleClick => player.prev(),
        Event::MultiClick(_) => {},
    }
}

/// Applies one event of the second button (volume up / next melody).
pub fn handle_btn2_event(player: &mut Player, event: Event)
    ensures
        *final(player) == spec_handle_btn2(*old(player), event),
        old(player).wf() ==> final(player).wf(),
{
    match event {
        Event::Click => player.volume_add(10),
        Event::LongPressStart | Event::LongPressDuring | Event::LongPressStop => player.volume_add(
            1,
        ),
        Event::DoubleClick => player.next(),
        Event::MultiClick(_) => {},
    }
}

} // verus!
