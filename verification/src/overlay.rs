//! The overlay client's reaction to the window it draws over, and what its
//! panel shows of the voice room.

use vstd::prelude::*;
use vstd::string::StringExecFns;

use crate::text::{decimal, push_decimal};
use crate::voice_state::{ActiveRoom, Participant, RoomState};

verus! {

/// What happened to the target window.
#[derive(Debug, Clone, Copy, PartialEq, Eq, Structural)]
pub enum WindowEvent {
    Added { width: u32, height: u32 },
    Resized { width: u32, height: u32 },
    Destroyed,
    /// Input, which the overlay does not listen to.
    Input,
}

/// What the overlay does about it.
#[derive(Debug, Clone, Copy, PartialEq, Eq, Structural)]
pub enum WindowAction {
    /// Set up a renderer and a surface of this size for the window.
    Open { window_id: u32, width: u32, height: u32 },
    /// Resize the renderer.
    Resize { width: u32, height: u32 },
    /// Drop the renderer and wait for another window.
    Close,
    Ignore,
}

/// A dimension the renderer can take: never zero.
pub open spec fn at_least_one(x: u32) -> u32 {
    if x < 1 {
        1
    } else {
        x
    }
}

/// The action for `event` on window `window_id`, given whether a renderer is
/// set up; sizes of zero are raised to one.
pub open spec fn window_step_spec(window_id: u32, ready: bool, event: WindowEvent) -> WindowAction {
    match event {
        WindowEvent::Added { width, height } => WindowAction::Open {
            window_id,
            width: at_least_one(width),
            height: at_least_one(height),
        },
        WindowEvent::Resized { width, height } => if ready {
            WindowAction::Resize { width: at_least_one(width), height: at_least_one(height) }
        } else {
            WindowAction::Ignore
        },
        WindowEvent::Destroyed => WindowAction::Close,
        WindowEvent::Input => WindowAction::Ignore,
    }
}

fn clamp_one(x: u32) -> (r: u32)
    ensures
        r == at_least_one(x),
{
    if x < 1 {
        1
    } else {
        x
    }
}

/// Decides what to do about a window event.
pub fn window_step(window_id: u32, ready: bool, event: WindowEvent) -> (r: WindowAction)
    ensures
        r == window_step_spec(window_id, ready, event),
{
    match event {
        WindowEvent::Added { width, height } => WindowAction::Open {
            window_id,
            width: clamp_one(width),
            height: clamp_one(height),
        },
        WindowEvent::Resized { width, height } => {
            if ready {
                WindowAction::Resize { width: clamp_one(width), height: clamp_one(height) }
            } else {
                WindowAction::Ignore
            }
        },
        WindowEvent::Destroyed => WindowAction::Close,
        WindowEvent::Input => WindowAction::Ignore,
    }
}

/// The status dot of a participant: speaking outshines muted.
#[derive(Debug, Clone, Copy, PartialEq, Eq, Structural)]
pub enum DotStatus {
    Speaking,
    Muted,
    Quiet,
}

/// The dot shown for `p`.
pub open spec fn dot_status(p: Participant) -> DotStatus {
    if p.speaking {
        DotStatus::Speaking
    } else if p.muted {
        DotStatus::Muted
    } else {
        DotStatus::Quiet
    }
}

/// One row of the panel: a participant's dot and name.
#[derive(Debug, Clone)]
pub struct ParticipantRow {
    pub status: DotStatus,
    pub display_name: String,
}

/// What the panel shows: a placeholder outside a room, else the room's
/// header and one row per participant in join order.
#[derive(Debug, Clone)]
pub enum PanelView {
    Idle { title: String, subtitle: String },
    Room { title: String, subtitle: String, rows: Vec<ParticipantRow> },
}

/// The row shown for `p`.
pub fn participant_row(p: &Participant) -> (r: ParticipantRow)
    ensures
        r.status == dot_status(*p),
        r.display_name == p.display_name,
{
    let status = if p.speaking {
        DotStatus::Speaking
    } else if p.muted {
        DotStatus::Muted
    } else {
        DotStatus::Quiet
    };
    ParticipantRow { status, display_name: p.display_name.clone() }
}

/// The panel outside a room.
pub fn idle_view() -> (r: PanelView)
    ensures
        shows_idle(r),
{
    PanelView::Idle {
        title: String::from_str("Hermes"),
        subtitle: String::from_str("not in a voice room"),
    }
}

/// `v` shows `room`: its name as `# name`, the head count as `n in call`,
/// and a row per participant in join order.
pub open spec fn shows_room(v: PanelView, room: ActiveRoom) -> bool {
    v matches PanelView::Room { title, subtitle, rows } && title@ == "# "@ + room.name@
        && subtitle@ == decimal(room.participants@.len()) + " in call"@ && rows@.len()
        == room.participants@.len() && forall|i: int|
        0 <= i < rows@.len() ==> (#[trigger] rows@[i]).status == dot_status(room.participants@[i])
            && rows@[i].display_name == room.participants@[i].display_name
}

/// `v` is the panel outside a room.
pub open spec fn shows_idle(v: PanelView) -> bool {
    v matches PanelView::Idle { title, subtitle } && title@ == "Hermes"@ && subtitle@
        == "not in a voice room"@
}

/// The panel inside `room`.
pub fn room_view(room: &ActiveRoom) -> (r: PanelView)
    ensures
        shows_room(r, *room),
{
    let mut title = String::from_str("# ");
    title.append(room.name.as_str());
    let mut subtitle = String::new();
    push_decimal(&mut subtitle, room.participants.len());
    subtitle.append(" in call");
    let mut rows: Vec<ParticipantRow> = Vec::new();
    let mut i: usize = 0;
    while i < room.participants.len()
        invariant
            0 <= i <= room.participants@.len(),
            rows@.len() == i,
            forall|k: int|
                0 <= k < i ==> (#[trigger] rows@[k]).status == dot_status(room.participants@[k])
                    && rows@[k].display_name == room.participants@[k].display_name,
        decreases room.participants.len() - i,
    {
        rows.push(participant_row(&room.participants[i]));
        i = i + 1;
    }
    PanelView::Room { title, subtitle, rows }
}

/// What the panel shows of the room state.
pub fn view(state: &RoomState) -> (r: PanelView)
    ensures
        match state.active_room {
            Some(room) => shows_room(r, room),
            None => shows_idle(r),
        },
{
    match &state.active_room {
        Some(room) => room_view(room),
        None => idle_view(),
    }
}

} // verus!
