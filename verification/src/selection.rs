use vstd::prelude::*;

use crate::status::Status;
use crate::status::reflect_columns;
use crate::status::reflect_rows;

verus! {

/// Which of the small squares drawn on the selection contain the pointer,
/// and whether the selection itself does.
#[derive(PartialEq, Eq, Structural, Debug, Clone, Copy)]
pub struct HandleHits {
    pub top_left: bool,
    pub top_mid: bool,
    pub top_right: bool,
    pub mid_left: bool,
    pub mid_right: bool,
    pub bot_left: bool,
    pub bot_mid: bool,
    pub bot_right: bool,
    pub inside: bool,
}

impl HandleHits {
    /// The pointer is over the place that belongs to `s`: the handle's square
    /// for a handle, the selection for `Move`; no other status has a place.
    pub open spec fn over(self, s: Status) -> bool {
        match s {
            Status::TopLeft => self.top_left,
            Status::TopMid => self.top_mid,
            Status::TopRight => self.top_right,
            Status::MidLeft => self.mid_left,
            Status::MidRight => self.mid_right,
            Status::BotLeft => self.bot_left,
            Status::BotMid => self.bot_mid,
            Status::BotRight => self.bot_right,
            Status::Move => self.inside,
            _ => false,
        }
    }
}

/// The order in which the places are tried when the pointer is over several:
/// the middle handles first (top, left, right, bottom), then the corners
/// (top left, top right, bottom left, bottom right), then the selection.
/// Statuses that name no place have no rank.
pub open spec fn pick_rank(s: Status) -> int {
    match s {
        Status::TopMid => 0,
        Status::MidLeft => 1,
        Status::MidRight => 2,
        Status::BotMid => 3,
        Status::TopLeft => 4,
        Status::TopRight => 5,
        Status::BotLeft => 6,
        Status::BotRight => 7,
        Status::Move => 8,
        _ => -1,
    }
}

/// A place claims the pointer when the pointer is over it, or when the drag
/// under way already belongs to it.
pub open spec fn claims(current: Status, hits: HandleHits, s: Status) -> bool {
    pick_rank(s) >= 0 && (hits.over(s) || current == s)
}

/// The status the pointer asks for: among the places that claim it, the one
/// tried first; `Idle` when none does.
pub fn hovered_status(current: Status, hits: HandleHits) -> (r: Status)
    ensures
        r == Status::Idle || claims(current, hits, r),
        forall|s: Status| #[trigger]
            claims(current, hits, s) ==> r != Status::Idle && pick_rank(r) <= pick_rank(s),
        r == hovered_status_spec(current, hits),
{
    if hits.top_mid || current == Status::TopMid {
        Status::TopMid
    } else if hits.mid_left || current == Status::MidLeft {
        Status::MidLeft
    } else if hits.mid_right || current == Status::MidRight {
        Status::MidRight
    } else if hits.bot_mid || current == Status::BotMid {
        Status::BotMid
    } else if hits.top_left || current == Status::TopLeft {
        Status::TopLeft
    } else if hits.top_right || current == Status::TopRight {
        Status::TopRight
    } else if hits.bot_left || current == Status::BotLeft {
        Status::BotLeft
    } else if hits.bot_right || current == Status::BotRight {
        Status::BotRight
    } else if hits.inside || current == Status::Move {
        Status::Move
    } else {
        Status::Idle
    }
}

/// The pointer shapes the selection shows.
#[derive(PartialEq, Eq, Structural, Debug, Clone, Copy)]
pub enum Cursor {
    ResizeVertical,
    ResizeHorizontal,
    ResizeNwSe,
    ResizeNeSw,
    Grab,
    Grabbing,
    Crosshair,
}

/// The pointer shape that announces a status: a resize arrow along the
/// direction in which the handle moves (up and down for the middle of the top
/// and bottom sides, left and right for the middle of the left and right
/// sides, along the diagonal through the handle for a corner), an open hand
/// for moving, and no change for a status that drags nothing.
pub open spec fn announced_cursor(s: Status) -> Option<Cursor> {
    if s.is_handle() {
        if s.column() == 0 {
            Some(Cursor::ResizeVertical)
        } else if s.row() == 0 {
            Some(Cursor::ResizeHorizontal)
        } else if s.column() == s.row() {
            Some(Cursor::ResizeNwSe)
        } else {
            Some(Cursor::ResizeNeSw)
        }
    } else if s == Status::Move {
        Some(Cursor::Grab)
    } else {
        None
    }
}

/// The pointer shape that announces `s` (see `announced_cursor`).
pub fn cursor_for(s: Status) -> (r: Option<Cursor>)
    ensures
        r == announced_cursor(s),
{
    match s {
        Status::TopMid | Status::BotMid => Some(Cursor::ResizeVertical),
        Status::MidLeft | Status::MidRight => Some(Cursor::ResizeHorizontal),
        Status::TopLeft | Status::BotRight => Some(Cursor::ResizeNwSe),
        Status::TopRight | Status::BotLeft => Some(Cursor::ResizeNeSw),
        Status::Move => Some(Cursor::Grab),
        _ => None,
    }
}

/// What one frame does with the grab handles of an existing selection.
#[derive(PartialEq, Eq, Structural, Debug, Clone, Copy)]
pub struct ScalePlan {
    /// Draw the eight handle squares.
    pub draw_handles: bool,
    /// Pointer shape to show, if it changes.
    pub cursor: Option<Cursor>,
    /// Status to hand to the area update, if one runs this frame.
    pub update: Option<Status>,
}

/// The decisions of one frame over an existing selection, given the status
/// and, when the pointer is over the window, what it is over. While a new
/// selection is being drawn nothing happens. Otherwise the handles are drawn
/// unless the selection is being moved; without a pointer the cursor becomes
/// a crosshair; with one, the status the pointer asks for is announced by the
/// cursor and, unless it is `Idle`, handed to the area update.
pub fn plan_scale(status: Status, pointer: Option<HandleHits>) -> (r: ScalePlan)
    ensures
        r == plan_scale_spec(status, pointer),
        status == Status::Select ==> r == (ScalePlan { draw_handles: false, cursor: None, update: None }),
        status != Status::Select ==> r.draw_handles == (status != Status::Move),
        status != Status::Select ==> match pointer {
            None => r.cursor == Some(Cursor::Crosshair) && r.update.is_none(),
            Some(hits) => {
                let h = hovered_status_spec(status, hits);
                &&& r.cursor == announced_cursor(h)
                &&& r.update == (if h == Status::Idle {
                    None
                } else {
                    Some(h)
                })
            },
        },
{
    if status == Status::Select {
        return ScalePlan { draw_handles: false, cursor: None, update: None };
    }
    let draw_handles = status != Status::Move;
    match pointer {
        Some(hits) => {
            let h = hovered_status(status, hits);
            let cursor = cursor_for(h);
            let update = if h == Status::Idle {
                None
            } else {
                Some(h)
            };
            ScalePlan { draw_handles, cursor, update }
        },
        None => ScalePlan { draw_handles, cursor: Some(Cursor::Crosshair), update: None },
    }
}

/// What `plan_scale` decides, as a function of its arguments.
pub open spec fn plan_scale_spec(status: Status, pointer: Option<HandleHits>) -> ScalePlan {
    if status == Status::Select {
        ScalePlan { draw_handles: false, cursor: None, update: None }
    } else {
        match pointer {
            None => ScalePlan {
                draw_handles: status != Status::Move,
                cursor: Some(Cursor::Crosshair),
                update: None,
            },
            Some(hits) => {
                let h = hovered_status_spec(status, hits);
                ScalePlan {
                    draw_handles: status != Status::Move,
                    cursor: announced_cursor(h),
                    update: if h == Status::Idle {
                        None
                    } else {
                        Some(h)
                    },
                }
            },
        }
    }
}

/// The status the pointer asks for (see `hovered_status`), as a function.
pub open spec fn hovered_status_spec(current: Status, hits: HandleHits) -> Status {
    if claims(current, hits, Status::TopMid) {
        Status::TopMid
    } else if claims(current, hits, Status::MidLeft) {
        Status::MidLeft
    } else if claims(current, hits, Status::MidRight) {
        Status::MidRight
    } else if claims(current, hits, Status::BotMid) {
        Status::BotMid
    } else if claims(current, hits, Status::TopLeft) {
        Status::TopLeft
    } else if claims(current, hits, Status::TopRight) {
        Status::TopRight
    } else if claims(current, hits, Status::BotLeft) {
        Status::BotLeft
    } else if claims(current, hits, Status::BotRight) {
        Status::BotRight
    } else if claims(current, hits, Status::Move) {
        Status::Move
    } else {
        Status::Idle
    }
}

/// The status the pointer asks for is the place tried first among those
/// that claim it, and `Idle` exactly when none claims it.
pub proof fn law_hovered_is_first_claim(current: Status, hits: HandleHits)
    ensures
        ({
            let r = hovered_status_spec(current, hits);
            &&& r == Status::Idle <==> (forall|s: Status| !#[trigger] claims(current, hits, s))
            &&& r != Status::Idle ==> claims(current, hits, r)
            &&& forall|s: Status| #[trigger] claims(current, hits, s) ==> pick_rank(r) <= pick_rank(s)
        }),
{
    let r = hovered_status_spec(current, hits);
    if r == Status::Idle {
        assert forall|s: Status| !#[trigger] claims(current, hits, s) by {
            assert(pick_rank(s) >= 0 ==> !hits.over(s) && current != s);
        }
    }
}

/// What a frame over an existing selection decides: nothing while a new
/// selection is drawn; otherwise the handles are drawn unless it is being
/// moved, a missing pointer shows the crosshair and updates nothing, and a
/// pointer hands the status it asks for to the area update (unless `Idle`)
/// and shows the cursor that announces it.
pub proof fn law_scale_plan(status: Status, pointer: Option<HandleHits>)
    ensures
        ({
            let r = plan_scale_spec(status, pointer);
            &&& status == Status::Select ==> !r.draw_handles && r.cursor is None && r.update is None
            &&& status != Status::Select ==> r.draw_handles == (status != Status::Move)
            &&& status != Status::Select && pointer is None ==> r.cursor == Some(Cursor::Crosshair)
                && r.update is None
            &&& status != Status::Select && pointer is Some ==> r.cursor == announced_cursor(
                hovered_status_spec(status, pointer->0),
            ) && (r.update is Some <==> hovered_status_spec(status, pointer->0) != Status::Idle)
                && (r.update is Some ==> r.update->0 == hovered_status_spec(status, pointer->0))
        }),
{
}

/// The cursor reads the handle's direction: the middle of the top and bottom
/// sides move up and down, the middle of the left and right sides move left
/// and right, the top-left and bottom-right corners along the north-west to
/// south-east diagonal, the two other corners along the other diagonal; the
/// selection itself shows an open hand and the other statuses no cursor.
/// Turning the selection half round keeps each cursor, and mirroring it left
/// to right exchanges the two diagonals.
pub proof fn law_cursor_follows_direction(s: Status)
    ensures
        s.is_handle() && s.column() == 0 ==> announced_cursor(s) == Some(Cursor::ResizeVertical),
        s.is_handle() && s.row() == 0 ==> announced_cursor(s) == Some(Cursor::ResizeHorizontal),
        s.is_handle() && s.column() != 0 && s.column() == s.row() ==> announced_cursor(s) == Some(
            Cursor::ResizeNwSe,
        ),
        s.is_handle() && s.column() != 0 && s.column() == -s.row() ==> announced_cursor(s) == Some(
            Cursor::ResizeNeSw,
        ),
        s == Status::Move ==> announced_cursor(s) == Some(Cursor::Grab),
        s == Status::Idle || s == Status::Select ==> announced_cursor(s) is None,
        announced_cursor(reflect_rows(reflect_columns(s))) == announced_cursor(s),
        s.is_handle() && s.column() != 0 && s.row() != 0 ==> announced_cursor(reflect_columns(s))
            != announced_cursor(s),
{
}

/// Every handle drags at least one side and never two opposite sides; the
/// other statuses drag none.
pub proof fn law_handles_drag_their_sides(s: Status)
    ensures
        s.is_handle() ==> edges_of(s).left || edges_of(s).right || edges_of(s).top || edges_of(
            s,
        ).bottom,
        !(edges_of(s).left && edges_of(s).right),
        !(edges_of(s).top && edges_of(s).bottom),
        !s.is_handle() ==> !edges_of(s).left && !edges_of(s).right && !edges_of(s).top
            && !edges_of(s).bottom,
        s.is_handle() && s.column() == 0 ==> !edges_of(s).left && !edges_of(s).right,
        s.is_handle() && s.row() == 0 ==> !edges_of(s).top && !edges_of(s).bottom,
{
}

/// A drag under way is never dropped by the pointer leaving its handle: when
/// the status is a handle or `Move`, the pointer asks for a status other than
/// `Idle`, and when it is over no place at all it asks for the same status.
pub proof fn law_drag_is_sticky(current: Status, hits: HandleHits)
    requires
        current.is_handle() || current == Status::Move,
    ensures
        hovered_status_spec(current, hits) != Status::Idle,
        (forall|s: Status| !#[trigger] hits.over(s)) ==> hovered_status_spec(current, hits)
            == current,
{
    if forall|s: Status| !#[trigger] hits.over(s) {
        assert(!hits.over(Status::TopMid) && !hits.over(Status::MidLeft) && !hits.over(
            Status::MidRight,
        ) && !hits.over(Status::BotMid) && !hits.over(Status::TopLeft) && !hits.over(
            Status::TopRight,
        ) && !hits.over(Status::BotLeft) && !hits.over(Status::BotRight) && !hits.over(
            Status::Move,
        ));
    }
}

/// Which sides of the selection follow the pointer.
#[derive(PartialEq, Eq, Structural, Debug, Clone, Copy)]
pub struct Edges {
    pub left: bool,
    pub top: bool,
    pub right: bool,
    pub bottom: bool,
}

/// The sides a status drags: a handle drags the side of its column (left or
/// right) and the side of its row (top or bottom); the middle of a side drags
/// that side only; a status that is no handle drags none.
pub open spec fn edges_of(s: Status) -> Edges {
    Edges {
        left: s.is_handle() && s.column() == -1,
        top: s.is_handle() && s.row() == -1,
        right: s.is_handle() && s.column() == 1,
        bottom: s.is_handle() && s.row() == 1,
    }
}

/// The sides that the status drags (see `edges_of`).
pub fn dragged_edges(s: Status) -> (r: Edges)
    ensures
        r == edges_of(s),
{
    match s {
        Status::TopLeft => Edges { left: true, top: true, right: false, bottom: false },
        Status::TopMid => Edges { left: false, top: true, right: false, bottom: false },
        Status::TopRight => Edges { left: false, top: true, right: true, bottom: false },
        Status::MidLeft => Edges { left: true, top: false, right: false, bottom: false },
        Status::MidRight => Edges { left: false, top: false, right: true, bottom: false },
        Status::BotLeft => Edges { left: true, top: false, right: false, bottom: true },
        Status::BotMid => Edges { left: false, top: false, right: false, bottom: true },
        Status::BotRight => Edges { left: false, top: false, right: true, bottom: true },
        _ => Edges { left: false, top: false, right: false, bottom: false },
    }
}

/// Reflecting a handle left to right exchanges the left and right sides it
/// drags, and reflecting it top to bottom exchanges the top and bottom ones;
/// so after the corners were put back in order the corrected status keeps
/// dragging the side that is under the pointer.
pub proof fn law_reflection_exchanges_edges(s: Status)
    ensures
        edges_of(reflect_columns(s)) == (Edges {
            left: edges_of(s).right,
            top: edges_of(s).top,
            right: edges_of(s).left,
            bottom: edges_of(s).bottom,
        }),
        edges_of(reflect_rows(s)) == (Edges {
            left: edges_of(s).left,
            top: edges_of(s).bottom,
            right: edges_of(s).right,
            bottom: edges_of(s).top,
        }),
{
}

/// What the area update does with the selection this frame.
#[derive(PartialEq, Eq, Structural, Debug, Clone, Copy)]
pub enum AreaUpdate {
    /// Nothing moves this frame.
    Hold,
    /// The given sides follow the pointer (each kept within the image), then
    /// the corners are put back in order within the window.
    Resize(Edges),
    /// The selection follows the pointer as a whole, kept within the image.
    Translate,
    /// The button was released: the drag ends; when it was a move, the offset
    /// between pointer and centre that the move remembered is forgotten.
    Release { forget_offset: bool },
}

/// One step of the area update: the status it leaves and what it does.
///
/// With the button held, a selection at rest takes the status the pointer
/// asked for (a move starts on the next frame; any other status has the
/// corners put back in order at once); a handle drags its sides; a move
/// translates. With the button released the status returns to `Idle`.
/// The area update never runs while a new selection is being drawn with the
/// button held.
pub fn plan_area_update(current: Status, hovered: Status, primary_down: bool) -> (r: (
    Status,
    AreaUpdate,
))
    requires
        primary_down ==> current != Status::Select,
    ensures
        r == plan_area_update_spec(current, hovered, primary_down),
        !primary_down ==> r == (Status::Idle, AreaUpdate::Release { forget_offset: current == Status::Move }),
        primary_down && current == Status::Idle ==> r == (hovered, if hovered == Status::Move {
            AreaUpdate::Hold
        } else {
            AreaUpdate::Resize(edges_of(Status::Idle))
        }),
        primary_down && current.is_handle() ==> r == (current, AreaUpdate::Resize(edges_of(current))),
        primary_down && current == Status::Move ==> r == (Status::Move, AreaUpdate::Translate),
{
    if primary_down {
        match current {
            Status::Idle => {
                if hovered == Status::Move {
                    (hovered, AreaUpdate::Hold)
                } else {
                    (hovered, AreaUpdate::Resize(dragged_edges(Status::Idle)))
                }
            },
            Status::Move => (Status::Move, AreaUpdate::Translate),
            _ => (current, AreaUpdate::Resize(dragged_edges(current))),
        }
    } else {
        (Status::Idle, AreaUpdate::Release { forget_offset: current == Status::Move })
    }
}

/// What `plan_area_update` decides, as a function of its arguments.
pub open spec fn plan_area_update_spec(current: Status, hovered: Status, primary_down: bool) -> (
    Status,
    AreaUpdate,
) {
    if !primary_down {
        (Status::Idle, AreaUpdate::Release { forget_offset: current == Status::Move })
    } else if current == Status::Idle {
        (hovered, if hovered == Status::Move {
            AreaUpdate::Hold
        } else {
            AreaUpdate::Resize(edges_of(Status::Idle))
        })
    } else if current == Status::Move {
        (Status::Move, AreaUpdate::Translate)
    } else {
        (current, AreaUpdate::Resize(edges_of(current)))
    }
}

/// What `plan_select` decides, as a function of its arguments.
pub open spec fn plan_select_spec(current: Status, primary_released: bool, primary_down: bool) -> (
    Status,
    bool,
) {
    if primary_released && current == Status::Select {
        (Status::Idle, false)
    } else if primary_down && (current == Status::Select || current == Status::Idle) {
        (Status::Select, true)
    } else {
        (current, false)
    }
}

/// A drag is carried from frame to frame: while the button is held and the
/// pointer is over no place, a handle asks for itself again and the area
/// update keeps dragging its sides, and a move keeps translating; releasing
/// the button ends it.
pub proof fn law_held_drag_continues(current: Status, hits: HandleHits)
    requires
        current.is_handle() || current == Status::Move,
        forall|s: Status| !#[trigger] hits.over(s),
    ensures
        plan_scale_spec(current, Some(hits)).update == Some(current),
        current.is_handle() ==> plan_area_update_spec(current, current, true) == (
            current,
            AreaUpdate::Resize(edges_of(current)),
        ),
        current == Status::Move ==> plan_area_update_spec(current, current, true) == (
            current,
            AreaUpdate::Translate,
        ),
        plan_area_update_spec(current, current, false).0 == Status::Idle,
{
    law_drag_is_sticky(current, hits);
}

/// The area update, step by step: a release ends every drag (forgetting
/// the move offset only after a move); with the button held, a selection at
/// rest takes the hovered status (a move waits for the next frame, anything
/// else has its corners put back in order with no side moved), a handle
/// keeps its status and drags its own sides, and a move keeps translating.
pub proof fn law_area_update_steps(current: Status, hovered: Status, primary_down: bool)
    requires
        primary_down ==> current != Status::Select,
    ensures
        ({
            let (s, u) = plan_area_update_spec(current, hovered, primary_down);
            &&& !primary_down ==> s == Status::Idle && u == AreaUpdate::Release {
                forget_offset: current == Status::Move,
            }
            &&& primary_down && current == Status::Idle ==> s == hovered && (u == AreaUpdate::Hold
                <==> hovered == Status::Move)
            &&& primary_down && current == Status::Idle && hovered != Status::Move ==> u
                == AreaUpdate::Resize(Edges { left: false, top: false, right: false, bottom: false })
            &&& primary_down && current.is_handle() ==> s == current && u == AreaUpdate::Resize(
                edges_of(current),
            )
            &&& primary_down && current == Status::Move ==> s == Status::Move && u
                == AreaUpdate::Translate
        }),
{
}

/// Drawing a new selection: a release ends it, a press on a selection at
/// rest (or one being drawn) draws it, and nothing else changes the status.
pub proof fn law_select_steps(current: Status, primary_released: bool, primary_down: bool)
    ensures
        ({
            let (s, redraw) = plan_select_spec(current, primary_released, primary_down);
            &&& primary_released && current == Status::Select ==> s == Status::Idle && !redraw
            &&& redraw <==> (!(primary_released && current == Status::Select) && primary_down && (
            current == Status::Select || current == Status::Idle))
            &&& redraw ==> s == Status::Select
            &&& !redraw && !(primary_released && current == Status::Select) ==> s == current
        }),
{
}

/// The grab looks at every place the pointer is near and keeps the last in
/// order, so a corner beats a side; near nothing, the status stays.
pub proof fn law_grab_takes_last_near(current: Status, grabs: Grabs)
    ensures
        ({
            let r = grabbed_status_spec(current, grabs);
            &&& (forall|s: Status| !#[trigger] grabs.near(s)) ==> r == current
            &&& (exists|s: Status| #[trigger] grabs.near(s)) ==> grabs.near(r) && forall|s: Status|
                #[trigger] grabs.near(s) ==> grab_rank(s) <= grab_rank(r)
        }),
{
    if forall|t: Status| !#[trigger] grabs.near(t) {
        assert(!grabs.near(Status::MidLeft) && !grabs.near(Status::MidRight) && !grabs.near(
            Status::TopMid,
        ) && !grabs.near(Status::BotMid) && !grabs.near(Status::BotRight) && !grabs.near(
            Status::TopRight,
        ) && !grabs.near(Status::TopLeft) && !grabs.near(Status::BotLeft));
    }
}

/// One step of drawing a new selection: a release ends the drawing, a press
/// on a selection at rest (or one being drawn) keeps drawing it. Returns the
/// new status and whether the area is to be redrawn from the press origin to
/// the pointer.
pub fn plan_select(current: Status, primary_released: bool, primary_down: bool) -> (r: (
    Status,
    bool,
))
    ensures
        r == plan_select_spec(current, primary_released, primary_down),
        primary_released && current == Status::Select ==> r == (Status::Idle, false),
        !(primary_released && current == Status::Select) && primary_down && (current
            == Status::Select || current == Status::Idle) ==> r == (Status::Select, true),
        !(primary_released && current == Status::Select) && !(primary_down && (current
            == Status::Select || current == Status::Idle)) ==> r == (current, false),
{
    if primary_released && current == Status::Select {
        (Status::Idle, false)
    } else if primary_down && (current == Status::Select || current == Status::Idle) {
        (Status::Select, true)
    } else {
        (current, false)
    }
}

/// Where the pointer is within grab distance of the selection: of each side,
/// and of each corner.
#[derive(PartialEq, Eq, Structural, Debug, Clone, Copy)]
pub struct Grabs {
    pub left: bool,
    pub right: bool,
    pub top: bool,
    pub bottom: bool,
    pub bot_right: bool,
    pub top_right: bool,
    pub top_left: bool,
    pub bot_left: bool,
}

/// The order in which grabs are taken: each later one overrides an earlier
/// one, so the corners win over the sides.
pub open spec fn grab_rank(s: Status) -> int {
    match s {
        Status::MidLeft => 0,
        Status::MidRight => 1,
        Status::TopMid => 2,
        Status::BotMid => 3,
        Status::BotRight => 4,
        Status::TopRight => 5,
        Status::TopLeft => 6,
        Status::BotLeft => 7,
        _ => -1,
    }
}

impl Grabs {
    /// The pointer is within grab distance of the place of handle `s`.
    pub open spec fn near(self, s: Status) -> bool {
        match s {
            Status::MidLeft => self.left,
            Status::MidRight => self.right,
            Status::TopMid => self.top,
            Status::BotMid => self.bottom,
            Status::BotRight => self.bot_right,
            Status::TopRight => self.top_right,
            Status::TopLeft => self.top_left,
            Status::BotLeft => self.bot_left,
            _ => false,
        }
    }
}

/// What `grabbed_status` returns, as a function of its arguments.
pub open spec fn grabbed_status_spec(current: Status, grabs: Grabs) -> Status {
    if grabs.bot_left {
        Status::BotLeft
    } else if grabs.top_left {
        Status::TopLeft
    } else if grabs.top_right {
        Status::TopRight
    } else if grabs.bot_right {
        Status::BotRight
    } else if grabs.bottom {
        Status::BotMid
    } else if grabs.top {
        Status::TopMid
    } else if grabs.right {
        Status::MidRight
    } else if grabs.left {
        Status::MidLeft
    } else {
        current
    }
}

/// The status after looking at which places the pointer is near: the one
/// taken last among those it is near, or the current status when it is near
/// none.
pub fn grabbed_status(current: Status, grabs: Grabs) -> (r: Status)
    ensures
        r == grabbed_status_spec(current, grabs),
        (forall|s: Status| !#[trigger] grabs.near(s)) ==> r == current,
        (exists|s: Status| #[trigger] grabs.near(s)) ==> grabs.near(r) && forall|s: Status| #[trigger]
            grabs.near(s) ==> grab_rank(s) <= grab_rank(r),
{
    let mut s = current;
    if grabs.left {
        s = Status::MidLeft;
    }
    if grabs.right {
        s = Status::MidRight;
    }
    if grabs.top {
        s = Status::TopMid;
    }
    if grabs.bottom {
        s = Status::BotMid;
    }
    if grabs.bot_right {
        s = Status::BotRight;
    }
    if grabs.top_right {
        s = Status::TopRight;
    }
    if grabs.top_left {
        s = Status::TopLeft;
    }
    if grabs.bot_left {
        s = Status::BotLeft;
    }
    proof {
        if forall|t: Status| !#[trigger] grabs.near(t) {
            assert(!grabs.near(Status::MidLeft) && !grabs.near(Status::MidRight) && !grabs.near(
                Status::TopMid,
            ) && !grabs.near(Status::BotMid) && !grabs.near(Status::BotRight) && !grabs.near(
                Status::TopRight,
            ) && !grabs.near(Status::TopLeft) && !grabs.near(Status::BotLeft));
        }
    }
    s
}

} // verus!
