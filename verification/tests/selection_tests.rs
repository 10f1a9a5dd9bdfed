use screen_capture::selection::cursor_for;
use screen_capture::selection::dragged_edges;
use screen_capture::selection::grabbed_status;
use screen_capture::selection::hovered_status;
use screen_capture::selection::plan_area_update;
use screen_capture::selection::plan_scale;
use screen_capture::selection::plan_select;
use screen_capture::selection::AreaUpdate;
use screen_capture::selection::Cursor;
use screen_capture::selection::Edges;
use screen_capture::selection::Grabs;
use screen_capture::selection::HandleHits;
use screen_capture::selection::ScalePlan;
use screen_capture::status::corrected_status;
use screen_capture::status::Status;

fn nothing() -> HandleHits {
    HandleHits {
        top_left: false,
        top_mid: false,
        top_right: false,
        mid_left: false,
        mid_right: false,
        bot_left: false,
        bot_mid: false,
        bot_right: false,
        inside: false,
    }
}

fn no_grab() -> Grabs {
    Grabs {
        left: false,
        right: false,
        top: false,
        bottom: false,
        bot_right: false,
        top_right: false,
        top_left: false,
        bot_left: false,
    }
}

const HANDLES: [Status; 8] = [
    Status::TopLeft,
    Status::TopMid,
    Status::TopRight,
    Status::MidLeft,
    Status::MidRight,
    Status::BotLeft,
    Status::BotMid,
    Status::BotRight,
];

#[test]
fn pointer_over_nothing_asks_for_nothing() {
    assert_eq!(hovered_status(Status::Idle, nothing()), Status::Idle);
}

#[test]
fn pointer_over_a_handle_asks_for_it() {
    let mut h = nothing();
    h.top_left = true;
    assert_eq!(hovered_status(Status::Idle, h), Status::TopLeft);
    let mut h = nothing();
    h.bot_right = true;
    assert_eq!(hovered_status(Status::Idle, h), Status::BotRight);
    let mut h = nothing();
    h.inside = true;
    assert_eq!(hovered_status(Status::Idle, h), Status::Move);
}

#[test]
fn middle_handles_win_over_corners_and_corners_over_the_inside() {
    let mut h = nothing();
    h.top_left = true;
    h.top_mid = true;
    h.inside = true;
    assert_eq!(hovered_status(Status::Idle, h), Status::TopMid);
    let mut h = nothing();
    h.bot_right = true;
    h.inside = true;
    assert_eq!(hovered_status(Status::Idle, h), Status::BotRight);
    let mut h = nothing();
    h.mid_right = true;
    h.bot_mid = true;
    assert_eq!(hovered_status(Status::Idle, h), Status::MidRight);
}

#[test]
fn a_drag_under_way_keeps_its_handle_when_the_pointer_leaves_it() {
    for s in HANDLES {
        assert_eq!(hovered_status(s, nothing()), s);
    }
    assert_eq!(hovered_status(Status::Move, nothing()), Status::Move);
}

#[test]
fn a_drag_under_way_yields_to_an_earlier_handle_under_the_pointer() {
    let mut h = nothing();
    h.top_mid = true;
    assert_eq!(hovered_status(Status::BotRight, h), Status::TopMid);
    let mut h = nothing();
    h.bot_right = true;
    assert_eq!(hovered_status(Status::TopMid, h), Status::TopMid);
}

#[test]
fn cursors_follow_the_direction_of_the_handle() {
    assert_eq!(cursor_for(Status::TopMid), Some(Cursor::ResizeVertical));
    assert_eq!(cursor_for(Status::BotMid), Some(Cursor::ResizeVertical));
    assert_eq!(cursor_for(Status::MidLeft), Some(Cursor::ResizeHorizontal));
    assert_eq!(cursor_for(Status::MidRight), Some(Cursor::ResizeHorizontal));
    assert_eq!(cursor_for(Status::TopLeft), Some(Cursor::ResizeNwSe));
    assert_eq!(cursor_for(Status::BotRight), Some(Cursor::ResizeNwSe));
    assert_eq!(cursor_for(Status::TopRight), Some(Cursor::ResizeNeSw));
    assert_eq!(cursor_for(Status::BotLeft), Some(Cursor::ResizeNeSw));
    assert_eq!(cursor_for(Status::Move), Some(Cursor::Grab));
    assert_eq!(cursor_for(Status::Idle), None);
    assert_eq!(cursor_for(Status::Select), None);
}

#[test]
fn plan_while_drawing_a_selection_does_nothing() {
    let mut h = nothing();
    h.inside = true;
    let none = ScalePlan { draw_handles: false, cursor: None, update: None };
    assert_eq!(plan_scale(Status::Select, Some(h)), none);
    assert_eq!(plan_scale(Status::Select, None), none);
}

#[test]
fn plan_without_pointer_shows_a_crosshair() {
    assert_eq!(
        plan_scale(Status::Idle, None),
        ScalePlan { draw_handles: true, cursor: Some(Cursor::Crosshair), update: None }
    );
    assert_eq!(
        plan_scale(Status::Move, None),
        ScalePlan { draw_handles: false, cursor: Some(Cursor::Crosshair), update: None }
    );
}

#[test]
fn plan_with_pointer_on_a_handle_updates_the_area() {
    let mut h = nothing();
    h.mid_left = true;
    assert_eq!(
        plan_scale(Status::Idle, Some(h)),
        ScalePlan {
            draw_handles: true,
            cursor: Some(Cursor::ResizeHorizontal),
            update: Some(Status::MidLeft)
        }
    );
    assert_eq!(
        plan_scale(Status::Idle, Some(nothing())),
        ScalePlan { draw_handles: true, cursor: None, update: None }
    );
    assert_eq!(
        plan_scale(Status::Move, Some(nothing())),
        ScalePlan { draw_handles: false, cursor: Some(Cursor::Grab), update: Some(Status::Move) }
    );
}

#[test]
fn each_handle_drags_its_own_sides() {
    assert_eq!(
        dragged_edges(Status::TopLeft),
        Edges { left: true, top: true, right: false, bottom: false }
    );
    assert_eq!(
        dragged_edges(Status::TopMid),
        Edges { left: false, top: true, right: false, bottom: false }
    );
    assert_eq!(
        dragged_edges(Status::TopRight),
        Edges { left: false, top: true, right: true, bottom: false }
    );
    assert_eq!(
        dragged_edges(Status::MidLeft),
        Edges { left: true, top: false, right: false, bottom: false }
    );
    assert_eq!(
        dragged_edges(Status::MidRight),
        Edges { left: false, top: false, right: true, bottom: false }
    );
    assert_eq!(
        dragged_edges(Status::BotLeft),
        Edges { left: true, top: false, right: false, bottom: true }
    );
    assert_eq!(
        dragged_edges(Status::BotMid),
        Edges { left: false, top: false, right: false, bottom: true }
    );
    assert_eq!(
        dragged_edges(Status::BotRight),
        Edges { left: false, top: false, right: true, bottom: true }
    );
    let none = Edges { left: false, top: false, right: false, bottom: false };
    assert_eq!(dragged_edges(Status::Idle), none);
    assert_eq!(dragged_edges(Status::Select), none);
    assert_eq!(dragged_edges(Status::Move), none);
}

#[test]
fn reflecting_a_handle_exchanges_the_sides_it_drags() {
    for s in HANDLES {
        let e = dragged_edges(s);
        let x = dragged_edges(corrected_status(s, true, false));
        assert_eq!(x, Edges { left: e.right, top: e.top, right: e.left, bottom: e.bottom });
        let y = dragged_edges(corrected_status(s, false, true));
        assert_eq!(y, Edges { left: e.left, top: e.bottom, right: e.right, bottom: e.top });
    }
}

#[test]
fn release_ends_every_drag() {
    for s in HANDLES {
        assert_eq!(
            plan_area_update(s, Status::Idle, false),
            (Status::Idle, AreaUpdate::Release { forget_offset: false })
        );
    }
    assert_eq!(
        plan_area_update(Status::Move, Status::Move, false),
        (Status::Idle, AreaUpdate::Release { forget_offset: true })
    );
    assert_eq!(
        plan_area_update(Status::Select, Status::Idle, false),
        (Status::Idle, AreaUpdate::Release { forget_offset: false })
    );
}

#[test]
fn a_press_at_rest_takes_the_hovered_status() {
    let none = Edges { left: false, top: false, right: false, bottom: false };
    assert_eq!(
        plan_area_update(Status::Idle, Status::TopLeft, true),
        (Status::TopLeft, AreaUpdate::Resize(none))
    );
    assert_eq!(
        plan_area_update(Status::Idle, Status::Move, true),
        (Status::Move, AreaUpdate::Hold)
    );
}

#[test]
fn a_held_handle_resizes_and_a_held_move_translates() {
    assert_eq!(
        plan_area_update(Status::BotMid, Status::TopLeft, true),
        (
            Status::BotMid,
            AreaUpdate::Resize(Edges { left: false, top: false, right: false, bottom: true })
        )
    );
    assert_eq!(
        plan_area_update(Status::Move, Status::TopLeft, true),
        (Status::Move, AreaUpdate::Translate)
    );
}

#[test]
fn drawing_a_selection_starts_on_press_and_ends_on_release() {
    assert_eq!(plan_select(Status::Idle, false, true), (Status::Select, true));
    assert_eq!(plan_select(Status::Select, false, true), (Status::Select, true));
    assert_eq!(plan_select(Status::Select, true, false), (Status::Idle, false));
    assert_eq!(plan_select(Status::Idle, false, false), (Status::Idle, false));
    assert_eq!(plan_select(Status::TopLeft, false, true), (Status::TopLeft, false));
    assert_eq!(plan_select(Status::Move, true, false), (Status::Move, false));
}

#[test]
fn grabs_keep_the_status_when_nothing_is_near() {
    assert_eq!(grabbed_status(Status::Idle, no_grab()), Status::Idle);
    assert_eq!(grabbed_status(Status::Move, no_grab()), Status::Move);
}

#[test]
fn grabs_let_corners_win_over_sides() {
    let mut g = no_grab();
    g.left = true;
    g.top = true;
    g.top_left = true;
    assert_eq!(grabbed_status(Status::Idle, g), Status::TopLeft);
    let mut g = no_grab();
    g.left = true;
    g.right = true;
    assert_eq!(grabbed_status(Status::Idle, g), Status::MidRight);
    let mut g = no_grab();
    g.bottom = true;
    assert_eq!(grabbed_status(Status::Idle, g), Status::BotMid);
    let mut g = no_grab();
    g.bot_right = true;
    g.bot_left = true;
    assert_eq!(grabbed_status(Status::Idle, g), Status::BotLeft);
}

#[test]
fn a_held_drag_continues_from_frame_to_frame() {
    for s in HANDLES {
        let plan = plan_scale(s, Some(nothing()));
        assert_eq!(plan.update, Some(s));
        assert_eq!(plan_area_update(s, s, true), (s, AreaUpdate::Resize(dragged_edges(s))));
        assert_eq!(plan_area_update(s, s, false).0, Status::Idle);
    }
    let plan = plan_scale(Status::Move, Some(nothing()));
    assert_eq!(plan.update, Some(Status::Move));
    assert_eq!(plan_area_update(Status::Move, Status::Move, true), (Status::Move, AreaUpdate::Translate));
}
