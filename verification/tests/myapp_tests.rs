use screen_capture::myapp::delay_seconds;
use screen_capture::myapp::MyApp;
use screen_capture::myapp::Tick;
use screen_capture::myapp::CAPTURE_FRAME;
use screen_capture::myapp::FULL_SCREEN;
use screen_capture::selection::AreaUpdate;
use screen_capture::selection::Cursor;
use screen_capture::selection::Edges;
use screen_capture::selection::HandleHits;
use screen_capture::status::Status;

type App = MyApp<(i32, i32), Vec<u8>>;

#[test]
fn delays_are_none_three_five_and_ten_seconds() {
    assert_eq!(delay_seconds(0), 0);
    assert_eq!(delay_seconds(1), 3);
    assert_eq!(delay_seconds(2), 5);
    assert_eq!(delay_seconds(3), 10);
}

#[test]
fn a_new_app_shows_the_start_view() {
    let a = App::new();
    assert!(a.shows_start());
    assert!(!a.shows_capture());
    assert_eq!(a.get_status(), Status::Idle);
    assert_eq!(a.get_selected_area(), None);
    assert_eq!(a.get_centered_area(), None);
    assert_eq!(a.get_temp_image(), None);
    assert_eq!(a.capture(), 0);
    assert_eq!(a.delay(), 0);
    assert_eq!(a.screen(), 1);
    assert_eq!(a.capture_delay(), 0);
    assert!(!a.is_cutting() && !a.is_cropping() && !a.is_cropped());
}

#[test]
fn setters_and_getters() {
    let mut a = App::new();
    a.set_selected_area(Some((1, 2)));
    a.set_centered_area(Some((3, 4)));
    a.set_status(Status::Move);
    assert_eq!(a.get_selected_area(), Some((1, 2)));
    assert_eq!(a.get_centered_area(), Some((3, 4)));
    assert_eq!(a.get_status(), Status::Move);
    a.set_temp_image(Some(vec![1, 2, 3]));
    assert_eq!(a.get_temp_image(), Some(vec![1, 2, 3]));
    assert_eq!(a.color_image(), &Some(vec![1, 2, 3]));
    a.set_color_image(None);
    assert_eq!(a.color_image(), &None);
    assert_eq!(a.get_temp_image(), Some(vec![1, 2, 3]));
    a.set_delay(2);
    assert_eq!(a.capture_delay(), 5);
    a.set_capture(2);
    a.set_screen(3);
    assert_eq!((a.capture(), a.screen()), (2, 3));
    a.set_cropping(true);
    a.set_cropped(true);
    assert!(a.is_cropping() && a.is_cropped());
}

#[test]
fn the_screen_is_captured_on_the_twentieth_frame() {
    let mut a = App::new();
    a.start_capture();
    assert!(a.is_acquiring());
    for _ in 1..CAPTURE_FRAME {
        assert_eq!(a.tick(), Tick { capture_now: false, done: false, overlay: false });
    }
    assert_eq!(a.counter(), 19);
    assert_eq!(a.tick(), Tick { capture_now: true, done: false, overlay: false });
    assert!(a.is_acquiring() && !a.is_acquired());
    assert_eq!(a.tick(), Tick { capture_now: false, done: false, overlay: true });
    a.region_released();
    assert!(a.is_acquired());
    a.region_taken();
    assert!(a.shows_capture());
    assert_eq!(a.counter(), 0);
}

#[test]
fn full_screen_capture_ends_at_once() {
    let mut a = App::new();
    a.set_capture(FULL_SCREEN);
    a.start_capture();
    for _ in 1..CAPTURE_FRAME {
        a.tick();
    }
    assert_eq!(a.tick(), Tick { capture_now: true, done: true, overlay: false });
    assert!(!a.is_acquiring() && a.is_acquired());
    assert_eq!(a.counter(), 0);
    assert!(a.shows_capture());
}

#[test]
fn an_export_is_requested_once() {
    let mut a = App::new();
    a.request_export();
    assert!(!a.take_export_request());
    assert_eq!(a.counter(), 1);
    a.region_released();
    assert!(a.take_export_request());
    assert!(!a.take_export_request());
    assert_eq!(a.counter(), 0);
}

#[test]
fn a_screenshot_is_cut_once() {
    let mut a = App::new();
    a.screenshot_arrived();
    assert!(a.is_cutting());
    a.cut_done();
    assert!(!a.is_cutting());
}

#[test]
fn swapped_corners_correct_the_status() {
    let mut a = App::new();
    a.set_status(Status::MidLeft);
    a.correct_status(true, false);
    assert_eq!(a.get_status(), Status::MidRight);
    a.set_status(Status::TopRight);
    a.correct_status(true, true);
    assert_eq!(a.get_status(), Status::BotLeft);
}

#[test]
fn area_update_moves_the_status_on() {
    let mut a = App::new();
    assert_eq!(
        a.begin_area_update(Status::TopMid, true),
        AreaUpdate::Resize(Edges { left: false, top: false, right: false, bottom: false })
    );
    assert_eq!(a.get_status(), Status::TopMid);
    assert_eq!(
        a.begin_area_update(Status::TopMid, true),
        AreaUpdate::Resize(Edges { left: false, top: true, right: false, bottom: false })
    );
    assert_eq!(a.begin_area_update(Status::TopMid, false), AreaUpdate::Release { forget_offset: false });
    assert_eq!(a.get_status(), Status::Idle);
}

#[test]
fn scale_plan_follows_the_status() {
    let mut a = App::new();
    let hits = HandleHits {
        top_left: false,
        top_mid: false,
        top_right: true,
        mid_left: false,
        mid_right: false,
        bot_left: false,
        bot_mid: false,
        bot_right: false,
        inside: true,
    };
    let plan = a.scale_plan(Some(hits));
    assert_eq!(plan.update, Some(Status::TopRight));
    assert_eq!(plan.cursor, Some(Cursor::ResizeNeSw));
    a.set_status(Status::Select);
    assert_eq!(a.scale_plan(Some(hits)).update, None);
}

#[test]
fn selecting_then_releasing() {
    let mut a = App::new();
    assert!(a.select_step(false, true));
    assert_eq!(a.get_status(), Status::Select);
    assert!(!a.select_step(true, false));
    assert_eq!(a.get_status(), Status::Idle);
}
