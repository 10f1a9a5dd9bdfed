use screen_capture::painting::DrawStep;
use screen_capture::painting::Painting;
use screen_capture::painting::Tool;

fn with_lines(lines: &[u32]) -> Painting<u32> {
    let mut p = Painting::new();
    p.ensure_current_line(lines[0]);
    for l in &lines[1..] {
        p.commit_line(*l);
    }
    p
}

#[test]
fn a_new_painting_is_empty() {
    let p: Painting<u32> = Painting::new();
    assert_eq!(p.line_count(), 0);
    assert_eq!(p.undone_count(), 0);
    assert_eq!(p.active_tool(), None);
    assert!(!p.can_undo() && !p.can_redo() && !p.can_clear());
}

#[test]
fn toggling_a_tool_switches_the_others_off() {
    let mut p: Painting<u32> = Painting::new();
    p.toggle_pen();
    assert_eq!(p.active_tool(), Some(Tool::Pen));
    p.toggle_rect();
    assert_eq!(p.active_tool(), Some(Tool::Rect));
    assert!(!p.is_drawing_pen() && p.is_drawing_rect() && !p.is_drawing_circle());
    p.toggle_circle();
    assert_eq!(p.active_tool(), Some(Tool::Circle));
    assert!(!p.is_drawing_rect());
    p.toggle_circle();
    assert_eq!(p.active_tool(), None);
}

#[test]
fn stop_pen_puts_the_pen_down_only() {
    let mut p: Painting<u32> = Painting::new();
    p.toggle_pen();
    p.stop_pen();
    assert_eq!(p.active_tool(), None);
    p.toggle_rect();
    p.stop_pen();
    assert_eq!(p.active_tool(), Some(Tool::Rect));
}

#[test]
fn ensure_current_line_begins_a_line_only_once() {
    let mut p: Painting<u32> = Painting::new();
    p.ensure_current_line(7);
    p.ensure_current_line(8);
    assert_eq!(p.lines(), &vec![7]);
    assert_eq!(*p.current_line(), 7);
}

#[test]
fn undo_takes_back_the_last_finished_line() {
    let mut p = with_lines(&[1, 2, 3]);
    assert!(p.can_undo());
    p.undo(9);
    assert_eq!(p.lines(), &vec![1, 9]);
    assert_eq!(p.undone_count(), 1);
    assert!(p.can_redo());
}

#[test]
fn undo_with_a_single_line_drops_it() {
    let mut p = with_lines(&[1]);
    assert!(!p.can_undo());
    p.undo(9);
    assert_eq!(p.line_count(), 0);
    assert_eq!(p.undone_count(), 0);
}

#[test]
fn redo_after_undo_gives_the_line_back() {
    let mut p = with_lines(&[1, 2, 3]);
    p.undo(9);
    p.redo(8);
    assert_eq!(p.lines(), &vec![1, 2, 8]);
    assert_eq!(p.undone_count(), 0);
}

#[test]
fn undo_after_redo_gives_the_history_back() {
    let mut p = with_lines(&[1, 2, 3, 4]);
    p.undo(9);
    p.undo(9);
    assert_eq!(p.lines(), &vec![1, 9]);
    p.redo(8);
    assert_eq!(p.lines(), &vec![1, 2, 8]);
    p.undo(7);
    assert_eq!(p.lines(), &vec![1, 7]);
    assert_eq!(p.undone_count(), 2);
    p.redo(6);
    p.redo(5);
    assert_eq!(p.lines(), &vec![1, 2, 3, 5]);
}

#[test]
fn a_new_line_forgets_what_was_undone() {
    let mut p = with_lines(&[1, 2, 3]);
    p.undo(9);
    assert!(p.can_redo());
    p.commit_line(4);
    assert!(!p.can_redo());
    assert_eq!(p.lines(), &vec![1, 9, 4]);
}

#[test]
fn clear_and_set_false() {
    let mut p = with_lines(&[1, 2, 3]);
    p.toggle_pen();
    p.undo(9);
    p.clear();
    assert_eq!(p.line_count(), 0);
    assert_eq!(p.undone_count(), 0);
    assert_eq!(p.active_tool(), Some(Tool::Pen));
    let mut q = with_lines(&[1, 2]);
    q.toggle_circle();
    q.set_false();
    assert_eq!(q.line_count(), 0);
    assert_eq!(q.active_tool(), None);
}

#[test]
fn lines_can_be_replaced() {
    let mut p = with_lines(&[1, 2, 3]);
    p.set_current_line(30);
    p.set_line(0, 10);
    assert_eq!(p.lines(), &vec![10, 2, 30]);
}

#[test]
fn drawing_steps_of_the_pen() {
    let mut p: Painting<u32> = Painting::new();
    assert_eq!(p.draw_step(true, false, false, false), DrawStep::Idle);
    p.toggle_pen();
    assert_eq!(p.draw_step(true, false, false, false), DrawStep::AppendPoint);
    assert_eq!(p.draw_step(true, false, true, true), DrawStep::Idle);
    assert_eq!(p.draw_step(false, false, true, false), DrawStep::Finish { drop_anchor: false });
    assert_eq!(p.draw_step(false, false, false, false), DrawStep::Idle);
}

#[test]
fn drawing_steps_of_the_shapes() {
    let mut p: Painting<u32> = Painting::new();
    p.toggle_rect();
    assert_eq!(p.draw_step(true, false, false, false), DrawStep::Anchor);
    assert_eq!(p.draw_step(true, true, false, false), DrawStep::Shape);
    assert_eq!(p.draw_step(false, true, true, false), DrawStep::Finish { drop_anchor: true });
    assert_eq!(p.draw_step(false, true, false, false), DrawStep::Idle);
    p.toggle_circle();
    assert_eq!(p.draw_step(true, true, true, false), DrawStep::Shape);
}
