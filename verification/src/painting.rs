use vstd::prelude::*;

verus! {

/// The drawing tools of the side panel.
#[derive(PartialEq, Eq, Structural, Debug, Clone, Copy)]
pub enum Tool {
    Pen,
    Rect,
    Circle,
}

/// The annotations drawn over a capture, with their undo history, and the
/// drawing tool in use.
///
/// `lines` holds the finished annotations in the order they were drawn; its
/// last entry is the one being drawn now. `temp_lines` holds the annotations
/// taken back by undo, the most recent last, ready to be redone. The line
/// type `L` is whatever one annotation is made of (points, a rectangle or a
/// circle, and the stroke it is drawn with); the history never looks inside.
pub struct Painting<L> {
    lines: Vec<L>,
    temp_lines: Vec<L>,
    drawing_pen: bool,
    drawing_rect: bool,
    drawing_circle: bool,
}

/// The state of a `Painting` as values.
pub struct PaintingView<L> {
    pub lines: Seq<L>,
    pub temp_lines: Seq<L>,
    pub pen: bool,
    pub rect: bool,
    pub circle: bool,
}

impl<L> View for Painting<L> {
    type V = PaintingView<L>;

    closed spec fn view(&self) -> PaintingView<L> {
        PaintingView {
            lines: self.lines@,
            temp_lines: self.temp_lines@,
            pen: self.drawing_pen,
            rect: self.drawing_rect,
            circle: self.drawing_circle,
        }
    }
}

impl<L> PaintingView<L> {
    /// At most one drawing tool is selected.
    pub open spec fn one_tool_at_most(self) -> bool {
        (self.pen as int) + (self.rect as int) + (self.circle as int) <= 1
    }

    /// The tool that drawing uses: the pen before the circle before the
    /// rectangle, none when no tool is selected.
    pub open spec fn tool(self) -> Option<Tool> {
        if self.pen {
            Some(Tool::Pen)
        } else if self.circle {
            Some(Tool::Circle)
        } else if self.rect {
            Some(Tool::Rect)
        } else {
            None
        }
    }

    /// The same history with other tools.
    pub open spec fn with_tools(self, pen: bool, rect: bool, circle: bool) -> PaintingView<L> {
        PaintingView { lines: self.lines, temp_lines: self.temp_lines, pen, rect, circle }
    }

    /// The same tools with another history.
    pub open spec fn with_history(self, lines: Seq<L>, temp_lines: Seq<L>) -> PaintingView<L> {
        PaintingView { lines, temp_lines, pen: self.pen, rect: self.rect, circle: self.circle }
    }

    /// Undo: the line being drawn is dropped and the last finished one is
    /// taken back onto the redo stack, a fresh line taking its place as the
    /// one being drawn. With fewer than two lines there is nothing to take
    /// back: the lines are dropped and the redo stack stays.
    pub open spec fn undone(self, fresh: L) -> PaintingView<L> {
        let n = self.lines.len();
        if n >= 2 {
            self.with_history(
                self.lines.take(n - 2).push(fresh),
                self.temp_lines.push(self.lines[n - 2]),
            )
        } else {
            self.with_history(Seq::empty(), self.temp_lines)
        }
    }

    /// Redo: the line being drawn (if any) is dropped, the most recently
    /// undone line is finished again, and a fresh line is begun.
    pub open spec fn redone(self, fresh: L) -> PaintingView<L>
        recommends
            self.temp_lines.len() > 0,
    {
        let kept = if self.lines.len() > 0 {
            self.lines.drop_last()
        } else {
            self.lines
        };
        self.with_history(
            kept.push(self.temp_lines.last()).push(fresh),
            self.temp_lines.drop_last(),
        )
    }

    /// A line was finished: a fresh one is begun and the redo stack is
    /// forgotten.
    pub open spec fn committed(self, fresh: L) -> PaintingView<L> {
        self.with_history(self.lines.push(fresh), Seq::empty())
    }
}

/// What one frame of drawing does with the pointer.
#[derive(PartialEq, Eq, Structural, Debug, Clone, Copy)]
pub enum DrawStep {
    /// Nothing changes.
    Idle,
    /// The pen adds the pointer position to the line being drawn.
    AppendPoint,
    /// The pointer position becomes the anchor of a rectangle or circle.
    Anchor,
    /// The rectangle or circle of the line being drawn is set from the anchor
    /// to the pointer position.
    Shape,
    /// The line being drawn is finished (see `Painting::commit_line`); for a
    /// rectangle or circle the anchor is dropped too.
    Finish { drop_anchor: bool },
}

/// The step one frame of drawing takes with a given tool.
///
/// `pointer_down`: the pointer is pressed on the canvas; `anchored`: a
/// rectangle or circle has its anchor; `line_started`: the line being drawn
/// has points (pen) or a shape (rectangle, circle); `repeats_last_point`: the
/// pointer is where the pen's last point already is.
pub open spec fn draw_step_of(
    tool: Option<Tool>,
    pointer_down: bool,
    anchored: bool,
    line_started: bool,
    repeats_last_point: bool,
) -> DrawStep {
    match tool {
        None => DrawStep::Idle,
        Some(Tool::Pen) => if pointer_down {
            if repeats_last_point {
                DrawStep::Idle
            } else {
                DrawStep::AppendPoint
            }
        } else if line_started {
            DrawStep::Finish { drop_anchor: false }
        } else {
            DrawStep::Idle
        },
        Some(_) => if pointer_down {
            if anchored {
                DrawStep::Shape
            } else {
                DrawStep::Anchor
            }
        } else if line_started {
            DrawStep::Finish { drop_anchor: true }
        } else {
            DrawStep::Idle
        },
    }
}

impl<L> Painting<L> {
    /// No annotations, no history, no tool.
    pub fn new() -> (r: Self)
        ensures
            r@.lines == Seq::<L>::empty(),
            r@.temp_lines == Seq::<L>::empty(),
            !r@.pen && !r@.rect && !r@.circle,
    {
        Painting {
            lines: Vec::new(),
            temp_lines: Vec::new(),
            drawing_pen: false,
            drawing_rect: false,
            drawing_circle: false,
        }
    }

    pub fn is_drawing_pen(&self) -> (r: bool)
        ensures
            r == self@.pen,
    {
        self.drawing_pen
    }

    pub fn is_drawing_rect(&self) -> (r: bool)
        ensures
            r == self@.rect,
    {
        self.drawing_rect
    }

    pub fn is_drawing_circle(&self) -> (r: bool)
        ensures
            r == self@.circle,
    {
        self.drawing_circle
    }

    /// The tool that drawing uses (see `PaintingView::tool`).
    pub fn active_tool(&self) -> (r: Option<Tool>)
        ensures
            r == self@.tool(),
    {
        if self.drawing_pen {
            Some(Tool::Pen)
        } else if self.drawing_circle {
            Some(Tool::Circle)
        } else if self.drawing_rect {
            Some(Tool::Rect)
        } else {
            None
        }
    }

    /// The pen button: the pen is switched on or off, the other tools off.
    pub fn toggle_pen(&mut self)
        ensures
            final(self)@ == old(self)@.with_tools(!old(self)@.pen, false, false),
            final(self)@.one_tool_at_most(),
    {
        self.drawing_pen = !self.drawing_pen;
        self.drawing_circle = false;
        self.drawing_rect = false;
    }

    /// The rectangle button: the rectangle is switched on or off, the other
    /// tools off.
    pub fn toggle_rect(&mut self)
        ensures
            final(self)@ == old(self)@.with_tools(false, !old(self)@.rect, false),
            final(self)@.one_tool_at_most(),
    {
        self.drawing_rect = !self.drawing_rect;
        self.drawing_pen = false;
        self.drawing_circle = false;
    }

    /// The circle button: the circle is switched on or off, the other tools
    /// off.
    pub fn toggle_circle(&mut self)
        ensures
            final(self)@ == old(self)@.with_tools(false, false, !old(self)@.circle),
            final(self)@.one_tool_at_most(),
    {
        self.drawing_circle = !self.drawing_circle;
        self.drawing_pen = false;
        self.drawing_rect = false;
    }

    /// The pen is put down (a new capture starts).
    pub fn stop_pen(&mut self)
        ensures
            final(self)@ == old(self)@.with_tools(false, old(self)@.rect, old(self)@.circle),
    {
        self.drawing_pen = false;
    }

    /// Everything is cleared: annotations, history and tool.
    pub fn set_false(&mut self)
        ensures
            final(self)@ == old(self)@.with_history(Seq::empty(), Seq::empty()).with_tools(
                false,
                false,
                false,
            ),
    {
        self.lines.clear();
        self.temp_lines.clear();
        self.drawing_circle = false;
        self.drawing_pen = false;
        self.drawing_rect = false;
    }

    /// The annotations and the history are cleared; the tool stays.
    pub fn clear(&mut self)
        ensures
            final(self)@ == old(self)@.with_history(Seq::empty(), Seq::empty()),
    {
        self.lines.clear();
        self.temp_lines.clear();
    }

    /// The annotations, in the order they were drawn.
    pub fn lines(&self) -> (r: &Vec<L>)
        ensures
            r@ == self@.lines,
    {
        &self.lines
    }

    /// Number of lines, the one being drawn included.
    pub fn line_count(&self) -> (r: usize)
        ensures
            r == self@.lines.len(),
    {
        self.lines.len()
    }

    /// Number of undone lines ready to be redone.
    pub fn undone_count(&self) -> (r: usize)
        ensures
            r == self@.temp_lines.len(),
    {
        self.temp_lines.len()
    }

    /// Undo is offered when there is a finished line besides the one being
    /// drawn.
    pub fn can_undo(&self) -> (r: bool)
        ensures
            r == (self@.lines.len() > 1),
    {
        self.lines.len() > 1
    }

    /// Redo is offered when some line was undone.
    pub fn can_redo(&self) -> (r: bool)
        ensures
            r == (self@.temp_lines.len() > 0),
    {
        self.temp_lines.len() > 0
    }

    /// Clearing is offered when there is a finished line.
    pub fn can_clear(&self) -> (r: bool)
        ensures
            r == (self@.lines.len() > 1),
    {
        self.lines.len() > 1
    }

    /// A line to draw on is begun when there is none.
    pub fn ensure_current_line(&mut self, fresh: L)
        ensures
            final(self)@ == (if old(self)@.lines.len() == 0 {
                old(self)@.with_history(seq![fresh], old(self)@.temp_lines)
            } else {
                old(self)@
            }),
            final(self)@.lines.len() > 0,
    {
        if self.lines.len() == 0 {
            self.lines.push(fresh);
            assert(self.lines@ == seq![fresh]);
        }
    }

    /// The line being drawn.
    pub fn current_line(&self) -> (r: &L)
        requires
            self@.lines.len() > 0,
        ensures
            *r == self@.lines.last(),
    {
        let n = self.lines.len();
        &self.lines[n - 1]
    }

    /// The line being drawn is replaced.
    pub fn set_current_line(&mut self, line: L)
        requires
            old(self)@.lines.len() > 0,
        ensures
            final(self)@ == old(self)@.with_history(
                old(self)@.lines.update(old(self)@.lines.len() - 1, line),
                old(self)@.temp_lines,
            ),
    {
        let n = self.lines.len();
        self.lines.set(n - 1, line);
    }

    /// The line at `index` is replaced.
    pub fn set_line(&mut self, index: usize, line: L)
        requires
            index < old(self)@.lines.len(),
        ensures
            final(self)@ == old(self)@.with_history(
                old(self)@.lines.update(index as int, line),
                old(self)@.temp_lines,
            ),
    {
        self.lines.set(index, line);
    }

    /// Undo (see `PaintingView::undone`).
    pub fn undo(&mut self, fresh: L)
        ensures
            final(self)@ == old(self)@.undone(fresh),
    {
        let ghost lines0 = self.lines@;
        let _ = self.lines.pop();
        if let Some(line) = self.lines.pop() {
            self.temp_lines.push(line);
            self.lines.push(fresh);
            assert(self.lines@ == lines0.take(lines0.len() - 2).push(fresh));
        } else {
            assert(self.lines@ == Seq::<L>::empty());
        }
    }

    /// Redo (see `PaintingView::redone`).
    pub fn redo(&mut self, fresh: L)
        requires
            old(self)@.temp_lines.len() > 0,
        ensures
            final(self)@ == old(self)@.redone(fresh),
    {
        self.lines.pop();
        let line = self.temp_lines.pop().unwrap();
        self.lines.push(line);
        self.lines.push(fresh);
    }

    /// The line being drawn is finished (see `PaintingView::committed`).
    pub fn commit_line(&mut self, fresh: L)
        ensures
            final(self)@ == old(self)@.committed(fresh),
    {
        self.lines.push(fresh);
        self.temp_lines.clear();
    }

    /// The step this frame of drawing takes with the tool in use (see
    /// `draw_step_of`).
    pub fn draw_step(
        &self,
        pointer_down: bool,
        anchored: bool,
        line_started: bool,
        repeats_last_point: bool,
    ) -> (r: DrawStep)
        ensures
            r == draw_step_of(self@.tool(), pointer_down, anchored, line_started, repeats_last_point),
            self@.tool() is None ==> r == DrawStep::Idle,
            (self@.tool() == Some(Tool::Rect) || self@.tool() == Some(Tool::Circle)) ==> r == (
            if pointer_down {
                if anchored {
                    DrawStep::Shape
                } else {
                    DrawStep::Anchor
                }
            } else if line_started {
                DrawStep::Finish { drop_anchor: true }
            } else {
                DrawStep::Idle
            }),
            self@.tool() == Some(Tool::Pen) ==> r == (if pointer_down {
                if repeats_last_point {
                    DrawStep::Idle
                } else {
                    DrawStep::AppendPoint
                }
            } else if line_started {
                DrawStep::Finish { drop_anchor: false }
            } else {
                DrawStep::Idle
            }),
    {
        match self.active_tool() {
            None => DrawStep::Idle,
            Some(Tool::Pen) => {
                if pointer_down {
                    if repeats_last_point {
                        DrawStep::Idle
                    } else {
                        DrawStep::AppendPoint
                    }
                } else if line_started {
                    DrawStep::Finish { drop_anchor: false }
                } else {
                    DrawStep::Idle
                }
            },
            Some(_) => {
                if pointer_down {
                    if anchored {
                        DrawStep::Shape
                    } else {
                        DrawStep::Anchor
                    }
                } else if line_started {
                    DrawStep::Finish { drop_anchor: true }
                } else {
                    DrawStep::Idle
                }
            },
        }
    }
}

/// Finishing a shape forgets its anchor, whichever shape tool drew it, so
/// the next shape is anchored where the next press starts; the pen has no
/// anchor to forget. A release finishes a started line and nothing else, a
/// press never finishes, and without a tool nothing happens.
pub proof fn law_finish_drops_shape_anchor(
    tool: Option<Tool>,
    pointer_down: bool,
    anchored: bool,
    line_started: bool,
    repeats_last_point: bool,
)
    ensures
        ({
            let r = draw_step_of(tool, pointer_down, anchored, line_started, repeats_last_point);
            &&& tool is None ==> r == DrawStep::Idle
            &&& (r is Finish) <==> (tool is Some && !pointer_down && line_started)
            &&& r is Finish ==> (r->drop_anchor <==> tool != Some(Tool::Pen))
            &&& (tool == Some(Tool::Rect) || tool == Some(Tool::Circle)) && pointer_down ==> r == (
            if anchored {
                DrawStep::Shape
            } else {
                DrawStep::Anchor
            })
            &&& r is AppendPoint <==> (tool == Some(Tool::Pen) && pointer_down && !repeats_last_point)
        }),
{
}

/// Undo takes back exactly the last finished line: it goes on top of the
/// redo stack, the lines before it stay, and the line being drawn becomes
/// the fresh one.
pub proof fn law_undo_takes_last_finished<L>(p: PaintingView<L>, fresh: L)
    requires
        p.lines.len() >= 2,
    ensures
        p.undone(fresh).lines.len() == p.lines.len() - 1,
        p.undone(fresh).lines.last() == fresh,
        p.undone(fresh).lines.drop_last() == p.lines.take(p.lines.len() - 2),
        p.undone(fresh).temp_lines.last() == p.lines[p.lines.len() - 2],
        p.undone(fresh).temp_lines.drop_last() == p.temp_lines,
        p.undone(fresh).pen == p.pen && p.undone(fresh).rect == p.rect && p.undone(fresh).circle
            == p.circle,
{
    assert(p.undone(fresh).lines.drop_last() == p.lines.take(p.lines.len() - 2));
    assert(p.undone(fresh).temp_lines.drop_last() == p.temp_lines);
}

/// Redo finishes again exactly the most recently undone line: it leaves the
/// top of the redo stack and comes right before the fresh line being drawn.
pub proof fn law_redo_restores_last_undone<L>(p: PaintingView<L>, fresh: L)
    requires
        p.temp_lines.len() > 0,
        p.lines.len() > 0,
    ensures
        p.redone(fresh).lines.len() == p.lines.len() + 1,
        p.redone(fresh).lines.last() == fresh,
        p.redone(fresh).lines[p.lines.len() - 1] == p.temp_lines.last(),
        p.redone(fresh).lines.take(p.lines.len() - 1) == p.lines.drop_last(),
        p.redone(fresh).temp_lines == p.temp_lines.drop_last(),
{
    assert(p.redone(fresh).lines.take(p.lines.len() - 1) == p.lines.drop_last());
}

/// Redoing right after an undo gives back the lines as they were, but for
/// the line being drawn, which is a fresh one, and leaves the redo stack as
/// it was.
pub proof fn law_redo_after_undo<L>(p: PaintingView<L>, fresh1: L, fresh2: L)
    requires
        p.lines.len() >= 2,
    ensures
        p.undone(fresh1).temp_lines.len() > 0,
        p.undone(fresh1).redone(fresh2).lines == p.lines.drop_last().push(fresh2),
        p.undone(fresh1).redone(fresh2).temp_lines == p.temp_lines,
{
    let n = p.lines.len();
    let u = p.undone(fresh1);
    assert(u.lines.drop_last() == p.lines.take(n - 2));
    assert(u.temp_lines.drop_last() == p.temp_lines);
    assert(p.lines.take(n - 2).push(p.lines[n - 2]) == p.lines.drop_last());
}

/// Undoing right after a redo gives back the redo stack as it was, and the
/// lines as they were but for the line being drawn, which is a fresh one.
pub proof fn law_undo_after_redo<L>(p: PaintingView<L>, fresh1: L, fresh2: L)
    requires
        p.temp_lines.len() > 0,
        p.lines.len() > 0,
    ensures
        p.redone(fresh1).undone(fresh2).lines == p.lines.drop_last().push(fresh2),
        p.redone(fresh1).undone(fresh2).temp_lines == p.temp_lines,
{
    let r = p.redone(fresh1);
    let n = r.lines.len();
    assert(r.lines.take(n - 2) == p.lines.drop_last());
    assert(r.lines[n - 2] == p.temp_lines.last());
    assert(p.temp_lines.drop_last().push(p.temp_lines.last()) == p.temp_lines);
}

/// Undo and redo move lines between the drawing and the redo stack without
/// losing any: an undo of two or more lines keeps their total count, and a
/// redo adds only the fresh line.
pub proof fn law_history_keeps_lines<L>(p: PaintingView<L>, fresh: L)
    ensures
        p.lines.len() >= 2 ==> p.undone(fresh).lines.len() + p.undone(fresh).temp_lines.len()
            == p.lines.len() + p.temp_lines.len(),
        p.temp_lines.len() > 0 && p.lines.len() > 0 ==> p.redone(fresh).lines.len()
            + p.redone(fresh).temp_lines.len() == p.lines.len() + p.temp_lines.len(),
{
}

/// Finishing a line forgets what was undone: nothing is left to redo.
pub proof fn law_new_line_forgets_redo<L>(p: PaintingView<L>, fresh: L)
    ensures
        p.committed(fresh).temp_lines.len() == 0,
        p.committed(fresh).lines.drop_last() == p.lines,
        p.committed(fresh).lines.last() == fresh,
        p.committed(fresh).tool() == p.tool(),
{
    assert(p.committed(fresh).lines.drop_last() == p.lines);
}

} // verus!
