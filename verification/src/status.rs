use vstd::prelude::*;

verus! {

/// What the pointer is doing to the selection rectangle: nothing, drawing a
/// new selection, dragging one of the eight grab handles, or moving it whole.
///
/// The eight handles sit on a three by three grid around the rectangle:
/// a handle is named by its row (top, middle, bottom) and its column
/// (left, middle, right); the middle of the grid holds no handle.
#[derive(PartialEq, Eq, Structural, Debug, Clone, Copy)]
pub enum Status {
    Idle,
    Select,
    TopLeft,
    TopMid,
    TopRight,
    MidLeft,
    MidRight,
    BotLeft,
    BotMid,
    BotRight,
    Move,
}

impl Status {
    /// The status names one of the eight grab handles.
    pub open spec fn is_handle(self) -> bool {
        match self {
            Status::Idle | Status::Select | Status::Move => false,
            _ => true,
        }
    }

    /// Column of a handle on the grid: -1 left, 0 middle, 1 right.
    pub open spec fn column(self) -> int {
        match self {
            Status::TopLeft | Status::MidLeft | Status::BotLeft => -1,
            Status::TopRight | Status::MidRight | Status::BotRight => 1,
            _ => 0,
        }
    }

    /// Row of a handle on the grid: -1 top, 0 middle, 1 bottom.
    pub open spec fn row(self) -> int {
        match self {
            Status::TopLeft | Status::TopMid | Status::TopRight => -1,
            Status::BotLeft | Status::BotMid | Status::BotRight => 1,
            _ => 0,
        }
    }
}

/// The status reflected left to right: a handle keeps its row and takes the
/// opposite column; every other status is left as it is.
pub open spec fn reflect_columns(s: Status) -> Status {
    if s.is_handle() {
        handle_at(-s.column(), s.row())
    } else {
        s
    }
}

/// The status reflected top to bottom: a handle keeps its column and takes
/// the opposite row; every other status is left as it is.
pub open spec fn reflect_rows(s: Status) -> Status {
    if s.is_handle() {
        handle_at(s.column(), -s.row())
    } else {
        s
    }
}

/// The handle at a given column and row of the grid.
pub open spec fn handle_at(column: int, row: int) -> Status {
    if row == -1 {
        if column == -1 {
            Status::TopLeft
        } else if column == 0 {
            Status::TopMid
        } else {
            Status::TopRight
        }
    } else if row == 0 {
        if column == -1 {
            Status::MidLeft
        } else {
            Status::MidRight
        }
    } else {
        if column == -1 {
            Status::BotLeft
        } else if column == 0 {
            Status::BotMid
        } else {
            Status::BotRight
        }
    }
}

/// A handle is determined by its column and row.
pub proof fn lemma_handle_at_position(s: Status)
    requires
        s.is_handle(),
    ensures
        handle_at(s.column(), s.row()) == s,
        -1 <= s.column() <= 1,
        -1 <= s.row() <= 1,
        s.column() != 0 || s.row() != 0,
{
}

/// The status a drag keeps once the two corners of the area were put back in
/// order: when the horizontal coordinates had to be exchanged, a handle on
/// the left is now on the right and the other way round; when the vertical
/// ones had to be exchanged, a handle on the top is now on the bottom and
/// the other way round. Statuses that are no handle stay as they are.
pub fn corrected_status(status: Status, swapped_x: bool, swapped_y: bool) -> (r: Status)
    ensures
        r.is_handle() == status.is_handle(),
        status.is_handle() ==> r.column() == (if swapped_x {
            -status.column()
        } else {
            status.column()
        }),
        status.is_handle() ==> r.row() == (if swapped_y {
            -status.row()
        } else {
            status.row()
        }),
        !status.is_handle() ==> r == status,
        r == corrected_status_spec(status, swapped_x, swapped_y),
{
    let mut s = status;
    if swapped_x {
        s = match s {
            Status::MidLeft => Status::MidRight,
            Status::MidRight => Status::MidLeft,
            Status::TopLeft => Status::TopRight,
            Status::TopRight => Status::TopLeft,
            Status::BotLeft => Status::BotRight,
            Status::BotRight => Status::BotLeft,
            other => other,
        };
    }
    if swapped_y {
        s = match s {
            Status::TopMid => Status::BotMid,
            Status::BotMid => Status::TopMid,
            Status::TopLeft => Status::BotLeft,
            Status::TopRight => Status::BotRight,
            Status::BotLeft => Status::TopLeft,
            Status::BotRight => Status::TopRight,
            other => other,
        };
    }
    s
}

/// Correcting for an exchange of both coordinate pairs is the same as
/// reflecting the status first left to right and then top to bottom, and
/// the two reflections may be taken in either order.
pub proof fn law_correction_is_reflection(s: Status, swapped_x: bool, swapped_y: bool)
    ensures
        corrected_status_spec(s, swapped_x, swapped_y) == (if swapped_y {
            reflect_rows(if swapped_x {
                reflect_columns(s)
            } else {
                s
            })
        } else {
            if swapped_x {
                reflect_columns(s)
            } else {
                s
            }
        }),
        reflect_rows(reflect_columns(s)) == reflect_columns(reflect_rows(s)),
{
}

/// A correction keeps a handle a handle and moves it on the grid: its
/// column changes sign exactly when the horizontal coordinates were
/// exchanged, its row exactly when the vertical ones were; every other
/// status is kept.
pub proof fn law_correction_moves_on_grid(s: Status, swapped_x: bool, swapped_y: bool)
    ensures
        ({
            let r = corrected_status_spec(s, swapped_x, swapped_y);
            &&& r.is_handle() == s.is_handle()
            &&& s.is_handle() ==> r.column() == (if swapped_x {
                -s.column()
            } else {
                s.column()
            }) && r.row() == (if swapped_y {
                -s.row()
            } else {
                s.row()
            })
            &&& !s.is_handle() ==> r == s
        }),
{
}

/// Reflecting twice in the same direction gives back the status one started
/// from, so exchanging the corners back undoes a correction.
pub proof fn law_reflection_is_involution(s: Status)
    ensures
        reflect_columns(reflect_columns(s)) == s,
        reflect_rows(reflect_rows(s)) == s,
        corrected_status_spec(corrected_status_spec(s, true, true), true, true) == s,
{
}

/// What `corrected_status` returns, as a function of its arguments.
pub open spec fn corrected_status_spec(s: Status, swapped_x: bool, swapped_y: bool) -> Status {
    if s.is_handle() {
        handle_at(
            if swapped_x {
                -s.column()
            } else {
                s.column()
            },
            if swapped_y {
                -s.row()
            } else {
                s.row()
            },
        )
    } else {
        s
    }
}

} // verus!
