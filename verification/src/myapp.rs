use vstd::prelude::*;

use crate::selection::AreaUpdate;
use crate::selection::Grabs;
use crate::selection::HandleHits;
use crate::selection::ScalePlan;
use crate::selection::grabbed_status;
use crate::selection::plan_area_update;
use crate::selection::plan_scale;
use crate::selection::plan_select;
use crate::status::Status;
use crate::status::corrected_status;
use crate::status::corrected_status_spec;

verus! {

/// Frames the window waits, hidden, before the screen is captured.
pub const CAPTURE_FRAME: usize = 20;

/// Index of the capture mode that takes the whole screen at once.
pub const FULL_SCREEN: usize = 1;

/// Number of capture modes offered: rectangle, whole screen, window.
pub const CAPTURE_MODES: usize = 3;

/// Number of capture delays offered.
pub const DELAY_CHOICES: usize = 4;

/// The delays offered before a capture, in seconds.
pub open spec fn delay_table(index: int) -> u64 {
    seq![0u64, 3, 5, 10][index]
}

/// The delay, in seconds, of the delay choice `index`: none, 3, 5 or 10.
pub fn delay_seconds(index: usize) -> (r: u64)
    requires
        index < DELAY_CHOICES,
    ensures
        r == delay_table(index as int),
{
    assert(seq![0u64, 3, 5, 10][0] == 0 && seq![0u64, 3, 5, 10][1] == 3 && seq![0u64, 3, 5, 10][2]
        == 5 && seq![0u64, 3, 5, 10][3] == 10);
    if index == 0 {
        0
    } else if index == 1 {
        3
    } else if index == 2 {
        5
    } else {
        10
    }
}

/// The state of the capture application that does not depend on the
/// windowing toolkit: the capture flow, the chosen options, and the selection
/// being cropped. `R` is the type of a rectangle on the screen and `I` that
/// of an image; the state only stores them.
pub struct MyApp<R, I> {
    acquiring: bool,
    acquired: bool,
    counter: usize,
    capture: usize,
    delay: usize,
    screen: usize,
    cutting: bool,
    is_cropping: bool,
    cropped: bool,
    status: Status,
    selected_area: Option<R>,
    centered_area: Option<R>,
    color_image: Option<I>,
    temp_image: Option<I>,
}

/// The state of a `MyApp` as values.
pub struct MyAppView<R, I> {
    /// A capture is under way (the window is hidden or shows the overlay).
    pub acquiring: bool,
    /// A capture was taken (or its region was chosen).
    pub acquired: bool,
    /// Frames counted during a capture; set to one to ask for an export.
    pub counter: int,
    /// The capture mode chosen.
    pub capture: int,
    /// The delay choice.
    pub delay: int,
    /// The screen to capture, counted from one.
    pub screen: int,
    /// A screenshot of the window arrived and is to be cut and saved.
    pub cutting: bool,
    /// The image is being cropped.
    pub is_cropping: bool,
    /// The crop region was drawn.
    pub cropped: bool,
    pub status: Status,
    pub selected_area: Option<R>,
    pub centered_area: Option<R>,
    pub color_image: Option<I>,
    pub temp_image: Option<I>,
}

impl<R, I> MyApp<R, I> {
    /// The options always name one of the choices offered.
    #[verifier::type_invariant]
    spec fn options_offered(self) -> bool {
        &&& self.capture < CAPTURE_MODES
        &&& self.delay < DELAY_CHOICES
        &&& self.screen >= 1
    }
}

impl<R, I> View for MyApp<R, I> {
    type V = MyAppView<R, I>;

    closed spec fn view(&self) -> MyAppView<R, I> {
        MyAppView {
            acquiring: self.acquiring,
            acquired: self.acquired,
            counter: self.counter as int,
            capture: self.capture as int,
            delay: self.delay as int,
            screen: self.screen as int,
            cutting: self.cutting,
            is_cropping: self.is_cropping,
            cropped: self.cropped,
            status: self.status,
            selected_area: self.selected_area,
            centered_area: self.centered_area,
            color_image: self.color_image,
            temp_image: self.temp_image,
        }
    }
}

/// What a frame of an ongoing capture asks the application to do.
#[derive(PartialEq, Eq, Structural, Debug, Clone, Copy)]
pub struct Tick {
    /// Wait the chosen delay and capture the screen now.
    pub capture_now: bool,
    /// The capture just taken is the final image (whole-screen mode); the
    /// window shows it at once.
    pub done: bool,
    /// Show the captured screen full size so a region can be drawn on it.
    pub overlay: bool,
}

impl<R, I> MyAppView<R, I> {
    /// The capture counter after one more frame of an ongoing capture, and
    /// what that frame does: at the capture frame the screen is captured and
    /// the previous capture forgotten; in whole-screen mode that capture ends
    /// the flow. After the capture frame the overlay is shown until a region
    /// is drawn.
    pub open spec fn ticked(self) -> (MyAppView<R, I>, Tick) {
        let c = self.counter + 1;
        if c == CAPTURE_FRAME {
            if self.capture == FULL_SCREEN {
                (
                    MyAppView { acquiring: false, acquired: true, counter: 0, ..self },
                    Tick { capture_now: true, done: true, overlay: false },
                )
            } else {
                (
                    MyAppView { acquired: false, counter: c, ..self },
                    Tick { capture_now: true, done: false, overlay: false },
                )
            }
        } else {
            (
                MyAppView { counter: c, ..self },
                Tick { capture_now: false, done: false, overlay: c > CAPTURE_FRAME },
            )
        }
    }

    /// Whether an export is to be requested this frame, and the state once
    /// the request is consumed.
    pub open spec fn export_taken(self) -> (MyAppView<R, I>, bool) {
        if self.acquired && self.counter == 1 {
            (MyAppView { counter: 0, ..self }, true)
        } else {
            (self, false)
        }
    }

    /// The state after `n` frames of a capture with nothing else happening.
    pub open spec fn after_ticks(self, n: nat) -> MyAppView<R, I>
        decreases n,
    {
        if n == 0 {
            self
        } else {
            self.after_ticks((n - 1) as nat).ticked().0
        }
    }
}

impl<R: Copy, I: Clone> MyApp<R, I> {
    /// A fresh application: nothing captured, the first mode and delay, the
    /// first screen, no selection.
    pub fn new() -> (r: Self)
        ensures
            !r@.acquiring && !r@.acquired,
            r@.counter == 0 && r@.capture == 0 && r@.delay == 0 && r@.screen == 1,
            !r@.cutting && !r@.is_cropping && !r@.cropped,
            r@.status == Status::Idle,
            r@.selected_area.is_none() && r@.centered_area.is_none(),
            r@.color_image.is_none() && r@.temp_image.is_none(),
    {
        MyApp {
            acquiring: false,
            acquired: false,
            counter: 0,
            capture: 0,
            delay: 0,
            screen: 1,
            cutting: false,
            is_cropping: false,
            cropped: false,
            status: Status::Idle,
            selected_area: None,
            centered_area: None,
            color_image: None,
            temp_image: None,
        }
    }

    // ----- the selection -----
    pub fn get_selected_area(&self) -> (r: Option<R>)
        ensures
            r == self@.selected_area,
    {
        self.selected_area
    }

    pub fn get_status(&self) -> (r: Status)
        ensures
            r == self@.status,
    {
        self.status
    }

    pub fn get_centered_area(&self) -> (r: Option<R>)
        ensures
            r == self@.centered_area,
    {
        self.centered_area
    }

    pub fn set_selected_area(&mut self, new_area: Option<R>)
        ensures
            final(self)@ == (MyAppView { selected_area: new_area, ..old(self)@ }),
    {
        proof {
            use_type_invariant(&*self);
        }
        self.selected_area = new_area;
    }

    pub fn set_centered_area(&mut self, new_area: Option<R>)
        ensures
            final(self)@ == (MyAppView { centered_area: new_area, ..old(self)@ }),
    {
        proof {
            use_type_invariant(&*self);
        }
        self.centered_area = new_area;
    }

    pub fn set_status(&mut self, new_status: Status)
        ensures
            final(self)@ == (MyAppView { status: new_status, ..old(self)@ }),
    {
        proof {
            use_type_invariant(&*self);
        }
        self.status = new_status;
    }

    /// The image being cropped, as a copy.
    pub fn get_temp_image(&self) -> (r: Option<I>)
        ensures
            r.is_some() == self@.temp_image.is_some(),
            r.is_some() ==> cloned::<I>(self@.temp_image.unwrap(), r.unwrap()),
    {
        self.temp_image.clone()
    }

    /// The image to crop: it becomes both the captured image and the image
    /// being cropped (each a copy of `new_image`).
    pub fn set_temp_image(&mut self, new_image: Option<I>)
        ensures
            final(self)@.color_image.is_some() == new_image.is_some(),
            final(self)@.temp_image.is_some() == new_image.is_some(),
            new_image.is_some() ==> cloned::<I>(new_image.unwrap(), final(self)@.color_image.unwrap()),
            new_image.is_some() ==> cloned::<I>(new_image.unwrap(), final(self)@.temp_image.unwrap()),
            final(self)@ == (MyAppView {
                color_image: final(self)@.color_image,
                temp_image: final(self)@.temp_image,
                ..old(self)@
            }),
    {
        proof {
            use_type_invariant(&*self);
        }
        self.color_image = new_image.clone();
        self.temp_image = new_image.clone();
    }

    /// The captured image.
    pub fn color_image(&self) -> (r: &Option<I>)
        ensures
            *r == self@.color_image,
    {
        &self.color_image
    }

    pub fn set_color_image(&mut self, image: Option<I>)
        ensures
            final(self)@ == (MyAppView { color_image: image, ..old(self)@ }),
    {
        proof {
            use_type_invariant(&*self);
        }
        self.color_image = image;
    }

    /// After the corners of the selection were put back in order, the status
    /// follows them (see `corrected_status`).
    pub fn correct_status(&mut self, swapped_x: bool, swapped_y: bool)
        ensures
            final(self)@ == (MyAppView {
                status: corrected_status_spec(old(self)@.status, swapped_x, swapped_y),
                ..old(self)@
            }),
    {
        proof {
            use_type_invariant(&*self);
        }
        self.status = corrected_status(self.status, swapped_x, swapped_y);
    }

    /// The decisions of one frame over the selection (see `plan_scale`).
    pub fn scale_plan(&self, pointer: Option<HandleHits>) -> (r: ScalePlan)
        ensures
            r == crate::selection::plan_scale_spec(self@.status, pointer),
    {
        plan_scale(self.status, pointer)
    }

    /// The area update of one frame: the status moves on and the update to
    /// carry out is returned (see `plan_area_update`).
    pub fn begin_area_update(&mut self, hovered: Status, primary_down: bool) -> (r: AreaUpdate)
        requires
            primary_down ==> old(self)@.status != Status::Select,
        ensures
            (final(self)@.status, r) == crate::selection::plan_area_update_spec(
                old(self)@.status,
                hovered,
                primary_down,
            ),
            final(self)@ == (MyAppView { status: final(self)@.status, ..old(self)@ }),
    {
        proof {
            use_type_invariant(&*self);
        }
        let (s, u) = plan_area_update(self.status, hovered, primary_down);
        self.status = s;
        u
    }

    /// One step of drawing a new selection (see `plan_select`); returns
    /// whether the area is to be redrawn.
    pub fn select_step(&mut self, primary_released: bool, primary_down: bool) -> (r: bool)
        ensures
            (final(self)@.status, r) == crate::selection::plan_select_spec(
                old(self)@.status,
                primary_released,
                primary_down,
            ),
            final(self)@ == (MyAppView { status: final(self)@.status, ..old(self)@ }),
    {
        proof {
            use_type_invariant(&*self);
        }
        let (s, redraw) = plan_select(self.status, primary_released, primary_down);
        self.status = s;
        redraw
    }

    /// The status after looking at which places the pointer is near (see
    /// `grabbed_status`).
    pub fn grab(&mut self, grabs: Grabs)
        ensures
            final(self)@ == (MyAppView {
                status: crate::selection::grabbed_status_spec(old(self)@.status, grabs),
                ..old(self)@
            }),
    {
        proof {
            use_type_invariant(&*self);
        }
        self.status = grabbed_status(self.status, grabs);
    }

    // ----- the capture flow -----
    pub fn is_acquiring(&self) -> (r: bool)
        ensures
            r == self@.acquiring,
    {
        self.acquiring
    }

    pub fn is_acquired(&self) -> (r: bool)
        ensures
            r == self@.acquired,
    {
        self.acquired
    }

    pub fn counter(&self) -> (r: usize)
        ensures
            r == self@.counter,
    {
        self.counter
    }

    /// The start view (shortcut hint) is shown: nothing is being or was
    /// captured.
    pub fn shows_start(&self) -> (r: bool)
        ensures
            r == (!self@.acquiring && !self@.acquired),
    {
        !self.acquiring && !self.acquired
    }

    /// The captured image is shown for annotation.
    pub fn shows_capture(&self) -> (r: bool)
        ensures
            r == (self@.acquired && !self@.acquiring),
    {
        self.acquired && !self.acquiring
    }

    /// A new capture is asked for (button or shortcut).
    pub fn start_capture(&mut self)
        ensures
            final(self)@ == (MyAppView { acquiring: true, ..old(self)@ }),
    {
        proof {
            use_type_invariant(&*self);
        }
        self.acquiring = true;
    }

    /// One frame of an ongoing capture (see `MyAppView::ticked`).
    pub fn tick(&mut self) -> (r: Tick)
        requires
            old(self)@.counter < usize::MAX,
        ensures
            (final(self)@, r) == old(self)@.ticked(),
            old(self)@.counter + 1 != CAPTURE_FRAME ==> final(self)@ == (MyAppView {
                counter: old(self)@.counter + 1,
                ..old(self)@
            }),
            old(self)@.counter + 1 != CAPTURE_FRAME ==> r == (Tick {
                capture_now: false,
                done: false,
                overlay: old(self)@.counter >= CAPTURE_FRAME,
            }),
            old(self)@.counter + 1 == CAPTURE_FRAME ==> r.capture_now && r.done == (old(self)@.capture
                == FULL_SCREEN) && !r.overlay,
    {
        proof {
            use_type_invariant(&*self);
        }
        self.counter = self.counter + 1;
        if self.counter == CAPTURE_FRAME {
            self.acquired = false;
            if self.capture == FULL_SCREEN {
                self.acquiring = false;
                self.acquired = true;
                self.counter = 0;
                Tick { capture_now: true, done: true, overlay: false }
            } else {
                Tick { capture_now: true, done: false, overlay: false }
            }
        } else {
            Tick { capture_now: false, done: false, overlay: self.counter > CAPTURE_FRAME }
        }
    }

    /// The region drawn on the overlay was released.
    pub fn region_released(&mut self)
        ensures
            final(self)@ == (MyAppView { acquired: true, ..old(self)@ }),
    {
        proof {
            use_type_invariant(&*self);
        }
        self.acquired = true;
    }

    /// The region was cut out of the capture: the capture flow ends.
    pub fn region_taken(&mut self)
        ensures
            final(self)@ == (MyAppView { acquiring: false, counter: 0, ..old(self)@ }),
    {
        proof {
            use_type_invariant(&*self);
        }
        self.acquiring = false;
        self.counter = 0;
    }

    /// Save or copy was pressed: a screenshot of the window is asked for on
    /// the next frame.
    pub fn request_export(&mut self)
        ensures
            final(self)@ == (MyAppView { counter: 1, ..old(self)@ }),
    {
        proof {
            use_type_invariant(&*self);
        }
        self.counter = 1;
    }

    /// Whether a screenshot of the window is to be requested this frame; the
    /// request is consumed.
    pub fn take_export_request(&mut self) -> (r: bool)
        ensures
            r == (old(self)@.acquired && old(self)@.counter == 1),
            (final(self)@, r) == old(self)@.export_taken(),
            r ==> final(self)@ == (MyAppView { counter: 0, ..old(self)@ }),
            !r ==> final(self)@ == old(self)@,
    {
        proof {
            use_type_invariant(&*self);
        }
        if self.acquired && self.counter == 1 {
            self.counter = 0;
            true
        } else {
            false
        }
    }

    /// A screenshot of the window arrived: it is to be cut and saved.
    pub fn screenshot_arrived(&mut self)
        ensures
            final(self)@ == (MyAppView { cutting: true, ..old(self)@ }),
    {
        proof {
            use_type_invariant(&*self);
        }
        self.cutting = true;
    }

    pub fn is_cutting(&self) -> (r: bool)
        ensures
            r == self@.cutting,
    {
        self.cutting
    }

    /// The screenshot was cut and saved.
    pub fn cut_done(&mut self)
        ensures
            final(self)@ == (MyAppView { cutting: false, ..old(self)@ }),
    {
        proof {
            use_type_invariant(&*self);
        }
        self.cutting = false;
    }

    // ----- the options -----
    pub fn capture(&self) -> (r: usize)
        ensures
            r == self@.capture,
            r < CAPTURE_MODES,
    {
        proof {
            use_type_invariant(self);
        }
        self.capture
    }

    pub fn set_capture(&mut self, capture: usize)
        requires
            capture < CAPTURE_MODES,
        ensures
            final(self)@ == (MyAppView { capture: capture as int, ..old(self)@ }),
    {
        proof {
            use_type_invariant(&*self);
        }
        self.capture = capture;
    }

    pub fn delay(&self) -> (r: usize)
        ensures
            r == self@.delay,
            r < DELAY_CHOICES,
    {
        proof {
            use_type_invariant(self);
        }
        self.delay
    }

    pub fn set_delay(&mut self, delay: usize)
        requires
            delay < DELAY_CHOICES,
        ensures
            final(self)@ == (MyAppView { delay: delay as int, ..old(self)@ }),
    {
        proof {
            use_type_invariant(&*self);
        }
        self.delay = delay;
    }

    /// The delay to wait before capturing, in seconds.
    pub fn capture_delay(&self) -> (r: u64)
        ensures
            r == delay_table(self@.delay),
    {
        proof {
            use_type_invariant(self);
        }
        delay_seconds(self.delay)
    }

    pub fn screen(&self) -> (r: usize)
        ensures
            r == self@.screen,
            r >= 1,
    {
        proof {
            use_type_invariant(self);
        }
        self.screen
    }

    pub fn set_screen(&mut self, screen: usize)
        requires
            screen >= 1,
        ensures
            final(self)@ == (MyAppView { screen: screen as int, ..old(self)@ }),
    {
        proof {
            use_type_invariant(&*self);
        }
        self.screen = screen;
    }

    // ----- cropping -----
    pub fn is_cropping(&self) -> (r: bool)
        ensures
            r == self@.is_cropping,
    {
        self.is_cropping
    }

    pub fn set_cropping(&mut self, cropping: bool)
        ensures
            final(self)@ == (MyAppView { is_cropping: cropping, ..old(self)@ }),
    {
        proof {
            use_type_invariant(&*self);
        }
        self.is_cropping = cropping;
    }

    pub fn is_cropped(&self) -> (r: bool)
        ensures
            r == self@.cropped,
    {
        self.cropped
    }

    pub fn set_cropped(&mut self, cropped: bool)
        ensures
            final(self)@ == (MyAppView { cropped: cropped, ..old(self)@ }),
    {
        proof {
            use_type_invariant(&*self);
        }
        self.cropped = cropped;
    }
}

/// The screen is captured on the capture frame and on no other: counting
/// from a capture just asked for, the frames before the capture frame neither
/// capture nor show the overlay, and the capture frame captures.
pub proof fn law_capture_waits_for_its_frame<R, I>(v: MyAppView<R, I>, n: nat)
    requires
        v.counter == 0,
        n < CAPTURE_FRAME,
    ensures
        v.after_ticks(n).counter == n,
        v.after_ticks(n).acquiring == v.acquiring,
        v.after_ticks(n).capture == v.capture,
        n + 1 < CAPTURE_FRAME ==> v.after_ticks(n).ticked().1 == (Tick {
            capture_now: false,
            done: false,
            overlay: false,
        }),
        n + 1 == CAPTURE_FRAME ==> v.after_ticks(n).ticked().1.capture_now,
    decreases n,
{
    if n > 0 {
        law_capture_waits_for_its_frame(v, (n - 1) as nat);
    }
}

/// In whole-screen mode the capture frame ends the capture with the image
/// taken; in the other modes the overlay is shown from the next frame on.
pub proof fn law_capture_frame_outcome<R, I>(v: MyAppView<R, I>)
    requires
        v.counter + 1 == CAPTURE_FRAME,
    ensures
        v.capture == FULL_SCREEN ==> !v.ticked().0.acquiring && v.ticked().0.acquired
            && v.ticked().0.counter == 0,
        v.capture != FULL_SCREEN ==> !v.ticked().0.acquired && v.ticked().0.ticked().1.overlay,
{
}

/// Every frame of an ongoing capture other than the capture frame only
/// counts: nothing else of the state changes, nothing is captured, and the
/// overlay shows exactly when the capture frame is past.
pub proof fn law_other_frames_only_count<R, I>(v: MyAppView<R, I>)
    requires
        v.counter + 1 != CAPTURE_FRAME,
    ensures
        v.ticked().0 == (MyAppView { counter: v.counter + 1, ..v }),
        !v.ticked().1.capture_now,
        !v.ticked().1.done,
        v.ticked().1.overlay <==> v.counter >= CAPTURE_FRAME,
{
}

/// The capture frame captures; in whole-screen mode it ends the capture with
/// the image taken and the counter back at zero, otherwise it only forgets
/// the previous capture and counts. The options, the selection and the
/// images are left as they were.
pub proof fn law_capture_frame_changes<R, I>(v: MyAppView<R, I>)
    requires
        v.counter + 1 == CAPTURE_FRAME,
    ensures
        v.ticked().1.capture_now,
        !v.ticked().1.overlay,
        v.ticked().1.done <==> v.capture == FULL_SCREEN,
        v.capture == FULL_SCREEN ==> v.ticked().0 == (MyAppView {
            acquiring: false,
            acquired: true,
            counter: 0,
            ..v
        }),
        v.capture != FULL_SCREEN ==> v.ticked().0 == (MyAppView {
            acquired: false,
            counter: CAPTURE_FRAME as int,
            ..v
        }),
{
}

/// Counting from a capture just asked for in a mode other than whole screen,
/// `n` frames leave the counter at `n` and everything else as it was but for
/// the capture being forgotten once the capture frame is reached.
pub proof fn law_frames_counted<R, I>(v: MyAppView<R, I>, n: nat)
    requires
        v.counter == 0,
        v.capture != FULL_SCREEN,
    ensures
        v.after_ticks(n) == (MyAppView {
            counter: n as int,
            acquired: if n >= CAPTURE_FRAME {
                false
            } else {
                v.acquired
            },
            ..v
        }),
    decreases n,
{
    if n > 0 {
        law_frames_counted(v, (n - 1) as nat);
    }
}

/// Once the capture frame is past (rectangle or window mode), every further
/// frame shows the overlay and captures nothing, until a region is drawn.
pub proof fn law_overlay_stays_after_capture<R, I>(v: MyAppView<R, I>, n: nat)
    requires
        v.counter == 0,
        v.capture != FULL_SCREEN,
    ensures
        v.after_ticks((CAPTURE_FRAME + n) as nat).ticked().1 == (Tick {
            capture_now: false,
            done: false,
            overlay: true,
        }),
{
    law_frames_counted(v, (CAPTURE_FRAME + n) as nat);
}

/// A region released on the overlay is still there on the next frame: the
/// frame keeps `acquired`, so the region is taken.
pub proof fn law_released_region_survives_a_frame<R, I>(v: MyAppView<R, I>)
    requires
        v.counter >= CAPTURE_FRAME,
    ensures
        (MyAppView { acquired: true, ..v }).ticked().0.acquired,
        (MyAppView { acquired: true, ..v }).ticked().0.acquiring == v.acquiring,
        (MyAppView { acquired: true, ..v }).ticked().1.overlay,
{
}

/// Taking an export request changes nothing but the counter: what is shown
/// (`acquired`, `acquiring`) stays; without a pending request nothing
/// changes at all.
pub proof fn law_export_touches_only_counter<R, I>(v: MyAppView<R, I>)
    ensures
        v.export_taken().1 <==> (v.acquired && v.counter == 1),
        v.export_taken().1 ==> v.export_taken().0 == (MyAppView { counter: 0, ..v }),
        !v.export_taken().1 ==> v.export_taken().0 == v,
        v.export_taken().0.acquired == v.acquired,
        v.export_taken().0.acquiring == v.acquiring,
{
}

/// An export asked for while a capture is shown is carried out once: the
/// request is seen on the next frame and not again.
pub proof fn law_export_request_is_taken_once<R, I>(v: MyAppView<R, I>)
    requires
        v.acquired,
    ensures
        (MyAppView { counter: 1, ..v }).export_taken().1,
        !(MyAppView { counter: 1, ..v }).export_taken().0.export_taken().1,
{
}

} // verus!
