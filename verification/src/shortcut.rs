use vstd::prelude::*;

verus! {

/// The keyboard shortcut that starts a capture, and the window that changes
/// it: while the window is open, each key pressed becomes the pending
/// shortcut; saving makes it the shortcut, closing forgets nothing but keeps
/// the shortcut as it was. `K` is the type of a key combination.
pub struct ShortcutEditor<K> {
    my_shortcut: K,
    new_shortcut: K,
    open: bool,
}

/// The state of a `ShortcutEditor` as values.
pub struct ShortcutEditorView<K> {
    pub my_shortcut: K,
    pub new_shortcut: K,
    pub open: bool,
}

impl<K> View for ShortcutEditor<K> {
    type V = ShortcutEditorView<K>;

    closed spec fn view(&self) -> ShortcutEditorView<K> {
        ShortcutEditorView { my_shortcut: self.my_shortcut, new_shortcut: self.new_shortcut, open: self.open }
    }
}

impl<K> ShortcutEditorView<K> {
    /// A combination pressed: while the window is open it becomes the pending
    /// shortcut; otherwise nothing changes.
    pub open spec fn recorded(self, pressed: K) -> ShortcutEditorView<K> {
        if self.open {
            ShortcutEditorView { new_shortcut: pressed, ..self }
        } else {
            self
        }
    }

    /// "Save": the pending combination becomes the shortcut, the window
    /// closes.
    pub open spec fn saved(self) -> ShortcutEditorView<K> {
        ShortcutEditorView { my_shortcut: self.new_shortcut, open: false, ..self }
    }

    /// "Close": the window closes, the shortcut stays.
    pub open spec fn closed(self) -> ShortcutEditorView<K> {
        ShortcutEditorView { open: false, ..self }
    }
}

impl<K: Copy> ShortcutEditor<K> {
    /// The shortcut `initial`, the window closed.
    pub fn new(initial: K) -> (r: Self)
        ensures
            r@ == (ShortcutEditorView { my_shortcut: initial, new_shortcut: initial, open: false }),
    {
        ShortcutEditor { my_shortcut: initial, new_shortcut: initial, open: false }
    }

    /// The shortcut that starts a capture.
    pub fn shortcut(&self) -> (r: K)
        ensures
            r == self@.my_shortcut,
    {
        self.my_shortcut
    }

    /// The last key combination pressed while the window was open.
    pub fn pending(&self) -> (r: K)
        ensures
            r == self@.new_shortcut,
    {
        self.new_shortcut
    }

    pub fn is_open(&self) -> (r: bool)
        ensures
            r == self@.open,
    {
        self.open
    }

    /// The window is opened.
    pub fn open(&mut self)
        ensures
            final(self)@ == (ShortcutEditorView { open: true, ..old(self)@ }),
    {
        self.open = true;
    }

    /// A key combination was pressed: while the window is open it becomes the
    /// pending shortcut; otherwise nothing changes.
    pub fn record(&mut self, pressed: K)
        ensures
            final(self)@ == old(self)@.recorded(pressed),
    {
        if self.open {
            self.new_shortcut = pressed;
        }
    }

    /// "Save": the pending combination becomes the shortcut, the window
    /// closes.
    pub fn save(&mut self)
        ensures
            final(self)@ == old(self)@.saved(),
    {
        self.my_shortcut = self.new_shortcut;
        self.open = false;
    }

    /// "Close": the window closes, the shortcut stays.
    pub fn close(&mut self)
        ensures
            final(self)@ == old(self)@.closed(),
    {
        self.open = false;
    }
}

/// Pressing a combination in the open window and saving makes it the
/// shortcut; pressing it and closing leaves the shortcut as it was; pressing
/// it while the window is closed changes nothing.
pub proof fn law_save_keeps_last_pressed<K>(v: ShortcutEditorView<K>, pressed: K)
    ensures
        v.open ==> v.recorded(pressed).saved().my_shortcut == pressed,
        v.recorded(pressed).closed().my_shortcut == v.my_shortcut,
        !v.open ==> v.recorded(pressed) == v,
        v.open ==> v.recorded(pressed).new_shortcut == pressed,
        v.recorded(pressed).my_shortcut == v.my_shortcut && v.recorded(pressed).open == v.open,
        !v.saved().open && v.saved().my_shortcut == v.new_shortcut && v.saved().new_shortcut
            == v.new_shortcut,
        !v.closed().open && v.closed().my_shortcut == v.my_shortcut && v.closed().new_shortcut
            == v.new_shortcut,
{
}

} // verus!
