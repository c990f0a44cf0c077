use vstd::prelude::*;
use crate::input::{HeldKeys, Key};

verus! {

/// How the pointer is handled while a frame is drawn.
#[derive(Clone, Copy, Debug, PartialEq, Eq, Structural)]
pub enum CursorMode {
    /// Hidden and confined to the window, feeding mouse-look.
    Captured,
    /// Visible and free, for working the settings panel.
    Released,
}

/// The viewer's interaction state: held keys and the two overlay toggles.
///
/// Escape opens and closes the settings panel, F2 shows and hides the
/// frame-rate readout. While the panel is open, mouse motion does not
/// turn the camera and the pointer is released.
#[derive(Clone, Copy, Debug)]
pub struct Controls {
    keys: HeldKeys,
    show_ui: bool,
    show_fps: bool,
}

impl Controls {
    /// The keys held down.
    pub closed spec fn held(&self) -> Set<Key> {
        self.keys@
    }

    /// Whether the settings panel is open.
    pub closed spec fn ui_shown(&self) -> bool {
        self.show_ui
    }

    /// Whether the frame-rate readout is shown.
    pub closed spec fn fps_shown(&self) -> bool {
        self.show_fps
    }

    /// No key held, settings panel closed, frame-rate readout shown.
    pub fn new() -> (r: Controls)
        ensures
            r.held() == Set::<Key>::empty(),
            !r.ui_shown(),
            r.fps_shown(),
    {
        Controls { keys: HeldKeys::new(), show_ui: false, show_fps: true }
    }

    /// A key went down (repeats included): it is held from now on, and
    /// Escape or F2 flips its toggle.
    pub fn key_pressed(&mut self, k: Key)
        ensures
            final(self).held() == old(self).held().insert(k),
            final(self).ui_shown() == (old(self).ui_shown() != (k == Key::Escape)),
            final(self).fps_shown() == (old(self).fps_shown() != (k == Key::F2)),
    {
        self.keys.press(k);
        if k == Key::Escape {
            self.show_ui = !self.show_ui;
        }
        if k == Key::F2 {
            self.show_fps = !self.show_fps;
        }
    }

    /// A key came up: it is no longer held. The toggles stay as they are.
    pub fn key_released(&mut self, k: Key)
        ensures
            final(self).held() == old(self).held().remove(k),
            final(self).ui_shown() == old(self).ui_shown(),
            final(self).fps_shown() == old(self).fps_shown(),
    {
        self.keys.release(k);
    }

    /// The keys currently held.
    pub fn keys(&self) -> (r: &HeldKeys)
        ensures
            r@ == self.held(),
    {
        &self.keys
    }

    /// Whether the settings panel is open.
    pub fn show_ui(&self) -> (r: bool)
        ensures
            r == self.ui_shown(),
    {
        self.show_ui
    }

    /// Whether the frame-rate readout is shown.
    pub fn show_fps(&self) -> (r: bool)
        ensures
            r == self.fps_shown(),
    {
        self.show_fps
    }

    /// Sets the frame-rate readout from the settings panel's checkbox.
    pub fn set_show_fps(&mut self, shown: bool)
        ensures
            final(self).fps_shown() == shown,
            final(self).ui_shown() == old(self).ui_shown(),
            final(self).held() == old(self).held(),
    {
        self.show_fps = shown;
    }

    /// Whether mouse motion turns the camera: only with the panel closed.
    pub fn look_enabled(&self) -> (r: bool)
        ensures
            r == !self.ui_shown(),
    {
        !self.show_ui
    }

    /// The pointer handling for the next frame: released while the panel
    /// is open, captured otherwise.
    pub fn cursor_mode(&self) -> (r: CursorMode)
        ensures
            r == (if self.ui_shown() { CursorMode::Released } else { CursorMode::Captured }),
    {
        if self.show_ui {
            CursorMode::Released
        } else {
            CursorMode::Captured
        }
    }
}

} // verus!
