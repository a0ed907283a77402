//! The keyboard's persistent state: the overlay controller and the event
//! emitter.
//!
//! The state lives across frames.  Each frame the host layer asks
//! [`KeyboardState::begin_frame`] whether the overlay is visible (the
//! hysteresis of [`crate::visibility`] decides), renders the geometry of
//! [`crate::geometry`] when it is, reports the rendered height and the
//! pointer position back through [`KeyboardState::finish_frame`], and
//! drains [`KeyboardState::take_events`] into its input queue at the
//! start of the *next* frame — events are delivered at a frame boundary,
//! never mid-frame.  Key presses go through [`KeyboardState::press_key`],
//! which queues synthetic events and flips the shift and symbol modes.
//!
//! The host layer is in charge of everything only it can do: reading
//! focus and clipboard, requesting repaints and focus, and suppressing
//! the native input method while the overlay is visible.

use vstd::prelude::*;
use vstd::string::StringExecFns;
use crate::keys::Key;
use crate::visibility::VisibilityTracker;
use crate::visibility::next_counter;

verus! {

/// A synthetic input event, queued for the host's input stream.
pub enum InputEvent {
    /// Insert this text at the caret.
    TextInsert(String),
    /// One backspace key press: no modifiers, not a repeat.
    BackspacePress,
}

/// Mathematical view of an input event: the text as a character sequence.
pub enum EventView {
    TextInsert(Seq<char>),
    BackspacePress,
}

impl View for InputEvent {
    type V = EventView;

    open spec fn view(&self) -> EventView {
        match self {
            InputEvent::TextInsert(text) => EventView::TextInsert(text@),
            InputEvent::BackspacePress => EventView::BackspacePress,
        }
    }
}

/// The views of a queue of events, oldest first.
pub open spec fn event_views(events: Seq<InputEvent>) -> Seq<EventView> {
    events.map_values(|event: InputEvent| event@)
}

proof fn lemma_event_views_push(events: Seq<InputEvent>, event: InputEvent)
    ensures
        event_views(events.push(event)) =~= event_views(events).push(event@),
{
}

/// What pressing `key` appends to the event queue: text keys insert
/// their label, the space bar inserts a single space, backspace queues a
/// backspace press, and the two mode toggles emit nothing at all.
pub open spec fn events_after_press(events: Seq<EventView>, key: Key) -> Seq<EventView> {
    match key {
        Key::Text(label) => events.push(EventView::TextInsert(label@)),
        Key::Backspace => events.push(EventView::BackspacePress),
        Key::ShiftToggle => events,
        Key::Space => events.push(EventView::TextInsert(seq![' '])),
        Key::SymbolToggle => events,
    }
}

/// Shift state after pressing `key`: only the shift toggle flips it.
pub open spec fn shift_after_press(shift_active: bool, key: Key) -> bool {
    if key is ShiftToggle {
        !shift_active
    } else {
        shift_active
    }
}

/// Symbol mode after pressing `key`: only the symbol toggle flips it.
pub open spec fn symbol_after_press(symbol_mode: bool, key: Key) -> bool {
    if key is SymbolToggle {
        !symbol_mode
    } else {
        symbol_mode
    }
}

/// Toggle idempotence: pressing a mode toggle twice restores the
/// mode it toggles, and neither press emits any input event.
pub proof fn lemma_toggle_idempotent(events: Seq<EventView>, shift_active: bool, symbol_mode: bool)
    ensures
        shift_after_press(shift_after_press(shift_active, Key::ShiftToggle), Key::ShiftToggle)
            == shift_active,
        events_after_press(events_after_press(events, Key::ShiftToggle), Key::ShiftToggle)
            == events,
        symbol_after_press(symbol_after_press(symbol_mode, Key::SymbolToggle), Key::SymbolToggle)
            == symbol_mode,
        events_after_press(events_after_press(events, Key::SymbolToggle), Key::SymbolToggle)
            == events,
{
}

/// The overlay's explicit state machine: hidden, or rendered this frame.
#[derive(Clone, Copy, PartialEq, Eq, Structural)]
pub enum OverlayPhase {
    Hidden,
    Visible,
}

/// What the host layer must do this frame.
pub struct FrameDirective {
    /// Render the keyboard this frame.
    pub visible: bool,
    /// Request a repaint for the next frame, so the visibility countdown
    /// keeps ticking even without further input.  Always equal to
    /// `visible`.
    pub repaint: bool,
}

/// Persistent keyboard state, parameterised over the host's widget
/// identifier type `W`.
///
/// Invariant [`KeyboardState::wf`]: a hidden keyboard has no recorded
/// overlay height — leaving the visible state clears it, so the height
/// is `None` exactly when the keyboard is not shown.
pub struct KeyboardState<W> {
    pub shift_active: bool,
    pub symbol_mode: bool,
    pub tracker: VisibilityTracker,
    pub phase: OverlayPhase,
    /// Height of the most recently rendered overlay, in whole pixels.
    pub overlay_height: Option<u64>,
    /// The text widget that had focus before the keyboard took it.
    pub remembered_target: Option<W>,
    /// Events queued for the host's next input-processing phase.
    pub pending_events: Vec<InputEvent>,
    /// Glyph shown on the shift key while shift is active.
    pub shift_glyph_shift_on: char,
    /// Glyph shown on the shift key while shift is inactive.
    pub shift_glyph_shift_off: char,
    /// Glyph shown on the backspace key.
    pub backspace_glyph: char,
}

impl<W> KeyboardState<W> {
    /// The state invariant held between frames: a hidden keyboard has no
    /// recorded overlay height.
    pub open spec fn wf(&self) -> bool {
        self.phase is Hidden ==> self.overlay_height is None
    }

    /// The construction parameters: two shift glyphs and one backspace
    /// glyph never change after construction.
    pub open spec fn same_config(&self, other: &Self) -> bool {
        &&& self.shift_glyph_shift_on == other.shift_glyph_shift_on
        &&& self.shift_glyph_shift_off == other.shift_glyph_shift_off
        &&& self.backspace_glyph == other.backspace_glyph
    }

    pub open spec fn same_modes(&self, other: &Self) -> bool {
        &&& self.shift_active == other.shift_active
        &&& self.symbol_mode == other.symbol_mode
    }

    pub open spec fn same_visibility(&self, other: &Self) -> bool {
        &&& self.tracker == other.tracker
        &&& self.phase == other.phase
        &&& self.overlay_height == other.overlay_height
    }

    pub open spec fn same_queue(&self, other: &Self) -> bool {
        self.pending_events@ == other.pending_events@
    }

    pub open spec fn same_target(&self, other: &Self) -> bool {
        self.remembered_target == other.remembered_target
    }

    /// A fresh keyboard: hidden, lower case, letter grid, nothing queued.
    pub fn new(shift_characters: [char; 2], backspace_character: char) -> (state: Self)
        ensures
            state.wf(),
            !state.shift_active,
            !state.symbol_mode,
            state.tracker.counter == 0,
            state.phase is Hidden,
            state.overlay_height is None,
            state.remembered_target is None,
            state.pending_events@.len() == 0,
            state.shift_glyph_shift_on == shift_characters@[0],
            state.shift_glyph_shift_off == shift_characters@[1],
            state.backspace_glyph == backspace_character,
    {
        KeyboardState {
            shift_active: false,
            symbol_mode: false,
            tracker: VisibilityTracker::new(),
            phase: OverlayPhase::Hidden,
            overlay_height: None,
            remembered_target: None,
            pending_events: Vec::new(),
            shift_glyph_shift_on: shift_characters[0],
            shift_glyph_shift_off: shift_characters[1],
            backspace_glyph: backspace_character,
        }
    }

    /// Captures which widget had focus, *before* rendering: only while
    /// the host wants keyboard input, so that clicks on the keyboard's
    /// own buttons — which steal focus — never overwrite the remembered
    /// text widget.
    pub fn remember_input_widget(&mut self, host_wants_focus: bool, focused: Option<W>)
        ensures
            host_wants_focus ==> final(self).remembered_target == focused,
            !host_wants_focus ==> final(self).same_target(old(self)),
            final(self).same_config(old(self)),
            final(self).same_modes(old(self)),
            final(self).same_visibility(old(self)),
            final(self).same_queue(old(self)),
            old(self).wf() ==> final(self).wf(),
    {
        if host_wants_focus {
            self.remembered_target = focused;
        }
    }

    /// Advances the visibility hysteresis by one frame and moves the
    /// overlay state machine: `Hidden -> Visible` as soon as the keyboard
    /// is needed, `Visible -> Hidden` when it stops being needed — which
    /// also clears the recorded overlay height.  While the directive says
    /// the keyboard is visible, the host must render it, request a
    /// repaint, and suppress its native input method.
    pub fn begin_frame(&mut self, host_wants_focus: bool) -> (directive: FrameDirective)
        requires
            old(self).wf(),
        ensures
            final(self).wf(),
            final(self).tracker.counter == next_counter(
                old(self).tracker.counter as nat,
                host_wants_focus,
            ),
            directive.visible == (host_wants_focus || old(self).tracker.counter > 0),
            directive.repaint == directive.visible,
            directive.visible <==> final(self).phase is Visible,
            !directive.visible ==> final(self).overlay_height is None,
            directive.visible ==> final(self).overlay_height == old(self).overlay_height,
            final(self).same_config(old(self)),
            final(self).same_modes(old(self)),
            final(self).same_queue(old(self)),
            final(self).same_target(old(self)),
    {
        let visible = self.tracker.update(host_wants_focus);
        if visible {
            self.phase = OverlayPhase::Visible;
        } else {
            self.phase = OverlayPhase::Hidden;
            self.overlay_height = None;
        }
        FrameDirective { visible, repaint: visible }
    }

    /// Records the height the overlay was just rendered at.  When the
    /// pointer is over the keyboard, focus must be forced back to the
    /// remembered widget, so the focus-loss hide cannot fire while the
    /// user is still interacting with the keyboard.
    pub fn finish_frame(&mut self, overlay_height: u64, pointer_over_keyboard: bool) -> (
        restore_focus: bool)
        requires
            old(self).wf(),
            old(self).phase is Visible,
        ensures
            final(self).wf(),
            final(self).overlay_height == Some(overlay_height),
            restore_focus == pointer_over_keyboard,
            final(self).same_config(old(self)),
            final(self).same_modes(old(self)),
            final(self).same_queue(old(self)),
            final(self).same_target(old(self)),
            final(self).phase == old(self).phase,
            final(self).tracker == old(self).tracker,
    {
        self.overlay_height = Some(overlay_height);
        pointer_over_keyboard
    }

    /// The event emitter: queues what `key` emits and flips the mode
    /// toggles.  After any press the host should restore focus to the
    /// remembered widget.
    pub fn press_key(&mut self, key: &Key)
        ensures
            event_views(final(self).pending_events@) == events_after_press(
                event_views(old(self).pending_events@),
                *key,
            ),
            final(self).shift_active == shift_after_press(old(self).shift_active, *key),
            final(self).symbol_mode == symbol_after_press(old(self).symbol_mode, *key),
            final(self).same_config(old(self)),
            final(self).same_visibility(old(self)),
            final(self).same_target(old(self)),
            old(self).wf() ==> final(self).wf(),
    {
        match key {
            Key::Text(label) => {
                let event = InputEvent::TextInsert(label.clone());
                proof {
                    lemma_event_views_push(self.pending_events@, event);
                }
                self.pending_events.push(event);
            },
            Key::Backspace => {
                let event = InputEvent::BackspacePress;
                proof {
                    lemma_event_views_push(self.pending_events@, event);
                }
                self.pending_events.push(event);
            },
            Key::ShiftToggle => {
                self.shift_active = !self.shift_active;
            },
            Key::Space => {
                let text = String::from_str(" ");
                proof {
                    reveal_strlit(" ");
                    assert(text@ =~= seq![' ']);
                }
                let event = InputEvent::TextInsert(text);
                proof {
                    lemma_event_views_push(self.pending_events@, event);
                }
                self.pending_events.push(event);
            },
            Key::SymbolToggle => {
                self.symbol_mode = !self.symbol_mode;
            },
        }
    }

    /// A press of the clipboard-paste button: the queued insertion
    /// carries the *full* clipboard text, even though the button shows
    /// only a trimmed preview (see [`crate::clipboard`]).
    pub fn press_clipboard(&mut self, clipboard_text: &str)
        ensures
            event_views(final(self).pending_events@) == event_views(
                old(self).pending_events@,
            ).push(EventView::TextInsert(clipboard_text@)),
            final(self).same_config(old(self)),
            final(self).same_modes(old(self)),
            final(self).same_visibility(old(self)),
            final(self).same_target(old(self)),
            old(self).wf() ==> final(self).wf(),
    {
        let event = InputEvent::TextInsert(clipboard_text.to_owned());
        proof {
            lemma_event_views_push(self.pending_events@, event);
        }
        self.pending_events.push(event);
    }

    /// Drains the queued events, oldest first.  The host must append
    /// them to its input stream before it processes widget logic for the
    /// next frame.
    pub fn take_events(&mut self) -> (events: Vec<InputEvent>)
        ensures
            events@ == old(self).pending_events@,
            final(self).pending_events@.len() == 0,
            final(self).same_config(old(self)),
            final(self).same_modes(old(self)),
            final(self).same_visibility(old(self)),
            final(self).same_target(old(self)),
            old(self).wf() ==> final(self).wf(),
    {
        let mut events: Vec<InputEvent> = Vec::new();
        core::mem::swap(&mut events, &mut self.pending_events);
        events
    }

    /// The glyph the shift key shows in the current shift state.
    pub fn shift_glyph(&self) -> (glyph: char)
        ensures
            glyph == if self.shift_active {
                self.shift_glyph_shift_on
            } else {
                self.shift_glyph_shift_off
            },
    {
        if self.shift_active {
            self.shift_glyph_shift_on
        } else {
            self.shift_glyph_shift_off
        }
    }

    /// The label the symbol toggle shows: the way back to the letters
    /// while the symbol grid is up, the way to the symbols otherwise.
    pub fn symbol_label(&self) -> (label: &'static str)
        ensures
            self.symbol_mode ==> label@ == "ABC"@,
            !self.symbol_mode ==> label@ == "!#1"@,
    {
        if self.symbol_mode {
            "ABC"
        } else {
            "!#1"
        }
    }

    /// Height of the screen area the keyboard is guaranteed not to
    /// cover: the full screen while hidden, the screen minus the last
    /// rendered overlay height while shown.
    pub fn safe_height(&self, screen_height: u64) -> (height: u64)
        ensures
            self.overlay_height is None ==> height == screen_height,
            self.overlay_height matches Some(overlay) ==> height == if overlay <= screen_height {
                screen_height - overlay
            } else {
                0
            },
    {
        match self.overlay_height {
            None => screen_height,
            Some(overlay) => {
                if overlay <= screen_height {
                    screen_height - overlay
                } else {
                    0
                }
            },
        }
    }
}

} // verus!
