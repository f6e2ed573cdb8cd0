use crate::bind::{Bind, Key, KeyboardShortcut, ModifierNames, Modifiers, PointerButton};
use vstd::prelude::*;
use vstd::string::*;

verus! {

/// egui's widget identity, carried unopened for egui's memory.
#[verifier::external_type_specification]
#[verifier::external_body]
pub struct ExId(egui::Id);

/// One input event of a frame, as far as the capture reads it.
#[derive(Clone, Copy, Debug, PartialEq, Eq, Structural)]
pub enum InputEvent {
    /// A key went down (`pressed`) or up, with the modifiers held; `repeat`
    /// marks a press that the keyboard's auto-repeat sent.
    Key { key: Key, modifiers: Modifiers, pressed: bool, repeat: bool },
    /// A mouse button went down (`pressed`) or up.
    PointerButton { button: PointerButton, pressed: bool },
    /// Any other event.
    Other,
}

/// The shortcut an event offers for capture: a fresh key press, not a repeat.
pub open spec fn key_capture(e: InputEvent) -> Option<KeyboardShortcut> {
    match e {
        InputEvent::Key { key, modifiers, pressed, repeat } => if pressed && !repeat {
            Some(KeyboardShortcut { modifiers, logical_key: key })
        } else {
            None
        },
        _ => None,
    }
}

/// The button an event offers for capture: a press of any button but the
/// primary and the secondary one, which stay free to click the widget.
pub open spec fn pointer_capture(e: InputEvent) -> Option<PointerButton> {
    match e {
        InputEvent::PointerButton { button, pressed } => if pressed && button
            != PointerButton::Primary && button != PointerButton::Secondary {
            Some(button)
        } else {
            None
        },
        _ => None,
    }
}

/// The shortcut of the first event that offers one.
pub open spec fn first_key_capture(events: Seq<InputEvent>) -> Option<KeyboardShortcut>
    decreases events.len(),
{
    if events.len() == 0 {
        None
    } else {
        match key_capture(events[0]) {
            Some(s) => Some(s),
            None => first_key_capture(events.drop_first()),
        }
    }
}

/// The button of the first event that offers one.
pub open spec fn first_pointer_capture(events: Seq<InputEvent>) -> Option<PointerButton>
    decreases events.len(),
{
    if events.len() == 0 {
        None
    } else {
        match pointer_capture(events[0]) {
            Some(b) => Some(b),
            None => first_pointer_capture(events.drop_first()),
        }
    }
}

/// Some event presses `key`, a repeat or not.
pub open spec fn key_went_down(events: Seq<InputEvent>, key: Key) -> bool {
    exists|i: int|
        0 <= i < events.len() && (#[trigger] events[i] matches InputEvent::Key { key: k, pressed: true, .. }
            && k == key)
}

/// The first fresh key press of the frame, as a shortcut.
fn find_key_capture(events: &Vec<InputEvent>) -> (r: Option<KeyboardShortcut>)
    ensures
        r == first_key_capture(events@),
{
    let n = events.len();
    let mut i: usize = 0;
    assert(events@.subrange(0, n as int) =~= events@);
    while i < n
        invariant
            n == events@.len(),
            i <= n,
            first_key_capture(events@) == first_key_capture(events@.subrange(i as int, n as int)),
        decreases n - i,
    {
        assert(events@.subrange(i as int, n as int).drop_first() =~= events@.subrange(
            i as int + 1,
            n as int,
        ));
        match events[i] {
            InputEvent::Key { key, modifiers, pressed, repeat } => {
                if pressed && !repeat {
                    return Some(KeyboardShortcut::new(modifiers, key));
                }
            },
            _ => {},
        }
        i = i + 1;
    }
    None
}

/// The first press of a button that may be captured.
fn find_pointer_capture(events: &Vec<InputEvent>) -> (r: Option<PointerButton>)
    ensures
        r == first_pointer_capture(events@),
{
    let n = events.len();
    let mut i: usize = 0;
    assert(events@.subrange(0, n as int) =~= events@);
    while i < n
        invariant
            n == events@.len(),
            i <= n,
            first_pointer_capture(events@) == first_pointer_capture(
                events@.subrange(i as int, n as int),
            ),
        decreases n - i,
    {
        assert(events@.subrange(i as int, n as int).drop_first() =~= events@.subrange(
            i as int + 1,
            n as int,
        ));
        match events[i] {
            InputEvent::PointerButton { button, pressed } => {
                if pressed && button != PointerButton::Primary && button
                    != PointerButton::Secondary {
                    return Some(button);
                }
            },
            _ => {},
        }
        i = i + 1;
    }
    None
}

/// Whether some event of the frame presses `key`.
fn key_down_in(events: &Vec<InputEvent>, key: Key) -> (r: bool)
    ensures
        r == key_went_down(events@, key),
{
    let n = events.len();
    let mut i: usize = 0;
    while i < n
        invariant
            n == events@.len(),
            i <= n,
            forall|j: int|
                0 <= j < i ==> !(#[trigger] events@[j] matches InputEvent::Key {
                    key: k,
                    pressed: true,
                    ..
                } && k == key),
        decreases n - i,
    {
        match events[i] {
            InputEvent::Key { key: k, pressed, .. } => {
                if pressed && k == key {
                    assert(events@[i as int] matches InputEvent::Key { key: k, pressed: true, .. } && k == key);
                    return true;
                }
            },
            _ => {},
        }
        i = i + 1;
    }
    false
}

/// A key press flagged as a repeat is never captured: in a frame whose key
/// presses are all repeats, no keyboard shortcut is captured.
pub proof fn lemma_repeat_not_captured(events: Seq<InputEvent>)
    requires
        forall|i: int|
            0 <= i < events.len() ==> !(#[trigger] events[i] matches InputEvent::Key {
                pressed: true,
                repeat: false,
                ..
            }),
    ensures
        first_key_capture(events) is None,
    decreases events.len(),
{
    if events.len() > 0 {
        assert(!(events[0] matches InputEvent::Key { pressed: true, repeat: false, .. }));
        let rest = events.drop_first();
        assert forall|i: int| 0 <= i < rest.len() implies !(#[trigger] rest[i] matches InputEvent::Key {
            pressed: true,
            repeat: false,
            ..
        }) by {
            assert(rest[i] == events[i + 1]);
        }
        lemma_repeat_not_captured(rest);
    }
}

/// What one frame did to a keybind.
#[derive(Clone, Copy, Debug, PartialEq, Eq, Structural)]
pub struct Transition {
    /// The keybind is listening for input after the frame.
    pub listening: bool,
    /// The binding was overwritten this frame.
    pub changed: bool,
}

/// The binding and the transition that one frame gives, from the binding,
/// the reset value and key, the state the frame starts in, whether the keybind
/// was clicked (which toggles it), whether a click landed elsewhere, and the
/// frame's input. While listening: a click elsewhere stops listening and
/// changes nothing; else a press of the reset key restores the reset value;
/// else one captured part is handed to `set`: the first fresh key press if
/// there is one, else the first press of a button other than the primary and
/// secondary one, so a key press wins over a button press in the same frame;
/// else the keybind goes on listening.
pub open spec fn frame<B: Bind>(
    bind: B,
    reset: B,
    reset_key: Option<Key>,
    listening: bool,
    clicked: bool,
    clicked_elsewhere: bool,
    events: Seq<InputEvent>,
) -> (B, Transition) {
    let kb = first_key_capture(events);
    let p = first_pointer_capture(events);
    if listening == clicked || clicked_elsewhere {
        (bind, Transition { listening: false, changed: false })
    } else if reset_key matches Some(k) && key_went_down(events, k) {
        (reset, Transition { listening: false, changed: true })
    } else if kb is Some {
        (bind.after_set(kb, None), Transition { listening: false, changed: true })
    } else if p is Some {
        (bind.after_set(None, p), Transition { listening: false, changed: true })
    } else {
        (bind, Transition { listening: true, changed: false })
    }
}

/// A click on an idle keybind starts listening, and a click elsewhere while
/// listening stops it, both leaving the binding as it was: the first in a
/// frame with nothing to capture and no reset key press, the second whatever
/// the frame holds.
pub proof fn lemma_click_and_click_elsewhere<B: Bind>(
    bind: B,
    reset: B,
    reset_key: Option<Key>,
    events: Seq<InputEvent>,
    later_events: Seq<InputEvent>,
)
    requires
        first_key_capture(events) is None,
        first_pointer_capture(events) is None,
        !(reset_key matches Some(k) && key_went_down(events, k)),
    ensures
        frame(bind, reset, reset_key, false, true, false, events) == (
        bind,
        Transition { listening: true, changed: false },
        ),
        frame(bind, reset, reset_key, true, false, true, later_events) == (
        bind,
        Transition { listening: false, changed: false },
        ),
{
}

/// A keybind (hotkey) widget's state: the binding it edits and how it is set up.
pub struct Keybind<B: Bind> {
    /// The binding being edited.
    pub bind: B,
    /// What the reset key restores.
    pub reset: B,
    /// Text shown next to the keybind and read out for accessibility.
    pub text: String,
    /// The keybind's identity in egui's memory.
    pub id: egui::Id,
    /// The key that restores `reset` while listening, if any.
    pub reset_key: Option<Key>,
    /// The modifier names used to show the binding.
    pub modifier_names: ModifierNames,
}

impl<B: Bind> Keybind<B> {
    /// A keybind for `bind`, which is also what the reset key restores; with
    /// no text, no reset key and the spelled-out modifier names.
    pub fn new(bind: B, id: egui::Id) -> (r: Self)
        ensures
            r.bind == bind,
            r.reset == bind,
            r.text@ == Seq::<char>::empty(),
            r.id == id,
            r.reset_key is None,
            !r.modifier_names.is_short,
            r.modifier_names.alt@ == "Alt"@,
            r.modifier_names.ctrl@ == "Ctrl"@,
            r.modifier_names.shift@ == "Shift"@,
            r.modifier_names.mac_cmd@ == "Cmd"@,
            r.modifier_names.mac_alt@ == "Option"@,
            r.modifier_names.concat@ == "+"@,
    {
        Keybind {
            bind,
            reset: bind,
            text: String::new(),
            id,
            reset_key: None,
            modifier_names: ModifierNames::names(),
        }
    }

    /// Sets the text shown next to the keybind; empty for none.
    pub fn with_text(self, text: String) -> (r: Self)
        ensures
            r == (Keybind { text, ..self }),
    {
        Keybind { text, ..self }
    }

    /// Sets the binding being edited.
    pub fn with_bind(self, bind: B) -> (r: Self)
        ensures
            r == (Keybind { bind, ..self }),
    {
        Keybind { bind, ..self }
    }

    /// Sets the keybind's identity in egui's memory.
    pub fn with_id(self, id: egui::Id) -> (r: Self)
        ensures
            r == (Keybind { id, ..self }),
    {
        Keybind { id, ..self }
    }

    /// Sets the key that restores the reset value; none never resets.
    pub fn with_reset_key(self, key: Option<Key>) -> (r: Self)
        ensures
            r == (Keybind { reset_key: key, ..self }),
    {
        Keybind { reset_key: key, ..self }
    }

    /// Sets what the reset key restores.
    pub fn with_reset(self, prev_bind: B) -> (r: Self)
        ensures
            r == (Keybind { reset: prev_bind, ..self }),
    {
        Keybind { reset: prev_bind, ..self }
    }

    /// Sets the modifier names used to show the binding.
    pub fn with_modifier_names(self, modifier_names: ModifierNames) -> (r: Self)
        ensures
            r == (Keybind { modifier_names, ..self }),
    {
        Keybind { modifier_names, ..self }
    }

    /// The binding as shown on the keybind's button.
    pub fn label(&self) -> (r: String)
        ensures
            r@ == self.bind.text(&self.modifier_names, false),
    {
        self.bind.format(&self.modifier_names, false)
    }

    /// What is read out for accessibility: the binding, then ". " and the
    /// text if there is any.
    pub fn description(&self) -> (r: String)
        ensures
            r@ == if self.text@.len() == 0 {
                self.bind.text(&self.modifier_names, false)
            } else {
                self.bind.text(&self.modifier_names, false) + ". "@ + self.text@
            },
    {
        let mut s = self.label();
        if !self.text.as_str().is_empty() {
            s.append(". ");
            s.append(self.text.as_str());
        }
        s
    }

    /// One frame of the keybind, as `frame` gives it. `listening` is the state
    /// the frame starts in, `clicked` whether the keybind was clicked,
    /// `clicked_elsewhere` whether a click landed outside it, and `events` the
    /// frame's input.
    pub fn update(
        &mut self,
        listening: bool,
        clicked: bool,
        clicked_elsewhere: bool,
        events: &Vec<InputEvent>,
    ) -> (r: Transition)
        ensures
            final(self).reset == old(self).reset,
            final(self).text == old(self).text,
            final(self).id == old(self).id,
            final(self).reset_key == old(self).reset_key,
            final(self).modifier_names == old(self).modifier_names,
            (final(self).bind, r) == frame(
                old(self).bind,
                old(self).reset,
                old(self).reset_key,
                listening,
                clicked,
                clicked_elsewhere,
                events@,
            ),
    {
        let mut expecting = listening;
        if clicked {
            expecting = !expecting;
        }
        let mut changed = false;
        if expecting {
            if clicked_elsewhere {
                expecting = false;
            } else {
                let kb = find_key_capture(events);
                let pointer = find_pointer_capture(events);
                if kb.is_some() {
                    let mut b = self.bind;
                    b.set(kb, None);
                    self.bind = b;
                    changed = true;
                    expecting = false;
                } else if pointer.is_some() {
                    let mut b = self.bind;
                    b.set(None, pointer);
                    self.bind = b;
                    changed = true;
                    expecting = false;
                }
                if let Some(k) = self.reset_key {
                    if key_down_in(events, k) {
                        self.bind = self.reset;
                        changed = true;
                        expecting = false;
                    }
                }
            }
        }
        Transition { listening: expecting, changed }
    }
}

} // verus!
