use vstd::prelude::*;
use vstd::string::*;

verus! {

/// Number of logical keys egui knows: the length of `egui::Key::ALL`.
pub const KEY_COUNT: u8 = 104;

/// A logical key, held as its position in `egui::Key::ALL`.
#[derive(Clone, Copy, Debug, PartialEq, Eq, Structural)]
pub struct Key {
    code: u8,
}

/// The English name egui gives the key at a position of `egui::Key::ALL`.
pub uninterp spec fn key_name(code: u8) -> Seq<char>;

/// The symbol egui shows for the key at a position of `egui::Key::ALL`, or its
/// name where it has no symbol.
pub uninterp spec fn key_symbol_or_name(code: u8) -> Seq<char>;

impl Key {
    #[verifier::type_invariant]
    spec fn inv(self) -> bool {
        self.code < KEY_COUNT
    }

    /// The key's position in `egui::Key::ALL`.
    pub closed spec fn index(self) -> u8 {
        self.code
    }

    /// The key at position `code` of `egui::Key::ALL`, if there is one.
    pub fn from_code(code: u8) -> (r: Option<Key>)
        ensures
            code < KEY_COUNT <==> r is Some,
            r matches Some(k) ==> k.index() == code,
    {
        if code < KEY_COUNT {
            Some(Key { code })
        } else {
            None
        }
    }

    /// The key's position in `egui::Key::ALL`.
    pub fn code(&self) -> (r: u8)
        ensures
            r == self.index(),
            r < KEY_COUNT,
    {
        proof {
            use_type_invariant(self);
        }
        self.code
    }
}

/// Relies on `egui::Key::name`: the English name of a key, never empty.
#[verifier::external_body]
fn key_text(code: u8) -> (r: String)
    requires
        code < KEY_COUNT,
    ensures
        r@ == key_name(code),
        r@.len() > 0,
{
    egui::Key::ALL[code as usize].name().to_string()
}

/// The modifier keys held down with a key.
#[derive(Clone, Copy, Debug, PartialEq, Eq, Structural)]
pub struct Modifiers {
    pub alt: bool,
    pub ctrl: bool,
    pub shift: bool,
    pub mac_cmd: bool,
    pub command: bool,
}

/// A key together with the modifiers that must be held with it.
#[derive(Clone, Copy, Debug, PartialEq, Eq, Structural)]
pub struct KeyboardShortcut {
    pub modifiers: Modifiers,
    pub logical_key: Key,
}

impl KeyboardShortcut {
    pub fn new(modifiers: Modifiers, logical_key: Key) -> (r: KeyboardShortcut)
        ensures
            r.modifiers == modifiers,
            r.logical_key == logical_key,
    {
        KeyboardShortcut { modifiers, logical_key }
    }
}

/// A mouse button.
#[derive(Clone, Copy, Debug, PartialEq, Eq, Structural)]
pub enum PointerButton {
    Primary,
    Secondary,
    Middle,
    Extra1,
    Extra2,
}

/// The name of a mouse button, as its `Debug` text.
pub open spec fn button_name(b: PointerButton) -> Seq<char> {
    match b {
        PointerButton::Primary => "Primary"@,
        PointerButton::Secondary => "Secondary"@,
        PointerButton::Middle => "Middle"@,
        PointerButton::Extra1 => "Extra1"@,
        PointerButton::Extra2 => "Extra2"@,
    }
}

impl PointerButton {
    fn name(self) -> (r: String)
        ensures
            r@ == button_name(self),
            r@.len() > 0,
    {
        proof {
            reveal_strlit("Primary");
            reveal_strlit("Secondary");
            reveal_strlit("Middle");
            reveal_strlit("Extra1");
            reveal_strlit("Extra2");
        }
        match self {
            PointerButton::Primary => String::from_str("Primary"),
            PointerButton::Secondary => String::from_str("Secondary"),
            PointerButton::Middle => String::from_str("Middle"),
            PointerButton::Extra1 => String::from_str("Extra1"),
            PointerButton::Extra2 => String::from_str("Extra2"),
        }
    }
}

/// The words used for the modifier keys when a shortcut is shown.
#[derive(Clone, Debug)]
pub struct ModifierNames {
    /// Show a key by its symbol where it has one.
    pub is_short: bool,
    pub alt: String,
    pub ctrl: String,
    pub shift: String,
    pub mac_cmd: String,
    pub mac_alt: String,
    /// What goes between the names.
    pub concat: String,
}

/// Relies on `egui::ModifierNames::NAMES`, the spelled-out modifier names.
#[verifier::external_body]
fn standard_names() -> (r: ModifierNames)
    ensures
        !r.is_short,
        r.alt@ == "Alt"@,
        r.ctrl@ == "Ctrl"@,
        r.shift@ == "Shift"@,
        r.mac_cmd@ == "Cmd"@,
        r.mac_alt@ == "Option"@,
        r.concat@ == "+"@,
{
    let n = egui::ModifierNames::NAMES;
    ModifierNames {
        is_short: n.is_short,
        alt: n.alt.to_string(),
        ctrl: n.ctrl.to_string(),
        shift: n.shift.to_string(),
        mac_cmd: n.mac_cmd.to_string(),
        mac_alt: n.mac_alt.to_string(),
        concat: n.concat.to_string(),
    }
}

impl ModifierNames {
    /// Alt, Ctrl, Shift, Cmd and Option, joined by "+".
    pub fn names() -> (r: ModifierNames)
        ensures
            !r.is_short,
            r.alt@ == "Alt"@,
            r.ctrl@ == "Ctrl"@,
            r.shift@ == "Shift"@,
            r.mac_cmd@ == "Cmd"@,
            r.mac_alt@ == "Option"@,
            r.concat@ == "+"@,
    {
        standard_names()
    }
}

/// `s` with `name` added when `active`, after `concat` if `s` is not empty.
pub open spec fn append_if(s: Seq<char>, active: bool, name: Seq<char>, concat: Seq<char>) -> Seq<char> {
    if active {
        if s.len() > 0 {
            s + concat + name
        } else {
            name
        }
    } else {
        s
    }
}

/// The names of the modifiers in `m`, in the order egui shows them.
pub open spec fn modifiers_text(names: &ModifierNames, m: Modifiers, is_mac: bool) -> Seq<char> {
    let c = names.concat@;
    if is_mac {
        let s = append_if(Seq::empty(), m.ctrl, names.ctrl@, c);
        let s = append_if(s, m.shift, names.shift@, c);
        let s = append_if(s, m.alt, names.mac_alt@, c);
        append_if(s, m.mac_cmd || m.command, names.mac_cmd@, c)
    } else {
        let s = append_if(Seq::empty(), m.ctrl || m.command, names.ctrl@, c);
        let s = append_if(s, m.alt, names.alt@, c);
        append_if(s, m.shift, names.shift@, c)
    }
}

/// What stands before the key in a shown shortcut: the modifier names and,
/// if there are any, one more `concat`.
pub open spec fn shortcut_prefix(names: &ModifierNames, m: Modifiers, is_mac: bool) -> Seq<char> {
    let mods = modifiers_text(names, m, is_mac);
    if mods.len() > 0 {
        mods + names.concat@
    } else {
        mods
    }
}

/// How a key is shown: its symbol for short names, else its name.
pub open spec fn key_label(k: Key, is_short: bool) -> Seq<char> {
    if is_short {
        key_symbol_or_name(k.index())
    } else {
        key_name(k.index())
    }
}

/// How a keyboard shortcut is shown.
pub open spec fn shortcut_text_of(names: &ModifierNames, s: KeyboardShortcut, is_mac: bool) -> Seq<char> {
    shortcut_prefix(names, s.modifiers, is_mac) + key_label(s.logical_key, names.is_short)
}

/// Relies on `egui::KeyboardShortcut::format`: the modifier names joined by
/// `names.concat`, then `concat` again if there were any, then the key's symbol
/// (short names) or name. The key's part is never empty.
#[verifier::external_body]
fn shortcut_text(names: &ModifierNames, s: KeyboardShortcut, is_mac: bool) -> (r: String)
    requires
        s.logical_key.code < KEY_COUNT,
    ensures
        r@ == shortcut_prefix(names, s.modifiers, is_mac) + (if names.is_short {
            key_symbol_or_name(s.logical_key.code)
        } else {
            key_name(s.logical_key.code)
        }),
        r@.len() > 0,
{
    let n = egui::ModifierNames {
        is_short: names.is_short,
        alt: &names.alt,
        ctrl: &names.ctrl,
        shift: &names.shift,
        mac_cmd: &names.mac_cmd,
        mac_alt: &names.mac_alt,
        concat: &names.concat,
    };
    let m = s.modifiers;
    let mods = egui::Modifiers { alt: m.alt, ctrl: m.ctrl, shift: m.shift, mac_cmd: m.mac_cmd, command: m.command };
    egui::KeyboardShortcut::new(mods, egui::Key::ALL[s.logical_key.code as usize]).format(&n, is_mac)
}

impl KeyboardShortcut {
    fn shown(&self, names: &ModifierNames, is_mac: bool) -> (r: String)
        ensures
            r@ == shortcut_text_of(names, *self, is_mac),
            r@.len() > 0,
    {
        proof {
            use_type_invariant(&self.logical_key);
        }
        shortcut_text(names, *self, is_mac)
    }
}


/// Relies on `egui::InputState::consume_shortcut`: whether the shortcut was
/// pressed this frame; a matching key press is taken out of the input.
#[verifier::external_body]
fn consume_shortcut(input: &mut egui::InputState, s: KeyboardShortcut) -> bool
    requires
        s.logical_key.code < KEY_COUNT,
{
    let m = s.modifiers;
    let mods = egui::Modifiers { alt: m.alt, ctrl: m.ctrl, shift: m.shift, mac_cmd: m.mac_cmd, command: m.command };
    input.consume_shortcut(&egui::KeyboardShortcut::new(mods, egui::Key::ALL[s.logical_key.code as usize]))
}

/// Relies on `egui::InputState::key_pressed`: whether the key went down this frame.
#[verifier::external_body]
fn key_pressed(input: &egui::InputState, code: u8) -> bool
    requires
        code < KEY_COUNT,
{
    input.key_pressed(egui::Key::ALL[code as usize])
}

/// Relies on `egui::PointerState::button_pressed`: whether the button went down this frame.
#[verifier::external_body]
fn button_pressed(input: &egui::InputState, b: PointerButton) -> bool {
    input.pointer.button_pressed(match b {
        PointerButton::Primary => egui::PointerButton::Primary,
        PointerButton::Secondary => egui::PointerButton::Secondary,
        PointerButton::Middle => egui::PointerButton::Middle,
        PointerButton::Extra1 => egui::PointerButton::Extra1,
        PointerButton::Extra2 => egui::PointerButton::Extra2,
    })
}

/// Relies on `egui::PointerState::button_clicked`: whether the button was clicked this frame.
#[verifier::external_body]
fn button_clicked(input: &egui::InputState, b: PointerButton) -> bool {
    input.pointer.button_clicked(match b {
        PointerButton::Primary => egui::PointerButton::Primary,
        PointerButton::Secondary => egui::PointerButton::Secondary,
        PointerButton::Middle => egui::PointerButton::Middle,
        PointerButton::Extra1 => egui::PointerButton::Extra1,
        PointerButton::Extra2 => egui::PointerButton::Extra2,
    })
}

/// egui's input for one frame, carried unopened to the calls that test and
/// consume it.
#[verifier::external_type_specification]
#[verifier::external_body]
pub struct ExInputState(egui::InputState);

/// A value that a keybind can hold: it is set from a captured key and/or
/// mouse button, shown as text, and tested against a frame's input.
pub trait Bind: Copy + Sized {
    /// The value after `set(keyboard, pointer)`.
    spec fn after_set(self, keyboard: Option<KeyboardShortcut>, pointer: Option<PointerButton>) -> Self;

    /// The text `format` gives.
    spec fn text(self, names: &ModifierNames, is_mac: bool) -> Seq<char>;

    /// Nothing is bound.
    spec fn is_unbound(self) -> bool;

    /// `pressed` may take a matched key press out of the input.
    spec fn consumes(self) -> bool;

    /// Sets the binding from a captured keyboard shortcut and/or mouse button.
    fn set(&mut self, keyboard: Option<KeyboardShortcut>, pointer: Option<PointerButton>)
        ensures
            *final(self) == old(self).after_set(keyboard, pointer),
    ;

    /// The binding as text; "None" when nothing is bound.
    fn format(&self, names: &ModifierNames, is_mac: bool) -> (r: String)
        ensures
            r@ == self.text(names, is_mac),
            self.is_unbound() ==> r@ == "None"@,
            !self.is_unbound() ==> r@.len() > 0,
    ;

    /// Whether the binding is pressed in this frame's input; a matched
    /// keyboard shortcut is consumed. An unbound value is never pressed, and
    /// a value that does not consume leaves the input as it was.
    fn pressed(&self, input: &mut egui::InputState) -> (r: bool)
        ensures
            self.is_unbound() ==> !r,
            self.is_unbound() ==> *final(input) == *old(input),
            !self.consumes() ==> *final(input) == *old(input),
    ;
}

impl Bind for KeyboardShortcut {
    /// A captured shortcut replaces this one; without one it stays.
    open spec fn after_set(self, keyboard: Option<KeyboardShortcut>, pointer: Option<PointerButton>) -> Self {
        match keyboard {
            Some(k) => k,
            None => self,
        }
    }

    open spec fn text(self, names: &ModifierNames, is_mac: bool) -> Seq<char> {
        shortcut_text_of(names, self, is_mac)
    }

    open spec fn is_unbound(self) -> bool {
        false
    }

    open spec fn consumes(self) -> bool {
        true
    }

    fn set(&mut self, keyboard: Option<KeyboardShortcut>, pointer: Option<PointerButton>) {
        if let Some(k) = keyboard {
            *self = k;
        }
    }

    fn format(&self, names: &ModifierNames, is_mac: bool) -> (r: String) {
        self.shown(names, is_mac)
    }

    fn pressed(&self, input: &mut egui::InputState) -> (r: bool) {
        proof {
            use_type_invariant(&self.logical_key);
        }
        consume_shortcut(input, *self)
    }
}

impl Bind for Option<KeyboardShortcut> {
    /// Takes the captured shortcut, or none.
    open spec fn after_set(self, keyboard: Option<KeyboardShortcut>, pointer: Option<PointerButton>) -> Self {
        keyboard
    }

    open spec fn text(self, names: &ModifierNames, is_mac: bool) -> Seq<char> {
        match self {
            Some(s) => shortcut_text_of(names, s, is_mac),
            None => "None"@,
        }
    }

    open spec fn is_unbound(self) -> bool {
        self is None
    }

    open spec fn consumes(self) -> bool {
        self is Some
    }

    fn set(&mut self, keyboard: Option<KeyboardShortcut>, pointer: Option<PointerButton>) {
        *self = keyboard;
    }

    fn format(&self, names: &ModifierNames, is_mac: bool) -> (r: String) {
        match self {
            Some(s) => s.shown(names, is_mac),
            None => String::from_str("None"),
        }
    }

    fn pressed(&self, input: &mut egui::InputState) -> (r: bool) {
        match self {
            Some(s) => {
                proof {
                    use_type_invariant(&s.logical_key);
                }
                consume_shortcut(input, *s)
            },
            None => false,
        }
    }
}

impl Bind for Key {
    /// Takes the key of a captured shortcut, without its modifiers.
    open spec fn after_set(self, keyboard: Option<KeyboardShortcut>, pointer: Option<PointerButton>) -> Self {
        match keyboard {
            Some(k) => k.logical_key,
            None => self,
        }
    }

    open spec fn text(self, names: &ModifierNames, is_mac: bool) -> Seq<char> {
        key_name(self.index())
    }

    open spec fn is_unbound(self) -> bool {
        false
    }

    open spec fn consumes(self) -> bool {
        false
    }

    fn set(&mut self, keyboard: Option<KeyboardShortcut>, pointer: Option<PointerButton>) {
        if let Some(k) = keyboard {
            *self = k.logical_key;
        }
    }

    fn format(&self, names: &ModifierNames, is_mac: bool) -> (r: String) {
        key_text(self.code())
    }

    fn pressed(&self, input: &mut egui::InputState) -> (r: bool) {
        key_pressed(input, self.code())
    }
}

impl Bind for Option<Key> {
    /// Takes the key of a captured shortcut; without one it stays.
    open spec fn after_set(self, keyboard: Option<KeyboardShortcut>, pointer: Option<PointerButton>) -> Self {
        match keyboard {
            Some(k) => Some(k.logical_key),
            None => self,
        }
    }

    open spec fn text(self, names: &ModifierNames, is_mac: bool) -> Seq<char> {
        match self {
            Some(k) => key_name(k.index()),
            None => "None"@,
        }
    }

    open spec fn is_unbound(self) -> bool {
        self is None
    }

    open spec fn consumes(self) -> bool {
        false
    }

    fn set(&mut self, keyboard: Option<KeyboardShortcut>, pointer: Option<PointerButton>) {
        if let Some(k) = keyboard {
            *self = Some(k.logical_key);
        }
    }

    fn format(&self, names: &ModifierNames, is_mac: bool) -> (r: String) {
        match self {
            Some(k) => key_text(k.code()),
            None => String::from_str("None"),
        }
    }

    fn pressed(&self, input: &mut egui::InputState) -> (r: bool) {
        match self {
            Some(k) => key_pressed(input, k.code()),
            None => false,
        }
    }
}

impl Bind for PointerButton {
    /// Takes the captured button; without one it stays.
    open spec fn after_set(self, keyboard: Option<KeyboardShortcut>, pointer: Option<PointerButton>) -> Self {
        match pointer {
            Some(p) => p,
            None => self,
        }
    }

    open spec fn text(self, names: &ModifierNames, is_mac: bool) -> Seq<char> {
        button_name(self)
    }

    open spec fn is_unbound(self) -> bool {
        false
    }

    open spec fn consumes(self) -> bool {
        false
    }

    fn set(&mut self, keyboard: Option<KeyboardShortcut>, pointer: Option<PointerButton>) {
        if let Some(p) = pointer {
            *self = p;
        }
    }

    fn format(&self, names: &ModifierNames, is_mac: bool) -> (r: String) {
        self.name()
    }

    fn pressed(&self, input: &mut egui::InputState) -> (r: bool) {
        button_pressed(input, *self)
    }
}

impl Bind for Option<PointerButton> {
    /// Takes the captured button, or none.
    open spec fn after_set(self, keyboard: Option<KeyboardShortcut>, pointer: Option<PointerButton>) -> Self {
        pointer
    }

    open spec fn text(self, names: &ModifierNames, is_mac: bool) -> Seq<char> {
        match self {
            Some(p) => button_name(p),
            None => "None"@,
        }
    }

    open spec fn is_unbound(self) -> bool {
        self is None
    }

    open spec fn consumes(self) -> bool {
        false
    }

    fn set(&mut self, keyboard: Option<KeyboardShortcut>, pointer: Option<PointerButton>) {
        *self = pointer;
    }

    fn format(&self, names: &ModifierNames, is_mac: bool) -> (r: String) {
        match self {
            Some(p) => p.name(),
            None => String::from_str("None"),
        }
    }

    fn pressed(&self, input: &mut egui::InputState) -> (r: bool) {
        match self {
            Some(p) => button_pressed(input, *p),
            None => false,
        }
    }
}

/// A keybind that can be set with the keyboard, a mouse button, or both.
#[derive(Clone, Copy, Debug, PartialEq, Eq, Structural)]
pub struct Shortcut {
    /// Keyboard shortcut, if any. This can be set along with the mouse button.
    pub keyboard: Option<KeyboardShortcut>,
    /// Mouse button, if any. This can be set along with the keyboard shortcut.
    pub pointer: Option<PointerButton>,
}

impl Default for Shortcut {
    /// No keybind.
    fn default() -> (r: Shortcut)
        ensures
            r.keyboard is None,
            r.pointer is None,
    {
        Shortcut { keyboard: None, pointer: None }
    }
}

/// The keyboard part of a shortcut as text, empty when there is none.
pub open spec fn keyboard_text(names: &ModifierNames, keyboard: Option<KeyboardShortcut>, is_mac: bool) -> Seq<char> {
    match keyboard {
        Some(k) => shortcut_text_of(names, k, is_mac),
        None => Seq::empty(),
    }
}

/// The keyboard part, then "+" if both it is not empty and there is a mouse
/// button, then the button's name.
pub open spec fn joined_text(names: &ModifierNames, s: Shortcut, is_mac: bool) -> Seq<char> {
    let k = keyboard_text(names, s.keyboard, is_mac);
    match s.pointer {
        Some(p) => if k.len() > 0 {
            k + "+"@ + button_name(p)
        } else {
            button_name(p)
        },
        None => k,
    }
}

impl Shortcut {
    /// No keybind: neither a keyboard part nor a mouse button.
    pub fn none() -> (r: Shortcut)
        ensures
            r.keyboard is None,
            r.pointer is None,
    {
        Shortcut { keyboard: None, pointer: None }
    }

    /// A shortcut from its keyboard part and its mouse button.
    pub fn new(keyboard: Option<KeyboardShortcut>, pointer: Option<PointerButton>) -> (r: Shortcut)
        ensures
            r.keyboard == keyboard,
            r.pointer == pointer,
    {
        Shortcut { keyboard, pointer }
    }

    /// Keyboard shortcut, if any.
    pub fn keyboard(&self) -> (r: Option<KeyboardShortcut>)
        ensures
            r == self.keyboard,
    {
        self.keyboard
    }

    /// Mouse button, if any.
    pub fn pointer(&self) -> (r: Option<PointerButton>)
        ensures
            r == self.pointer,
    {
        self.pointer
    }

    /// Whether the shortcut fires, given whether its keyboard part was pressed
    /// and whether its mouse button was clicked: with a keyboard part that must
    /// be pressed, and the button, if there is one, clicked too; without one the
    /// click of the button alone decides.
    pub open spec fn fires(self, keyboard_hit: bool, pointer_hit: bool) -> bool {
        match (self.keyboard, self.pointer) {
            (Some(_), Some(_)) => keyboard_hit && pointer_hit,
            (Some(_), None) => keyboard_hit,
            (None, Some(_)) => pointer_hit,
            (None, None) => false,
        }
    }

    /// Decides whether the shortcut fires from what the input showed of its parts.
    pub fn triggered(&self, keyboard_hit: bool, pointer_hit: bool) -> (r: bool)
        ensures
            r == self.fires(keyboard_hit, pointer_hit),
    {
        let mut hit = false;
        if self.keyboard.is_some() {
            hit = keyboard_hit;
        }
        if self.pointer.is_some() {
            if self.keyboard.is_none() {
                return pointer_hit;
            }
            hit = hit && pointer_hit;
        }
        hit
    }
}

impl Bind for Shortcut {
    /// Both parts are replaced: an absent argument clears its part.
    open spec fn after_set(self, keyboard: Option<KeyboardShortcut>, pointer: Option<PointerButton>) -> Self {
        Shortcut { keyboard, pointer }
    }

    open spec fn text(self, names: &ModifierNames, is_mac: bool) -> Seq<char> {
        let j = joined_text(names, self, is_mac);
        if j.len() == 0 {
            "None"@
        } else {
            j
        }
    }

    open spec fn is_unbound(self) -> bool {
        self.keyboard is None && self.pointer is None
    }

    open spec fn consumes(self) -> bool {
        self.keyboard is Some
    }

    fn set(&mut self, keyboard: Option<KeyboardShortcut>, pointer: Option<PointerButton>) {
        self.keyboard = keyboard;
        self.pointer = pointer;
    }

    fn format(&self, names: &ModifierNames, is_mac: bool) -> (r: String) {
        let mut string = match self.keyboard {
            Some(k) => k.shown(names, is_mac),
            None => String::new(),
        };
        if let Some(p) = self.pointer {
            if !string.as_str().is_empty() {
                string.append("+");
            }
            let name = p.name();
            string.append(name.as_str());
        }
        if string.as_str().is_empty() {
            proof {
                reveal_strlit("None");
            }
            string.append("None");
        }
        string
    }

    fn pressed(&self, input: &mut egui::InputState) -> (r: bool) {
        let mut keyboard_hit = false;
        if let Some(k) = self.keyboard {
            proof {
                use_type_invariant(&k.logical_key);
            }
            keyboard_hit = consume_shortcut(input, k);
        }
        let mut pointer_hit = false;
        if let Some(p) = self.pointer {
            pointer_hit = button_clicked(input, p);
        }
        self.triggered(keyboard_hit, pointer_hit)
    }
}

/// `set(None, None)` clears both parts of a shortcut, which then shows as "None".
pub proof fn lemma_clear_shows_none(s: Shortcut, names: &ModifierNames, is_mac: bool)
    ensures
        s.after_set(None, None).is_unbound(),
        s.after_set(None, None).text(names, is_mac) == "None"@,
{
}

/// A shortcut shows a "+" of its own only between a non-empty keyboard part and
/// a mouse button, and never first or last: its text is the keyboard part, the
/// separator and the button's name ("None" where all three are empty), and the
/// separator is "+" exactly when both of those stand around it.
pub proof fn lemma_separator_only_between(s: Shortcut, names: &ModifierNames, is_mac: bool)
    ensures
        ({
            let k = keyboard_text(names, s.keyboard, is_mac);
            let p = match s.pointer {
                Some(b) => button_name(b),
                None => Seq::empty(),
            };
            let sep = if k.len() > 0 && s.pointer is Some {
                "+"@
            } else {
                Seq::empty()
            };
            let j = k + sep + p;
            &&& s.text(names, is_mac) == if j.len() == 0 {
                "None"@
            } else {
                j
            }
            &&& sep.len() > 0 ==> 0 < k.len() && k.len() + 1 < j.len()
        }),
{
    reveal_strlit("+");
    reveal_strlit("Primary");
    reveal_strlit("Secondary");
    reveal_strlit("Middle");
    reveal_strlit("Extra1");
    reveal_strlit("Extra2");
    let k = keyboard_text(names, s.keyboard, is_mac);
    match s.pointer {
        Some(b) => {
            assert(button_name(b).len() > 0);
            if k.len() == 0 {
                assert(k + Seq::<char>::empty() + button_name(b) =~= button_name(b));
            }
        },
        None => {
            assert(k + Seq::<char>::empty() + Seq::<char>::empty() =~= k);
        },
    }
}

/// Setting both parts of a shortcut shows it as the keyboard text, "+", and
/// the button's name, for keyboard text that is not empty (egui's never is).
pub proof fn lemma_set_both_shows_joined(
    s: Shortcut,
    keyboard: KeyboardShortcut,
    pointer: PointerButton,
    names: &ModifierNames,
    is_mac: bool,
)
    requires
        shortcut_text_of(names, keyboard, is_mac).len() > 0,
    ensures
        s.after_set(Some(keyboard), Some(pointer)).text(names, is_mac) == shortcut_text_of(
            names,
            keyboard,
            is_mac,
        ) + "+"@ + button_name(pointer),
{
}

/// Showing a binding depends on the binding, the names and the platform
/// alone: two calls of `format` with no `set` between them give the same text.
pub proof fn lemma_format_is_stable<B: Bind>(
    b: B,
    names: &ModifierNames,
    is_mac: bool,
    first: Seq<char>,
    second: Seq<char>,
)
    requires
        first == b.text(names, is_mac),
        second == b.text(names, is_mac),
    ensures
        first == second,
{
}

impl From<Shortcut> for Option<KeyboardShortcut> {
    fn from(value: Shortcut) -> (r: Option<KeyboardShortcut>) {
        value.keyboard
    }
}

impl vstd::std_specs::convert::FromSpecImpl<Shortcut> for Option<KeyboardShortcut> {
    open spec fn obeys_from_spec() -> bool {
        true
    }

    open spec fn from_spec(v: Shortcut) -> Option<KeyboardShortcut> {
        v.keyboard
    }
}

impl From<Shortcut> for Option<PointerButton> {
    fn from(value: Shortcut) -> (r: Option<PointerButton>) {
        value.pointer
    }
}

impl vstd::std_specs::convert::FromSpecImpl<Shortcut> for Option<PointerButton> {
    open spec fn obeys_from_spec() -> bool {
        true
    }

    open spec fn from_spec(v: Shortcut) -> Option<PointerButton> {
        v.pointer
    }
}

} // verus!
