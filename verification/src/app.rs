//! What the application does with keys and buttons: the actions a user can
//! ask for, and the bindings that lead to them.

use vstd::prelude::*;
use vstd::string::StringExecFns;
use vstd::string::StrSliceExecFns;

verus! {

/// Width of the window when the application starts.
pub const WIN_START_WIDTH: u32 = 1280;

/// Height of the window when the application starts.
pub const WIN_START_HEIGHT: u32 = 720;

/// The "shift" key, as a bit of a modifier mask.
pub const MOD_SHIFT: u32 = 0x4;

/// The "control" key.
pub const MOD_CONTROL: u32 = 0x20;

/// The "alt" key.
pub const MOD_ALT: u32 = 0x100;

/// The "windows" or "command" key.
pub const MOD_SUPER: u32 = 0x800;

/// Width to which a trigger is padded in a line of help.
pub const TRIGGER_WIDTH: usize = 10;

/// An event that the application sends to its own event loop.
#[derive(Debug, Clone, Copy, PartialEq, Eq, Structural)]
pub enum UserEvent {
    Resize { width: u32, height: u32 },
}

/// What a user can ask of a window.
#[derive(Debug, Clone, Copy, PartialEq, Eq, Structural)]
pub enum Action {
    CloseWindow,
    ToggleCursorVisibility,
    CreateNewWindow,
    ToggleResizeIncrements,
    ToggleImeInput,
    ToggleDecorations,
    ToggleResizable,
    ToggleFullscreen,
    ToggleMaximize,
    Minimize,
    NextCursor,
    NextCustomCursor,
    CycleCursorGrab,
    PrintHelp,
    DragWindow,
    DragResizeWindow,
    ShowWindowMenu,
    RequestResize,
}

#[derive(Debug, Clone, Copy, PartialEq, Eq, Structural)]
pub enum MouseButton {
    Left,
    Right,
    Middle,
    Back,
    Forward,
    Other(u16),
}

/// A key, with the modifiers held, and the action it asks for.
#[derive(Debug, Clone, Copy, PartialEq, Eq)]
pub struct KeyBinding {
    pub trigger: &'static str,
    pub mods: u32,
    pub action: Action,
}

/// A mouse button, with the modifiers held, and the action it asks for.
#[derive(Debug, Clone, Copy, PartialEq, Eq, Structural)]
pub struct MouseBinding {
    pub trigger: MouseButton,
    pub mods: u32,
    pub action: Action,
}

impl Action {
    /// One line that says what the action does.
    pub open spec fn help_text(self) -> Seq<char> {
        match self {
            Action::CloseWindow => "Close window"@,
            Action::ToggleCursorVisibility => "Hide cursor"@,
            Action::CreateNewWindow => "Create new window"@,
            Action::ToggleImeInput => "Toggle IME input"@,
            Action::ToggleDecorations => "Toggle decorations"@,
            Action::ToggleResizable => "Toggle window resizable state"@,
            Action::ToggleFullscreen => "Toggle fullscreen"@,
            Action::ToggleMaximize => "Maximize"@,
            Action::Minimize => "Minimize"@,
            Action::ToggleResizeIncrements => "Use resize increments when resizing window"@,
            Action::NextCursor => "Advance the cursor to the next value"@,
            Action::NextCustomCursor => "Advance custom cursor to the next value"@,
            Action::CycleCursorGrab => "Cycle through cursor grab mode"@,
            Action::PrintHelp => "Print help"@,
            Action::DragWindow => "Start window drag"@,
            Action::DragResizeWindow => "Start window drag-resize"@,
            Action::ShowWindowMenu => "Show window menu"@,
            Action::RequestResize => "Request a resize"@,
        }
    }

    /// The name of the action, as it is written in the code.
    pub open spec fn name_text(self) -> Seq<char> {
        match self {
            Action::CloseWindow => "CloseWindow"@,
            Action::ToggleCursorVisibility => "ToggleCursorVisibility"@,
            Action::CreateNewWindow => "CreateNewWindow"@,
            Action::ToggleResizeIncrements => "ToggleResizeIncrements"@,
            Action::ToggleImeInput => "ToggleImeInput"@,
            Action::ToggleDecorations => "ToggleDecorations"@,
            Action::ToggleResizable => "ToggleResizable"@,
            Action::ToggleFullscreen => "ToggleFullscreen"@,
            Action::ToggleMaximize => "ToggleMaximize"@,
            Action::Minimize => "Minimize"@,
            Action::NextCursor => "NextCursor"@,
            Action::NextCustomCursor => "NextCustomCursor"@,
            Action::CycleCursorGrab => "CycleCursorGrab"@,
            Action::PrintHelp => "PrintHelp"@,
            Action::DragWindow => "DragWindow"@,
            Action::DragResizeWindow => "DragResizeWindow"@,
            Action::ShowWindowMenu => "ShowWindowMenu"@,
            Action::RequestResize => "RequestResize"@,
        }
    }

    pub fn help(&self) -> (r: &'static str)
        ensures
            r@ == self.help_text(),
    {
        match self {
            Action::CloseWindow => "Close window",
            Action::ToggleCursorVisibility => "Hide cursor",
            Action::CreateNewWindow => "Create new window",
            Action::ToggleImeInput => "Toggle IME input",
            Action::ToggleDecorations => "Toggle decorations",
            Action::ToggleResizable => "Toggle window resizable state",
            Action::ToggleFullscreen => "Toggle fullscreen",
            Action::ToggleMaximize => "Maximize",
            Action::Minimize => "Minimize",
            Action::ToggleResizeIncrements => "Use resize increments when resizing window",
            Action::NextCursor => "Advance the cursor to the next value",
            Action::NextCustomCursor => "Advance custom cursor to the next value",
            Action::CycleCursorGrab => "Cycle through cursor grab mode",
            Action::PrintHelp => "Print help",
            Action::DragWindow => "Start window drag",
            Action::DragResizeWindow => "Start window drag-resize",
            Action::ShowWindowMenu => "Show window menu",
            Action::RequestResize => "Request a resize",
        }
    }

    /// The name under which the action is shown.
    pub fn name(&self) -> (r: &'static str)
        ensures
            r@ == self.name_text(),
    {
        match self {
            Action::CloseWindow => "CloseWindow",
            Action::ToggleCursorVisibility => "ToggleCursorVisibility",
            Action::CreateNewWindow => "CreateNewWindow",
            Action::ToggleResizeIncrements => "ToggleResizeIncrements",
            Action::ToggleImeInput => "ToggleImeInput",
            Action::ToggleDecorations => "ToggleDecorations",
            Action::ToggleResizable => "ToggleResizable",
            Action::ToggleFullscreen => "ToggleFullscreen",
            Action::ToggleMaximize => "ToggleMaximize",
            Action::Minimize => "Minimize",
            Action::NextCursor => "NextCursor",
            Action::NextCustomCursor => "NextCustomCursor",
            Action::CycleCursorGrab => "CycleCursorGrab",
            Action::PrintHelp => "PrintHelp",
            Action::DragWindow => "DragWindow",
            Action::DragResizeWindow => "DragResizeWindow",
            Action::ShowWindowMenu => "ShowWindowMenu",
            Action::RequestResize => "RequestResize",
        }
    }
}

/// The keyboard bindings at place `i`: the key, the modifiers, the action.
pub open spec fn key_binding_at(i: int) -> (Seq<char>, u32, Action) {
    if i <= 0 {
        ("Q"@, MOD_CONTROL, Action::CloseWindow)
    } else if i == 1 {
        ("H"@, MOD_CONTROL, Action::PrintHelp)
    } else if i == 2 {
        ("F"@, MOD_CONTROL, Action::ToggleFullscreen)
    } else if i == 3 {
        ("D"@, MOD_CONTROL, Action::ToggleDecorations)
    } else if i == 4 {
        ("I"@, MOD_CONTROL, Action::ToggleImeInput)
    } else if i == 5 {
        ("L"@, MOD_CONTROL, Action::CycleCursorGrab)
    } else if i == 6 {
        ("P"@, MOD_CONTROL, Action::ToggleResizeIncrements)
    } else if i == 7 {
        ("R"@, MOD_CONTROL, Action::ToggleResizable)
    } else if i == 8 {
        ("R"@, MOD_ALT, Action::RequestResize)
    } else if i == 9 {
        ("M"@, MOD_CONTROL, Action::ToggleMaximize)
    } else if i == 10 {
        ("M"@, MOD_ALT, Action::Minimize)
    } else if i == 11 {
        ("N"@, MOD_CONTROL, Action::CreateNewWindow)
    } else if i == 12 {
        ("C"@, MOD_CONTROL, Action::NextCursor)
    } else if i == 13 {
        ("C"@, MOD_ALT, Action::NextCustomCursor)
    } else {
        ("Z"@, MOD_CONTROL, Action::ToggleCursorVisibility)
    }
}

/// The number of keyboard bindings.
pub const KEY_BINDING_COUNT: usize = 15;

/// The mouse bindings, in their order.
pub open spec fn mouse_binding_table() -> Seq<MouseBinding> {
    seq![
        MouseBinding { trigger: MouseButton::Left, mods: MOD_ALT, action: Action::DragResizeWindow },
        MouseBinding { trigger: MouseButton::Left, mods: MOD_CONTROL, action: Action::DragWindow },
        MouseBinding { trigger: MouseButton::Right, mods: MOD_CONTROL, action: Action::ShowWindowMenu },
    ]
}

/// Whether `bindings` are the keyboard bindings, in their order.
pub open spec fn is_key_binding_table(bindings: Seq<KeyBinding>) -> bool {
    &&& bindings.len() == KEY_BINDING_COUNT
    &&& forall|i: int|
        0 <= i < bindings.len() ==> ((#[trigger] bindings[i]).trigger@, bindings[i].mods, bindings[i].action)
            == key_binding_at(i)
}

/// Whether the keyboard binding at place `i` is triggered by `key` with `mods`.
pub open spec fn key_triggers(i: int, key: Seq<char>, mods: u32) -> bool {
    key_binding_at(i).0 == key && key_binding_at(i).1 == mods
}

/// The keyboard bindings, in their order.
pub fn key_bindings() -> (r: Vec<KeyBinding>)
    ensures
        is_key_binding_table(r@),
{
    let mut r: Vec<KeyBinding> = Vec::new();
    r.push(KeyBinding { trigger: "Q", mods: MOD_CONTROL, action: Action::CloseWindow });
    r.push(KeyBinding { trigger: "H", mods: MOD_CONTROL, action: Action::PrintHelp });
    r.push(KeyBinding { trigger: "F", mods: MOD_CONTROL, action: Action::ToggleFullscreen });
    r.push(KeyBinding { trigger: "D", mods: MOD_CONTROL, action: Action::ToggleDecorations });
    r.push(KeyBinding { trigger: "I", mods: MOD_CONTROL, action: Action::ToggleImeInput });
    r.push(KeyBinding { trigger: "L", mods: MOD_CONTROL, action: Action::CycleCursorGrab });
    r.push(KeyBinding { trigger: "P", mods: MOD_CONTROL, action: Action::ToggleResizeIncrements });
    r.push(KeyBinding { trigger: "R", mods: MOD_CONTROL, action: Action::ToggleResizable });
    r.push(KeyBinding { trigger: "R", mods: MOD_ALT, action: Action::RequestResize });
    r.push(KeyBinding { trigger: "M", mods: MOD_CONTROL, action: Action::ToggleMaximize });
    r.push(KeyBinding { trigger: "M", mods: MOD_ALT, action: Action::Minimize });
    r.push(KeyBinding { trigger: "N", mods: MOD_CONTROL, action: Action::CreateNewWindow });
    r.push(KeyBinding { trigger: "C", mods: MOD_CONTROL, action: Action::NextCursor });
    r.push(KeyBinding { trigger: "C", mods: MOD_ALT, action: Action::NextCustomCursor });
    r.push(KeyBinding { trigger: "Z", mods: MOD_CONTROL, action: Action::ToggleCursorVisibility });
    r
}

/// The mouse bindings, in their order.
pub fn mouse_bindings() -> (r: Vec<MouseBinding>)
    ensures
        r@ == mouse_binding_table(),
{
    let mut r: Vec<MouseBinding> = Vec::new();
    r.push(
        MouseBinding { trigger: MouseButton::Left, mods: MOD_ALT, action: Action::DragResizeWindow },
    );
    r.push(MouseBinding { trigger: MouseButton::Left, mods: MOD_CONTROL, action: Action::DragWindow });
    r.push(
        MouseBinding { trigger: MouseButton::Right, mods: MOD_CONTROL, action: Action::ShowWindowMenu },
    );
    assert(r@ =~= mouse_binding_table());
    r
}

/// The action of the first keyboard binding whose key is `key` and whose
/// modifiers are exactly `mods`; `None` where there is none.
pub fn process_key_binding(key: &str, mods: u32) -> (r: Option<Action>)
    ensures
        match r {
            Some(action) => exists|i: int|
                0 <= i < KEY_BINDING_COUNT && #[trigger] key_triggers(i, key@, mods) && action
                    == key_binding_at(i).2 && forall|j: int|
                    0 <= j < i ==> !key_triggers(j, key@, mods),
            None => forall|i: int| 0 <= i < KEY_BINDING_COUNT ==> !key_triggers(i, key@, mods),
        },
{
    let bindings = key_bindings();
    let wanted = String::from_str(key);
    let mut i: usize = 0;
    while i < bindings.len()
        invariant
            i <= bindings@.len(),
            is_key_binding_table(bindings@),
            wanted@ == key@,
            forall|j: int| 0 <= j < i ==> !key_triggers(j, key@, mods),
        decreases bindings@.len() - i,
    {
        let binding = &bindings[i];
        let trigger = String::from_str(binding.trigger);
        if trigger == wanted && binding.mods == mods {
            assert(key_triggers(i as int, key@, mods));
            return Some(binding.action);
        }
        i += 1;
    }
    None
}

/// Whether a mouse binding is triggered by `button` with `mods`.
pub open spec fn mouse_triggers(binding: MouseBinding, button: MouseButton, mods: u32) -> bool {
    binding.trigger == button && binding.mods == mods
}

/// The action of the first mouse binding whose button is `button` and
/// whose modifiers are exactly `mods`; `None` where there is none.
pub fn process_mouse_binding(button: MouseButton, mods: u32) -> (r: Option<Action>)
    ensures
        match r {
            Some(action) => exists|i: int|
                0 <= i < mouse_binding_table().len() && mouse_triggers(
                    #[trigger] mouse_binding_table()[i],
                    button,
                    mods,
                ) && action == mouse_binding_table()[i].action && forall|j: int|
                    0 <= j < i ==> !mouse_triggers(mouse_binding_table()[j], button, mods),
            None => forall|i: int|
                0 <= i < mouse_binding_table().len() ==> !mouse_triggers(
                    #[trigger] mouse_binding_table()[i],
                    button,
                    mods,
                ),
        },
{
    let bindings = mouse_bindings();
    let mut i: usize = 0;
    while i < bindings.len()
        invariant
            i <= bindings@.len(),
            bindings@ == mouse_binding_table(),
            forall|j: int| 0 <= j < i ==> !mouse_triggers(mouse_binding_table()[j], button, mods),
        decreases bindings@.len() - i,
    {
        let binding = &bindings[i];
        if binding.trigger == button && binding.mods == mods {
            return Some(binding.action);
        }
        i += 1;
    }
    None
}

/// The action that a key event asks for: none unless the key went down,
/// the event is a real one and not made up by the window system, and the
/// key stands for a character; then the action that `process_key_binding`
/// finds for that character, in upper case, with `mods`.
pub fn dispatch_key(pressed: bool, synthetic: bool, character: Option<&str>, mods: u32) -> (r: Option<
    Action,
>)
    ensures
        !pressed || synthetic || character.is_none() ==> r.is_none(),
        pressed && !synthetic ==> (character matches Some(key) ==> match r {
            Some(action) => exists|i: int|
                0 <= i < KEY_BINDING_COUNT && #[trigger] key_triggers(i, key@, mods) && action
                    == key_binding_at(i).2 && forall|j: int|
                    0 <= j < i ==> !key_triggers(j, key@, mods),
            None => forall|i: int| 0 <= i < KEY_BINDING_COUNT ==> !key_triggers(i, key@, mods),
        }),
{
    if !pressed || synthetic {
        return None;
    }
    match character {
        Some(key) => process_key_binding(key, mods),
        None => None,
    }
}

/// The action that a mouse button asks for: none unless the button went
/// down; then the action that `process_mouse_binding` finds for it.
pub fn dispatch_mouse(pressed: bool, button: MouseButton, mods: u32) -> (r: Option<Action>)
    ensures
        !pressed ==> r.is_none(),
        pressed ==> match r {
            Some(action) => exists|i: int|
                0 <= i < mouse_binding_table().len() && mouse_triggers(
                    #[trigger] mouse_binding_table()[i],
                    button,
                    mods,
                ) && action == mouse_binding_table()[i].action && forall|j: int|
                    0 <= j < i ==> !mouse_triggers(mouse_binding_table()[j], button, mods),
            None => forall|i: int|
                0 <= i < mouse_binding_table().len() ==> !mouse_triggers(
                    #[trigger] mouse_binding_table()[i],
                    button,
                    mods,
                ),
        },
{
    if pressed {
        process_mouse_binding(button, mods)
    } else {
        None
    }
}

/// The name of a modifier where `mods` holds it, nothing otherwise.
pub open spec fn modifier_text(mods: u32, modifier: u32, text: Seq<char>) -> Seq<char> {
    if mods & modifier == modifier {
        text
    } else {
        Seq::empty()
    }
}

/// The modifiers in `mods`, each with a plus sign behind it, in the order
/// super, alt, control, shift.
pub open spec fn modifiers_text(mods: u32) -> Seq<char> {
    modifier_text(mods, MOD_SUPER, "Super+"@) + modifier_text(mods, MOD_ALT, "Alt+"@) + modifier_text(
        mods,
        MOD_CONTROL,
        "Ctrl+"@,
    ) + modifier_text(mods, MOD_SHIFT, "Shift+"@)
}

pub fn modifiers_to_string(mods: u32) -> (r: String)
    ensures
        r@ == modifiers_text(mods),
{
    let mut r = String::new();
    if mods & MOD_SUPER == MOD_SUPER {
        r.append("Super+");
    }
    if mods & MOD_ALT == MOD_ALT {
        r.append("Alt+");
    }
    if mods & MOD_CONTROL == MOD_CONTROL {
        r.append("Ctrl+");
    }
    if mods & MOD_SHIFT == MOD_SHIFT {
        r.append("Shift+");
    }
    assert(r@ =~= modifiers_text(mods));
    r
}

/// The short name of a mouse button.
pub open spec fn mouse_button_text(button: MouseButton) -> Seq<char> {
    match button {
        MouseButton::Left => "LMB"@,
        MouseButton::Right => "RMB"@,
        MouseButton::Middle => "MMB"@,
        MouseButton::Back => "Back"@,
        MouseButton::Forward => "Forward"@,
        MouseButton::Other(_) => "Other"@,
    }
}

pub fn mouse_button_to_string(button: MouseButton) -> (r: &'static str)
    ensures
        r@ == mouse_button_text(button),
{
    match button {
        MouseButton::Left => "LMB",
        MouseButton::Right => "RMB",
        MouseButton::Middle => "MMB",
        MouseButton::Back => "Back",
        MouseButton::Forward => "Forward",
        MouseButton::Other(_) => "Other",
    }
}

/// `count` spaces.
pub open spec fn spaces(count: nat) -> Seq<char> {
    Seq::new(count, |i: int| ' ')
}

/// `text`, with spaces behind it until it is `width` characters long.
pub open spec fn padded(text: Seq<char>, width: nat) -> Seq<char> {
    if text.len() >= width {
        text
    } else {
        text + spaces((width - text.len()) as nat)
    }
}

/// One line of help: the modifiers, the trigger padded to
/// `TRIGGER_WIDTH`, the action's name, and in brackets what it does.
pub open spec fn help_line_text(mods: u32, trigger: Seq<char>, action: Action) -> Seq<char> {
    modifiers_text(mods) + padded(trigger, TRIGGER_WIDTH as nat) + " - "@ + action.name_text() + " ("@
        + action.help_text() + ")"@
}

fn pad_right(text: &str, width: usize) -> (r: String)
    ensures
        r@ == padded(text@, width as nat),
{
    let mut r = String::from_str(text);
    let mut len = text.unicode_len();
    while len < width
        invariant
            text@.len() <= len <= width || (len == text@.len() && len >= width),
            r@ == text@ + spaces((len - text@.len()) as nat),
        decreases width - len,
    {
        proof {
            reveal_strlit(" ");
            assert(" "@ =~= seq![' ']);
            assert(text@ + spaces((len - text@.len()) as nat) + seq![' '] =~= text@ + spaces(
                (len + 1 - text@.len()) as nat,
            ));
        }
        r.append(" ");
        len += 1;
    }
    proof {
        assert(text@ + spaces(0) =~= text@);
    }
    r
}

/// One line of help for a binding.
pub fn help_line(mods: u32, trigger: &str, action: Action) -> (r: String)
    ensures
        r@ == help_line_text(mods, trigger@, action),
{
    let mut r = modifiers_to_string(mods);
    let trigger = pad_right(trigger, TRIGGER_WIDTH);
    r.append(trigger.as_str());
    r.append(" - ");
    r.append(action.name());
    r.append(" (");
    r.append(action.help());
    r.append(")");
    r
}

/// The help on all bindings: a heading and a line for each keyboard
/// binding, then a heading and a line for each mouse binding.
pub fn print_help() -> (r: Vec<String>)
    ensures
        r@.len() == KEY_BINDING_COUNT + mouse_binding_table().len() + 2,
        r@[0]@ == "Keyboard bindings:"@,
        forall|i: int|
            0 <= i < KEY_BINDING_COUNT ==> (#[trigger] r@[i + 1])@ == help_line_text(
                key_binding_at(i).1,
                key_binding_at(i).0,
                key_binding_at(i).2,
            ),
        r@[KEY_BINDING_COUNT + 1]@ == "Mouse bindings:"@,
        forall|i: int|
            0 <= i < mouse_binding_table().len() ==> (#[trigger] r@[KEY_BINDING_COUNT + 2 + i])@
                == help_line_text(
                mouse_binding_table()[i].mods,
                mouse_button_text(mouse_binding_table()[i].trigger),
                mouse_binding_table()[i].action,
            ),
{
    let mut r: Vec<String> = Vec::new();
    r.push(String::from_str("Keyboard bindings:"));
    let keys = key_bindings();
    let mut i: usize = 0;
    while i < keys.len()
        invariant
            i <= keys@.len(),
            is_key_binding_table(keys@),
            r@.len() == i + 1,
            r@[0]@ == "Keyboard bindings:"@,
            forall|j: int|
                0 <= j < i ==> (#[trigger] r@[j + 1])@ == help_line_text(
                    key_binding_at(j).1,
                    key_binding_at(j).0,
                    key_binding_at(j).2,
                ),
        decreases keys@.len() - i,
    {
        let binding = &keys[i];
        r.push(help_line(binding.mods, binding.trigger, binding.action));
        i += 1;
    }
    r.push(String::from_str("Mouse bindings:"));
    let buttons = mouse_bindings();
    let mut k: usize = 0;
    while k < buttons.len()
        invariant
            k <= buttons@.len(),
            buttons@ == mouse_binding_table(),
            r@.len() == KEY_BINDING_COUNT + 2 + k,
            r@[0]@ == "Keyboard bindings:"@,
            forall|j: int|
                0 <= j < KEY_BINDING_COUNT ==> (#[trigger] r@[j + 1])@ == help_line_text(
                    key_binding_at(j).1,
                    key_binding_at(j).0,
                    key_binding_at(j).2,
                ),
            r@[KEY_BINDING_COUNT + 1]@ == "Mouse bindings:"@,
            forall|j: int|
                0 <= j < k ==> (#[trigger] r@[KEY_BINDING_COUNT + 2 + j])@ == help_line_text(
                    mouse_binding_table()[j].mods,
                    mouse_button_text(mouse_binding_table()[j].trigger),
                    mouse_binding_table()[j].action,
                ),
        decreases buttons@.len() - k,
    {
        let binding = &buttons[k];
        r.push(help_line(binding.mods, mouse_button_to_string(binding.trigger), binding.action));
        k += 1;
    }
    r
}

} // verus!
