//! The frame input/render adapter.
//!
//! `ImGuiWrapper` accumulates raw device input delivered by the host
//! event loop between frames (pointer position, three button flags,
//! scroll delta, key and modifier state, text characters) and a popup
//! request flag. On each render tick, `render` drains the accumulated
//! input into a `FrameCommands` value: the complete description of what
//! the host side pushes into the UI library's input model before the
//! frame is built and submitted to the GPU. The host side (window, GPU
//! handles, the UI library itself) stays outside this crate; the
//! adapter works on plain values only.
//!
//! Times are measured in microseconds of a monotonic clock, surface
//! coordinates in whole pixels, scroll deltas and the hi-DPI factor in
//! thousandths (the host converts its fractional units at the boundary).

use vstd::prelude::*;

verus! {

use crate::keymap::{UiKey, KEY_COUNT, key_slot, spec_key_slot, spec_slot_of, spec_ui_key_of,
    ui_key_of};
use crate::shader::{ShaderVariant, select_shader_variant, spec_shader_variant};

/// Pointer state, overwritten (not merged) on each update; the wheel
/// fields accumulate between frames and are drained once per frame.
struct MouseState {
    pos: (i32, i32),
    pressed: (bool, bool, bool),
    wheel: i64,
    wheel_h: i64,
}

/// The adapter's state as the contracts see it: plain mathematical
/// values, one field per piece of accumulated input.
#[verifier::ext_equal]
pub ghost struct AdapterView {
    /// Last known pointer position, surface pixels.
    pub pos: (int, int),
    /// Primary, secondary and tertiary button flags.
    pub pressed: (bool, bool, bool),
    /// Vertical scroll accumulated since the last frame, thousandths.
    pub wheel: int,
    /// Horizontal scroll accumulated since the last frame, thousandths.
    pub wheel_h: int,
    /// Modifier flags, tracked apart from the per-key table.
    pub shift: bool,
    pub ctrl: bool,
    pub alt: bool,
    /// The UI library's key-state table, one slot per supported key.
    pub keys: Seq<bool>,
    /// Text characters accumulated since the last frame.
    pub text: Seq<char>,
    /// Timestamp of the previous render call, microseconds.
    pub last_frame: int,
    /// Popup request flag: set by `open_popup`, cleared by the next
    /// primary-button press.
    pub popup: bool,
    /// Whether the renderer binding must be refreshed this frame.
    pub rebind: bool,
    /// Shader variant selected at construction.
    pub shaders: ShaderVariant,
}

/// What `render` hands the host for one frame: everything to push into
/// the UI library's input model, plus the one-shot frame directives.
pub struct FrameCommands {
    /// Pointer position, surface pixels.
    pub mouse_pos: (i32, i32),
    /// Five button slots: the three tracked buttons padded with two
    /// permanently-false slots for unsupported buttons.
    pub mouse_down: (bool, bool, bool, bool, bool),
    /// Drained vertical scroll delta, thousandths.
    pub wheel: i64,
    /// Drained horizontal scroll delta, thousandths.
    pub wheel_h: i64,
    /// Elapsed time since the previous render call, microseconds.
    pub delta_micros: u64,
    /// Current drawable surface size, queried fresh by the host.
    pub display_size: (u32, u32),
    /// Current hi-DPI scale factor, thousandths.
    pub hidpi_factor_milli: u32,
    /// Drained text input, in arrival order.
    pub text: Vec<char>,
    /// Whether the UI library's popup-open call must be issued while
    /// building this frame.
    pub open_popup: bool,
    /// Whether the renderer binding must be refreshed before submitting
    /// this frame.
    pub rebind_renderer: bool,
}

/// `FrameCommands` as the contracts see it.
#[verifier::ext_equal]
pub ghost struct FrameView {
    pub mouse_pos: (int, int),
    pub mouse_down: (bool, bool, bool, bool, bool),
    pub wheel: int,
    pub wheel_h: int,
    pub delta_micros: int,
    pub display_size: (int, int),
    pub hidpi_factor_milli: int,
    pub text: Seq<char>,
    pub open_popup: bool,
    pub rebind_renderer: bool,
}

impl View for FrameCommands {
    type V = FrameView;

    open spec fn view(&self) -> FrameView {
        FrameView {
            mouse_pos: (self.mouse_pos.0 as int, self.mouse_pos.1 as int),
            mouse_down: self.mouse_down,
            wheel: self.wheel as int,
            wheel_h: self.wheel_h as int,
            delta_micros: self.delta_micros as int,
            display_size: (self.display_size.0 as int, self.display_size.1 as int),
            hidpi_factor_milli: self.hidpi_factor_milli as int,
            text: self.text@,
            open_popup: self.open_popup,
            rebind_renderer: self.rebind_renderer,
        }
    }
}

/// Elapsed time between two render calls. Two calls on the same clock
/// tick give zero (no animation progressed); a clock that reads earlier
/// than the previous call also gives zero rather than going negative.
pub open spec fn spec_frame_delta(last: int, now: int) -> int {
    if now >= last {
        now - last
    } else {
        0
    }
}

impl AdapterView {
    /// Validity: the key-state table has one slot per supported key.
    pub open spec fn inv(self) -> bool {
        self.keys.len() == KEY_COUNT as nat
    }

    /// The adapter's state at construction time.
    pub open spec fn init(now: int, is_embedded: bool, shading_major: u32) -> AdapterView {
        AdapterView {
            pos: (0, 0),
            pressed: (false, false, false),
            wheel: 0,
            wheel_h: 0,
            shift: false,
            ctrl: false,
            alt: false,
            keys: Seq::new(KEY_COUNT as nat, |i: int| false),
            text: Seq::empty(),
            last_frame: now,
            popup: false,
            rebind: false,
            shaders: spec_shader_variant(is_embedded, shading_major),
        }
    }

    /// A pointer-move event: the position is overwritten.
    pub open spec fn with_mouse_pos(self, x: int, y: int) -> AdapterView {
        AdapterView { pos: (x, y), ..self }
    }

    /// A button event: all three flags are overwritten with the event's
    /// arguments, and a primary press clears the popup request flag.
    pub open spec fn with_buttons(self, primary: bool, secondary: bool, tertiary: bool)
        -> AdapterView {
        AdapterView {
            pressed: (primary, secondary, tertiary),
            popup: self.popup && !primary,
            ..self
        }
    }

    /// A scroll event: both deltas accumulate until the next frame.
    pub open spec fn with_scroll(self, x: int, y: int) -> AdapterView {
        AdapterView { wheel: self.wheel + y, wheel_h: self.wheel_h + x, ..self }
    }

    /// A key event. A press overwrites the three modifier flags with the
    /// event's modifiers; a release clears exactly the modifiers the
    /// event still reports. The per-key table changes only for a key in
    /// the supported set; an unmapped code leaves it untouched.
    pub open spec fn with_key_event(self, code: u32, pressed: bool, shift: bool, ctrl: bool,
        alt: bool) -> AdapterView {
        let keys = match spec_ui_key_of(code) {
            Some(key) => self.keys.update(spec_key_slot(key), pressed),
            None => self.keys,
        };
        if pressed {
            AdapterView { shift, ctrl, alt, keys, ..self }
        } else {
            AdapterView {
                shift: if shift { false } else { self.shift },
                ctrl: if ctrl { false } else { self.ctrl },
                alt: if alt { false } else { self.alt },
                keys,
                ..self
            }
        }
    }

    /// A text-input event: the character queues up for the next frame.
    pub open spec fn with_char(self, val: char) -> AdapterView {
        AdapterView { text: self.text.push(val), ..self }
    }

    /// A popup request: the flag stays set until a primary press.
    pub open spec fn with_popup_requested(self) -> AdapterView {
        AdapterView { popup: true, ..self }
    }

    /// A surface-resize notification: the renderer binding must be
    /// refreshed on the next frame.
    pub open spec fn with_resize(self) -> AdapterView {
        AdapterView { rebind: true, ..self }
    }

    /// Everything a render tick pushes into the UI library, as a
    /// function of the accumulated state and the host's fresh readings.
    pub open spec fn frame_output(self, now: int, width: int, height: int, hidpi_milli: int)
        -> FrameView {
        FrameView {
            mouse_pos: self.pos,
            mouse_down: (self.pressed.0, self.pressed.1, self.pressed.2, false, false),
            wheel: self.wheel,
            wheel_h: self.wheel_h,
            delta_micros: spec_frame_delta(self.last_frame, now),
            display_size: (width, height),
            hidpi_factor_milli: hidpi_milli,
            text: self.text,
            open_popup: self.popup,
            rebind_renderer: self.rebind,
        }
    }

    /// The state left behind by a render tick: the per-frame
    /// accumulators drain to empty, the clock advances, and the one-shot
    /// rebind directive is consumed. Pointer, button, key and popup
    /// state persist.
    pub open spec fn after_frame(self, now: int) -> AdapterView {
        AdapterView {
            wheel: 0,
            wheel_h: 0,
            text: Seq::empty(),
            last_frame: now,
            rebind: false,
            ..self
        }
    }
}

/// The per-key part of a key event, handed back to the host so it can
/// mirror the adapter's decision into the UI library at event time.
pub struct KeyWrite {
    /// The key-state slot to write, or `None` for an unmapped code.
    pub key_slot: Option<usize>,
    /// The value to write into that slot.
    pub pressed: bool,
    /// Modifier flags to overwrite, where `None` leaves one unchanged.
    pub set_shift: Option<bool>,
    pub set_ctrl: Option<bool>,
    pub set_alt: Option<bool>,
}

/// The adapter: owns the accumulated input state, the frame clock, the
/// popup request flag and the shader variant chosen at construction.
pub struct ImGuiWrapper {
    mouse_state: MouseState,
    key_shift: bool,
    key_ctrl: bool,
    key_alt: bool,
    keys_down: Vec<bool>,
    pending_text: Vec<char>,
    last_frame: u64,
    show_popup: bool,
    needs_rebind: bool,
    shaders: ShaderVariant,
}

impl View for ImGuiWrapper {
    type V = AdapterView;

    closed spec fn view(&self) -> AdapterView {
        AdapterView {
            pos: (self.mouse_state.pos.0 as int, self.mouse_state.pos.1 as int),
            pressed: self.mouse_state.pressed,
            wheel: self.mouse_state.wheel as int,
            wheel_h: self.mouse_state.wheel_h as int,
            shift: self.key_shift,
            ctrl: self.key_ctrl,
            alt: self.key_alt,
            keys: self.keys_down@,
            text: self.pending_text@,
            last_frame: self.last_frame as int,
            popup: self.show_popup,
            rebind: self.needs_rebind,
            shaders: self.shaders,
        }
    }
}

impl ImGuiWrapper {
    /// Construct the adapter. `now_micros` is the construction time of
    /// the frame clock; `is_embedded` and `shading_major` are the GPU's
    /// reported shading-language capabilities, from which the shader
    /// variant is selected once for the adapter's lifetime.
    pub fn new(now_micros: u64, is_embedded: bool, shading_major: u32) -> (adapter: ImGuiWrapper)
        ensures
            adapter@ == AdapterView::init(now_micros as int, is_embedded, shading_major),
            adapter@.inv(),
    {
        let mut keys_down: Vec<bool> = Vec::new();
        proof {
            assert(keys_down@ =~= Seq::new(0nat, |j: int| false));
        }
        let mut i: usize = 0;
        while i < KEY_COUNT
            invariant
                i <= KEY_COUNT,
                keys_down@ == Seq::new(i as nat, |j: int| false),
            decreases KEY_COUNT - i,
        {
            keys_down.push(false);
            i = i + 1;
            proof {
                assert(keys_down@ =~= Seq::new(i as nat, |j: int| false));
            }
        }
        let adapter = ImGuiWrapper {
            mouse_state: MouseState {
                pos: (0, 0),
                pressed: (false, false, false),
                wheel: 0,
                wheel_h: 0,
            },
            key_shift: false,
            key_ctrl: false,
            key_alt: false,
            keys_down,
            pending_text: Vec::new(),
            last_frame: now_micros,
            show_popup: false,
            needs_rebind: false,
            shaders: select_shader_variant(is_embedded, shading_major),
        };
        proof {
            assert(adapter@ =~= AdapterView::init(now_micros as int, is_embedded, shading_major));
        }
        adapter
    }

    /// The shader variant selected at construction, for binding the
    /// host's renderer.
    pub fn shader_variant(&self) -> (variant: ShaderVariant)
        ensures
            variant == self@.shaders,
    {
        self.shaders
    }

    /// A pointer-move event: overwrite the last known position.
    pub fn update_mouse_pos(&mut self, x: i32, y: i32)
        ensures
            final(self)@ == old(self)@.with_mouse_pos(x as int, y as int),
    {
        self.mouse_state.pos = (x, y);
    }

    /// A button event: overwrite all three button flags with exactly the
    /// event's arguments. A primary press also clears the popup request
    /// flag.
    pub fn update_mouse_down(&mut self, pressed: (bool, bool, bool))
        ensures
            final(self)@ == old(self)@.with_buttons(pressed.0, pressed.1, pressed.2),
    {
        self.mouse_state.pressed = pressed;
        if pressed.0 {
            self.show_popup = false;
        }
    }

    /// A scroll event: both axes accumulate until the next frame drains
    /// them. The bounds ask only that the running totals stay
    /// representable.
    pub fn update_scroll(&mut self, x: i64, y: i64)
        requires
            i64::MIN <= old(self)@.wheel + y <= i64::MAX,
            i64::MIN <= old(self)@.wheel_h + x <= i64::MAX,
        ensures
            final(self)@ == old(self)@.with_scroll(x as int, y as int),
    {
        self.mouse_state.wheel = self.mouse_state.wheel + y;
        self.mouse_state.wheel_h = self.mouse_state.wheel_h + x;
    }

    /// A key-press event: overwrite the modifier flags with the event's
    /// modifiers and, for a key in the supported set, set its slot in
    /// the key-state table. An unmapped code leaves the table untouched.
    /// The returned `KeyWrite` mirrors the decision for the host.
    pub fn update_key_down(&mut self, code: u32, shift: bool, ctrl: bool, alt: bool)
        -> (write: KeyWrite)
        requires
            old(self)@.inv(),
        ensures
            final(self)@ == old(self)@.with_key_event(code, true, shift, ctrl, alt),
            write.key_slot == spec_slot_of(code),
            write.pressed == true,
            write.set_shift == Some(shift),
            write.set_ctrl == Some(ctrl),
            write.set_alt == Some(alt),
    {
        self.key_shift = shift;
        self.key_ctrl = ctrl;
        self.key_alt = alt;
        let slot = self.write_key_state(code, true);
        KeyWrite {
            key_slot: slot,
            pressed: true,
            set_shift: Some(shift),
            set_ctrl: Some(ctrl),
            set_alt: Some(alt),
        }
    }

    /// A key-release event: clear exactly the modifiers the event still
    /// reports and, for a key in the supported set, clear its slot in
    /// the key-state table. An unmapped code leaves the table untouched.
    /// The returned `KeyWrite` mirrors the decision for the host.
    pub fn update_key_up(&mut self, code: u32, shift: bool, ctrl: bool, alt: bool)
        -> (write: KeyWrite)
        requires
            old(self)@.inv(),
        ensures
            final(self)@ == old(self)@.with_key_event(code, false, shift, ctrl, alt),
            write.key_slot == spec_slot_of(code),
            write.pressed == false,
            write.set_shift == (if shift { Some(false) } else { None::<bool> }),
            write.set_ctrl == (if ctrl { Some(false) } else { None::<bool> }),
            write.set_alt == (if alt { Some(false) } else { None::<bool> }),
    {
        let set_shift: Option<bool> = if shift {
            self.key_shift = false;
            Some(false)
        } else {
            None
        };
        let set_ctrl: Option<bool> = if ctrl {
            self.key_ctrl = false;
            Some(false)
        } else {
            None
        };
        let set_alt: Option<bool> = if alt {
            self.key_alt = false;
            Some(false)
        } else {
            None
        };
        let slot = self.write_key_state(code, false);
        KeyWrite { key_slot: slot, pressed: false, set_shift, set_ctrl, set_alt }
    }

    /// A text-input event: queue one character for the next frame.
    pub fn update_text(&mut self, val: char)
        ensures
            final(self)@ == old(self)@.with_char(val),
    {
        self.pending_text.push(val);
    }

    /// Request that the UI library's popup be opened on the next frame.
    /// The flag stays set until a primary-button press clears it.
    pub fn open_popup(&mut self)
        ensures
            final(self)@ == old(self)@.with_popup_requested(),
    {
        self.show_popup = true;
    }

    /// The host's drawable surface was resized or recreated: the
    /// renderer binding must be refreshed on the next frame.
    pub fn notify_resize(&mut self)
        ensures
            final(self)@ == old(self)@.with_resize(),
    {
        self.needs_rebind = true;
    }

    /// One render tick. Returns everything the host pushes into the UI
    /// library for this frame — accumulated pointer state, the drained
    /// scroll and text input, the frame delta against `now_micros`, the
    /// surface readings passed through, and the popup and rebind
    /// directives — and leaves the adapter with its per-frame
    /// accumulators drained and its clock advanced.
    pub fn render(&mut self, now_micros: u64, display_width: u32, display_height: u32,
        hidpi_factor_milli: u32) -> (cmds: FrameCommands)
        ensures
            cmds@ == old(self)@.frame_output(now_micros as int, display_width as int,
                display_height as int, hidpi_factor_milli as int),
            final(self)@ == old(self)@.after_frame(now_micros as int),
    {
        let delta: u64 = if now_micros >= self.last_frame {
            now_micros - self.last_frame
        } else {
            0
        };
        self.last_frame = now_micros;

        let wheel: i64 = self.mouse_state.wheel;
        let wheel_h: i64 = self.mouse_state.wheel_h;
        self.mouse_state.wheel = 0;
        self.mouse_state.wheel_h = 0;

        let mut text: Vec<char> = Vec::new();
        core::mem::swap(&mut text, &mut self.pending_text);

        let rebind = self.needs_rebind;
        self.needs_rebind = false;

        let cmds = FrameCommands {
            mouse_pos: self.mouse_state.pos,
            mouse_down: (
                self.mouse_state.pressed.0,
                self.mouse_state.pressed.1,
                self.mouse_state.pressed.2,
                false,
                false,
            ),
            wheel,
            wheel_h,
            delta_micros: delta,
            display_size: (display_width, display_height),
            hidpi_factor_milli,
            text,
            open_popup: self.show_popup,
            rebind_renderer: rebind,
        };
        proof {
            assert(cmds@ =~= old(self)@.frame_output(now_micros as int, display_width as int,
                display_height as int, hidpi_factor_milli as int));
            assert(self@ =~= old(self)@.after_frame(now_micros as int));
        }
        cmds
    }

    /// The last known pointer position.
    pub fn mouse_pos(&self) -> (pos: (i32, i32))
        ensures
            (pos.0 as int, pos.1 as int) == self@.pos,
    {
        self.mouse_state.pos
    }

    /// The reported button state: exactly the arguments of the last
    /// button event.
    pub fn buttons(&self) -> (pressed: (bool, bool, bool))
        ensures
            pressed == self@.pressed,
    {
        self.mouse_state.pressed
    }

    /// The vertical scroll accumulated since the last frame.
    pub fn wheel_pending(&self) -> (wheel: i64)
        ensures
            wheel as int == self@.wheel,
    {
        self.mouse_state.wheel
    }

    /// The horizontal scroll accumulated since the last frame.
    pub fn wheel_h_pending(&self) -> (wheel_h: i64)
        ensures
            wheel_h as int == self@.wheel_h,
    {
        self.mouse_state.wheel_h
    }

    /// The tracked modifier flags.
    pub fn modifiers(&self) -> (mods: (bool, bool, bool))
        ensures
            mods == (self@.shift, self@.ctrl, self@.alt),
    {
        (self.key_shift, self.key_ctrl, self.key_alt)
    }

    /// Whether a supported key's slot in the key-state table is set.
    pub fn key_is_down(&self, key: UiKey) -> (down: bool)
        requires
            self@.inv(),
        ensures
            down == self@.keys[spec_key_slot(key)],
    {
        let i: usize = key_slot(key);
        self.keys_down[i]
    }

    /// Whether a popup request is pending.
    pub fn popup_open(&self) -> (open: bool)
        ensures
            open == self@.popup,
    {
        self.show_popup
    }

    /// Whether the renderer binding must be refreshed on the next frame.
    pub fn rebind_pending(&self) -> (rebind: bool)
        ensures
            rebind == self@.rebind,
    {
        self.needs_rebind
    }

    /// Write one slot of the key-state table, if the code maps to a
    /// supported key.
    fn write_key_state(&mut self, code: u32, pressed: bool) -> (slot: Option<usize>)
        requires
            old(self)@.inv(),
        ensures
            slot == spec_slot_of(code),
            final(self)@ == (AdapterView {
                keys: match spec_ui_key_of(code) {
                    Some(key) => old(self)@.keys.update(spec_key_slot(key), pressed),
                    None => old(self)@.keys,
                },
                ..old(self)@
            }),
    {
        match ui_key_of(code) {
            Some(key) => {
                let i: usize = key_slot(key);
                self.keys_down[i] = pressed;
                Some(i)
            }
            None => None,
        }
    }
}

} // verus!
