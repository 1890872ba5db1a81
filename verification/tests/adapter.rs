use frame_adapter::imgui_wrapper::ImGuiWrapper;
use frame_adapter::keymap::{host_code_of, key_slot, ui_key_of, UiKey, KEY_COUNT};
use frame_adapter::shader::{select_shader_variant, ShaderVariant};

fn all_keys() -> Vec<UiKey> {
    vec![
        UiKey::Tab,
        UiKey::LeftArrow,
        UiKey::RightArrow,
        UiKey::UpArrow,
        UiKey::DownArrow,
        UiKey::PageUp,
        UiKey::PageDown,
        UiKey::Home,
        UiKey::End,
        UiKey::Insert,
        UiKey::Delete,
        UiKey::Backspace,
        UiKey::Space,
        UiKey::Enter,
        UiKey::Escape,
        UiKey::KeyPadEnter,
        UiKey::A,
        UiKey::C,
        UiKey::V,
        UiKey::X,
        UiKey::Y,
        UiKey::Z,
    ]
}

// A code outside the supported set (no UI-library equivalent).
const UNMAPPED_CODE: u32 = 999;

#[test]
fn initial_state() {
    let w = ImGuiWrapper::new(5_000, false, 3);
    assert_eq!(w.mouse_pos(), (0, 0));
    assert_eq!(w.buttons(), (false, false, false));
    assert_eq!(w.wheel_pending(), 0);
    assert_eq!(w.wheel_h_pending(), 0);
    assert_eq!(w.modifiers(), (false, false, false));
    assert!(!w.popup_open());
    assert!(!w.rebind_pending());
    for k in all_keys() {
        assert!(!w.key_is_down(k));
    }
}

#[test]
fn buttons_last_call_wins() {
    let mut w = ImGuiWrapper::new(0, false, 3);
    w.update_mouse_down((true, false, false));
    w.update_mouse_down((false, true, true));
    w.update_mouse_down((true, true, false));
    w.update_mouse_down((false, false, true));
    assert_eq!(w.buttons(), (false, false, true));
    w.update_mouse_down((false, false, false));
    assert_eq!(w.buttons(), (false, false, false));
}

#[test]
fn wheel_additive_within_frame() {
    let mut w = ImGuiWrapper::new(0, false, 3);
    w.update_scroll(0, 1_000);
    w.update_scroll(500, 2_500);
    w.update_scroll(-200, -500);
    assert_eq!(w.wheel_pending(), 3_000);
    assert_eq!(w.wheel_h_pending(), 300);
}

#[test]
fn wheel_drained_exactly_once() {
    let mut w = ImGuiWrapper::new(0, false, 3);
    w.update_scroll(100, 1_500);
    let cmds = w.render(16_000, 800, 600, 1_000);
    assert_eq!(cmds.wheel, 1_500);
    assert_eq!(cmds.wheel_h, 100);
    assert_eq!(w.wheel_pending(), 0);
    assert_eq!(w.wheel_h_pending(), 0);
    let cmds2 = w.render(32_000, 800, 600, 1_000);
    assert_eq!(cmds2.wheel, 0);
    assert_eq!(cmds2.wheel_h, 0);
}

#[test]
fn shader_selection_all_cases() {
    assert_eq!(select_shader_variant(true, 3), ShaderVariant::GlSlEs300);
    assert_eq!(select_shader_variant(true, 2), ShaderVariant::GlSlEs100);
    assert_eq!(select_shader_variant(false, 4), ShaderVariant::GlSl400);
    assert_eq!(select_shader_variant(false, 3), ShaderVariant::GlSl130);
    assert_eq!(select_shader_variant(false, 1), ShaderVariant::GlSl110);
}

#[test]
fn shader_selection_boundaries() {
    assert_eq!(select_shader_variant(true, 4), ShaderVariant::GlSlEs300);
    assert_eq!(select_shader_variant(true, 0), ShaderVariant::GlSlEs100);
    assert_eq!(select_shader_variant(false, 5), ShaderVariant::GlSl400);
    assert_eq!(select_shader_variant(false, 0), ShaderVariant::GlSl110);
    assert_eq!(select_shader_variant(false, 2), ShaderVariant::GlSl110);
}

#[test]
fn shader_variant_stored_at_construction() {
    let w = ImGuiWrapper::new(0, true, 3);
    assert_eq!(w.shader_variant(), ShaderVariant::GlSlEs300);
    let w2 = ImGuiWrapper::new(0, false, 2);
    assert_eq!(w2.shader_variant(), ShaderVariant::GlSl110);
}

#[test]
fn frame_delta_16ms() {
    let mut w = ImGuiWrapper::new(1_000_000, false, 3);
    let cmds = w.render(1_000_000, 800, 600, 1_000);
    assert_eq!(cmds.delta_micros, 0);
    let cmds2 = w.render(1_016_000, 800, 600, 1_000);
    assert_eq!(cmds2.delta_micros, 16_000);
    let delta_s: f64 = cmds2.delta_micros as f64 / 1_000_000.0;
    assert!((delta_s - 0.016).abs() < 1e-9);
}

#[test]
fn frame_delta_zero_on_clock_regression() {
    let mut w = ImGuiWrapper::new(50_000, false, 3);
    let cmds = w.render(40_000, 800, 600, 1_000);
    assert_eq!(cmds.delta_micros, 0);
    // The clock still advances to the reading that was handed in.
    let cmds2 = w.render(41_000, 800, 600, 1_000);
    assert_eq!(cmds2.delta_micros, 1_000);
}

#[test]
fn popup_cleared_by_primary_press() {
    let mut w = ImGuiWrapper::new(0, false, 3);
    w.open_popup();
    assert!(w.popup_open());
    w.update_mouse_down((true, false, false));
    assert!(!w.popup_open());
}

#[test]
fn popup_persists_without_press() {
    let mut w = ImGuiWrapper::new(0, false, 3);
    w.open_popup();
    assert!(w.popup_open());
    // A secondary-button press is not a primary press.
    w.update_mouse_down((false, true, false));
    assert!(w.popup_open());
    // A button release is not a press either.
    w.update_mouse_down((false, false, false));
    assert!(w.popup_open());
    // Render ticks read the flag without consuming it.
    let cmds = w.render(16_000, 800, 600, 1_000);
    assert!(cmds.open_popup);
    assert!(w.popup_open());
}

#[test]
fn key_codes_distinct_and_stable() {
    let keys = all_keys();
    assert_eq!(keys.len(), KEY_COUNT);
    for (i, &a) in keys.iter().enumerate() {
        // Stable: repeated calls give the same code and slot.
        assert_eq!(host_code_of(a), host_code_of(a));
        assert_eq!(key_slot(a), key_slot(a));
        assert!(key_slot(a) < KEY_COUNT);
        // The code maps back to exactly this key.
        assert_eq!(ui_key_of(host_code_of(a)), Some(a));
        for &b in keys.iter().skip(i + 1) {
            assert_ne!(host_code_of(a), host_code_of(b));
            assert_ne!(key_slot(a), key_slot(b));
        }
    }
}

#[test]
fn key_press_and_release_reach_their_slot() {
    let mut w = ImGuiWrapper::new(0, false, 3);
    let tab_code = host_code_of(UiKey::Tab);
    let write = w.update_key_down(tab_code, false, false, false);
    assert_eq!(write.key_slot, Some(key_slot(UiKey::Tab)));
    assert!(write.pressed);
    assert!(w.key_is_down(UiKey::Tab));
    assert!(!w.key_is_down(UiKey::Space));
    let write_up = w.update_key_up(tab_code, false, false, false);
    assert_eq!(write_up.key_slot, Some(key_slot(UiKey::Tab)));
    assert!(!write_up.pressed);
    assert!(!w.key_is_down(UiKey::Tab));
}

#[test]
fn unmapped_key_never_mutates_key_state() {
    let mut w = ImGuiWrapper::new(0, false, 3);
    assert_eq!(ui_key_of(UNMAPPED_CODE), None);
    let write = w.update_key_down(UNMAPPED_CODE, true, false, false);
    assert_eq!(write.key_slot, None);
    for k in all_keys() {
        assert!(!w.key_is_down(k));
    }
    let write_up = w.update_key_up(UNMAPPED_CODE, true, false, false);
    assert_eq!(write_up.key_slot, None);
    for k in all_keys() {
        assert!(!w.key_is_down(k));
    }
}

#[test]
fn modifiers_overwritten_on_press() {
    let mut w = ImGuiWrapper::new(0, false, 3);
    let write = w.update_key_down(host_code_of(UiKey::A), true, true, false);
    assert_eq!(write.set_shift, Some(true));
    assert_eq!(write.set_ctrl, Some(true));
    assert_eq!(write.set_alt, Some(false));
    assert_eq!(w.modifiers(), (true, true, false));
    // The next press overwrites all three flags, stale state included.
    let write2 = w.update_key_down(host_code_of(UiKey::C), false, false, true);
    assert_eq!(write2.set_alt, Some(true));
    assert_eq!(w.modifiers(), (false, false, true));
}

#[test]
fn modifiers_cleared_selectively_on_release() {
    let mut w = ImGuiWrapper::new(0, false, 3);
    w.update_key_down(host_code_of(UiKey::A), true, true, true);
    assert_eq!(w.modifiers(), (true, true, true));
    // A release that still reports shift clears shift alone.
    let write = w.update_key_up(host_code_of(UiKey::A), true, false, false);
    assert_eq!(write.set_shift, Some(false));
    assert_eq!(write.set_ctrl, None);
    assert_eq!(write.set_alt, None);
    assert_eq!(w.modifiers(), (false, true, true));
}

#[test]
fn text_accumulates_and_drains_in_order() {
    let mut w = ImGuiWrapper::new(0, false, 3);
    w.update_text('h');
    w.update_text('i');
    w.update_text('!');
    let cmds = w.render(16_000, 800, 600, 1_000);
    assert_eq!(cmds.text, vec!['h', 'i', '!']);
    let cmds2 = w.render(32_000, 800, 600, 1_000);
    assert!(cmds2.text.is_empty());
}

#[test]
fn mouse_pos_overwritten() {
    let mut w = ImGuiWrapper::new(0, false, 3);
    w.update_mouse_pos(120, 45);
    w.update_mouse_pos(-3, 900);
    assert_eq!(w.mouse_pos(), (-3, 900));
    let cmds = w.render(16_000, 800, 600, 1_000);
    assert_eq!(cmds.mouse_pos, (-3, 900));
}

#[test]
fn frame_buttons_padded_with_false_slots() {
    let mut w = ImGuiWrapper::new(0, false, 3);
    w.update_mouse_down((true, false, true));
    let cmds = w.render(16_000, 800, 600, 1_000);
    assert_eq!(cmds.mouse_down, (true, false, true, false, false));
}

#[test]
fn frame_passes_surface_readings_through() {
    let mut w = ImGuiWrapper::new(0, false, 3);
    let cmds = w.render(16_000, 1_920, 1_080, 2_000);
    assert_eq!(cmds.display_size, (1_920, 1_080));
    assert_eq!(cmds.hidpi_factor_milli, 2_000);
}

#[test]
fn resize_triggers_one_rebind() {
    let mut w = ImGuiWrapper::new(0, false, 3);
    let cmds = w.render(16_000, 800, 600, 1_000);
    assert!(!cmds.rebind_renderer);
    w.notify_resize();
    assert!(w.rebind_pending());
    let cmds2 = w.render(32_000, 1_024, 768, 1_000);
    assert!(cmds2.rebind_renderer);
    assert!(!w.rebind_pending());
    let cmds3 = w.render(48_000, 1_024, 768, 1_000);
    assert!(!cmds3.rebind_renderer);
}
