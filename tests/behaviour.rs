use symbolpop::chord::{format_chord, parse_chord, Chord, ChordError, Modifiers};
use symbolpop::key::Key;
use symbolpop::injection::{
    delivery_outcome, encode_utf16, injection_units, plan_injection, InjectionError,
    InjectionUnit, TextInjector,
};
use symbolpop::overlay::{OverlayAction, OverlayController, OverlayError, OverlayState};
use symbolpop::registry::{HotkeyError, KeyEventState, ShortcutRegistry, DEFAULT_HOTKEY};

fn mods(alt: bool, ctrl: bool, shift: bool, meta: bool) -> Modifiers {
    Modifiers { alt, ctrl, shift, meta }
}

#[test]
fn parse_default_chord() {
    let c = parse_chord("Alt+S").unwrap();
    assert_eq!(c, Chord { mods: mods(true, false, false, false), key: Key::Char(b'S') });
}

#[test]
fn parse_is_case_insensitive_and_order_free() {
    let a = parse_chord("ctrl+SHIFT+k").unwrap();
    let b = parse_chord("Shift+Control+K").unwrap();
    assert_eq!(a, b);
    assert_eq!(a, Chord { mods: mods(false, true, true, false), key: Key::Char(b'K') });
}

#[test]
fn parse_digit_key_and_meta_names() {
    assert_eq!(
        parse_chord("Cmd+Option+7").unwrap(),
        Chord { mods: mods(true, false, false, true), key: Key::Char(b'7') }
    );
    assert_eq!(parse_chord("Super+Meta+a").unwrap().mods, mods(false, false, false, true));
}

#[test]
fn parse_rejects_malformed_chords() {
    assert_eq!(parse_chord(""), Err(ChordError::InvalidKey));
    assert_eq!(parse_chord("Alt+"), Err(ChordError::InvalidKey));
    assert_eq!(parse_chord("Alt+Spacebar"), Err(ChordError::InvalidKey));
    assert_eq!(parse_chord("Alt+F25"), Err(ChordError::InvalidKey));
    assert_eq!(parse_chord("Alt+F0"), Err(ChordError::InvalidKey));
    assert_eq!(parse_chord("Hyper+S"), Err(ChordError::UnknownModifier));
    assert_eq!(parse_chord("+S"), Err(ChordError::UnknownModifier));
    assert_eq!(parse_chord("Alt++S"), Err(ChordError::UnknownModifier));
}

#[test]
fn format_is_canonical() {
    let c = Chord { mods: mods(true, true, true, true), key: Key::Char(b'Q') };
    assert_eq!(format_chord(&c), "Ctrl+Alt+Shift+Super+Q");
    let d = Chord { mods: mods(false, false, false, false), key: Key::Char(b'3') };
    assert_eq!(format_chord(&d), "3");
}

#[test]
fn parse_format_round_trip() {
    for s in [
        "Alt+S",
        "shift+alt+x",
        "CONTROL+meta+0",
        "q",
        "Option+Ctrl+Shift+Cmd+z",
        "Ctrl+Space",
        "alt+f12",
        "Shift+F3",
        "Command+Left",
        "Ctrl+/",
        "CmdOrCtrl+PageDown",
        "Alt+Esc",
    ] {
        let c = parse_chord(s).unwrap();
        assert_eq!(parse_chord(&format_chord(&c)), Ok(c));
    }
}

#[test]
fn utf16_of_cafe_and_astral() {
    assert_eq!(encode_utf16("café"), vec![0x63, 0x61, 0x66, 0xE9]);
    assert_eq!(encode_utf16("a😀"), vec![0x61, 0xD83D, 0xDE00]);
}

#[test]
fn units_pair_press_and_release() {
    let s = "x😀é";
    let codes = encode_utf16(s);
    let units = injection_units(s);
    assert_eq!(units.len(), 2 * codes.len());
    for (i, code) in codes.iter().enumerate() {
        assert_eq!(units[2 * i], InjectionUnit { code: *code, key_up: false, unicode: true });
        assert_eq!(units[2 * i + 1], InjectionUnit { code: *code, key_up: true, unicode: true });
    }
}

#[test]
fn empty_text_injects_nothing_and_succeeds() {
    let units = plan_injection(TextInjector::SendInput, "").unwrap();
    assert!(units.is_empty());
    assert_eq!(delivery_outcome(0, units.len()), Ok(()));
}

#[test]
fn unsupported_platform_fails_without_units() {
    assert_eq!(plan_injection(TextInjector::Unsupported, "abc"), Err(InjectionError::Unsupported));
}

#[test]
fn partial_delivery_is_reported() {
    let units = plan_injection(TextInjector::SendInput, "café").unwrap();
    assert_eq!(units.len(), 8);
    assert_eq!(
        delivery_outcome(6, units.len()),
        Err(InjectionError::Partial { accepted: 6, expected: 8 })
    );
}

#[test]
fn toggle_twice_returns_to_hidden() {
    let mut o = OverlayController::new();
    assert_eq!(o.toggle_overlay(true), Ok(OverlayAction::ShowAndFocus));
    assert_eq!(o.state(), OverlayState::Visible);
    assert_eq!(o.toggle_overlay(true), Ok(OverlayAction::Hide));
    assert_eq!(o.state(), OverlayState::Hidden);
}

#[test]
fn show_and_hide_are_idempotent() {
    let mut o = OverlayController::new();
    assert_eq!(o.hide_overlay(true), Ok(OverlayAction::Nothing));
    assert_eq!(o.show_overlay(true), Ok(OverlayAction::ShowAndFocus));
    assert_eq!(o.show_overlay(true), Ok(OverlayAction::Nothing));
    assert_eq!(o.hide_overlay(true), Ok(OverlayAction::Hide));
    assert_eq!(o.state(), OverlayState::Hidden);
}

#[test]
fn missing_window_is_not_found() {
    let mut o = OverlayController::new();
    assert_eq!(o.toggle_overlay(false), Err(OverlayError::WindowNotFound));
    assert_eq!(o.show_overlay(false), Err(OverlayError::WindowNotFound));
    assert_eq!(o.state(), OverlayState::Hidden);
}

#[test]
fn rebind_to_invalid_chord_unbinds() {
    let mut r = ShortcutRegistry::new();
    let a = r.rebind("Alt+S").unwrap();
    assert_eq!(r.finish_registration(a, true), Ok(()));
    assert_eq!(r.active(), Some(a));
    assert_eq!(r.rebind("Alt+Nope"), Err(HotkeyError::Parse(ChordError::InvalidKey)));
    assert_eq!(r.active(), None);
}

#[test]
fn refused_registration_leaves_unbound() {
    let mut r = ShortcutRegistry::new();
    let a = r.rebind("Ctrl+Q").unwrap();
    assert_eq!(r.finish_registration(a, false), Err(HotkeyError::Registration));
    assert_eq!(r.active(), None);
}

#[test]
fn released_events_are_ignored() {
    let mut r = ShortcutRegistry::new();
    let c = r.rebind("Alt+S").unwrap();
    assert_eq!(r.finish_registration(c, true), Ok(()));
    let mut o = OverlayController::new();
    assert_eq!(r.dispatch(KeyEventState::Released, &mut o, true), None);
    assert_eq!(o.state(), OverlayState::Hidden);
}

#[test]
fn hotkey_press_then_inject_scenario() {
    let mut r = ShortcutRegistry::new();
    let mut o = OverlayController::new();
    let c = r.rebind(DEFAULT_HOTKEY).unwrap();
    assert_eq!(r.finish_registration(c, true), Ok(()));
    assert_eq!(
        r.dispatch(KeyEventState::Pressed, &mut o, true),
        Some(Ok(OverlayAction::ShowAndFocus))
    );
    assert_eq!(o.state(), OverlayState::Visible);
    let units = plan_injection(TextInjector::SendInput, "café").unwrap();
    assert_eq!(units.len(), 8);
    let codes: Vec<u16> = units.iter().step_by(2).map(|u| u.code).collect();
    assert_eq!(codes, vec![0x63, 0x61, 0x66, 0xE9]);
    assert_eq!(delivery_outcome(8, units.len()), Ok(()));
}

#[test]
fn parse_named_and_function_keys() {
    assert_eq!(
        parse_chord("Alt+Space").unwrap(),
        Chord { mods: mods(true, false, false, false), key: Key::Space }
    );
    assert_eq!(parse_chord("ctrl+f24").unwrap().key, Key::Function(24));
    assert_eq!(parse_chord("F1").unwrap().key, Key::Function(1));
    assert_eq!(parse_chord("Shift+Up").unwrap().key, Key::ArrowUp);
    assert_eq!(parse_chord("Shift+ArrowRight").unwrap().key, Key::ArrowRight);
    assert_eq!(parse_chord("Alt+Enter").unwrap().key, Key::Enter);
    assert_eq!(parse_chord("Alt+tab").unwrap().key, Key::Tab);
    assert_eq!(parse_chord("Ctrl+`").unwrap().key, Key::Char(b'`'));
    assert_eq!(parse_chord("Ctrl+,").unwrap().key, Key::Char(b','));
}

#[test]
fn parse_more_modifier_names_and_spaces() {
    assert_eq!(
        parse_chord("Ctrl + S").unwrap(),
        Chord { mods: mods(false, true, false, false), key: Key::Char(b'S') }
    );
    assert_eq!(parse_chord("Command+K").unwrap().mods, mods(false, false, false, true));
    assert_eq!(parse_chord("CmdOrCtrl+K").unwrap().mods, mods(false, true, false, false));
    assert_eq!(parse_chord("CommandOrControl+K").unwrap().mods, mods(false, true, false, false));
}

#[test]
fn modifier_order_does_not_matter() {
    assert_eq!(parse_chord("Ctrl+Alt+S"), parse_chord("Alt+Ctrl+S"));
    assert_eq!(parse_chord("Shift+Super+F4"), parse_chord("Super+Shift+F4"));
}

#[test]
fn format_named_and_function_keys() {
    let c = Chord { mods: mods(false, true, false, false), key: Key::Space };
    assert_eq!(format_chord(&c), "Ctrl+Space");
    let d = Chord { mods: mods(false, false, true, false), key: Key::Function(12) };
    assert_eq!(format_chord(&d), "Shift+F12");
    let e = Chord { mods: mods(true, false, false, false), key: Key::Function(7) };
    assert_eq!(format_chord(&e), "Alt+F7");
    let f = Chord { mods: mods(false, false, false, false), key: Key::ArrowLeft };
    assert_eq!(format_chord(&f), "ArrowLeft");
}

#[test]
fn press_while_unbound_is_ignored() {
    let r = ShortcutRegistry::new();
    let mut o = OverlayController::new();
    assert_eq!(r.dispatch(KeyEventState::Pressed, &mut o, true), None);
    assert_eq!(o.state(), OverlayState::Hidden);
}

#[test]
fn failed_show_hides_again() {
    let mut o = OverlayController::new();
    assert_eq!(o.toggle_overlay(true), Ok(OverlayAction::ShowAndFocus));
    o.show_failed();
    assert_eq!(o.state(), OverlayState::Hidden);
    assert_eq!(o.toggle_overlay(true), Ok(OverlayAction::ShowAndFocus));
}

#[test]
fn rebind_with_reordered_modifiers_binds_the_same_chord() {
    let mut r1 = ShortcutRegistry::new();
    let c1 = r1.rebind("Ctrl+Alt+S").unwrap();
    assert_eq!(r1.finish_registration(c1, true), Ok(()));
    let mut r2 = ShortcutRegistry::new();
    let c2 = r2.rebind("Alt+Ctrl+S").unwrap();
    assert_eq!(r2.finish_registration(c2, true), Ok(()));
    assert_eq!(r1.active(), r2.active());
}
