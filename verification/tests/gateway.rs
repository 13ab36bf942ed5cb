use wayland_frontend::defs::{display_id, Axis, Button, ClientId, EglImageId, Key, KeyMods};
use wayland_frontend::defs::{Milliseconds, ObjectId, Position, ShellSurfaceOid, ShowReason};
use wayland_frontend::defs::{Size, SurfaceContext, SurfaceId, SurfaceState};
use wayland_frontend::effect::{ButtonState, Diagnostic, Effect, ScrollAxis};
use wayland_frontend::proxy::Proxy;

const CLIENT: ClientId = ClientId { value: 5 };

fn oid(value: u32) -> ObjectId {
    ObjectId::new(value)
}

fn sid(value: u64) -> SurfaceId {
    SurfaceId::new(value)
}

fn ms(value: u64) -> Milliseconds {
    Milliseconds { value }
}

fn session_with_pointers(pointers: &[u32]) -> Proxy {
    let mut proxy = Proxy::new(CLIENT);
    for p in pointers {
        proxy.add_pointer_oid(oid(*p));
    }
    proxy
}

fn session_with_keyboards(keyboards: &[u32]) -> Proxy {
    let mut proxy = Proxy::new(CLIENT);
    for k in keyboards {
        proxy.add_keyboard_oid(oid(*k));
    }
    proxy
}

#[test]
fn vertical_discrete_scroll_is_inverted_and_stopped() {
    let proxy = session_with_pointers(&[3]);
    let axis = Axis {
        discrete: Position { x: 0, y: 5 },
        continuous_x: false,
        continuous_y: false,
        time: ms(100),
    };
    assert_eq!(
        proxy.on_pointer_axis(axis),
        vec![
            Effect::PointerAxisDiscrete { pointer: oid(3), axis: ScrollAxis::Vertical, value: -5 },
            Effect::PointerAxisStop { pointer: oid(3), time: ms(100), axis: ScrollAxis::Vertical },
            Effect::PointerAxisStop { pointer: oid(3), time: ms(100), axis: ScrollAxis::Horizontal },
            Effect::PointerFrame { pointer: oid(3) },
        ]
    );
}

#[test]
fn scroll_on_both_axes_reaches_every_pointer() {
    let proxy = session_with_pointers(&[3, 4]);
    let axis = Axis {
        discrete: Position { x: 2, y: -1 },
        continuous_x: true,
        continuous_y: true,
        time: ms(7),
    };
    let mut expected = Vec::new();
    for p in [3, 4] {
        expected.push(Effect::PointerAxisDiscrete {
            pointer: oid(p),
            axis: ScrollAxis::Vertical,
            value: 1,
        });
        expected.push(Effect::PointerAxis { pointer: oid(p), time: ms(7), axis: ScrollAxis::Vertical });
        expected.push(Effect::PointerAxisDiscrete {
            pointer: oid(p),
            axis: ScrollAxis::Horizontal,
            value: 2,
        });
        expected.push(Effect::PointerAxis {
            pointer: oid(p),
            time: ms(7),
            axis: ScrollAxis::Horizontal,
        });
        expected.push(Effect::PointerFrame { pointer: oid(p) });
    }
    assert_eq!(proxy.on_pointer_axis(axis), expected);
}

#[test]
fn scroll_without_pointers_emits_nothing() {
    let proxy = session_with_pointers(&[]);
    let axis = Axis {
        discrete: Position { x: 1, y: 1 },
        continuous_x: true,
        continuous_y: false,
        time: ms(7),
    };
    assert!(proxy.on_pointer_axis(axis).is_empty());
}

#[test]
fn focus_from_invalid_surface_only_enters() {
    let mut proxy = session_with_pointers(&[3]);
    proxy.create_surface(oid(10), Some(sid(4)));
    let position = Position { x: 8, y: 9 };
    assert_eq!(
        proxy.on_pointer_focus_changed(SurfaceId::invalid(), sid(4), position),
        vec![Effect::PointerEnter { pointer: oid(3), surface: oid(10), position }]
    );
    assert_eq!(
        proxy.on_pointer_focus_changed(sid(4), SurfaceId::invalid(), position),
        vec![Effect::PointerLeave { pointer: oid(3), surface: oid(10) }]
    );
    assert!(proxy
        .on_pointer_focus_changed(SurfaceId::invalid(), SurfaceId::invalid(), position)
        .is_empty());
}

#[test]
fn pointer_focus_leaves_come_before_enters() {
    let mut proxy = session_with_pointers(&[3, 4, 5]);
    proxy.create_surface(oid(10), Some(sid(1)));
    proxy.create_surface(oid(20), Some(sid(2)));
    let position = Position { x: 0, y: -2 };
    assert_eq!(
        proxy.on_pointer_focus_changed(sid(1), sid(2), position),
        vec![
            Effect::PointerLeave { pointer: oid(3), surface: oid(10) },
            Effect::PointerLeave { pointer: oid(4), surface: oid(10) },
            Effect::PointerLeave { pointer: oid(5), surface: oid(10) },
            Effect::PointerEnter { pointer: oid(3), surface: oid(20), position },
            Effect::PointerEnter { pointer: oid(4), surface: oid(20), position },
            Effect::PointerEnter { pointer: oid(5), surface: oid(20), position },
        ]
    );
}

#[test]
fn focus_on_unknown_surface_is_passed_over() {
    let mut proxy = session_with_pointers(&[3]);
    proxy.create_surface(oid(10), Some(sid(1)));
    let position = Position { x: 0, y: 0 };
    assert_eq!(
        proxy.on_pointer_focus_changed(sid(1), sid(99), position),
        vec![Effect::PointerLeave { pointer: oid(3), surface: oid(10) }]
    );
    // A surface with a record but without a surface object takes no part.
    proxy.set_frame(sid(50), oid(70));
    assert!(proxy.on_pointer_focus_changed(sid(50), sid(99), position).is_empty());
}

#[test]
fn removed_pointer_is_no_longer_told() {
    let mut proxy = session_with_pointers(&[3, 4, 3]);
    proxy.remove_pointer_oid(oid(3));
    proxy.remove_pointer_oid(oid(9));
    assert_eq!(
        proxy.on_pointer_relative_motion(sid(1), Position { x: 1, y: 2 }, ms(30)),
        vec![Effect::PointerMotion { pointer: oid(4), time: ms(30), position: Position { x: 1, y: 2 } }]
    );
}

#[test]
fn button_state_follows_the_value_and_shares_the_serial() {
    let proxy = session_with_pointers(&[3, 4]);
    let pressed = Button { code: 272, value: 1, time: ms(11) };
    assert_eq!(
        proxy.on_pointer_button(pressed, 42),
        vec![
            Effect::PointerButton {
                pointer: oid(3),
                serial: 42,
                time: ms(11),
                code: 272,
                state: ButtonState::Pressed
            },
            Effect::PointerButton {
                pointer: oid(4),
                serial: 42,
                time: ms(11),
                code: 272,
                state: ButtonState::Pressed
            },
        ]
    );
    let released = Button { code: 272, value: 0, time: ms(12) };
    assert_eq!(
        proxy.on_pointer_button(released, 43)[0],
        Effect::PointerButton {
            pointer: oid(3),
            serial: 43,
            time: ms(12),
            code: 272,
            state: ButtonState::Released
        }
    );
    let odd = Button { code: 1, value: -7, time: ms(12) };
    assert!(matches!(
        proxy.on_pointer_button(odd, 1)[0],
        Effect::PointerButton { state: ButtonState::Pressed, .. }
    ));
}

#[test]
fn key_is_followed_by_modifiers_for_each_keyboard() {
    let mut proxy = session_with_keyboards(&[6, 7]);
    let key = Key { code: 30, value: 1, time: ms(5) };
    let mods = KeyMods { depressed: 1, latched: 2, locked: 3, effective: 4 };
    assert_eq!(
        proxy.on_keyboard_input(key, Some(mods)),
        vec![
            Effect::KeyboardKey { keyboard: oid(6), time: ms(5), code: 30, value: 1 },
            Effect::KeyboardModifiers { keyboard: oid(6), mods },
            Effect::KeyboardKey { keyboard: oid(7), time: ms(5), code: 30, value: 1 },
            Effect::KeyboardModifiers { keyboard: oid(7), mods },
        ]
    );
    assert_eq!(
        proxy.on_keyboard_input(key, None),
        vec![
            Effect::KeyboardKey { keyboard: oid(6), time: ms(5), code: 30, value: 1 },
            Effect::KeyboardKey { keyboard: oid(7), time: ms(5), code: 30, value: 1 },
        ]
    );
    proxy.remove_keyboard_oid(oid(6));
    proxy.remove_keyboard_oid(oid(7));
    assert!(proxy.on_keyboard_input(key, Some(mods)).is_empty());
}

#[test]
fn frame_answers_callback_and_releases_buffer_once() {
    let mut proxy = Proxy::new(CLIENT);
    let s = sid(4);
    proxy.create_egl_image(oid(2), Some(EglImageId { value: 1 }));
    proxy.attach(oid(2), s, 0, 0);
    proxy.set_frame(s, oid(60));
    assert_eq!(
        proxy.on_surface_frame(s, ms(16)),
        vec![
            Effect::CallbackDone { callback: oid(60), time: ms(16) },
            Effect::DeleteId { display: oid(1), id: 60 },
            Effect::BufferRelease { buffer: oid(2) },
        ]
    );
    assert!(proxy.on_surface_frame(s, ms(32)).is_empty());
    let info = proxy.get_surface_info(s).unwrap();
    assert_eq!(info.frame_oid, None);
    assert_eq!(info.buffer_oid, None);
    assert!(proxy.on_surface_frame(sid(5), ms(32)).is_empty());
    assert_eq!(proxy.get_surface_info(sid(5)), None);
}

#[test]
fn frame_with_only_a_buffer_releases_it() {
    let mut proxy = Proxy::new(CLIENT);
    let s = sid(4);
    proxy.create_egl_image(oid(2), Some(EglImageId { value: 1 }));
    proxy.attach(oid(2), s, 0, 0);
    assert_eq!(proxy.on_surface_frame(s, ms(16)), vec![Effect::BufferRelease { buffer: oid(2) }]);
    proxy.set_frame(s, oid(61));
    assert_eq!(
        proxy.on_surface_frame(s, ms(17)),
        vec![
            Effect::CallbackDone { callback: oid(61), time: ms(17) },
            Effect::DeleteId { display: display_id(), id: 61 },
        ]
    );
}

#[test]
fn root_object_has_value_one() {
    assert_eq!(display_id(), ObjectId::new(1));
}

#[test]
fn reconfiguration_depends_on_the_shell() {
    let mut proxy = Proxy::new(CLIENT);
    let reason = ShowReason { bits: 1 };
    let size = Size { width: 640, height: 480 };
    proxy.create_surface(oid(10), Some(sid(1)));
    proxy.create_surface(oid(20), Some(sid(2)));
    proxy.create_surface(oid(30), Some(sid(3)));
    proxy.show(oid(10), ShellSurfaceOid::Shell(oid(11)), reason);
    proxy.show(oid(20), ShellSurfaceOid::ZxdgToplevelV6(oid(21), oid(22)), reason);
    let plain = SurfaceState { maximized: false };
    let maximized = SurfaceState { maximized: true };
    assert_eq!(
        proxy.on_surface_reconfigured(sid(1), size, plain, sid(2)),
        vec![Effect::ShellSurfaceConfigure { shell_surface: oid(11), size }]
    );
    assert_eq!(
        proxy.on_surface_reconfigured(sid(2), size, maximized, sid(2)),
        vec![
            Effect::ToplevelConfigure { toplevel: oid(22), size, maximized: true, activated: true },
            Effect::XdgSurfaceConfigure { shell_surface: oid(21) },
        ]
    );
    assert_eq!(
        proxy.on_surface_reconfigured(sid(2), size, plain, sid(1)),
        vec![
            Effect::ToplevelConfigure { toplevel: oid(22), size, maximized: false, activated: false },
            Effect::XdgSurfaceConfigure { shell_surface: oid(21) },
        ]
    );
    assert_eq!(
        proxy.on_surface_reconfigured(sid(3), size, plain, sid(1)),
        vec![Effect::Report { diagnostic: Diagnostic::NotInShell { surface: sid(3) } }]
    );
    assert!(proxy.on_surface_reconfigured(sid(4), size, plain, sid(1)).is_empty());
}

#[test]
fn keyboard_focus_leaves_then_enters_and_reconfigures_the_old_surface() {
    let mut proxy = session_with_keyboards(&[6, 7]);
    let reason = ShowReason { bits: 1 };
    proxy.create_surface(oid(10), Some(sid(1)));
    proxy.create_surface(oid(20), Some(sid(2)));
    proxy.show(oid(10), ShellSurfaceOid::Shell(oid(11)), reason);
    proxy.show(oid(20), ShellSurfaceOid::ZxdgToplevelV6(oid(21), oid(22)), reason);
    let old_size = Size { width: 1, height: 2 };
    let old_context =
        SurfaceContext { desired_size: old_size, state_flags: SurfaceState { maximized: false } };
    let effects = proxy.on_keyboard_focus_changed(sid(1), sid(2), Some(old_context), sid(2));
    let old_configure = Effect::ShellSurfaceConfigure { shell_surface: oid(11), size: old_size };
    assert_eq!(
        effects,
        vec![
            Effect::KeyboardLeave { keyboard: oid(6), surface: oid(10) },
            old_configure,
            Effect::KeyboardLeave { keyboard: oid(7), surface: oid(10) },
            old_configure,
            Effect::KeyboardEnter { keyboard: oid(6), surface: oid(20) },
            Effect::KeyboardEnter { keyboard: oid(7), surface: oid(20) },
        ]
    );
    let last_leave =
        effects.iter().rposition(|e| matches!(e, Effect::KeyboardLeave { .. })).unwrap();
    let first_enter =
        effects.iter().position(|e| matches!(e, Effect::KeyboardEnter { .. })).unwrap();
    assert!(last_leave < first_enter);
}

#[test]
fn losing_focus_deactivates_a_toplevel() {
    let mut proxy = session_with_keyboards(&[6]);
    let reason = ShowReason { bits: 1 };
    proxy.create_surface(oid(10), Some(sid(1)));
    proxy.create_surface(oid(20), Some(sid(2)));
    proxy.show(oid(10), ShellSurfaceOid::ZxdgToplevelV6(oid(11), oid(12)), reason);
    proxy.show(oid(20), ShellSurfaceOid::Shell(oid(21)), reason);
    let size = Size { width: 5, height: 6 };
    let context = SurfaceContext { desired_size: size, state_flags: SurfaceState { maximized: true } };
    assert_eq!(
        proxy.on_keyboard_focus_changed(sid(1), sid(2), Some(context), sid(2)),
        vec![
            Effect::KeyboardLeave { keyboard: oid(6), surface: oid(10) },
            Effect::ToplevelConfigure { toplevel: oid(12), size, maximized: true, activated: false },
            Effect::XdgSurfaceConfigure { shell_surface: oid(11) },
            Effect::KeyboardEnter { keyboard: oid(6), surface: oid(20) },
        ]
    );
}

#[test]
fn keyboard_focus_without_window_knowledge_sends_no_reconfiguration() {
    let mut proxy = session_with_keyboards(&[6]);
    proxy.create_surface(oid(10), Some(sid(1)));
    assert_eq!(
        proxy.on_keyboard_focus_changed(SurfaceId::invalid(), sid(1), None, sid(1)),
        vec![Effect::KeyboardEnter { keyboard: oid(6), surface: oid(10) }]
    );
    assert_eq!(
        proxy.on_keyboard_focus_changed(sid(1), SurfaceId::invalid(), None, sid(0)),
        vec![Effect::KeyboardLeave { keyboard: oid(6), surface: oid(10) }]
    );
    let context = SurfaceContext {
        desired_size: Size { width: 1, height: 1 },
        state_flags: SurfaceState { maximized: false },
    };
    assert_eq!(
        proxy.on_keyboard_focus_changed(sid(1), SurfaceId::invalid(), Some(context), sid(0)),
        vec![
            Effect::KeyboardLeave { keyboard: oid(6), surface: oid(10) },
            Effect::Report { diagnostic: Diagnostic::NotInShell { surface: sid(1) } },
        ]
    );
}

#[test]
fn callbacks_without_work_leave_the_session_alone() {
    let mut proxy = session_with_keyboards(&[6]);
    proxy.on_output_found();
    proxy.on_transfer_offered();
    assert!(proxy.on_transfer_requested().is_empty());
    assert!(proxy.on_screenshot_done(true).is_empty());
    assert_eq!(
        proxy.on_keyboard_input(Key { code: 1, value: 0, time: ms(1) }, None),
        vec![Effect::KeyboardKey { keyboard: oid(6), time: ms(1), code: 1, value: 0 }]
    );
}
