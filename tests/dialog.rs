use headless_dialog::dialog::{sync, DialogEvent, DialogState, ElementCommand, Reaction};
use headless_dialog::open_closed::{resolve_open, State};

fn quiet() -> Reaction {
    Reaction {
        element: ElementCommand::Keep,
        notify_close: false,
        prevent_default: false,
        stop_propagation: false,
        detach_listener: false,
    }
}

fn mounted(open: bool) -> DialogState {
    let mut s = DialogState::new(open);
    s.handle(DialogEvent::Mounted { element_open: false });
    s
}

#[test]
fn flag_driven_open_then_close() {
    let mut s = mounted(false);
    let mut show_modal = 0;
    let mut close = 0;
    let mut callbacks = 0;
    for open in [true, false] {
        let r = s.handle(DialogEvent::OpenChanged(open));
        match r.element {
            ElementCommand::ShowModal => show_modal += 1,
            ElementCommand::Close => close += 1,
            ElementCommand::Keep => {}
        }
        if r.notify_close {
            callbacks += 1;
        }
    }
    assert_eq!(show_modal, 1);
    assert_eq!(close, 1);
    assert_eq!(callbacks, 0);
    assert!(!s.is_element_open());
}

#[test]
fn element_follows_latest_flag() {
    let mut s = mounted(false);
    let flags = [true, true, false, true, false, false, true];
    for open in flags {
        s.handle(DialogEvent::OpenChanged(open));
        assert_eq!(s.is_element_open(), open);
        assert_eq!(s.open, open);
    }
}

#[test]
fn mount_presents_open_dialog() {
    let mut s = DialogState::new(true);
    let r = s.handle(DialogEvent::Mounted { element_open: false });
    assert_eq!(r.element, ElementCommand::ShowModal);
    assert!(s.is_element_open());

    let mut already = DialogState::new(true);
    let r = already.handle(DialogEvent::Mounted { element_open: true });
    assert_eq!(r.element, ElementCommand::Keep);

    let mut closed = DialogState::new(false);
    let r = closed.handle(DialogEvent::Mounted { element_open: true });
    assert_eq!(r.element, ElementCommand::Close);
    assert!(!closed.is_element_open());
}

#[test]
fn flag_before_mount_asks_nothing_of_element() {
    let mut s = DialogState::new(false);
    let r = s.handle(DialogEvent::OpenChanged(true));
    assert_eq!(r, quiet());
    assert_eq!(s.element, None);
    let r = s.handle(DialogEvent::Mounted { element_open: false });
    assert_eq!(r.element, ElementCommand::ShowModal);
}

#[test]
fn escape_while_open_closes_once() {
    let mut s = mounted(true);
    let r = s.handle(DialogEvent::KeyDown { escape: true });
    assert_eq!(r.element, ElementCommand::Close);
    assert!(r.notify_close);
    assert!(r.prevent_default);
    assert!(!s.is_element_open());
    assert!(s.open);
}

#[test]
fn other_keys_do_not_close() {
    let mut s = mounted(true);
    let r = s.handle(DialogEvent::KeyDown { escape: false });
    assert_eq!(r, quiet());
    assert!(s.is_element_open());
}

#[test]
fn panel_click_does_not_close() {
    let mut s = mounted(true);
    let r = s.handle(DialogEvent::PanelClick);
    assert!(!r.notify_close);
    assert!(r.stop_propagation);
    assert_eq!(r.element, ElementCommand::Keep);
    assert!(s.is_element_open());
}

#[test]
fn root_click_asks_for_close() {
    let mut s = mounted(true);
    let r = s.handle(DialogEvent::RootClick);
    assert!(r.notify_close);
    assert!(r.stop_propagation);
    assert_eq!(r.element, ElementCommand::Keep);
}

#[test]
fn native_close_is_recorded_without_callback() {
    let mut s = mounted(true);
    let r = s.handle(DialogEvent::NativeClosed);
    assert_eq!(r, quiet());
    assert!(!s.is_element_open());
    let r = s.handle(DialogEvent::OpenChanged(true));
    assert_eq!(r.element, ElementCommand::ShowModal);
}

#[test]
fn unmount_detaches_listener_and_silences() {
    let mut s = mounted(true);
    let r = s.handle(DialogEvent::Unmount);
    assert!(r.detach_listener);
    assert!(!s.listening);
    assert_eq!(s.element, None);
    let after = s;
    for e in [
        DialogEvent::KeyDown { escape: true },
        DialogEvent::RootClick,
        DialogEvent::OpenChanged(false),
        DialogEvent::Unmount,
    ] {
        assert_eq!(s.handle(e), quiet());
        assert_eq!(s, after);
    }
}

#[test]
fn sync_commands() {
    assert_eq!(sync(true, false), ElementCommand::ShowModal);
    assert_eq!(sync(false, true), ElementCommand::Close);
    assert_eq!(sync(true, true), ElementCommand::Keep);
    assert_eq!(sync(false, false), ElementCommand::Keep);
}

#[test]
fn explicit_flag_wins_over_ambient_state() {
    assert!(resolve_open(Some(true), Some(State::Closed)));
    assert!(!resolve_open(Some(false), Some(State::Open)));
    assert!(resolve_open(None, Some(State::Open)));
    assert!(!resolve_open(None, Some(State::Opening)));
    assert!(!resolve_open(None, Some(State::Closing)));
    assert!(!resolve_open(None, Some(State::Closed)));
    assert!(!resolve_open(None, None));
}
