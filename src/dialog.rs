use vstd::prelude::*;

verus! {

/// What the host has to do to the native `<dialog>` element.
#[derive(Clone, Copy, Debug, PartialEq, Eq, Structural)]
pub enum ElementCommand {
    /// Leave the element as it is.
    Keep,
    /// Present the element modally.
    ShowModal,
    /// Close the element.
    Close,
}

/// Something that happened to a dialog instance, as reported by the host.
#[derive(Clone, Copy, Debug, PartialEq, Eq)]
pub enum DialogEvent {
    /// The native element was mounted; `element_open` tells whether it
    /// already carries the `open` attribute.
    Mounted { element_open: bool },
    /// The caller's `open` flag now has this value (a reactive flush).
    OpenChanged(bool),
    /// A key went down on the document; `escape` tells whether it was Escape.
    KeyDown { escape: bool },
    /// A click reached the dialog root, outside the panel.
    RootClick,
    /// A click landed on the dialog panel.
    PanelClick,
    /// The platform closed the native element by itself.
    NativeClosed,
    /// The dialog instance is being torn down.
    Unmount,
}

/// What the host has to do in answer to one event.
#[derive(Clone, Copy, Debug, PartialEq, Eq)]
pub struct Reaction {
    /// The call to make on the native element.
    pub element: ElementCommand,
    /// Whether to invoke the caller's close callback (once).
    pub notify_close: bool,
    /// Whether to suppress the event's default action.
    pub prevent_default: bool,
    /// Whether to stop the event from bubbling further.
    pub stop_propagation: bool,
    /// Whether to remove the document-level key listener.
    pub detach_listener: bool,
}

/// The per-instance state of a dialog.
#[derive(Clone, Copy, Debug, PartialEq, Eq)]
pub struct DialogState {
    /// The caller's latest `open` flag.
    pub open: bool,
    /// The native element: `None` before it mounts and after teardown,
    /// otherwise whether it is presented (carries the `open` attribute).
    pub element: Option<bool>,
    /// Whether the instance is live, with its key listener attached.
    pub listening: bool,
}

/// The reaction that asks nothing of the host.
pub open spec fn quiet() -> Reaction {
    Reaction {
        element: ElementCommand::Keep,
        notify_close: false,
        prevent_default: false,
        stop_propagation: false,
        detach_listener: false,
    }
}

/// The command that brings an element whose presentation is `element_open`
/// in line with the flag `open`.
pub open spec fn sync_command(open: bool, element_open: bool) -> ElementCommand {
    if open && !element_open {
        ElementCommand::ShowModal
    } else if !open && element_open {
        ElementCommand::Close
    } else {
        ElementCommand::Keep
    }
}

/// Whether an element that was presented as `element_open` is presented
/// after the host carries out `cmd`.
pub open spec fn applied(cmd: ElementCommand, element_open: bool) -> bool {
    match cmd {
        ElementCommand::Keep => element_open,
        ElementCommand::ShowModal => true,
        ElementCommand::Close => false,
    }
}

impl DialogState {
    /// A torn-down instance holds no element.
    pub open spec fn wf(self) -> bool {
        !self.listening ==> self.element is None
    }

    /// The state after `e`.
    pub open spec fn next(self, e: DialogEvent) -> DialogState {
        if !self.listening {
            self
        } else {
            match e {
                DialogEvent::Mounted { element_open: _ } => DialogState { element: Some(self.open), ..self },
                DialogEvent::OpenChanged(b) => DialogState {
                    open: b,
                    element: match self.element {
                        Some(_) => Some(b),
                        None => None,
                    },
                    ..self
                },
                DialogEvent::KeyDown { escape } => if escape && self.element is Some {
                    DialogState { element: Some(false), ..self }
                } else {
                    self
                },
                DialogEvent::RootClick => self,
                DialogEvent::PanelClick => self,
                DialogEvent::NativeClosed => if self.element is Some {
                    DialogState { element: Some(false), ..self }
                } else {
                    self
                },
                DialogEvent::Unmount => DialogState { element: None, listening: false, ..self },
            }
        }
    }

    /// What the host has to do in answer to `e`.
    pub open spec fn reaction(self, e: DialogEvent) -> Reaction {
        if !self.listening {
            quiet()
        } else {
            match e {
                DialogEvent::Mounted { element_open } => Reaction {
                    element: sync_command(self.open, element_open),
                    ..quiet()
                },
                DialogEvent::OpenChanged(b) => Reaction {
                    element: match self.element {
                        Some(eo) => sync_command(b, eo),
                        None => ElementCommand::Keep,
                    },
                    ..quiet()
                },
                DialogEvent::KeyDown { escape } => Reaction {
                    element: if escape && self.element == Some(true) {
                        ElementCommand::Close
                    } else {
                        ElementCommand::Keep
                    },
                    notify_close: escape,
                    prevent_default: escape,
                    ..quiet()
                },
                DialogEvent::RootClick => Reaction { notify_close: true, stop_propagation: true, ..quiet() },
                DialogEvent::PanelClick => Reaction { stop_propagation: true, ..quiet() },
                DialogEvent::NativeClosed => quiet(),
                DialogEvent::Unmount => Reaction { detach_listener: true, ..quiet() },
            }
        }
    }
}

/// The command that brings an element presented as `element_open` in line
/// with the flag `open`.
pub fn sync(open: bool, element_open: bool) -> (r: ElementCommand)
    ensures
        r == sync_command(open, element_open),
{
    if open && !element_open {
        ElementCommand::ShowModal
    } else if !open && element_open {
        ElementCommand::Close
    } else {
        ElementCommand::Keep
    }
}

fn nothing() -> (r: Reaction)
    ensures
        r == quiet(),
{
    Reaction {
        element: ElementCommand::Keep,
        notify_close: false,
        prevent_default: false,
        stop_propagation: false,
        detach_listener: false,
    }
}

impl DialogState {
    /// A live dialog instance whose element has not mounted yet.
    pub fn new(open: bool) -> (r: DialogState)
        ensures
            r == (DialogState { open, element: None, listening: true }),
            r.wf(),
    {
        DialogState { open, element: None, listening: true }
    }

    /// Whether the native element is mounted and presented.
    pub fn is_element_open(&self) -> (r: bool)
        ensures
            r == (self.element == Some(true)),
    {
        match self.element {
            Some(b) => b,
            None => false,
        }
    }

    /// Takes one event, updates the state and says what the host has to do.
    pub fn handle(&mut self, e: DialogEvent) -> (r: Reaction)
        ensures
            *final(self) == old(self).next(e),
            r == old(self).reaction(e),
            old(self).wf() ==> final(self).wf(),
    {
        if !self.listening {
            return nothing();
        }
        match e {
            DialogEvent::Mounted { element_open } => {
                let cmd = sync(self.open, element_open);
                self.element = Some(self.open);
                Reaction { element: cmd, ..nothing() }
            },
            DialogEvent::OpenChanged(b) => {
                let cmd = match self.element {
                    Some(eo) => sync(b, eo),
                    None => ElementCommand::Keep,
                };
                self.open = b;
                if self.element.is_some() {
                    self.element = Some(b);
                }
                Reaction { element: cmd, ..nothing() }
            },
            DialogEvent::KeyDown { escape } => {
                let cmd = if escape && self.is_element_open() {
                    ElementCommand::Close
                } else {
                    ElementCommand::Keep
                };
                if escape && self.element.is_some() {
                    self.element = Some(false);
                }
                Reaction { element: cmd, notify_close: escape, prevent_default: escape, ..nothing() }
            },
            DialogEvent::RootClick => Reaction { notify_close: true, stop_propagation: true, ..nothing() },
            DialogEvent::PanelClick => Reaction { stop_propagation: true, ..nothing() },
            DialogEvent::NativeClosed => {
                if self.element.is_some() {
                    self.element = Some(false);
                }
                nothing()
            },
            DialogEvent::Unmount => {
                self.element = None;
                self.listening = false;
                Reaction { detach_listener: true, ..nothing() }
            },
        }
    }
}


/// The state after the caller's `open` flag took each value of `opens` in turn.
pub open spec fn after_flags(s: DialogState, opens: Seq<bool>) -> DialogState
    decreases opens.len(),
{
    if opens.len() == 0 {
        s
    } else {
        after_flags(s, opens.drop_last()).next(DialogEvent::OpenChanged(opens.last()))
    }
}

/// Changes of the `open` flag keep an instance live and its element mounted
/// or not as it was.
proof fn lemma_flags_keep_instance(s: DialogState, opens: Seq<bool>)
    ensures
        after_flags(s, opens).listening == s.listening,
        after_flags(s, opens).element is Some <==> s.element is Some,
    decreases opens.len(),
{
    if opens.len() > 0 {
        lemma_flags_keep_instance(s, opens.drop_last());
    }
}

/// On a live instance with a mounted element, whatever sequence of values
/// the `open` flag takes, the element is presented exactly when the latest
/// value is `true`, once each change has been handled.
pub proof fn lemma_element_follows_flag(s: DialogState, opens: Seq<bool>)
    requires
        s.listening,
        s.element is Some,
        opens.len() > 0,
    ensures
        after_flags(s, opens).open == opens.last(),
        after_flags(s, opens).element == Some(opens.last()),
{
    lemma_flags_keep_instance(s, opens.drop_last());
}

/// Once the element mounts on a live instance, it is presented exactly when
/// the `open` flag is `true`, whatever state it mounted in.
pub proof fn lemma_mount_follows_flag(s: DialogState, element_open: bool)
    requires
        s.listening,
    ensures
        s.next(DialogEvent::Mounted { element_open }).element == Some(s.open),
        applied(s.reaction(DialogEvent::Mounted { element_open }).element, element_open) == s.open,
{
}

/// On a live instance with a mounted element, the command asked of the host
/// for a change of the flag or a key press turns the element into the state
/// that the instance records for it.
pub proof fn lemma_commands_match_model(s: DialogState, e: DialogEvent)
    requires
        s.listening,
        s.element is Some,
        e is OpenChanged || e is KeyDown,
    ensures
        s.next(e).element == Some(applied(s.reaction(e).element, s.element.unwrap())),
{
}

/// Escape on a live instance whose element is presented asks for the close
/// callback once, closes the element and leaves it recorded as not presented.
pub proof fn lemma_escape_closes(s: DialogState)
    requires
        s.listening,
        s.element == Some(true),
    ensures
        s.reaction(DialogEvent::KeyDown { escape: true }).notify_close,
        s.reaction(DialogEvent::KeyDown { escape: true }).prevent_default,
        s.reaction(DialogEvent::KeyDown { escape: true }).element == ElementCommand::Close,
        s.next(DialogEvent::KeyDown { escape: true }).element == Some(false),
        s.next(DialogEvent::KeyDown { escape: true }).open == s.open,
{
}

/// Any key but Escape is left to the page: it asks nothing of the host,
/// not even to suppress its default action, and changes nothing.
pub proof fn lemma_other_keys_pass_through(s: DialogState)
    ensures
        s.reaction(DialogEvent::KeyDown { escape: false }) == quiet(),
        s.next(DialogEvent::KeyDown { escape: false }) == s,
{
}

/// A click on the panel never asks for the close callback and stops there;
/// a click that reaches the root of a live instance asks for it.
pub proof fn lemma_panel_click_keeps_dialog(s: DialogState)
    ensures
        !s.reaction(DialogEvent::PanelClick).notify_close,
        s.next(DialogEvent::PanelClick) == s,
        s.listening ==> s.reaction(DialogEvent::PanelClick).stop_propagation,
        s.reaction(DialogEvent::RootClick).notify_close == s.listening,
{
}

/// Teardown of a live instance removes its key listener; afterwards no
/// event asks anything of the host or changes the state.
pub proof fn lemma_unmount_silences(s: DialogState, e: DialogEvent)
    ensures
        s.listening ==> s.reaction(DialogEvent::Unmount).detach_listener,
        s.next(DialogEvent::Unmount).next(e) == s.next(DialogEvent::Unmount),
        s.next(DialogEvent::Unmount).reaction(e) == quiet(),
{
}

/// Changes of the `open` flag never ask for the close callback.
pub proof fn lemma_flag_changes_are_silent(s: DialogState, b: bool)
    ensures
        !s.reaction(DialogEvent::OpenChanged(b)).notify_close,
{
}

} // verus!
