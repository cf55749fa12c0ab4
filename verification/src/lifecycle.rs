//! The application lifecycle controller.
//!
//! The controller is a state machine driven by the host runtime's lifecycle
//! callbacks. It starts uninitialized; the first resume installs a window
//! and a render surface holder together, and every later callback either
//! leaves the state alone or updates the owned window's attributes. Each
//! callback answers with the actions the host must perform on the real
//! window and event loop.
//!
//! The transition taken by each callback is written down as a spec function
//! (`resume_step`, `event_step`, `event_actions`), and each executable
//! callback ensures that it performs exactly that transition.

use vstd::prelude::*;

use crate::events::{Action, Event, Title};
use crate::surface::State;

verus! {

/// What the controller knows of its window: its identity and the mutable
/// attributes the controller itself sets.
#[derive(Clone, Copy, Debug, PartialEq, Eq, Structural)]
pub struct WindowModel {
    /// Identity of the owned window, as the host reports it.
    pub id: u64,
    /// The title the controller last set.
    pub title: Title,
    /// Whether the cursor is visible over the window.
    pub cursor_visible: bool,
}

/// The controller's phase: window and holder are absent together, or
/// present together. The pairing invariant holds by construction.
#[derive(Clone, Copy, Debug, PartialEq, Eq, Structural)]
pub enum Phase {
    /// No window, no holder: nothing has resumed yet.
    Uninitialized,
    /// Window and holder both present; the application is running.
    Active { window: WindowModel, state: State },
}

/// The application lifecycle controller.
#[derive(Clone, Copy, Debug, PartialEq, Eq, Structural)]
pub struct App {
    /// The current phase.
    pub phase: Phase,
}

impl Default for App {
    /// A fresh controller owns neither a window nor a holder.
    fn default() -> (a: App)
        ensures
            a.phase is Uninitialized,
    {
        App { phase: Phase::Uninitialized }
    }
}

impl App {
    /// The owned window, if any.
    pub open spec fn window(self) -> Option<WindowModel> {
        match self.phase {
            Phase::Uninitialized => None,
            Phase::Active { window, .. } => Some(window),
        }
    }

    /// The render surface holder, if any.
    pub open spec fn holder(self) -> Option<State> {
        match self.phase {
            Phase::Uninitialized => None,
            Phase::Active { state, .. } => Some(state),
        }
    }

    /// Whether a window reference is present.
    pub open spec fn has_window(self) -> bool {
        self.window() is Some
    }

    /// Whether a render surface holder is present.
    pub open spec fn has_holder(self) -> bool {
        self.holder() is Some
    }

    /// Whether the controller owns the window with the given identity.
    pub open spec fn owns(self, window_id: u64) -> bool {
        self.phase matches Phase::Active { window, .. } && window.id == window_id
    }

    /// The holder is bound to the owned window.
    pub open spec fn wf(self) -> bool {
        self.phase matches Phase::Active { window, state } ==> state.window == window.id
    }

    /// The resume transition: the first resume installs a window with the
    /// application label and a visible cursor, together with a holder bound
    /// to it; any later resume changes nothing.
    pub open spec fn resume_step(self, window_id: u64) -> App {
        if self.phase is Active {
            self
        } else {
            App {
                phase: Phase::Active {
                    window: WindowModel {
                        id: window_id,
                        title: Title::AppLabel,
                        cursor_visible: true,
                    },
                    state: State { window: window_id },
                },
            }
        }
    }

    /// The actions a resume asks of the host: setting the application label
    /// on a freshly created window, nothing otherwise.
    pub open spec fn resume_actions(self) -> Seq<Action> {
        if self.phase is Active {
            Seq::empty()
        } else {
            seq![Action::SetTitle { title: Title::AppLabel }]
        }
    }

    /// The state after a window event: events for a foreign window change
    /// nothing; keyboard text "m" hides the cursor and switches the title to
    /// the hidden label, "M" restores cursor visibility and keeps the title;
    /// every other event leaves the state alone.
    pub open spec fn event_step(self, window_id: u64, e: Event) -> App {
        match self.phase {
            Phase::Uninitialized => self,
            Phase::Active { window, state } => {
                if window.id != window_id {
                    self
                } else {
                    match e {
                        Event::Keyboard { text } => {
                            if text@ == "m"@ {
                                App {
                                    phase: Phase::Active {
                                        window: WindowModel {
                                            id: window.id,
                                            title: Title::HiddenLabel,
                                            cursor_visible: false,
                                        },
                                        state,
                                    },
                                }
                            } else if text@ == "M"@ {
                                App {
                                    phase: Phase::Active {
                                        window: WindowModel {
                                            id: window.id,
                                            title: window.title,
                                            cursor_visible: true,
                                        },
                                        state,
                                    },
                                }
                            } else {
                                self
                            }
                        },
                        _ => self,
                    }
                }
            },
        }
    }

    /// The actions a window event asks of the host: an exit signal for a
    /// close request or for keyboard text "q", the holder's resize or draw
    /// report, the cursor and title updates for "m" and "M", and nothing
    /// for anything else or for a foreign window.
    pub open spec fn event_actions(self, window_id: u64, e: Event) -> Seq<Action> {
        if !self.owns(window_id) {
            Seq::empty()
        } else {
            match e {
                Event::CloseRequested => seq![Action::Exit],
                Event::Resized { width, height } => seq![Action::Resize { width, height }],
                Event::RedrawRequested => seq![Action::Draw],
                Event::CursorLeft => Seq::empty(),
                Event::Keyboard { text } => {
                    if text@ == "q"@ {
                        seq![Action::Exit]
                    } else if text@ == "m"@ {
                        seq![
                            Action::SetCursorVisible { visible: false },
                            Action::SetTitle { title: Title::HiddenLabel },
                        ]
                    } else if text@ == "M"@ {
                        seq![Action::SetCursorVisible { visible: true }]
                    } else {
                        Seq::empty()
                    }
                },
                Event::Other => Seq::empty(),
            }
        }
    }

    /// Whether the next resume must create a window first: the decision the
    /// host reads before performing window creation.
    pub fn needs_window(&self) -> (r: bool)
        ensures
            r == !self.has_window(),
    {
        match self.phase {
            Phase::Uninitialized => true,
            Phase::Active { .. } => false,
        }
    }

    /// The resume callback. `window_id` is the identity of the window the
    /// host created when `needs_window` answered true; when a window is
    /// already owned the argument is ignored and nothing changes.
    pub fn resumed(&mut self, window_id: u64) -> (acts: Vec<Action>)
        ensures
            *final(self) == old(self).resume_step(window_id),
            acts@ == old(self).resume_actions(),
            final(self).has_window(),
    {
        if self.needs_window() {
            self.phase = Phase::Active {
                window: WindowModel { id: window_id, title: Title::AppLabel, cursor_visible: true },
                state: State::new(window_id),
            };
            one_action(Action::SetTitle { title: Title::AppLabel })
        } else {
            no_actions()
        }
    }

    /// The window event callback: filters by window identity, dispatches on
    /// the event kind, and answers with the actions the host must perform.
    /// An event arriving before any window exists is ignored gracefully.
    pub fn window_event(&mut self, window_id: u64, event: &Event) -> (acts: Vec<Action>)
        ensures
            *final(self) == old(self).event_step(window_id, *event),
            acts@ == old(self).event_actions(window_id, *event),
    {
        proof {
            reveal_strlit("q");
            reveal_strlit("m");
            reveal_strlit("M");
            assert("q"@[0] == 'q' && "m"@[0] == 'm' && "M"@[0] == 'M');
            assert("q"@ != "m"@ && "q"@ != "M"@ && "m"@ != "M"@);
        }
        let phase = self.phase;
        match phase {
            Phase::Uninitialized => no_actions(),
            Phase::Active { window, state } => {
                if window.id != window_id {
                    no_actions()
                } else {
                    match event {
                        Event::CloseRequested => one_action(Action::Exit),
                        Event::Resized { width, height } => {
                            let mut holder = state;
                            let report = holder.resize(*width, *height);
                            self.phase = Phase::Active { window, state: holder };
                            one_action(report)
                        },
                        Event::RedrawRequested => one_action(state.draw()),
                        Event::CursorLeft => no_actions(),
                        Event::Keyboard { text } => {
                            let quit = String::from_str("q");
                            let hide = String::from_str("m");
                            let show = String::from_str("M");
                            if *text == quit {
                                one_action(Action::Exit)
                            } else if *text == hide {
                                self.phase = Phase::Active {
                                    window: WindowModel {
                                        id: window.id,
                                        title: Title::HiddenLabel,
                                        cursor_visible: false,
                                    },
                                    state,
                                };
                                two_actions(
                                    Action::SetCursorVisible { visible: false },
                                    Action::SetTitle { title: Title::HiddenLabel },
                                )
                            } else if *text == show {
                                self.phase = Phase::Active {
                                    window: WindowModel {
                                        id: window.id,
                                        title: window.title,
                                        cursor_visible: true,
                                    },
                                    state,
                                };
                                one_action(Action::SetCursorVisible { visible: true })
                            } else {
                                no_actions()
                            }
                        },
                        Event::Other => no_actions(),
                    }
                }
            },
        }
    }

    /// The suspend callback: diagnostic only, the owned resources are kept.
    pub fn suspended(&mut self)
        ensures
            *final(self) == *old(self),
    {
    }

    /// The exit notification: diagnostic only, no teardown.
    pub fn exiting(&mut self)
        ensures
            *final(self) == *old(self),
    {
    }
}

/// Law: resuming is idempotent. A second resume, whatever window identity
/// the host would offer it, leaves the controller exactly as the first
/// resume left it; in particular no second window is ever installed.
pub proof fn lemma_resume_idempotent(app: App, first_id: u64, second_id: u64)
    ensures
        app.resume_step(first_id).resume_step(second_id) == app.resume_step(first_id),
{
}

/// Law: an event carrying a window identity other than the owned window's
/// changes nothing and asks the host for nothing — in particular nothing is
/// forwarded to the holder.
pub proof fn lemma_foreign_window_ignored(app: App, window_id: u64, e: Event)
    requires
        !app.owns(window_id),
    ensures
        app.event_step(window_id, e) == app,
        app.event_actions(window_id, e) == Seq::<Action>::empty(),
{
}

/// Law: keyboard text "m" hides the cursor and switches the title to the
/// hidden label, keeping the window identity and the holder.
pub proof fn lemma_key_hide(app: App, window_id: u64, text: String)
    requires
        app.owns(window_id),
        text@ == "m"@,
    ensures
        ({
            let next = app.event_step(window_id, Event::Keyboard { text });
            &&& next.window() matches Some(w) && w.title == Title::HiddenLabel
                && !w.cursor_visible && w.id == window_id
            &&& next.holder() == app.holder()
        }),
{
}

/// Law: keyboard text "M" restores cursor visibility and does not touch the
/// title, the window identity or the holder. "M" is distinct from "m": the
/// triggers are character-exact.
pub proof fn lemma_key_show(app: App, window_id: u64, text: String)
    requires
        app.owns(window_id),
        text@ == "M"@,
    ensures
        ({
            let next = app.event_step(window_id, Event::Keyboard { text });
            &&& next.window() matches Some(w) && app.window() matches Some(prev)
                && w.cursor_visible && w.title == prev.title && w.id == window_id
            &&& next.holder() == app.holder()
        }),
{
    reveal_strlit("m");
    reveal_strlit("M");
    assert("m"@[0] == 'm' && "M"@[0] == 'M');
    assert(text@ != "m"@);
}

/// Law: keyboard text other than "m" and "M" leaves the whole state — in
/// particular cursor visibility and title — unchanged.
pub proof fn lemma_key_other(app: App, window_id: u64, text: String)
    requires
        text@ != "m"@,
        text@ != "M"@,
    ensures
        app.event_step(window_id, Event::Keyboard { text }) == app,
{
}

/// Law: a close request, and keyboard text exactly "q", each produce
/// exactly one action, the exit signal, and change no state.
pub proof fn lemma_termination_triggers(app: App, window_id: u64, text: String)
    requires
        app.owns(window_id),
        text@ == "q"@,
    ensures
        ({
            let acts = app.event_actions(window_id, Event::CloseRequested);
            acts.len() == 1 && acts[0] == Action::Exit
        }),
        ({
            let acts = app.event_actions(window_id, Event::Keyboard { text });
            acts.len() == 1 && acts[0] == Action::Exit
        }),
        app.event_step(window_id, Event::CloseRequested) == app,
        app.event_step(window_id, Event::Keyboard { text }) == app,
{
    reveal_strlit("q");
    reveal_strlit("m");
    reveal_strlit("M");
    assert("q"@[0] == 'q' && "m"@[0] == 'm' && "M"@[0] == 'M');
    assert(text@ != "m"@ && text@ != "M"@);
}

/// Law: the pairing invariant — a window reference is present exactly when
/// the render surface holder is present. The tagged phase enforces it at
/// every observation point.
pub proof fn lemma_window_iff_holder(app: App)
    ensures
        app.has_window() <==> app.has_holder(),
{
}

/// Law: resume establishes, and every event preserves, the binding of the
/// holder to the owned window.
pub proof fn lemma_transitions_preserve_binding(app: App, window_id: u64, e: Event)
    requires
        app.wf(),
    ensures
        app.resume_step(window_id).wf(),
        app.event_step(window_id, e).wf(),
{
}

/// An empty action list.
fn no_actions() -> (v: Vec<Action>)
    ensures
        v@ == Seq::<Action>::empty(),
{
    Vec::new()
}

/// A single action.
fn one_action(a: Action) -> (v: Vec<Action>)
    ensures
        v@ == seq![a],
{
    let mut v: Vec<Action> = Vec::new();
    v.push(a);
    proof {
        assert(v@ =~= seq![a]);
    }
    v
}

/// Two actions, in order.
fn two_actions(a: Action, b: Action) -> (v: Vec<Action>)
    ensures
        v@ == seq![a, b],
{
    let mut v: Vec<Action> = Vec::new();
    v.push(a);
    v.push(b);
    proof {
        assert(v@ =~= seq![a, b]);
    }
    v
}

} // verus!
