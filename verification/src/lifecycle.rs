//! From the events of the window system to what is done about them.
use crate::text::join;
use vstd::prelude::*;
use vstd::seq_lib::lemma_multiset_commutative;

verus! {

/// A key of the keyboard.
#[derive(Debug, Clone, Copy, PartialEq, Eq, Structural)]
pub enum Key {
    Escape,
    Other,
}

/// Something that the window system reports.
#[derive(Debug, Clone, Copy, PartialEq, Eq, Structural)]
pub enum Event {
    /// There can be a window from now on.
    Resumed,
    /// There cannot be a window any more.
    Suspended,
    Resized { width: u32, height: u32 },
    CloseRequested,
    KeyboardInput { key: Key },
    /// No event is left for now.
    AboutToWait,
    Other,
}

/// Something to print.
#[derive(Debug, Clone, Copy, PartialEq, Eq, Structural)]
pub enum Notice {
    WindowAvailable,
    WindowRemoved,
}

impl Notice {
    /// The line to print.
    pub fn line(self) -> (line: &'static str)
        ensures
            line@ == match self {
                Notice::WindowAvailable => "Android window available"@,
                Notice::WindowRemoved => "Android window removed"@,
            },
    {
        match self {
            Notice::WindowAvailable => "Android window available",
            Notice::WindowRemoved => "Android window removed",
        }
    }
}

/// Something to do about an event.
#[derive(Debug, Clone, Copy, PartialEq, Eq, Structural)]
pub enum Action {
    /// Print the line of the notice.
    Print(Notice),
    /// Use the window that was made before the display.
    TakeWindow,
    /// Make a window with the picked configuration and
    /// [`window_settings`](crate::startup::window_settings).
    CreateWindow,
    /// Make a surface for the window.
    CreateSurface,
    /// Make the context current on the surface.
    MakeCurrent,
    /// Make the renderer.
    CreateRenderer,
    /// Wait for so many vertical blanks between frames. If that fails, print
    /// [`vsync_error_line`] as an error.
    SetSwapInterval { interval: u32 },
    /// Destroy the surface and its window.
    ReleaseSurface,
    /// Make the context current no longer.
    MakeNotCurrent,
    ResizeSurface { width: u32, height: u32 },
    ResizeRenderer { viewport_width: i32, viewport_height: i32 },
    Draw,
    RequestRedraw,
    SwapBuffers,
    /// Leave the event loop.
    Exit,
}

/// The line that reports that vertical synchronisation could not be set, for
/// an error that prints as `error`.
pub fn vsync_error_line(error: &str) -> (line: String)
    ensures
        line@ == "Error setting vsync: "@ + error@,
{
    join("Error setting vsync: ", error)
}

/// A length in pixels as OpenGL takes it: the lengths that are too great for it
/// become negative.
pub open spec fn viewport_length(length: u32) -> i32 {
    if length < 0x8000_0000 {
        length as i32
    } else {
        (length - 0x1_0000_0000) as i32
    }
}

fn to_viewport_length(length: u32) -> (converted: i32)
    ensures
        converted == viewport_length(length),
{
    assert(length >= 0x8000_0000 ==> length as i32 == length - 0x1_0000_0000) by (bit_vector);
    length as i32
}

/// What there is at a time.
#[derive(Debug, Clone, Copy, PartialEq, Eq, Structural)]
pub struct Lifecycle {
    /// Notices of an appearing window are printed.
    pub android: bool,
    /// A window that was made before the display waits to be used.
    pub window: bool,
    /// The context is there and not current.
    pub idle_context: bool,
    /// The context is current on the surface of a window.
    pub active: bool,
    /// The renderer is there.
    pub renderer: bool,
}

impl Lifecycle {
    /// The context is in exactly one place. While it is current there is a
    /// renderer, and no window waits.
    pub open spec fn wf(self) -> bool {
        &&& self.idle_context != self.active
        &&& self.active ==> self.renderer && !self.window
    }

    /// The event can happen: the application is resumed only while it is not
    /// active, and suspended only while it is.
    pub open spec fn accepts(self, event: Event) -> bool {
        match event {
            Event::Resumed => self.idle_context,
            Event::Suspended => self.active,
            _ => true,
        }
    }

    /// What there is after the event.
    pub open spec fn spec_after(self, event: Event) -> Lifecycle {
        match event {
            Event::Resumed => Lifecycle {
                window: false,
                idle_context: false,
                active: true,
                renderer: true,
                ..self
            },
            Event::Suspended => Lifecycle { idle_context: true, active: false, ..self },
            _ => self,
        }
    }

    /// What is printed of the event before anything else is done about it.
    pub open spec fn spec_notice(self, event: Event) -> Option<Notice> {
        match event {
            Event::Resumed => if self.android {
                Some(Notice::WindowAvailable)
            } else {
                None
            },
            Event::Suspended => Some(Notice::WindowRemoved),
            _ => None,
        }
    }

    /// A window gets a surface and the current context; the renderer is made
    /// with the first one.
    pub open spec fn resume_actions(self) -> Seq<Action> {
        (if self.android {
            seq![Action::Print(Notice::WindowAvailable)]
        } else {
            seq![]
        }) + seq![
            if self.window {
                Action::TakeWindow
            } else {
                Action::CreateWindow
            },
            Action::CreateSurface,
            Action::MakeCurrent,
        ] + (if self.renderer {
            seq![]
        } else {
            seq![Action::CreateRenderer]
        }) + seq![Action::SetSwapInterval { interval: 1 }]
    }

    /// What is done about the event.
    pub open spec fn actions(self, event: Event) -> Seq<Action> {
        match event {
            Event::Resumed => self.resume_actions(),
            Event::Suspended => seq![
                Action::Print(Notice::WindowRemoved),
                Action::ReleaseSurface,
                Action::MakeNotCurrent,
            ],
            Event::Resized { width, height } => if width != 0 && height != 0 && self.active {
                seq![
                    Action::ResizeSurface { width, height },
                    Action::ResizeRenderer {
                        viewport_width: viewport_length(width),
                        viewport_height: viewport_length(height),
                    },
                ]
            } else {
                seq![]
            },
            Event::CloseRequested => seq![Action::Exit],
            Event::KeyboardInput { key } => if key == Key::Escape {
                seq![Action::Exit]
            } else {
                seq![]
            },
            Event::AboutToWait => if self.active {
                seq![Action::Draw, Action::RequestRedraw, Action::SwapBuffers]
            } else {
                seq![]
            },
            Event::Other => seq![],
        }
    }

    /// The context has been created and nothing has happened yet; `window` says
    /// whether a window was made before the display.
    pub fn new(window: bool, android: bool) -> (lifecycle: Lifecycle)
        ensures
            lifecycle.wf(),
            lifecycle == (Lifecycle {
                android,
                window,
                idle_context: true,
                active: false,
                renderer: false,
            }),
    {
        Lifecycle { android, window, idle_context: true, active: false, renderer: false }
    }

    /// The event can happen.
    pub fn expects(&self, event: Event) -> (expected: bool)
        ensures
            expected == self.accepts(event),
    {
        match event {
            Event::Resumed => self.idle_context,
            Event::Suspended => self.active,
            _ => true,
        }
    }

    /// What is printed of the event before anything else is done about it, even
    /// if it cannot happen. No other notice is printed.
    pub fn notice(&self, event: Event) -> (notice: Option<Notice>)
        ensures
            notice == self.spec_notice(event),
            notice is Some ==> self.actions(event).len() > 0 && self.actions(event).first()
                == Action::Print(notice->0),
            forall|i: int|
                0 <= i < self.actions(event).len() && (#[trigger] self.actions(event)[i] is Print)
                    ==> i == 0 && notice is Some,
    {
        match event {
            Event::Resumed => if self.android {
                Some(Notice::WindowAvailable)
            } else {
                None
            },
            Event::Suspended => Some(Notice::WindowRemoved),
            _ => None,
        }
    }

    /// Takes note of the event, and says what to do about it, in order.
    pub fn handle(&mut self, event: Event) -> (actions: Vec<Action>)
        requires
            old(self).wf(),
            old(self).accepts(event),
        ensures
            final(self).wf(),
            *final(self) == old(self).spec_after(event),
            actions@ == old(self).actions(event),
    {
        let mut actions: Vec<Action> = Vec::new();
        match event {
            Event::Resumed => {
                if self.android {
                    actions.push(Action::Print(Notice::WindowAvailable));
                }
                if self.window {
                    actions.push(Action::TakeWindow);
                } else {
                    actions.push(Action::CreateWindow);
                }
                self.window = false;
                actions.push(Action::CreateSurface);
                self.idle_context = false;
                actions.push(Action::MakeCurrent);
                if !self.renderer {
                    self.renderer = true;
                    actions.push(Action::CreateRenderer);
                }
                actions.push(Action::SetSwapInterval { interval: 1 });
                self.active = true;
            },
            Event::Suspended => {
                actions.push(Action::Print(Notice::WindowRemoved));
                self.active = false;
                actions.push(Action::ReleaseSurface);
                self.idle_context = true;
                actions.push(Action::MakeNotCurrent);
            },
            Event::Resized { width, height } => {
                if width != 0 && height != 0 {
                    if self.active {
                        actions.push(Action::ResizeSurface { width, height });
                        actions.push(
                            Action::ResizeRenderer {
                                viewport_width: to_viewport_length(width),
                                viewport_height: to_viewport_length(height),
                            },
                        );
                    }
                }
            },
            Event::CloseRequested | Event::KeyboardInput { key: Key::Escape } => {
                actions.push(Action::Exit);
            },
            Event::AboutToWait => {
                if self.active {
                    actions.push(Action::Draw);
                    actions.push(Action::RequestRedraw);
                    actions.push(Action::SwapBuffers);
                }
            },
            _ => {},
        }
        actions
    }
}

/// What there is after all the events.
pub open spec fn after_all(start: Lifecycle, events: Seq<Event>) -> Lifecycle
    decreases events.len(),
{
    if events.len() == 0 {
        start
    } else {
        after_all(start, events.drop_last()).spec_after(events.last())
    }
}

/// Each event can happen when it comes.
pub open spec fn accepts_all(start: Lifecycle, events: Seq<Event>) -> bool
    decreases events.len(),
{
    events.len() == 0 || (accepts_all(start, events.drop_last()) && after_all(
        start,
        events.drop_last(),
    ).accepts(events.last()))
}

/// All that is done about the events.
pub open spec fn all_actions(start: Lifecycle, events: Seq<Event>) -> Seq<Action>
    decreases events.len(),
{
    if events.len() == 0 {
        seq![]
    } else {
        all_actions(start, events.drop_last()) + after_all(start, events.drop_last()).actions(
            events.last(),
        )
    }
}

/// How often something is done.
pub open spec fn times(actions: Seq<Action>, action: Action) -> nat {
    actions.to_multiset().count(action)
}

proof fn lemma_times_concat(a: Seq<Action>, b: Seq<Action>, action: Action)
    ensures
        times(a + b, action) == times(a, action) + times(b, action),
{
    lemma_multiset_commutative(a, b);
}

proof fn lemma_times_in_one_event(state: Lifecycle, event: Event)
    ensures
        times(state.actions(event), Action::CreateRenderer) == if event == Event::Resumed
            && !state.renderer {
            1nat
        } else {
            0
        },
        times(state.actions(event), Action::TakeWindow) == if event == Event::Resumed
            && state.window {
            1nat
        } else {
            0
        },
        times(state.actions(event), Action::CreateWindow) == if event == Event::Resumed
            && !state.window {
            1nat
        } else {
            0
        },
        times(state.actions(event), Action::CreateSurface) == if event == Event::Resumed {
            1nat
        } else {
            0
        },
        times(state.actions(event), Action::MakeCurrent) == if event == Event::Resumed {
            1nat
        } else {
            0
        },
        times(state.actions(event), Action::ReleaseSurface) == if event == Event::Suspended {
            1nat
        } else {
            0
        },
        times(state.actions(event), Action::MakeNotCurrent) == if event == Event::Suspended {
            1nat
        } else {
            0
        },
{
    broadcast use vstd::seq_lib::group_to_multiset_ensures;

    let actions = state.actions(event);
    if event == Event::Resumed {
        let window = if state.window {
            Action::TakeWindow
        } else {
            Action::CreateWindow
        };
        let built = Seq::<Action>::empty();
        let built = if state.android {
            built.push(Action::Print(Notice::WindowAvailable))
        } else {
            built
        };
        let built = built.push(window).push(Action::CreateSurface).push(Action::MakeCurrent);
        let built = if state.renderer {
            built
        } else {
            built.push(Action::CreateRenderer)
        };
        let built = built.push(Action::SetSwapInterval { interval: 1 });
        assert(actions == built);
    } else if event == Event::Suspended {
        assert(actions == Seq::<Action>::empty().push(Action::Print(Notice::WindowRemoved)).push(
            Action::ReleaseSurface,
        ).push(Action::MakeNotCurrent));
    } else if event is Resized && actions.len() > 0 {
        assert(actions == Seq::<Action>::empty().push(actions[0]).push(actions[1]));
    } else if event == Event::AboutToWait && actions.len() > 0 {
        assert(actions == Seq::<Action>::empty().push(actions[0]).push(actions[1]).push(
            actions[2],
        ));
    } else if actions.len() > 0 {
        assert(actions == Seq::<Action>::empty().push(actions[0]));
    } else {
        assert(actions == Seq::<Action>::empty());
    }
}

/// Whatever happens, from a start without a renderer:
/// - the invariant holds, so a renderer is there whenever one is drawn with or
///   resized;
/// - the renderer is made once, at the first resumption, and kept;
/// - each resumption makes one surface and makes the context current on it, and
///   each suspension undoes both;
/// - each resumption has one window, and only the first can use the one that
///   was made before the display.
pub proof fn lifecycle_is_balanced(start: Lifecycle, events: Seq<Event>)
    requires
        start.wf(),
        !start.renderer,
        accepts_all(start, events),
    ensures
        ({
            let end = after_all(start, events);
            let actions = all_actions(start, events);
            let active: nat = if end.active {
                1
            } else {
                0
            };
            &&& end.wf()
            &&& end.renderer <==> events.contains(Event::Resumed)
            &&& times(actions, Action::CreateRenderer) == if end.renderer {
                1nat
            } else {
                0
            }
            &&& times(actions, Action::CreateSurface) == times(actions, Action::ReleaseSurface)
                + active
            &&& times(actions, Action::MakeCurrent) == times(actions, Action::MakeNotCurrent)
                + active
            &&& times(actions, Action::TakeWindow) + times(actions, Action::CreateWindow)
                == times(actions, Action::CreateSurface)
            &&& times(actions, Action::TakeWindow) == if start.window && end.renderer {
                1nat
            } else {
                0
            }
            &&& end.window == (start.window && !end.renderer)
        }),
    decreases events.len(),
{
    broadcast use vstd::seq_lib::group_to_multiset_ensures;

    if events.len() > 0 {
        let before = events.drop_last();
        let last = events.last();
        lifecycle_is_balanced(start, before);
        let state = after_all(start, before);
        lemma_times_in_one_event(state, last);
        let earlier = all_actions(start, before);
        let latest = state.actions(last);
        lemma_times_concat(earlier, latest, Action::CreateRenderer);
        lemma_times_concat(earlier, latest, Action::TakeWindow);
        lemma_times_concat(earlier, latest, Action::CreateWindow);
        lemma_times_concat(earlier, latest, Action::CreateSurface);
        lemma_times_concat(earlier, latest, Action::MakeCurrent);
        lemma_times_concat(earlier, latest, Action::ReleaseSurface);
        lemma_times_concat(earlier, latest, Action::MakeNotCurrent);
        assert(events == before.push(last));
        assert(events.contains(Event::Resumed) <==> before.contains(Event::Resumed) || last
            == Event::Resumed) by {
            if before.contains(Event::Resumed) {
                let i = choose|i: int| 0 <= i < before.len() && before[i] == Event::Resumed;
                assert(events[i] == Event::Resumed);
            }
            if last == Event::Resumed {
                assert(events[events.len() - 1] == Event::Resumed);
            }
            if events.contains(Event::Resumed) {
                let i = choose|i: int| 0 <= i < events.len() && events[i] == Event::Resumed;
                if i < before.len() {
                    assert(before[i] == Event::Resumed);
                }
            }
        }
    } else {
        assert(all_actions(start, events) == Seq::<Action>::empty());
    }
}

/// The event loop is left exactly when the window is closed or Escape is pressed.
pub proof fn exit_on_close_or_escape(state: Lifecycle, event: Event)
    ensures
        state.actions(event).contains(Action::Exit) <==> event == Event::CloseRequested || event
            == (Event::KeyboardInput { key: Key::Escape }),
{
    let actions = state.actions(event);
    if event == Event::CloseRequested || event == (Event::KeyboardInput { key: Key::Escape }) {
        assert(actions[0] == Action::Exit);
    }
}

/// Frames are drawn, and sizes passed on, only while the application is active,
/// and no side of a size that is passed on is 0.
pub proof fn only_active_windows_are_drawn(state: Lifecycle, event: Event)
    ensures
        forall|action: Action| #[trigger]
            state.actions(event).contains(action) ==> match action {
                Action::Draw | Action::RequestRedraw | Action::SwapBuffers => state.active,
                Action::ResizeSurface { width, height } => state.active && width > 0 && height > 0,
                Action::ResizeRenderer { viewport_width, viewport_height } => state.active
                    && viewport_width != 0 && viewport_height != 0,
                _ => true,
            },
{
}

/// A suspension followed by a resumption leads back to the same state, with a
/// new window and the same renderer.
pub proof fn resumption_undoes_suspension(state: Lifecycle)
    requires
        state.wf(),
        state.active,
    ensures
        ({
            let suspended = state.spec_after(Event::Suspended);
            &&& state.accepts(Event::Suspended)
            &&& suspended.accepts(Event::Resumed)
            &&& suspended.spec_after(Event::Resumed) == state
            &&& suspended.actions(Event::Resumed).contains(Action::CreateWindow)
            &&& !suspended.actions(Event::Resumed).contains(Action::CreateRenderer)
        }),
{
    let suspended = state.spec_after(Event::Suspended);
    let actions = suspended.actions(Event::Resumed);
    if state.android {
        assert(actions[1] == Action::CreateWindow);
    } else {
        assert(actions[0] == Action::CreateWindow);
    }
}

/// On a resumption the window comes first, then its surface, then the current
/// context on it, then the renderer where there is none, and the swap interval
/// last: each needs what comes before it. Nothing else is done, but for the
/// notice that an Android window gets before all.
pub proof fn resumption_is_in_order(state: Lifecycle)
    ensures
        ({
            let actions = state.actions(Event::Resumed);
            let window: int = if state.android {
                1
            } else {
                0
            };
            &&& actions.len() == window + if state.renderer {
                4int
            } else {
                5
            }
            &&& state.android ==> actions[0] == Action::Print(Notice::WindowAvailable)
            &&& state.window ==> actions[window] == Action::TakeWindow
            &&& !state.window ==> actions[window] == Action::CreateWindow
            &&& actions[window + 1] == Action::CreateSurface
            &&& actions[window + 2] == Action::MakeCurrent
            &&& !state.renderer ==> actions[window + 3] == Action::CreateRenderer
            &&& actions.last() == (Action::SetSwapInterval { interval: 1 })
            &&& forall|i: int, j: int|
                0 <= i < actions.len() && 0 <= j < actions.len() ==> {
                    let (first, second) = (#[trigger] actions[i], #[trigger] actions[j]);
                    let window_first = first is TakeWindow || first is CreateWindow;
                    &&& window_first && second is CreateSurface ==> i < j
                    &&& first is CreateSurface && second is MakeCurrent ==> i < j
                    &&& first is MakeCurrent && second is CreateRenderer ==> i < j
                    &&& first is MakeCurrent && second is SetSwapInterval ==> i < j
                }
        }),
{
}

/// After a resumption the context is current and the renderer is there, and no
/// window waits any more.
pub proof fn resumption_activates(state: Lifecycle)
    ensures
        ({
            let after = state.spec_after(Event::Resumed);
            &&& after.active
            &&& after.renderer
            &&& !after.idle_context
            &&& !after.window
            &&& after.android == state.android
        }),
        state.accepts(Event::Resumed) <==> state.idle_context,
{
}

/// On a suspension the notice is printed, the surface goes, and then the context
/// is current no longer. It waits for the next resumption, and so does the
/// renderer.
pub proof fn suspension_lets_go(state: Lifecycle)
    ensures
        ({
            let actions = state.actions(Event::Suspended);
            &&& actions.len() == 3
            &&& actions[0] == Action::Print(Notice::WindowRemoved)
            &&& actions[1] == Action::ReleaseSurface
            &&& actions[2] == Action::MakeNotCurrent
        }),
        ({
            let after = state.spec_after(Event::Suspended);
            &&& !after.active
            &&& after.idle_context
            &&& after.renderer == state.renderer
            &&& after.window == state.window
            &&& after.android == state.android
        }),
        state.accepts(Event::Suspended) <==> state.active,
{
}

/// A size is passed on, first to the surface and then to the renderer, while the
/// application is active and neither side is 0. The surface gets it as it is, the
/// renderer modulo 2 to the power of 32. Nothing else is done about it.
pub proof fn size_is_passed_on(state: Lifecycle, width: u32, height: u32)
    ensures
        ({
            let actions = state.actions(Event::Resized { width, height });
            if state.active && width > 0 && height > 0 {
                &&& actions.len() == 2
                &&& actions[0] is ResizeSurface
                &&& actions[0]->width == width
                &&& actions[0]->height == height
                &&& actions[1] is ResizeRenderer
                &&& (width - actions[1]->viewport_width) % 0x1_0000_0000 == 0
                &&& (height - actions[1]->viewport_height) % 0x1_0000_0000 == 0
            } else {
                actions.len() == 0
            }
        }),
{
}

/// While the application is active and nothing else happens, a frame is drawn,
/// the next one is asked for, and the buffers are swapped, in this order.
/// Otherwise nothing is done.
pub proof fn frame_is_drawn_then_shown(state: Lifecycle)
    ensures
        ({
            let actions = state.actions(Event::AboutToWait);
            if state.active {
                &&& actions.len() == 3
                &&& actions[0] is Draw
                &&& actions[1] is RequestRedraw
                &&& actions[2] is SwapBuffers
            } else {
                actions.len() == 0
            }
        }),
{
}

/// Closing the window and pressing Escape do nothing but leave the event loop.
/// Any other key, and any other event, does nothing.
pub proof fn exit_is_all_that_is_done(state: Lifecycle, key: Key)
    ensures
        state.actions(Event::CloseRequested).len() == 1,
        state.actions(Event::CloseRequested)[0] is Exit,
        key is Escape ==> state.actions(Event::KeyboardInput { key }).len() == 1
            && state.actions(Event::KeyboardInput { key })[0] is Exit,
        key is Other ==> state.actions(Event::KeyboardInput { key }).len() == 0,
        state.actions(Event::Other).len() == 0,
{
}

/// Only a resumption and a suspension change what there is, and any other event
/// can happen at any time.
pub proof fn other_events_change_nothing(state: Lifecycle, event: Event)
    requires
        !(event is Resumed),
        !(event is Suspended),
    ensures
        state.spec_after(event) == state,
        state.accepts(event),
{
}

/// Whatever is there keeps [`Lifecycle::wf`] exactly if the context is either
/// idle or current and, while it is current, there is a renderer and no window
/// waits.
pub proof fn context_is_in_one_place(state: Lifecycle)
    ensures
        state.wf() ==> !(state.idle_context && state.active),
        state.wf() ==> state.idle_context || state.active,
        state.wf() && state.active ==> state.renderer && !state.window,
        state.idle_context && !state.active ==> state.wf(),
        state.active && !state.idle_context && state.renderer && !state.window ==> state.wf(),
{
}

} // verus!
