use vstd::prelude::*;

use std::collections::VecDeque;

use crate::action::Action;
use crate::components::composes::Composes;
use crate::components::containers::Containers;
use crate::components::images::Images;
use crate::components::networks::Networks;
use crate::components::volumes::Volumes;
use crate::components::{is_error, lemma_screen_payload_ignored, Component, Reply, Request};
use crate::editor::{backspaced, inserted, moved_left, moved_right, LineEditor};
use crate::runtime::model::{Filter, RuntimeSummary};
use crate::runtime::{get_suggestions, suggestions_of, ConnectionConfig, Resource};
use crate::text::{has_prefix, owned, string_from_chars};
use crate::tui::{Event, Key, KeyCode};
use crate::components::container_logs::stopped;
use crate::worker::Effect;

verus! {

/// Where typed keys go: to the screens, or to the prompt line.
#[derive(Clone, Copy, Debug, PartialEq, Eq, Structural)]
pub enum InputMode {
    Normal,
    Change,
    Filter,
}

/// Ticks an error notice stays up.
pub const DEFAULT_TOAST_DELAY: usize = 8;

/// The overlay drawn above the active screen; at most one is shown.
#[derive(Debug)]
pub enum Popup {
    Closed,
    Error { msg: String, timeout: usize, ttl: usize },
    Help,
}

/// What the loop does once the queue is drained.
#[derive(Clone, Copy, Debug, PartialEq, Eq, Structural)]
pub enum LoopStep {
    Continue,
    /// Suspend the terminal driver and recreate it; `Resume` has been enqueued.
    Suspend,
    Quit,
}

/// The result of the controller's own handling of an action: effects for the loop,
/// and the action when it goes on to the active screen.
#[derive(Debug)]
pub struct Dispatch {
    pub effects: Vec<Effect>,
    pub forward: Option<Action>,
}

/// The controller: the action queue, the active screen, the input line, the overlay
/// and the quit/suspend flags.
#[derive(Debug)]
pub struct App {
    pub should_quit: bool,
    pub should_suspend: bool,
    pub input: LineEditor,
    pub input_mode: InputMode,
    pub suggestion: Option<Resource>,
    pub suggestions: Vec<Resource>,
    pub version: String,
    pub show_popup: Popup,
    pub runtime_info: Option<RuntimeSummary>,
    pub main: Component,
    pub queue: VecDeque<Action>,
}

/// The effect list of handling `action`: what it asks of the terminal, or of the workers
/// of the outgoing and incoming screens.
pub open spec fn dispatch_effects(old: App, action: Action) -> Seq<Effect> {
    match action {
        Action::Resume => seq![Effect::ResumeTerminal],
        Action::Resize(w, h) => seq![Effect::ResizeTerminal(w, h), Effect::Redraw],
        Action::Render => seq![Effect::Redraw],
        Action::Screen(s) => old.main.teardown_effects() + s.setup_effects(),
        _ => Seq::empty(),
    }
}

/// The overlay after a tick: an error notice counts down, and closes at zero.
pub open spec fn ticked(p: Popup) -> Popup {
    match p {
        Popup::Error { msg, timeout, ttl } => if ttl > 0 {
            Popup::Error { msg, timeout, ttl: (ttl - 1) as usize }
        } else {
            Popup::Closed
        },
        other => other,
    }
}

/// An error notice lasts the default number of ticks, and its countdown never
/// exceeds that length.
pub open spec fn popup_ok(p: Popup) -> bool {
    p matches Popup::Error { ttl, timeout, .. } ==> timeout == DEFAULT_TOAST_DELAY && ttl <= timeout
}

/// `r` is the list screen of resource `res`, just built with no filter.
pub open spec fn fresh_list(r: Component, res: Resource) -> bool {
    match res {
        Resource::Containers => r matches Component::Containers(c) && c.is_fresh(Seq::empty()),
        Resource::Composes => r matches Component::Composes(c) && c.is_fresh(),
        Resource::Images => r matches Component::Images(c) && c.is_fresh(),
        Resource::Networks => r matches Component::Networks(c) && c.is_fresh(Seq::empty()),
        Resource::Volumes => r matches Component::Volumes(c) && c.is_fresh(Seq::empty()),
    }
}

/// The global key map, used when the active screen has no binding for the key.
pub open spec fn global_action(key: Key, has_filter: bool) -> Option<Action> {
    match key.code {
        KeyCode::Char('a') => Some(Action::All),
        KeyCode::Char('q') => Some(Action::Quit),
        KeyCode::Char(':') => Some(Action::Change),
        KeyCode::Char('/') => if has_filter { Some(Action::Filter) } else { None },
        KeyCode::Char('j') | KeyCode::Down => Some(Action::Down),
        KeyCode::Char('k') | KeyCode::Up => Some(Action::Up),
        KeyCode::Char('?') => Some(Action::Help),
        KeyCode::F(n) => Some(Action::SortColumn(n)),
        KeyCode::PageUp => Some(Action::PageUp),
        KeyCode::PageDown => Some(Action::PageDown),
        KeyCode::Esc => Some(Action::PreviousScreen),
        KeyCode::Enter => Some(Action::Confirm),
        KeyCode::Char('d') => if key.ctrl { Some(Action::Delete) } else { None },
        _ => None,
    }
}

/// The first suggestion whose name starts with the typed text.
pub open spec fn first_match(s: Seq<Resource>, typed: Seq<char>) -> Option<Resource>
    decreases s.len(),
{
    if s.len() == 0 {
        None
    } else if typed.len() <= s[0].spec_name().len() && s[0].spec_name().subrange(0, typed.len() as int) == typed {
        Some(s[0])
    } else {
        first_match(s.drop_first(), typed)
    }
}

impl App {
    pub open spec fn wf(self) -> bool {
        &&& self.input.wf()
        &&& self.main.wf()
        &&& popup_ok(self.show_popup)
        &&& self.input@.0.len() < usize::MAX
    }

    /// The controller before the first screen is installed: the container list,
    /// nothing queued, no overlay.
    pub fn new(version: String, config: &ConnectionConfig) -> (r: App)
        ensures
            r.wf(),
            !r.should_quit && !r.should_suspend,
            r.input_mode == InputMode::Normal,
            r.input@ == (Seq::<char>::empty(), 0nat),
            r.suggestion is None,
            r.suggestions@ == suggestions_of(*config),
            r.version == version,
            r.show_popup is Closed,
            r.runtime_info is None,
            r.main matches Component::Containers(c) && c.is_fresh(Seq::empty()),
            r.queue@.len() == 0,
    {
        App {
            should_quit: false,
            should_suspend: false,
            input: LineEditor::new(),
            input_mode: InputMode::Normal,
            suggestion: None,
            suggestions: get_suggestions(config),
            version,
            show_popup: Popup::Closed,
            runtime_info: None,
            main: Component::Containers(Containers::new(Filter::new())),
            queue: VecDeque::new(),
        }
    }

    /// Installs the first screen.
    pub fn start(&mut self) -> (effects: Vec<Effect>)
        requires
            old(self).wf(),
        ensures
            final(self).wf(),
            *final(self) == (App { main: old(self).main.installed(), ..*old(self) }),
            effects@ == old(self).main.setup_effects(),
    {
        self.main.setup()
    }

    /// Enqueues an action.
    pub fn send(&mut self, action: Action)
        ensures
            *final(self) == (App { queue: final(self).queue, ..*old(self) }),
            final(self).queue@ == old(self).queue@.push(action),
    {
        self.queue.push_back(action);
    }

    pub open spec fn next_action_post(old: App, new: App, r: Option<Action>) -> bool {
        &&& new == (App { queue: new.queue, ..old })
        &&& old.queue@.len() == 0 ==> r is None && new.queue@ == old.queue@
        &&& old.queue@.len() > 0 ==> r == Some(old.queue@[0]) && new.queue@ == old.queue@.drop_first()
    }

    /// Takes the oldest queued action.
    pub fn next_action(&mut self) -> (r: Option<Action>)
        ensures
            Self::next_action_post(*old(self), *final(self), r),
    {
        let r = self.queue.pop_front();
        proof {
            if old(self).queue@.len() > 0 {
                assert(self.queue@ =~= old(self).queue@.drop_first());
            }
        }
        r
    }

    /// The controller's own handling of `action`, applied before the active screen
    /// sees it.
    pub open spec fn dispatch_post(old: App, action: Action, new: App, d: Dispatch) -> bool {
        let popup_shown = !(old.show_popup is Closed);
        let editing = old.input_mode != InputMode::Normal;
        &&& d.effects@ == dispatch_effects(old, action)
        &&& match action {
            Action::Quit => new == (App { should_quit: true, ..old }),
            Action::Suspend => new == (App { should_suspend: true, ..old }),
            Action::Resume => new == (App { should_suspend: false, ..old }),
            Action::Tick => new == (App { show_popup: ticked(old.show_popup), ..old }),
            Action::Screen(s) => if editing {
                new == (App { main: s.installed(), ..old })
            } else {
                new == (App { main: old.main.torn_down(), ..old })
            },
            Action::Change => new == (App { input_mode: InputMode::Change, ..old }),
            Action::Filter => new == (App { input_mode: InputMode::Filter, ..old }),
            Action::Help => new == (App { show_popup: Popup::Help, ..old }),
            Action::PreviousScreen => if popup_shown {
                new == (App { show_popup: Popup::Closed, ..old })
            } else if editing {
                new.input.wf() && new.input@ == (Seq::<char>::empty(), 0nat)
                    && new == (App { input: new.input, input_mode: InputMode::Normal, ..old })
            } else {
                new == old
            },
            Action::Error(m) => new.show_popup matches Popup::Error { msg, timeout, ttl }
                && msg == m && timeout == DEFAULT_TOAST_DELAY && ttl == DEFAULT_TOAST_DELAY
                && new == (App { show_popup: new.show_popup, ..old }),
            _ => new == old,
        }
        &&& match action {
            Action::PreviousScreen => if popup_shown || editing { d.forward is None } else { d.forward == Some(action) },
            _ => if new.input_mode == InputMode::Normal { d.forward == Some(action) } else { d.forward is None },
        }
    }

    /// Handles the cross-cutting part of an action: flags, overlay, input mode and
    /// screen replacement. For `Screen(s)` the outgoing screen is torn down and the
    /// effects that install `s` are given; `s` itself goes on with the action and is
    /// installed by `update_screen`, or here when the prompt line is open. The action
    /// goes on to the active screen only while no prompt line is open; `PreviousScreen`
    /// is kept from it while an overlay or the prompt line is open.
    pub fn dispatch(&mut self, action: Action) -> (d: Dispatch)
        requires
            old(self).wf(),
            action matches Action::Screen(s) ==> s.wf(),
        ensures
            final(self).wf(),
            Self::dispatch_post(*old(self), action, *final(self), d),
    {
        let mut effects: Vec<Effect> = Vec::new();
        let ghost act = action;
        match action {
            Action::Quit => {
                self.should_quit = true;
            },
            Action::Suspend => {
                self.should_suspend = true;
            },
            Action::Resume => {
                self.should_suspend = false;
                effects.push(Effect::ResumeTerminal);
            },
            Action::Resize(w, h) => {
                effects.push(Effect::ResizeTerminal(w, h));
                effects.push(Effect::Redraw);
            },
            Action::Render => {
                effects.push(Effect::Redraw);
            },
            Action::Tick => {
                let closing = match &mut self.show_popup {
                    Popup::Error { ttl, .. } => {
                        if *ttl > 0 {
                            *ttl = *ttl - 1;
                            false
                        } else {
                            true
                        }
                    },
                    _ => false,
                };
                if closing {
                    self.show_popup = Popup::Closed;
                }
            },
            Action::Screen(screen) => {
                let mut down = self.main.teardown();
                let mut up = screen.start_effects();
                down.append(&mut up);
                effects = down;
                assert(effects@ =~= dispatch_effects(*old(self), act));
                if self.input_mode == InputMode::Normal {
                    return Dispatch { effects, forward: Some(Action::Screen(screen)) };
                }
                let mut screen = screen;
                let _ = screen.setup();
                self.main = screen;
                return Dispatch { effects, forward: None };
            },
            Action::Change => {
                self.input_mode = InputMode::Change;
            },
            Action::Filter => {
                self.input_mode = InputMode::Filter;
            },
            Action::Help => {
                self.show_popup = Popup::Help;
            },
            Action::PreviousScreen => {
                let popup_shown = match self.show_popup {
                    Popup::Closed => false,
                    _ => true,
                };
                if popup_shown {
                    self.show_popup = Popup::Closed;
                    return Dispatch { effects, forward: None };
                }
                if self.input_mode != InputMode::Normal {
                    self.reset_input();
                    return Dispatch { effects, forward: None };
                }
                assert(effects@ =~= dispatch_effects(*old(self), act));
                return Dispatch { effects, forward: Some(Action::PreviousScreen) };
            },
            Action::Error(msg) => {
                self.show_popup = Popup::Error { msg: msg.clone(), timeout: DEFAULT_TOAST_DELAY, ttl: DEFAULT_TOAST_DELAY };
                assert(effects@ =~= dispatch_effects(*old(self), act));
                let forward = if self.input_mode == InputMode::Normal { Some(Action::Error(msg)) } else { None };
                return Dispatch { effects, forward };
            },
            _ => {},
        }
        assert(effects@ =~= dispatch_effects(*old(self), act));
        let forward = if self.input_mode == InputMode::Normal { Some(action) } else { None };
        Dispatch { effects, forward }
    }

    /// Closes the prompt line: empty text, cursor at the start, keys to the screens.
    pub fn reset_input(&mut self)
        ensures
            final(self).input.wf(),
            final(self).input@ == (Seq::<char>::empty(), 0nat),
            *final(self) == (App { input: final(self).input, input_mode: InputMode::Normal, ..*old(self) }),
    {
        self.input.reset();
        self.input_mode = InputMode::Normal;
    }

    /// The first resource whose name starts with the typed text.
    pub fn update_suggestion(&self) -> (r: Option<Resource>)
        ensures
            r == first_match(self.suggestions@, self.input@.0),
    {
        assert(self.suggestions@.subrange(0, self.suggestions@.len() as int) =~= self.suggestions@);
        let mut i: usize = 0;
        while i < self.suggestions.len()
            invariant
                i <= self.suggestions@.len(),
                first_match(self.suggestions@, self.input@.0)
                    == first_match(self.suggestions@.subrange(i as int, self.suggestions@.len() as int), self.input@.0),
            decreases self.suggestions@.len() - i,
        {
            let ghost rest = self.suggestions@.subrange(i as int, self.suggestions@.len() as int);
            assert(rest.drop_first() =~= self.suggestions@.subrange(i + 1, self.suggestions@.len() as int));
            let r = self.suggestions[i];
            if has_prefix(r.name(), self.input.text()) {
                return Some(r);
            }
            i = i + 1;
        }
        None
    }

    /// The action the prompt line asks for: in change mode the list screen of the
    /// suggested resource (none without a suggestion, the line then stays open); in
    /// filter mode the typed filter, none when the line is empty.
    pub open spec fn submitted(old: App, new: App, r: Option<Action>) -> bool {
        &&& old.input_mode == InputMode::Change ==> match old.suggestion {
            Some(res) => (r matches Some(Action::Screen(s)) && fresh_list(s, res))
                && new.input@ == (Seq::<char>::empty(), 0nat)
                && new == (App { input: new.input, input_mode: InputMode::Normal, ..old }),
            None => r is None && new == old,
        }
        &&& old.input_mode != InputMode::Change ==> new.input@ == (Seq::<char>::empty(), 0nat)
            && new == (App { input: new.input, input_mode: InputMode::Normal, ..old })
            && (old.input@.0.len() == 0 ==> r == Some(Action::SetFilter(None)))
            && (old.input@.0.len() > 0 ==> (r matches Some(Action::SetFilter(Some(t))) && t@ == old.input@.0))
    }

    pub fn submit_input(&mut self) -> (r: Option<Action>)
        requires
            old(self).wf(),
        ensures
            final(self).wf(),
            Self::submitted(*old(self), *final(self), r),
    {
        if self.input_mode == InputMode::Change {
            match self.suggestion {
                Some(res) => {
                    self.reset_input();
                    let screen = match res {
                        Resource::Containers => Component::Containers(Containers::new(Filter::new())),
                        Resource::Composes => Component::Composes(Composes::new()),
                        Resource::Images => Component::Images(Images::new()),
                        Resource::Networks => Component::Networks(Networks::new(Filter::new())),
                        Resource::Volumes => Component::Volumes(Volumes::new(Filter::new())),
                    };
                    Some(Action::Screen(screen))
                },
                None => None,
            }
        } else {
            let text = string_from_chars(self.input.text());
            let empty = self.input.is_empty();
            self.reset_input();
            if empty {
                Some(Action::SetFilter(None))
            } else {
                Some(Action::SetFilter(Some(text)))
            }
        }
    }

    /// A key typed while the prompt line is open: Enter submits (or reports that no
    /// resource matches), characters are inserted and the suggestion updated,
    /// Backspace, Left and Right edit, Esc closes the line. Only presses count.
    pub fn handle_input(&mut self, key: Key)
        requires
            old(self).wf(),
        ensures
            final(self).wf(),
            final(self).input.wf(),
            !key.press ==> *final(self) == *old(self),
            key.press && key.code == KeyCode::Esc ==> final(self).input@ == (Seq::<char>::empty(), 0nat)
                && *final(self) == (App { input: final(self).input, input_mode: InputMode::Normal, ..*old(self) }),
            key.press && key.code == KeyCode::Backspace ==> final(self).input@ == backspaced(old(self).input@)
                && *final(self) == (App { input: final(self).input, ..*old(self) }),
            key.press && key.code == KeyCode::Left ==> final(self).input@ == moved_left(old(self).input@)
                && *final(self) == (App { input: final(self).input, ..*old(self) }),
            key.press && key.code == KeyCode::Right ==> final(self).input@ == moved_right(old(self).input@)
                && *final(self) == (App { input: final(self).input, ..*old(self) }),
            key.press && key.code is Char && old(self).input@.0.len() + 1 < usize::MAX ==>
                final(self).input@ == inserted(old(self).input@, key.code->Char_0)
                && final(self).suggestion == first_match(old(self).suggestions@, final(self).input@.0)
                && *final(self) == (App { input: final(self).input, suggestion: final(self).suggestion, ..*old(self) }),
            key.press && key.code == KeyCode::Enter && old(self).input_mode == InputMode::Change
                && old(self).suggestion is None ==> *final(self) == (App { queue: final(self).queue, ..*old(self) })
                && final(self).queue@.len() == old(self).queue@.len() + 1
                && final(self).queue@.drop_last() == old(self).queue@
                && is_error(final(self).queue@.last(), "No resource found"@),
            key.press && key.code == KeyCode::Enter && !(old(self).input_mode == InputMode::Change
                && old(self).suggestion is None) ==> exists|a: Action|
                Self::submitted(*old(self), App { queue: old(self).queue, ..*final(self) }, Some(a))
                && #[trigger] final(self).queue@ == old(self).queue@.push(a),
    {
        if !key.press {
            return;
        }
        match key.code {
            KeyCode::Enter => {
                let r = self.submit_input();
                let ghost line = *self;
                match r {
                    Some(action) => {
                        self.queue.push_back(action);
                        assert(App { queue: old(self).queue, ..*self } == line);
                        assert(self.queue@ == old(self).queue@.push(action));
                    },
                    None => {
                        self.queue.push_back(Action::Error(owned("No resource found")));
                        assert(self.queue@.drop_last() =~= old(self).queue@);
                    },
                }
            },
            KeyCode::Char(c) => {
                if self.input.text().len() < usize::MAX - 1 {
                    self.input.enter_char(c);
                    self.suggestion = self.update_suggestion();
                }
            },
            KeyCode::Backspace => {
                self.input.delete_char();
                assert(self.input@.0.len() <= old(self).input@.0.len());
            },
            KeyCode::Left => self.input.move_cursor_left(),
            KeyCode::Right => self.input.move_cursor_right(),
            KeyCode::Esc => self.reset_input(),
            _ => {},
        }
    }

    /// The action bound to a key: the active screen's binding first (none while an
    /// overlay is shown), else the global key map.
    pub fn handle_key(&self, key: &Key) -> (r: Option<Action>)
        requires
            self.wf(),
        ensures
            self.show_popup is Closed && self.main.binds(*key) ==> self.main.action_post(*key, r),
            !(self.show_popup is Closed && self.main.binds(*key)) ==> r == global_action(*key, self.main.has_filter_spec()),
    {
        let own = match self.show_popup {
            Popup::Closed => self.main.get_action(key),
            _ => None,
        };
        match own {
            Some(a) => Some(a),
            None => global_key(key, self.main.has_filter()),
        }
    }

    /// Turns a terminal event into queued actions: ticks, frames and resizes map
    /// one to one; a key goes to the prompt line when it is open, else to the
    /// active screen and then the key maps.
    pub fn handle_event(&mut self, event: Event)
        requires
            old(self).wf(),
        ensures
            final(self).wf(),
            event == Event::Tick ==> *final(self) == (App { queue: final(self).queue, ..*old(self) })
                && final(self).queue@ == old(self).queue@.push(Action::Tick),
            event == Event::Render ==> *final(self) == (App { queue: final(self).queue, ..*old(self) })
                && final(self).queue@ == old(self).queue@.push(Action::Render),
            event matches Event::Resize(w, h) ==> *final(self) == (App { queue: final(self).queue, ..*old(self) })
                && final(self).queue@ == old(self).queue@.push(Action::Resize(w, h)),
            event == Event::Other ==> *final(self) == *old(self),
    {
        match event {
            Event::Tick => self.queue.push_back(Action::Tick),
            Event::Render => self.queue.push_back(Action::Render),
            Event::Resize(w, h) => self.queue.push_back(Action::Resize(w, h)),
            Event::Key(key) => {
                if self.input_mode != InputMode::Normal {
                    self.handle_input(key);
                } else {
                    let shell_ok = match &self.main {
                        Component::Containers(c) => match &c.show_popup {
                            crate::components::containers::Popup::Shell(p) => p.input.text().len() < usize::MAX - 1,
                            _ => true,
                        },
                        _ => true,
                    };
                    if shell_ok {
                        if let Some(k) = self.main.handle_input(key) {
                            if let Some(a) = self.handle_key(&k) {
                                self.queue.push_back(a);
                            }
                        }
                    }
                }
            },
            Event::Other => {},
        }
    }

    /// The screen a forwarded action goes to: the one it carries for `Screen(s)`
    /// (installed), else the active screen.
    pub open spec fn target(self, action: Action) -> Component {
        match action {
            Action::Screen(s) => s.installed(),
            _ => self.main,
        }
    }

    /// The runtime-client call that the screen receiving a forwarded action needs.
    pub fn request(&self, action: &Action) -> (r: Option<Request>)
        requires
            self.wf(),
            *action matches Action::Screen(s) ==> s.wf(),
        ensures
            r is Some == self.target(*action).needs(*action),
            self.target(*action).request_post(*action, r),
    {
        match action {
            Action::Screen(s) => s.request(action),
            _ => self.main.request(action),
        }
    }

    /// What handing a forwarded action to its screen does: the screen (the new one,
    /// installed, for `Screen`) handles it as its contract says, becomes the active
    /// screen, its actions are queued in order and its effects returned.
    pub open spec fn update_screen_post(old: App, action: Action, reply: Option<Reply>, new: App, effects: Seq<Effect>) -> bool {
        &&& exists|out: crate::components::Outcome|
            Component::update_post(old.target(action), action, reply, new.main, out)
            && new.queue@ == old.queue@ + out.actions@
            && effects == out.effects@
        &&& new == (App { main: new.main, queue: new.queue, ..old })
    }

    /// Hands a forwarded action, and the answer to its request, to its screen; for
    /// `Screen(s)`, `s` is installed as the active screen and receives the action.
    pub fn update_screen(&mut self, action: Action, reply: Option<Reply>) -> (effects: Vec<Effect>)
        requires
            old(self).wf(),
            action matches Action::Screen(s) ==> s.wf(),
        ensures
            final(self).wf(),
            Self::update_screen_post(*old(self), action, reply, *final(self), effects@),
    {
        let ghost act = action;
        let out = match action {
            Action::Screen(s) => {
                let mut incoming = s;
                let _ = incoming.setup();
                core::mem::swap(&mut self.main, &mut incoming);
                let ghost installed = self.main;
                let out = self.main.update(Action::Screen(incoming), reply);
                proof {
                    lemma_screen_payload_ignored(installed, incoming, act->Screen_0, reply, self.main, out);
                }
                out
            },
            other => self.main.update(other, reply),
        };
        let ghost o = out;
        let mut actions = out.actions;
        let mut tail: VecDeque<Action> = VecDeque::new();
        while actions.len() > 0
            invariant
                actions@ + tail@ == o.actions@,
            decreases actions@.len(),
        {
            let ghost before = actions@;
            let a = actions.pop().unwrap();
            tail.push_front(a);
            assert(actions@ + tail@ =~= o.actions@) by {
                assert(before == actions@.push(a));
            }
        }
        assert(actions@ + tail@ =~= tail@);
        self.queue.append(&mut tail);
        out.effects
    }

    pub open spec fn after_drain_post(old: App, new: App, r: LoopStep) -> bool {
        if old.should_suspend {
            r == LoopStep::Suspend && new == (App { queue: new.queue, ..old })
                && new.queue@ == old.queue@.push(Action::Resume)
        } else if old.should_quit {
            r == LoopStep::Quit && new == old
        } else {
            r == LoopStep::Continue && new == old
        }
    }

    /// After a full drain: a pending suspension enqueues `Resume` behind whatever is
    /// queued and asks the loop to suspend and recreate the terminal driver; else
    /// quitting ends the loop.
    pub fn after_drain(&mut self) -> (r: LoopStep)
        ensures
            Self::after_drain_post(*old(self), *final(self), r),
    {
        if self.should_suspend {
            self.queue.push_back(Action::Resume);
            LoopStep::Suspend
        } else if self.should_quit {
            LoopStep::Quit
        } else {
            LoopStep::Continue
        }
    }
}

/// The global key map.
pub fn global_key(key: &Key, has_filter: bool) -> (r: Option<Action>)
    ensures
        r == global_action(*key, has_filter),
{
    match key.code {
        KeyCode::Char('a') => Some(Action::All),
        KeyCode::Char('q') => Some(Action::Quit),
        KeyCode::Char(':') => Some(Action::Change),
        KeyCode::Char('/') => if has_filter { Some(Action::Filter) } else { None },
        KeyCode::Char('j') | KeyCode::Down => Some(Action::Down),
        KeyCode::Char('k') | KeyCode::Up => Some(Action::Up),
        KeyCode::Char('?') => Some(Action::Help),
        KeyCode::F(n) => Some(Action::SortColumn(n)),
        KeyCode::PageUp => Some(Action::PageUp),
        KeyCode::PageDown => Some(Action::PageDown),
        KeyCode::Esc => Some(Action::PreviousScreen),
        KeyCode::Enter => Some(Action::Confirm),
        KeyCode::Char('d') => if key.ctrl { Some(Action::Delete) } else { None },
        _ => None,
    }
}

/// The overlay is a single slot, so at most one is shown; handling any action keeps
/// an error notice's countdown within its length; and `PreviousScreen` while an
/// overlay is shown only closes it: the active screen stays as it was and never
/// sees the action.
pub proof fn lemma_overlay_dismissal(old: App, action: Action, new: App, d: Dispatch)
    requires
        popup_ok(old.show_popup),
        App::dispatch_post(old, action, new, d),
    ensures
        popup_ok(new.show_popup),
        action is PreviousScreen && !(old.show_popup is Closed) ==> new.main == old.main && new.show_popup is Closed
            && d.forward is None,
{
}

/// Replacing the screen with `x` while no prompt line is open: the outgoing screen
/// is torn down (its live worker is the first thing signalled to stop), the effects
/// that install `x` follow, the action goes on to `x`, and handing it over makes the
/// installed `x` the active screen. A screen other than an interactive session
/// ignores the action itself, so it stays exactly as installed.
pub proof fn lemma_screen_replacement(
    a0: App,
    x: Component,
    a1: App,
    d: Dispatch,
    reply: Option<Reply>,
    a2: App,
    effects: Seq<Effect>,
)
    requires
        a0.input_mode == InputMode::Normal,
        App::dispatch_post(a0, Action::Screen(x), a1, d),
        App::update_screen_post(a1, Action::Screen(x), reply, a2, effects),
    ensures
        d.effects@ == a0.main.teardown_effects() + x.setup_effects(),
        a0.main.task_of() matches Some(t) ==> (!t.cancelled ==> d.effects@[0] == Effect::Cancel(t.job)),
        a1.main.task_of() == stopped(a0.main.task_of()),
        d.forward == Some(Action::Screen(x)),
        a2.main.same_kind(x),
        !(x is ContainerExec) ==> a2.main == x.installed() && effects.len() == 0,
{
    let out = choose|out: crate::components::Outcome|
        Component::update_post(a1.target(Action::Screen(x)), Action::Screen(x), reply, a2.main, out)
        && a2.queue@ == a1.queue@ + out.actions@
        && effects == out.effects@;
    assert(Component::update_post(x.installed(), Action::Screen(x), reply, a2.main, out));
}

/// Suspending: once `Suspend` is handled the flag is set; after the drain the loop
/// is told to suspend and recreate the terminal, `Resume` is queued behind every
/// action already queued (none is lost); handling `Resume` clears the flag and
/// resumes the terminal.
pub proof fn lemma_suspend_resume(a0: App, a1: App, d1: Dispatch, a2: App, step: LoopStep, b: App, c: App, d3: Dispatch)
    requires
        App::dispatch_post(a0, Action::Suspend, a1, d1),
        App::after_drain_post(a1, a2, step),
        App::dispatch_post(b, Action::Resume, c, d3),
    ensures
        a1.should_suspend,
        step == LoopStep::Suspend,
        a2.queue@ == a1.queue@.push(Action::Resume),
        !c.should_suspend,
        d3.effects@ == seq![Effect::ResumeTerminal],
{
}

/// One step of the controller: its own handling of an action, or handing a forwarded
/// action to a screen.
pub open spec fn controller_step(a: App, action: Action, b: App) -> bool {
    ||| exists|d: Dispatch| App::dispatch_post(a, action, b, d)
    ||| exists|reply: Option<Reply>, effects: Seq<Effect>| App::update_screen_post(a, action, reply, b, effects)
}

proof fn lemma_step_keeps_overlay(a: App, action: Action, b: App)
    requires
        popup_ok(a.show_popup),
        controller_step(a, action, b),
    ensures
        popup_ok(b.show_popup),
{
    if exists|d: Dispatch| App::dispatch_post(a, action, b, d) {
        let d = choose|d: Dispatch| App::dispatch_post(a, action, b, d);
        lemma_overlay_dismissal(a, action, b, d);
    }
}

/// Over any run of actions from a state whose overlay is well formed, after every
/// step the single overlay slot holds nothing, the help, or one error notice of the
/// default length whose countdown is within it.
pub proof fn lemma_overlay_run(states: Seq<App>, actions: Seq<Action>)
    requires
        states.len() == actions.len() + 1,
        popup_ok(states[0].show_popup),
        forall|i: int| 0 <= i < actions.len() ==> #[trigger] controller_step(states[i], actions[i], states[i + 1]),
    ensures
        forall|i: int| 0 <= i < states.len() ==> #[trigger] popup_ok(states[i].show_popup),
    decreases actions.len(),
{
    if actions.len() > 0 {
        let n = actions.len() - 1;
        let s0 = states.drop_last();
        let a0 = actions.drop_last();
        assert forall|i: int| 0 <= i < a0.len() implies #[trigger] controller_step(s0[i], a0[i], s0[i + 1]) by {
            assert(controller_step(states[i], actions[i], states[i + 1]));
        }
        lemma_overlay_run(s0, a0);
        assert(popup_ok(s0[n].show_popup));
        assert(controller_step(states[n], actions[n], states[n + 1]));
        lemma_step_keeps_overlay(states[n], actions[n], states[n + 1]);
        assert forall|i: int| 0 <= i < states.len() implies #[trigger] popup_ok(states[i].show_popup) by {
            if i < states.len() - 1 {
                assert(states[i] == s0[i]);
            }
        }
    }
}

/// Taking actions one at a time yields the queued actions in the order they were
/// queued, each once, and leaves the rest queued; with nothing queued nothing comes.
pub proof fn lemma_queue_order(states: Seq<App>, taken: Seq<Option<Action>>)
    requires
        states.len() == taken.len() + 1,
        forall|i: int| 0 <= i < taken.len() ==> #[trigger] App::next_action_post(states[i], states[i + 1], taken[i]),
    ensures
        forall|i: int| 0 <= i < taken.len() && i < states[0].queue@.len() ==> #[trigger] taken[i] == Some(states[0].queue@[i]),
        forall|i: int| 0 <= i < taken.len() && i >= states[0].queue@.len() ==> #[trigger] taken[i] is None,
        taken.len() <= states[0].queue@.len() ==> states[taken.len() as int].queue@
            == states[0].queue@.subrange(taken.len() as int, states[0].queue@.len() as int),
        taken.len() > states[0].queue@.len() ==> states[taken.len() as int].queue@.len() == 0,
    decreases taken.len(),
{
    let q = states[0].queue@;
    if taken.len() > 0 {
        let n = taken.len() - 1;
        let s0 = states.drop_last();
        let t0 = taken.drop_last();
        assert forall|i: int| 0 <= i < t0.len() implies #[trigger] App::next_action_post(s0[i], s0[i + 1], t0[i]) by {
            assert(App::next_action_post(states[i], states[i + 1], taken[i]));
        }
        lemma_queue_order(s0, t0);
        assert(App::next_action_post(states[n], states[n + 1], taken[n]));
        if n < q.len() {
            assert(states[n].queue@ == q.subrange(n, q.len() as int));
            assert(states[n + 1].queue@ =~= q.subrange(n + 1, q.len() as int));
        } else if n == q.len() {
            assert(states[n].queue@ =~= q.subrange(n, q.len() as int));
            assert(states[n].queue@.len() == 0);
        } else {
            assert(states[n].queue@.len() == 0);
        }
        assert forall|i: int| 0 <= i < taken.len() && i < q.len() implies #[trigger] taken[i] == Some(q[i]) by {
            if i < n {
                assert(taken[i] == t0[i]);
            }
        }
        assert forall|i: int| 0 <= i < taken.len() && i >= q.len() implies #[trigger] taken[i] is None by {
            if i < n {
                assert(taken[i] == t0[i]);
            }
        }
    } else {
        assert(q.subrange(0, q.len() as int) =~= q);
    }
}

/// Suspending loses nothing: the drain step that asks for a suspension keeps every
/// queued action, in order, and puts `Resume` behind them, so each is handled, once
/// and in order, before the terminal is resumed.
pub proof fn lemma_suspension_keeps_queue(a0: App, a1: App, step: LoopStep)
    requires
        a0.should_suspend,
        App::after_drain_post(a0, a1, step),
    ensures
        step == LoopStep::Suspend,
        a1.queue@.len() == a0.queue@.len() + 1,
        forall|i: int| 0 <= i < a0.queue@.len() ==> #[trigger] a1.queue@[i] == a0.queue@[i],
        a1.queue@[a0.queue@.len() as int] == Action::Resume,
{
}

} // verus!
