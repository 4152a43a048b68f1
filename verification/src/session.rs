//! The interactive session: an edit buffer, a selectable history and the
//! last error, moved on by one event at a time.
//!
//! The session decides; whoever runs it reads the keys, starts the planned
//! invocation, hands back how that went and writes the store.

use vstd::prelude::*;
use vstd::string::StringExecFns;
use crate::descriptor::classify;
use crate::history::{entries, persist, persisted, record_use, used};
use crate::launch::{
    launched_of, launcher_error, launcher_report, plan_from, try_parse_and_launch, Invocation,
    InvocationView, LaunchError, LaunchErrorView,
};

verus! {

/// The state of a session.
#[derive(Debug)]
pub struct App {
    /// Whether the designer mode is on.
    pub designer: bool,
    /// The text of the edit buffer.
    pub input: String,
    /// The last error, if there was one.
    pub error: Option<String>,
    /// The history, in stored order.
    pub history: Vec<String>,
    /// The highlighted history entry, if one is.
    pub selected: Option<usize>,
}

/// What happened.
#[derive(Debug)]
pub enum Event {
    /// The cancel key.
    Cancel,
    /// The key that toggles the designer mode.
    ToggleDesigner,
    /// The confirm key.
    Confirm,
    /// One entry up in the history.
    Up,
    /// One entry down in the history.
    Down,
    /// A key that edits the buffer; holds the buffer's text after it.
    Edit(String),
    /// The planned invocation was tried; holds how it went.
    Launched(Result<(), LaunchError>),
}

/// What the session asks for next.
#[derive(Debug)]
pub enum Action {
    /// Show the state and wait for the next event.
    Continue,
    /// Start this invocation and report with `Event::Launched`.
    Launch(Invocation),
    /// Leave; nothing was started.
    Cancelled,
    /// Leave after a launch; holds the text to write to the store.
    Finished(String),
}

/// A session's state as plain values.
pub struct AppView {
    pub designer: bool,
    pub input: Seq<char>,
    pub error: Option<Seq<char>>,
    pub history: Seq<Seq<char>>,
    pub selected: Option<int>,
}

/// An event as plain values.
pub enum EventView {
    Cancel,
    ToggleDesigner,
    Confirm,
    Up,
    Down,
    Edit(Seq<char>),
    Launched(Result<(), LaunchErrorView>),
}

/// An action as plain values.
pub enum ActionView {
    Continue,
    Launch(InvocationView),
    Cancelled,
    Finished(Seq<char>),
}

impl View for App {
    type V = AppView;

    open spec fn view(&self) -> AppView {
        AppView {
            designer: self.designer,
            input: self.input@,
            error: match self.error {
                Some(text) => Some(text@),
                None => None,
            },
            history: entries(self.history@),
            selected: match self.selected {
                Some(i) => Some(i as int),
                None => None,
            },
        }
    }
}

impl View for Event {
    type V = EventView;

    open spec fn view(&self) -> EventView {
        match self {
            Event::Cancel => EventView::Cancel,
            Event::ToggleDesigner => EventView::ToggleDesigner,
            Event::Confirm => EventView::Confirm,
            Event::Up => EventView::Up,
            Event::Down => EventView::Down,
            Event::Edit(text) => EventView::Edit(text@),
            Event::Launched(outcome) => EventView::Launched(launched_of(*outcome)),
        }
    }
}

impl View for Action {
    type V = ActionView;

    open spec fn view(&self) -> ActionView {
        match self {
            Action::Continue => ActionView::Continue,
            Action::Launch(invocation) => ActionView::Launch(invocation@),
            Action::Cancelled => ActionView::Cancelled,
            Action::Finished(store) => ActionView::Finished(store@),
        }
    }
}

impl AppView {
    /// The highlight is on an entry of the history.
    pub open spec fn well_formed(self) -> bool {
        match self.selected {
            Some(i) => 0 <= i < self.history.len(),
            None => true,
        }
    }

    /// The highlight after one step up: the first entry where there was no
    /// highlight, else one entry up, staying on the first; none in an empty
    /// history.
    pub open spec fn highlight_up(self) -> Option<int> {
        if self.history.len() == 0 {
            None
        } else {
            match self.selected {
                None => Some(0),
                Some(i) => Some(if i > 0 { i - 1 } else { 0 }),
            }
        }
    }

    /// The highlight after one step down: the first entry where there was
    /// no highlight, else one entry down, staying on the last; none in an
    /// empty history.
    pub open spec fn highlight_down(self) -> Option<int> {
        if self.history.len() == 0 {
            None
        } else {
            match self.selected {
                None => Some(0),
                Some(i) => Some(if i + 1 < self.history.len() { i + 1 } else { i }),
            }
        }
    }

    /// The state after the confirm key.
    pub open spec fn confirmed(self) -> AppView {
        match self.selected {
            Some(i) => AppView { input: self.history[i], selected: None, ..self },
            None => if self.input.len() == 0 {
                self
            } else {
                match plan_from(classify(self.input), self.designer) {
                    Ok(_) => self,
                    Err(report) => AppView { error: Some(report), ..self },
                }
            },
        }
    }

    /// What the confirm key asks for.
    pub open spec fn confirm_action(self) -> ActionView {
        if self.selected is None && self.input.len() > 0 {
            match plan_from(classify(self.input), self.designer) {
                Ok(invocation) => ActionView::Launch(invocation),
                Err(_) => ActionView::Continue,
            }
        } else {
            ActionView::Continue
        }
    }

    /// The state after an event.
    pub open spec fn after(self, event: EventView) -> AppView {
        match event {
            EventView::Cancel => self,
            EventView::ToggleDesigner => AppView { designer: !self.designer, ..self },
            EventView::Confirm => self.confirmed(),
            EventView::Up => AppView { selected: self.highlight_up(), ..self },
            EventView::Down => AppView { selected: self.highlight_down(), ..self },
            EventView::Edit(text) => AppView { input: text, selected: None, ..self },
            EventView::Launched(Ok(())) => AppView {
                history: used(self.history, self.input),
                ..self
            },
            EventView::Launched(Err(error)) => AppView {
                error: Some(launcher_report(error)),
                ..self
            },
        }
    }

    /// Where a script of events leads: the state it ends in, the last
    /// action, and how many events were taken. Events are taken one after
    /// the other until one asks for something else than to continue.
    pub open spec fn played(self, events: Seq<EventView>) -> (AppView, ActionView, nat)
        decreases events.len(),
    {
        if events.len() == 0 {
            (self, ActionView::Continue, 0)
        } else {
            let action = self.action_on(events[0]);
            let next = self.after(events[0]);
            if action is Continue {
                let rest = next.played(events.drop_first());
                (rest.0, rest.1, rest.2 + 1)
            } else {
                (next, action, 1)
            }
        }
    }

    /// What the session asks for after an event.
    pub open spec fn action_on(self, event: EventView) -> ActionView {
        match event {
            EventView::Cancel => ActionView::Cancelled,
            EventView::Confirm => self.confirm_action(),
            EventView::Launched(Ok(())) => ActionView::Finished(
                persisted(used(self.history, self.input)),
            ),
            _ => ActionView::Continue,
        }
    }
}

/// The events of a script as plain values.
pub open spec fn events_of(events: Seq<Event>) -> Seq<EventView> {
    events.map_values(|event: Event| event@)
}

/// The line that shows the designer mode.
pub open spec fn designer_line(designer: bool) -> Seq<char> {
    if designer {
        "Ctrl+D: Designer (on)"@
    } else {
        "Ctrl+D: Designer (off)"@
    }
}

/// The lines of the status region: the last error where there is one, then
/// the designer mode.
pub open spec fn status_of(state: AppView) -> Seq<Seq<char>> {
    match state.error {
        Some(text) => seq![text, designer_line(state.designer)],
        None => seq![designer_line(state.designer)],
    }
}

impl App {
    /// The highlight is on an entry of the history.
    pub open spec fn well_formed(&self) -> bool {
        self@.well_formed()
    }

    /// A session that starts with `history`: empty buffer, no highlight, no
    /// error, designer mode off.
    pub fn new(history: Vec<String>) -> (app: App)
        ensures
            app.well_formed(),
            app@ == (AppView {
                designer: false,
                input: Seq::<char>::empty(),
                error: None,
                history: entries(history@),
                selected: None,
            }),
    {
        App { designer: false, input: String::new(), error: None, history, selected: None }
    }

    /// Moves the session on by one event and says what to do next.
    pub fn handle(&mut self, event: &Event) -> (action: Action)
        requires
            old(self).well_formed(),
        ensures
            final(self).well_formed(),
            final(self)@ == old(self)@.after(event@),
            action@ == old(self)@.action_on(event@),
    {
        match event {
            Event::Cancel => Action::Cancelled,
            Event::ToggleDesigner => {
                self.designer = !self.designer;
                Action::Continue
            },
            Event::Confirm => self.confirm(),
            Event::Up => {
                self.selected = if self.history.len() == 0 {
                    None
                } else {
                    match self.selected {
                        None => Some(0),
                        Some(i) => Some(if i > 0 { i - 1 } else { 0 }),
                    }
                };
                Action::Continue
            },
            Event::Down => {
                self.selected = if self.history.len() == 0 {
                    None
                } else {
                    match self.selected {
                        None => Some(0),
                        Some(i) => Some(if i + 1 < self.history.len() { i + 1 } else { i }),
                    }
                };
                Action::Continue
            },
            Event::Edit(text) => {
                self.input = text.clone();
                self.selected = None;
                Action::Continue
            },
            Event::Launched(Ok(())) => {
                proof {
                    crate::history::lemma_first_index(entries(self.history@), self.input@);
                }
                record_use(&mut self.history, self.input.clone());
                Action::Finished(persist(&self.history))
            },
            Event::Launched(Err(error)) => {
                self.error = Some(launcher_error(error));
                Action::Continue
            },
        }
    }

    /// Plays a script of events, one after the other, until an event asks
    /// for a launch or ends the session, or the script is at its end.
    /// Returns the last action and the number of events taken.
    pub fn run(&mut self, events: &Vec<Event>) -> (r: (Action, usize))
        requires
            old(self).well_formed(),
        ensures
            final(self).well_formed(),
            final(self)@ == old(self)@.played(events_of(events@)).0,
            r.0@ == old(self)@.played(events_of(events@)).1,
            r.1 == old(self)@.played(events_of(events@)).2,
    {
        let ghost script = events_of(events@);
        let n = events.len();
        let mut i: usize = 0;
        assert(script.skip(0) =~= script);
        while i < n
            invariant
                n == events.len(),
                i <= n,
                script == events_of(events@),
                self.well_formed(),
                old(self)@.played(script).0 == self@.played(script.skip(i as int)).0,
                old(self)@.played(script).1 == self@.played(script.skip(i as int)).1,
                old(self)@.played(script).2 == self@.played(script.skip(i as int)).2 + i,
            decreases n - i,
        {
            assert(script.skip(i as int).drop_first() =~= script.skip(i + 1));
            let action = self.handle(&events[i]);
            i += 1;
            match action {
                Action::Continue => {},
                _ => {
                    return (action, i);
                },
            }
        }
        (Action::Continue, i)
    }

    /// The confirm key: a highlighted entry goes into the buffer and is not
    /// launched; else a buffer that is not empty is classified and, where it
    /// is a descriptor, its invocation is asked for.
    pub fn confirm(&mut self) -> (action: Action)
        requires
            old(self).well_formed(),
        ensures
            final(self).well_formed(),
            final(self)@ == old(self)@.confirmed(),
            action@ == old(self)@.confirm_action(),
    {
        match self.selected {
            Some(i) => {
                self.input = self.history[i].clone();
                self.selected = None;
                Action::Continue
            },
            None => {
                if self.input.as_str().is_empty() {
                    Action::Continue
                } else {
                    match try_parse_and_launch(self.input.as_str(), self.designer) {
                        Ok(invocation) => Action::Launch(invocation),
                        Err(report) => {
                            self.error = Some(report);
                            Action::Continue
                        },
                    }
                }
            },
        }
    }

    /// The lines of the status region.
    pub fn status_lines(&self) -> (lines: Vec<String>)
        ensures
            entries(lines@) == status_of(self@),
    {
        let mut lines: Vec<String> = Vec::new();
        match &self.error {
            Some(text) => {
                lines.push(text.clone());
            },
            None => {},
        }
        if self.designer {
            lines.push(String::from_str("Ctrl+D: Designer (on)"));
        } else {
            lines.push(String::from_str("Ctrl+D: Designer (off)"));
        }
        lines
    }
}

impl Default for App {
    /// A session without history.
    fn default() -> (app: App)
        ensures
            app.well_formed(),
            app@ == (AppView {
                designer: false,
                input: Seq::<char>::empty(),
                error: None,
                history: Seq::<Seq<char>>::empty(),
                selected: None,
            }),
    {
        let app = App::new(Vec::new());
        assert(app@.history =~= Seq::<Seq<char>>::empty());
        app
    }
}

/// The width left for the text in an input field `area_width` wide: what
/// remains after three columns, and nothing in a narrower field.
pub fn input_width(area_width: u16) -> (width: u16)
    ensures
        width == if area_width >= 3 { area_width - 3 } else { 0 },
{
    if area_width >= 3 {
        area_width - 3
    } else {
        0
    }
}

/// The column of the cursor inside the field's border, for a text scrolled
/// by `scroll`: one past the distance from the scroll position, and the
/// first column for a cursor left of it. `None` where that is no `usize`.
pub fn cursor_column(cursor: usize, scroll: usize) -> (column: Option<usize>)
    ensures
        column == if cursor <= scroll {
            Some(1usize)
        } else if cursor - scroll < usize::MAX {
            Some((cursor - scroll + 1) as usize)
        } else {
            None
        },
{
    if cursor <= scroll {
        Some(1)
    } else {
        (cursor - scroll).checked_add(1)
    }
}

/// The highlight never leaves the history, and moving it changes nothing
/// else.
pub proof fn lemma_highlight_stays_inside(state: AppView)
    requires
        state.well_formed(),
    ensures
        state.after(EventView::Up).well_formed(),
        state.after(EventView::Down).well_formed(),
        state.after(EventView::Up) == (AppView { selected: state.highlight_up(), ..state }),
        state.after(EventView::Down) == (AppView { selected: state.highlight_down(), ..state }),
        state.history.len() > 0 ==> state.highlight_up() is Some && state.highlight_down() is Some,
{
}

/// Every event leaves a well-formed state well-formed.
pub proof fn lemma_after_is_well_formed(state: AppView, event: EventView)
    requires
        state.well_formed(),
    ensures
        state.after(event).well_formed(),
{
    crate::history::lemma_first_index(state.history, state.input);
}

/// Nothing is taken from a script after the cancel key: the session ends
/// there, in the state it was in.
pub proof fn lemma_cancel_ends(state: AppView, rest: Seq<EventView>)
    ensures
        state.played(seq![EventView::Cancel] + rest) == (state, ActionView::Cancelled, 1nat),
{
}

/// Toggling the designer mode twice gives the state back, and toggling
/// once changes the mode and nothing else.
pub proof fn lemma_toggle(state: AppView)
    ensures
        state.after(EventView::ToggleDesigner).after(EventView::ToggleDesigner) == state,
        state.after(EventView::ToggleDesigner) == (AppView { designer: !state.designer, ..state }),
        state.action_on(EventView::ToggleDesigner) == ActionView::Continue,
{
}

/// Confirming a highlighted entry recalls it and does not launch.
pub proof fn lemma_confirm_recalls(state: AppView, i: int)
    requires
        state.well_formed(),
        state.selected == Some(i),
    ensures
        state.after(EventView::Confirm).input == state.history[i],
        state.after(EventView::Confirm).selected is None,
        state.after(EventView::Confirm).history == state.history,
        state.action_on(EventView::Confirm) == ActionView::Continue,
{
}

} // verus!
