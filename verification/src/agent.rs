//! The decisions of the agent that keeps a clipboard normalised. The agent
//! does no outside work itself. It names the next action, the caller performs
//! it and hands back what happened, and the agent names the action after.
//!
//! One tick reads the clipboard, writes it back where normalising changed it,
//! takes in every pending change of the two configuration files, and pauses.

use crate::config::{load_exclusion_list, load_replacements, loaded_exclusions, loaded_rules};
use crate::normalize::{format_text, normalize, regex_accepts, WIDTH_PATTERN};
use crate::rules::{rules_of, Replacement};
use crate::store::{
    exclusions_reloaded, rules_reloaded, ConfigStore, LoadStatus, Reload, StoreView,
};
use vstd::prelude::*;

verus! {

/// Seconds of the pause that ends every tick.
pub const TICK_SECONDS: u64 = 1;

/// Seconds of the extra pause after a clipboard that could not be reopened.
pub const BACKOFF_SECONDS: u64 = 3;

/// Seconds between two looks of the file watcher at the configuration files.
pub const WATCH_INTERVAL_SECONDS: u64 = 2;

/// What the caller has to do next.
#[derive(Debug, Clone, PartialEq, Eq)]
pub enum Action {
    /// Read the text of the clipboard.
    ReadClipboard,
    /// Write this text to the clipboard.
    WriteClipboard(String),
    /// Drop the clipboard handle and open a new one.
    ReopenClipboard,
    /// Pause for [`BACKOFF_SECONDS`].
    Backoff,
    /// Take one pending message of the file watcher, without waiting.
    PollWatcher,
    /// Read the rules file.
    ReadRules,
    /// Read the exclusions file.
    ReadExclusions,
    /// Make a new file watcher and register both files with it.
    RebuildWatcher,
    /// Pause for [`TICK_SECONDS`].
    Sleep,
}

/// The mathematical content of an [`Action`].
pub enum ActionView {
    ReadClipboard,
    WriteClipboard(Seq<char>),
    ReopenClipboard,
    Backoff,
    PollWatcher,
    ReadRules,
    ReadExclusions,
    RebuildWatcher,
    Sleep,
}

impl View for Action {
    type V = ActionView;

    open spec fn view(&self) -> ActionView {
        match self {
            Action::ReadClipboard => ActionView::ReadClipboard,
            Action::WriteClipboard(text) => ActionView::WriteClipboard(text@),
            Action::ReopenClipboard => ActionView::ReopenClipboard,
            Action::Backoff => ActionView::Backoff,
            Action::PollWatcher => ActionView::PollWatcher,
            Action::ReadRules => ActionView::ReadRules,
            Action::ReadExclusions => ActionView::ReadExclusions,
            Action::RebuildWatcher => ActionView::RebuildWatcher,
            Action::Sleep => ActionView::Sleep,
        }
    }
}

/// What the file watcher had when it was polled.
#[derive(Debug, Clone, Copy, PartialEq, Eq, Structural)]
pub enum Poll {
    /// Nothing is pending.
    Empty,
    /// A change, and which of the two files it names.
    Changed { rules: bool, exclusions: bool },
    /// The watcher has lost its channel.
    Disconnected,
}

/// How making a new file watcher went.
#[derive(Debug, Clone, Copy, PartialEq, Eq, Structural)]
pub enum Rebuild {
    /// No watcher could be made.
    Failed,
    /// A watcher was made, and which of the two files it took.
    Created { rules_watched: bool, exclusions_watched: bool },
}

/// What happened when the caller performed an action.
#[derive(Debug)]
pub enum Event {
    /// The clipboard was read: its text, or `None` where the read failed.
    ClipboardRead(Option<String>),
    /// The clipboard was written, or not.
    ClipboardWritten(bool),
    /// A new clipboard handle was opened, or not.
    ClipboardReopened(bool),
    /// A pause has ended.
    Paused,
    /// The file watcher was polled.
    WatcherPolled(Poll),
    /// The rules file was read: `Ok` with its text, `Err` with the reason why
    /// it could not be read.
    RulesRead(Result<String, String>),
    /// The exclusions file was read.
    ExclusionsRead(Result<String, String>),
    /// A new file watcher was asked for.
    WatcherRebuilt(Rebuild),
}

/// The mathematical content of an [`Event`].
pub enum EventView {
    ClipboardRead(Option<Seq<char>>),
    ClipboardWritten(bool),
    ClipboardReopened(bool),
    Paused,
    WatcherPolled(Poll),
    RulesRead(Result<Seq<char>, Seq<char>>),
    ExclusionsRead(Result<Seq<char>, Seq<char>>),
    WatcherRebuilt(Rebuild),
}

/// The outcome of reading a file, as a model value.
pub open spec fn file_view(read: Result<String, String>) -> Result<Seq<char>, Seq<char>> {
    match read {
        Ok(text) => Ok(text@),
        Err(reason) => Err(reason@),
    }
}

impl View for Event {
    type V = EventView;

    open spec fn view(&self) -> EventView {
        match self {
            Event::ClipboardRead(Some(text)) => EventView::ClipboardRead(Some(text@)),
            Event::ClipboardRead(None) => EventView::ClipboardRead(None),
            Event::ClipboardWritten(done) => EventView::ClipboardWritten(*done),
            Event::ClipboardReopened(done) => EventView::ClipboardReopened(*done),
            Event::Paused => EventView::Paused,
            Event::WatcherPolled(poll) => EventView::WatcherPolled(*poll),
            Event::RulesRead(read) => EventView::RulesRead(file_view(*read)),
            Event::ExclusionsRead(read) => EventView::ExclusionsRead(file_view(*read)),
            Event::WatcherRebuilt(rebuild) => EventView::WatcherRebuilt(*rebuild),
        }
    }
}

/// Something that the caller should report.
#[derive(Debug, Clone, Copy, PartialEq, Eq, Structural)]
pub enum Notice {
    /// Normalising changed the text that was read.
    Reformatted,
    /// The text that was read could not be normalised.
    FormatFailed,
    /// The normalised text could not be written.
    WriteFailed,
    /// The clipboard could not be read, a new handle is asked for.
    ReadFailed,
    /// A new clipboard handle was opened.
    ClipboardReopened,
    /// No new clipboard handle could be opened.
    ReopenFailed,
    /// The rules file changed and its rules are now in effect.
    RulesReloaded,
    /// The rules file gave no rules, for the first time since it last did.
    RulesLoadFailed,
    /// The exclusions file changed and its exclusions are now in effect.
    ExclusionsReloaded,
    /// The exclusions file gave no exclusions, for the first time since it
    /// last did.
    ExclusionsLoadFailed,
    /// The file watcher has lost its channel, a new one is asked for.
    WatcherDisconnected,
    /// A new file watcher was made.
    WatcherRebuilt,
    /// No new file watcher could be made.
    WatcherRebuildFailed,
    /// The new file watcher did not take the rules file.
    WatchRulesFailed,
    /// The new file watcher did not take the exclusions file.
    WatchExclusionsFailed,
}

/// Which action is pending, without the text that a write carries.
#[derive(Debug, Clone, Copy, PartialEq, Eq, Structural)]
enum Phase {
    ReadClipboard,
    WriteClipboard,
    ReopenClipboard,
    Backoff,
    PollWatcher,
    ReadRules,
    ReadExclusions,
    RebuildWatcher,
    Sleep,
}

/// The state of the agent: the configuration in effect and the action that
/// the caller has to perform next.
pub struct Agent {
    store: ConfigStore,
    phase: Phase,
    outbox: String,
    exclusions_due: bool,
}

/// The mathematical content of an [`Agent`].
pub struct AgentView {
    /// The configuration in effect.
    pub store: StoreView,
    /// The action that the caller has to perform next.
    pub pending: ActionView,
    /// Whether the change that is being taken in names the exclusions file
    /// too, so that it is read once the rules file was loaded.
    pub exclusions_due: bool,
}

/// The agent with another pending action.
pub open spec fn moved(agent: AgentView, pending: ActionView) -> AgentView {
    AgentView { pending, ..agent }
}

/// What a load of the rules file is reported as.
pub open spec fn rules_notice(done: Reload) -> Seq<Notice> {
    match done {
        Reload::Applied => seq![Notice::RulesReloaded],
        Reload::FailedFirst => seq![Notice::RulesLoadFailed],
        Reload::Unchanged => Seq::empty(),
        Reload::FailedAgain => Seq::empty(),
    }
}

/// What a load of the exclusions file is reported as.
pub open spec fn exclusions_notice(done: Reload) -> Seq<Notice> {
    match done {
        Reload::Applied => seq![Notice::ExclusionsReloaded],
        Reload::FailedFirst => seq![Notice::ExclusionsLoadFailed],
        Reload::Unchanged => Seq::empty(),
        Reload::FailedAgain => Seq::empty(),
    }
}

/// After a read of the clipboard. A failed read asks for a new handle. A text
/// that normalising changes is written back. A text that it leaves alone, or
/// cannot be normalised, is left in the clipboard.
pub open spec fn after_clipboard_read(agent: AgentView, read: Option<Seq<char>>) -> (
    AgentView,
    Seq<Notice>,
) {
    match read {
        None => (moved(agent, ActionView::ReopenClipboard), seq![Notice::ReadFailed]),
        Some(text) => if !regex_accepts(WIDTH_PATTERN@) {
            (moved(agent, ActionView::PollWatcher), seq![Notice::FormatFailed])
        } else {
            let formatted = normalize(text, agent.store.rules, agent.store.exclusions.to_set());
            if formatted == text {
                (moved(agent, ActionView::PollWatcher), Seq::empty())
            } else {
                (moved(agent, ActionView::WriteClipboard(formatted)), seq![Notice::Reformatted])
            }
        },
    }
}

/// After a poll of the file watcher. Nothing pending ends the tick. A change
/// asks for the files it names, the rules file first. A lost channel asks for
/// a new watcher.
pub open spec fn after_poll(agent: AgentView, poll: Poll) -> (AgentView, Seq<Notice>) {
    match poll {
        Poll::Empty => (moved(agent, ActionView::Sleep), Seq::empty()),
        Poll::Changed { rules, exclusions } => if rules {
            (
                AgentView { pending: ActionView::ReadRules, exclusions_due: exclusions, ..agent },
                Seq::empty(),
            )
        } else if exclusions {
            (moved(agent, ActionView::ReadExclusions), Seq::empty())
        } else {
            (agent, Seq::empty())
        },
        Poll::Disconnected => (
            moved(agent, ActionView::RebuildWatcher),
            seq![Notice::WatcherDisconnected],
        ),
    }
}

/// After a read of the rules file. The store takes in what the file gives.
/// Rules that loaded are followed by the exclusions file where the change
/// names it too. Rules that did not load end the change.
pub open spec fn after_rules_read(agent: AgentView, read: Result<Seq<char>, Seq<char>>) -> (
    AgentView,
    Seq<Notice>,
) {
    let loaded = loaded_rules(read);
    let (store, done) = rules_reloaded(agent.store, loaded);
    let pending = if loaded is Ok && agent.exclusions_due {
        ActionView::ReadExclusions
    } else {
        ActionView::PollWatcher
    };
    (AgentView { store, pending, exclusions_due: false }, rules_notice(done))
}

/// After a read of the exclusions file. The store takes in what the file
/// gives, and the watcher is polled again.
pub open spec fn after_exclusions_read(agent: AgentView, read: Result<Seq<char>, Seq<char>>) -> (
    AgentView,
    Seq<Notice>,
) {
    let (store, done) = exclusions_reloaded(agent.store, loaded_exclusions(read));
    (
        AgentView { store, pending: ActionView::PollWatcher, exclusions_due: false },
        exclusions_notice(done),
    )
}

/// What is reported after a new file watcher was asked for.
pub open spec fn rebuild_notices(rebuild: Rebuild) -> Seq<Notice> {
    match rebuild {
        Rebuild::Failed => seq![Notice::WatcherRebuildFailed],
        Rebuild::Created { rules_watched, exclusions_watched } => (if rules_watched {
            Seq::<Notice>::empty()
        } else {
            seq![Notice::WatchRulesFailed]
        }) + (if exclusions_watched {
            Seq::<Notice>::empty()
        } else {
            seq![Notice::WatchExclusionsFailed]
        }) + seq![Notice::WatcherRebuilt],
    }
}

/// The agent after `event`, and what is to be reported. An event that does
/// not answer the pending action changes nothing.
pub open spec fn step_spec(agent: AgentView, event: EventView) -> (AgentView, Seq<Notice>) {
    match (agent.pending, event) {
        (ActionView::ReadClipboard, EventView::ClipboardRead(read)) => after_clipboard_read(
            agent,
            read,
        ),
        (ActionView::WriteClipboard(_), EventView::ClipboardWritten(done)) => (
            moved(agent, ActionView::PollWatcher),
            if done {
                Seq::empty()
            } else {
                seq![Notice::WriteFailed]
            },
        ),
        (ActionView::ReopenClipboard, EventView::ClipboardReopened(done)) => if done {
            (moved(agent, ActionView::PollWatcher), seq![Notice::ClipboardReopened])
        } else {
            (moved(agent, ActionView::Backoff), seq![Notice::ReopenFailed])
        },
        (ActionView::Backoff, EventView::Paused) => (
            moved(agent, ActionView::PollWatcher),
            Seq::empty(),
        ),
        (ActionView::PollWatcher, EventView::WatcherPolled(poll)) => after_poll(agent, poll),
        (ActionView::ReadRules, EventView::RulesRead(read)) => after_rules_read(agent, read),
        (ActionView::ReadExclusions, EventView::ExclusionsRead(read)) => after_exclusions_read(
            agent,
            read,
        ),
        (ActionView::RebuildWatcher, EventView::WatcherRebuilt(rebuild)) => (
            moved(agent, ActionView::Sleep),
            rebuild_notices(rebuild),
        ),
        (ActionView::Sleep, EventView::Paused) => (
            moved(agent, ActionView::ReadClipboard),
            Seq::empty(),
        ),
        _ => (agent, Seq::empty()),
    }
}

impl View for Agent {
    type V = AgentView;

    closed spec fn view(&self) -> AgentView {
        AgentView {
            store: self.store@,
            pending: match self.phase {
                Phase::ReadClipboard => ActionView::ReadClipboard,
                Phase::WriteClipboard => ActionView::WriteClipboard(self.outbox@),
                Phase::ReopenClipboard => ActionView::ReopenClipboard,
                Phase::Backoff => ActionView::Backoff,
                Phase::PollWatcher => ActionView::PollWatcher,
                Phase::ReadRules => ActionView::ReadRules,
                Phase::ReadExclusions => ActionView::ReadExclusions,
                Phase::RebuildWatcher => ActionView::RebuildWatcher,
                Phase::Sleep => ActionView::Sleep,
            },
            exclusions_due: self.exclusions_due,
        }
    }
}

impl Action {
    /// The seconds that the action pauses for, if it is a pause.
    pub fn pause_seconds(&self) -> (seconds: Option<u64>)
        ensures
            seconds == match self@ {
                ActionView::Sleep => Some(TICK_SECONDS),
                ActionView::Backoff => Some(BACKOFF_SECONDS),
                _ => None,
            },
    {
        match self {
            Action::Sleep => Some(TICK_SECONDS),
            Action::Backoff => Some(BACKOFF_SECONDS),
            _ => None,
        }
    }
}

impl Agent {
    /// An agent at the start of its first tick, with the configuration that
    /// was loaded at the start in effect.
    pub fn new(rules: Vec<Replacement>, exclusions: Vec<char>) -> (agent: Agent)
        ensures
            agent@ == (AgentView {
                store: StoreView {
                    rules: rules_of(rules@),
                    exclusions: exclusions@,
                    rules_status: LoadStatus::Healthy,
                    exclusions_status: LoadStatus::Healthy,
                },
                pending: ActionView::ReadClipboard,
                exclusions_due: false,
            }),
    {
        Agent {
            store: ConfigStore::new(rules, exclusions),
            phase: Phase::ReadClipboard,
            outbox: String::new(),
            exclusions_due: false,
        }
    }

    /// The configuration in effect.
    pub fn store(&self) -> (store: &ConfigStore)
        ensures
            store@ == self@.store,
    {
        &self.store
    }

    /// The action that the caller has to perform next.
    pub fn pending(&self) -> (action: Action)
        ensures
            action@ == self@.pending,
    {
        match self.phase {
            Phase::ReadClipboard => Action::ReadClipboard,
            Phase::WriteClipboard => Action::WriteClipboard(self.outbox.clone()),
            Phase::ReopenClipboard => Action::ReopenClipboard,
            Phase::Backoff => Action::Backoff,
            Phase::PollWatcher => Action::PollWatcher,
            Phase::ReadRules => Action::ReadRules,
            Phase::ReadExclusions => Action::ReadExclusions,
            Phase::RebuildWatcher => Action::RebuildWatcher,
            Phase::Sleep => Action::Sleep,
        }
    }

    /// Takes in a read of the clipboard.
    fn take_clipboard_read(&mut self, read: Option<String>) -> (notices: Vec<Notice>)
        requires
            old(self)@.pending is ReadClipboard,
        ensures
            (final(self)@, notices@) == after_clipboard_read(
                old(self)@,
                match read {
                    Some(text) => Some(text@),
                    None => None,
                },
            ),
    {
        let mut notices: Vec<Notice> = Vec::new();
        match read {
            None => {
                self.phase = Phase::ReopenClipboard;
                notices.push(Notice::ReadFailed);
            },
            Some(text) => {
                let formatted = format_text(
                    text.as_str(),
                    self.store.rules().as_slice(),
                    self.store.exclusions().as_slice(),
                );
                match formatted {
                    Err(_) => {
                        self.phase = Phase::PollWatcher;
                        notices.push(Notice::FormatFailed);
                    },
                    Ok(formatted) => {
                        if formatted == text {
                            self.phase = Phase::PollWatcher;
                        } else {
                            self.outbox = formatted;
                            self.phase = Phase::WriteClipboard;
                            notices.push(Notice::Reformatted);
                        }
                    },
                }
            },
        }
        assert(notices@ =~= after_clipboard_read(
            old(self)@,
            match read {
                Some(text) => Some(text@),
                None => None,
            },
        ).1);
        notices
    }

    /// Takes in a poll of the file watcher.
    fn take_poll(&mut self, poll: Poll) -> (notices: Vec<Notice>)
        requires
            old(self)@.pending is PollWatcher,
        ensures
            (final(self)@, notices@) == after_poll(old(self)@, poll),
    {
        let mut notices: Vec<Notice> = Vec::new();
        match poll {
            Poll::Empty => {
                self.phase = Phase::Sleep;
            },
            Poll::Changed { rules, exclusions } => {
                if rules {
                    self.phase = Phase::ReadRules;
                    self.exclusions_due = exclusions;
                } else if exclusions {
                    self.phase = Phase::ReadExclusions;
                }
            },
            Poll::Disconnected => {
                self.phase = Phase::RebuildWatcher;
                notices.push(Notice::WatcherDisconnected);
            },
        }
        assert(notices@ =~= after_poll(old(self)@, poll).1);
        notices
    }

    /// Takes in a read of the rules file.
    fn take_rules_read(&mut self, read: Result<String, String>) -> (notices: Vec<Notice>)
        requires
            old(self)@.pending is ReadRules,
        ensures
            (final(self)@, notices@) == after_rules_read(old(self)@, file_view(read)),
    {
        let mut notices: Vec<Notice> = Vec::new();
        let loaded = match &read {
            Ok(text) => load_replacements(Ok(text.as_str())),
            Err(reason) => load_replacements(Err(reason.as_str())),
        };
        let follow = loaded.is_ok() && self.exclusions_due;
        let done = self.store.reload_rules(loaded);
        match done {
            Reload::Applied => {
                notices.push(Notice::RulesReloaded);
            },
            Reload::FailedFirst => {
                notices.push(Notice::RulesLoadFailed);
            },
            _ => {},
        }
        self.phase = if follow {
            Phase::ReadExclusions
        } else {
            Phase::PollWatcher
        };
        self.exclusions_due = false;
        assert(notices@ =~= after_rules_read(old(self)@, file_view(read)).1);
        notices
    }

    /// Takes in a read of the exclusions file.
    fn take_exclusions_read(&mut self, read: Result<String, String>) -> (notices: Vec<Notice>)
        requires
            old(self)@.pending is ReadExclusions,
        ensures
            (final(self)@, notices@) == after_exclusions_read(old(self)@, file_view(read)),
    {
        let mut notices: Vec<Notice> = Vec::new();
        let loaded = match &read {
            Ok(text) => load_exclusion_list(Ok(text.as_str())),
            Err(reason) => load_exclusion_list(Err(reason.as_str())),
        };
        let done = self.store.reload_exclusions(loaded);
        match done {
            Reload::Applied => {
                notices.push(Notice::ExclusionsReloaded);
            },
            Reload::FailedFirst => {
                notices.push(Notice::ExclusionsLoadFailed);
            },
            _ => {},
        }
        self.phase = Phase::PollWatcher;
        self.exclusions_due = false;
        assert(notices@ =~= after_exclusions_read(old(self)@, file_view(read)).1);
        notices
    }

    /// What is to be reported after a new file watcher was asked for.
    fn notices_of_rebuild(rebuild: Rebuild) -> (notices: Vec<Notice>)
        ensures
            notices@ == rebuild_notices(rebuild),
    {
        let mut notices: Vec<Notice> = Vec::new();
        match rebuild {
            Rebuild::Failed => {
                notices.push(Notice::WatcherRebuildFailed);
            },
            Rebuild::Created { rules_watched, exclusions_watched } => {
                if !rules_watched {
                    notices.push(Notice::WatchRulesFailed);
                }
                if !exclusions_watched {
                    notices.push(Notice::WatchExclusionsFailed);
                }
                notices.push(Notice::WatcherRebuilt);
            },
        }
        assert(notices@ =~= rebuild_notices(rebuild));
        notices
    }

    /// Takes in what happened when the caller performed the pending action,
    /// and hands out what is to be reported. The action to perform next is
    /// then [`Agent::pending`]. An event that does not answer the pending
    /// action changes nothing and reports nothing.
    pub fn step(&mut self, event: Event) -> (notices: Vec<Notice>)
        ensures
            (final(self)@, notices@) == step_spec(old(self)@, event@),
    {
        match event {
            Event::ClipboardRead(read) => {
                if self.phase == Phase::ReadClipboard {
                    return self.take_clipboard_read(read);
                }
            },
            Event::ClipboardWritten(done) => {
                if self.phase == Phase::WriteClipboard {
                    self.phase = Phase::PollWatcher;
                    let mut notices: Vec<Notice> = Vec::new();
                    if !done {
                        notices.push(Notice::WriteFailed);
                    }
                    assert(notices@ =~= step_spec(old(self)@, event@).1);
                    return notices;
                }
            },
            Event::ClipboardReopened(done) => {
                if self.phase == Phase::ReopenClipboard {
                    let mut notices: Vec<Notice> = Vec::new();
                    if done {
                        self.phase = Phase::PollWatcher;
                        notices.push(Notice::ClipboardReopened);
                    } else {
                        self.phase = Phase::Backoff;
                        notices.push(Notice::ReopenFailed);
                    }
                    assert(notices@ =~= step_spec(old(self)@, event@).1);
                    return notices;
                }
            },
            Event::Paused => {
                if self.phase == Phase::Backoff {
                    self.phase = Phase::PollWatcher;
                } else if self.phase == Phase::Sleep {
                    self.phase = Phase::ReadClipboard;
                }
            },
            Event::WatcherPolled(poll) => {
                if self.phase == Phase::PollWatcher {
                    return self.take_poll(poll);
                }
            },
            Event::RulesRead(read) => {
                if self.phase == Phase::ReadRules {
                    return self.take_rules_read(read);
                }
            },
            Event::ExclusionsRead(read) => {
                if self.phase == Phase::ReadExclusions {
                    return self.take_exclusions_read(read);
                }
            },
            Event::WatcherRebuilt(rebuild) => {
                if self.phase == Phase::RebuildWatcher {
                    self.phase = Phase::Sleep;
                    return Agent::notices_of_rebuild(rebuild);
                }
            },
        }
        let notices: Vec<Notice> = Vec::new();
        assert(notices@ =~= step_spec(old(self)@, event@).1);
        notices
    }
}

} // verus!
