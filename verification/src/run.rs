//! Runs of the agent: what holds of every step and of every sequence of
//! steps, whatever the outside world answers.

use crate::agent::{step_spec, ActionView, AgentView, EventView, Notice, Poll, Rebuild};
use crate::config::{loaded_exclusions, loaded_rules};
use crate::normalize::{normalize, regex_accepts, WIDTH_PATTERN};
use crate::store::{exclusions_fingerprint, rules_fingerprint, LoadStatus};
use vstd::prelude::*;

verus! {

/// The agent after the events one after the other, and all that was reported
/// on the way.
pub open spec fn replay(agent: AgentView, events: Seq<EventView>) -> (AgentView, Seq<Notice>)
    decreases events.len(),
{
    if events.len() == 0 {
        (agent, Seq::empty())
    } else {
        let before = replay(agent, events.drop_last());
        let last = step_spec(before.0, events.last());
        (last.0, before.1 + last.1)
    }
}

/// How often `notice` occurs in `notices`.
pub open spec fn count_of(notices: Seq<Notice>, notice: Notice) -> nat
    decreases notices.len(),
{
    if notices.len() == 0 {
        0
    } else {
        count_of(notices.drop_last(), notice) + if notices.last() == notice {
            1nat
        } else {
            0nat
        }
    }
}

/// Whether `event` is a read of the rules file that gives rules.
pub open spec fn gives_rules(event: EventView) -> bool {
    event matches EventView::RulesRead(read) && loaded_rules(read) is Ok
}

/// Whether `event` is a read of the exclusions file that gives exclusions.
pub open spec fn gives_exclusions(event: EventView) -> bool {
    event matches EventView::ExclusionsRead(read) && loaded_exclusions(read) is Ok
}

/// Whether `event` answers the action that is pending in `agent`.
pub open spec fn answers(agent: AgentView, event: EventView) -> bool {
    match (agent.pending, event) {
        (ActionView::ReadClipboard, EventView::ClipboardRead(_)) => true,
        (ActionView::WriteClipboard(_), EventView::ClipboardWritten(_)) => true,
        (ActionView::ReopenClipboard, EventView::ClipboardReopened(_)) => true,
        (ActionView::Backoff, EventView::Paused) => true,
        (ActionView::PollWatcher, EventView::WatcherPolled(_)) => true,
        (ActionView::ReadRules, EventView::RulesRead(_)) => true,
        (ActionView::ReadExclusions, EventView::ExclusionsRead(_)) => true,
        (ActionView::RebuildWatcher, EventView::WatcherRebuilt(_)) => true,
        (ActionView::Sleep, EventView::Paused) => true,
        _ => false,
    }
}

/// Counting distributes over concatenation.
proof fn lemma_count_of_concat(a: Seq<Notice>, b: Seq<Notice>, notice: Notice)
    ensures
        count_of(a + b, notice) == count_of(a, notice) + count_of(b, notice),
    decreases b.len(),
{
    if b.len() == 0 {
        assert(a + b =~= a);
    } else {
        assert((a + b).drop_last() =~= a + b.drop_last());
        lemma_count_of_concat(a, b.drop_last(), notice);
    }
}

/// An event that does not answer the pending action changes nothing and
/// reports nothing.
pub proof fn lemma_unanswered_event_is_ignored(agent: AgentView, event: EventView)
    requires
        !answers(agent, event),
    ensures
        step_spec(agent, event) == (agent, Seq::<Notice>::empty()),
{
}

/// Every pending action has an answer, so that no state is terminal.
pub proof fn lemma_every_action_has_an_answer(agent: AgentView)
    ensures
        exists|event: EventView| answers(agent, event),
{
    match agent.pending {
        ActionView::ReadClipboard => {
            assert(answers(agent, EventView::ClipboardRead(None)));
        },
        ActionView::WriteClipboard(_) => {
            assert(answers(agent, EventView::ClipboardWritten(true)));
        },
        ActionView::ReopenClipboard => {
            assert(answers(agent, EventView::ClipboardReopened(true)));
        },
        ActionView::Backoff => {
            assert(answers(agent, EventView::Paused));
        },
        ActionView::PollWatcher => {
            assert(answers(agent, EventView::WatcherPolled(Poll::Empty)));
        },
        ActionView::ReadRules => {
            assert(answers(agent, EventView::RulesRead(Err(Seq::empty()))));
        },
        ActionView::ReadExclusions => {
            assert(answers(agent, EventView::ExclusionsRead(Err(Seq::empty()))));
        },
        ActionView::RebuildWatcher => {
            assert(answers(agent, EventView::WatcherRebuilt(Rebuild::Failed)));
        },
        ActionView::Sleep => {
            assert(answers(agent, EventView::Paused));
        },
    }
}

/// The clipboard is read again only after the pause that ends a tick: every
/// tick ends with that pause, whatever happened in it.
pub proof fn lemma_every_tick_ends_with_the_pause(agent: AgentView, event: EventView)
    requires
        !(agent.pending is ReadClipboard),
        step_spec(agent, event).0.pending is ReadClipboard,
    ensures
        agent.pending is Sleep,
        event is Paused,
{
}

/// The configuration in effect changes only when a file that was read gives
/// a configuration with another fingerprint.
pub proof fn lemma_configuration_changes_only_on_load(agent: AgentView, event: EventView)
    ensures
        ({
            let next = step_spec(agent, event).0;
            &&& next.store.rules != agent.store.rules ==> agent.pending is ReadRules
                && gives_rules(event) && rules_fingerprint(next.store.rules)
                != rules_fingerprint(agent.store.rules)
            &&& next.store.exclusions != agent.store.exclusions ==> agent.pending
                is ReadExclusions && gives_exclusions(event) && exclusions_fingerprint(
                next.store.exclusions,
            ) != exclusions_fingerprint(agent.store.exclusions)
        }),
{
}

/// A rules file that gives no rules leaves the configuration as it was and
/// raises the flag of the file. It is reported if the flag was down, and not
/// reported if it was up.
pub proof fn lemma_failed_rules_load(agent: AgentView, read: Result<Seq<char>, Seq<char>>)
    requires
        agent.pending is ReadRules,
        loaded_rules(read) is Err,
    ensures
        ({
            let (next, notices) = step_spec(agent, EventView::RulesRead(read));
            &&& next.store.rules == agent.store.rules
            &&& next.store.exclusions == agent.store.exclusions
            &&& next.store.exclusions_status == agent.store.exclusions_status
            &&& next.store.rules_status == LoadStatus::Failed
            &&& next.pending is PollWatcher
            &&& notices == if agent.store.rules_status == LoadStatus::Healthy {
                seq![Notice::RulesLoadFailed]
            } else {
                Seq::<Notice>::empty()
            }
        }),
{
}

/// An exclusions file that gives no exclusions leaves the configuration as it
/// was and raises the flag of the file. It is reported if the flag was down,
/// and not reported if it was up.
pub proof fn lemma_failed_exclusions_load(agent: AgentView, read: Result<Seq<char>, Seq<char>>)
    requires
        agent.pending is ReadExclusions,
        loaded_exclusions(read) is Err,
    ensures
        ({
            let (next, notices) = step_spec(agent, EventView::ExclusionsRead(read));
            &&& next.store.rules == agent.store.rules
            &&& next.store.exclusions == agent.store.exclusions
            &&& next.store.rules_status == agent.store.rules_status
            &&& next.store.exclusions_status == LoadStatus::Failed
            &&& next.pending is PollWatcher
            &&& notices == if agent.store.exclusions_status == LoadStatus::Healthy {
                seq![Notice::ExclusionsLoadFailed]
            } else {
                Seq::<Notice>::empty()
            }
        }),
{
}

/// A file that gives a configuration lowers its flag, so that the next
/// failure is reported again.
pub proof fn lemma_successful_load_lowers_the_flag(
    agent: AgentView,
    read: Result<Seq<char>, Seq<char>>,
)
    ensures
        agent.pending is ReadRules && loaded_rules(read) is Ok ==> step_spec(
            agent,
            EventView::RulesRead(read),
        ).0.store.rules_status == LoadStatus::Healthy,
        agent.pending is ReadExclusions && loaded_exclusions(read) is Ok ==> step_spec(
            agent,
            EventView::ExclusionsRead(read),
        ).0.store.exclusions_status == LoadStatus::Healthy,
{
}

/// A file whose content has the fingerprint of what is in effect changes
/// nothing and is not reported.
pub proof fn lemma_unchanged_content_is_silent(agent: AgentView, read: Result<Seq<char>, Seq<char>>)
    requires
        agent.pending is ReadRules,
        loaded_rules(read) matches Ok(rules) && rules_fingerprint(rules) == rules_fingerprint(
            agent.store.rules,
        ),
    ensures
        step_spec(agent, EventView::RulesRead(read)).0.store.rules == agent.store.rules,
        step_spec(agent, EventView::RulesRead(read)).1 == Seq::<Notice>::empty(),
{
}

/// Whether no step of the run takes in rules: wherever the rules file is
/// asked for and answered, it gives none.
pub open spec fn rules_never_load(agent: AgentView, events: Seq<EventView>) -> bool {
    forall|k: int|
        0 <= k < events.len() ==> !(#[trigger] replay(agent, events.take(k)).0.pending
            is ReadRules && gives_rules(events[k]))
}

/// Whether no step of the run takes in exclusions.
pub open spec fn exclusions_never_load(agent: AgentView, events: Seq<EventView>) -> bool {
    forall|k: int|
        0 <= k < events.len() ==> !(#[trigger] replay(agent, events.take(k)).0.pending
            is ReadExclusions && gives_exclusions(events[k]))
}

/// Over a run in which the rules file never gives rules, the rules in effect
/// stay what they were, and the failure is reported exactly once if the flag
/// of the file went up during the run, and not at all otherwise. The flag
/// never comes down in such a run.
pub proof fn lemma_rules_failure_is_reported_once(agent: AgentView, events: Seq<EventView>)
    requires
        rules_never_load(agent, events),
    ensures
        ({
            let (end, reported) = replay(agent, events);
            &&& end.store.rules == agent.store.rules
            &&& agent.store.rules_status == LoadStatus::Failed ==> end.store.rules_status
                == LoadStatus::Failed
            &&& count_of(reported, Notice::RulesLoadFailed) == if agent.store.rules_status
                == LoadStatus::Healthy && end.store.rules_status == LoadStatus::Failed {
                1nat
            } else {
                0nat
            }
        }),
    decreases events.len(),
{
    if events.len() > 0 {
        let shorter = events.drop_last();
        assert forall|k: int| 0 <= k < shorter.len() implies !(#[trigger] replay(
            agent,
            shorter.take(k),
        ).0.pending is ReadRules && gives_rules(shorter[k])) by {
            assert(shorter.take(k) =~= events.take(k));
        }
        lemma_rules_failure_is_reported_once(agent, shorter);
        let before = replay(agent, shorter);
        let last = step_spec(before.0, events.last());
        assert(events.take(events.len() - 1) =~= shorter);
        assert(!(replay(agent, events.take(events.len() - 1)).0.pending is ReadRules
            && gives_rules(events[events.len() - 1])));
        lemma_count_of_concat(before.1, last.1, Notice::RulesLoadFailed);
        lemma_step_counts_rules_failure(before.0, events.last());
    }
}

/// One step reports a failed load of the rules file exactly when it raises
/// the flag of the file, and a step that takes in no rules neither changes
/// the rules nor lowers the flag.
proof fn lemma_step_counts_rules_failure(agent: AgentView, event: EventView)
    ensures
        ({
            let (next, notices) = step_spec(agent, event);
            &&& count_of(notices, Notice::RulesLoadFailed) == if agent.store.rules_status
                == LoadStatus::Healthy && next.store.rules_status == LoadStatus::Failed {
                1nat
            } else {
                0nat
            }
            &&& !(agent.pending is ReadRules && gives_rules(event)) ==> next.store.rules
                == agent.store.rules && (agent.store.rules_status == LoadStatus::Failed
                ==> next.store.rules_status == LoadStatus::Failed)
        }),
{
    let (next, notices) = step_spec(agent, event);
    lemma_count_small(notices, Notice::RulesLoadFailed);
}

/// Counting in sequences of at most three notices.
proof fn lemma_count_small(notices: Seq<Notice>, notice: Notice)
    ensures
        notices.len() == 0 ==> count_of(notices, notice) == 0,
        notices.len() == 1 ==> count_of(notices, notice) == if notices[0] == notice {
            1nat
        } else {
            0nat
        },
        notices.len() == 2 ==> count_of(notices, notice) == (if notices[0] == notice {
            1nat
        } else {
            0nat
        }) + (if notices[1] == notice {
            1nat
        } else {
            0nat
        }),
        notices.len() == 3 ==> count_of(notices, notice) == (if notices[0] == notice {
            1nat
        } else {
            0nat
        }) + (if notices[1] == notice {
            1nat
        } else {
            0nat
        }) + (if notices[2] == notice {
            1nat
        } else {
            0nat
        }),
{
    reveal_with_fuel(count_of, 4);
    if notices.len() >= 2 {
        assert(notices.drop_last().last() == notices[notices.len() - 2]);
    }
    if notices.len() == 3 {
        assert(notices.drop_last().drop_last().last() == notices[0]);
    }
}

/// Over a run in which the exclusions file never gives exclusions, the
/// exclusions in effect stay what they were, and the failure is reported
/// exactly once if the flag of the file went up during the run, and not at
/// all otherwise. The flag never comes down in such a run.
pub proof fn lemma_exclusions_failure_is_reported_once(agent: AgentView, events: Seq<EventView>)
    requires
        exclusions_never_load(agent, events),
    ensures
        ({
            let (end, reported) = replay(agent, events);
            &&& end.store.exclusions == agent.store.exclusions
            &&& agent.store.exclusions_status == LoadStatus::Failed
                ==> end.store.exclusions_status == LoadStatus::Failed
            &&& count_of(reported, Notice::ExclusionsLoadFailed) == if agent.store.exclusions_status
                == LoadStatus::Healthy && end.store.exclusions_status == LoadStatus::Failed {
                1nat
            } else {
                0nat
            }
        }),
    decreases events.len(),
{
    if events.len() > 0 {
        let shorter = events.drop_last();
        assert forall|k: int| 0 <= k < shorter.len() implies !(#[trigger] replay(
            agent,
            shorter.take(k),
        ).0.pending is ReadExclusions && gives_exclusions(shorter[k])) by {
            assert(shorter.take(k) =~= events.take(k));
        }
        lemma_exclusions_failure_is_reported_once(agent, shorter);
        let before = replay(agent, shorter);
        let last = step_spec(before.0, events.last());
        assert(events.take(events.len() - 1) =~= shorter);
        assert(!(replay(agent, events.take(events.len() - 1)).0.pending is ReadExclusions
            && gives_exclusions(events[events.len() - 1])));
        lemma_count_of_concat(before.1, last.1, Notice::ExclusionsLoadFailed);
        lemma_step_counts_exclusions_failure(before.0, events.last());
    }
}

/// One step reports a failed load of the exclusions file exactly when it
/// raises the flag of the file, and a step that takes in no exclusions
/// neither changes the exclusions nor lowers the flag.
proof fn lemma_step_counts_exclusions_failure(agent: AgentView, event: EventView)
    ensures
        ({
            let (next, notices) = step_spec(agent, event);
            &&& count_of(notices, Notice::ExclusionsLoadFailed) == if agent.store.exclusions_status
                == LoadStatus::Healthy && next.store.exclusions_status == LoadStatus::Failed {
                1nat
            } else {
                0nat
            }
            &&& !(agent.pending is ReadExclusions && gives_exclusions(event))
                ==> next.store.exclusions == agent.store.exclusions && (
            agent.store.exclusions_status == LoadStatus::Failed ==> next.store.exclusions_status
                == LoadStatus::Failed)
        }),
{
    let (next, notices) = step_spec(agent, event);
    lemma_count_small(notices, Notice::ExclusionsLoadFailed);
}

/// A read of the clipboard that fails asks for a new handle. Once one was
/// opened, the tick goes on without an extra pause, and after the pause that
/// ends it the agent is where it was before the failure: the configuration is
/// untouched, and the next read is taken in as if nothing had failed.
pub proof fn lemma_reopened_clipboard_resumes(agent: AgentView, text: Seq<char>)
    requires
        agent.pending is ReadClipboard,
    ensures
        ({
            let failed = step_spec(agent, EventView::ClipboardRead(None));
            let reopened = step_spec(failed.0, EventView::ClipboardReopened(true));
            let drained = step_spec(reopened.0, EventView::WatcherPolled(Poll::Empty));
            let rested = step_spec(drained.0, EventView::Paused);
            &&& failed.0.pending is ReopenClipboard
            &&& failed.1 == seq![Notice::ReadFailed]
            &&& reopened.0.pending is PollWatcher
            &&& reopened.1 == seq![Notice::ClipboardReopened]
            &&& drained.0.pending is Sleep
            &&& rested.0 == agent
            &&& step_spec(rested.0, EventView::ClipboardRead(Some(text))) == step_spec(
                agent,
                EventView::ClipboardRead(Some(text)),
            )
        }),
{
}

/// A clipboard that cannot be reopened costs the extra pause, after which the
/// tick goes on, and the next tick reads the clipboard again.
pub proof fn lemma_failed_reopen_backs_off(agent: AgentView)
    requires
        agent.pending is ReadClipboard,
    ensures
        ({
            let failed = step_spec(agent, EventView::ClipboardRead(None));
            let refused = step_spec(failed.0, EventView::ClipboardReopened(false));
            let waited = step_spec(refused.0, EventView::Paused);
            let drained = step_spec(waited.0, EventView::WatcherPolled(Poll::Empty));
            let rested = step_spec(drained.0, EventView::Paused);
            &&& refused.0.pending is Backoff
            &&& refused.1 == seq![Notice::ReopenFailed]
            &&& waited.0.pending is PollWatcher
            &&& drained.0.pending is Sleep
            &&& rested.0 == agent
        }),
{
}

/// A text is written back exactly when the pattern of the folded range
/// compiles and normalising changes the text, and what is written is the
/// normalised text. Otherwise the tick goes on to the file watcher.
pub proof fn lemma_write_only_what_changed(agent: AgentView, text: Seq<char>)
    requires
        agent.pending is ReadClipboard,
    ensures
        ({
            let next = step_spec(agent, EventView::ClipboardRead(Some(text))).0;
            let formatted = normalize(text, agent.store.rules, agent.store.exclusions.to_set());
            &&& next.pending is WriteClipboard <==> regex_accepts(WIDTH_PATTERN@) && formatted
                != text
            &&& next.pending is WriteClipboard ==> next.pending == ActionView::WriteClipboard(
                formatted,
            )
            &&& !(next.pending is WriteClipboard) ==> next.pending is PollWatcher
            &&& next.store == agent.store
        }),
{
}

/// A write that fails is reported once and not tried again in the same tick:
/// the tick goes on to the file watcher, as after a write that worked.
pub proof fn lemma_failed_write_is_not_repeated(agent: AgentView)
    requires
        agent.pending is WriteClipboard,
    ensures
        step_spec(agent, EventView::ClipboardWritten(false)) == (
            AgentView { pending: ActionView::PollWatcher, ..agent },
            seq![Notice::WriteFailed],
        ),
        step_spec(agent, EventView::ClipboardWritten(true)) == (
            AgentView { pending: ActionView::PollWatcher, ..agent },
            Seq::<Notice>::empty(),
        ),
{
}

} // verus!
