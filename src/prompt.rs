//! Prompts that wait for a user's reaction.
//!
//! A [`ReactionPrompt`] is a state machine. The caller starts it, performs
//! each [`PromptAction`] it asks for (seed the markers on the prompt message,
//! wait for reactions of the user), and reports the outcome back as a
//! [`PromptEvent`], until the prompt asks to finish with the user's choice.
//!
//! Waiting for the user's next message involves no decision and is left to
//! the caller.

use vstd::prelude::*;

use crate::error::Error;
use crate::reaction::{
    duplicate_all,
    first_match,
    marker_views,
    no_match,
    position,
    ReactionType,
    ReactionView,
};

verus! {

/// Where a prompt stands.
#[derive(Clone, Copy, Debug, PartialEq, Eq, Structural)]
pub enum PromptState {
    /// Created, not started.
    Idle,
    /// Waiting for the markers to be added to the prompt message.
    Seeding,
    /// Waiting for a reaction of the user.
    Awaiting,
    /// Done: the prompt has asked to finish.
    Finished,
}

/// The outcome of a [`PromptAction`], reported back to the prompt.
#[derive(Debug)]
pub enum PromptEvent {
    /// All markers were added, in order.
    Seeded,
    /// The user added this reaction to the prompt message.
    Added(ReactionType),
    /// The user removed a reaction; the wait goes on.
    Removed,
    /// The wait ended with no reaction added.
    TimedOut,
    /// The action failed on the chat platform.
    Failed(Error),
}

/// What a prompt asks its caller to do next.
#[derive(Debug)]
pub enum PromptAction {
    /// Add these markers to the prompt message, one after the other in
    /// order, stopping at the first failure; then report
    /// [`PromptEvent::Seeded`] or the failure.
    Seed { emojis: Vec<ReactionType> },
    /// Wait up to `timeout` milliseconds for reactions of the user on the
    /// prompt message, and report the first one.
    Await { timeout: u64 },
    /// Report the next reaction of the wait under way.
    Wait,
    /// Stop: the index of the chosen marker and the marker, or the failure.
    Finish(Result<(usize, ReactionType), Error>),
}

/// A prompt for one reaction out of a list of markers.
#[derive(Debug)]
pub struct ReactionPrompt {
    /// The markers offered, in order.
    pub emojis: Vec<ReactionType>,
    /// Milliseconds to wait for a reaction.
    pub timeout: u64,
    /// Where the prompt stands. Only [`ReactionPrompt::start`] and
    /// [`ReactionPrompt::step`] change it.
    pub state: PromptState,
}

/// The marker that answers yes in [`ReactionPrompt::yes_or_no`].
pub const YES_EMOJI: char = '\u{2705}';

/// The marker that answers no in [`ReactionPrompt::yes_or_no`].
pub const NO_EMOJI: char = '\u{274c}';

/// The message of a prompt that found an event it was not waiting for.
pub open spec fn prompt_unexpected_message() -> Seq<char> {
    "the prompt got an event it was not waiting for"@
}

/// `after` and `a` are what the event `event` does to the prompt `before`.
pub open spec fn prompt_transition(
    before: ReactionPrompt,
    event: PromptEvent,
    after: ReactionPrompt,
    a: PromptAction,
) -> bool {
    let finished = ReactionPrompt { state: PromptState::Finished, ..before };
    match (before.state, event) {
        (PromptState::Seeding, PromptEvent::Seeded) => after == (ReactionPrompt {
            state: PromptState::Awaiting,
            ..before
        }) && a == (PromptAction::Await { timeout: before.timeout }),
        (PromptState::Awaiting, PromptEvent::Added(e)) => {
            let markers = marker_views(before.emojis@);
            if no_match(markers, e@) {
                after == before && a == PromptAction::Wait
            } else {
                after == finished && (a matches PromptAction::Finish(Ok((i, m))) && first_match(
                    markers,
                    e@,
                    i as int,
                ) && m == e)
            }
        },
        (PromptState::Awaiting, PromptEvent::Removed) => after == before && a == PromptAction::Wait,
        (PromptState::Awaiting, PromptEvent::TimedOut) => after == finished && a
            == PromptAction::Finish(Err(Error::TimeoutError)),
        (PromptState::Seeding, PromptEvent::Failed(err))
        | (PromptState::Awaiting, PromptEvent::Failed(err)) => after == finished && a
            == PromptAction::Finish(Err(err)),
        _ => after == finished && (a matches PromptAction::Finish(Err(Error::Other(s))) && s@
            == prompt_unexpected_message()),
    }
}

impl ReactionPrompt {
    /// Creates a prompt for one of `emojis`, waiting `timeout` milliseconds.
    pub fn new(emojis: Vec<ReactionType>, timeout: u64) -> (r: ReactionPrompt)
        ensures
            r == (ReactionPrompt { emojis, timeout, state: PromptState::Idle }),
    {
        ReactionPrompt { emojis, timeout, state: PromptState::Idle }
    }

    /// Creates a prompt for yes ([`YES_EMOJI`]) or no ([`NO_EMOJI`]),
    /// waiting `timeout` milliseconds.
    pub fn yes_or_no(timeout: u64) -> (r: ReactionPrompt)
        ensures
            marker_views(r.emojis@) == seq![
                ReactionView::Unicode(seq![YES_EMOJI]),
                ReactionView::Unicode(seq![NO_EMOJI]),
            ],
            r.timeout == timeout,
            r.state == PromptState::Idle,
    {
        let mut emojis: Vec<ReactionType> = Vec::new();
        emojis.push(ReactionType::from_char(YES_EMOJI));
        emojis.push(ReactionType::from_char(NO_EMOJI));
        assert(marker_views(emojis@) =~= seq![
            ReactionView::Unicode(seq![YES_EMOJI]),
            ReactionView::Unicode(seq![NO_EMOJI]),
        ]);
        ReactionPrompt { emojis, timeout, state: PromptState::Idle }
    }

    /// Starts the prompt: asks for the markers to be added, in order.
    ///
    /// A prompt that was started already finishes with an error.
    pub fn start(&mut self) -> (a: PromptAction)
        ensures
            old(self).state == PromptState::Idle ==> *final(self) == (ReactionPrompt {
                state: PromptState::Seeding,
                ..*old(self)
            }) && (a matches PromptAction::Seed { emojis } && marker_views(emojis@)
                == marker_views(old(self).emojis@)),
            old(self).state != PromptState::Idle ==> *final(self) == (ReactionPrompt {
                state: PromptState::Finished,
                ..*old(self)
            }) && (a matches PromptAction::Finish(Err(Error::Other(s))) && s@
                == prompt_unexpected_message()),
    {
        if self.state == PromptState::Idle {
            self.state = PromptState::Seeding;
            PromptAction::Seed { emojis: duplicate_all(&self.emojis) }
        } else {
            self.unexpected()
        }
    }

    /// Takes the outcome of the last action and says what to do next.
    ///
    /// A reaction with one of the markers ends the prompt with the index of
    /// its first occurrence; any other reaction is ignored. No reaction
    /// before the deadline ends it with [`Error::TimeoutError`].
    pub fn step(&mut self, event: PromptEvent) -> (a: PromptAction)
        ensures
            prompt_transition(*old(self), event, *final(self), a),
    {
        match self.state {
            PromptState::Seeding => match event {
                PromptEvent::Seeded => {
                    self.state = PromptState::Awaiting;
                    PromptAction::Await { timeout: self.timeout }
                },
                PromptEvent::Failed(err) => {
                    self.state = PromptState::Finished;
                    PromptAction::Finish(Err(err))
                },
                _ => self.unexpected(),
            },
            PromptState::Awaiting => match event {
                PromptEvent::Added(e) => match position(&self.emojis, &e) {
                    Some(i) => {
                        self.state = PromptState::Finished;
                        PromptAction::Finish(Ok((i, e)))
                    },
                    None => PromptAction::Wait,
                },
                PromptEvent::Removed => PromptAction::Wait,
                PromptEvent::TimedOut => {
                    self.state = PromptState::Finished;
                    PromptAction::Finish(Err(Error::TimeoutError))
                },
                PromptEvent::Failed(err) => {
                    self.state = PromptState::Finished;
                    PromptAction::Finish(Err(err))
                },
                _ => self.unexpected(),
            },
            _ => self.unexpected(),
        }
    }

    /// Finishes after an event that the prompt was not waiting for.
    fn unexpected(&mut self) -> (a: PromptAction)
        ensures
            *final(self) == (ReactionPrompt { state: PromptState::Finished, ..*old(self) }),
            a matches PromptAction::Finish(Err(Error::Other(s))) && s@
                == prompt_unexpected_message(),
    {
        self.state = PromptState::Finished;
        PromptAction::Finish(
            Err(Error::Other(String::from_str("the prompt got an event it was not waiting for"))),
        )
    }
}

/// The answer that a yes-or-no prompt's outcome gives: the first marker
/// means yes, the second no.
pub open spec fn answer_of(r: Result<(usize, ReactionType), Error>) -> Result<bool, Error> {
    match r {
        Ok((i, _)) => Ok(i == 0),
        Err(e) => Err(e),
    }
}

/// The answer of a yes-or-no prompt: the first marker means yes.
pub fn yes_or_no_answer(r: Result<(usize, ReactionType), Error>) -> (out: Result<bool, Error>)
    ensures
        out == answer_of(r),
{
    match r {
        Ok((i, _)) => Ok(i == 0),
        Err(e) => Err(e),
    }
}

/// A prompt offering two distinct markers `[x, y]`: a reaction with `y`
/// ends it with index 1 and `y`, even before any reaction with `x`; a
/// reaction with neither is ignored; the end of the wait with no reaction
/// ends it with a timeout.
pub proof fn two_marker_prompt(
    before: ReactionPrompt,
    event: PromptEvent,
    after: ReactionPrompt,
    a: PromptAction,
    x: ReactionView,
    y: ReactionView,
)
    requires
        before.state == PromptState::Awaiting,
        marker_views(before.emojis@) == seq![x, y],
        x != y,
        prompt_transition(before, event, after, a),
    ensures
        event matches PromptEvent::Added(e) && e@ == y ==> (a matches PromptAction::Finish(
            Ok((i, m)),
        ) && i == 1 && m@ == y),
        event matches PromptEvent::Added(e) && e@ != x && e@ != y ==> after == before && a
            == PromptAction::Wait,
        event is TimedOut ==> a == PromptAction::Finish(Err(Error::TimeoutError)),
{
    if let PromptEvent::Added(e) = event {
        let markers = marker_views(before.emojis@);
        if e@ == y {
            assert(markers[1] == e@);
            assert(!no_match(markers, e@));
        }
    }
}

/// In a yes-or-no prompt, a reaction with the yes marker answers `true`,
/// one with the no marker answers `false`.
pub proof fn yes_or_no_reactions(
    before: ReactionPrompt,
    e: ReactionType,
    after: ReactionPrompt,
    a: PromptAction,
)
    requires
        before.state == PromptState::Awaiting,
        marker_views(before.emojis@) == seq![
            ReactionView::Unicode(seq![YES_EMOJI]),
            ReactionView::Unicode(seq![NO_EMOJI]),
        ],
        prompt_transition(before, PromptEvent::Added(e), after, a),
    ensures
        e@ == ReactionView::Unicode(seq![YES_EMOJI]) ==> (a matches PromptAction::Finish(r)
            && answer_of(r) == Ok::<bool, Error>(true)),
        e@ == ReactionView::Unicode(seq![NO_EMOJI]) ==> (a matches PromptAction::Finish(r)
            && answer_of(r) == Ok::<bool, Error>(false)),
{
    let markers = marker_views(before.emojis@);
    assert(seq![YES_EMOJI] != seq![NO_EMOJI]) by {
        assert(seq![YES_EMOJI][0] != seq![NO_EMOJI][0]);
    }
    if e@ == markers[0] {
        assert(!no_match(markers, e@));
    }
    if e@ == markers[1] {
        assert(!no_match(markers, e@));
    }
}

} // verus!
