//! The consent prompt: when the service needs the user's authorization it
//! hands back the path of a prompt object. The client subscribes to the
//! prompt's completion signal, then shows the prompt, then takes exactly one
//! completion signal, which either dismisses the operation or carries its
//! result.
//!
//! The bus traffic is the caller's; this module decides what comes next.

use crate::error::Error;
use vstd::prelude::*;
use vstd::string::StrSliceExecFns;

verus! {

/// The object path that, where a prompt is expected, means that none is needed.
pub const NO_PROMPT: &'static str = "/";

/// The window identifier a prompt is shown with: none, so the prompt has no
/// parent window.
pub const NO_WINDOW_ID: &'static str = "";

/// `path` is the root object path, which stands for "no object".
pub open spec fn is_root_path(path: Seq<char>) -> bool {
    path == seq!['/']
}

/// Whether `path`, found where a prompt is expected, means that no prompt is
/// needed.
pub fn is_no_prompt(path: &str) -> (r: bool)
    ensures
        r == is_root_path(path@),
{
    let r = path.unicode_len() == 1 && path.get_char(0) == '/';
    proof {
        if path@.len() == 1 {
            assert(path@ == seq![path@[0]]) by {
                assert(path@ =~= seq![path@[0]]);
            }
        }
    }
    r
}

pub open spec fn signal_outcome<T>(dismissed: bool, result: T) -> Result<T, Error> {
    if dismissed {
        Err(Error::Prompt)
    } else {
        Ok(result)
    }
}

/// The outcome of a prompt, from its completion signal: a dismissed prompt
/// fails the operation, and its result is then never looked at.
pub fn handle_signal<T>(dismissed: bool, result: T) -> (r: Result<T, Error>)
    ensures
        r == signal_outcome(dismissed, result),
        dismissed ==> r == Err::<T, Error>(Error::Prompt),
{
    if dismissed {
        Err(Error::Prompt)
    } else {
        Ok(result)
    }
}

/// Where a run of the prompt protocol stands.
#[derive(Debug, Clone, Copy, PartialEq, Eq)]
pub enum PromptState {
    /// Not started.
    Idle,
    /// Waiting for the subscription to the completion signal to be in place.
    Subscribing,
    /// Shown, and waiting for its completion signal.
    AwaitingCompletion,
    /// Completed with a result.
    Completed,
    /// Dismissed by the user.
    Dismissed,
}

/// What the caller reports to a run of the prompt protocol.
pub enum PromptEvent<T> {
    /// Start the run.
    Start,
    /// The subscription to the prompt's completion signal is in place.
    Subscribed,
    /// The prompt's completion signal arrived.
    Completed { dismissed: bool, result: T },
}

/// What a run of the prompt protocol asks of the caller next.
#[derive(Debug, PartialEq, Eq)]
pub enum PromptAction<T> {
    /// Subscribe to the prompt's completion signal.
    Subscribe,
    /// Show the prompt, with no parent window, then wait for its completion
    /// signal.
    Show,
    /// Nothing: the event does not apply where the run stands, and is ignored.
    Ignore,
    /// The run is over, with this outcome.
    Finish(Result<T, Error>),
}

pub open spec fn is_finished(s: PromptState) -> bool {
    s == PromptState::Completed || s == PromptState::Dismissed
}

/// The state that `event` takes a run in state `s` to.
pub open spec fn next_state<T>(s: PromptState, event: PromptEvent<T>) -> PromptState {
    match (s, event) {
        (PromptState::Idle, PromptEvent::Start) => PromptState::Subscribing,
        (PromptState::Subscribing, PromptEvent::Subscribed) => PromptState::AwaitingCompletion,
        (PromptState::AwaitingCompletion, PromptEvent::Completed { dismissed, result }) => {
            if dismissed {
                PromptState::Dismissed
            } else {
                PromptState::Completed
            }
        },
        _ => s,
    }
}

/// What a run in state `s` asks for on `event`.
pub open spec fn next_action<T>(s: PromptState, event: PromptEvent<T>) -> PromptAction<T> {
    match (s, event) {
        (PromptState::Idle, PromptEvent::Start) => PromptAction::Subscribe,
        (PromptState::Subscribing, PromptEvent::Subscribed) => PromptAction::Show,
        (PromptState::AwaitingCompletion, PromptEvent::Completed { dismissed, result }) => {
            PromptAction::Finish(signal_outcome(dismissed, result))
        },
        _ => PromptAction::Ignore,
    }
}

/// One run of the prompt protocol, for one prompt object.
pub struct PromptRun {
    prompt: String,
    state: PromptState,
}

impl PromptRun {
    pub closed spec fn path(&self) -> Seq<char> {
        self.prompt@
    }

    pub closed spec fn current(&self) -> PromptState {
        self.state
    }

    /// A run for the prompt object at `prompt`, which must not be the
    /// root path that stands for none.
    pub fn new(prompt: String) -> (r: PromptRun)
        requires
            !is_root_path(prompt@),
        ensures
            r.path() == prompt@,
            r.current() == PromptState::Idle,
    {
        PromptRun { prompt, state: PromptState::Idle }
    }

    /// The path of the prompt object.
    pub fn prompt_path(&self) -> (r: &String)
        ensures
            r@ == self.path(),
    {
        &self.prompt
    }

    pub fn state(&self) -> (r: PromptState)
        ensures
            r == self.current(),
    {
        self.state
    }

    /// Takes the run one step on `event`. The prompt is shown only once the
    /// subscription is in place, exactly one completion signal is taken, a
    /// dismissal finishes the run with `Error::Prompt`, and once finished the
    /// run ignores everything.
    pub fn step<T>(&mut self, event: PromptEvent<T>) -> (r: PromptAction<T>)
        ensures
            final(self).path() == old(self).path(),
            final(self).current() == next_state(old(self).current(), event),
            r == next_action(old(self).current(), event),
            r is Show ==> old(self).current() == PromptState::Subscribing && event is Subscribed,
            r is Finish ==> old(self).current() == PromptState::AwaitingCompletion && is_finished(
                final(self).current(),
            ),
            (event matches PromptEvent::Completed { dismissed, result } && dismissed && old(
                self,
            ).current() == PromptState::AwaitingCompletion) ==> r == PromptAction::<T>::Finish(
                Err(Error::Prompt),
            ),
            is_finished(old(self).current()) ==> r is Ignore && final(self).current() == old(
                self,
            ).current(),
    {
        match (self.state, event) {
            (PromptState::Idle, PromptEvent::Start) => {
                self.state = PromptState::Subscribing;
                PromptAction::Subscribe
            },
            (PromptState::Subscribing, PromptEvent::Subscribed) => {
                self.state = PromptState::AwaitingCompletion;
                PromptAction::Show
            },
            (PromptState::AwaitingCompletion, PromptEvent::Completed { dismissed, result }) => {
                self.state =
                if dismissed {
                    PromptState::Dismissed
                } else {
                    PromptState::Completed
                };
                PromptAction::Finish(handle_signal(dismissed, result))
            },
            _ => PromptAction::Ignore,
        }
    }
}

} // verus!
