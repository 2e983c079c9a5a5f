//! The process lifecycle: ensure the store, check the credential, start the
//! asset server in the background, serve the protocol session in the
//! foreground, and on its end cancel the asset server and exit.
//!
//! The supervisor decides; its caller performs each action and reports back
//! what happened as the next event.

use vstd::prelude::*;

verus! {

#[derive(PartialEq, Eq, Structural, Clone, Copy, Debug)]
pub enum Phase {
    /// The store directories are being ensured.
    Starting,
    /// The store is ready; the credential is being checked.
    StoreReady,
    /// The asset server is being started.
    StartingAssets,
    /// The protocol session runs in the foreground.
    Serving,
    /// The process exits with the code held.
    Exited(i32),
}

#[derive(PartialEq, Eq, Structural, Clone, Copy, Debug)]
pub enum Event {
    /// The store directories were ensured, or could not be.
    StoreEnsured(bool),
    /// The backend credential was found in the environment, or not.
    CredentialChecked(bool),
    /// The asset server's background task was started.
    AssetsStarted,
    /// The protocol session ended: cleanly, or through a transport error.
    SessionEnded(bool),
}

#[derive(PartialEq, Eq, Structural, Clone, Copy, Debug)]
pub enum Action {
    /// Look up the backend credential.
    CheckCredential,
    /// Bind the asset server and run it as a background task.
    StartAssets,
    /// Serve the protocol session over standard input and output.
    ServeSession,
    /// Cancel the asset server's task, then exit with the code.
    CancelAssetsAndExit(i32),
    /// Exit with the code; no server was started.
    Exit(i32),
    /// The event does not fit the phase; nothing is done.
    Ignore,
}

pub struct Supervisor {
    pub phase: Phase,
}

/// Exit status of a failed start or a failed session.
pub open spec fn failure_code() -> i32 {
    1
}

pub open spec fn spec_step(phase: Phase, event: Event) -> (Phase, Action) {
    match (phase, event) {
        (Phase::Starting, Event::StoreEnsured(true)) => (Phase::StoreReady, Action::CheckCredential),
        (Phase::Starting, Event::StoreEnsured(false)) => (
            Phase::Exited(failure_code()),
            Action::Exit(failure_code()),
        ),
        (Phase::StoreReady, Event::CredentialChecked(true)) => (
            Phase::StartingAssets,
            Action::StartAssets,
        ),
        (Phase::StoreReady, Event::CredentialChecked(false)) => (
            Phase::Exited(failure_code()),
            Action::Exit(failure_code()),
        ),
        (Phase::StartingAssets, Event::AssetsStarted) => (Phase::Serving, Action::ServeSession),
        (Phase::Serving, Event::SessionEnded(true)) => (
            Phase::Exited(0),
            Action::CancelAssetsAndExit(0),
        ),
        (Phase::Serving, Event::SessionEnded(false)) => (
            Phase::Exited(failure_code()),
            Action::CancelAssetsAndExit(failure_code()),
        ),
        _ => (phase, Action::Ignore),
    }
}

/// The actions that a run of events produces from `phase`.
pub open spec fn run_actions(phase: Phase, events: Seq<Event>) -> Seq<Action>
    decreases events.len(),
{
    if events.len() == 0 {
        seq![]
    } else {
        let (next, action) = spec_step(phase, events[0]);
        seq![action] + run_actions(next, events.drop_first())
    }
}

pub open spec fn starts_a_server(a: Action) -> bool {
    a == Action::StartAssets || a == Action::ServeSession
}

pub open spec fn before_credential(phase: Phase) -> bool {
    phase == Phase::Starting || phase == Phase::StoreReady || phase is Exited
}

impl Supervisor {
    /// A supervisor at the start; the caller first ensures the store.
    pub fn new() -> (r: Supervisor)
        ensures
            r.phase == Phase::Starting,
    {
        Supervisor { phase: Phase::Starting }
    }

    /// Takes the outcome of the last action and says what to do next.
    pub fn step(&mut self, event: Event) -> (r: Action)
        ensures
            (final(self).phase, r) == spec_step(old(self).phase, event),
    {
        let (next, action) = match (self.phase, event) {
            (Phase::Starting, Event::StoreEnsured(true)) => (Phase::StoreReady, Action::CheckCredential),
            (Phase::Starting, Event::StoreEnsured(false)) => (Phase::Exited(1), Action::Exit(1)),
            (Phase::StoreReady, Event::CredentialChecked(true)) => (
                Phase::StartingAssets,
                Action::StartAssets,
            ),
            (Phase::StoreReady, Event::CredentialChecked(false)) => (
                Phase::Exited(1),
                Action::Exit(1),
            ),
            (Phase::StartingAssets, Event::AssetsStarted) => (Phase::Serving, Action::ServeSession),
            (Phase::Serving, Event::SessionEnded(true)) => (
                Phase::Exited(0),
                Action::CancelAssetsAndExit(0),
            ),
            (Phase::Serving, Event::SessionEnded(false)) => (
                Phase::Exited(1),
                Action::CancelAssetsAndExit(1),
            ),
            (p, _) => (p, Action::Ignore),
        };
        self.phase = next;
        action
    }

    /// The exit code once the supervisor has exited.
    pub fn exit_code(&self) -> (r: Option<i32>)
        ensures
            r == match self.phase {
                Phase::Exited(c) => Some(c),
                _ => None,
            },
    {
        match self.phase {
            Phase::Exited(c) => Some(c),
            _ => None,
        }
    }
}

/// Without a credential reported present, neither server is ever started,
/// whatever else happens.
pub proof fn lemma_no_credential_no_server(phase: Phase, events: Seq<Event>)
    requires
        before_credential(phase),
        forall|i: int| 0 <= i < events.len() ==> events[i] != Event::CredentialChecked(true),
    ensures
        forall|j: int|
            0 <= j < run_actions(phase, events).len() ==> !starts_a_server(
                #[trigger] run_actions(phase, events)[j],
            ),
    decreases events.len(),
{
    if events.len() > 0 {
        let (next, action) = spec_step(phase, events[0]);
        assert(events[0] != Event::CredentialChecked(true));
        lemma_no_credential_no_server(next, events.drop_first());
        let rest = run_actions(next, events.drop_first());
        assert forall|j: int| 0 <= j < run_actions(phase, events).len() implies !starts_a_server(
            #[trigger] run_actions(phase, events)[j],
        ) by {
            if j > 0 {
                assert(run_actions(phase, events)[j] == rest[j - 1]);
            }
        }
    }
}

/// A missing credential ends the start with a non-zero exit status and no
/// server started.
pub proof fn lemma_missing_credential_exits(events: Seq<Event>)
    requires
        events.len() == 2,
        events[0] == Event::StoreEnsured(true),
        events[1] == Event::CredentialChecked(false),
    ensures
        run_actions(Phase::Starting, events) == seq![
            Action::CheckCredential,
            Action::Exit(failure_code()),
        ],
        failure_code() != 0,
{
    let tail = events.drop_first();
    assert(tail[0] == Event::CredentialChecked(false));
    assert(tail.drop_first().len() == 0);
    assert(run_actions(Phase::Exited(failure_code()), tail.drop_first()) == Seq::<Action>::empty());
    assert(run_actions(Phase::StoreReady, tail) =~= seq![Action::Exit(failure_code())]);
    assert(run_actions(Phase::Starting, events) =~= seq![
        Action::CheckCredential,
        Action::Exit(failure_code()),
    ]);
}

/// The asset server never outlives the session: once the session ends, the
/// next action cancels it.
pub proof fn lemma_session_end_cancels_assets(clean: bool)
    ensures
        spec_step(Phase::Serving, Event::SessionEnded(clean)).1 == Action::CancelAssetsAndExit(
            if clean {
                0
            } else {
                failure_code()
            },
        ),
{
}

} // verus!
