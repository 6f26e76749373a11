use vstd::prelude::*;

verus! {

/// Where the interactive loop stands.
#[derive(Clone, Copy, Debug, PartialEq, Eq, Structural)]
pub enum Phase {
    LoadingCredentials,
    Prompting,
    Fetching,
    Presenting,
    AskingRepeat,
    Terminated,
}

/// Which kind of failure ended a query.
#[derive(Clone, Copy, Debug, PartialEq, Eq, Structural)]
pub enum Failure {
    Network,
    Decode,
}

/// What the outside world reports back to the loop.
#[derive(Clone, Copy, Debug, PartialEq, Eq, Structural)]
pub enum Event {
    /// The API key was found.
    CredentialLoaded,
    /// No API key was found.
    CredentialMissing,
    /// The city name and the country code were entered.
    InputCollected,
    /// The query brought a record.
    FetchSucceeded,
    /// The query failed.
    FetchFailed(Failure),
    /// The record was printed.
    Presented,
    /// The answer to the repeat prompt: whether to query again.
    RepeatChosen(bool),
}

/// What the loop asks the outside world to do next.
#[derive(Clone, Copy, Debug, PartialEq, Eq, Structural)]
pub enum Action {
    /// Ask for a city name and a country code.
    Prompt,
    /// Query the provider.
    Fetch,
    /// Print the record.
    Present,
    /// Print the failure, then ask whether to query again.
    ReportAndAsk,
    /// Ask whether to query again.
    AskRepeat,
    /// End the program.
    Exit,
    /// The event does not apply in this phase: do nothing.
    Ignore,
}

/// The loop's transition: the next phase and the action that enters it. An event that
/// does not belong to the phase leaves it unchanged.
pub open spec fn next(p: Phase, e: Event) -> (Phase, Action) {
    match (p, e) {
        (Phase::LoadingCredentials, Event::CredentialLoaded) => (Phase::Prompting, Action::Prompt),
        (Phase::LoadingCredentials, Event::CredentialMissing) => (Phase::Terminated, Action::Exit),
        (Phase::Prompting, Event::InputCollected) => (Phase::Fetching, Action::Fetch),
        (Phase::Fetching, Event::FetchSucceeded) => (Phase::Presenting, Action::Present),
        (Phase::Fetching, Event::FetchFailed(_)) => (Phase::AskingRepeat, Action::ReportAndAsk),
        (Phase::Presenting, Event::Presented) => (Phase::AskingRepeat, Action::AskRepeat),
        (Phase::AskingRepeat, Event::RepeatChosen(again)) => if again {
            (Phase::Prompting, Action::Prompt)
        } else {
            (Phase::Terminated, Action::Exit)
        },
        _ => (p, Action::Ignore),
    }
}

/// The phase reached from `p` after the events `es`, in order.
pub open spec fn run(p: Phase, es: Seq<Event>) -> Phase
    decreases es.len(),
{
    if es.len() == 0 {
        p
    } else {
        run(next(p, es[0]).0, es.drop_first())
    }
}

/// The actions asked for from `p` on the events `es`, one for each event.
pub open spec fn actions(p: Phase, es: Seq<Event>) -> Seq<Action>
    decreases es.len(),
{
    if es.len() == 0 {
        Seq::empty()
    } else {
        seq![next(p, es[0]).1] + actions(next(p, es[0]).0, es.drop_first())
    }
}

/// One step of the loop.
pub fn step(p: Phase, e: Event) -> (r: (Phase, Action))
    ensures
        r == next(p, e),
{
    match (p, e) {
        (Phase::LoadingCredentials, Event::CredentialLoaded) => (Phase::Prompting, Action::Prompt),
        (Phase::LoadingCredentials, Event::CredentialMissing) => (Phase::Terminated, Action::Exit),
        (Phase::Prompting, Event::InputCollected) => (Phase::Fetching, Action::Fetch),
        (Phase::Fetching, Event::FetchSucceeded) => (Phase::Presenting, Action::Present),
        (Phase::Fetching, Event::FetchFailed(_)) => (Phase::AskingRepeat, Action::ReportAndAsk),
        (Phase::Presenting, Event::Presented) => (Phase::AskingRepeat, Action::AskRepeat),
        (Phase::AskingRepeat, Event::RepeatChosen(again)) => if again {
            (Phase::Prompting, Action::Prompt)
        } else {
            (Phase::Terminated, Action::Exit)
        },
        _ => (p, Action::Ignore),
    }
}

/// Once the loop has terminated, no event moves it, and it asks for nothing more.
pub proof fn lemma_terminated_stays(es: Seq<Event>)
    ensures
        run(Phase::Terminated, es) == Phase::Terminated,
        forall|i: int| 0 <= i < es.len() ==> #[trigger] actions(Phase::Terminated, es)[i] == Action::Ignore,
        actions(Phase::Terminated, es).len() == es.len(),
    decreases es.len(),
{
    if es.len() > 0 {
        lemma_terminated_stays(es.drop_first());
        let rest = actions(Phase::Terminated, es.drop_first());
        assert forall|i: int| 0 <= i < es.len() implies #[trigger] actions(Phase::Terminated, es)[i]
            == Action::Ignore by {
            if i > 0 {
                assert(actions(Phase::Terminated, es)[i] == rest[i - 1]);
            }
        }
    }
}

/// When no API key is found the loop ends at once, and whatever events follow, it
/// never asks for a query.
pub proof fn lemma_missing_credential_never_fetches(es: Seq<Event>)
    ensures
        next(Phase::LoadingCredentials, Event::CredentialMissing) == (Phase::Terminated, Action::Exit),
        run(Phase::LoadingCredentials, seq![Event::CredentialMissing] + es) == Phase::Terminated,
        forall|i: int|
            0 <= i < es.len() + 1 ==> #[trigger] actions(
                Phase::LoadingCredentials,
                seq![Event::CredentialMissing] + es,
            )[i] != Action::Fetch,
{
    let all = seq![Event::CredentialMissing] + es;
    assert(all.drop_first() =~= es);
    lemma_terminated_stays(es);
    let acts = actions(Phase::LoadingCredentials, all);
    assert forall|i: int| 0 <= i < es.len() + 1 implies #[trigger] acts[i] != Action::Fetch by {
        if i > 0 {
            assert(acts[i] == actions(Phase::Terminated, es)[i - 1]);
        }
    }
}

/// A failed query does not end the loop: the failure is reported, the user is asked
/// whether to go on, and saying yes brings the prompts of the next query.
pub proof fn lemma_failure_keeps_looping(f: Failure)
    ensures
        next(Phase::Fetching, Event::FetchFailed(f)) == (Phase::AskingRepeat, Action::ReportAndAsk),
        next(Phase::AskingRepeat, Event::RepeatChosen(true)) == (Phase::Prompting, Action::Prompt),
        run(Phase::Fetching, seq![Event::FetchFailed(f), Event::RepeatChosen(true)])
            == Phase::Prompting,
        actions(Phase::Fetching, seq![Event::FetchFailed(f), Event::RepeatChosen(true)])
            == seq![Action::ReportAndAsk, Action::Prompt],
{
    let es = seq![Event::FetchFailed(f), Event::RepeatChosen(true)];
    assert(es.drop_first() =~= seq![Event::RepeatChosen(true)]);
    let last = seq![Event::RepeatChosen(true)];
    assert(last.drop_first() =~= Seq::<Event>::empty());
    assert(run(Phase::Prompting, Seq::<Event>::empty()) == Phase::Prompting);
    assert(run(Phase::AskingRepeat, last) == Phase::Prompting);
    assert(actions(Phase::Prompting, Seq::<Event>::empty()) == Seq::<Action>::empty());
    assert(actions(Phase::AskingRepeat, last) =~= seq![Action::Prompt] + Seq::<Action>::empty());
    assert(actions(Phase::Fetching, es) =~= seq![Action::ReportAndAsk, Action::Prompt]);
}

/// Only an answer of no at the repeat prompt, or a missing key, ends the loop.
pub proof fn lemma_only_no_or_missing_key_ends(p: Phase, e: Event)
    requires
        p != Phase::Terminated,
        next(p, e).0 == Phase::Terminated,
    ensures
        (p == Phase::LoadingCredentials && e == Event::CredentialMissing) || (p
            == Phase::AskingRepeat && e == Event::RepeatChosen(false)),
{
}

} // verus!
