//! The negotiation: from an advertised mechanism list to a session or a
//! failure.
//!
//! A negotiation starts with the mechanism list, resolves it, and then
//! either fails for want of a common method, dispatches the only choice
//! there is, or waits for the caller to select one of several. Once a
//! choice is being dispatched the negotiation can only end: a new attempt
//! is a new negotiation.

use vstd::prelude::*;
use crate::choice::{ChoiceView, LoginChoice};
use crate::dispatcher::{Progress, ProgressView, Reply, ReplyView, Request, RequestView};
use crate::error::LoginError;
use crate::mechanism::{AdvertisedMechanism, MechanismView};
use crate::resolver::{resolve, resolved};
use crate::session::{Session, SessionView};

verus! {

/// The state of one negotiation.
#[derive(Debug)]
pub enum Negotiation {
    /// The server's mechanism list is at hand.
    Start { mechanisms: Vec<AdvertisedMechanism> },
    /// The list has been resolved into choices.
    Resolved { choices: Vec<LoginChoice> },
    /// Several choices are on offer and the caller must select one.
    AwaitingSelection { offered: Vec<LoginChoice> },
    /// One choice is being dispatched; `pending` is the outstanding request.
    Dispatching { choice: LoginChoice, pending: Request },
    /// The server accepted the login.
    Authenticated { session: Session },
    /// The negotiation failed.
    Failed { reason: LoginError },
}

/// The mathematical value of a [`Negotiation`].
#[verifier::ext_equal]
pub enum NegotiationView {
    Start { mechanisms: Seq<MechanismView> },
    Resolved { choices: Seq<ChoiceView> },
    AwaitingSelection { offered: Seq<ChoiceView> },
    Dispatching { choice: ChoiceView, pending: RequestView },
    Authenticated { session: SessionView },
    Failed { reason: LoginError },
}

impl View for Negotiation {
    type V = NegotiationView;

    open spec fn view(&self) -> NegotiationView {
        match self {
            Negotiation::Start { mechanisms } => NegotiationView::Start {
                mechanisms: mechanisms.deep_view(),
            },
            Negotiation::Resolved { choices } => NegotiationView::Resolved {
                choices: choices.deep_view(),
            },
            Negotiation::AwaitingSelection { offered } => NegotiationView::AwaitingSelection {
                offered: offered.deep_view(),
            },
            Negotiation::Dispatching { choice, pending } => NegotiationView::Dispatching {
                choice: choice@,
                pending: pending@,
            },
            Negotiation::Authenticated { session } => NegotiationView::Authenticated {
                session: session@,
            },
            Negotiation::Failed { reason } => NegotiationView::Failed { reason: *reason },
        }
    }
}

/// Whether `choice` is one of the choices on offer.
pub open spec fn is_offered(offered: Seq<ChoiceView>, choice: ChoiceView) -> bool {
    exists|i: int| 0 <= i < offered.len() && (#[trigger] offered[i]).same_choice(choice)
}

/// The state in which `choice` has just begun to be dispatched.
pub open spec fn dispatching(choice: ChoiceView) -> NegotiationView {
    NegotiationView::Dispatching { choice, pending: choice.first_request() }
}

/// Where a negotiation goes once its choices are known: it fails when there
/// is none, dispatches the choice when there is exactly one, and otherwise
/// waits for a selection among them.
pub open spec fn routed(choices: Seq<ChoiceView>) -> NegotiationView {
    if choices.len() == 0 {
        NegotiationView::Failed { reason: LoginError::NoCompatibleMethod }
    } else if choices.len() == 1 {
        dispatching(choices[0])
    } else {
        NegotiationView::AwaitingSelection { offered: choices }
    }
}

/// The state a negotiation over `mechanisms` is in when it first needs
/// something from outside, or has ended.
pub open spec fn negotiated(mechanisms: Seq<MechanismView>) -> NegotiationView {
    routed(resolved(mechanisms))
}

impl NegotiationView {
    /// An ended negotiation: authenticated or failed.
    pub open spec fn is_terminal(self) -> bool {
        self is Authenticated || self is Failed
    }

    /// The next state of a negotiation that needs nothing from outside to
    /// move on: the mechanism list is resolved, and resolved choices are
    /// routed. Every other state waits, and is left as it is.
    pub open spec fn advanced(self) -> NegotiationView {
        match self {
            NegotiationView::Start { mechanisms } => NegotiationView::Resolved {
                choices: resolved(mechanisms),
            },
            NegotiationView::Resolved { choices } => routed(choices),
            _ => self,
        }
    }

    /// The next state once the caller has selected `choice`. While a
    /// selection is awaited, an offered choice is dispatched and any other
    /// fails the negotiation. In every other state a selection changes
    /// nothing.
    pub open spec fn selected(self, choice: ChoiceView) -> NegotiationView {
        match self {
            NegotiationView::AwaitingSelection { offered } => if is_offered(offered, choice) {
                dispatching(choice)
            } else {
                NegotiationView::Failed { reason: LoginError::InvalidSelection }
            },
            _ => self,
        }
    }

    /// The next state once `reply` has come in. While a choice is being
    /// dispatched the dispatcher decides: the attempt goes on with another
    /// request, or ends the negotiation with a session or a failure. In
    /// every other state a reply changes nothing.
    pub open spec fn answered(self, reply: ReplyView) -> NegotiationView {
        match self {
            NegotiationView::Dispatching { choice, pending } => match pending.answered_by(reply) {
                ProgressView::Pending(next) => NegotiationView::Dispatching {
                    choice,
                    pending: next,
                },
                ProgressView::Finished(Ok(session)) => NegotiationView::Authenticated { session },
                ProgressView::Finished(Err(reason)) => NegotiationView::Failed { reason },
            },
            _ => self,
        }
    }

    /// How the negotiation ended, if it has.
    pub open spec fn outcome(self) -> Option<Result<SessionView, LoginError>> {
        match self {
            NegotiationView::Authenticated { session } => Some(Ok(session)),
            NegotiationView::Failed { reason } => Some(Err(reason)),
            _ => None,
        }
    }
}

/// Routing follows resolution: two steps from the start reach the state
/// that [`negotiated`] names.
pub proof fn lemma_start_advances_to_negotiated(mechanisms: Seq<MechanismView>)
    ensures
        (NegotiationView::Start { mechanisms }).advanced() == (NegotiationView::Resolved {
            choices: resolved(mechanisms),
        }),
        (NegotiationView::Start { mechanisms }).advanced().advanced() == negotiated(mechanisms),
{
}

/// A server whose mechanisms resolve to no choice shares no method with
/// this client: the negotiation fails at once, and nothing is dispatched.
pub proof fn lemma_no_choice_fails(mechanisms: Seq<MechanismView>)
    requires
        resolved(mechanisms).len() == 0,
    ensures
        negotiated(mechanisms) == (NegotiationView::Failed {
            reason: LoginError::NoCompatibleMethod,
        }),
{
}

/// An empty mechanism list resolves to nothing, so its negotiation fails
/// for want of a common method.
pub proof fn lemma_empty_list_fails()
    ensures
        resolved(Seq::<MechanismView>::empty()) == Seq::<ChoiceView>::empty(),
        negotiated(Seq::<MechanismView>::empty()) == (NegotiationView::Failed {
            reason: LoginError::NoCompatibleMethod,
        }),
{
    crate::resolver::lemma_resolved_empty();
}

/// Mechanisms that resolve to exactly one choice put that choice into
/// dispatch directly: no selection is awaited, and the first request of the
/// choice is outstanding.
pub proof fn lemma_single_choice_dispatches(mechanisms: Seq<MechanismView>)
    requires
        resolved(mechanisms).len() == 1,
    ensures
        negotiated(mechanisms) == (NegotiationView::Dispatching {
            choice: resolved(mechanisms)[0],
            pending: resolved(mechanisms)[0].first_request(),
        }),
        !(negotiated(mechanisms) is AwaitingSelection),
{
}

/// Mechanisms that resolve to more than one choice leave the negotiation
/// waiting for a selection among exactly those choices.
pub proof fn lemma_several_choices_await_selection(mechanisms: Seq<MechanismView>)
    requires
        resolved(mechanisms).len() > 1,
    ensures
        negotiated(mechanisms) == (NegotiationView::AwaitingSelection {
            offered: resolved(mechanisms),
        }),
{
}

/// Selecting a choice that is not on offer fails the negotiation as an
/// invalid selection, and dispatches nothing.
pub proof fn lemma_absent_selection_is_invalid(offered: Seq<ChoiceView>, choice: ChoiceView)
    requires
        !is_offered(offered, choice),
    ensures
        (NegotiationView::AwaitingSelection { offered }).selected(choice) == (
        NegotiationView::Failed { reason: LoginError::InvalidSelection }),
        !((NegotiationView::AwaitingSelection { offered }).selected(choice) is Dispatching),
{
}

/// Selecting any of the offered choices puts it into dispatch.
pub proof fn lemma_offered_selection_dispatches(offered: Seq<ChoiceView>, at: int)
    requires
        0 <= at < offered.len(),
    ensures
        (NegotiationView::AwaitingSelection { offered }).selected(offered[at]) == dispatching(
            offered[at],
        ),
{
    assert(offered[at].same_choice(offered[at]));
}

/// An ended negotiation stays as it ended: no step, selection or reply
/// changes it.
pub proof fn lemma_terminal_is_final(state: NegotiationView, choice: ChoiceView, reply: ReplyView)
    requires
        state.is_terminal(),
    ensures
        state.advanced() == state,
        state.selected(choice) == state,
        state.answered(reply) == state,
{
}

/// Once a choice is being dispatched the negotiation never goes back: it
/// stays in dispatch or ends, whatever comes in.
pub proof fn lemma_dispatch_never_returns(
    state: NegotiationView,
    choice: ChoiceView,
    reply: ReplyView,
)
    requires
        state is Dispatching,
    ensures
        state.advanced() == state,
        state.selected(choice) == state,
        state.answered(reply) is Dispatching || state.answered(reply).is_terminal(),
        state.answered(reply) is Dispatching ==> state.answered(reply)->choice == state->choice,
{
}

/// Each failure has its place: a negotiation that was not already failed
/// fails for want of a method only when its choices are routed, as an
/// invalid selection only when a selection is taken, and as rejected or for
/// the network only when a reply comes in during dispatch.
pub proof fn lemma_failures_by_step(state: NegotiationView, choice: ChoiceView, reply: ReplyView)
    requires
        !(state is Failed),
    ensures
        state.advanced() is Failed ==> state is Resolved && state.advanced()->reason
            == LoginError::NoCompatibleMethod,
        state.selected(choice) is Failed ==> state is AwaitingSelection && state.selected(
            choice,
        )->reason == LoginError::InvalidSelection,
        state.answered(reply) is Failed ==> state is Dispatching && reply.failure() == Some(
            state.answered(reply)->reason,
        ),
{
}

/// A negotiation becomes authenticated only by a session that answers an
/// authentication request during dispatch.
pub proof fn lemma_authenticated_only_by_session(
    state: NegotiationView,
    choice: ChoiceView,
    reply: ReplyView,
)
    requires
        !(state is Authenticated),
    ensures
        !(state.advanced() is Authenticated),
        !(state.selected(choice) is Authenticated),
        state.answered(reply) is Authenticated ==> state is Dispatching
            && state->pending.authenticates() && reply == (ReplyView::Session {
            session: state.answered(reply)->session,
        }),
{
}

/// Whether `choice` is among `offered`.
fn offers(offered: &Vec<LoginChoice>, choice: &LoginChoice) -> (found: bool)
    ensures
        found == is_offered(offered.deep_view(), choice@),
{
    let mut at: usize = 0;
    while at < offered.len()
        invariant
            at <= offered.len(),
            forall|i: int| 0 <= i < at ==> !(#[trigger] offered.deep_view()[i]).same_choice(choice@),
        decreases offered.len() - at,
    {
        if offered[at] == *choice {
            assert(offered.deep_view()[at as int].same_choice(choice@));
            return true;
        }
        at += 1;
    }
    false
}

/// Puts `choice` into dispatch.
fn dispatch(choice: LoginChoice) -> (state: Negotiation)
    ensures
        state@ == dispatching(choice@),
{
    let pending = choice.login();
    Negotiation::Dispatching { choice, pending }
}

impl Negotiation {
    /// A negotiation over the mechanisms a server advertised.
    pub fn start(mechanisms: Vec<AdvertisedMechanism>) -> (state: Negotiation)
        ensures
            state@ == (NegotiationView::Start { mechanisms: mechanisms.deep_view() }),
    {
        Negotiation::Start { mechanisms }
    }

    /// Takes the next step that needs nothing from outside.
    pub fn advance(self) -> (next: Negotiation)
        ensures
            next@ == self@.advanced(),
    {
        match self {
            Negotiation::Start { mechanisms } => {
                let choices = resolve(&mechanisms);
                Negotiation::Resolved { choices }
            },
            Negotiation::Resolved { choices } => {
                let mut choices = choices;
                if choices.len() == 0 {
                    Negotiation::Failed { reason: LoginError::NoCompatibleMethod }
                } else if choices.len() == 1 {
                    dispatch(choices.remove(0))
                } else {
                    Negotiation::AwaitingSelection { offered: choices }
                }
            },
            waiting => waiting,
        }
    }

    /// Takes the caller's selection among the offered choices.
    pub fn select(self, choice: LoginChoice) -> (next: Negotiation)
        ensures
            next@ == self@.selected(choice@),
    {
        match self {
            Negotiation::AwaitingSelection { offered } => {
                if offers(&offered, &choice) {
                    dispatch(choice)
                } else {
                    Negotiation::Failed { reason: LoginError::InvalidSelection }
                }
            },
            other => other,
        }
    }

    /// Takes a collaborator's reply to the outstanding request.
    pub fn deliver(self, reply: Reply) -> (next: Negotiation)
        ensures
            next@ == self@.answered(reply@),
    {
        match self {
            Negotiation::Dispatching { choice, pending } => match pending.answer(reply) {
                Progress::Pending(next) => Negotiation::Dispatching { choice, pending: next },
                Progress::Finished(Ok(session)) => Negotiation::Authenticated { session },
                Progress::Finished(Err(reason)) => Negotiation::Failed { reason },
            },
            other => other,
        }
    }

    /// Whether the negotiation has ended.
    pub fn is_terminal(&self) -> (ended: bool)
        ensures
            ended == self@.is_terminal(),
    {
        match self {
            Negotiation::Authenticated { .. } => true,
            Negotiation::Failed { .. } => true,
            _ => false,
        }
    }

    /// The session or the failure that the negotiation ended with, or
    /// `None` while it is still under way.
    pub fn outcome(self) -> (ended: Option<Result<Session, LoginError>>)
        ensures
            match ended {
                Some(Ok(session)) => self@.outcome() == Some(Ok::<SessionView, LoginError>(session@)),
                Some(Err(reason)) => self@.outcome() == Some(Err::<SessionView, LoginError>(reason)),
                None => self@.outcome() is None,
            },
    {
        match self {
            Negotiation::Authenticated { session } => Some(Ok(session)),
            Negotiation::Failed { reason } => Some(Err(reason)),
            _ => None,
        }
    }
}

/// Negotiates a login over the mechanisms a server advertised, as far as it
/// goes without the outside: the list is resolved and the choices routed.
///
/// The result is a failure when server and client share no method, a
/// dispatch in progress when there is exactly one choice, and a wait for
/// the caller's selection when there are several.
pub fn login(mechanisms: Vec<AdvertisedMechanism>) -> (state: Negotiation)
    ensures
        state@ == negotiated(mechanisms.deep_view()),
{
    Negotiation::start(mechanisms).advance().advance()
}

} // verus!
