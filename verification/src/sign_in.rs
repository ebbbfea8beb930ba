//! The interactive sign-in flow, as an explicit state machine.
//!
//! The machine owns every decision of the flow: which prompt to issue,
//! which remote call to make next, whether a failure is recoverable (a
//! demanded second factor), absorbed (a session that would not persist) or
//! fatal. The driver performs the pending action of the current state —
//! a prompt, a challenge round-trip, a save — and feeds the outcome back
//! in as a [`SignInEvent`]; [`sign_in_step`] then yields the next state.
//!
//! The flow ends in [`SignInState::Done`], carrying the sign-out flag: true
//! exactly when the freshly authorized session could not be persisted, so
//! the dispatch loop must invalidate the remote session before exiting.

use vstd::prelude::*;
use vstd::pervasive::unreached;
use vstd::string::StringExecFns;

verus! {

/// Where the sign-in flow stands; each non-terminal state has one pending
/// action, given by [`sign_in_action`].
#[derive(Debug, PartialEq, Eq)]
pub enum SignInState {
    /// Asking the connection whether the session is already authorized.
    CheckingAuthorization,
    /// Prompting for the identifying credential (phone-equivalent).
    AwaitingIdentifier,
    /// Requesting a one-time login challenge keyed to the identifier.
    RequestingChallenge,
    /// Prompting for the challenge response code.
    AwaitingCode,
    /// Submitting the code to the remote side.
    SubmittingCode,
    /// Prompting for the second factor; `hint` came with the demand.
    AwaitingSecondFactor { hint: Option<String> },
    /// Submitting the second factor to the remote side.
    SubmittingSecondFactor,
    /// Persisting the updated session bytes.
    SavingSession,
    /// Terminal: the connection is authorized. `sign_out` is true exactly
    /// when the session could not be persisted.
    Done { sign_out: bool },
    /// Terminal: an unrecoverable remote failure; propagated, never retried.
    Failed,
}

/// What the driver reports back after performing the pending action.
#[derive(Debug, PartialEq, Eq)]
pub enum SignInEvent {
    /// Answer to the authorization query.
    AuthorizationChecked { authorized: bool },
    /// The identifier prompt was answered.
    IdentifierEntered,
    /// The login challenge was issued.
    ChallengeIssued,
    /// The login challenge could not be issued.
    ChallengeRefused,
    /// The code prompt was answered.
    CodeEntered,
    /// The code was accepted; the session is authorized.
    CodeAccepted,
    /// The remote side demands a second factor before accepting the code.
    SecondFactorDemanded { hint: Option<String> },
    /// The code was rejected for any other reason.
    CodeRefused,
    /// The second-factor prompt was answered.
    SecondFactorEntered,
    /// The second factor was accepted; the session is authorized.
    SecondFactorAccepted,
    /// The second factor was rejected.
    SecondFactorRefused,
    /// The session bytes were saved (`ok`), or could not be (`!ok`).
    SessionSaved { ok: bool },
}

/// The pending action of a state: what the driver must perform before it
/// can feed the next event in.
#[derive(Clone, Copy, Debug, PartialEq, Eq, Structural)]
pub enum SignInAction {
    /// Query the connection for its authorization status.
    QueryAuthorization,
    /// Issue the identifier prompt.
    PromptIdentifier,
    /// Request a login challenge keyed to the entered identifier.
    RequestChallenge,
    /// Issue the code prompt.
    PromptCode,
    /// Submit the entered code.
    SubmitCode,
    /// Issue the second-factor prompt (the hint is in the state).
    PromptSecondFactor,
    /// Submit the entered second factor.
    SubmitSecondFactor,
    /// Persist the session bytes.
    SaveSession,
    /// The flow is over; hand `sign_out` to the dispatch loop.
    Finish { sign_out: bool },
    /// The flow failed; terminate the process.
    Abort,
}

/// One of the three prompts the flow can issue.
#[derive(Clone, Copy, Debug, PartialEq, Eq, Structural)]
pub enum PromptKind {
    Identifier,
    Code,
    SecondFactor,
}

/// Every flow starts by checking the current authorization status.
pub open spec fn sign_in_initial_spec() -> SignInState {
    SignInState::CheckingAuthorization
}

/// Whether `e` answers the pending action of `s`. Terminal states accept
/// no event.
pub open spec fn sign_in_event_fits(s: SignInState, e: SignInEvent) -> bool {
    match (s, e) {
        (SignInState::CheckingAuthorization, SignInEvent::AuthorizationChecked { .. }) => true,
        (SignInState::AwaitingIdentifier, SignInEvent::IdentifierEntered) => true,
        (SignInState::RequestingChallenge, SignInEvent::ChallengeIssued) => true,
        (SignInState::RequestingChallenge, SignInEvent::ChallengeRefused) => true,
        (SignInState::AwaitingCode, SignInEvent::CodeEntered) => true,
        (SignInState::SubmittingCode, SignInEvent::CodeAccepted) => true,
        (SignInState::SubmittingCode, SignInEvent::SecondFactorDemanded { .. }) => true,
        (SignInState::SubmittingCode, SignInEvent::CodeRefused) => true,
        (SignInState::AwaitingSecondFactor { .. }, SignInEvent::SecondFactorEntered) => true,
        (SignInState::SubmittingSecondFactor, SignInEvent::SecondFactorAccepted) => true,
        (SignInState::SubmittingSecondFactor, SignInEvent::SecondFactorRefused) => true,
        (SignInState::SavingSession, SignInEvent::SessionSaved { .. }) => true,
        _ => false,
    }
}

/// The transition relation of the flow.
///
/// An already-authorized session ends the flow at once with `sign_out =
/// false`; a demanded second factor diverts to one more prompt; a failed
/// save is absorbed into `sign_out = true`; a refused challenge, code or
/// second factor is fatal.
pub open spec fn sign_in_next(s: SignInState, e: SignInEvent) -> SignInState
    recommends
        sign_in_event_fits(s, e),
{
    match (s, e) {
        (SignInState::CheckingAuthorization, SignInEvent::AuthorizationChecked { authorized }) => {
            if authorized {
                SignInState::Done { sign_out: false }
            } else {
                SignInState::AwaitingIdentifier
            }
        },
        (SignInState::AwaitingIdentifier, SignInEvent::IdentifierEntered) => SignInState::RequestingChallenge,
        (SignInState::RequestingChallenge, SignInEvent::ChallengeIssued) => SignInState::AwaitingCode,
        (SignInState::RequestingChallenge, SignInEvent::ChallengeRefused) => SignInState::Failed,
        (SignInState::AwaitingCode, SignInEvent::CodeEntered) => SignInState::SubmittingCode,
        (SignInState::SubmittingCode, SignInEvent::CodeAccepted) => SignInState::SavingSession,
        (SignInState::SubmittingCode, SignInEvent::SecondFactorDemanded { hint }) => {
            SignInState::AwaitingSecondFactor { hint }
        },
        (SignInState::SubmittingCode, SignInEvent::CodeRefused) => SignInState::Failed,
        (SignInState::AwaitingSecondFactor { .. }, SignInEvent::SecondFactorEntered) => {
            SignInState::SubmittingSecondFactor
        },
        (SignInState::SubmittingSecondFactor, SignInEvent::SecondFactorAccepted) => SignInState::SavingSession,
        (SignInState::SubmittingSecondFactor, SignInEvent::SecondFactorRefused) => SignInState::Failed,
        (SignInState::SavingSession, SignInEvent::SessionSaved { ok }) => {
            SignInState::Done { sign_out: !ok }
        },
        _ => SignInState::Failed,
    }
}

/// The pending action of each state.
pub open spec fn sign_in_pending(s: SignInState) -> SignInAction {
    match s {
        SignInState::CheckingAuthorization => SignInAction::QueryAuthorization,
        SignInState::AwaitingIdentifier => SignInAction::PromptIdentifier,
        SignInState::RequestingChallenge => SignInAction::RequestChallenge,
        SignInState::AwaitingCode => SignInAction::PromptCode,
        SignInState::SubmittingCode => SignInAction::SubmitCode,
        SignInState::AwaitingSecondFactor { .. } => SignInAction::PromptSecondFactor,
        SignInState::SubmittingSecondFactor => SignInAction::SubmitSecondFactor,
        SignInState::SavingSession => SignInAction::SaveSession,
        SignInState::Done { sign_out } => SignInAction::Finish { sign_out },
        SignInState::Failed => SignInAction::Abort,
    }
}

/// The flow is over, successfully or not.
pub open spec fn sign_in_terminal(s: SignInState) -> bool {
    s is Done || s is Failed
}

/// The state every sign-in flow starts in.
pub fn sign_in_initial() -> (s: SignInState)
    ensures
        s == sign_in_initial_spec(),
{
    SignInState::CheckingAuthorization
}

/// Advances the flow by one step: consumes the event that answers the
/// current state's pending action and returns the next state.
pub fn sign_in_step(s: SignInState, e: SignInEvent) -> (r: SignInState)
    requires
        sign_in_event_fits(s, e),
    ensures
        r == sign_in_next(s, e),
{
    match s {
        SignInState::CheckingAuthorization => match e {
            SignInEvent::AuthorizationChecked { authorized } => {
                if authorized {
                    SignInState::Done { sign_out: false }
                } else {
                    SignInState::AwaitingIdentifier
                }
            },
            _ => unreached(),
        },
        SignInState::AwaitingIdentifier => match e {
            SignInEvent::IdentifierEntered => SignInState::RequestingChallenge,
            _ => unreached(),
        },
        SignInState::RequestingChallenge => match e {
            SignInEvent::ChallengeIssued => SignInState::AwaitingCode,
            SignInEvent::ChallengeRefused => SignInState::Failed,
            _ => unreached(),
        },
        SignInState::AwaitingCode => match e {
            SignInEvent::CodeEntered => SignInState::SubmittingCode,
            _ => unreached(),
        },
        SignInState::SubmittingCode => match e {
            SignInEvent::CodeAccepted => SignInState::SavingSession,
            SignInEvent::SecondFactorDemanded { hint } => SignInState::AwaitingSecondFactor { hint },
            SignInEvent::CodeRefused => SignInState::Failed,
            _ => unreached(),
        },
        SignInState::AwaitingSecondFactor { hint: _ } => match e {
            SignInEvent::SecondFactorEntered => SignInState::SubmittingSecondFactor,
            _ => unreached(),
        },
        SignInState::SubmittingSecondFactor => match e {
            SignInEvent::SecondFactorAccepted => SignInState::SavingSession,
            SignInEvent::SecondFactorRefused => SignInState::Failed,
            _ => unreached(),
        },
        SignInState::SavingSession => match e {
            SignInEvent::SessionSaved { ok } => SignInState::Done { sign_out: !ok },
            _ => unreached(),
        },
        SignInState::Done { sign_out: _ } => unreached(),
        SignInState::Failed => unreached(),
    }
}

/// The text of the identifier prompt.
pub open spec fn identifier_prompt_text() -> Seq<char> {
    "Enter your phone number (international format): "@
}

/// The text of the code prompt.
pub open spec fn code_prompt_text() -> Seq<char> {
    "Enter the code you received: "@
}

/// What the second-factor prompt displays for the hint: the hint itself,
/// or a fixed fallback text when the demand carried none.
pub open spec fn second_factor_hint_text(hint: Option<Seq<char>>) -> Seq<char> {
    match hint {
        Option::Some(h) => h,
        Option::None => "None"@,
    }
}

/// The text of the second-factor prompt, with the hint embedded.
pub open spec fn second_factor_prompt_text(hint: Option<Seq<char>>) -> Seq<char> {
    "Enter the password (hint "@ + second_factor_hint_text(hint) + "): "@
}

/// The view of an optional hint string.
pub open spec fn hint_view(hint: Option<String>) -> Option<Seq<char>> {
    match hint {
        Option::Some(h) => Option::Some(h@),
        Option::None => Option::None,
    }
}

/// The identifier prompt, as shown to the user.
pub fn identifier_prompt() -> (r: String)
    ensures
        r@ == identifier_prompt_text(),
{
    String::from_str("Enter your phone number (international format): ")
}

/// The code prompt, as shown to the user.
pub fn code_prompt() -> (r: String)
    ensures
        r@ == code_prompt_text(),
{
    String::from_str("Enter the code you received: ")
}

/// The second-factor prompt, as shown to the user: it embeds the hint the
/// demand carried, or the fallback text when there was none.
pub fn second_factor_prompt(hint: &Option<String>) -> (r: String)
    ensures
        r@ == second_factor_prompt_text(hint_view(*hint)),
{
    let mut text = String::from_str("Enter the password (hint ");
    match hint {
        Option::Some(h) => text.append(h.as_str()),
        Option::None => text.append("None"),
    }
    text.append("): ");
    text
}

/// The hint always appears verbatim inside the second-factor prompt,
/// right after the fixed prefix.
pub proof fn lemma_second_factor_prompt_shows_hint(hint: Seq<char>)
    ensures
        second_factor_prompt_text(Option::Some(hint)).subrange(
            25,
            25 + hint.len() as int,
        ) == hint,
{
    reveal_strlit("Enter the password (hint ");
    assert(second_factor_prompt_text(Option::Some(hint)).subrange(25, 25 + hint.len() as int)
        =~= hint);
}

/// The pending action of the current state, for the driver to perform.
pub fn sign_in_action(s: &SignInState) -> (a: SignInAction)
    ensures
        a == sign_in_pending(*s),
{
    match s {
        SignInState::CheckingAuthorization => SignInAction::QueryAuthorization,
        SignInState::AwaitingIdentifier => SignInAction::PromptIdentifier,
        SignInState::RequestingChallenge => SignInAction::RequestChallenge,
        SignInState::AwaitingCode => SignInAction::PromptCode,
        SignInState::SubmittingCode => SignInAction::SubmitCode,
        SignInState::AwaitingSecondFactor { .. } => SignInAction::PromptSecondFactor,
        SignInState::SubmittingSecondFactor => SignInAction::SubmitSecondFactor,
        SignInState::SavingSession => SignInAction::SaveSession,
        SignInState::Done { sign_out } => SignInAction::Finish { sign_out: *sign_out },
        SignInState::Failed => SignInAction::Abort,
    }
}

/// The state after consuming a whole sequence of events.
pub open spec fn sign_in_run(s: SignInState, evs: Seq<SignInEvent>) -> SignInState
    decreases evs.len(),
{
    if evs.len() == 0 {
        s
    } else {
        sign_in_run(sign_in_next(s, evs[0]), evs.drop_first())
    }
}

/// Whether every event of the sequence answers, in turn, the pending
/// action of the state it meets: the sequence is a well-formed run.
pub open spec fn sign_in_run_fits(s: SignInState, evs: Seq<SignInEvent>) -> bool
    decreases evs.len(),
{
    evs.len() == 0 || {
        &&& sign_in_event_fits(s, evs[0])
        &&& sign_in_run_fits(sign_in_next(s, evs[0]), evs.drop_first())
    }
}

/// The prompt a state is waiting on, if any.
pub open spec fn prompt_of(s: SignInState) -> Option<PromptKind> {
    match s {
        SignInState::AwaitingIdentifier => Option::Some(PromptKind::Identifier),
        SignInState::AwaitingCode => Option::Some(PromptKind::Code),
        SignInState::AwaitingSecondFactor { .. } => Option::Some(PromptKind::SecondFactor),
        _ => Option::None,
    }
}

/// The prompts a run issues, in order: one per prompting state whose
/// answer the run consumes.
pub open spec fn prompts_issued(s: SignInState, evs: Seq<SignInEvent>) -> Seq<PromptKind>
    decreases evs.len(),
{
    if evs.len() == 0 {
        Seq::empty()
    } else {
        let rest = prompts_issued(sign_in_next(s, evs[0]), evs.drop_first());
        match prompt_of(s) {
            Option::Some(k) => seq![k] + rest,
            Option::None => rest,
        }
    }
}

/// Whether the remote side demanded a second factor somewhere in the run.
pub open spec fn demands_second_factor(evs: Seq<SignInEvent>) -> bool
    decreases evs.len(),
{
    evs.len() > 0 && {
        ||| evs[0] is SecondFactorDemanded
        ||| demands_second_factor(evs.drop_first())
    }
}

/// Whether the run contains a failed attempt to persist the session.
pub open spec fn save_failed(evs: Seq<SignInEvent>) -> bool
    decreases evs.len(),
{
    evs.len() > 0 && {
        ||| evs[0] matches SignInEvent::SessionSaved { ok: false }
        ||| save_failed(evs.drop_first())
    }
}

/// Whether the run contains a successful persist of the session.
pub open spec fn save_succeeded(evs: Seq<SignInEvent>) -> bool
    decreases evs.len(),
{
    evs.len() > 0 && {
        ||| evs[0] matches SignInEvent::SessionSaved { ok: true }
        ||| save_succeeded(evs.drop_first())
    }
}

/// The two prompts every interactive sign-in issues, in order.
pub open spec fn prompt_sequence_basic() -> Seq<PromptKind> {
    seq![PromptKind::Identifier, PromptKind::Code]
}

/// The three prompts a sign-in with a demanded second factor issues, in
/// order.
pub open spec fn prompt_sequence_full() -> Seq<PromptKind> {
    seq![PromptKind::Identifier, PromptKind::Code, PromptKind::SecondFactor]
}

/// Relates a state to the prompts issued on the way to it (`acc`) and to
/// whether a second factor was demanded on the way (`sf`).
spec fn prompt_shape(s: SignInState, sf: bool, acc: Seq<PromptKind>) -> bool {
    match s {
        SignInState::CheckingAuthorization => !sf && acc =~= Seq::<PromptKind>::empty(),
        SignInState::AwaitingIdentifier => !sf && acc =~= Seq::<PromptKind>::empty(),
        SignInState::RequestingChallenge => !sf && acc =~= seq![PromptKind::Identifier],
        SignInState::AwaitingCode => !sf && acc =~= seq![PromptKind::Identifier],
        SignInState::SubmittingCode => !sf && acc =~= prompt_sequence_basic(),
        SignInState::AwaitingSecondFactor { .. } => sf && acc =~= prompt_sequence_basic(),
        SignInState::SubmittingSecondFactor => sf && acc =~= prompt_sequence_full(),
        SignInState::SavingSession => {
            if sf {
                acc =~= prompt_sequence_full()
            } else {
                acc =~= prompt_sequence_basic()
            }
        },
        SignInState::Done { .. } => {
            if sf {
                acc =~= prompt_sequence_full()
            } else {
                acc =~= Seq::<PromptKind>::empty() || acc =~= prompt_sequence_basic()
            }
        },
        SignInState::Failed => {
            if sf {
                acc =~= prompt_sequence_full()
            } else {
                acc =~= seq![PromptKind::Identifier] || acc =~= prompt_sequence_basic()
            }
        },
    }
}

/// The shape above is an invariant of every well-formed run.
proof fn lemma_prompt_shape_run(s: SignInState, sf: bool, acc: Seq<PromptKind>, evs: Seq<SignInEvent>)
    requires
        sign_in_run_fits(s, evs),
        prompt_shape(s, sf, acc),
    ensures
        prompt_shape(
            sign_in_run(s, evs),
            sf || demands_second_factor(evs),
            acc + prompts_issued(s, evs),
        ),
    decreases evs.len(),
{
    if evs.len() == 0 {
        assert(acc + prompts_issued(s, evs) =~= acc);
    } else {
        let e = evs[0];
        let s2 = sign_in_next(s, e);
        let sf2 = sf || (e is SecondFactorDemanded);
        let here: Seq<PromptKind> = match prompt_of(s) {
            Option::Some(k) => seq![k],
            Option::None => Seq::empty(),
        };
        let acc2 = acc + here;
        assert(acc2 + prompts_issued(s2, evs.drop_first())
            =~= acc + prompts_issued(s, evs));
        assert(prompt_shape(s2, sf2, acc2));
        lemma_prompt_shape_run(s2, sf2, acc2, evs.drop_first());
    }
}

/// In a run where the remote side demanded a second factor, the prompts
/// issued are the identifier, the code and the second factor, in that
/// order: two of them while the demand is still being answered, exactly
/// those three once the flow has reached a terminal state — never another
/// prompt, never another order.
pub proof fn lemma_second_factor_prompt_order(evs: Seq<SignInEvent>)
    requires
        sign_in_run_fits(sign_in_initial_spec(), evs),
        demands_second_factor(evs),
    ensures
        prompts_issued(sign_in_initial_spec(), evs) =~= prompt_sequence_basic()
            || prompts_issued(sign_in_initial_spec(), evs) =~= prompt_sequence_full(),
        sign_in_terminal(sign_in_run(sign_in_initial_spec(), evs))
            ==> prompts_issued(sign_in_initial_spec(), evs) =~= prompt_sequence_full(),
{
    lemma_prompt_shape_run(sign_in_initial_spec(), false, Seq::empty(), evs);
    assert(Seq::<PromptKind>::empty() + prompts_issued(sign_in_initial_spec(), evs)
        =~= prompts_issued(sign_in_initial_spec(), evs));
}

/// A failed session save is absorbed, never fatal: the flow still
/// completes, with the sign-out flag raised.
pub proof fn lemma_failed_save_raises_sign_out(s: SignInState, evs: Seq<SignInEvent>)
    requires
        sign_in_run_fits(s, evs),
        save_failed(evs),
    ensures
        sign_in_run(s, evs) == (SignInState::Done { sign_out: true }),
    decreases evs.len(),
{
    let e = evs[0];
    let s2 = sign_in_next(s, e);
    let rest = evs.drop_first();
    match e {
        SignInEvent::SessionSaved { ok: false } => {
            assert(s is SavingSession);
            assert(s2 == (SignInState::Done { sign_out: true }));
            assert(sign_in_run_fits(s2, rest));
            if rest.len() > 0 {
                assert(sign_in_event_fits(s2, rest[0]));
                assert(false);
            }
            assert(sign_in_run(s2, rest) == s2);
        },
        _ => {
            assert(save_failed(rest));
            lemma_failed_save_raises_sign_out(s2, rest);
        },
    }
}

/// A successful session save completes the flow with the sign-out flag
/// clear.
pub proof fn lemma_successful_save_clears_sign_out(s: SignInState, evs: Seq<SignInEvent>)
    requires
        sign_in_run_fits(s, evs),
        save_succeeded(evs),
    ensures
        sign_in_run(s, evs) == (SignInState::Done { sign_out: false }),
    decreases evs.len(),
{
    let e = evs[0];
    let s2 = sign_in_next(s, e);
    let rest = evs.drop_first();
    match e {
        SignInEvent::SessionSaved { ok: true } => {
            assert(s is SavingSession);
            assert(s2 == (SignInState::Done { sign_out: false }));
            assert(sign_in_run_fits(s2, rest));
            if rest.len() > 0 {
                assert(sign_in_event_fits(s2, rest[0]));
                assert(false);
            }
            assert(sign_in_run(s2, rest) == s2);
        },
        _ => {
            assert(save_succeeded(rest));
            lemma_successful_save_clears_sign_out(s2, rest);
        },
    }
}

/// A pre-authorized session ends the flow at once: no prompt is ever
/// issued, and the sign-out flag is false.
pub proof fn lemma_preauthorized_no_prompts(evs: Seq<SignInEvent>)
    requires
        sign_in_run_fits(sign_in_initial_spec(), evs),
        evs.len() > 0,
        evs[0] == (SignInEvent::AuthorizationChecked { authorized: true }),
    ensures
        evs.len() == 1,
        sign_in_run(sign_in_initial_spec(), evs) == (SignInState::Done { sign_out: false }),
        prompts_issued(sign_in_initial_spec(), evs) =~= Seq::<PromptKind>::empty(),
{
    let s1 = sign_in_next(sign_in_initial_spec(), evs[0]);
    assert(s1 == (SignInState::Done { sign_out: false }));
    let rest = evs.drop_first();
    assert(sign_in_run_fits(s1, rest));
    if rest.len() > 0 {
        assert(sign_in_event_fits(s1, rest[0]));
        assert(false);
    }
    assert(sign_in_run(s1, rest) == s1);
    assert(prompts_issued(s1, rest) =~= Seq::<PromptKind>::empty());
    assert(prompts_issued(sign_in_initial_spec(), evs) == prompts_issued(s1, rest));
}

} // verus!
