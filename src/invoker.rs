use vstd::prelude::*;

use crate::augment::{augmented_text, extend_ai_function};
use crate::message::{Message, SYSTEM_ROLE};
use crate::transport::TransportError;

verus! {

/// How many attempts one invocation may make: a first one and one retry.
pub const MAX_ATTEMPTS: u8 = 2;

/// Where an invocation stands.
#[derive(Debug, Clone)]
pub enum Phase {
    /// No attempt has succeeded, and one more may be made.
    Pending,
    /// An attempt returned this text.
    Succeeded(String),
    /// Both attempts failed; the second with this error.
    Failed(TransportError),
}

/// Where an invocation stands, in mathematical terms.
pub enum PhaseModel {
    Pending,
    Succeeded(Seq<char>),
    Failed(TransportError),
}

/// An invocation's state: how many attempts it made and where it stands.
pub struct InvocationModel {
    pub attempts: nat,
    pub phase: PhaseModel,
}

/// The terminal failure of an invocation whose two attempts both failed.
#[derive(Debug, Clone, Copy, PartialEq, Eq, Structural)]
pub struct FatalInvocationFailure {
    /// The error of the last attempt.
    pub last_error: TransportError,
}

/// The result of one transport attempt, in mathematical terms.
pub open spec fn attempt_model(r: Result<String, TransportError>) -> Result<Seq<char>, TransportError> {
    match r {
        Ok(s) => Ok(s@),
        Err(e) => Err(e),
    }
}

/// The state of an invocation before its first attempt.
pub open spec fn initial_model() -> InvocationModel {
    InvocationModel { attempts: 0, phase: PhaseModel::Pending }
}

/// The state after one attempt's result: a success ends the invocation, a
/// first failure leaves room for a retry, a second failure is fatal. A
/// finished invocation stays as it is.
pub open spec fn next_model(m: InvocationModel, r: Result<Seq<char>, TransportError>) -> InvocationModel {
    match m.phase {
        PhaseModel::Pending => match r {
            Ok(s) => InvocationModel { attempts: m.attempts + 1, phase: PhaseModel::Succeeded(s) },
            Err(e) => if m.attempts + 1 >= MAX_ATTEMPTS {
                InvocationModel { attempts: m.attempts + 1, phase: PhaseModel::Failed(e) }
            } else {
                InvocationModel { attempts: m.attempts + 1, phase: PhaseModel::Pending }
            },
        },
        _ => m,
    }
}

/// The state after a run of attempt results, one after another.
pub open spec fn run_model(m: InvocationModel, rs: Seq<Result<Seq<char>, TransportError>>) -> InvocationModel
    decreases rs.len(),
{
    if rs.len() == 0 {
        m
    } else {
        run_model(next_model(m, rs[0]), rs.drop_first())
    }
}

/// The states that an invocation can be in.
pub open spec fn model_wf(m: InvocationModel) -> bool {
    &&& m.attempts <= MAX_ATTEMPTS
    &&& (m.phase is Pending ==> m.attempts < MAX_ATTEMPTS)
    &&& (m.phase is Failed ==> m.attempts == MAX_ATTEMPTS)
    &&& (m.phase is Succeeded ==> m.attempts >= 1)
}

/// A failed first attempt followed by a successful retry ends the
/// invocation with the retry's text, after two attempts.
pub proof fn lemma_retry_success_is_final(e: TransportError, s: Seq<char>)
    ensures
        next_model(next_model(initial_model(), Err(e)), Ok(s)) == (InvocationModel {
            attempts: 2,
            phase: PhaseModel::Succeeded(s),
        }),
{
}

/// Two failed attempts end the invocation in the fatal failure, and no
/// later result, of whatever kind, brings a success text.
pub proof fn lemma_two_failures_are_fatal(
    e1: TransportError,
    e2: TransportError,
    rest: Seq<Result<Seq<char>, TransportError>>,
)
    ensures
        next_model(next_model(initial_model(), Err(e1)), Err(e2)) == (InvocationModel {
            attempts: 2,
            phase: PhaseModel::Failed(e2),
        }),
        run_model(next_model(next_model(initial_model(), Err(e1)), Err(e2)), rest) == (
        InvocationModel { attempts: 2, phase: PhaseModel::Failed(e2) }),
{
    lemma_finished_stays(next_model(next_model(initial_model(), Err(e1)), Err(e2)), rest);
}

/// A finished invocation is left as it is by any further results.
pub proof fn lemma_finished_stays(m: InvocationModel, rs: Seq<Result<Seq<char>, TransportError>>)
    requires
        m.phase.is_terminal(),
    ensures
        run_model(m, rs) == m,
    decreases rs.len(),
{
    if rs.len() > 0 {
        lemma_finished_stays(next_model(m, rs[0]), rs.drop_first());
    }
}

/// Whatever the attempts return, an invocation stays in a reachable state:
/// it makes at most two attempts, one first attempt and at most one retry.
pub proof fn lemma_at_most_one_retry(m: InvocationModel, rs: Seq<Result<Seq<char>, TransportError>>)
    requires
        model_wf(m),
    ensures
        model_wf(run_model(m, rs)),
        run_model(m, rs).attempts <= MAX_ATTEMPTS,
    decreases rs.len(),
{
    if rs.len() > 0 {
        lemma_at_most_one_retry(next_model(m, rs[0]), rs.drop_first());
    }
}

/// One task's execution: the augmented message that each attempt sends, and
/// where the attempts stand.
#[derive(Debug, Clone)]
pub struct Invocation {
    message: Message,
    attempts: u8,
    phase: Phase,
}

impl PhaseModel {
    pub open spec fn is_terminal(self) -> bool {
        !(self is Pending)
    }
}

impl Invocation {
    /// The invocation's state.
    pub closed spec fn model(&self) -> InvocationModel {
        InvocationModel {
            attempts: self.attempts as nat,
            phase: match self.phase {
                Phase::Pending => PhaseModel::Pending,
                Phase::Succeeded(s) => PhaseModel::Succeeded(s@),
                Phase::Failed(e) => PhaseModel::Failed(e),
            },
        }
    }

    /// The message that every attempt sends.
    pub closed spec fn sent_message(&self) -> Message {
        self.message
    }

    /// The invocation is in a reachable state.
    pub open spec fn wf(&self) -> bool {
        model_wf(self.model())
    }

    /// A new invocation that will send `message`.
    pub fn new(message: Message) -> (r: Invocation)
        ensures
            r.wf(),
            r.model() == initial_model(),
            r.sent_message() == message,
    {
        Invocation { message, attempts: 0, phase: Phase::Pending }
    }

    /// A new invocation of a prompt template on an input: it will send the
    /// augmented system message.
    pub fn start<F: Fn(&str) -> &'static str>(template: F, input: &str) -> (r: Invocation)
        requires
            call_requires(template, (input,)),
        ensures
            r.wf(),
            r.model() == initial_model(),
            r.sent_message().role@ == SYSTEM_ROLE@,
            exists|t: &str|
                call_ensures(template, (input,), t) && r.sent_message().content@ == augmented_text(
                    t@,
                    input@,
                ),
    {
        Invocation::new(extend_ai_function(template, input))
    }

    /// The messages of the next attempt, or `None` once the invocation has
    /// finished. Every attempt sends the same single message.
    pub fn next_request(&self) -> (r: Option<Vec<Message>>)
        requires
            self.wf(),
        ensures
            r is Some <==> self.model().phase is Pending,
            r is Some ==> r->Some_0@.len() == 1 && r->Some_0@[0].role@ == self.sent_message().role@
                && r->Some_0@[0].content@ == self.sent_message().content@,
    {
        match self.phase {
            Phase::Pending => {
                let mut v: Vec<Message> = Vec::new();
                v.push(self.message.duplicate());
                Some(v)
            },
            _ => None,
        }
    }

    /// Records the result of the attempt that `next_request` asked for.
    pub fn record_attempt(&mut self, result: Result<String, TransportError>)
        requires
            old(self).wf(),
            old(self).model().phase is Pending,
        ensures
            final(self).wf(),
            final(self).model() == next_model(old(self).model(), attempt_model(result)),
            final(self).sent_message() == old(self).sent_message(),
    {
        self.attempts = self.attempts + 1;
        match result {
            Ok(s) => {
                self.phase = Phase::Succeeded(s);
            },
            Err(e) => {
                if self.attempts >= MAX_ATTEMPTS {
                    self.phase = Phase::Failed(e);
                }
            },
        }
    }

    /// How many attempts were made.
    pub fn attempts(&self) -> (r: u8)
        ensures
            r as nat == self.model().attempts,
    {
        self.attempts
    }

    /// The invocation's outcome: `None` while an attempt may still be made,
    /// the success text, or the fatal failure after two failed attempts.
    pub fn outcome(&self) -> (r: Option<Result<String, FatalInvocationFailure>>)
        ensures
            r is None <==> self.model().phase is Pending,
            forall|e: TransportError|
                self.model().phase == PhaseModel::Failed(e) <==> r == Some(
                    Err::<String, FatalInvocationFailure>(FatalInvocationFailure { last_error: e }),
                ),
            forall|s: Seq<char>|
                self.model().phase == PhaseModel::Succeeded(s) <==> (r is Some && r->Some_0 is Ok
                    && r->Some_0->Ok_0@ == s),
    {
        match &self.phase {
            Phase::Pending => None,
            Phase::Succeeded(s) => Some(Ok(s.clone())),
            Phase::Failed(e) => Some(Err(FatalInvocationFailure { last_error: *e })),
        }
    }
}

} // verus!
