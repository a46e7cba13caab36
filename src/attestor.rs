use vstd::prelude::*;
use crate::blocks::{commitment_of, ApiResponse};
use crate::identity::{operator_id_from_key, operator_id_of, PublicKeyPoint};
use crate::task::{digest_of, task_response_digest, SignedTaskResponse, TaskResponse};

verus! {

/// Why the block data could not be had.
pub enum FetchError {
    Network,
    Parse,
}

/// Why the aggregator did not take a signed response.
pub enum SubmissionError {
    Unreachable,
    Rejected,
}

/// What the key store gave for the operator's BLS key: no key configured, a
/// secret that could not be read, a secret that makes no key pair, or the
/// public key of the pair it makes.
pub enum KeyLookup {
    Missing,
    Unreadable,
    Malformed,
    Ready(PublicKeyPoint),
}

/// The result of the outside work that the last action asked for.
pub enum Event {
    Fetched(Result<ApiResponse, FetchError>),
    KeyLoaded(KeyLookup),
    Signed(Vec<u8>),
    Submitted(Result<(), SubmissionError>),
}

/// The outside work to do next, or the outcome code of the run.
pub enum Action {
    FetchData,
    LoadKey,
    Sign([u8; 32]),
    Submit(SignedTaskResponse),
    Finish(u32),
}

/// Where a run stands: what it waits for, with what it has built so far.
#[derive(Clone, Copy)]
pub enum Stage {
    FetchingData,
    LoadingKey(TaskResponse),
    Signing(TaskResponse, [u8; 32]),
    Submitting,
    Done(u32),
}

/// One run of the fetch, sign and submit pipeline for a task.
pub struct TaskAttestor {
    pub task_index: u32,
    pub stage: Stage,
}

/// The run ends with outcome code `c`.
pub open spec fn finishes(n: Stage, a: Action, c: u32) -> bool {
    n == Stage::Done(c) && a == Action::Finish(c)
}

/// The step from stage `s` on event `e`, for task `task_index`, leads to
/// stage `n` with action `a`.
pub open spec fn transition(task_index: u32, s: Stage, e: Event, n: Stage, a: Action) -> bool {
    match s {
        Stage::FetchingData => match e {
            Event::Fetched(Ok(resp)) => {
                &&& n is LoadingKey
                &&& n->LoadingKey_0.reference_task_index == task_index
                &&& n->LoadingKey_0.result_hash@ == commitment_of(resp.data@)
                &&& a == Action::LoadKey
            },
            _ => finishes(n, a, 0),
        },
        Stage::LoadingKey(tr) => match e {
            Event::KeyLoaded(KeyLookup::Ready(pk)) => {
                &&& n is Signing
                &&& n->Signing_0 == tr
                &&& n->Signing_1@ == operator_id_of(pk.x@, pk.y@)
                &&& a is Sign
                &&& a->Sign_0@ == digest_of(tr)
            },
            _ => finishes(n, a, 0),
        },
        Stage::Signing(tr, id) => match e {
            Event::Signed(sig) => {
                &&& n == Stage::Submitting
                &&& a == Action::Submit(
                    SignedTaskResponse { task_response: tr, signature: sig, operator_id: id },
                )
            },
            _ => finishes(n, a, 0),
        },
        Stage::Submitting => match e {
            Event::Submitted(Ok(())) => finishes(n, a, 1),
            _ => finishes(n, a, 0),
        },
        Stage::Done(c) => finishes(n, a, c),
    }
}

impl TaskAttestor {
    /// Starts a run for task `task_index`; its first action is to fetch the
    /// block data.
    pub fn new(task_index: u32) -> (r: TaskAttestor)
        ensures
            r.task_index == task_index,
            r.stage == Stage::FetchingData,
    {
        TaskAttestor { task_index, stage: Stage::FetchingData }
    }

    /// The outcome code, once the run is over.
    pub fn outcome(&self) -> (r: Option<u32>)
        ensures
            self.stage is Done ==> r == Some(self.stage->Done_0),
            !(self.stage is Done) ==> r is None,
    {
        match self.stage {
            Stage::Done(c) => Some(c),
            _ => None,
        }
    }

    /// Takes the result of the last action and decides the next one. Any
    /// failure, and any event that the stage does not wait for, ends the run
    /// with outcome 0; a confirmed submission ends it with 1.
    pub fn step(&mut self, e: Event) -> (a: Action)
        ensures
            final(self).task_index == old(self).task_index,
            transition(old(self).task_index, old(self).stage, e, final(self).stage, a),
    {
        let s = self.stage;
        match s {
            Stage::FetchingData => match e {
                Event::Fetched(Ok(resp)) => {
                    let tr = TaskResponse {
                        reference_task_index: self.task_index,
                        result_hash: resp.commitment(),
                    };
                    self.stage = Stage::LoadingKey(tr);
                    Action::LoadKey
                },
                _ => self.finish(0),
            },
            Stage::LoadingKey(tr) => match e {
                Event::KeyLoaded(KeyLookup::Ready(pk)) => {
                    let id = operator_id_from_key(&pk);
                    self.stage = Stage::Signing(tr, id);
                    Action::Sign(task_response_digest(&tr))
                },
                _ => self.finish(0),
            },
            Stage::Signing(tr, id) => match e {
                Event::Signed(sig) => {
                    self.stage = Stage::Submitting;
                    Action::Submit(
                        SignedTaskResponse { task_response: tr, signature: sig, operator_id: id },
                    )
                },
                _ => self.finish(0),
            },
            Stage::Submitting => match e {
                Event::Submitted(Ok(())) => self.finish(1),
                _ => self.finish(0),
            },
            Stage::Done(c) => self.finish(c),
        }
    }

    fn finish(&mut self, c: u32) -> (a: Action)
        ensures
            final(self).task_index == old(self).task_index,
            finishes(final(self).stage, a, c),
    {
        self.stage = Stage::Done(c);
        Action::Finish(c)
    }
}

/// The event is a failure at the stage that waits for it: a failed fetch, a
/// key that is missing, unreadable or malformed, or a failed submission.
pub open spec fn is_failure(s: Stage, e: Event) -> bool {
    ||| (s is FetchingData && e is Fetched && e->Fetched_0 is Err)
    ||| (s is LoadingKey && e is KeyLoaded && !(e->KeyLoaded_0 is Ready))
    ||| (s is Submitting && e is Submitted && e->Submitted_0 is Err)
}

/// Every failure, at whichever stage, ends the run with outcome 0.
pub proof fn lemma_failures_collapse(task_index: u32, s: Stage, e: Event, n: Stage, a: Action)
    requires
        transition(task_index, s, e, n, a),
        is_failure(s, e),
    ensures
        n == Stage::Done(0),
        a == Action::Finish(0),
{
}

/// A confirmed submission ends the run with outcome 1.
pub proof fn lemma_submission_reports_one(task_index: u32, n: Stage, a: Action)
    requires
        transition(task_index, Stage::Submitting, Event::Submitted(Ok(())), n, a),
    ensures
        n == Stage::Done(1),
        a == Action::Finish(1),
{
}

/// Outcome codes are binary: from a stage whose outcome, if any, is 0 or 1,
/// every step leads to a stage and action whose outcome, if any, is 0 or 1.
pub proof fn lemma_outcome_binary(task_index: u32, s: Stage, e: Event, n: Stage, a: Action)
    requires
        transition(task_index, s, e, n, a),
        s is Done ==> s->Done_0 <= 1,
    ensures
        n is Done ==> n->Done_0 <= 1,
        a is Finish ==> a->Finish_0 <= 1,
{
}


/// A run in which the fetch, the key lookup, the signing and the submission
/// all succeed ends with outcome 1, after asking in turn for the key, for a
/// signature over the response's digest, and for the submission of the signed
/// response.
pub proof fn lemma_successful_run(
    task_index: u32,
    resp: ApiResponse,
    pk: PublicKeyPoint,
    sig: Vec<u8>,
    s1: Stage, a1: Action,
    s2: Stage, a2: Action,
    s3: Stage, a3: Action,
    s4: Stage, a4: Action,
)
    requires
        transition(task_index, Stage::FetchingData, Event::Fetched(Ok(resp)), s1, a1),
        transition(task_index, s1, Event::KeyLoaded(KeyLookup::Ready(pk)), s2, a2),
        transition(task_index, s2, Event::Signed(sig), s3, a3),
        transition(task_index, s3, Event::Submitted(Ok(())), s4, a4),
    ensures
        a1 == Action::LoadKey,
        a2 is Sign,
        a3 is Submit,
        a3->Submit_0.task_response.reference_task_index == task_index,
        a3->Submit_0.task_response.result_hash@ == commitment_of(resp.data@),
        a3->Submit_0.operator_id@ == operator_id_of(pk.x@, pk.y@),
        a3->Submit_0.signature == sig,
        a2->Sign_0@ == digest_of(a3->Submit_0.task_response),
        s4 == Stage::Done(1),
        a4 == Action::Finish(1),
{
}

} // verus!
