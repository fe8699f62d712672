//! The question resolution engine.
//!
//! The engine decides; its caller asks. A [`Resolver`] holds the questions
//! that are still to be asked and the answers given so far. The caller takes
//! the next question, puts it to the user by whatever means it has, and
//! hands the reply back; the engine stores the answer, queues the
//! follow-ups that the answer calls for, and moves on.

use vstd::prelude::*;
use crate::context::{AnswerContext, AnswerValue};
use crate::rules::{
    decide, decide_reply, expand, fires, follow_ups_of, put_question, question_for, stripped_all,
    Decision, DecisionSpec, Question, QuestionSpec, Reply, ReplySpec, Validation,
};
use crate::schema::{prompts_view, CallbackSpec, PromptSpec, TemplatePrompt};

verus! {

/// The state of a run as a mathematical value: the questions still to be
/// asked, the next one first, and the answers given so far.
pub struct ResolverState {
    pub pending: Seq<PromptSpec>,
    pub context: Map<Seq<char>, AnswerValue>,
}

/// How a reply was taken.
#[derive(Clone, Copy, Debug, PartialEq, Eq, Structural)]
pub enum Outcome {
    /// The answer was stored and the run moved on.
    Stored,
    /// The question was passed over and the run moved on.
    Skipped,
    /// The input failed a validator: the same question is to be asked again.
    Rejected(Validation),
    /// The run is given up: no project is to be made.
    Aborted,
    /// The reply does not answer the question that was due.
    Unexpected,
}

/// The question that is due in a state.
pub open spec fn due(s: ResolverState) -> QuestionSpec {
    if s.pending.len() == 0 {
        QuestionSpec::Finished
    } else {
        question_for(s.pending[0])
    }
}

/// The state after a reply. An answer is stored under the key of the
/// question that was due, and its follow-ups are asked before anything else
/// that was pending. A reply that is rejected, unexpected or gives the run
/// up leaves the state as it was.
pub open spec fn step(s: ResolverState, r: ReplySpec) -> ResolverState {
    if s.pending.len() == 0 {
        s
    } else {
        let p = s.pending[0];
        match decide(p, r) {
            DecisionSpec::Store(value, more) => ResolverState {
                pending: more + s.pending.skip(1),
                context: s.context.insert(p.field_key, value),
            },
            DecisionSpec::Skip => ResolverState { pending: s.pending.skip(1), context: s.context },
            _ => s,
        }
    }
}

/// How a reply is taken in a state.
pub open spec fn outcome_of(s: ResolverState, r: ReplySpec) -> Outcome {
    if s.pending.len() == 0 {
        Outcome::Unexpected
    } else {
        match decide(s.pending[0], r) {
            DecisionSpec::Store(_, _) => Outcome::Stored,
            DecisionSpec::Skip => Outcome::Skipped,
            DecisionSpec::Reject(v) => Outcome::Rejected(v),
            DecisionSpec::Abort => Outcome::Aborted,
            DecisionSpec::Unexpected => Outcome::Unexpected,
        }
    }
}

/// Every follow-up that an answer calls for comes without branches of its
/// own, whatever the schema declared: answering it calls for nothing more.
pub proof fn lemma_follow_ups_do_not_branch(callbacks: Seq<CallbackSpec>, answer: bool)
    ensures
        forall|k: int|
            0 <= k < expand(callbacks, answer).len() ==> (#[trigger] expand(
                callbacks,
                answer,
            )[k]).callbacks == Some(Seq::<CallbackSpec>::empty()),
        forall|k: int, next: bool|
            0 <= k < expand(callbacks, answer).len() ==> #[trigger] follow_ups_of(
                expand(callbacks, answer)[k].callbacks,
                next,
            ) == Seq::<PromptSpec>::empty(),
    decreases callbacks.len(),
{
    if callbacks.len() > 0 {
        lemma_follow_ups_do_not_branch(callbacks.drop_last(), answer);
    }
}

/// A run of questions in progress.
pub struct Resolver {
    top: Vec<TemplatePrompt>,
    top_next: usize,
    nested: Vec<TemplatePrompt>,
    nested_next: usize,
    context: AnswerContext,
}

impl View for Resolver {
    type V = ResolverState;

    closed spec fn view(&self) -> ResolverState {
        ResolverState {
            pending: prompts_view(
                self.nested@.subrange(self.nested_next as int, self.nested@.len() as int),
            ) + prompts_view(self.top@.subrange(self.top_next as int, self.top@.len() as int)),
            context: self.context@,
        }
    }
}

impl Resolver {
    /// The resolver is well formed: its positions lie within its lists, the
    /// follow-ups in its queue carry no branches, and its context is well
    /// formed.
    pub closed spec fn wf(&self) -> bool {
        &&& self.top_next <= self.top@.len()
        &&& self.nested_next <= self.nested@.len()
        &&& self.context.wf()
        &&& forall|i: int|
            self.nested_next <= i < self.nested@.len() ==> (#[trigger] self.nested@[i])@.callbacks
                == Some(Seq::<CallbackSpec>::empty())
    }

    /// A run that will ask `prompts` in order, storing into `context`.
    pub fn new(prompts: Vec<TemplatePrompt>, context: AnswerContext) -> (resolver: Resolver)
        requires
            context.wf(),
        ensures
            resolver.wf(),
            resolver@.pending == prompts_view(prompts@),
            resolver@.context == context@,
    {
        let resolver = Resolver {
            top: prompts,
            top_next: 0,
            nested: Vec::new(),
            nested_next: 0,
            context,
        };
        assert(resolver@.pending =~= prompts_view(prompts@));
        resolver
    }

    /// The question that is due.
    pub fn next_question(&self) -> (q: Question)
        requires
            self.wf(),
        ensures
            q@ == due(self@),
    {
        if self.nested_next < self.nested.len() {
            put_question(&self.nested[self.nested_next])
        } else if self.top_next < self.top.len() {
            put_question(&self.top[self.top_next])
        } else {
            Question::Finished
        }
    }

    /// Whether nothing is left to ask.
    pub fn is_finished(&self) -> (done: bool)
        requires
            self.wf(),
        ensures
            done == (self@.pending.len() == 0),
    {
        self.nested_next >= self.nested.len() && self.top_next >= self.top.len()
    }

    /// Takes the reply to the question that is due.
    pub fn answer(&mut self, reply: &Reply) -> (outcome: Outcome)
        requires
            old(self).wf(),
        ensures
            final(self).wf(),
            final(self)@ == step(old(self)@, reply@),
            outcome == outcome_of(old(self)@, reply@),
    {
        let ghost before = self@;
        if self.nested_next < self.nested.len() {
            let ghost p = self.nested@[self.nested_next as int]@;
            assert(before.pending[0] == p);
            let decision = decide_reply(&self.nested[self.nested_next], reply);
            match decision {
                Decision::Store(value, _) => {
                    let key = self.nested[self.nested_next].field_key.clone();
                    self.context.insert(key, value);
                    self.nested_next += 1;
                    proof {
                        let more = decision@->Store_1;
                        assert(more =~= Seq::<PromptSpec>::empty());
                        assert(self@.pending =~= more + before.pending.skip(1));
                    }
                    Outcome::Stored
                },
                Decision::Skip => {
                    self.nested_next += 1;
                    assert(self@.pending =~= before.pending.skip(1));
                    Outcome::Skipped
                },
                Decision::Reject(v) => Outcome::Rejected(v),
                Decision::Abort => Outcome::Aborted,
                Decision::Unexpected => Outcome::Unexpected,
            }
        } else if self.top_next < self.top.len() {
            let ghost p = self.top@[self.top_next as int]@;
            assert(before.pending[0] == p);
            let decision = decide_reply(&self.top[self.top_next], reply);
            match decision {
                Decision::Store(value, more) => {
                    let key = self.top[self.top_next].field_key.clone();
                    proof {
                        let queued = prompts_view(more@);
                        assert(decide(p, reply@) == DecisionSpec::Store(value@, queued));
                        if queued.len() > 0 {
                            assert(reply@ is Confirm);
                            let yes = reply@->Confirm_0;
                            assert(queued == follow_ups_of(p.callbacks, yes));
                            assert(p.callbacks is Some);
                            lemma_follow_ups_do_not_branch(p.callbacks->Some_0, yes);
                            assert(queued == expand(p.callbacks->Some_0, yes));
                        }
                        assert forall|i: int| 0 <= i < more@.len() implies (#[trigger] more@[i])@.callbacks
                            == Some(Seq::<CallbackSpec>::empty()) by {
                            assert(queued[i] == more@[i]@);
                        }
                    }
                    self.context.insert(key, value);
                    self.nested = more;
                    self.nested_next = 0;
                    self.top_next += 1;
                    proof {
                        assert(self.nested@.subrange(0, self.nested@.len() as int) =~= more@);
                        assert(self@.pending =~= prompts_view(more@) + before.pending.skip(1));
                    }
                    Outcome::Stored
                },
                Decision::Skip => {
                    self.top_next += 1;
                    assert(self@.pending =~= before.pending.skip(1));
                    Outcome::Skipped
                },
                Decision::Reject(v) => Outcome::Rejected(v),
                Decision::Abort => Outcome::Aborted,
                Decision::Unexpected => Outcome::Unexpected,
            }
        } else {
            assert(before.pending.len() == 0);
            Outcome::Unexpected
        }
    }

    /// The answers given so far.
    pub fn context(&self) -> (context: &AnswerContext)
        requires
            self.wf(),
        ensures
            context.wf(),
            context@ == self@.context,
    {
        &self.context
    }

    /// Ends the run and hands out the answers.
    pub fn into_context(self) -> (context: AnswerContext)
        requires
            self.wf(),
        ensures
            context.wf(),
            context@ == self@.context,
    {
        self.context
    }
}

/// Why a run of questions gave no context.
#[derive(Clone, Copy, Debug, PartialEq, Eq, Structural)]
pub enum ResolveError {
    /// A text or yes/no question was cancelled: the run is given up.
    Cancelled,
    /// A reply did not answer the question that was due.
    Unexpected,
    /// The replies ran out while questions were pending.
    Unanswered,
}

/// Where a run ends when `replies` are taken in turn from state `s`: with the
/// context, once nothing is pending; or with the reason why it stopped.
/// A rejected input costs one reply and the question is asked again.
pub open spec fn run(s: ResolverState, replies: Seq<ReplySpec>) -> Result<
    Map<Seq<char>, AnswerValue>,
    ResolveError,
>
    decreases replies.len(),
{
    if s.pending.len() == 0 {
        Ok(s.context)
    } else if replies.len() == 0 {
        Err(ResolveError::Unanswered)
    } else {
        match outcome_of(s, replies[0]) {
            Outcome::Aborted => Err(ResolveError::Cancelled),
            Outcome::Unexpected => Err(ResolveError::Unexpected),
            _ => run(step(s, replies[0]), replies.skip(1)),
        }
    }
}

/// The keys under which a run stores an answer: the keys of the questions
/// that it reaches and that are answered.
pub open spec fn stored_keys(s: ResolverState, replies: Seq<ReplySpec>) -> Set<Seq<char>>
    decreases replies.len(),
{
    if s.pending.len() == 0 || replies.len() == 0 {
        Set::empty()
    } else {
        let rest = stored_keys(step(s, replies[0]), replies.skip(1));
        match outcome_of(s, replies[0]) {
            Outcome::Stored => rest.insert(s.pending[0].field_key),
            Outcome::Skipped => rest,
            Outcome::Rejected(_) => rest,
            _ => Set::empty(),
        }
    }
}

/// The views of a list of replies.
pub open spec fn replies_view(v: Seq<Reply>) -> Seq<ReplySpec> {
    Seq::new(v.len(), |i: int| v[i]@)
}

/// Asks `prompts` in order against a script of replies, storing into
/// `context`, and returns the context once nothing is left to ask.
pub fn resolve(prompts: Vec<TemplatePrompt>, replies: &Vec<Reply>, context: AnswerContext) -> (done:
    Result<AnswerContext, ResolveError>)
    requires
        context.wf(),
    ensures
        match done {
            Ok(answers) => answers.wf() && run(
                ResolverState { pending: prompts_view(prompts@), context: context@ },
                replies_view(replies@),
            ) == Ok::<Map<Seq<char>, AnswerValue>, ResolveError>(answers@),
            Err(e) => run(
                ResolverState { pending: prompts_view(prompts@), context: context@ },
                replies_view(replies@),
            ) == Err::<Map<Seq<char>, AnswerValue>, ResolveError>(e),
        },
{
    let ghost start = ResolverState { pending: prompts_view(prompts@), context: context@ };
    let ghost script = replies_view(replies@);
    let mut resolver = Resolver::new(prompts, context);
    let mut i: usize = 0;
    assert(script.skip(0) =~= script);
    assert(resolver@ == start);
    while i < replies.len()
        invariant
            i <= replies@.len(),
            resolver.wf(),
            script == replies_view(replies@),
            start == (ResolverState { pending: prompts_view(prompts@), context: context@ }),
            run(start, script) == run(resolver@, script.skip(i as int)),
        decreases replies@.len() - i,
    {
        if resolver.is_finished() {
            return Ok(resolver.into_context());
        }
        let ghost rest = script.skip(i as int);
        assert(rest[0] == replies@[i as int]@);
        assert(rest.skip(1) =~= script.skip(i + 1));
        match resolver.answer(&replies[i]) {
            Outcome::Aborted => {
                return Err(ResolveError::Cancelled);
            },
            Outcome::Unexpected => {
                return Err(ResolveError::Unexpected);
            },
            _ => {},
        }
        i += 1;
    }
    assert(script.skip(i as int).len() == 0);
    if resolver.is_finished() {
        Ok(resolver.into_context())
    } else {
        Err(ResolveError::Unanswered)
    }
}

/// A run that ends with a context has stored exactly one answer under each
/// key of a question that it reached and that was answered, beside what the
/// context held before. Follow-ups of branches that did not fire are never
/// reached and add nothing.
pub proof fn lemma_run_stores_reached_keys(s: ResolverState, replies: Seq<ReplySpec>)
    requires
        run(s, replies) is Ok,
    ensures
        run(s, replies)->Ok_0.dom() == s.context.dom().union(stored_keys(s, replies)),
    decreases replies.len(),
{
    if s.pending.len() == 0 || replies.len() == 0 {
        assert(s.context.dom().union(Set::empty()) =~= s.context.dom());
    } else {
        let next = step(s, replies[0]);
        lemma_run_stores_reached_keys(next, replies.skip(1));
        let rest = stored_keys(next, replies.skip(1));
        match outcome_of(s, replies[0]) {
            Outcome::Stored => {
                assert(next.context.dom() =~= s.context.dom().insert(s.pending[0].field_key));
                assert(next.context.dom().union(rest) =~= s.context.dom().union(
                    rest.insert(s.pending[0].field_key),
                ));
            },
            _ => {},
        }
    }
}

/// The answer that a run stores last under `key`, if it stores any there.
pub open spec fn last_stored(s: ResolverState, replies: Seq<ReplySpec>, key: Seq<char>) -> Option<
    AnswerValue,
>
    decreases replies.len(),
{
    if s.pending.len() == 0 || replies.len() == 0 {
        None
    } else {
        let later = last_stored(step(s, replies[0]), replies.skip(1), key);
        match decide(s.pending[0], replies[0]) {
            DecisionSpec::Store(value, _) => if later is Some {
                later
            } else if s.pending[0].field_key == key {
                Some(value)
            } else {
                None
            },
            DecisionSpec::Skip => later,
            DecisionSpec::Reject(_) => later,
            _ => None,
        }
    }
}

/// In the context that a run ends with, every key under which the run
/// stored an answer holds the last answer given under it, and every other
/// key is as the context had it before.
pub proof fn lemma_run_keeps_last_answer(
    s: ResolverState,
    replies: Seq<ReplySpec>,
    key: Seq<char>,
)
    requires
        run(s, replies) is Ok,
    ensures
        match last_stored(s, replies, key) {
            Some(value) => run(s, replies)->Ok_0.contains_key(key) && run(s, replies)->Ok_0[key]
                == value,
            None => run(s, replies)->Ok_0.contains_key(key) == s.context.contains_key(key) && (
            s.context.contains_key(key) ==> run(s, replies)->Ok_0[key] == s.context[key]),
        },
    decreases replies.len(),
{
    if s.pending.len() > 0 && replies.len() > 0 {
        lemma_run_keeps_last_answer(step(s, replies[0]), replies.skip(1), key);
    }
}

/// What is stored for a question is of the question's kind: the text that
/// was typed for a text question, the yes or no for a yes/no question, and
/// one of the listed values for a choice.
pub proof fn lemma_stored_value_is_of_the_kind(p: PromptSpec, r: ReplySpec)
    requires
        decide(p, r) is Store,
    ensures
        match question_for(p) {
            QuestionSpec::Text { .. } => r is Text && decide(p, r)->Store_0 == AnswerValue::Text(
                r->value,
            ),
            QuestionSpec::Confirm { .. } => r is Confirm && decide(p, r)->Store_0
                == AnswerValue::Boolean(r->Confirm_0),
            QuestionSpec::Choice { options, .. } => exists|i: int|
                0 <= i < options.len() && decide(p, r)->Store_0 == AnswerValue::Text(
                    #[trigger] options[i],
                ),
            _ => false,
        },
{
    match question_for(p) {
        QuestionSpec::Choice { options, .. } => {
            let i = r->Choice_0 as int;
            assert(decide(p, r)->Store_0 == AnswerValue::Text(options[i]));
        },
        _ => {},
    }
}

/// A run in which no question is cancelled is never given up.
pub proof fn lemma_run_without_cancellation(s: ResolverState, replies: Seq<ReplySpec>)
    requires
        forall|i: int| 0 <= i < replies.len() ==> replies[i] != ReplySpec::Cancelled,
    ensures
        run(s, replies) != Err::<Map<Seq<char>, AnswerValue>, ResolveError>(
            ResolveError::Cancelled,
        ),
    decreases replies.len(),
{
    if s.pending.len() > 0 && replies.len() > 0 {
        let rest = replies.skip(1);
        assert forall|i: int| 0 <= i < rest.len() implies rest[i] != ReplySpec::Cancelled by {
            assert(rest[i] == replies[i + 1]);
        }
        lemma_run_without_cancellation(step(s, replies[0]), rest);
        assert(replies[0] != ReplySpec::Cancelled);
    }
}

/// No condition fires on both answers.
pub proof fn lemma_no_branch_fires_on_both_answers(condition: Seq<char>)
    ensures
        !(fires(condition, true) && fires(condition, false)),
{
    reveal_strlit("TRUE");
    reveal_strlit("FALSE");
    if fires(condition, true) && fires(condition, false) {
        assert("TRUE"@.len() == 4);
        assert("FALSE"@.len() == 5);
    }
}

/// A single branch contributes its follow-ups, each stripped of branches,
/// when it fires, and nothing when it does not.
pub proof fn lemma_expand_one(callback: CallbackSpec, answer: bool)
    ensures
        expand(seq![callback], answer) == if fires(callback.condition, answer) {
            stripped_all(callback.follow_up_prompts)
        } else {
            Seq::<PromptSpec>::empty()
        },
{
    let one = seq![callback];
    assert(one.drop_last() =~= Seq::<CallbackSpec>::empty());
    assert(one.last() == callback);
    assert(expand(one.drop_last(), answer) =~= Seq::<PromptSpec>::empty());
    assert(expand(one, answer) =~= if fires(callback.condition, answer) {
        stripped_all(callback.follow_up_prompts)
    } else {
        Seq::<PromptSpec>::empty()
    });
}

/// The follow-ups of a list of branches are those of its parts, in order:
/// each branch is looked at once.
pub proof fn lemma_expand_concat(a: Seq<CallbackSpec>, b: Seq<CallbackSpec>, answer: bool)
    ensures
        expand(a + b, answer) == expand(a, answer) + expand(b, answer),
    decreases b.len(),
{
    if b.len() == 0 {
        assert(a + b =~= a);
        assert(expand(a, answer) + expand(b, answer) =~= expand(a, answer));
    } else {
        lemma_expand_concat(a, b.drop_last(), answer);
        assert((a + b).drop_last() =~= a + b.drop_last());
        assert((a + b).last() == b.last());
        assert(expand(a + b, answer) =~= expand(a, answer) + expand(b, answer));
    }
}

/// Where a yes/no question has a `TRUE` branch and a `FALSE` branch, yes
/// calls for the follow-ups of the first and no for those of the second,
/// each once and never both.
pub proof fn lemma_each_answer_takes_its_branch(on_yes: CallbackSpec, on_no: CallbackSpec)
    requires
        on_yes.condition == "TRUE"@,
        on_no.condition == "FALSE"@,
    ensures
        expand(seq![on_yes, on_no], true) == stripped_all(on_yes.follow_up_prompts),
        expand(seq![on_yes, on_no], false) == stripped_all(on_no.follow_up_prompts),
{
    lemma_no_branch_fires_on_both_answers(on_yes.condition);
    lemma_no_branch_fires_on_both_answers(on_no.condition);
    assert(seq![on_yes, on_no] =~= seq![on_yes] + seq![on_no]);
    lemma_expand_concat(seq![on_yes], seq![on_no], true);
    lemma_expand_concat(seq![on_yes], seq![on_no], false);
    lemma_expand_one(on_yes, true);
    lemma_expand_one(on_yes, false);
    lemma_expand_one(on_no, true);
    lemma_expand_one(on_no, false);
    assert(expand(seq![on_yes, on_no], true) =~= stripped_all(on_yes.follow_up_prompts));
    assert(expand(seq![on_yes, on_no], false) =~= stripped_all(on_no.follow_up_prompts));
}

} // verus!
