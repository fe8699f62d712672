//! The rules of question resolution: how a question is put, what a reply
//! does to it, and which follow-ups an answer calls for.

use vstd::prelude::*;
use crate::context::{AnswerValue, ContextValue};
use crate::schema::{
    callbacks_view, copy_optional_text, copy_optional_texts, copy_texts, follow_ups_view,
    optional_callbacks, prompts_view, texts, Callback, CallbackSpec, FollowUpSpec,
    FollowupPromot, PromptSpec, TemplatePrompt,
};
use crate::text::same_text;

verus! {

/// The kinds of question that the engine knows.
#[derive(Clone, Copy, Debug, PartialEq, Eq, Structural)]
pub enum PromptKind {
    /// Free text.
    Text,
    /// Yes or no.
    Confirm,
    /// One of a list of values.
    Choice,
    /// Anything else: a fault of the schema.
    Unknown,
}

/// The kind that a schema's `type` tag names.
pub open spec fn kind_of(tag: Seq<char>) -> PromptKind {
    if tag == "string"@ {
        PromptKind::Text
    } else if tag == "bool"@ {
        PromptKind::Confirm
    } else if tag == "enum"@ {
        PromptKind::Choice
    } else {
        PromptKind::Unknown
    }
}

/// The kind that a schema's `type` tag names.
pub fn prompt_kind(tag: &str) -> (kind: PromptKind)
    ensures
        kind == kind_of(tag@),
{
    if same_text(tag, "string") {
        PromptKind::Text
    } else if same_text(tag, "bool") {
        PromptKind::Confirm
    } else if same_text(tag, "enum") {
        PromptKind::Choice
    } else {
        PromptKind::Unknown
    }
}

/// Whether an optional flag is set.
pub open spec fn is_set(flag: Option<bool>) -> bool {
    flag == Some(true)
}

/// Whether an optional flag is set.
pub fn flag_is_set(flag: Option<bool>) -> (set: bool)
    ensures
        set == is_set(flag),
{
    match flag {
        Some(b) => b,
        None => false,
    }
}

/// What the validators say of a text input.
#[derive(Clone, Copy, Debug, PartialEq, Eq, Structural)]
pub enum Validation {
    /// The input is accepted.
    Valid,
    /// An answer is required and the input is empty.
    TooShort,
    /// The input names a folder that is already there.
    FolderExists,
}

/// The validators of a text question. A required answer must not be empty.
/// Where the path validator is on, the input must not name an existing
/// folder, except that `.` is always accepted.
pub open spec fn validation_of(
    input: Seq<char>,
    is_required: Option<bool>,
    enable_path_exist_validator: Option<bool>,
    names_existing_folder: bool,
) -> Validation {
    if is_set(is_required) && input.len() == 0 {
        Validation::TooShort
    } else if is_set(enable_path_exist_validator) && input != "."@ && names_existing_folder {
        Validation::FolderExists
    } else {
        Validation::Valid
    }
}

/// Runs the validators of a text question on `input`. The caller says
/// whether `input` names a folder that exists.
pub fn validate_text(
    input: &str,
    is_required: Option<bool>,
    enable_path_exist_validator: Option<bool>,
    names_existing_folder: bool,
) -> (verdict: Validation)
    ensures
        verdict == validation_of(
            input@,
            is_required,
            enable_path_exist_validator,
            names_existing_folder,
        ),
{
    if flag_is_set(is_required) && input.is_empty() {
        Validation::TooShort
    } else if flag_is_set(enable_path_exist_validator) && !same_text(input, ".")
        && names_existing_folder {
        Validation::FolderExists
    } else {
        Validation::Valid
    }
}

/// Whether a branch with this condition is taken on this answer: `TRUE` on
/// yes, `FALSE` on no, and nothing else ever.
pub open spec fn fires(condition: Seq<char>, answer: bool) -> bool {
    if answer {
        condition == "TRUE"@
    } else {
        condition == "FALSE"@
    }
}

/// Whether a branch with this condition is taken on this answer.
pub fn branch_fires(condition: &str, answer: bool) -> (taken: bool)
    ensures
        taken == fires(condition@, answer),
{
    if answer {
        same_text(condition, "TRUE")
    } else {
        same_text(condition, "FALSE")
    }
}

/// A follow-up as a question of its own, with no branches.
pub open spec fn stripped(f: FollowUpSpec) -> PromptSpec {
    PromptSpec {
        kind: f.kind,
        field_key: f.field_key,
        prompt: f.prompt,
        enums: f.enums,
        default: f.default,
        is_required: f.is_required,
        enable_path_exist_validator: f.enable_path_exist_validator,
        callbacks: Some(Seq::empty()),
    }
}

/// Each follow-up of a list as a question of its own.
pub open spec fn stripped_all(fs: Seq<FollowUpSpec>) -> Seq<PromptSpec> {
    Seq::new(fs.len(), |i: int| stripped(fs[i]))
}

/// The follow-ups that an answer calls for: those of each branch that fires,
/// in the order of the branches.
pub open spec fn expand(callbacks: Seq<CallbackSpec>, answer: bool) -> Seq<PromptSpec>
    decreases callbacks.len(),
{
    if callbacks.len() == 0 {
        Seq::empty()
    } else {
        let last = callbacks.last();
        expand(callbacks.drop_last(), answer) + (if fires(last.condition, answer) {
            stripped_all(last.follow_up_prompts)
        } else {
            Seq::empty()
        })
    }
}

/// The follow-ups that an answer to a question with these branches calls for.
pub open spec fn follow_ups_of(callbacks: Option<Seq<CallbackSpec>>, answer: bool) -> Seq<
    PromptSpec,
> {
    match callbacks {
        Some(list) => expand(list, answer),
        None => Seq::empty(),
    }
}

/// A follow-up as a question of its own. Branches are never carried over.
pub fn strip_follow_up(f: &FollowupPromot) -> (p: TemplatePrompt)
    ensures
        p@ == stripped(f@),
{
    let p = TemplatePrompt {
        kind: f.kind.clone(),
        field_key: f.field_key.clone(),
        prompt: f.prompt.clone(),
        enums: copy_optional_texts(&f.enums),
        default: copy_optional_text(&f.default),
        is_required: f.is_required,
        enable_path_exist_validator: f.enable_path_exist_validator,
        callbacks: Some(Vec::new()),
    };
    assert(callbacks_view(Seq::<Callback>::empty()) =~= Seq::<CallbackSpec>::empty());
    p
}

/// The follow-ups that an answer calls for, ready to be asked.
pub fn follow_ups_for(callbacks: &Option<Vec<Callback>>, answer: bool) -> (asked: Vec<
    TemplatePrompt,
>)
    ensures
        prompts_view(asked@) == follow_ups_of(optional_callbacks(*callbacks), answer),
{
    let mut asked: Vec<TemplatePrompt> = Vec::new();
    match callbacks {
        None => {
            assert(prompts_view(asked@) =~= Seq::<PromptSpec>::empty());
        },
        Some(list) => {
            let ghost all = callbacks_view(list@);
            let mut i: usize = 0;
            assert(all.take(0) =~= Seq::<CallbackSpec>::empty());
            assert(prompts_view(asked@) =~= expand(all.take(0), answer));
            while i < list.len()
                invariant
                    i <= list@.len(),
                    all == callbacks_view(list@),
                    prompts_view(asked@) == expand(all.take(i as int), answer),
                decreases list@.len() - i,
            {
                let callback = &list[i];
                let ghost before = prompts_view(asked@);
                let ghost extra = stripped_all(all[i as int].follow_up_prompts);
                assert(all.take(i + 1).drop_last() =~= all.take(i as int));
                assert(all.take(i + 1).last() == all[i as int]);
                if branch_fires(callback.condition.as_str(), answer) {
                    let mut j: usize = 0;
                    assert(prompts_view(asked@) =~= before + extra.take(0));
                    while j < callback.follow_up_prompts.len()
                        invariant
                            j <= callback.follow_up_prompts@.len(),
                            extra == stripped_all(follow_ups_view(callback.follow_up_prompts@)),
                            prompts_view(asked@) == before + extra.take(j as int),
                        decreases callback.follow_up_prompts@.len() - j,
                    {
                        let p = strip_follow_up(&callback.follow_up_prompts[j]);
                        let ghost so_far = asked@;
                        asked.push(p);
                        proof {
                            let grown = before + extra.take(j + 1);
                            assert(extra[j as int] == p@);
                            assert(prompts_view(so_far).len() == before.len() + j);
                            assert forall|k: int| 0 <= k < grown.len() implies prompts_view(
                                asked@,
                            )[k] == grown[k] by {
                                if k < so_far.len() {
                                    assert(asked@[k] == so_far[k]);
                                    assert(prompts_view(so_far)[k] == (before + extra.take(
                                        j as int,
                                    ))[k]);
                                }
                            }
                            assert(prompts_view(asked@) =~= grown);
                        }
                        j += 1;
                    }
                    assert(extra.take(j as int) =~= extra);
                } else {
                    assert(before + Seq::<PromptSpec>::empty() =~= before);
                }
                i += 1;
            }
            assert(all.take(i as int) =~= all);
        },
    }
    asked
}

/// What the caller is to do next, as a mathematical value.
pub enum QuestionSpec {
    Text { prompt: Seq<char>, default: Option<Seq<char>>, required: bool, check_path: bool },
    Confirm { prompt: Seq<char>, preselected: Option<bool> },
    Choice { prompt: Seq<char>, options: Seq<Seq<char>> },
    Invalid,
    Finished,
}

/// What the caller is to do next.
#[derive(Clone, Debug, PartialEq)]
pub enum Question {
    /// Ask for free text. `default` pre-fills the input; the input still has
    /// to pass the validators: `required` refuses an empty input, and
    /// `check_path` refuses the name of an existing folder other than `.`.
    Text { prompt: String, default: Option<String>, required: bool, check_path: bool },
    /// Ask yes or no, with `preselected` as the default where it is given.
    Confirm { prompt: String, preselected: Option<bool> },
    /// Ask for one of `options`.
    Choice { prompt: String, options: Vec<String> },
    /// The schema is at fault here: report it, and acknowledge.
    Invalid,
    /// Nothing is left to ask.
    Finished,
}

impl View for Question {
    type V = QuestionSpec;

    open spec fn view(&self) -> QuestionSpec {
        match self {
            Question::Text { prompt, default, required, check_path } => QuestionSpec::Text {
                prompt: prompt@,
                default: crate::schema::optional_text(*default),
                required: *required,
                check_path: *check_path,
            },
            Question::Confirm { prompt, preselected } => QuestionSpec::Confirm {
                prompt: prompt@,
                preselected: *preselected,
            },
            Question::Choice { prompt, options } => QuestionSpec::Choice {
                prompt: prompt@,
                options: texts(options@),
            },
            Question::Invalid => QuestionSpec::Invalid,
            Question::Finished => QuestionSpec::Finished,
        }
    }
}

/// The default of a yes/no question: yes exactly when the schema says `TRUE`.
pub open spec fn confirm_default(default: Option<Seq<char>>) -> Option<bool> {
    match default {
        Some(d) => Some(d == "TRUE"@),
        None => None,
    }
}

/// How a question of the schema is put. A question of an unknown kind, or a
/// choice without a list of values, is a fault of the schema.
pub open spec fn question_for(p: PromptSpec) -> QuestionSpec {
    match kind_of(p.kind) {
        PromptKind::Text => QuestionSpec::Text {
            prompt: p.prompt,
            default: p.default,
            required: is_set(p.is_required),
            check_path: is_set(p.enable_path_exist_validator),
        },
        PromptKind::Confirm => QuestionSpec::Confirm {
            prompt: p.prompt,
            preselected: confirm_default(p.default),
        },
        PromptKind::Choice => match p.enums {
            Some(options) => QuestionSpec::Choice { prompt: p.prompt, options },
            None => QuestionSpec::Invalid,
        },
        PromptKind::Unknown => QuestionSpec::Invalid,
    }
}

/// How a question of the schema is put.
pub fn put_question(p: &TemplatePrompt) -> (q: Question)
    ensures
        q@ == question_for(p@),
{
    match prompt_kind(p.kind.as_str()) {
        PromptKind::Text => Question::Text {
            prompt: p.prompt.clone(),
            default: copy_optional_text(&p.default),
            required: flag_is_set(p.is_required),
            check_path: flag_is_set(p.enable_path_exist_validator),
        },
        PromptKind::Confirm => {
            let preselected = match &p.default {
                Some(d) => Some(same_text(d.as_str(), "TRUE")),
                None => None,
            };
            Question::Confirm { prompt: p.prompt.clone(), preselected }
        },
        PromptKind::Choice => match &p.enums {
            Some(options) => Question::Choice {
                prompt: p.prompt.clone(),
                options: copy_texts(options),
            },
            None => Question::Invalid,
        },
        PromptKind::Unknown => Question::Invalid,
    }
}

/// What came back from the user, as a mathematical value.
pub enum ReplySpec {
    Text { value: Seq<char>, names_existing_folder: bool },
    Confirm(bool),
    Choice(nat),
    Acknowledged,
    Cancelled,
}

/// What came back from the user.
#[derive(Clone, Debug, PartialEq)]
pub enum Reply {
    /// The text that was typed, and whether it names a folder that exists.
    Text { value: String, names_existing_folder: bool },
    /// Yes or no.
    Confirm(bool),
    /// The position of the value that was picked.
    Choice(usize),
    /// The fault of the schema was reported.
    Acknowledged,
    /// The user gave no answer.
    Cancelled,
}

impl View for Reply {
    type V = ReplySpec;

    open spec fn view(&self) -> ReplySpec {
        match self {
            Reply::Text { value, names_existing_folder } => ReplySpec::Text {
                value: value@,
                names_existing_folder: *names_existing_folder,
            },
            Reply::Confirm(b) => ReplySpec::Confirm(*b),
            Reply::Choice(i) => ReplySpec::Choice(*i as nat),
            Reply::Acknowledged => ReplySpec::Acknowledged,
            Reply::Cancelled => ReplySpec::Cancelled,
        }
    }
}

/// What a reply does to a question, as a mathematical value.
pub enum DecisionSpec {
    /// The answer is stored, and these follow-ups are asked next.
    Store(AnswerValue, Seq<PromptSpec>),
    /// The question is passed over and nothing is stored.
    Skip,
    /// The input failed a validator; the question stands.
    Reject(Validation),
    /// The whole run is given up.
    Abort,
    /// The reply does not answer this question.
    Unexpected,
}

/// What a reply does to a question.
pub enum Decision {
    /// The answer is stored, and these follow-ups are asked next.
    Store(ContextValue, Vec<TemplatePrompt>),
    /// The question is passed over and nothing is stored.
    Skip,
    /// The input failed a validator; the question stands.
    Reject(Validation),
    /// The whole run is given up.
    Abort,
    /// The reply does not answer this question.
    Unexpected,
}

impl View for Decision {
    type V = DecisionSpec;

    open spec fn view(&self) -> DecisionSpec {
        match self {
            Decision::Store(value, more) => DecisionSpec::Store(value@, prompts_view(more@)),
            Decision::Skip => DecisionSpec::Skip,
            Decision::Reject(v) => DecisionSpec::Reject(*v),
            Decision::Abort => DecisionSpec::Abort,
            Decision::Unexpected => DecisionSpec::Unexpected,
        }
    }
}

/// The rules of the engine, question by question.
///
/// Text: a valid input is stored; an invalid one is rejected; a
/// cancellation gives up the run. Yes/no: the answer is stored and the
/// follow-ups of the branches that fire are queued; a cancellation gives up
/// the run. Choice: the picked value is stored; a cancellation passes the
/// question over. A fault of the schema is passed over once acknowledged.
pub open spec fn decide(p: PromptSpec, r: ReplySpec) -> DecisionSpec {
    match question_for(p) {
        QuestionSpec::Text { .. } => match r {
            ReplySpec::Text { value, names_existing_folder } => {
                let verdict = validation_of(
                    value,
                    p.is_required,
                    p.enable_path_exist_validator,
                    names_existing_folder,
                );
                if verdict == Validation::Valid {
                    DecisionSpec::Store(AnswerValue::Text(value), Seq::empty())
                } else {
                    DecisionSpec::Reject(verdict)
                }
            },
            ReplySpec::Cancelled => DecisionSpec::Abort,
            _ => DecisionSpec::Unexpected,
        },
        QuestionSpec::Confirm { .. } => match r {
            ReplySpec::Confirm(answer) => DecisionSpec::Store(
                AnswerValue::Boolean(answer),
                follow_ups_of(p.callbacks, answer),
            ),
            ReplySpec::Cancelled => DecisionSpec::Abort,
            _ => DecisionSpec::Unexpected,
        },
        QuestionSpec::Choice { options, .. } => match r {
            ReplySpec::Choice(i) => if i < options.len() {
                DecisionSpec::Store(AnswerValue::Text(options[i as int]), Seq::empty())
            } else {
                DecisionSpec::Unexpected
            },
            ReplySpec::Cancelled => DecisionSpec::Skip,
            _ => DecisionSpec::Unexpected,
        },
        QuestionSpec::Invalid => match r {
            ReplySpec::Acknowledged => DecisionSpec::Skip,
            _ => DecisionSpec::Unexpected,
        },
        QuestionSpec::Finished => DecisionSpec::Unexpected,
    }
}

/// Applies the rules of the engine to one question and one reply.
pub fn decide_reply(p: &TemplatePrompt, reply: &Reply) -> (d: Decision)
    ensures
        d@ == decide(p@, reply@),
{
    let ghost none = Seq::<PromptSpec>::empty();
    assert(prompts_view(Seq::<TemplatePrompt>::empty()) =~= none);
    match prompt_kind(p.kind.as_str()) {
        PromptKind::Text => match reply {
            Reply::Text { value, names_existing_folder } => {
                let verdict = validate_text(
                    value.as_str(),
                    p.is_required,
                    p.enable_path_exist_validator,
                    *names_existing_folder,
                );
                match verdict {
                    Validation::Valid => Decision::Store(
                        ContextValue::String(value.clone()),
                        Vec::new(),
                    ),
                    Validation::TooShort => Decision::Reject(Validation::TooShort),
                    Validation::FolderExists => Decision::Reject(Validation::FolderExists),
                }
            },
            Reply::Cancelled => Decision::Abort,
            _ => Decision::Unexpected,
        },
        PromptKind::Confirm => match reply {
            Reply::Confirm(answer) => Decision::Store(
                ContextValue::Boolean(*answer),
                follow_ups_for(&p.callbacks, *answer),
            ),
            Reply::Cancelled => Decision::Abort,
            _ => Decision::Unexpected,
        },
        PromptKind::Choice => match &p.enums {
            Some(options) => match reply {
                Reply::Choice(i) => if *i < options.len() {
                    Decision::Store(ContextValue::String(options[*i].clone()), Vec::new())
                } else {
                    Decision::Unexpected
                },
                Reply::Cancelled => Decision::Skip,
                _ => Decision::Unexpected,
            },
            None => match reply {
                Reply::Acknowledged => Decision::Skip,
                _ => Decision::Unexpected,
            },
        },
        PromptKind::Unknown => match reply {
            Reply::Acknowledged => Decision::Skip,
            _ => Decision::Unexpected,
        },
    }
}

} // verus!
