//! The question schema: prompts and their conditional follow-ups.

use vstd::prelude::*;

verus! {

/// The characters of each string of a list.
pub open spec fn texts(v: Seq<String>) -> Seq<Seq<char>> {
    Seq::new(v.len(), |i: int| v[i]@)
}

/// The characters of an optional string.
pub open spec fn optional_text(v: Option<String>) -> Option<Seq<char>> {
    match v {
        Some(s) => Some(s@),
        None => None,
    }
}

/// The characters of each string of an optional list.
pub open spec fn optional_texts(v: Option<Vec<String>>) -> Option<Seq<Seq<char>>> {
    match v {
        Some(list) => Some(texts(list@)),
        None => None,
    }
}

/// A follow-up question as a mathematical value.
pub struct FollowUpSpec {
    pub kind: Seq<char>,
    pub field_key: Seq<char>,
    pub prompt: Seq<char>,
    pub enums: Option<Seq<Seq<char>>>,
    pub default: Option<Seq<char>>,
    pub is_required: Option<bool>,
    pub enable_path_exist_validator: Option<bool>,
}

/// A conditional branch as a mathematical value.
pub struct CallbackSpec {
    pub follow_up_prompts: Seq<FollowUpSpec>,
    pub condition: Seq<char>,
}

/// A question as a mathematical value.
pub struct PromptSpec {
    pub kind: Seq<char>,
    pub field_key: Seq<char>,
    pub prompt: Seq<char>,
    pub enums: Option<Seq<Seq<char>>>,
    pub default: Option<Seq<char>>,
    pub is_required: Option<bool>,
    pub enable_path_exist_validator: Option<bool>,
    pub callbacks: Option<Seq<CallbackSpec>>,
}

/// A question that is asked only when the answer to a yes/no question
/// matches the condition of the branch that holds it. It carries no branches
/// of its own.
#[derive(Clone, Debug, PartialEq, Default)]
pub struct FollowupPromot {
    /// `string`, `bool` or `enum`.
    pub kind: String,
    pub field_key: String,
    pub prompt: String,
    pub enums: Option<Vec<String>>,
    pub default: Option<String>,
    pub is_required: Option<bool>,
    pub enable_path_exist_validator: Option<bool>,
}

impl View for FollowupPromot {
    type V = FollowUpSpec;

    open spec fn view(&self) -> FollowUpSpec {
        FollowUpSpec {
            kind: self.kind@,
            field_key: self.field_key@,
            prompt: self.prompt@,
            enums: optional_texts(self.enums),
            default: optional_text(self.default),
            is_required: self.is_required,
            enable_path_exist_validator: self.enable_path_exist_validator,
        }
    }
}

/// The views of a list of follow-up questions.
pub open spec fn follow_ups_view(v: Seq<FollowupPromot>) -> Seq<FollowUpSpec> {
    Seq::new(v.len(), |i: int| v[i]@)
}

/// A branch attached to a yes/no question: its follow-ups are asked when the
/// answer matches `condition`, which is `TRUE` or `FALSE`.
#[derive(Clone, Debug, PartialEq, Default)]
pub struct Callback {
    pub follow_up_prompts: Vec<FollowupPromot>,
    pub condition: String,
}

impl View for Callback {
    type V = CallbackSpec;

    open spec fn view(&self) -> CallbackSpec {
        CallbackSpec {
            follow_up_prompts: follow_ups_view(self.follow_up_prompts@),
            condition: self.condition@,
        }
    }
}

/// The views of a list of branches.
pub open spec fn callbacks_view(v: Seq<Callback>) -> Seq<CallbackSpec> {
    Seq::new(v.len(), |i: int| v[i]@)
}

/// The views of an optional list of branches.
pub open spec fn optional_callbacks(v: Option<Vec<Callback>>) -> Option<Seq<CallbackSpec>> {
    match v {
        Some(list) => Some(callbacks_view(list@)),
        None => None,
    }
}

/// One question of the schema. Its answer is stored under `field_key`.
#[derive(Clone, Debug, PartialEq, Default)]
pub struct TemplatePrompt {
    /// `string`, `bool` or `enum`.
    pub kind: String,
    pub field_key: String,
    pub prompt: String,
    pub enums: Option<Vec<String>>,
    pub default: Option<String>,
    pub is_required: Option<bool>,
    pub enable_path_exist_validator: Option<bool>,
    pub callbacks: Option<Vec<Callback>>,
}

impl View for TemplatePrompt {
    type V = PromptSpec;

    open spec fn view(&self) -> PromptSpec {
        PromptSpec {
            kind: self.kind@,
            field_key: self.field_key@,
            prompt: self.prompt@,
            enums: optional_texts(self.enums),
            default: optional_text(self.default),
            is_required: self.is_required,
            enable_path_exist_validator: self.enable_path_exist_validator,
            callbacks: optional_callbacks(self.callbacks),
        }
    }
}

/// The views of a list of questions.
pub open spec fn prompts_view(v: Seq<TemplatePrompt>) -> Seq<PromptSpec> {
    Seq::new(v.len(), |i: int| v[i]@)
}

/// The schema of a template: the questions to ask, in order.
#[derive(Clone, Debug, PartialEq, Default)]
pub struct MetaData {
    pub version: String,
    pub prompts: Vec<TemplatePrompt>,
}

/// A copy of a list of strings.
pub fn copy_texts(v: &Vec<String>) -> (copy: Vec<String>)
    ensures
        texts(copy@) == texts(v@),
{
    let mut copy: Vec<String> = Vec::new();
    let mut i: usize = 0;
    while i < v.len()
        invariant
            i <= v@.len(),
            copy@.len() == i,
            forall|j: int| 0 <= j < i ==> copy@[j]@ == v@[j]@,
        decreases v@.len() - i,
    {
        copy.push(v[i].clone());
        i += 1;
    }
    assert(texts(copy@) =~= texts(v@));
    copy
}

/// A copy of an optional string.
pub fn copy_optional_text(v: &Option<String>) -> (copy: Option<String>)
    ensures
        optional_text(copy) == optional_text(*v),
{
    match v {
        Some(s) => Some(s.clone()),
        None => None,
    }
}

/// A copy of an optional list of strings.
pub fn copy_optional_texts(v: &Option<Vec<String>>) -> (copy: Option<Vec<String>>)
    ensures
        optional_texts(copy) == optional_texts(*v),
{
    match v {
        Some(list) => Some(copy_texts(list)),
        None => None,
    }
}

} // verus!
