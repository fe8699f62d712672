//! The render engine: where each file of the template tree goes, and what
//! is written there.

use vstd::prelude::*;
use vstd::string::StringExecFns;
use crate::classify::{FileKind, SourceEntry};
use crate::context::{entries_map, AnswerContext, AnswerValue, ContextValue};
use crate::schema::{copy_texts, texts};
use crate::template::{is_placeholder_template, is_plain, is_simple};

verus! {

/// The variables that a template is evaluated against.
#[verifier::external_type_specification]
#[verifier::external_body]
pub struct ExTemplateContext(tera::Context);

/// The variables that a template context holds, each with its value.
pub uninterp spec fn bindings(c: tera::Context) -> Map<Seq<char>, AnswerValue>;

/// Whether a template context holds booleans and strings only, so that
/// `bindings` shows all of it.
pub uninterp spec fn holds_answers_only(c: tera::Context) -> bool;

/// What the evaluator makes of a template of text and placeholders with the
/// given variables: the rendered text, or the message of its error.
pub uninterp spec fn evaluation(template: Seq<char>, variables: Map<Seq<char>, AnswerValue>) -> Result<Seq<char>, Seq<char>>;

/// The characters of an evaluation's result or message.
pub open spec fn evaluated_view(evaluated: Result<String, String>) -> Result<Seq<char>, Seq<char>> {
    match evaluated {
        Ok(text) => Ok(text@),
        Err(message) => Err(message@),
    }
}

/// `tera::Context::new`: a context that holds no variable.
#[verifier::external_body]
fn empty_bindings() -> (fresh: tera::Context)
    ensures
        bindings(fresh).dom() == Set::<Seq<char>>::empty(),
        holds_answers_only(fresh),
{
    tera::Context::new()
}

/// `tera::Context::insert` with a boolean: the variable `key` then holds
/// `value`, in place of what it held; the other variables stay. A context of
/// booleans and strings stays one.
#[verifier::external_body]
fn bind_flag(c: &mut tera::Context, key: &str, value: bool)
    ensures
        bindings(*final(c)) == bindings(*old(c)).insert(key@, AnswerValue::Boolean(value)),
        holds_answers_only(*old(c)) ==> holds_answers_only(*final(c)),
{
    c.insert(key, &value)
}

/// `tera::Context::insert` with a string: the variable `key` then holds
/// `value`, in place of what it held; the other variables stay. A context of
/// booleans and strings stays one.
#[verifier::external_body]
fn bind_text(c: &mut tera::Context, key: &str, value: &str)
    ensures
        bindings(*final(c)) == bindings(*old(c)).insert(key@, AnswerValue::Text(value@)),
        holds_answers_only(*old(c)) ==> holds_answers_only(*final(c)),
{
    c.insert(key, value)
}

/// `tera::Tera::one_off` without escaping: the template evaluated against
/// the context, with the message of tera's error where it fails. Only
/// templates of text and placeholders are admitted: for these tera's parser
/// gives text and single variables, and its renderer writes the text and
/// looks the variables up, with an error where one is missing. Arithmetic,
/// filters, functions and tests, where tera's source has arms that do not
/// return or that read the time, the environment or a random number, cannot
/// be written in such a template. So the result depends on the template and
/// the variables alone. A template in which no tag opens is one piece of
/// text and evaluates to itself whatever the context holds.
#[verifier::external_body]
fn evaluate(template: &str, c: &tera::Context) -> (evaluated: Result<String, String>)
    requires
        is_simple(template@),
        holds_answers_only(*c),
    ensures
        evaluated_view(evaluated) == evaluation(template@, bindings(*c)),
        is_plain(template@) ==> evaluated is Ok && evaluated->Ok_0@ == template@,
{
    match tera::Tera::one_off(template, c, false) {
        Ok(text) => Ok(text),
        Err(e) => Err(e.to_string()),
    }
}

/// The variables for the evaluator: every answer of the context under its
/// key, unwrapped to the boolean or the text that it holds.
pub fn render_bindings(context: &AnswerContext) -> (c: tera::Context)
    requires
        context.wf(),
    ensures
        bindings(c) == context@,
        holds_answers_only(c),
{
    let mut c = empty_bindings();
    let n = context.len();
    let mut i: usize = 0;
    assert(context.entries().take(0) =~= Seq::empty());
    assert(bindings(c) =~= entries_map(context.entries().take(0)));
    while i < n
        invariant
            i <= n,
            n == context.entries().len(),
            bindings(c) == entries_map(context.entries().take(i as int)),
            holds_answers_only(c),
        decreases n - i,
    {
        let e = context.entry(i);
        proof {
            let grown = context.entries().take(i + 1);
            assert(grown.drop_last() =~= context.entries().take(i as int));
            assert(grown.last() == context.entries()[i as int]);
        }
        match &e.value {
            ContextValue::Boolean(b) => bind_flag(&mut c, e.key.as_str(), *b),
            ContextValue::String(s) => bind_text(&mut c, e.key.as_str(), s.as_str()),
        }
        i += 1;
    }
    assert(context.entries().take(n as int) =~= context.entries());
    c
}

/// Evaluates `template`, which holds nothing but text and placeholders,
/// against the answers of `context`: what the evaluator makes of the
/// template with every answer as a variable, which is the rendered text, or
/// its message where a placeholder is malformed or names a variable that the
/// context lacks. Text in which no tag opens is rendered as it stands,
/// whatever the context holds.
pub fn render_text(template: &str, context: &AnswerContext) -> (rendered: Result<String, String>)
    requires
        context.wf(),
        is_simple(template@),
    ensures
        evaluated_view(rendered) == evaluation(template@, context@),
        is_plain(template@) ==> rendered is Ok && rendered->Ok_0@ == template@,
{
    let c = render_bindings(context);
    evaluate(template, &c)
}

/// The folder that the project is rendered into: the text stored under
/// `root_dir`, or `.` where there is none.
pub open spec fn root_of(context: Map<Seq<char>, AnswerValue>) -> Seq<char> {
    if context.contains_key("root_dir"@) {
        match context["root_dir"@] {
            AnswerValue::Text(s) => s,
            AnswerValue::Boolean(_) => "."@,
        }
    } else {
        "."@
    }
}

/// The folder that the project is rendered into.
pub fn get_root_project_folder(context: &AnswerContext) -> (root: String)
    requires
        context.wf(),
    ensures
        root@ == root_of(context@),
{
    match context.get("root_dir") {
        Some(ContextValue::String(s)) => s.clone(),
        _ => String::from_str("."),
    }
}

/// Where a file goes, as a mathematical value.
pub struct DestinationSpec {
    pub root: Seq<char>,
    pub relative_path: Seq<Seq<char>>,
}

/// Where a file goes: under `root`, at the path that it has in the tree.
#[derive(Clone, Debug, PartialEq)]
pub struct Destination {
    pub root: String,
    pub relative_path: Vec<String>,
}

impl View for Destination {
    type V = DestinationSpec;

    open spec fn view(&self) -> DestinationSpec {
        DestinationSpec { root: self.root@, relative_path: texts(self.relative_path@) }
    }
}

/// Where the file at `relative_path` goes: under the root that the context
/// names, at the same path.
pub open spec fn destination_of(
    context: Map<Seq<char>, AnswerValue>,
    relative_path: Seq<Seq<char>>,
) -> DestinationSpec {
    DestinationSpec { root: root_of(context), relative_path }
}

/// Where the file at `relative_path` goes.
pub fn destination(context: &AnswerContext, relative_path: &Vec<String>) -> (to: Destination)
    requires
        context.wf(),
    ensures
        to@ == destination_of(context@, texts(relative_path@)),
{
    Destination {
        root: get_root_project_folder(context),
        relative_path: copy_texts(relative_path),
    }
}

/// Why a file was passed over, as a mathematical value.
pub enum SkipSpec {
    Unreadable,
    TemplateFailed(Seq<char>),
}

/// Why a file was passed over.
#[derive(Clone, Debug, PartialEq)]
pub enum SkipReason {
    /// The file could not be read as text.
    Unreadable,
    /// The evaluator refused the template, with this message.
    TemplateFailed(String),
}

impl View for SkipReason {
    type V = SkipSpec;

    open spec fn view(&self) -> SkipSpec {
        match self {
            SkipReason::Unreadable => SkipSpec::Unreadable,
            SkipReason::TemplateFailed(m) => SkipSpec::TemplateFailed(m@),
        }
    }
}

/// What is to be done for a file, as a mathematical value.
pub enum ActionSpec {
    Write { to: DestinationSpec, content: Seq<char> },
    Copy { to: DestinationSpec },
    Skip { reason: SkipSpec },
    Defer { to: DestinationSpec },
}

/// What is to be done for a file of the tree.
#[derive(Clone, Debug, PartialEq)]
pub enum RenderAction {
    /// Write `content` to the destination.
    Write { to: Destination, content: String },
    /// Copy the file to the destination as it is.
    Copy { to: Destination },
    /// Report the reason and go on with the next file.
    Skip { reason: SkipReason },
    /// The template holds more than text and placeholders. The caller
    /// evaluates it against the bindings of the context and hands the
    /// result to [`text_action`] with this destination.
    Defer { to: Destination },
}

impl View for RenderAction {
    type V = ActionSpec;

    open spec fn view(&self) -> ActionSpec {
        match self {
            RenderAction::Write { to, content } => ActionSpec::Write { to: to@, content: content@ },
            RenderAction::Copy { to } => ActionSpec::Copy { to: to@ },
            RenderAction::Skip { reason } => ActionSpec::Skip { reason: reason@ },
            RenderAction::Defer { to } => ActionSpec::Defer { to: to@ },
        }
    }
}

/// What is done with a text file once its template was evaluated: the
/// rendered text is written to the destination; a failure passes the file
/// over.
pub open spec fn text_action_of(
    to: DestinationSpec,
    evaluated: Result<Seq<char>, Seq<char>>,
) -> ActionSpec {
    match evaluated {
        Ok(content) => ActionSpec::Write { to, content },
        Err(message) => ActionSpec::Skip { reason: SkipSpec::TemplateFailed(message) },
    }
}

/// What is done with a text file once its template was evaluated.
pub fn text_action(to: Destination, evaluated: Result<String, String>) -> (action: RenderAction)
    ensures
        action@ == text_action_of(to@, evaluated_view(evaluated)),
{
    match evaluated {
        Ok(content) => RenderAction::Write { to, content },
        Err(message) => RenderAction::Skip { reason: SkipReason::TemplateFailed(message) },
    }
}

/// The characters of an optional string slice.
pub open spec fn optional_str(content: Option<&str>) -> Option<Seq<char>> {
    match content {
        Some(text) => Some(text@),
        None => None,
    }
}

/// What the engine does for a text file that was read. Plain text is
/// written to the destination as it stands. A template of text and
/// placeholders is evaluated with the answers as its variables: it is
/// written rendered, or passed over with the evaluator's message. Any other
/// template is left to the caller.
pub open spec fn fits_text(
    to: DestinationSpec,
    content: Seq<char>,
    context: Map<Seq<char>, AnswerValue>,
    action: ActionSpec,
) -> bool {
    if !is_simple(content) {
        action == (ActionSpec::Defer { to })
    } else if is_plain(content) {
        action == (ActionSpec::Write { to, content })
    } else {
        action == text_action_of(to, evaluation(content, context))
    }
}

/// Whether `action` is the one that the engine takes for a file of the given
/// kind, path and content. A binary file is copied to its destination and
/// never evaluated. A text file that could not be read is passed over. A
/// text file that was read is treated as [`fits_text`] says.
pub open spec fn fits(
    kind: FileKind,
    relative_path: Seq<Seq<char>>,
    content: Option<Seq<char>>,
    context: Map<Seq<char>, AnswerValue>,
    action: ActionSpec,
) -> bool {
    let to = destination_of(context, relative_path);
    match kind {
        FileKind::Binary => action == (ActionSpec::Copy { to }),
        FileKind::Text => match content {
            None => action == (ActionSpec::Skip { reason: SkipSpec::Unreadable }),
            Some(text) => fits_text(to, text, context, action),
        },
    }
}

/// Decides what is done for one file of the tree. `content` is the text of
/// a text file, or nothing where it could not be read; for a binary file it
/// is not looked at. A template of text and placeholders is evaluated here;
/// one that holds more is handed back to the caller to evaluate.
pub fn plan_entry(entry: &SourceEntry, content: Option<&str>, context: &AnswerContext) -> (action:
    RenderAction)
    requires
        context.wf(),
    ensures
        fits(
            entry.kind,
            texts(entry.relative_path@),
            optional_str(content),
            context@,
            action@,
        ),
{
    let to = destination(context, &entry.relative_path);
    match entry.kind {
        FileKind::Binary => RenderAction::Copy { to },
        FileKind::Text => match content {
            None => RenderAction::Skip { reason: SkipReason::Unreadable },
            Some(template) => {
                if is_placeholder_template(template) {
                    let evaluated = render_text(template, context);
                    let action = text_action(to, evaluated);
                    assert(action@ == text_action_of(to@, evaluated_view(evaluated)));
                    action
                } else {
                    RenderAction::Defer { to }
                }
            },
        },
    }
}

/// A file of the tree with the text that was read from it: nothing for a
/// binary file, and nothing for a text file that could not be read.
#[derive(Clone, Debug, PartialEq)]
pub struct LoadedFile {
    pub entry: SourceEntry,
    pub content: Option<String>,
}

/// Whether `action` is one that the engine may take for `file`.
pub open spec fn fits_file(
    file: LoadedFile,
    context: Map<Seq<char>, AnswerValue>,
    action: ActionSpec,
) -> bool {
    fits(
        file.entry.kind,
        texts(file.entry.relative_path@),
        crate::schema::optional_text(file.content),
        context,
        action,
    )
}

/// Decides what is done for each file of the tree, in the order of the
/// tree. A file that is passed over stops nothing: every file gets its
/// action.
pub fn plan_tree(files: &Vec<LoadedFile>, context: &AnswerContext) -> (actions: Vec<RenderAction>)
    requires
        context.wf(),
    ensures
        actions@.len() == files@.len(),
        forall|i: int|
            0 <= i < files@.len() ==> fits_file(files@[i], context@, (#[trigger] actions@[i])@),
{
    let mut actions: Vec<RenderAction> = Vec::new();
    let mut i: usize = 0;
    while i < files.len()
        invariant
            i <= files@.len(),
            actions@.len() == i,
            context.wf(),
            forall|j: int| 0 <= j < i ==> fits_file(files@[j], context@, (#[trigger] actions@[j])@),
        decreases files@.len() - i,
    {
        let file = &files[i];
        let action = match &file.content {
            Some(text) => plan_entry(&file.entry, Some(text.as_str()), context),
            None => plan_entry(&file.entry, None, context),
        };
        actions.push(action);
        i += 1;
    }
    actions
}

/// How many of the actions pass a file over.
pub open spec fn skips(actions: Seq<RenderAction>) -> nat
    decreases actions.len(),
{
    if actions.len() == 0 {
        0
    } else {
        skips(actions.drop_last()) + if actions.last() is Skip {
            1nat
        } else {
            0nat
        }
    }
}

/// How many files were passed over: the number of failures to report.
pub fn count_skips(actions: &Vec<RenderAction>) -> (n: usize)
    ensures
        n == skips(actions@),
{
    let mut n: usize = 0;
    let mut i: usize = 0;
    assert(actions@.take(0) =~= Seq::empty());
    while i < actions.len()
        invariant
            i <= actions@.len(),
            n <= i,
            n == skips(actions@.take(i as int)),
        decreases actions@.len() - i,
    {
        proof {
            let grown = actions@.take(i + 1);
            assert(grown.drop_last() =~= actions@.take(i as int));
            assert(grown.last() == actions@[i as int]);
        }
        match &actions[i] {
            RenderAction::Skip { .. } => {
                n += 1;
            },
            _ => {},
        }
        i += 1;
    }
    assert(actions@.take(i as int) =~= actions@);
    n
}

} // verus!
