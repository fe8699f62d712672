use scaffolder::context::{AnswerContext, ContextValue};
use scaffolder::engine::{resolve, Outcome, ResolveError, Resolver};
use scaffolder::rules::{
    branch_fires, decide_reply, follow_ups_for, prompt_kind, put_question, strip_follow_up,
    validate_text, Decision, PromptKind, Question, Reply, Validation,
};
use scaffolder::schema::{Callback, FollowupPromot, TemplatePrompt};

fn text_prompt(key: &str) -> TemplatePrompt {
    TemplatePrompt {
        kind: "string".to_string(),
        field_key: key.to_string(),
        prompt: format!("Value of {}?", key),
        ..TemplatePrompt::default()
    }
}

fn follow_up(kind: &str, key: &str) -> FollowupPromot {
    FollowupPromot {
        kind: kind.to_string(),
        field_key: key.to_string(),
        prompt: format!("Value of {}?", key),
        ..FollowupPromot::default()
    }
}

fn bool_prompt(key: &str, callbacks: Option<Vec<Callback>>) -> TemplatePrompt {
    TemplatePrompt {
        kind: "bool".to_string(),
        field_key: key.to_string(),
        prompt: format!("{}?", key),
        callbacks,
        ..TemplatePrompt::default()
    }
}

fn enum_prompt(key: &str, values: &[&str]) -> TemplatePrompt {
    TemplatePrompt {
        kind: "enum".to_string(),
        field_key: key.to_string(),
        prompt: format!("Pick {}", key),
        enums: Some(values.iter().map(|v| v.to_string()).collect()),
        ..TemplatePrompt::default()
    }
}

fn typed(value: &str) -> Reply {
    Reply::Text { value: value.to_string(), names_existing_folder: false }
}

fn both_branches() -> Vec<Callback> {
    vec![
        Callback {
            follow_up_prompts: vec![follow_up("string", "db_name"), follow_up("bool", "db_pool")],
            condition: "TRUE".to_string(),
        },
        Callback {
            follow_up_prompts: vec![follow_up("string", "why_not")],
            condition: "FALSE".to_string(),
        },
    ]
}

#[test]
fn kinds_are_told_by_their_tag() {
    assert_eq!(prompt_kind("string"), PromptKind::Text);
    assert_eq!(prompt_kind("bool"), PromptKind::Confirm);
    assert_eq!(prompt_kind("enum"), PromptKind::Choice);
    assert_eq!(prompt_kind("number"), PromptKind::Unknown);
    assert_eq!(prompt_kind("String"), PromptKind::Unknown);
    assert_eq!(prompt_kind(""), PromptKind::Unknown);
}

#[test]
fn required_text_refuses_empty_input() {
    assert_eq!(validate_text("", Some(true), None, false), Validation::TooShort);
    assert_eq!(validate_text("a", Some(true), None, false), Validation::Valid);
    assert_eq!(validate_text("", Some(false), None, false), Validation::Valid);
    assert_eq!(validate_text("", None, None, false), Validation::Valid);
}

#[test]
fn path_validator_refuses_existing_folder_but_not_dot() {
    assert_eq!(validate_text("src", None, Some(true), true), Validation::FolderExists);
    assert_eq!(validate_text("src", None, Some(true), false), Validation::Valid);
    assert_eq!(validate_text(".", None, Some(true), true), Validation::Valid);
    assert_eq!(validate_text("src", None, Some(false), true), Validation::Valid);
    assert_eq!(validate_text("src", None, None, true), Validation::Valid);
    assert_eq!(validate_text("", Some(true), Some(true), true), Validation::TooShort);
}

#[test]
fn branches_fire_on_their_own_answer_only() {
    assert!(branch_fires("TRUE", true));
    assert!(!branch_fires("TRUE", false));
    assert!(branch_fires("FALSE", false));
    assert!(!branch_fires("FALSE", true));
    assert!(!branch_fires("true", true));
    assert!(!branch_fires("", false));
}

#[test]
fn text_question_carries_default_and_validators() {
    let mut p = text_prompt("root_dir");
    p.default = Some("app".to_string());
    p.is_required = Some(true);
    p.enable_path_exist_validator = Some(true);
    assert_eq!(
        put_question(&p),
        Question::Text {
            prompt: "Value of root_dir?".to_string(),
            default: Some("app".to_string()),
            required: true,
            check_path: true,
        }
    );
}

#[test]
fn confirm_default_is_yes_only_for_true() {
    let mut p = bool_prompt("docker", None);
    assert_eq!(
        put_question(&p),
        Question::Confirm { prompt: "docker?".to_string(), preselected: None }
    );
    p.default = Some("TRUE".to_string());
    assert_eq!(
        put_question(&p),
        Question::Confirm { prompt: "docker?".to_string(), preselected: Some(true) }
    );
    p.default = Some("yes".to_string());
    assert_eq!(
        put_question(&p),
        Question::Confirm { prompt: "docker?".to_string(), preselected: Some(false) }
    );
}

#[test]
fn choice_without_values_is_a_schema_fault() {
    let mut p = enum_prompt("db", &["pg", "mysql"]);
    assert_eq!(
        put_question(&p),
        Question::Choice {
            prompt: "Pick db".to_string(),
            options: vec!["pg".to_string(), "mysql".to_string()],
        }
    );
    p.enums = None;
    assert_eq!(put_question(&p), Question::Invalid);
}

#[test]
fn stripping_a_follow_up_keeps_fields_and_clears_branches() {
    let f = FollowupPromot {
        kind: "enum".to_string(),
        field_key: "db".to_string(),
        prompt: "Which?".to_string(),
        enums: Some(vec!["pg".to_string()]),
        default: Some("pg".to_string()),
        is_required: Some(true),
        enable_path_exist_validator: Some(false),
    };
    let p = strip_follow_up(&f);
    assert_eq!(
        p,
        TemplatePrompt {
            kind: "enum".to_string(),
            field_key: "db".to_string(),
            prompt: "Which?".to_string(),
            enums: Some(vec!["pg".to_string()]),
            default: Some("pg".to_string()),
            is_required: Some(true),
            enable_path_exist_validator: Some(false),
            callbacks: Some(vec![]),
        }
    );
}

#[test]
fn yes_takes_true_branches_and_no_takes_false_branches() {
    let callbacks = Some(both_branches());
    let on_yes = follow_ups_for(&callbacks, true);
    let keys: Vec<&str> = on_yes.iter().map(|p| p.field_key.as_str()).collect();
    assert_eq!(keys, vec!["db_name", "db_pool"]);
    let on_no = follow_ups_for(&callbacks, false);
    let keys: Vec<&str> = on_no.iter().map(|p| p.field_key.as_str()).collect();
    assert_eq!(keys, vec!["why_not"]);
    assert!(follow_ups_for(&None, true).is_empty());
    assert!(follow_ups_for(&Some(vec![]), false).is_empty());
}

#[test]
fn several_matching_branches_are_taken_in_order() {
    let callbacks = Some(vec![
        Callback { follow_up_prompts: vec![follow_up("string", "a")], condition: "TRUE".to_string() },
        Callback { follow_up_prompts: vec![follow_up("string", "b")], condition: "FALSE".to_string() },
        Callback { follow_up_prompts: vec![], condition: "TRUE".to_string() },
        Callback { follow_up_prompts: vec![follow_up("string", "c")], condition: "TRUE".to_string() },
        Callback { follow_up_prompts: vec![follow_up("string", "d")], condition: "MAYBE".to_string() },
    ]);
    let asked = follow_ups_for(&callbacks, true);
    let keys: Vec<&str> = asked.iter().map(|p| p.field_key.as_str()).collect();
    assert_eq!(keys, vec!["a", "c"]);
}

#[test]
fn decisions_follow_the_rules() {
    let text = text_prompt("name");
    assert!(matches!(
        decide_reply(&text, &typed("widget")),
        Decision::Store(ContextValue::String(s), more) if s == "widget" && more.is_empty()
    ));
    assert!(matches!(decide_reply(&text, &Reply::Cancelled), Decision::Abort));
    assert!(matches!(decide_reply(&text, &Reply::Confirm(true)), Decision::Unexpected));

    let yes_no = bool_prompt("db", Some(both_branches()));
    assert!(matches!(
        decide_reply(&yes_no, &Reply::Confirm(false)),
        Decision::Store(ContextValue::Boolean(false), more) if more.len() == 1
    ));
    assert!(matches!(decide_reply(&yes_no, &Reply::Cancelled), Decision::Abort));

    let choice = enum_prompt("lang", &["rust", "go"]);
    assert!(matches!(
        decide_reply(&choice, &Reply::Choice(1)),
        Decision::Store(ContextValue::String(s), _) if s == "go"
    ));
    assert!(matches!(decide_reply(&choice, &Reply::Choice(2)), Decision::Unexpected));
    assert!(matches!(decide_reply(&choice, &Reply::Cancelled), Decision::Skip));

    let mut odd = text_prompt("x");
    odd.kind = "number".to_string();
    assert!(matches!(decide_reply(&odd, &Reply::Acknowledged), Decision::Skip));
    assert!(matches!(decide_reply(&odd, &typed("1")), Decision::Unexpected));
}

#[test]
fn rejected_input_leaves_the_question_standing() {
    let mut p = text_prompt("name");
    p.is_required = Some(true);
    let mut resolver = Resolver::new(vec![p], AnswerContext::new());
    assert_eq!(resolver.answer(&typed("")), Outcome::Rejected(Validation::TooShort));
    assert!(!resolver.is_finished());
    assert!(matches!(resolver.next_question(), Question::Text { .. }));
    assert_eq!(resolver.context().len(), 0);
    assert_eq!(resolver.answer(&typed("x")), Outcome::Stored);
    assert!(resolver.is_finished());
    assert_eq!(resolver.next_question(), Question::Finished);
    assert_eq!(resolver.answer(&typed("y")), Outcome::Unexpected);
}

#[test]
fn follow_ups_are_asked_before_the_next_top_level_question() {
    let prompts = vec![bool_prompt("db", Some(both_branches())), text_prompt("license")];
    let mut resolver = Resolver::new(prompts, AnswerContext::new());
    assert_eq!(resolver.answer(&Reply::Confirm(true)), Outcome::Stored);
    assert_eq!(
        resolver.next_question(),
        Question::Text {
            prompt: "Value of db_name?".to_string(),
            default: None,
            required: false,
            check_path: false,
        }
    );
    assert_eq!(resolver.answer(&typed("main")), Outcome::Stored);
    assert_eq!(
        resolver.next_question(),
        Question::Confirm { prompt: "Value of db_pool?".to_string(), preselected: None }
    );
    assert_eq!(resolver.answer(&Reply::Confirm(false)), Outcome::Stored);
    assert_eq!(
        resolver.next_question(),
        Question::Text {
            prompt: "Value of license?".to_string(),
            default: None,
            required: false,
            check_path: false,
        }
    );
    assert_eq!(resolver.answer(&typed("MIT")), Outcome::Stored);
    assert!(resolver.is_finished());
    let context = resolver.into_context();
    assert_eq!(context.len(), 4);
    assert_eq!(context.get("db"), Some(&ContextValue::Boolean(true)));
    assert_eq!(context.get("db_name"), Some(&ContextValue::String("main".to_string())));
    assert_eq!(context.get("db_pool"), Some(&ContextValue::Boolean(false)));
    assert_eq!(context.get("license"), Some(&ContextValue::String("MIT".to_string())));
    assert_eq!(context.get("why_not"), None);
}

#[test]
fn resolving_stores_one_entry_per_reached_key() {
    let prompts = vec![
        text_prompt("name"),
        bool_prompt("db", Some(both_branches())),
        enum_prompt("lang", &["rust", "go"]),
    ];
    let replies = vec![typed("widget"), Reply::Confirm(false), typed("no need"), Reply::Choice(0)];
    let context = resolve(prompts, &replies, AnswerContext::new()).unwrap();
    assert_eq!(context.len(), 4);
    assert_eq!(context.get("name"), Some(&ContextValue::String("widget".to_string())));
    assert_eq!(context.get("db"), Some(&ContextValue::Boolean(false)));
    assert_eq!(context.get("why_not"), Some(&ContextValue::String("no need".to_string())));
    assert_eq!(context.get("lang"), Some(&ContextValue::String("rust".to_string())));
    assert_eq!(context.get("db_name"), None);
    assert_eq!(context.get("db_pool"), None);
}

#[test]
fn a_later_answer_under_the_same_key_wins() {
    let prompts = vec![text_prompt("name"), text_prompt("name")];
    let replies = vec![typed("first"), typed("second")];
    let context = resolve(prompts, &replies, AnswerContext::new()).unwrap();
    assert_eq!(context.len(), 1);
    assert_eq!(context.get("name"), Some(&ContextValue::String("second".to_string())));
}

#[test]
fn cancelled_choice_is_passed_over_in_silence() {
    let prompts = vec![enum_prompt("lang", &["rust", "go"]), text_prompt("name")];
    let replies = vec![Reply::Cancelled, typed("widget")];
    let context = resolve(prompts, &replies, AnswerContext::new()).unwrap();
    assert_eq!(context.len(), 1);
    assert_eq!(context.get("lang"), None);
    assert_eq!(context.get("name"), Some(&ContextValue::String("widget".to_string())));
}

#[test]
fn cancelled_text_or_confirm_gives_the_run_up() {
    let replies = vec![Reply::Cancelled];
    let r = resolve(vec![text_prompt("name")], &replies, AnswerContext::new());
    assert_eq!(r.err(), Some(ResolveError::Cancelled));
    let r = resolve(vec![bool_prompt("db", None)], &replies, AnswerContext::new());
    assert_eq!(r.err(), Some(ResolveError::Cancelled));
    let replies = vec![Reply::Confirm(true), Reply::Cancelled];
    let r = resolve(vec![bool_prompt("db", Some(both_branches()))], &replies, AnswerContext::new());
    assert_eq!(r.err(), Some(ResolveError::Cancelled));
}

#[test]
fn unknown_kind_is_reported_and_the_run_goes_on() {
    let mut odd = text_prompt("count");
    odd.kind = "number".to_string();
    let mut resolver = Resolver::new(vec![odd, text_prompt("name")], AnswerContext::new());
    assert_eq!(resolver.next_question(), Question::Invalid);
    assert_eq!(resolver.answer(&Reply::Acknowledged), Outcome::Skipped);
    assert_eq!(resolver.answer(&typed("widget")), Outcome::Stored);
    let context = resolve_rest(resolver);
    assert_eq!(context.len(), 1);
    assert_eq!(context.get("count"), None);
}

fn resolve_rest(resolver: Resolver) -> AnswerContext {
    assert!(resolver.is_finished());
    resolver.into_context()
}

#[test]
fn script_that_ends_early_or_misfits_is_an_error() {
    let r = resolve(vec![text_prompt("a"), text_prompt("b")], &vec![typed("x")], AnswerContext::new());
    assert_eq!(r.err(), Some(ResolveError::Unanswered));
    let r = resolve(vec![text_prompt("a")], &vec![Reply::Choice(0)], AnswerContext::new());
    assert_eq!(r.err(), Some(ResolveError::Unexpected));
    let r = resolve(vec![], &vec![], AnswerContext::new());
    assert_eq!(r.unwrap().len(), 0);
}

#[test]
fn resolving_keeps_what_the_context_held() {
    let mut context = AnswerContext::new();
    context.insert("kept".to_string(), ContextValue::Boolean(true));
    let context = resolve(vec![text_prompt("name")], &vec![typed("w")], context).unwrap();
    assert_eq!(context.len(), 2);
    assert_eq!(context.get("kept"), Some(&ContextValue::Boolean(true)));
}

#[test]
fn nested_follow_up_with_yes_no_kind_asks_nothing_more() {
    let prompts = vec![bool_prompt("db", Some(both_branches()))];
    let replies = vec![Reply::Confirm(true), typed("main"), Reply::Confirm(true)];
    let context = resolve(prompts, &replies, AnswerContext::new()).unwrap();
    assert_eq!(context.len(), 3);
    assert_eq!(context.get("db_pool"), Some(&ContextValue::Boolean(true)));
}

#[test]
fn cancellation_leaves_the_state_as_it_was() {
    let mut resolver = Resolver::new(vec![text_prompt("name")], AnswerContext::new());
    assert_eq!(resolver.answer(&Reply::Cancelled), Outcome::Aborted);
    assert!(!resolver.is_finished());
    assert_eq!(resolver.context().len(), 0);
    assert!(matches!(resolver.next_question(), Question::Text { .. }));
}

#[test]
fn choice_stores_the_picked_value() {
    let mut resolver =
        Resolver::new(vec![enum_prompt("lang", &["rust", "go", "zig"])], AnswerContext::new());
    assert_eq!(resolver.answer(&Reply::Choice(3)), Outcome::Unexpected);
    assert_eq!(resolver.answer(&Reply::Choice(2)), Outcome::Stored);
    let context = resolver.into_context();
    assert_eq!(context.get("lang"), Some(&ContextValue::String("zig".to_string())));
}
