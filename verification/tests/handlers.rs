use krunner_cnrtl::device::Device;
use krunner_cnrtl::handlers::{
    actions, invoke, match_query, run, Handler, HandlerOutput, MATCH_RELEVANCE, MATCH_SCORE_BITS,
};
use krunner_cnrtl::value::{ArgType, MatchResult, Value};

fn definition_of(word: &str) -> MatchResult {
    MatchResult {
        id: word.to_string(),
        label: format!("Definition: {}", word),
        icon_name: "internet-web-browser".to_string(),
        relevance: 100,
        score_bits: 1.0f64.to_bits(),
        extra_data: vec![],
    }
}

#[test]
fn match_with_prefix_returns_one_definition() {
    let results = match_query("def whale");
    assert_eq!(results.len(), 1);
    let found = &results[0];
    assert_eq!(found.id, "whale");
    assert_eq!(found.label, "Definition: whale");
    assert_eq!(found.icon_name, "internet-web-browser");
    assert_eq!(found.relevance, 100);
    assert_eq!(f64::from_bits(found.score_bits), 1.0);
    assert!(found.extra_data.is_empty());
}

#[test]
fn match_without_prefix_returns_nothing() {
    assert_eq!(match_query("whale"), vec![]);
}

#[test]
fn match_with_bare_prefix_returns_empty_word() {
    let results = match_query("def ");
    assert_eq!(results.len(), 1);
    assert_eq!(results[0].id, "");
    assert_eq!(results[0].label, "Definition: ");
    assert_eq!(results[0].icon_name, "internet-web-browser");
    assert_eq!(results[0].relevance, 100);
    assert_eq!(f64::from_bits(results[0].score_bits), 1.0);
    assert!(results[0].extra_data.is_empty());
}

#[test]
fn match_is_case_sensitive() {
    assert_eq!(match_query("Def whale"), vec![]);
    assert_eq!(match_query("DEF whale"), vec![]);
}

#[test]
fn match_needs_the_whole_prefix_at_the_start() {
    assert_eq!(match_query(""), vec![]);
    assert_eq!(match_query("def"), vec![]);
    assert_eq!(match_query("defwhale"), vec![]);
    assert_eq!(match_query(" def whale"), vec![]);
    assert_eq!(match_query("undef whale"), vec![]);
}

#[test]
fn match_takes_the_prefix_off_once() {
    assert_eq!(match_query("def def whale"), vec![definition_of("def whale")]);
}

#[test]
fn match_keeps_the_rest_as_it_is() {
    assert_eq!(match_query("def  blue whale "), vec![definition_of(" blue whale ")]);
    assert_eq!(match_query("def façade"), vec![definition_of("façade")]);
}

#[test]
fn match_repeated_gives_the_same_results() {
    let first = match_query("def whale");
    let second = match_query("def whale");
    let third = match_query("def whale");
    assert_eq!(first, second);
    assert_eq!(second, third);
    assert_eq!(match_query("whale"), match_query("whale"));
}

#[test]
fn match_constants_are_one_hundred_and_one() {
    assert_eq!(MATCH_RELEVANCE, 100);
    assert_eq!(f64::from_bits(MATCH_SCORE_BITS), 1.0);
}

#[test]
fn actions_is_always_empty() {
    assert!(actions().is_empty());
    assert!(actions().is_empty());
}

#[test]
fn run_gives_exactly_one_command() {
    let commands = run("anything", "ignored");
    assert_eq!(commands, vec!["xdg-open https://www.cnrtl.fr/definition/anything".to_string()]);
}

#[test]
fn run_does_not_look_at_the_action() {
    assert_eq!(run("whale", ""), run("whale", "open"));
}

#[test]
fn run_inserts_the_match_id_unescaped() {
    let commands = run("a b; c", "");
    assert_eq!(commands.len(), 1);
    assert_eq!(commands[0], "xdg-open https://www.cnrtl.fr/definition/a b; c");
}

#[test]
fn handler_types_are_those_of_the_interface() {
    assert_eq!(Handler::Actions.inputs(), vec![]);
    assert_eq!(Handler::Actions.outputs(), vec![ArgType::ActionList]);
    assert_eq!(Handler::Run.inputs(), vec![ArgType::Str, ArgType::Str]);
    assert_eq!(Handler::Run.outputs(), vec![]);
    assert_eq!(Handler::Match.inputs(), vec![ArgType::Str]);
    assert_eq!(Handler::Match.outputs(), vec![ArgType::MatchList]);
}

#[test]
fn invoke_actions_returns_one_empty_list() {
    let device = Device::new();
    let output = invoke(Handler::Actions, &device, &vec![]);
    assert_eq!(
        output,
        Ok(HandlerOutput { values: vec![Value::Actions(vec![])], commands: vec![] })
    );
}

#[test]
fn invoke_run_returns_no_value_and_one_command() {
    let device = Device::new();
    let args = vec![Value::Str("anything".to_string()), Value::Str("ignored".to_string())];
    let output = invoke(Handler::Run, &device, &args);
    assert_eq!(
        output,
        Ok(HandlerOutput {
            values: vec![],
            commands: vec!["xdg-open https://www.cnrtl.fr/definition/anything".to_string()],
        })
    );
}

#[test]
fn invoke_match_returns_one_list() {
    let device = Device::new();
    let hit = invoke(Handler::Match, &device, &vec![Value::Str("def whale".to_string())]);
    assert_eq!(
        hit,
        Ok(HandlerOutput {
            values: vec![Value::Matches(vec![definition_of("whale")])],
            commands: vec![],
        })
    );
    let miss = invoke(Handler::Match, &device, &vec![Value::Str("whale".to_string())]);
    assert_eq!(miss, Ok(HandlerOutput { values: vec![Value::Matches(vec![])], commands: vec![] }));
}
