//! The three operations of the launcher interface.

use vstd::prelude::*;
use crate::device::Device;
use crate::text::{starts_with, tail_from};
use crate::value::{conforms, views_of, Action, ArgType, MatchResult, MatchResultView, Value, ValueView};

verus! {

/// The relevance of a definition match.
pub const MATCH_RELEVANCE: i32 = 100;

/// The score of a definition match, 1.0, as its IEEE 754 bit pattern.
pub const MATCH_SCORE_BITS: u64 = 0x3FF0_0000_0000_0000;

/// What a query begins with when it asks for a definition.
pub open spec fn query_prefix() -> Seq<char> {
    "def "@
}

/// What the label of a definition match begins with.
pub open spec fn label_prefix() -> Seq<char> {
    "Definition: "@
}

/// The icon of a definition match.
pub open spec fn match_icon() -> Seq<char> {
    "internet-web-browser"@
}

/// What the command that opens a definition begins with; the word follows.
pub open spec fn command_prefix() -> Seq<char> {
    "xdg-open https://www.cnrtl.fr/definition/"@
}

/// The match that offers the definition of `word`.
pub open spec fn definition_match(word: Seq<char>) -> MatchResultView {
    MatchResultView {
        id: word,
        label: label_prefix() + word,
        icon_name: match_icon(),
        relevance: MATCH_RELEVANCE,
        score_bits: MATCH_SCORE_BITS,
        extra_data: Seq::empty(),
    }
}

/// The results of a query: one definition match for what follows the query
/// prefix, if the query begins with it; none otherwise.
pub open spec fn match_results(query: Seq<char>) -> Seq<MatchResultView> {
    if query_prefix().is_prefix_of(query) {
        seq![definition_match(query.skip(query_prefix().len() as int))]
    } else {
        Seq::empty()
    }
}

/// The shell command that opens the definition of `match_id`.
pub open spec fn open_command(match_id: Seq<char>) -> Seq<char> {
    command_prefix() + match_id
}

/// The views of a sequence of matches, in order.
pub open spec fn match_views(matches: Seq<MatchResult>) -> Seq<MatchResultView> {
    matches.map_values(|m: MatchResult| m@)
}

/// `Actions`: the actions that the service offers for its matches. There
/// are none.
pub fn actions() -> (list: Vec<Action>)
    ensures
        list@.len() == 0,
{
    Vec::new()
}

/// `Match`: the results for `query`. The prefix is compared as it is
/// written, case included, and is taken off once.
pub fn match_query(query: &str) -> (results: Vec<MatchResult>)
    ensures
        match_views(results@) == match_results(query@),
{
    let mut results: Vec<MatchResult> = Vec::new();
    if starts_with(query, "def ") {
        let skipped: usize = "def ".unicode_len();
        let word = tail_from(query, skipped);
        let label = String::from_str("Definition: ").concat(word.as_str());
        let found = MatchResult {
            id: word,
            label,
            icon_name: String::from_str("internet-web-browser"),
            relevance: MATCH_RELEVANCE,
            score_bits: MATCH_SCORE_BITS,
            extra_data: Vec::new(),
        };
        assert(found@.extra_data =~= Seq::empty());
        results.push(found);
    }
    results
}

/// Asking twice gives the same answer: whatever `Match` returns for a query
/// depends on the query alone, so any two of its answers to one query are
/// the same.
pub proof fn match_is_idempotent(query: Seq<char>, first: Seq<MatchResult>, second: Seq<MatchResult>)
    requires
        match_views(first) == match_results(query),
        match_views(second) == match_results(query),
    ensures
        match_views(first) == match_views(second),
        first.len() == second.len(),
{
    assert(match_views(first).len() == first.len());
    assert(match_views(second).len() == second.len());
}

/// `Run`: the shell commands to execute for the match `match_id`; the
/// action is not looked at. There is exactly one command, and it opens the
/// definition of `match_id`.
///
/// `match_id` goes into the command as it is, neither checked nor escaped:
/// whoever may call `Run` on the bus chooses what the shell is given.
pub fn run(match_id: &str, _action_id: &str) -> (commands: Vec<String>)
    ensures
        commands@.len() == 1,
        commands@[0]@ == open_command(match_id@),
{
    let command = String::from_str("xdg-open https://www.cnrtl.fr/definition/").concat(match_id);
    let mut commands: Vec<String> = Vec::new();
    commands.push(command);
    commands
}

/// Names the operation that a call is handed to.
#[derive(Clone, Copy, Debug, PartialEq, Eq, Structural)]
pub enum Handler {
    Actions,
    Run,
    Match,
}

impl Handler {
    /// The types of the arguments that the operation takes, in order.
    pub open spec fn input_types(self) -> Seq<ArgType> {
        match self {
            Handler::Actions => seq![],
            Handler::Run => seq![ArgType::Str, ArgType::Str],
            Handler::Match => seq![ArgType::Str],
        }
    }

    /// The types of the values that the operation returns, in order.
    pub open spec fn output_types(self) -> Seq<ArgType> {
        match self {
            Handler::Actions => seq![ArgType::ActionList],
            Handler::Run => seq![],
            Handler::Match => seq![ArgType::MatchList],
        }
    }

    /// The types of the arguments that the operation takes, in order.
    pub fn inputs(self) -> (types: Vec<ArgType>)
        ensures
            types@ == self.input_types(),
    {
        let mut types: Vec<ArgType> = Vec::new();
        match self {
            Handler::Actions => {},
            Handler::Run => {
                types.push(ArgType::Str);
                types.push(ArgType::Str);
            },
            Handler::Match => {
                types.push(ArgType::Str);
            },
        }
        types
    }

    /// The types of the values that the operation returns, in order.
    pub fn outputs(self) -> (types: Vec<ArgType>)
        ensures
            types@ == self.output_types(),
    {
        let mut types: Vec<ArgType> = Vec::new();
        match self {
            Handler::Actions => {
                types.push(ArgType::ActionList);
            },
            Handler::Run => {},
            Handler::Match => {
                types.push(ArgType::MatchList);
            },
        }
        types
    }
}

/// What an operation hands back: the values of its reply, and the shell
/// commands that are to be executed on its behalf.
#[derive(Clone, Debug, PartialEq, Eq)]
pub struct HandlerOutput {
    pub values: Vec<Value>,
    pub commands: Vec<String>,
}

/// What a `HandlerOutput` is, over views.
pub ghost struct HandlerOutputView {
    pub values: Seq<ValueView>,
    pub commands: Seq<Seq<char>>,
}

impl View for HandlerOutput {
    type V = HandlerOutputView;

    open spec fn view(&self) -> HandlerOutputView {
        HandlerOutputView {
            values: views_of(self.values@),
            commands: self.commands@.map_values(|c: String| c@),
        }
    }
}

/// What the operation named by `handler` hands back for `args`, which
/// conform to its input types.
pub open spec fn handler_output(handler: Handler, args: Seq<ValueView>) -> HandlerOutputView {
    match handler {
        Handler::Actions => HandlerOutputView {
            values: seq![ValueView::Actions(Seq::empty())],
            commands: Seq::empty(),
        },
        Handler::Run => HandlerOutputView {
            values: Seq::empty(),
            commands: seq![open_command(args[0]->Str_0)],
        },
        Handler::Match => HandlerOutputView {
            values: seq![ValueView::Matches(match_results(args[0]->Str_0))],
            commands: Seq::empty(),
        },
    }
}

/// Hands `args` to the operation named by `handler`, on behalf of the record
/// that the call was sent to. None of the three operations looks at the
/// record, and none fails.
pub fn invoke(handler: Handler, _device: &Device, args: &Vec<Value>) -> (result: Result<
    HandlerOutput,
    String,
>)
    requires
        conforms(views_of(args@), handler.input_types()),
    ensures
        result is Ok,
        result->Ok_0@ == handler_output(handler, views_of(args@)),
{
    let mut values: Vec<Value> = Vec::new();
    let mut commands: Vec<String> = Vec::new();
    match handler {
        Handler::Actions => {
            let list = actions();
            assert(list@.map_values(|a: Action| a@) =~= Seq::empty());
            values.push(Value::Actions(list));
        },
        Handler::Run => {
            assert(views_of(args@)[0].arg_type() == Some(ArgType::Str));
            assert(views_of(args@)[1].arg_type() == Some(ArgType::Str));
            match (&args[0], &args[1]) {
                (Value::Str(match_id), Value::Str(action_id)) => {
                    commands = run(match_id.as_str(), action_id.as_str());
                },
                _ => {},
            }
        },
        Handler::Match => {
            assert(views_of(args@)[0].arg_type() == Some(ArgType::Str));
            match &args[0] {
                Value::Str(query) => {
                    values.push(Value::Matches(match_query(query.as_str())));
                },
                _ => {},
            }
        },
    }
    let output = HandlerOutput { values, commands };
    assert(output@.values =~= handler_output(handler, views_of(args@)).values);
    assert(output@.commands =~= handler_output(handler, views_of(args@)).commands);
    Ok(output)
}

} // verus!
