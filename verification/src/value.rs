//! The values that travel in calls and replies, and the types that describe
//! them.

use vstd::prelude::*;

verus! {

/// Describes the type of one positional argument of an operation.
#[derive(Clone, Copy, Debug, PartialEq, Eq, Structural)]
pub enum ArgType {
    /// A string.
    Str,
    /// A boolean.
    Bool,
    /// An unsigned 8-bit integer.
    Byte,
    /// A signed 16-bit integer.
    Int16,
    /// An unsigned 16-bit integer.
    UInt16,
    /// A signed 32-bit integer.
    Int32,
    /// An unsigned 32-bit integer.
    UInt32,
    /// A signed 64-bit integer.
    Int64,
    /// An unsigned 64-bit integer.
    UInt64,
    /// A double-precision number.
    Double,
    /// An object path.
    ObjectPath,
    /// A type signature.
    Signature,
    /// A sequence of (identifier, description, label) triples.
    ActionList,
    /// A sequence of (id, label, icon name, relevance, score, extra data)
    /// tuples.
    MatchList,
}

/// One action that a launcher can offer for a match.
#[derive(Clone, Debug, PartialEq, Eq)]
pub struct Action {
    pub id: String,
    pub description: String,
    pub label: String,
}

/// What an `Action` is, with its strings as character sequences.
pub ghost struct ActionView {
    pub id: Seq<char>,
    pub description: Seq<char>,
    pub label: Seq<char>,
}

impl View for Action {
    type V = ActionView;

    open spec fn view(&self) -> ActionView {
        ActionView { id: self.id@, description: self.description@, label: self.label@ }
    }
}

/// One result of a query.
#[derive(Clone, Debug, PartialEq, Eq)]
pub struct MatchResult {
    pub id: String,
    pub label: String,
    pub icon_name: String,
    pub relevance: i32,
    /// The score, a double-precision number, as its IEEE 754 bit pattern.
    pub score_bits: u64,
    /// Further properties of the match, as (key, value) pairs.
    pub extra_data: Vec<(String, String)>,
}

/// What a `MatchResult` is, with its strings as character sequences.
pub ghost struct MatchResultView {
    pub id: Seq<char>,
    pub label: Seq<char>,
    pub icon_name: Seq<char>,
    pub relevance: i32,
    pub score_bits: u64,
    pub extra_data: Seq<(Seq<char>, Seq<char>)>,
}

impl View for MatchResult {
    type V = MatchResultView;

    open spec fn view(&self) -> MatchResultView {
        MatchResultView {
            id: self.id@,
            label: self.label@,
            icon_name: self.icon_name@,
            relevance: self.relevance,
            score_bits: self.score_bits,
            extra_data: self.extra_data@.map_values(|e: (String, String)| (e.0@, e.1@)),
        }
    }
}

/// A dynamically typed value: one positional argument of a call or of a
/// reply.
#[derive(Clone, Debug, PartialEq, Eq)]
pub enum Value {
    Str(String),
    Bool(bool),
    Byte(u8),
    Int16(i16),
    UInt16(u16),
    Int32(i32),
    UInt32(u32),
    Int64(i64),
    UInt64(u64),
    /// A double-precision number, as its IEEE 754 bit pattern.
    Double(u64),
    ObjectPath(String),
    Signature(String),
    Actions(Vec<Action>),
    Matches(Vec<MatchResult>),
    /// A value of a type that no operation of this service declares.
    Opaque,
}

/// What a `Value` is, with strings as character sequences and vectors as
/// sequences of views.
pub ghost enum ValueView {
    Str(Seq<char>),
    Bool(bool),
    Byte(u8),
    Int16(i16),
    UInt16(u16),
    Int32(i32),
    UInt32(u32),
    Int64(i64),
    UInt64(u64),
    Double(u64),
    ObjectPath(Seq<char>),
    Signature(Seq<char>),
    Actions(Seq<ActionView>),
    Matches(Seq<MatchResultView>),
    Opaque,
}

impl ValueView {
    /// The type that describes this value; `None` for an opaque one.
    pub open spec fn arg_type(self) -> Option<ArgType> {
        match self {
            ValueView::Str(_) => Some(ArgType::Str),
            ValueView::Bool(_) => Some(ArgType::Bool),
            ValueView::Byte(_) => Some(ArgType::Byte),
            ValueView::Int16(_) => Some(ArgType::Int16),
            ValueView::UInt16(_) => Some(ArgType::UInt16),
            ValueView::Int32(_) => Some(ArgType::Int32),
            ValueView::UInt32(_) => Some(ArgType::UInt32),
            ValueView::Int64(_) => Some(ArgType::Int64),
            ValueView::UInt64(_) => Some(ArgType::UInt64),
            ValueView::Double(_) => Some(ArgType::Double),
            ValueView::ObjectPath(_) => Some(ArgType::ObjectPath),
            ValueView::Signature(_) => Some(ArgType::Signature),
            ValueView::Actions(_) => Some(ArgType::ActionList),
            ValueView::Matches(_) => Some(ArgType::MatchList),
            ValueView::Opaque => None,
        }
    }
}

impl View for Value {
    type V = ValueView;

    open spec fn view(&self) -> ValueView {
        match self {
            Value::Str(s) => ValueView::Str(s@),
            Value::Bool(b) => ValueView::Bool(*b),
            Value::Byte(n) => ValueView::Byte(*n),
            Value::Int16(n) => ValueView::Int16(*n),
            Value::UInt16(n) => ValueView::UInt16(*n),
            Value::Int32(n) => ValueView::Int32(*n),
            Value::UInt32(n) => ValueView::UInt32(*n),
            Value::Int64(n) => ValueView::Int64(*n),
            Value::UInt64(n) => ValueView::UInt64(*n),
            Value::Double(bits) => ValueView::Double(*bits),
            Value::ObjectPath(s) => ValueView::ObjectPath(s@),
            Value::Signature(s) => ValueView::Signature(s@),
            Value::Actions(v) => ValueView::Actions(v@.map_values(|a: Action| a@)),
            Value::Matches(v) => ValueView::Matches(v@.map_values(|m: MatchResult| m@)),
            Value::Opaque => ValueView::Opaque,
        }
    }
}

impl Value {
    /// The type that describes this value; `None` for an opaque one.
    pub fn arg_type(&self) -> (t: Option<ArgType>)
        ensures
            t == self@.arg_type(),
    {
        match self {
            Value::Str(_) => Some(ArgType::Str),
            Value::Bool(_) => Some(ArgType::Bool),
            Value::Byte(_) => Some(ArgType::Byte),
            Value::Int16(_) => Some(ArgType::Int16),
            Value::UInt16(_) => Some(ArgType::UInt16),
            Value::Int32(_) => Some(ArgType::Int32),
            Value::UInt32(_) => Some(ArgType::UInt32),
            Value::Int64(_) => Some(ArgType::Int64),
            Value::UInt64(_) => Some(ArgType::UInt64),
            Value::Double(_) => Some(ArgType::Double),
            Value::ObjectPath(_) => Some(ArgType::ObjectPath),
            Value::Signature(_) => Some(ArgType::Signature),
            Value::Actions(_) => Some(ArgType::ActionList),
            Value::Matches(_) => Some(ArgType::MatchList),
            Value::Opaque => None,
        }
    }
}

/// The views of a sequence of values, in order.
pub open spec fn views_of(values: Seq<Value>) -> Seq<ValueView> {
    values.map_values(|v: Value| v@)
}

/// Whether `args` has one value for each declared type, each of that type.
pub open spec fn conforms(args: Seq<ValueView>, types: Seq<ArgType>) -> bool {
    &&& args.len() == types.len()
    &&& forall|i: int| 0 <= i < args.len() ==> (#[trigger] args[i]).arg_type() == Some(types[i])
}

/// Decides `conforms` for the arguments of a call against the declared
/// types of an operation.
pub fn check_conforms(args: &Vec<Value>, types: &Vec<ArgType>) -> (ok: bool)
    ensures
        ok == conforms(views_of(args@), types@),
{
    if args.len() != types.len() {
        return false;
    }
    let mut i: usize = 0;
    while i < args.len()
        invariant
            i <= args.len(),
            args.len() == types.len(),
            forall|j: int| 0 <= j < i ==> (#[trigger] views_of(args@)[j]).arg_type() == Some(types@[j]),
        decreases args.len() - i,
    {
        let t = args[i].arg_type();
        let matches_declared = match t {
            Some(found) => found == types[i],
            None => false,
        };
        if !matches_declared {
            assert(views_of(args@)[i as int].arg_type() != Some(types@[i as int]));
            return false;
        }
        i += 1;
    }
    true
}

} // verus!
