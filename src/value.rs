//! Values crossing the boundary with the script engine: the untyped call
//! arguments coming in, and the replies going out.
use vstd::prelude::*;
use crate::error::{ErrorValue, ErrorView};
use crate::stat::StatRecord;

verus! {

/// One untyped call argument as the engine hands it over.
#[derive(Clone, Debug, PartialEq, Eq)]
pub enum JsValue {
    UnDefined,
    Null,
    Bool(bool),
    Int(i32),
    /// A floating-point number, carried as the `u64` that truncating it
    /// gives (saturating at the ends of the range, NaN as zero).
    Float(u64),
    Str(String),
    /// Objects, functions and every other engine value.
    Other,
}

/// The string at position `i`, if there is one there.
pub open spec fn str_arg(args: Seq<JsValue>, i: int) -> Option<Seq<char>> {
    if 0 <= i < args.len() {
        match args[i] {
            JsValue::Str(s) => Some(s@),
            _ => None,
        }
    } else {
        None
    }
}

/// The integer at position `i`, if there is one there.
pub open spec fn int_arg(args: Seq<JsValue>, i: int) -> Option<i32> {
    if 0 <= i < args.len() {
        match args[i] {
            JsValue::Int(v) => Some(v),
            _ => None,
        }
    } else {
        None
    }
}

/// The boolean at position `i`, if there is one there.
pub open spec fn bool_arg(args: Seq<JsValue>, i: int) -> Option<bool> {
    if 0 <= i < args.len() {
        match args[i] {
            JsValue::Bool(v) => Some(v),
            _ => None,
        }
    } else {
        None
    }
}

/// The float at position `i`, if there is one there.
pub open spec fn float_arg(args: Seq<JsValue>, i: int) -> Option<u64> {
    if 0 <= i < args.len() {
        match args[i] {
            JsValue::Float(v) => Some(v),
            _ => None,
        }
    } else {
        None
    }
}

pub fn arg_str(args: &Vec<JsValue>, i: usize) -> (r: Option<String>)
    ensures
        match r {
            Some(s) => str_arg(args@, i as int) == Some(s@),
            None => str_arg(args@, i as int) is None,
        },
{
    if i < args.len() {
        match &args[i] {
            JsValue::Str(s) => Some(s.clone()),
            _ => None,
        }
    } else {
        None
    }
}

pub fn arg_int(args: &Vec<JsValue>, i: usize) -> (r: Option<i32>)
    ensures
        r == int_arg(args@, i as int),
{
    if i < args.len() {
        match &args[i] {
            JsValue::Int(v) => Some(*v),
            _ => None,
        }
    } else {
        None
    }
}

pub fn arg_bool(args: &Vec<JsValue>, i: usize) -> (r: Option<bool>)
    ensures
        r == bool_arg(args@, i as int),
{
    if i < args.len() {
        match &args[i] {
            JsValue::Bool(v) => Some(*v),
            _ => None,
        }
    } else {
        None
    }
}

pub fn arg_float(args: &Vec<JsValue>, i: usize) -> (r: Option<u64>)
    ensures
        r == float_arg(args@, i as int),
{
    if i < args.len() {
        match &args[i] {
            JsValue::Float(v) => Some(*v),
            _ => None,
        }
    } else {
        None
    }
}

/// What an operation hands back to the script.
#[derive(Clone, Debug, PartialEq, Eq)]
pub enum Reply {
    /// The undefined value: success without a result, or a call whose
    /// arguments did not fit.
    UnDefined,
    Stat(StatRecord),
    /// A new descriptor.
    Fd(i32),
    /// A resolved path.
    Path(String),
    /// The bytes of a read, in a fresh array buffer.
    Buffer(Vec<u8>),
    /// An exception carrying this error object.
    Throw(ErrorValue),
    /// A deferred completion that a later event settles.
    Promise,
}

/// The mathematical value of a [`Reply`].
pub ghost enum ReplyView {
    UnDefined,
    Stat(StatRecord),
    Fd(i32),
    Path(Seq<char>),
    Buffer(Seq<u8>),
    Throw(ErrorView),
    Promise,
}

impl View for Reply {
    type V = ReplyView;

    open spec fn view(&self) -> ReplyView {
        match self {
            Reply::UnDefined => ReplyView::UnDefined,
            Reply::Stat(s) => ReplyView::Stat(*s),
            Reply::Fd(fd) => ReplyView::Fd(*fd),
            Reply::Path(p) => ReplyView::Path(p@),
            Reply::Buffer(b) => ReplyView::Buffer(b@),
            Reply::Throw(e) => ReplyView::Throw(e@),
            Reply::Promise => ReplyView::Promise,
        }
    }
}

} // verus!
