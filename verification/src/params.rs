//! The shapes that parameters must have, and what is wrong with those that
//! have another.

use vstd::prelude::*;
use vstd::string::StringExecFns;
use crate::json::{Json, JsonValue, Number};

verus! {

/// Why a value does not have the shape that was asked for.
#[derive(Debug, PartialEq)]
pub enum ShapeError {
    /// The value is no object.
    NotAnObject,
    /// The object has no member of this name.
    MissingField(String),
    /// The member of this name is no text.
    NotAString(String),
    /// The member of this name is no number.
    NotANumber(String),
}

/// The model of a shape error.
pub enum ShapeErrorView {
    NotAnObject,
    MissingField(Seq<char>),
    NotAString(Seq<char>),
    NotANumber(Seq<char>),
}

impl View for ShapeError {
    type V = ShapeErrorView;

    open spec fn view(&self) -> ShapeErrorView {
        match self {
            ShapeError::NotAnObject => ShapeErrorView::NotAnObject,
            ShapeError::MissingField(field) => ShapeErrorView::MissingField(field@),
            ShapeError::NotAString(field) => ShapeErrorView::NotAString(field@),
            ShapeError::NotANumber(field) => ShapeErrorView::NotANumber(field@),
        }
    }
}

impl ShapeErrorView {
    /// The sentence that reports the error.
    pub open spec fn detail(self) -> Seq<char> {
        match self {
            ShapeErrorView::NotAnObject => "expected an object"@,
            ShapeErrorView::MissingField(field) => "missing field `"@ + field + "`"@,
            ShapeErrorView::NotAString(field) => "field `"@ + field + "` is not a string"@,
            ShapeErrorView::NotANumber(field) => "field `"@ + field + "` is not a number"@,
        }
    }
}

impl ShapeError {
    /// The sentence that reports the error.
    pub fn describe(&self) -> (text: String)
        ensures
            text@ == self@.detail(),
    {
        match self {
            ShapeError::NotAnObject => "expected an object".to_owned(),
            ShapeError::MissingField(field) => {
                let mut text = "missing field `".to_owned();
                text.append(field.as_str());
                text.append("`");
                text
            },
            ShapeError::NotAString(field) => {
                let mut text = "field `".to_owned();
                text.append(field.as_str());
                text.append("` is not a string");
                text
            },
            ShapeError::NotANumber(field) => {
                let mut text = "field `".to_owned();
                text.append(field.as_str());
                text.append("` is not a number");
                text
            },
        }
    }
}

/// The number that an object holds under `field`.
pub open spec fn number_field(arguments: JsonValue, field: Seq<char>) -> Result<
    Number,
    ShapeErrorView,
> {
    match arguments.member(field) {
        None => Err(ShapeErrorView::MissingField(field)),
        Some(JsonValue::Number(n)) => Ok(n),
        Some(_) => Err(ShapeErrorView::NotANumber(field)),
    }
}

/// The text that an object holds under `field`.
pub open spec fn text_field(arguments: JsonValue, field: Seq<char>) -> Result<
    Seq<char>,
    ShapeErrorView,
> {
    match arguments.member(field) {
        None => Err(ShapeErrorView::MissingField(field)),
        Some(JsonValue::Text(s)) => Ok(s),
        Some(_) => Err(ShapeErrorView::NotAString(field)),
    }
}

/// The two operands of a tool that takes `a` and `b`: the value must be an
/// object that holds a number under each name. Other members are ignored.
/// Of several things wrong, the first in this order is reported: the value
/// is no object, `a` is missing or no number, `b` is missing or no number.
pub open spec fn number_pair(arguments: JsonValue) -> Result<(Number, Number), ShapeErrorView> {
    if !(arguments is Object) {
        Err(ShapeErrorView::NotAnObject)
    } else {
        match number_field(arguments, "a"@) {
            Err(e) => Err(e),
            Ok(a) => match number_field(arguments, "b"@) {
                Err(e) => Err(e),
                Ok(b) => Ok((a, b)),
            },
        }
    }
}

/// The operand of a tool that takes `number`: the value must be an object
/// that holds a number under that name. Other members are ignored.
pub open spec fn single_number(arguments: JsonValue) -> Result<Number, ShapeErrorView> {
    if !(arguments is Object) {
        Err(ShapeErrorView::NotAnObject)
    } else {
        number_field(arguments, "number"@)
    }
}

/// The tool's name and its arguments in the parameters of a call: the value
/// must be an object that holds a text under `name` and any value under
/// `arguments`. Of several things wrong, the first in this order is
/// reported: the value is no object, `name` is missing or no text,
/// `arguments` is missing.
pub open spec fn tool_call(params: JsonValue) -> Result<(Seq<char>, JsonValue), ShapeErrorView> {
    if !(params is Object) {
        Err(ShapeErrorView::NotAnObject)
    } else {
        match text_field(params, "name"@) {
            Err(e) => Err(e),
            Ok(name) => match params.member("arguments"@) {
                None => Err(ShapeErrorView::MissingField("arguments"@)),
                Some(arguments) => Ok((name, arguments)),
            },
        }
    }
}

/// Tells whether a value is an object.
pub fn is_object(value: &Json) -> (r: bool)
    ensures
        r == (value@ is Object),
{
    match value {
        Json::Object(_) => true,
        _ => false,
    }
}

/// Reads the number that an object holds under `field`.
pub fn read_number(arguments: &Json, field: &str) -> (r: Result<Number, ShapeError>)
    ensures
        match r {
            Ok(n) => number_field(arguments@, field@) == Ok::<Number, ShapeErrorView>(n),
            Err(e) => number_field(arguments@, field@) == Err::<Number, ShapeErrorView>(e@),
        },
{
    match arguments.get(field) {
        None => Err(ShapeError::MissingField(field.to_owned())),
        Some(Json::Number(n)) => Ok(*n),
        Some(_) => Err(ShapeError::NotANumber(field.to_owned())),
    }
}

/// Reads the text that an object holds under `field`.
pub fn read_text(arguments: &Json, field: &str) -> (r: Result<String, ShapeError>)
    ensures
        match r {
            Ok(s) => text_field(arguments@, field@) == Ok::<Seq<char>, ShapeErrorView>(s@),
            Err(e) => text_field(arguments@, field@) == Err::<Seq<char>, ShapeErrorView>(e@),
        },
{
    match arguments.get(field) {
        None => Err(ShapeError::MissingField(field.to_owned())),
        Some(Json::Text(s)) => Ok(s.clone()),
        Some(_) => Err(ShapeError::NotAString(field.to_owned())),
    }
}

/// The arguments of an addition.
#[derive(Clone, Copy, Debug, PartialEq)]
pub struct AdditionParams {
    pub a: Number,
    pub b: Number,
}

impl AdditionParams {
    /// Reads the arguments of an addition.
    pub fn parse(arguments: &Json) -> (r: Result<AdditionParams, ShapeError>)
        ensures
            match r {
                Ok(p) => number_pair(arguments@) == Ok::<(Number, Number), ShapeErrorView>(
                    (p.a, p.b),
                ),
                Err(e) => number_pair(arguments@) == Err::<(Number, Number), ShapeErrorView>(e@),
            },
    {
        if !is_object(arguments) {
            return Err(ShapeError::NotAnObject);
        }
        let a = match read_number(arguments, "a") {
            Ok(a) => a,
            Err(e) => {
                return Err(e);
            },
        };
        match read_number(arguments, "b") {
            Ok(b) => Ok(AdditionParams { a, b }),
            Err(e) => Err(e),
        }
    }
}

/// The arguments of a multiplication.
#[derive(Clone, Copy, Debug, PartialEq)]
pub struct MultiplicationParams {
    pub a: Number,
    pub b: Number,
}

impl MultiplicationParams {
    /// Reads the arguments of a multiplication.
    pub fn parse(arguments: &Json) -> (r: Result<MultiplicationParams, ShapeError>)
        ensures
            match r {
                Ok(p) => number_pair(arguments@) == Ok::<(Number, Number), ShapeErrorView>(
                    (p.a, p.b),
                ),
                Err(e) => number_pair(arguments@) == Err::<(Number, Number), ShapeErrorView>(e@),
            },
    {
        if !is_object(arguments) {
            return Err(ShapeError::NotAnObject);
        }
        let a = match read_number(arguments, "a") {
            Ok(a) => a,
            Err(e) => {
                return Err(e);
            },
        };
        match read_number(arguments, "b") {
            Ok(b) => Ok(MultiplicationParams { a, b }),
            Err(e) => Err(e),
        }
    }
}

/// The argument of a squaring.
#[derive(Clone, Copy, Debug, PartialEq)]
pub struct SquareParams {
    pub number: Number,
}

impl SquareParams {
    /// Reads the argument of a squaring.
    pub fn parse(arguments: &Json) -> (r: Result<SquareParams, ShapeError>)
        ensures
            match r {
                Ok(p) => single_number(arguments@) == Ok::<Number, ShapeErrorView>(p.number),
                Err(e) => single_number(arguments@) == Err::<Number, ShapeErrorView>(e@),
            },
    {
        if !is_object(arguments) {
            return Err(ShapeError::NotAnObject);
        }
        match read_number(arguments, "number") {
            Ok(number) => Ok(SquareParams { number }),
            Err(e) => Err(e),
        }
    }
}

/// The argument of a square root.
#[derive(Clone, Copy, Debug, PartialEq)]
pub struct SqrtParams {
    pub number: Number,
}

impl SqrtParams {
    /// Reads the argument of a square root.
    pub fn parse(arguments: &Json) -> (r: Result<SqrtParams, ShapeError>)
        ensures
            match r {
                Ok(p) => single_number(arguments@) == Ok::<Number, ShapeErrorView>(p.number),
                Err(e) => single_number(arguments@) == Err::<Number, ShapeErrorView>(e@),
            },
    {
        if !is_object(arguments) {
            return Err(ShapeError::NotAnObject);
        }
        match read_number(arguments, "number") {
            Ok(number) => Ok(SqrtParams { number }),
            Err(e) => Err(e),
        }
    }
}

/// The parameters of a call: which tool, and with what arguments.
#[derive(Debug, PartialEq)]
pub struct ToolCallParams {
    pub name: String,
    pub arguments: Json,
}

impl ToolCallParams {
    /// Reads the parameters of a call.
    pub fn parse(params: &Json) -> (r: Result<ToolCallParams, ShapeError>)
        ensures
            match r {
                Ok(p) => tool_call(params@) == Ok::<(Seq<char>, JsonValue), ShapeErrorView>(
                    (p.name@, p.arguments@),
                ),
                Err(e) => tool_call(params@) == Err::<(Seq<char>, JsonValue), ShapeErrorView>(e@),
            },
    {
        if !is_object(params) {
            return Err(ShapeError::NotAnObject);
        }
        let name = match read_text(params, "name") {
            Ok(name) => name,
            Err(e) => {
                return Err(e);
            },
        };
        match params.get("arguments") {
            None => Err(ShapeError::MissingField("arguments".to_owned())),
            Some(arguments) => Ok(ToolCallParams { name, arguments: arguments.duplicate() }),
        }
    }
}

} // verus!
