//! What holds of every request and of every response.

use vstd::prelude::*;
use crate::catalog::{catalog, pair_schema, single_schema, ToolView};
use crate::content::{
    initialize_result, negative_root_message, product_text, root_text, square_text, sum_text,
    text_content, tool_value, tools_list_result,
};
use crate::json::{lemma_first_named_at, JsonValue, Number};
use crate::message::{ErrorView, RequestView, ResponseView, INVALID_PARAMS, METHOD_NOT_FOUND};
use crate::params::{number_pair, single_number};
use crate::server::{
    addition_step, completion, multiplication_step, refusal, sqrt_step, square_step, step_for,
    tool_step, PendingView, StepView, Task,
};

verus! {

/// The sentence that a tool's result reports: the text of its first piece of
/// content.
pub open spec fn reported_text(result: JsonValue) -> Option<Seq<char>> {
    match result.member("content"@) {
        Some(JsonValue::Array(pieces)) => if pieces.len() > 0 {
            match pieces[0].member("text"@) {
                Some(JsonValue::Text(text)) => Some(text),
                _ => None,
            }
        } else {
            None
        },
        _ => None,
    }
}

/// A request calls the tool `name` with `arguments` when its method is
/// `tools/call` and its parameters are an object that holds the name and
/// the arguments.
pub open spec fn calls(request: RequestView, name: Seq<char>, arguments: JsonValue) -> bool {
    &&& request.method == "tools/call"@
    &&& request.params is Some
    &&& request.params->0 is Object
    &&& request.params->0.member("name"@) == Some(JsonValue::Text(name))
    &&& request.params->0.member("arguments"@) == Some(arguments)
}

/// An object holds the two operands `a` and `b`.
pub open spec fn holds_pair(arguments: JsonValue, a: Number, b: Number) -> bool {
    &&& arguments is Object
    &&& arguments.member("a"@) == Some(JsonValue::Number(a))
    &&& arguments.member("b"@) == Some(JsonValue::Number(b))
}

/// An object holds the operand `number`.
pub open spec fn holds_number(arguments: JsonValue, number: Number) -> bool {
    &&& arguments is Object
    &&& arguments.member("number"@) == Some(JsonValue::Number(number))
}

/// The three method names differ from one another.
proof fn lemma_methods_differ()
    ensures
        "initialize"@ != "tools/list"@,
        "initialize"@ != "tools/call"@,
        "tools/list"@ != "tools/call"@,
{
    reveal_strlit("initialize");
    reveal_strlit("tools/list");
    reveal_strlit("tools/call");
    assert("initialize"@[0] != "tools/list"@[0]);
    assert("initialize"@[0] != "tools/call"@[0]);
    assert("tools/list"@[6] != "tools/call"@[6]);
}

/// The four tool names differ from one another.
proof fn lemma_tools_differ()
    ensures
        "add"@.len() == 3,
        "multiply"@.len() == 8,
        "square"@.len() == 6,
        "sqrt"@.len() == 4,
{
    reveal_strlit("add");
    reveal_strlit("multiply");
    reveal_strlit("square");
    reveal_strlit("sqrt");
}

/// A call reaches the tool it names.
proof fn lemma_call_reaches_tool(request: RequestView, name: Seq<char>, arguments: JsonValue)
    requires
        calls(request, name, arguments),
    ensures
        step_for(request) == tool_step(request.id, name, arguments),
{
    lemma_methods_differ();
}

/// A call of `add` with two numbers is never refused: it asks for their sum.
pub proof fn law_add_asks_for_sum(request: RequestView, arguments: JsonValue, a: Number, b: Number)
    requires
        calls(request, "add"@, arguments),
        holds_pair(arguments, a, b),
    ensures
        step_for(request) == StepView::Evaluate(
            PendingView { id: request.id, task: Task::Sum { a, b } },
        ),
{
    lemma_call_reaches_tool(request, "add"@, arguments);
}

/// A call of `multiply` with two numbers is never refused: it asks for their
/// product.
pub proof fn law_multiply_asks_for_product(
    request: RequestView,
    arguments: JsonValue,
    a: Number,
    b: Number,
)
    requires
        calls(request, "multiply"@, arguments),
        holds_pair(arguments, a, b),
    ensures
        step_for(request) == StepView::Evaluate(
            PendingView { id: request.id, task: Task::Product { a, b } },
        ),
{
    lemma_call_reaches_tool(request, "multiply"@, arguments);
    lemma_tools_differ();
}

/// A call of `square` with a number is never refused: it asks for the
/// square.
pub proof fn law_square_asks_for_square(request: RequestView, arguments: JsonValue, number: Number)
    requires
        calls(request, "square"@, arguments),
        holds_number(arguments, number),
    ensures
        step_for(request) == StepView::Evaluate(
            PendingView { id: request.id, task: Task::Square { number } },
        ),
{
    lemma_call_reaches_tool(request, "square"@, arguments);
    lemma_tools_differ();
}

/// A call of `sqrt` with a number that is not below zero asks for the root;
/// with a number below zero it asks for no root.
pub proof fn law_sqrt_guards_its_domain(request: RequestView, arguments: JsonValue, number: Number)
    requires
        calls(request, "sqrt"@, arguments),
        holds_number(arguments, number),
    ensures
        !number.below_zero() ==> step_for(request) == StepView::Evaluate(
            PendingView { id: request.id, task: Task::Root { number } },
        ),
        number.below_zero() ==> step_for(request) == StepView::Evaluate(
            PendingView { id: request.id, task: Task::NegativeRoot { number } },
        ),
{
    lemma_call_reaches_tool(request, "sqrt"@, arguments);
    lemma_tools_differ();
}

/// The result of a tool reports the sentence that was put into it.
pub proof fn law_text_content_reports(text: Seq<char>)
    ensures
        reported_text(text_content(text)) == Some(text),
{
    reveal_strlit("type");
    reveal_strlit("text");
    let piece = seq![("type"@, JsonValue::Text("text"@)), ("text"@, JsonValue::Text(text))];
    assert("type"@[1] != "text"@[1]);
    lemma_first_named_at(piece, "text"@, 1);
    lemma_first_named_at(text_content(text)->Object_0, "content"@, 0);
}

/// The response to an addition holds no error, and reports the operands and
/// their sum as `a + b = sum`.
pub proof fn law_addition_result(id: Option<JsonValue>, a: Seq<char>, b: Seq<char>, sum: Seq<char>)
    ensures
        ({
            let response = ResponseView::success(id, text_content(sum_text(a, b, sum)));
            &&& response.error is None
            &&& response.result is Some
            &&& reported_text(response.result->0) == Some(a + " + "@ + b + " = "@ + sum)
        }),
{
    law_text_content_reports(sum_text(a, b, sum));
}

/// The response to a multiplication holds no error, and reports the operands
/// and their product.
pub proof fn law_multiplication_result(
    id: Option<JsonValue>,
    a: Seq<char>,
    b: Seq<char>,
    product: Seq<char>,
)
    ensures
        ({
            let response = ResponseView::success(id, text_content(product_text(a, b, product)));
            &&& response.error is None
            &&& response.result is Some
            &&& reported_text(response.result->0) == Some(a + " \u{d7} "@ + b + " = "@ + product)
        }),
{
    law_text_content_reports(product_text(a, b, product));
}

/// The response to a squaring holds no error, and reports the number and its
/// square.
pub proof fn law_square_result(id: Option<JsonValue>, number: Seq<char>, square: Seq<char>)
    ensures
        ({
            let response = ResponseView::success(id, text_content(square_text(number, square)));
            &&& response.error is None
            &&& response.result is Some
            &&& reported_text(response.result->0) == Some(number + "\u{b2} = "@ + square)
        }),
{
    law_text_content_reports(square_text(number, square));
}

/// The response to a square root holds no error, and reports the number and
/// its root.
pub proof fn law_sqrt_result(id: Option<JsonValue>, number: Seq<char>, root: Seq<char>)
    ensures
        ({
            let response = ResponseView::success(id, text_content(root_text(number, root)));
            &&& response.error is None
            &&& response.result is Some
            &&& reported_text(response.result->0) == Some("\u{221a}"@ + number + " = "@ + root)
        }),
{
    law_text_content_reports(root_text(number, root));
}

/// The response that refuses a square root holds the code -32602, a message
/// that ends in the number's rendering, and no result.
pub proof fn law_negative_sqrt_error(id: Option<JsonValue>, number: Seq<char>)
    ensures
        ({
            let response = ResponseView::failure(
                id,
                INVALID_PARAMS,
                negative_root_message(number),
            );
            &&& response.result is None
            &&& response.error is Some
            &&& response.error->0.code == -32602
            &&& response.error->0.message.len() >= number.len()
            &&& response.error->0.message.subrange(
                response.error->0.message.len() - number.len(),
                response.error->0.message.len() as int,
            ) == number
        }),
{
    let message = negative_root_message(number);
    assert(message.subrange(message.len() - number.len(), message.len() as int) =~= number);
}

/// A pending request is ended as its task asks: a sum, a product, a square
/// and a root with a result that reports the sentence of that calculation and
/// with no error; a number below zero with the code -32602, a message that
/// names the number, and no result. In every case the response names version
/// 2.0, holds exactly one of result and error, and carries the id of the
/// pending request.
pub proof fn law_completion(
    pending: PendingView,
    first: Seq<char>,
    second: Seq<char>,
    value: Seq<char>,
)
    ensures
        ({
            let response = completion(pending, first, second, value);
            &&& response.well_formed()
            &&& response.id == pending.id
            &&& pending.task is Sum ==> response.error is None && reported_text(
                response.result->0,
            ) == Some(sum_text(first, second, value))
            &&& pending.task is Product ==> response.error is None && reported_text(
                response.result->0,
            ) == Some(product_text(first, second, value))
            &&& pending.task is Square ==> response.error is None && reported_text(
                response.result->0,
            ) == Some(square_text(first, value))
            &&& pending.task is Root ==> response.error is None && reported_text(
                response.result->0,
            ) == Some(root_text(first, value))
            &&& pending.task is NegativeRoot ==> response.result is None && response.error
                == Some(
                ErrorView {
                    code: INVALID_PARAMS,
                    message: negative_root_message(first),
                    data: None,
                },
            )
        }),
{
    law_text_content_reports(sum_text(first, second, value));
    law_text_content_reports(product_text(first, second, value));
    law_text_content_reports(square_text(first, value));
    law_text_content_reports(root_text(first, value));
}

/// A call of `add` with two numbers ends, whatever the host hands over, in a
/// response without an error that reports the renderings as `a + b = sum`.
pub proof fn law_add_ends_in_a_sum(
    request: RequestView,
    arguments: JsonValue,
    a: Number,
    b: Number,
    first: Seq<char>,
    second: Seq<char>,
    value: Seq<char>,
)
    requires
        calls(request, "add"@, arguments),
        holds_pair(arguments, a, b),
    ensures
        step_for(request) is Evaluate,
        ({
            let response = completion(step_for(request)->Evaluate_0, first, second, value);
            &&& response.error is None
            &&& response.id == request.id
            &&& reported_text(response.result->0) == Some(
                first + " + "@ + second + " = "@ + value,
            )
        }),
{
    law_add_asks_for_sum(request, arguments, a, b);
    law_completion(step_for(request)->Evaluate_0, first, second, value);
}

/// A call of `multiply` with two numbers ends, whatever the host hands over,
/// in a response without an error that reports the renderings as a product.
pub proof fn law_multiply_ends_in_a_product(
    request: RequestView,
    arguments: JsonValue,
    a: Number,
    b: Number,
    first: Seq<char>,
    second: Seq<char>,
    value: Seq<char>,
)
    requires
        calls(request, "multiply"@, arguments),
        holds_pair(arguments, a, b),
    ensures
        step_for(request) is Evaluate,
        ({
            let response = completion(step_for(request)->Evaluate_0, first, second, value);
            &&& response.error is None
            &&& response.id == request.id
            &&& reported_text(response.result->0) == Some(
                first + " \u{d7} "@ + second + " = "@ + value,
            )
        }),
{
    law_multiply_asks_for_product(request, arguments, a, b);
    law_completion(step_for(request)->Evaluate_0, first, second, value);
}

/// A call of `square` with a number ends, whatever the host hands over, in
/// a response without an error that reports the renderings as a square.
pub proof fn law_square_ends_in_a_square(
    request: RequestView,
    arguments: JsonValue,
    number: Number,
    first: Seq<char>,
    second: Seq<char>,
    value: Seq<char>,
)
    requires
        calls(request, "square"@, arguments),
        holds_number(arguments, number),
    ensures
        step_for(request) is Evaluate,
        ({
            let response = completion(step_for(request)->Evaluate_0, first, second, value);
            &&& response.error is None
            &&& response.id == request.id
            &&& reported_text(response.result->0) == Some(first + "\u{b2} = "@ + value)
        }),
{
    law_square_asks_for_square(request, arguments, number);
    law_completion(step_for(request)->Evaluate_0, first, second, value);
}

/// A call of `sqrt` with a number that is not below zero ends, whatever the
/// host hands over, in a response without an error that reports the
/// renderings as a root.
pub proof fn law_sqrt_ends_in_a_root(
    request: RequestView,
    arguments: JsonValue,
    number: Number,
    first: Seq<char>,
    second: Seq<char>,
    value: Seq<char>,
)
    requires
        calls(request, "sqrt"@, arguments),
        holds_number(arguments, number),
        !number.below_zero(),
    ensures
        step_for(request) is Evaluate,
        ({
            let response = completion(step_for(request)->Evaluate_0, first, second, value);
            &&& response.error is None
            &&& response.id == request.id
            &&& reported_text(response.result->0) == Some("\u{221a}"@ + first + " = "@ + value)
        }),
{
    law_sqrt_guards_its_domain(request, arguments, number);
    law_completion(step_for(request)->Evaluate_0, first, second, value);
}

/// A call of `sqrt` with a number below zero ends, whatever the host hands
/// over, in an error of the code -32602 and in no result.
pub proof fn law_sqrt_below_zero_ends_in_an_error(
    request: RequestView,
    arguments: JsonValue,
    number: Number,
    first: Seq<char>,
    second: Seq<char>,
    value: Seq<char>,
)
    requires
        calls(request, "sqrt"@, arguments),
        holds_number(arguments, number),
        number.below_zero(),
    ensures
        step_for(request) is Evaluate,
        ({
            let response = completion(step_for(request)->Evaluate_0, first, second, value);
            &&& response.result is None
            &&& response.error is Some
            &&& response.error->0.code == -32602
            &&& response.id == request.id
        }),
{
    law_sqrt_guards_its_domain(request, arguments, number);
    law_completion(step_for(request)->Evaluate_0, first, second, value);
}

/// The heading under which the arguments of a tool are refused: it names the
/// tool.
pub open spec fn refusal_heading(tool: Seq<char>) -> Seq<char> {
    "Invalid "@ + tool + " parameters"@
}

/// Arguments of the wrong shape are refused under the name of the tool that
/// was called, with the code -32602 and the sentence that says what is wrong
/// with them, for each of the four tools.
pub proof fn law_refusal_names_the_tool(id: Option<JsonValue>, arguments: JsonValue)
    ensures
        number_pair(arguments) is Err ==> addition_step(id, arguments) == refusal(
            id,
            refusal_heading("add"@),
            number_pair(arguments)->Err_0,
        ),
        number_pair(arguments) is Err ==> multiplication_step(id, arguments) == refusal(
            id,
            refusal_heading("multiply"@),
            number_pair(arguments)->Err_0,
        ),
        single_number(arguments) is Err ==> square_step(id, arguments) == refusal(
            id,
            refusal_heading("square"@),
            single_number(arguments)->Err_0,
        ),
        single_number(arguments) is Err ==> sqrt_step(id, arguments) == refusal(
            id,
            refusal_heading("sqrt"@),
            single_number(arguments)->Err_0,
        ),
{
    reveal_strlit("Invalid ");
    reveal_strlit(" parameters");
    reveal_strlit("add");
    reveal_strlit("multiply");
    reveal_strlit("square");
    reveal_strlit("sqrt");
    reveal_strlit("Invalid add parameters");
    reveal_strlit("Invalid multiply parameters");
    reveal_strlit("Invalid square parameters");
    reveal_strlit("Invalid sqrt parameters");
    assert("Invalid add parameters"@ =~= refusal_heading("add"@));
    assert("Invalid multiply parameters"@ =~= refusal_heading("multiply"@));
    assert("Invalid square parameters"@ =~= refusal_heading("square"@));
    assert("Invalid sqrt parameters"@ =~= refusal_heading("sqrt"@));
}

/// A method that the server does not know is answered with the code -32601.
pub proof fn law_unknown_method(request: RequestView)
    requires
        request.method != "initialize"@,
        request.method != "tools/list"@,
        request.method != "tools/call"@,
    ensures
        step_for(request) == StepView::Reply(
            ResponseView::failure(request.id, METHOD_NOT_FOUND, "Method not found"@),
        ),
        METHOD_NOT_FOUND == -32601,
{
}

/// A call of a tool that the catalog does not hold is answered with the code
/// -32602 and the message `Unknown tool`, whatever the arguments.
pub proof fn law_unknown_tool(request: RequestView, name: Seq<char>, arguments: JsonValue)
    requires
        calls(request, name, arguments),
        forall|i: int| 0 <= i < catalog().len() ==> catalog()[i].name != name,
    ensures
        step_for(request) == StepView::Reply(
            ResponseView::failure(request.id, INVALID_PARAMS, "Unknown tool"@),
        ),
        INVALID_PARAMS == -32602,
{
    lemma_call_reaches_tool(request, name, arguments);
    assert(catalog()[0].name != name);
    assert(catalog()[1].name != name);
    assert(catalog()[2].name != name);
    assert(catalog()[3].name != name);
}

/// A call without parameters is answered with the code -32602.
pub proof fn law_missing_params(request: RequestView)
    requires
        request.method == "tools/call"@,
        request.params is None,
    ensures
        step_for(request) == StepView::Reply(
            ResponseView::failure(request.id, INVALID_PARAMS, "Invalid params"@),
        ),
        INVALID_PARAMS == -32602,
{
    lemma_methods_differ();
}

/// A call is never answered with a result at once, and never with another
/// error than one of the code -32602: it is refused with that code, or a
/// calculation is asked for.
pub proof fn law_call_is_refused_or_evaluated(request: RequestView)
    requires
        request.method == "tools/call"@,
    ensures
        match step_for(request) {
            StepView::Reply(response) => {
                &&& response.result is None
                &&& response.error is Some
                &&& response.error->0.code == -32602
                &&& response.error->0.data is None
            },
            StepView::Evaluate(_) => true,
        },
{
    lemma_methods_differ();
}

/// Whatever the request, a response that is given at once names version 2.0,
/// holds exactly one of result and error, and carries the request's id; a
/// calculation that is asked for carries the request's id too.
pub proof fn law_every_step_is_sound(request: RequestView)
    ensures
        match step_for(request) {
            StepView::Reply(response) => response.well_formed() && response.id == request.id,
            StepView::Evaluate(pending) => pending.id == request.id,
        },
{
}

/// Every response that ends a calculation names version 2.0, holds exactly
/// one of result and error, and carries the id it was given.
pub proof fn law_every_result_is_sound(id: Option<JsonValue>, result: JsonValue, message: Seq<char>)
    ensures
        ResponseView::success(id, result).well_formed(),
        ResponseView::success(id, result).id == id,
        ResponseView::failure(id, INVALID_PARAMS, message).well_formed(),
        ResponseView::failure(id, INVALID_PARAMS, message).id == id,
{
}

/// The catalog holds four tools: `add`, `multiply`, `square` and `sqrt`, in
/// this order.
pub proof fn law_catalog_names()
    ensures
        catalog().len() == 4,
        catalog()[0].name == "add"@,
        catalog()[1].name == "multiply"@,
        catalog()[2].name == "square"@,
        catalog()[3].name == "sqrt"@,
{
}

/// A schema has the shape of a JSON Schema for an object of numbers: its
/// type is `object`, its properties are an object whose members are each of
/// type `number`, and what it requires is an array of texts that each name
/// one of the properties.
pub open spec fn schema_shaped(schema: JsonValue) -> bool {
    &&& schema.member("type"@) == Some(JsonValue::Text("object"@))
    &&& schema.member("properties"@) is Some
    &&& schema.member("properties"@)->0 is Object
    &&& schema.member("required"@) is Some
    &&& schema.member("required"@)->0 is Array
    &&& forall|i: int|
        0 <= i < schema.member("properties"@)->0->Object_0.len() ==> (
        #[trigger] schema.member("properties"@)->0->Object_0[i]).1.member("type"@) == Some(
            JsonValue::Text("number"@),
        )
    &&& forall|i: int|
        0 <= i < schema.member("required"@)->0->Array_0.len() ==> {
            let name = #[trigger] schema.member("required"@)->0->Array_0[i];
            &&& name is Text
            &&& schema.member("properties"@)->0.member(name->Text_0) is Some
        }
}

/// The three keys of a schema differ from one another.
proof fn lemma_schema_keys()
    ensures
        "type"@.len() == 4,
        "properties"@.len() == 10,
        "required"@.len() == 8,
        "description"@.len() == 11,
{
    reveal_strlit("type");
    reveal_strlit("properties");
    reveal_strlit("required");
    reveal_strlit("description");
}

/// The schema of two numbers has the shape of a schema.
proof fn lemma_pair_schema_shaped(first: Seq<char>, second: Seq<char>)
    ensures
        schema_shaped(pair_schema(first, second)),
{
    lemma_schema_keys();
    reveal_strlit("a");
    reveal_strlit("b");
    let schema = pair_schema(first, second);
    let members = schema->Object_0;
    let properties = members[1].1->Object_0;
    assert("a"@[0] != "b"@[0]);
    lemma_first_named_at(members, "type"@, 0);
    lemma_first_named_at(members, "properties"@, 1);
    lemma_first_named_at(members, "required"@, 2);
    lemma_first_named_at(properties, "a"@, 0);
    lemma_first_named_at(properties, "b"@, 1);
    lemma_first_named_at(properties[0].1->Object_0, "type"@, 0);
    lemma_first_named_at(properties[1].1->Object_0, "type"@, 0);
}

/// The schema of one number has the shape of a schema.
proof fn lemma_single_schema_shaped(about: Seq<char>)
    ensures
        schema_shaped(single_schema(about)),
{
    lemma_schema_keys();
    let schema = single_schema(about);
    let members = schema->Object_0;
    let properties = members[1].1->Object_0;
    lemma_first_named_at(members, "type"@, 0);
    lemma_first_named_at(members, "properties"@, 1);
    lemma_first_named_at(members, "required"@, 2);
    lemma_first_named_at(properties, "number"@, 0);
    lemma_first_named_at(properties[0].1->Object_0, "type"@, 0);
}

/// Every tool of the catalog comes with a schema of the right shape.
pub proof fn law_catalog_schemas()
    ensures
        forall|i: int| 0 <= i < catalog().len() ==> schema_shaped(#[trigger] catalog()[i].input_schema),
{
    lemma_pair_schema_shaped("The first number to add"@, "The second number to add"@);
    lemma_pair_schema_shaped("The first number to multiply"@, "The second number to multiply"@);
    lemma_single_schema_shaped("The number to square"@);
    lemma_single_schema_shaped("The number to find square root of (must be non-negative)"@);
}

/// `tools/list` is always answered with the whole catalog: under `tools`, an
/// array of four entries, each the listing of the catalog's entry at its
/// place.
pub proof fn law_tools_list(request: RequestView)
    requires
        request.method == "tools/list"@,
    ensures
        step_for(request) == StepView::Reply(
            ResponseView::success(request.id, tools_list_result()),
        ),
        tools_list_result().member("tools"@) is Some,
        tools_list_result().member("tools"@)->0 is Array,
        tools_list_result().member("tools"@)->0->Array_0.len() == 4,
        forall|i: int|
            0 <= i < 4 ==> #[trigger] tools_list_result().member("tools"@)->0->Array_0[i]
                == tool_value(catalog()[i]),
{
    lemma_methods_differ();
    lemma_first_named_at(tools_list_result()->Object_0, "tools"@, 0);
}

/// A listed tool shows its name under `name` and its schema under
/// `inputSchema`.
pub proof fn law_listed_tool(tool: ToolView)
    ensures
        tool_value(tool).member("name"@) == Some(JsonValue::Text(tool.name)),
        tool_value(tool).member("description"@) == Some(JsonValue::Text(tool.description)),
        tool_value(tool).member("inputSchema"@) == Some(tool.input_schema),
{
    reveal_strlit("name");
    reveal_strlit("description");
    reveal_strlit("inputSchema");
    assert("name"@.len() == 4 && "description"@.len() == 11 && "inputSchema"@.len() == 11);
    assert("description"@[0] != "inputSchema"@[0]);
    let members = tool_value(tool)->Object_0;
    lemma_first_named_at(members, "name"@, 0);
    lemma_first_named_at(members, "description"@, 1);
    lemma_first_named_at(members, "inputSchema"@, 2);
}

/// `initialize` is always answered with the protocol revision `2024-11-05`
/// and with a description of the server that is not null, whatever the
/// parameters.
pub proof fn law_initialize(request: RequestView)
    requires
        request.method == "initialize"@,
    ensures
        step_for(request) == StepView::Reply(
            ResponseView::success(request.id, initialize_result()),
        ),
        initialize_result().member("protocolVersion"@) == Some(JsonValue::Text("2024-11-05"@)),
        initialize_result().member("serverInfo"@) is Some,
        !(initialize_result().member("serverInfo"@)->0 is Null),
{
    reveal_strlit("protocolVersion");
    reveal_strlit("capabilities");
    reveal_strlit("serverInfo");
    assert("protocolVersion"@.len() == 15 && "capabilities"@.len() == 12);
    assert("serverInfo"@.len() == 10);
    let members = initialize_result()->Object_0;
    lemma_first_named_at(members, "protocolVersion"@, 0);
    lemma_first_named_at(members, "serverInfo"@, 2);
}

} // verus!
