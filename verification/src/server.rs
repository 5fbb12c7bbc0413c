//! The dispatcher: from a request to a response, or to the calculation that
//! the host has to work out before the response can be written.

use vstd::prelude::*;
use vstd::string::StringExecFns;
use crate::catalog::{catalog, server_info, server_info_value, tools, tools_of, Tool, ToolView};
use crate::content::{
    handshake_json, initialize_result, listing_json, negative_root_message,
    negative_root_sentence, product_sentence, product_text, root_sentence, root_text,
    square_sentence, square_text, sum_sentence, sum_text, text_content, text_content_json,
    tools_list_result,
};
use crate::json::{optional_value, Json, JsonValue, Number};
use crate::message::{
    JsonRpcRequest, JsonRpcResponse, RequestView, ResponseView, INVALID_PARAMS, METHOD_NOT_FOUND,
};
use crate::params::{
    number_pair, single_number, tool_call, AdditionParams, MultiplicationParams, ShapeError,
    ShapeErrorView, SqrtParams, SquareParams, ToolCallParams,
};

verus! {

/// A calculation on doubles that the host works out. The operands are the
/// numbers as the request gave them.
#[derive(Clone, Copy, Debug, PartialEq)]
pub enum Task {
    /// The sum of `a` and `b`.
    Sum { a: Number, b: Number },
    /// The product of `a` and `b`.
    Product { a: Number, b: Number },
    /// The product of `number` with itself.
    Square { number: Number },
    /// The square root of `number`, which is not below zero.
    Root { number: Number },
    /// No calculation: `number` is below zero and has no square root. Only
    /// its rendering is wanted, for the error message.
    NegativeRoot { number: Number },
}

/// A request that waits for the host's calculation.
#[derive(Debug, PartialEq)]
pub struct Pending {
    pub id: Option<Json>,
    pub task: Task,
}

/// The model of a pending request.
pub struct PendingView {
    pub id: Option<JsonValue>,
    pub task: Task,
}

impl View for Pending {
    type V = PendingView;

    open spec fn view(&self) -> PendingView {
        PendingView { id: optional_value(self.id), task: self.task }
    }
}

/// What becomes of a request: the response, or a calculation to work out
/// first.
#[derive(Debug, PartialEq)]
pub enum Step {
    Reply(JsonRpcResponse),
    Evaluate(Pending),
}

/// The model of a step.
pub enum StepView {
    Reply(ResponseView),
    Evaluate(PendingView),
}

impl View for Step {
    type V = StepView;

    open spec fn view(&self) -> StepView {
        match self {
            Step::Reply(response) => StepView::Reply(response@),
            Step::Evaluate(pending) => StepView::Evaluate(pending@),
        }
    }
}

/// The step that refuses parameters: an error of code -32602 with the given
/// heading, a colon, and the sentence that says what is wrong with them.
pub open spec fn refusal(
    id: Option<JsonValue>,
    heading: Seq<char>,
    error: ShapeErrorView,
) -> StepView {
    StepView::Reply(ResponseView::failure(id, INVALID_PARAMS, heading + ": "@ + error.detail()))
}

/// The step for a call of `add`.
pub open spec fn addition_step(id: Option<JsonValue>, arguments: JsonValue) -> StepView {
    match number_pair(arguments) {
        Ok(pair) => StepView::Evaluate(PendingView { id, task: Task::Sum { a: pair.0, b: pair.1 } }),
        Err(e) => refusal(id, "Invalid add parameters"@, e),
    }
}

/// The step for a call of `multiply`.
pub open spec fn multiplication_step(id: Option<JsonValue>, arguments: JsonValue) -> StepView {
    match number_pair(arguments) {
        Ok(pair) => StepView::Evaluate(
            PendingView { id, task: Task::Product { a: pair.0, b: pair.1 } },
        ),
        Err(e) => refusal(id, "Invalid multiply parameters"@, e),
    }
}

/// The step for a call of `square`.
pub open spec fn square_step(id: Option<JsonValue>, arguments: JsonValue) -> StepView {
    match single_number(arguments) {
        Ok(number) => StepView::Evaluate(PendingView { id, task: Task::Square { number } }),
        Err(e) => refusal(id, "Invalid square parameters"@, e),
    }
}

/// The step for a call of `sqrt`: a number below zero has no square root.
pub open spec fn sqrt_step(id: Option<JsonValue>, arguments: JsonValue) -> StepView {
    match single_number(arguments) {
        Ok(number) => if number.below_zero() {
            StepView::Evaluate(PendingView { id, task: Task::NegativeRoot { number } })
        } else {
            StepView::Evaluate(PendingView { id, task: Task::Root { number } })
        },
        Err(e) => refusal(id, "Invalid sqrt parameters"@, e),
    }
}

/// The step for a call of the tool named `name`.
pub open spec fn tool_step(id: Option<JsonValue>, name: Seq<char>, arguments: JsonValue) -> StepView {
    if name == "add"@ {
        addition_step(id, arguments)
    } else if name == "multiply"@ {
        multiplication_step(id, arguments)
    } else if name == "square"@ {
        square_step(id, arguments)
    } else if name == "sqrt"@ {
        sqrt_step(id, arguments)
    } else {
        StepView::Reply(ResponseView::failure(id, INVALID_PARAMS, "Unknown tool"@))
    }
}

/// The step for `tools/call`.
pub open spec fn call_step(id: Option<JsonValue>, params: Option<JsonValue>) -> StepView {
    match params {
        None => StepView::Reply(ResponseView::failure(id, INVALID_PARAMS, "Invalid params"@)),
        Some(p) => match tool_call(p) {
            Ok(call) => tool_step(id, call.0, call.1),
            Err(e) => refusal(id, "Invalid params"@, e),
        },
    }
}

/// The step for a request, by the method it names.
pub open spec fn step_for(request: RequestView) -> StepView {
    if request.method == "initialize"@ {
        StepView::Reply(ResponseView::success(request.id, initialize_result()))
    } else if request.method == "tools/list"@ {
        StepView::Reply(ResponseView::success(request.id, tools_list_result()))
    } else if request.method == "tools/call"@ {
        call_step(request.id, request.params)
    } else {
        StepView::Reply(ResponseView::failure(request.id, METHOD_NOT_FOUND, "Method not found"@))
    }
}

/// The response that ends a pending request, from what the host worked out:
/// the decimal renderings of the task's first operand, of its second operand
/// and of its value. It carries the id of the pending request, and its shape
/// goes by the task. A task of one operand has no second operand, and a
/// number below zero has no root: what is handed over in their place is not
/// read.
pub open spec fn completion(
    pending: PendingView,
    first: Seq<char>,
    second: Seq<char>,
    value: Seq<char>,
) -> ResponseView {
    match pending.task {
        Task::Sum { .. } => ResponseView::success(
            pending.id,
            text_content(sum_text(first, second, value)),
        ),
        Task::Product { .. } => ResponseView::success(
            pending.id,
            text_content(product_text(first, second, value)),
        ),
        Task::Square { .. } => ResponseView::success(
            pending.id,
            text_content(square_text(first, value)),
        ),
        Task::Root { .. } => ResponseView::success(
            pending.id,
            text_content(root_text(first, value)),
        ),
        Task::NegativeRoot { .. } => ResponseView::failure(
            pending.id,
            INVALID_PARAMS,
            negative_root_message(first),
        ),
    }
}

/// Tells whether a text is the given one.
fn is_text(text: &String, wanted: &str) -> (r: bool)
    ensures
        r == (text@ == wanted@),
{
    let wanted = wanted.to_owned();
    *text == wanted
}

/// Refuses parameters under the given heading.
fn refuse(id: Option<Json>, heading: &str, error: &ShapeError) -> (step: Step)
    ensures
        step@ == refusal(optional_value(id), heading@, error@),
{
    let mut message = heading.to_owned();
    message.append(": ");
    message.append(error.describe().as_str());
    Step::Reply(JsonRpcResponse::failure(id, INVALID_PARAMS, message))
}

/// The server: its description of itself and its catalog of tools, both
/// fixed when it is made.
pub struct McpServer {
    server_info: Json,
    tools: Vec<Tool>,
}

impl McpServer {
    #[verifier::type_invariant]
    spec fn fixed(self) -> bool {
        &&& self.server_info@ == server_info_value()
        &&& tools_of(self.tools@) == catalog()
    }

    /// The model of the server's description of itself.
    pub closed spec fn info(self) -> JsonValue {
        self.server_info@
    }

    /// The models of the catalog's entries.
    pub closed spec fn offered(self) -> Seq<ToolView> {
        tools_of(self.tools@)
    }

    /// Makes a server.
    pub fn new() -> (server: McpServer)
        ensures
            server.info() == server_info_value(),
            server.offered() == catalog(),
    {
        McpServer { server_info: server_info(), tools: tools() }
    }

    /// The server's description of itself.
    pub fn server_info(&self) -> (info: &Json)
        ensures
            info@ == server_info_value(),
            info@ == self.info(),
    {
        proof {
            use_type_invariant(self);
        }
        &self.server_info
    }

    /// The catalog.
    pub fn tools(&self) -> (tools: &Vec<Tool>)
        ensures
            tools_of(tools@) == catalog(),
            tools_of(tools@) == self.offered(),
    {
        proof {
            use_type_invariant(self);
        }
        &self.tools
    }

    /// Takes a request to its response, or to the calculation that the host
    /// has to work out first.
    pub fn handle_request(&self, request: JsonRpcRequest) -> (step: Step)
        ensures
            step@ == step_for(request@),
    {
        if is_text(&request.method, "initialize") {
            Step::Reply(self.handle_initialize(request.id))
        } else if is_text(&request.method, "tools/list") {
            Step::Reply(self.handle_tools_list(request.id))
        } else if is_text(&request.method, "tools/call") {
            self.handle_tools_call(request.id, request.params)
        } else {
            Step::Reply(
                JsonRpcResponse::failure(
                    request.id,
                    METHOD_NOT_FOUND,
                    "Method not found".to_owned(),
                ),
            )
        }
    }

    /// Answers `initialize`.
    pub fn handle_initialize(&self, id: Option<Json>) -> (response: JsonRpcResponse)
        ensures
            response@ == ResponseView::success(optional_value(id), initialize_result()),
    {
        proof {
            use_type_invariant(self);
        }
        JsonRpcResponse::success(id, handshake_json(self.server_info.duplicate()))
    }

    /// Answers `tools/list`.
    pub fn handle_tools_list(&self, id: Option<Json>) -> (response: JsonRpcResponse)
        ensures
            response@ == ResponseView::success(optional_value(id), tools_list_result()),
    {
        proof {
            use_type_invariant(self);
        }
        JsonRpcResponse::success(id, listing_json(&self.tools))
    }

    /// Takes `tools/call` to the tool that the parameters name.
    pub fn handle_tools_call(&self, id: Option<Json>, params: Option<Json>) -> (step: Step)
        ensures
            step@ == call_step(optional_value(id), optional_value(params)),
    {
        let params = match params {
            Some(p) => p,
            None => {
                return Step::Reply(
                    JsonRpcResponse::failure(id, INVALID_PARAMS, "Invalid params".to_owned()),
                );
            },
        };
        let call = match ToolCallParams::parse(&params) {
            Ok(call) => call,
            Err(e) => {
                return refuse(id, "Invalid params", &e);
            },
        };
        if is_text(&call.name, "add") {
            self.handle_addition(id, call.arguments)
        } else if is_text(&call.name, "multiply") {
            self.handle_multiplication(id, call.arguments)
        } else if is_text(&call.name, "square") {
            self.handle_square(id, call.arguments)
        } else if is_text(&call.name, "sqrt") {
            self.handle_sqrt(id, call.arguments)
        } else {
            Step::Reply(JsonRpcResponse::failure(id, INVALID_PARAMS, "Unknown tool".to_owned()))
        }
    }

    /// Reads the arguments of `add` and asks for the sum.
    pub fn handle_addition(&self, id: Option<Json>, arguments: Json) -> (step: Step)
        ensures
            step@ == addition_step(optional_value(id), arguments@),
    {
        match AdditionParams::parse(&arguments) {
            Ok(p) => Step::Evaluate(Pending { id, task: Task::Sum { a: p.a, b: p.b } }),
            Err(e) => refuse(id, "Invalid add parameters", &e),
        }
    }

    /// Reads the arguments of `multiply` and asks for the product.
    pub fn handle_multiplication(&self, id: Option<Json>, arguments: Json) -> (step: Step)
        ensures
            step@ == multiplication_step(optional_value(id), arguments@),
    {
        match MultiplicationParams::parse(&arguments) {
            Ok(p) => Step::Evaluate(Pending { id, task: Task::Product { a: p.a, b: p.b } }),
            Err(e) => refuse(id, "Invalid multiply parameters", &e),
        }
    }

    /// Reads the argument of `square` and asks for the square.
    pub fn handle_square(&self, id: Option<Json>, arguments: Json) -> (step: Step)
        ensures
            step@ == square_step(optional_value(id), arguments@),
    {
        match SquareParams::parse(&arguments) {
            Ok(p) => Step::Evaluate(Pending { id, task: Task::Square { number: p.number } }),
            Err(e) => refuse(id, "Invalid square parameters", &e),
        }
    }

    /// Reads the argument of `sqrt` and asks for the root, unless the number
    /// is below zero.
    pub fn handle_sqrt(&self, id: Option<Json>, arguments: Json) -> (step: Step)
        ensures
            step@ == sqrt_step(optional_value(id), arguments@),
    {
        match SqrtParams::parse(&arguments) {
            Ok(p) => if p.number.is_negative() {
                Step::Evaluate(Pending { id, task: Task::NegativeRoot { number: p.number } })
            } else {
                Step::Evaluate(Pending { id, task: Task::Root { number: p.number } })
            },
            Err(e) => refuse(id, "Invalid sqrt parameters", &e),
        }
    }

    /// Ends a pending request with what the host worked out for its task:
    /// the decimal renderings of the first operand, of the second operand
    /// and of the value. For a task of one operand `second` is not read, and
    /// for a number below zero neither `second` nor `value` is.
    pub fn complete(&self, pending: Pending, first: &str, second: &str, value: &str) -> (response:
        JsonRpcResponse)
        ensures
            response@ == completion(pending@, first@, second@, value@),
    {
        let Pending { id, task } = pending;
        match task {
            Task::Sum { .. } => self.addition_result(id, first, second, value),
            Task::Product { .. } => self.multiplication_result(id, first, second, value),
            Task::Square { .. } => self.square_result(id, first, value),
            Task::Root { .. } => self.sqrt_result(id, first, value),
            Task::NegativeRoot { .. } => self.negative_sqrt_error(id, first),
        }
    }

    /// The response to an addition, from the decimal renderings of the
    /// operands and of their sum.
    pub fn addition_result(&self, id: Option<Json>, a: &str, b: &str, sum: &str) -> (response:
        JsonRpcResponse)
        ensures
            response@ == ResponseView::success(
                optional_value(id),
                text_content(sum_text(a@, b@, sum@)),
            ),
    {
        JsonRpcResponse::success(id, text_content_json(sum_sentence(a, b, sum)))
    }

    /// The response to a multiplication, from the decimal renderings of the
    /// operands and of their product.
    pub fn multiplication_result(
        &self,
        id: Option<Json>,
        a: &str,
        b: &str,
        product: &str,
    ) -> (response: JsonRpcResponse)
        ensures
            response@ == ResponseView::success(
                optional_value(id),
                text_content(product_text(a@, b@, product@)),
            ),
    {
        JsonRpcResponse::success(id, text_content_json(product_sentence(a, b, product)))
    }

    /// The response to a squaring, from the decimal renderings of the number
    /// and of its square.
    pub fn square_result(&self, id: Option<Json>, number: &str, square: &str) -> (response:
        JsonRpcResponse)
        ensures
            response@ == ResponseView::success(
                optional_value(id),
                text_content(square_text(number@, square@)),
            ),
    {
        JsonRpcResponse::success(id, text_content_json(square_sentence(number, square)))
    }

    /// The response to a square root, from the decimal renderings of the
    /// number and of its root.
    pub fn sqrt_result(&self, id: Option<Json>, number: &str, root: &str) -> (response:
        JsonRpcResponse)
        ensures
            response@ == ResponseView::success(
                optional_value(id),
                text_content(root_text(number@, root@)),
            ),
    {
        JsonRpcResponse::success(id, text_content_json(root_sentence(number, root)))
    }

    /// The response that refuses the square root of a number below zero,
    /// from the decimal rendering of the number.
    pub fn negative_sqrt_error(&self, id: Option<Json>, number: &str) -> (response:
        JsonRpcResponse)
        ensures
            response@ == ResponseView::failure(
                optional_value(id),
                INVALID_PARAMS,
                negative_root_message(number@),
            ),
    {
        JsonRpcResponse::failure(id, INVALID_PARAMS, negative_root_sentence(number))
    }
}

} // verus!
