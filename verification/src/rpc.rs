//! The JSON-RPC side of the relay: the reply envelope, the planning of a
//! proxied request, and the three procedures that the local server offers.

use vstd::prelude::*;
use crate::json::{json_parses, parse_request_fields, request_view_of};

verus! {

/// The JSON-RPC 2.0 reply that carries `response` as its result and `msg_id`
/// as its id, in the exact spacing that the relay writes.
pub open spec fn json_reply(response: Seq<char>, msg_id: Seq<char>) -> Seq<char> {
    "{"@ + "\"jsonrpc\": \"2.0\", "@ + "\"result\": "@ + response + ", "@ + "\"id\": "@ + msg_id + "}"@
}

/// Wraps an answer and the id of the request it answers in a JSON-RPC 2.0
/// reply. Both are inserted verbatim: they are JSON texts already.
pub fn create_json(response: String, msg_id: &str) -> (r: String)
    ensures
        r@ == json_reply(response@, msg_id@),
{
    let mut json = String::new();
    json.append("{");
    json.append("\"jsonrpc\": \"2.0\", ");
    json.append("\"result\": ");
    json.append(response.as_str());
    json.append(", ");
    json.append("\"id\": ");
    json.append(msg_id);
    json.append("}");
    assert(json@ =~= json_reply(response@, msg_id@));
    json
}

/// What the `params` member of a request holds, as far as planning reads it.
#[derive(Debug)]
pub enum ParamsField {
    /// There is no `params` member.
    Missing,
    /// `params` is not an array.
    NotArray,
    /// `params` is an array; each element as an `i64`, if it is one.
    Array(Vec<Option<i64>>),
}

/// The members of a JSON-RPC request that planning reads.
#[derive(Debug)]
pub struct RequestFields {
    /// The `method` member, if it is a string.
    pub method: Option<String>,
    /// The `id` member, rendered as JSON text, if there is one.
    pub id: Option<String>,
    /// The `params` member.
    pub params: ParamsField,
}

/// The model of the members that planning reads: the method, the id text,
/// and the parameters (`None` when missing, `Some(None)` when not an array).
pub struct RequestView {
    pub method: Option<Seq<char>>,
    pub id: Option<Seq<char>>,
    pub params: Option<Option<Seq<Option<i64>>>>,
}

impl View for ParamsField {
    type V = Option<Option<Seq<Option<i64>>>>;

    open spec fn view(&self) -> Option<Option<Seq<Option<i64>>>> {
        match self {
            ParamsField::Missing => None,
            ParamsField::NotArray => Some(None),
            ParamsField::Array(a) => Some(Some(a@)),
        }
    }
}

impl View for RequestFields {
    type V = RequestView;

    open spec fn view(&self) -> RequestView {
        RequestView { method: self.method.deep_view(), id: self.id.deep_view(), params: self.params@ }
    }
}

/// A procedure call of the local server.
#[derive(Clone, Copy, PartialEq, Eq, Structural, Debug)]
pub enum RpcCall {
    Add(i64, i64),
    Exit,
    SayHello,
    /// A method that the server does not offer: answered locally.
    Unknown,
}

/// Why a request cannot be forwarded.
#[derive(Clone, Copy, PartialEq, Eq, Structural, Debug)]
pub enum RequestError {
    InvalidMethod,
    InvalidId,
    InvalidParameters,
    InvalidFirstParameter,
    InvalidSecondParameter,
}

/// The call to make and the id to answer under.
#[derive(Debug)]
pub struct RequestPlan {
    pub call: RpcCall,
    pub id: String,
}

/// The message of a planning error.
pub open spec fn request_error_text(e: RequestError) -> Seq<char> {
    match e {
        RequestError::InvalidMethod => "Invalid method"@,
        RequestError::InvalidId => "Invalid id"@,
        RequestError::InvalidParameters => "Invalid parameters"@,
        RequestError::InvalidFirstParameter => "Invalid first parameter"@,
        RequestError::InvalidSecondParameter => "Invalid second parameter"@,
    }
}

impl RequestError {
    /// The message of the error.
    pub fn message(&self) -> (r: String)
        ensures
            r@ == request_error_text(*self),
    {
        match self {
            RequestError::InvalidMethod => String::from_str("Invalid method"),
            RequestError::InvalidId => String::from_str("Invalid id"),
            RequestError::InvalidParameters => String::from_str("Invalid parameters"),
            RequestError::InvalidFirstParameter => String::from_str("Invalid first parameter"),
            RequestError::InvalidSecondParameter => String::from_str("Invalid second parameter"),
        }
    }
}

/// The requests on which planning indexes past the end of `params`: an `add`
/// with an id whose `params` array is empty, or holds one integer only.
pub open spec fn request_panics(f: RequestView) -> bool {
    &&& f.method == Some("add"@)
    &&& f.id is Some
    &&& f.params matches Some(Some(a)) && (a.len() == 0 || (a.len() == 1 && a[0] is Some))
}

/// The call that a request asks for, or why it is refused. The method is
/// checked first, then the id, then, for `add`, the parameters in order.
pub open spec fn planned_call(f: RequestView) -> Result<RpcCall, RequestError> {
    match f.method {
        None => Err(RequestError::InvalidMethod),
        Some(m) => match f.id {
            None => Err(RequestError::InvalidId),
            Some(_) => if m == "add"@ {
                match f.params {
                    Some(Some(a)) => match a[0] {
                        None => Err(RequestError::InvalidFirstParameter),
                        Some(x) => match a[1] {
                            None => Err(RequestError::InvalidSecondParameter),
                            Some(y) => Ok(RpcCall::Add(x, y)),
                        },
                    },
                    _ => Err(RequestError::InvalidParameters),
                }
            } else if m == "exit"@ {
                Ok(RpcCall::Exit)
            } else if m == "say_hello"@ {
                Ok(RpcCall::SayHello)
            } else {
                Ok(RpcCall::Unknown)
            },
        },
    }
}

/// The three method names are different texts.
proof fn lemma_method_names_differ()
    ensures
        "exit"@ != "add"@,
        "say_hello"@ != "add"@,
        "say_hello"@ != "exit"@,
{
    reveal_strlit("add");
    reveal_strlit("exit");
    reveal_strlit("say_hello");
    assert("add"@.len() == 3);
    assert("exit"@.len() == 4);
    assert("say_hello"@.len() == 9);
}

/// A request for `exit` with an id is planned as the exit call whatever its
/// `params` member holds, and planning it never reads past `params`.
pub proof fn lemma_exit_ignores_params(f: RequestView)
    requires
        f.method == Some("exit"@),
        f.id is Some,
    ensures
        planned_call(f) == Ok::<RpcCall, RequestError>(RpcCall::Exit),
        !request_panics(f),
{
    lemma_method_names_differ();
}

/// A request for `say_hello` with an id is planned as the greeting call
/// whatever its `params` member holds, and planning it never reads past
/// `params`.
pub proof fn lemma_say_hello_ignores_params(f: RequestView)
    requires
        f.method == Some("say_hello"@),
        f.id is Some,
    ensures
        planned_call(f) == Ok::<RpcCall, RequestError>(RpcCall::SayHello),
        !request_panics(f),
{
    lemma_method_names_differ();
}

/// Parameters are read only for `add`: two requests that differ only in their
/// `params` member are planned alike unless their method is `add`.
pub proof fn lemma_params_read_only_for_add(f: RequestView, g: RequestView)
    requires
        f.method == g.method,
        f.id == g.id,
        f.method != Some("add"@),
    ensures
        planned_call(f) == planned_call(g),
        !request_panics(f),
        !request_panics(g),
{
}

/// An `add` with an id whose `params` array starts with two integers is
/// planned as the sum of exactly those two, in that order.
pub proof fn lemma_add_takes_the_first_two_integers(f: RequestView, a: Seq<Option<i64>>, x: i64, y: i64)
    requires
        f.method == Some("add"@),
        f.id is Some,
        f.params == Some(Some(a)),
        a.len() >= 2,
        a[0] == Some(x),
        a[1] == Some(y),
    ensures
        planned_call(f) == Ok::<RpcCall, RequestError>(RpcCall::Add(x, y)),
        !request_panics(f),
{
}

/// A request without a string method, or without an id, is refused, whatever
/// else it holds.
pub proof fn lemma_method_and_id_are_required(f: RequestView)
    ensures
        f.method is None ==> planned_call(f) == Err::<RpcCall, RequestError>(RequestError::InvalidMethod),
        f.method is Some && f.id is None ==> planned_call(f) == Err::<RpcCall, RequestError>(
            RequestError::InvalidId,
        ),
{
}

/// Whether planning the request would index past the end of `params`.
pub fn request_would_panic(f: &RequestFields) -> (r: bool)
    ensures
        r == request_panics(f@),
{
    match &f.method {
        Some(m) => {
            if *m == String::from_str("add") && f.id.is_some() {
                match &f.params {
                    ParamsField::Array(a) => a.len() == 0 || (a.len() == 1 && a[0].is_some()),
                    _ => false,
                }
            } else {
                false
            }
        },
        None => false,
    }
}

/// Decides which procedure a request asks for and under which id to answer.
pub fn plan_request(f: &RequestFields) -> (r: Result<RequestPlan, RequestError>)
    requires
        !request_panics(f@),
    ensures
        match planned_call(f@) {
            Ok(c) => r matches Ok(p) && p.call == c && Some(p.id@) == f@.id,
            Err(e) => r matches Err(e2) && e2 == e,
        },
{
    let m = match &f.method {
        Some(m) => m,
        None => return Err(RequestError::InvalidMethod),
    };
    let id = match &f.id {
        Some(id) => id.clone(),
        None => return Err(RequestError::InvalidId),
    };
    let call = if *m == String::from_str("add") {
        let a = match &f.params {
            ParamsField::Array(a) => a,
            _ => return Err(RequestError::InvalidParameters),
        };
        let x = match a[0] {
            Some(x) => x,
            None => return Err(RequestError::InvalidFirstParameter),
        };
        let y = match a[1] {
            Some(y) => y,
            None => return Err(RequestError::InvalidSecondParameter),
        };
        RpcCall::Add(x, y)
    } else if *m == String::from_str("exit") {
        RpcCall::Exit
    } else if *m == String::from_str("say_hello") {
        RpcCall::SayHello
    } else {
        RpcCall::Unknown
    };
    Ok(RequestPlan { call, id })
}

/// Why a request text cannot be forwarded.
#[derive(Debug)]
pub enum ForwardError {
    /// The text is not JSON.
    Json(serde_json::Error),
    /// An `add` whose `params` array holds fewer elements than are read; holds
    /// the array's length.
    ParamsTooShort(usize),
    /// The request is refused by planning.
    Request(RequestError),
}

/// Reads a request text and decides which procedure it asks for and under
/// which id to answer.
pub fn plan_forward(text: &str) -> (r: Result<RequestPlan, ForwardError>)
    ensures
        !json_parses(text@) ==> r matches Err(ForwardError::Json(_)),
        json_parses(text@) ==> {
            let v = request_view_of(text@);
            if request_panics(v) {
                r matches Err(ForwardError::ParamsTooShort(n)) && v.params matches Some(Some(a)) && n == a.len()
            } else {
                match planned_call(v) {
                    Ok(c) => r matches Ok(p) && p.call == c && Some(p.id@) == v.id,
                    Err(e) => r matches Err(ForwardError::Request(e2)) && e2 == e,
                }
            }
        },
{
    let fields = match parse_request_fields(text) {
        Ok(f) => f,
        Err(e) => return Err(ForwardError::Json(e)),
    };
    if request_would_panic(&fields) {
        let len = match &fields.params {
            ParamsField::Array(a) => a.len(),
            _ => 0,
        };
        return Err(ForwardError::ParamsTooShort(len));
    }
    match plan_request(&fields) {
        Ok(p) => Ok(p),
        Err(e) => Err(ForwardError::Request(e)),
    }
}

/// The answer given, without asking the server, to a method it does not offer.
pub fn unknown_method_answer() -> (r: String)
    ensures
        r@ == "Invalid method"@,
{
    String::from_str("Invalid method")
}

/// The procedures of the local JSON-RPC server.
pub struct RpcImpl;

impl RpcImpl {
    /// The sum of the two numbers.
    pub fn add(&self, a: i64, b: i64) -> (r: i64)
        requires
            i64::MIN <= a + b <= i64::MAX,
        ensures
            r == a + b,
    {
        a + b
    }

    /// The word that tells the client to stop.
    pub fn exit(&self) -> (r: String)
        ensures
            r@ == "exit"@,
    {
        String::from_str("exit")
    }

    /// A greeting.
    pub fn say_hello(&self) -> (r: String)
        ensures
            r@ == "Hello, World!"@,
    {
        String::from_str("Hello, World!")
    }
}

} // verus!
