//! The HTTP/JSON protocol of the agent that runs inside the Gateway's JVM: what is sent over
//! its Unix domain socket and how its answers are read.
//!
//! The methods of [`AgentClient`] give the text of a request; sending it is left to the caller.

use crate::text::{copy_of, decimal, find, first_at, occurs, push_decimal, push_signed, signed_decimal};
use crate::types::WindowId;
use vstd::prelude::*;
use vstd::string::*;

verus! {

/// `serde_json::Error`, carried as an opaque value.
#[verifier::external_type_specification]
#[verifier::external_body]
pub struct ExJsonError(serde_json::Error);

/// What can go wrong in an exchange with the agent.
#[derive(Debug)]
pub enum AgentError {
    /// The socket could not be reached: its path and the reason.
    ConnectionFailed { path: String, source: String },
    RequestFailed(String),
    /// The agent itself reported an error.
    Agent(String),
    ParseError(serde_json::Error),
    Timeout,
}

/// The envelope of every answer.
#[derive(Debug)]
pub struct AgentResponse<T> {
    pub ok: bool,
    pub data: Option<T>,
    pub error: Option<String>,
}

/// A bounding rectangle.
#[derive(Debug, Clone, Copy, PartialEq, Eq, Structural)]
pub struct Bounds {
    pub x: i32,
    pub y: i32,
    pub width: i32,
    pub height: i32,
}

impl Default for Bounds {
    fn default() -> (r: Self)
        ensures
            r == (Bounds { x: 0, y: 0, width: 0, height: 0 }),
    {
        Bounds { x: 0, y: 0, width: 0, height: 0 }
    }
}

/// A visible window of the Gateway.
#[derive(Debug)]
pub struct WindowInfo {
    pub id: WindowId,
    pub title: String,
    /// The Java class of the window, such as `ibgateway.az`.
    pub class: String,
    pub bounds: Option<Bounds>,
    pub visible: bool,
}

/// A value in the JSON object of a request.
#[derive(Debug)]
pub enum FieldValue {
    Text(String),
    Number(u64),
}

/// A value in the JSON object of a request, as a mathematical value.
pub enum FieldModel {
    Text(Seq<char>),
    Number(u64),
}

impl View for FieldValue {
    type V = FieldModel;

    open spec fn view(&self) -> FieldModel {
        match self {
            FieldValue::Text(t) => FieldModel::Text(t@),
            FieldValue::Number(n) => FieldModel::Number(*n),
        }
    }
}

/// The fields of a request as mathematical values.
pub open spec fn field_models(fields: Seq<(String, FieldValue)>) -> Seq<(Seq<char>, FieldModel)> {
    fields.map_values(|f: (String, FieldValue)| (f.0@, f.1@))
}

/// The compact JSON text of an object with these fields, as `serde_json::to_string` gives it.
pub uninterp spec fn json_object(fields: Seq<(Seq<char>, FieldModel)>) -> Seq<char>;

/// `serde_json::to_string` of a map with these fields. It fails where a key is no string or a
/// value refuses, and these are strings and numbers under strings, so it succeeds. The text
/// depends on the fields alone and has a name; what it looks like is left unsaid.
#[verifier::external_body]
fn json_text(fields: &Vec<(String, FieldValue)>) -> (r: Result<String, serde_json::Error>)
    ensures
        match r {
            Ok(s) => s@ == json_object(field_models(fields@)),
            Err(_) => false,
        },
{
    let map: serde_json::Map<String, serde_json::Value> = fields.iter().map(|(k, v)| match v {
        FieldValue::Text(t) => (k.clone(), serde_json::Value::from(t.as_str())),
        FieldValue::Number(n) => (k.clone(), serde_json::Value::from(*n)),
    }).collect();
    serde_json::to_string(&map)
}

/// The text of a GET request.
pub open spec fn get_text(path: Seq<char>) -> Seq<char> {
    "GET "@ + path + " HTTP/1.1\r\nHost: localhost\r\nConnection: close\r\n\r\n"@
}

/// The text of a POST request with a body of `length` bytes.
pub open spec fn post_text(path: Seq<char>, length: nat, body: Seq<char>) -> Seq<char> {
    "POST "@ + path
        + " HTTP/1.1\r\nHost: localhost\r\nContent-Type: application/json\r\nContent-Length: "@
        + decimal(length) + "\r\nConnection: close\r\n\r\n"@ + body
}

/// The number of bytes that a text takes in UTF-8.
pub open spec fn byte_length(s: Seq<char>) -> nat {
    vstd::utf8::encode_utf8(s).len()
}

/// The path of an operation on a window.
pub open spec fn window_path(id: WindowId, operation: Seq<char>) -> Seq<char> {
    "/windows/"@ + decimal(id.0 as nat) + "/"@ + operation
}

/// A request that posts these fields.
pub open spec fn posted(
    r: Result<String, AgentError>,
    path: Seq<char>,
    fields: Seq<(Seq<char>, FieldModel)>,
) -> bool {
    r matches Ok(request) && request@ == post_text(
        path,
        byte_length(json_object(fields)),
        json_object(fields),
    )
}

/// The text of a GET request for a path.
pub fn get_request(path: &str) -> (r: String)
    ensures
        r@ == get_text(path@),
{
    let mut s = copy_of("GET ");
    s.append(path);
    s.append(" HTTP/1.1\r\nHost: localhost\r\nConnection: close\r\n\r\n");
    s
}

/// The text of a POST request for a path, with a body of JSON.
pub fn post_request(path: &str, json_body: &str) -> (r: String)
    ensures
        r@ == post_text(path@, byte_length(json_body@), json_body@),
{
    let mut s = copy_of("POST ");
    s.append(path);
    s.append(
        " HTTP/1.1\r\nHost: localhost\r\nContent-Type: application/json\r\nContent-Length: ",
    );
    push_decimal(&mut s, json_body.as_bytes().len() as u64);
    s.append("\r\nConnection: close\r\n\r\n");
    s.append(json_body);
    s
}

/// What stands behind the first blank line of an answer, or all of it where there is none.
pub open spec fn body_of(response: Seq<char>, body: Seq<char>) -> bool {
    if occurs(response, "\r\n\r\n"@) {
        exists|i: int|
            #[trigger] first_at(response, "\r\n\r\n"@, i) && body == response.subrange(
                i + 4,
                response.len() as int,
            )
    } else {
        body == response
    }
}

/// The body of an HTTP answer: what stands behind the first blank line, or all of it where
/// there is none. An empty body is an error.
pub fn response_body(response: &str) -> (r: Result<String, AgentError>)
    ensures
        match r {
            Ok(body) => body_of(response@, body@) && body@.len() > 0,
            Err(AgentError::RequestFailed(m)) => m@ == "empty response body"@ && body_of(
                response@,
                Seq::<char>::empty(),
            ),
            Err(_) => false,
        },
{
    proof {
        reveal_strlit("\r\n\r\n");
    }
    let total: usize = response.unicode_len();
    let body: String = match find(response, "\r\n\r\n") {
        Some(i) => copy_of(response.substring_char(i + 4, total)),
        None => copy_of(response),
    };
    if body.as_str().is_empty() {
        assert(body@ =~= Seq::<char>::empty());
        return Err(AgentError::RequestFailed(copy_of("empty response body")));
    }
    Ok(body)
}

/// The head of an answer is cut off and its body comes out unchanged, whatever the body holds.
pub proof fn body_is_recovered(head: Seq<char>, body: Seq<char>, got: Seq<char>)
    requires
        first_at(head + "\r\n\r\n"@ + body, "\r\n\r\n"@, head.len() as int),
        body_of(head + "\r\n\r\n"@ + body, got),
    ensures
        got == body,
{
    reveal_strlit("\r\n\r\n");
    let whole = head + "\r\n\r\n"@ + body;
    let i = choose|i: int|
        #[trigger] first_at(whole, "\r\n\r\n"@, i) && got == whole.subrange(i + 4, whole.len() as int);
    assert(occurs(whole, "\r\n\r\n"@));
    assert(i == head.len()) by {
        if i < head.len() {
            assert(!crate::text::occurs_at(whole, "\r\n\r\n"@, i));
        } else if i > head.len() {
            assert(!crate::text::occurs_at(whole, "\r\n\r\n"@, head.len() as int));
        }
    }
    assert(whole.subrange(i + 4, whole.len() as int) =~= body);
}

/// The client side of the agent's protocol.
#[derive(Debug)]
pub struct AgentClient {
    socket_path: String,
}

impl AgentClient {
    /// The path of the agent's socket.
    pub closed spec fn path(&self) -> Seq<char> {
        self.socket_path@
    }

    pub fn new(socket_path: &str) -> (r: Self)
        ensures
            r.path() == socket_path@,
    {
        Self { socket_path: copy_of(socket_path) }
    }

    /// The path of the agent's socket.
    pub fn socket_path(&self) -> (r: &str)
        ensures
            r@ == self.path(),
    {
        self.socket_path.as_str()
    }

    fn operation(window_id: WindowId, operation: &str) -> (r: String)
        ensures
            r@ == window_path(window_id, operation@),
    {
        let mut s = copy_of("/windows/");
        push_decimal(&mut s, window_id.0);
        s.append("/");
        s.append(operation);
        s
    }

    fn post(path: &str, fields: &Vec<(String, FieldValue)>) -> (r: Result<String, AgentError>)
        ensures
            posted(r, path@, field_models(fields@)),
    {
        match json_text(fields) {
            Ok(body) => {
                Ok(post_request(path, body.as_str()))
            },
            Err(e) => Err(AgentError::ParseError(e)),
        }
    }

    fn post_text_field(window_id: WindowId, operation: &str, key: &str, value: &str) -> (r: Result<
        String,
        AgentError,
    >)
        ensures
            posted(
                r,
                window_path(window_id, operation@),
                seq![(key@, FieldModel::Text(value@))],
            ),
    {
        let path = Self::operation(window_id, operation);
        let mut fields: Vec<(String, FieldValue)> = Vec::new();
        fields.push((copy_of(key), FieldValue::Text(copy_of(value))));
        assert(field_models(fields@) =~= seq![(key@, FieldModel::Text(value@))]);
        Self::post(path.as_str(), &fields)
    }

    fn post_text_fields(
        window_id: WindowId,
        operation: &str,
        key: &str,
        value: &str,
        key2: &str,
        value2: &str,
    ) -> (r: Result<String, AgentError>)
        ensures
            posted(
                r,
                window_path(window_id, operation@),
                seq![(key@, FieldModel::Text(value@)), (key2@, FieldModel::Text(value2@))],
            ),
    {
        let path = Self::operation(window_id, operation);
        let mut fields: Vec<(String, FieldValue)> = Vec::new();
        fields.push((copy_of(key), FieldValue::Text(copy_of(value))));
        fields.push((copy_of(key2), FieldValue::Text(copy_of(value2))));
        assert(field_models(fields@) =~= seq![
            (key@, FieldModel::Text(value@)),
            (key2@, FieldModel::Text(value2@)),
        ]);
        Self::post(path.as_str(), &fields)
    }

    /// Asks whether the agent is alive.
    pub fn health(&self) -> (r: String)
        ensures
            r@ == get_text("/health"@),
    {
        get_request("/health")
    }

    /// Asks for all visible windows.
    pub fn list_windows(&self) -> (r: String)
        ensures
            r@ == get_text("/windows"@),
    {
        get_request("/windows")
    }

    /// Asks for the interactive components of a window.
    pub fn dump_components(&self, window_id: WindowId) -> (r: String)
        ensures
            r@ == get_text(window_path(window_id, "dump"@)),
    {
        let path = Self::operation(window_id, "dump");
        get_request(path.as_str())
    }

    /// Clicks a button by its label.
    pub fn click_button(&self, window_id: WindowId, label: &str) -> (r: Result<String, AgentError>)
        ensures
            posted(
                r,
                window_path(window_id, "click"@),
                seq![("label"@, FieldModel::Text(label@))],
            ),
    {
        Self::post_text_field(window_id, "click", "label", label)
    }

    /// Types text into the text field at a position.
    pub fn type_text(&self, window_id: WindowId, field_index: usize, text: &str) -> (r: Result<
        String,
        AgentError,
    >)
        ensures
            posted(
                r,
                window_path(window_id, "type"@),
                seq![
                    ("fieldIndex"@, FieldModel::Number(field_index as u64)),
                    ("text"@, FieldModel::Text(text@)),
                ],
            ),
    {
        let path = Self::operation(window_id, "type");
        let mut fields: Vec<(String, FieldValue)> = Vec::new();
        fields.push((copy_of("fieldIndex"), FieldValue::Number(field_index as u64)));
        fields.push((copy_of("text"), FieldValue::Text(copy_of(text))));
        assert(field_models(fields@) =~= seq![
            ("fieldIndex"@, FieldModel::Number(field_index as u64)),
            ("text"@, FieldModel::Text(text@)),
        ]);
        Self::post(path.as_str(), &fields)
    }

    /// Clicks a menu item by its path, such as `Configure/API/Settings`.
    pub fn click_menu(&self, window_id: WindowId, menu_path: &str) -> (r: Result<
        String,
        AgentError,
    >)
        ensures
            posted(
                r,
                window_path(window_id, "menu"@),
                seq![("path"@, FieldModel::Text(menu_path@))],
            ),
    {
        Self::post_text_field(window_id, "menu", "path", menu_path)
    }

    /// Sets a checkbox by its label, or asks for its state where none is given.
    pub fn set_checkbox(&self, window_id: WindowId, label: &str, state: Option<bool>) -> (r: Result<
        String,
        AgentError,
    >)
        ensures
            posted(
                r,
                window_path(window_id, "checkbox"@),
                match state {
                    Some(true) => seq![
                        ("label"@, FieldModel::Text(label@)),
                        ("state"@, FieldModel::Text("true"@)),
                    ],
                    Some(false) => seq![
                        ("label"@, FieldModel::Text(label@)),
                        ("state"@, FieldModel::Text("false"@)),
                    ],
                    None => seq![("label"@, FieldModel::Text(label@))],
                },
            ),
    {
        match state {
            Some(true) => Self::post_text_fields(window_id, "checkbox", "label", label, "state", "true"),
            Some(false) => Self::post_text_fields(window_id, "checkbox", "label", label, "state", "false"),
            None => Self::post_text_field(window_id, "checkbox", "label", label),
        }
    }

    /// Selects an item of a list by its text.
    pub fn select_list_item(&self, window_id: WindowId, item_text: &str) -> (r: Result<
        String,
        AgentError,
    >)
        ensures
            posted(
                r,
                window_path(window_id, "selectlist"@),
                seq![("item"@, FieldModel::Text(item_text@))],
            ),
    {
        Self::post_text_field(window_id, "selectlist", "item", item_text)
    }

    /// Clicks at coordinates relative to a window.
    pub fn click_at(&self, window_id: WindowId, x: i32, y: i32) -> (r: Result<String, AgentError>)
        ensures
            posted(
                r,
                window_path(window_id, "clickat"@),
                seq![
                    ("x"@, FieldModel::Text(signed_decimal(x as int))),
                    ("y"@, FieldModel::Text(signed_decimal(y as int))),
                ],
            ),
    {
        let mut xs = String::new();
        push_signed(&mut xs, x);
        assert(xs@ =~= signed_decimal(x as int));
        let mut ys = String::new();
        push_signed(&mut ys, y);
        assert(ys@ =~= signed_decimal(y as int));
        Self::post_text_fields(window_id, "clickat", "x", xs.as_str(), "y", ys.as_str())
    }

    /// Selects a node of the first tree of a window by its name.
    pub fn select_tree_node(&self, window_id: WindowId, node_name: &str) -> (r: Result<
        String,
        AgentError,
    >)
        ensures
            posted(
                r,
                window_path(window_id, "tree"@),
                seq![("node"@, FieldModel::Text(node_name@))],
            ),
    {
        Self::post_text_field(window_id, "tree", "node", node_name)
    }

    /// Sends a keystroke to a window, such as `Enter` or `Ctrl+F`.
    pub fn send_key(&self, window_id: WindowId, key: &str) -> (r: Result<String, AgentError>)
        ensures
            posted(
                r,
                window_path(window_id, "key"@),
                seq![("key"@, FieldModel::Text(key@))],
            ),
    {
        Self::post_text_field(window_id, "key", "key", key)
    }

    /// What an answer carries. An answer that reports success without data, or an error, is
    /// an error of the agent.
    pub fn unwrap_response<T>(&self, resp: AgentResponse<T>) -> (r: Result<T, AgentError>)
        ensures
            match r {
                Ok(data) => resp.ok && resp.data == Some(data),
                Err(AgentError::Agent(m)) => if resp.ok {
                    resp.data is None && m@ == "response ok but no data"@
                } else {
                    m@ == match resp.error {
                        Some(e) => e@,
                        None => "unknown agent error"@,
                    }
                },
                Err(_) => false,
            },
            r is Ok <==> resp.ok && resp.data is Some,
    {
        if resp.ok {
            match resp.data {
                Some(data) => Ok(data),
                None => Err(AgentError::Agent(copy_of("response ok but no data"))),
            }
        } else {
            match resp.error {
                Some(e) => Err(AgentError::Agent(e)),
                None => Err(AgentError::Agent(copy_of("unknown agent error"))),
            }
        }
    }
}

/// Every request goes to its own place: a question is asked for its path, and an operation is
/// posted to that of its window with its one or two fields.
pub proof fn requests_go_to_their_places(id: WindowId, operation: Seq<char>, path: Seq<char>, n: nat, body: Seq<char>)
    ensures
        window_path(id, operation) == "/windows/"@ + decimal(id.0 as nat) + "/"@ + operation,
        get_text(path) == "GET "@ + path
            + " HTTP/1.1\r\nHost: localhost\r\nConnection: close\r\n\r\n"@,
        post_text(path, n, body) == "POST "@ + path
            + " HTTP/1.1\r\nHost: localhost\r\nContent-Type: application/json\r\nContent-Length: "@
            + decimal(n) + "\r\nConnection: close\r\n\r\n"@ + body,
{
}

/// A request that posts these fields to an operation of a window: the length it gives is that of
/// its body in bytes.
pub open spec fn posts(
    r: Result<String, AgentError>,
    id: WindowId,
    operation: Seq<char>,
    fields: Seq<(Seq<char>, FieldModel)>,
) -> bool {
    let body = json_object(fields);
    r matches Ok(t) && t@ == "POST "@ + ("/windows/"@ + decimal(id.0 as nat) + "/"@ + operation)
        + " HTTP/1.1\r\nHost: localhost\r\nContent-Type: application/json\r\nContent-Length: "@
        + decimal(vstd::utf8::encode_utf8(body).len()) + "\r\nConnection: close\r\n\r\n"@ + body
}

/// The operations of the client and the fields they post.
pub proof fn operations_post_their_fields(
    c: AgentClient,
    w: WindowId,
    t: &str,
    n: usize,
    state: Option<bool>,
    x: i32,
    y: i32,
)
    ensures
        forall|r: Result<String, AgentError>| #[trigger]
            call_ensures(AgentClient::click_button, (&c, w, t), r) ==> posts(
                r,
                w,
                "click"@,
                seq![("label"@, FieldModel::Text(t@))],
            ),
        forall|r: Result<String, AgentError>| #[trigger]
            call_ensures(AgentClient::type_text, (&c, w, n, t), r) ==> posts(
                r,
                w,
                "type"@,
                seq![
                    ("fieldIndex"@, FieldModel::Number(n as u64)),
                    ("text"@, FieldModel::Text(t@)),
                ],
            ),
        forall|r: Result<String, AgentError>| #[trigger]
            call_ensures(AgentClient::click_menu, (&c, w, t), r) ==> posts(
                r,
                w,
                "menu"@,
                seq![("path"@, FieldModel::Text(t@))],
            ),
        forall|r: Result<String, AgentError>| #[trigger]
            call_ensures(AgentClient::set_checkbox, (&c, w, t, state), r) ==> posts(
                r,
                w,
                "checkbox"@,
                match state {
                    Some(on) => seq![
                        ("label"@, FieldModel::Text(t@)),
                        (
                            "state"@,
                            FieldModel::Text(
                                if on {
                                    "true"@
                                } else {
                                    "false"@
                                },
                            ),
                        ),
                    ],
                    None => seq![("label"@, FieldModel::Text(t@))],
                },
            ),
        forall|r: Result<String, AgentError>| #[trigger]
            call_ensures(AgentClient::select_list_item, (&c, w, t), r) ==> posts(
                r,
                w,
                "selectlist"@,
                seq![("item"@, FieldModel::Text(t@))],
            ),
        forall|r: Result<String, AgentError>| #[trigger]
            call_ensures(AgentClient::click_at, (&c, w, x, y), r) ==> posts(
                r,
                w,
                "clickat"@,
                seq![
                    ("x"@, FieldModel::Text(signed_decimal(x as int))),
                    ("y"@, FieldModel::Text(signed_decimal(y as int))),
                ],
            ),
        forall|r: Result<String, AgentError>| #[trigger]
            call_ensures(AgentClient::select_tree_node, (&c, w, t), r) ==> posts(
                r,
                w,
                "tree"@,
                seq![("node"@, FieldModel::Text(t@))],
            ),
        forall|r: Result<String, AgentError>| #[trigger]
            call_ensures(AgentClient::send_key, (&c, w, t), r) ==> posts(
                r,
                w,
                "key"@,
                seq![("key"@, FieldModel::Text(t@))],
            ),
        forall|r: String| #[trigger]
            call_ensures(AgentClient::health, (&c,), r) ==> r@ == get_text("/health"@),
        forall|r: String| #[trigger]
            call_ensures(AgentClient::list_windows, (&c,), r) ==> r@ == get_text("/windows"@),
        forall|r: String| #[trigger]
            call_ensures(AgentClient::dump_components, (&c, w), r) ==> r@ == get_text(
                "/windows/"@ + decimal(w.0 as nat) + "/"@ + "dump"@,
            ),
{
}

/// The answer to a request: an error exactly when nothing stands behind the first blank line, or
/// where there is none when nothing is there at all.
pub proof fn empty_answers_are_errors(response: &str, r: Result<String, AgentError>, head: Seq<char>, body: Seq<char>)
    requires
        call_ensures(response_body, (response,), r),
    ensures
        response@ == head + "\r\n\r\n"@ + body && first_at(
            response@,
            "\r\n\r\n"@,
            head.len() as int,
        ) ==> (r is Ok <==> body.len() > 0) && (r matches Ok(b) ==> b@ == body),
        !occurs(response@, "\r\n\r\n"@) ==> (r is Ok <==> response@.len() > 0) && (r matches Ok(b)
            ==> b@ == response@),
{
    if response@ == head + "\r\n\r\n"@ + body && first_at(
        response@,
        "\r\n\r\n"@,
        head.len() as int,
    ) {
        match r {
            Ok(b) => {
                body_is_recovered(head, body, b@);
            },
            Err(_) => {
                body_is_recovered(head, body, Seq::empty());
            },
        }
    }
}

/// What an answer carries comes out exactly when it reports success and carries something; else
/// the agent's own complaint comes out, or one that says what is missing.
pub proof fn answers_are_unwrapped<T>(c: AgentClient, a: AgentResponse<T>, r: Result<T, AgentError>)
    requires
        call_ensures(AgentClient::unwrap_response::<T>, (&c, a), r),
    ensures
        a.ok ==> (a.data matches Some(d) ==> r == Ok::<T, AgentError>(d)),
        a.ok && a.data is None ==> (r matches Err(AgentError::Agent(m)) && m@
            == "response ok but no data"@),
        !a.ok ==> (a.error matches Some(e) ==> (r matches Err(AgentError::Agent(m)) && m@ == e@)),
        !a.ok && a.error is None ==> (r matches Err(AgentError::Agent(m)) && m@
            == "unknown agent error"@),
{
}

} // verus!
