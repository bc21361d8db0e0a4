//! Stratum V1 messages: commands, which name a method, and responses.
use vstd::prelude::*;

use crate::json::{field, Json, JsonView};

verus! {

/// A Stratum V1 message, with id, method, and custom parameters. The id is held
/// as its JSON text.
#[derive(Debug)]
pub struct Message {
    pub id: String,
    pub method: String,
    pub params: Json,
}

/// What a message says.
#[verifier::ext_equal]
pub struct MessageView {
    pub id: Seq<char>,
    pub method: Seq<char>,
    pub params: JsonView,
}

impl View for Message {
    type V = MessageView;

    open spec fn view(&self) -> MessageView {
        MessageView { id: self.id@, method: self.method@, params: self.params@ }
    }
}

impl Clone for Message {
    fn clone(&self) -> (copy: Message)
        ensures
            copy@ == self@,
    {
        Message {
            id: self.id.clone(),
            method: self.method.clone(),
            params: self.params.clone(),
        }
    }
}

/// A command as it passes the proxy. The id is held as it came.
#[derive(Debug)]
pub struct Command {
    pub id: Json,
    pub method: String,
    pub params: Json,
}

/// What a command says.
#[verifier::ext_equal]
pub struct CommandView {
    pub id: JsonView,
    pub method: Seq<char>,
    pub params: JsonView,
}

impl View for Command {
    type V = CommandView;

    open spec fn view(&self) -> CommandView {
        CommandView { id: self.id@, method: self.method@, params: self.params@ }
    }
}

impl Clone for Command {
    fn clone(&self) -> (copy: Command)
        ensures
            copy@ == self@,
    {
        Command {
            id: self.id.clone(),
            method: self.method.clone(),
            params: self.params.clone(),
        }
    }
}

/// Why a JSON value is no message, with the value that is at fault.
#[derive(Debug)]
pub enum MessageError {
    NotAnObject(Json),
    MissingId(Json),
    MissingMethod(Json),
    MethodNotString(Json),
    MissingParams(Json),
}

/// What a `MessageError` says.
pub enum MessageErrorView {
    NotAnObject(JsonView),
    MissingId(JsonView),
    MissingMethod(JsonView),
    MethodNotString(JsonView),
    MissingParams(JsonView),
}

impl View for MessageError {
    type V = MessageErrorView;

    open spec fn view(&self) -> MessageErrorView {
        match self {
            MessageError::NotAnObject(json) => MessageErrorView::NotAnObject(json@),
            MessageError::MissingId(json) => MessageErrorView::MissingId(json@),
            MessageError::MissingMethod(json) => MessageErrorView::MissingMethod(json@),
            MessageError::MethodNotString(json) => MessageErrorView::MethodNotString(json@),
            MessageError::MissingParams(json) => MessageErrorView::MissingParams(json@),
        }
    }
}

/// The command that a JSON value is, or what first keeps it from being one. The
/// id, the method and the parameters are looked for in this order.
pub open spec fn read_command(json: JsonView) -> Result<CommandView, MessageErrorView> {
    match json {
        JsonView::Object(fields) => if !fields.contains_key("id"@) {
            Err(MessageErrorView::MissingId(json))
        } else if !fields.contains_key("method"@) {
            Err(MessageErrorView::MissingMethod(json))
        } else if !(fields["method"@] is Str) {
            Err(MessageErrorView::MethodNotString(fields["method"@]))
        } else if !fields.contains_key("params"@) {
            Err(MessageErrorView::MissingParams(json))
        } else {
            Ok(
                CommandView {
                    id: fields["id"@],
                    method: fields["method"@]->Str_0,
                    params: fields["params"@],
                },
            )
        },
        _ => Err(MessageErrorView::NotAnObject(json)),
    }
}

/// The message of a command: its id is held as text.
pub open spec fn command_message(command: CommandView) -> MessageView {
    MessageView {
        id: crate::backend::json_text(command.id),
        method: command.method,
        params: command.params,
    }
}

/// The message that a JSON value is, or what first keeps it from being one.
pub open spec fn read_message(json: JsonView) -> Result<MessageView, MessageErrorView> {
    match read_command(json) {
        Ok(command) => Ok(command_message(command)),
        Err(error) => Err(error),
    }
}

/// A command as a JSON object.
pub open spec fn command_json(command: CommandView) -> JsonView {
    JsonView::Object(
        map![
            "id"@ => command.id,
            "method"@ => JsonView::Str(command.method),
            "params"@ => command.params,
        ],
    )
}

/// A command with its numbers as they are read from their texts.
pub open spec fn reread_command(command: CommandView) -> CommandView {
    CommandView {
        id: crate::backend::reread(command.id),
        method: command.method,
        params: crate::backend::reread(command.params),
    }
}

/// The value that the text of an id stands for. A text that is no JSON stands for
/// itself.
pub open spec fn id_json(id: Seq<char>) -> JsonView {
    match crate::backend::parsed_json(id) {
        Some(json) => json,
        None => JsonView::Str(id),
    }
}

/// A message as a JSON object.
pub open spec fn message_json(message: MessageView) -> JsonView {
    command_json(
        CommandView {
            id: id_json(message.id),
            method: message.method,
            params: message.params,
        },
    )
}

/// An answer to a command: it carries the command's id and a result.
#[derive(Debug)]
pub struct Response {
    pub id: Json,
    pub result: Json,
    pub error: Option<Json>,
}

/// What a response says.
#[verifier::ext_equal]
pub struct ResponseView {
    pub id: JsonView,
    pub result: JsonView,
    pub error: Option<JsonView>,
}

impl View for Response {
    type V = ResponseView;

    open spec fn view(&self) -> ResponseView {
        ResponseView {
            id: self.id@,
            result: self.result@,
            error: match self.error {
                Some(error) => Some(error@),
                None => None,
            },
        }
    }
}

impl Clone for Response {
    fn clone(&self) -> (copy: Response)
        ensures
            copy@ == self@,
    {
        let error = match &self.error {
            Some(error) => Some(error.clone()),
            None => None,
        };
        Response { id: self.id.clone(), result: self.result.clone(), error }
    }
}

/// A message of either kind.
#[derive(Debug)]
pub enum ProxyMessage {
    Command(Command),
    Response(Response),
}

/// What a message of either kind says.
pub enum ProxyMessageView {
    Command(CommandView),
    Response(ResponseView),
}

impl View for ProxyMessage {
    type V = ProxyMessageView;

    open spec fn view(&self) -> ProxyMessageView {
        match self {
            ProxyMessage::Command(command) => ProxyMessageView::Command(command@),
            ProxyMessage::Response(response) => ProxyMessageView::Response(response@),
        }
    }
}

/// The response that a JSON value is: an object with an id and a result, and
/// without a method. The error may be left out.
pub open spec fn read_response(json: JsonView) -> Option<ResponseView> {
    match json {
        JsonView::Object(fields) => if fields.contains_key("id"@) && fields.contains_key("result"@)
            && !fields.contains_key("method"@) {
            Some(
                ResponseView {
                    id: fields["id"@],
                    result: fields["result"@],
                    error: if fields.contains_key("error"@) {
                        Some(fields["error"@])
                    } else {
                        None
                    },
                },
            )
        } else {
            None
        },
        _ => None,
    }
}

/// The message of either kind that a JSON value is, or what keeps it from being
/// a command if it is no response.
pub open spec fn read_proxy_message(json: JsonView) -> Result<ProxyMessageView, MessageErrorView> {
    match read_response(json) {
        Some(response) => Ok(ProxyMessageView::Response(response)),
        None => match read_command(json) {
            Ok(command) => Ok(ProxyMessageView::Command(command)),
            Err(error) => Err(error),
        },
    }
}

/// A response as a JSON object; an error that was left out is left out.
pub open spec fn response_json(response: ResponseView) -> JsonView {
    let fields = map!["id"@ => response.id, "result"@ => response.result];
    JsonView::Object(
        match response.error {
            Some(error) => fields.insert("error"@, error),
            None => fields,
        },
    )
}

/// A response as servers write it: the id, the result and the error, if there is
/// one, in this order.
pub open spec fn response_text(response: ResponseView) -> Seq<char> {
    "{\"id\":"@ + crate::backend::json_text(response.id) + ",\"result\":"@
        + crate::backend::json_text(response.result) + match response.error {
        Some(error) => ",\"error\":"@ + crate::backend::json_text(error),
        None => Seq::empty(),
    } + "}"@
}

/// What a `MessageError` misses.
pub open spec fn error_start(error: MessageErrorView) -> Seq<char> {
    match error {
        MessageErrorView::NotAnObject(_) => "Error: message should be a JSON object "@,
        MessageErrorView::MissingId(_) => "Error: message should have an ID field "@,
        MessageErrorView::MissingMethod(_) => "Error: message should have a METHOD field "@,
        MessageErrorView::MethodNotString(_) =>
            "Error: message should have a METHOD string field "@,
        MessageErrorView::MissingParams(_) => "Error: message should have a PARAMS field "@,
    }
}

/// The value at fault.
pub open spec fn error_json(error: MessageErrorView) -> JsonView {
    match error {
        MessageErrorView::NotAnObject(json) => json,
        MessageErrorView::MissingId(json) => json,
        MessageErrorView::MissingMethod(json) => json,
        MessageErrorView::MethodNotString(json) => json,
        MessageErrorView::MissingParams(json) => json,
    }
}

/// What a `MessageError` tells.
pub open spec fn error_text(error: MessageErrorView) -> Seq<char> {
    error_start(error) + crate::backend::json_text(error_json(error))
}

/// Id, method and a text of the parameters, a space between them.
pub open spec fn message_text(message: MessageView, params: Seq<char>) -> Seq<char> {
    message.id + " "@ + message.method + " "@ + params
}

/// The message with its parameters indented; on one line if they cannot be.
pub open spec fn pretty_message(message: MessageView) -> Seq<char> {
    message_text(
        message,
        match crate::backend::pretty_text(message.params) {
            Some(pretty) => pretty,
            None => crate::backend::json_text(message.params),
        },
    )
}

impl MessageError {
    /// What is missing.
    pub fn start(&self) -> (text: &'static str)
        ensures
            text@ == error_start(self@),
    {
        match self {
            MessageError::NotAnObject(_) => "Error: message should be a JSON object ",
            MessageError::MissingId(_) => "Error: message should have an ID field ",
            MessageError::MissingMethod(_) => "Error: message should have a METHOD field ",
            MessageError::MethodNotString(_) => "Error: message should have a METHOD string field ",
            MessageError::MissingParams(_) => "Error: message should have a PARAMS field ",
        }
    }

    /// The value at fault.
    pub fn json(&self) -> (json: &Json)
        ensures
            json@ == error_json(self@),
    {
        match self {
            MessageError::NotAnObject(json) => json,
            MessageError::MissingId(json) => json,
            MessageError::MissingMethod(json) => json,
            MessageError::MethodNotString(json) => json,
            MessageError::MissingParams(json) => json,
        }
    }

    /// What the error tells: what is missing, then the value at fault.
    pub fn to_string(&self) -> (text: String)
        ensures
            text@ == error_text(self@),
    {
        self.start().to_string().concat(&self.json().to_text())
    }
}

impl Command {
    /// Reads a JSON value as a command.
    pub fn from_json(json: &Json) -> (read: Result<Command, MessageError>)
        ensures
            match read_command(json@) {
                Ok(command) => read matches Ok(c) && c@ == command,
                Err(error) => read matches Err(e) && e@ == error,
            },
    {
        let fields = match json {
            Json::Object(fields) => fields,
            _ => return Err(MessageError::NotAnObject(json.clone())),
        };
        let id = match field(fields, "id") {
            Some(id) => id,
            None => return Err(MessageError::MissingId(json.clone())),
        };
        let method = match field(fields, "method") {
            Some(method) => method,
            None => return Err(MessageError::MissingMethod(json.clone())),
        };
        let name = match method {
            Json::Str(name) => name,
            _ => return Err(MessageError::MethodNotString(method.clone())),
        };
        let params = match field(fields, "params") {
            Some(params) => params,
            None => return Err(MessageError::MissingParams(json.clone())),
        };
        Ok(Command { id: id.clone(), method: name.clone(), params: params.clone() })
    }

    /// The message of the command.
    pub fn message(&self) -> (message: Message)
        ensures
            message@ == command_message(self@),
    {
        Message {
            id: self.id.to_text(),
            method: self.method.clone(),
            params: self.params.clone(),
        }
    }

    /// The command as a JSON object.
    pub fn to_json(&self) -> (json: Json)
        ensures
            json@ == command_json(self@),
    {
        let mut fields: Vec<(String, Json)> = Vec::new();
        fields.push(("id".to_string(), self.id.clone()));
        fields.push(("method".to_string(), Json::Str(self.method.clone())));
        fields.push(("params".to_string(), self.params.clone()));
        proof {
            reveal_with_fuel(crate::json::fields_view, 4);
            assert(fields@.drop_last().drop_last().drop_last() =~= Seq::empty());
            assert(crate::json::fields_view(fields@) =~= command_json(self@)->Object_0);
        }
        Json::Object(fields)
    }
}

impl Response {
    /// Reads a JSON value as a response.
    pub fn from_json(json: &Json) -> (read: Option<Response>)
        ensures
            match read_response(json@) {
                Some(response) => read matches Some(r) && r@ == response,
                None => read is None,
            },
    {
        let fields = match json {
            Json::Object(fields) => fields,
            _ => return None,
        };
        if field(fields, "method").is_some() {
            return None;
        }
        match (field(fields, "id"), field(fields, "result")) {
            (Some(id), Some(result)) => {
                let error = match field(fields, "error") {
                    Some(error) => Some(error.clone()),
                    None => None,
                };
                Some(Response { id: id.clone(), result: result.clone(), error })
            },
            _ => None,
        }
    }

    /// The response as a JSON object.
    pub fn to_json(&self) -> (json: Json)
        ensures
            json@ == response_json(self@),
    {
        let mut fields: Vec<(String, Json)> = Vec::new();
        fields.push(("id".to_string(), self.id.clone()));
        fields.push(("result".to_string(), self.result.clone()));
        proof {
            reveal_with_fuel(crate::json::fields_view, 4);
            assert(fields@.drop_last().drop_last() =~= Seq::empty());
        }
        let ghost sound = fields@;
        if let Some(error) = &self.error {
            fields.push(("error".to_string(), error.clone()));
            assert(fields@.drop_last() =~= sound);
        }
        let json = Json::object(fields);
        assert(json@->Object_0 =~= response_json(self@)->Object_0);
        json
    }

    /// The response as servers write it.
    pub fn to_text(&self) -> (text: String)
        ensures
            text@ == response_text(self@),
    {
        let start = "{\"id\":".to_string().concat(&self.id.to_text()).concat(
            ",\"result\":",
        ).concat(&self.result.to_text());
        match &self.error {
            Some(error) => {
                let end = ",\"error\":".to_string().concat(&error.to_text());
                start.concat(&end).concat("}")
            },
            None => {
                assert(start@ + Seq::<char>::empty() =~= start@);
                start.concat("}")
            },
        }
    }
}

impl ProxyMessage {
    /// Reads a JSON value as a message of either kind.
    pub fn from_json(json: &Json) -> (read: Result<ProxyMessage, MessageError>)
        ensures
            match read_proxy_message(json@) {
                Ok(message) => read matches Ok(m) && m@ == message,
                Err(error) => read matches Err(e) && e@ == error,
            },
    {
        match Response::from_json(json) {
            Some(response) => Ok(ProxyMessage::Response(response)),
            None => match Command::from_json(json) {
                Ok(command) => Ok(ProxyMessage::Command(command)),
                Err(error) => Err(error),
            },
        }
    }
}

/// A command that was written as JSON is read from it as it was, and never as a
/// response.
pub proof fn law_command_survives_json(command: CommandView)
    ensures
        read_command(command_json(command)) == Ok::<CommandView, MessageErrorView>(command),
        read_proxy_message(command_json(command)) == Ok::<ProxyMessageView, MessageErrorView>(
            ProxyMessageView::Command(command),
        ),
{
    reveal_strlit("id");
    reveal_strlit("method");
    reveal_strlit("params");
    assert("id"@.len() != "method"@.len());
    assert("id"@.len() != "params"@.len());
    assert("method"@[0] != "params"@[0]);
}

/// What is read from the text of a command's JSON is the command, with its numbers
/// as they are read.
pub proof fn law_command_is_read_by_its_parts(command: CommandView)
    ensures
        crate::backend::reread(command_json(command)) == command_json(reread_command(command)),
{
    let read = crate::backend::reread(command_json(command));
    let parts = command_json(reread_command(command));
    let whole = command_json(command);
    assert(read->Object_0.dom() =~= parts->Object_0.dom());
    assert forall|k: Seq<char>| #[trigger]
        read->Object_0.contains_key(k) implies read->Object_0[k] == parts->Object_0[k] by {
        assert(read->Object_0[k] == crate::backend::reread(whole->Object_0[k]));
    }
    assert(read->Object_0 =~= parts->Object_0);
}

/// If a JSON value can be read back from its text, so can the command that it is.
pub proof fn law_command_reads_back_if_its_json_does(json: JsonView, command: CommandView)
    requires
        read_command(json) == Ok::<CommandView, MessageErrorView>(command),
        crate::backend::reads_back(json),
    ensures
        crate::backend::reads_back(command_json(command)),
{
    let whole = json->Object_0;
    let fields = command_json(command)->Object_0;
    let levels = (crate::backend::MAX_NESTING - 1) as nat;
    assert forall|k: Seq<char>| #[trigger] fields.contains_key(k) implies {
        &&& crate::backend::nests_within(fields[k], levels)
        &&& crate::backend::numbers_read_back(fields[k])
    } by {
        assert(whole.contains_key(k));
    }
}

/// A JSON value is a message exactly if it is an object with an id, a method
/// that is a string, and parameters. What else the object holds does not matter.
pub proof fn law_message_needs_its_fields(json: JsonView)
    ensures
        read_message(json) is Ok <==> {
            &&& json is Object
            &&& json->Object_0.contains_key("id"@)
            &&& json->Object_0.contains_key("method"@)
            &&& json->Object_0["method"@] is Str
            &&& json->Object_0.contains_key("params"@)
        },
{
}

impl Message {
    /// Reads a JSON value as a message.
    pub fn from_json(json: &Json) -> (read: Result<Message, MessageError>)
        ensures
            match read_message(json@) {
                Ok(message) => read matches Ok(m) && m@ == message,
                Err(error) => read matches Err(e) && e@ == error,
            },
    {
        match Command::from_json(json) {
            Ok(command) => Ok(command.message()),
            Err(error) => Err(error),
        }
    }

    /// The message as a JSON object, of whose id `id` is the value.
    pub fn to_json_with_id(&self, id: Json) -> (json: Json)
        ensures
            json@ == command_json(
                CommandView { id: id@, method: self.method@, params: self.params@ },
            ),
    {
        Command { id, method: self.method.clone(), params: self.params.clone() }.to_json()
    }

    /// The message as a JSON object.
    pub fn to_json(&self) -> (json: Json)
        ensures
            json@ == message_json(self@),
    {
        let id = match Json::parse(&self.id) {
            Ok(id) => id,
            Err(_) => Json::string(&self.id),
        };
        self.to_json_with_id(id)
    }

    /// Id, method and a text of the parameters.
    pub fn with_params_text(&self, params: &str) -> (text: String)
        ensures
            text@ == message_text(self@, params@),
    {
        self.id.clone().concat(" ").concat(&self.method).concat(" ").concat(params)
    }

    /// The message with its parameters indented; on one line if they cannot be.
    pub fn to_prerry_string(&self) -> (text: String)
        ensures
            text@ == pretty_message(self@),
    {
        match self.params.to_pretty_text() {
            Some(pretty) => self.with_params_text(&pretty),
            None => self.to_string(),
        }
    }

    /// The message on one line.
    pub fn to_string(&self) -> (text: String)
        ensures
            text@ == message_text(self@, crate::backend::json_text(self.params@)),
    {
        self.with_params_text(&self.params.to_text())
    }
}

/// The names of the fields that messages are made of differ from one another.
proof fn lemma_names_differ()
    ensures
        "id"@ != "method"@,
        "id"@ != "params"@,
        "id"@ != "result"@,
        "id"@ != "error"@,
        "method"@ != "params"@,
        "method"@ != "result"@,
        "method"@ != "error"@,
        "params"@ != "result"@,
        "params"@ != "error"@,
        "result"@ != "error"@,
{
    reveal_strlit("id");
    reveal_strlit("method");
    reveal_strlit("params");
    reveal_strlit("result");
    reveal_strlit("error");
    assert("id"@.len() == 2);
    assert("error"@.len() == 5);
    assert("method"@[0] == 'm');
    assert("params"@[0] == 'p');
    assert("result"@[0] == 'r');
}

/// What is looked at of a message, a command or a response is all that it holds.
pub proof fn law_nothing_is_overlooked(message: Message, command: Command, response: Response)
    ensures
        message@.id == message.id@,
        message@.method == message.method@,
        message@.params == message.params@,
        command@.id == command.id@,
        command@.method == command.method@,
        command@.params == command.params@,
        response@.id == response.id@,
        response@.result == response.result@,
        response@.error is Some <==> response.error is Some,
        response.error is Some ==> response@.error->0 == response.error->0@,
{
}

/// A command's JSON is an object of its id, its method and its parameters, and of
/// nothing else.
pub proof fn law_command_json_holds_the_command(command: CommandView)
    ensures
        command_json(command) is Object,
        forall|k: Seq<char>| #[trigger]
            command_json(command)->Object_0.contains_key(k) <==> k == "id"@ || k == "method"@ || k
                == "params"@,
        command_json(command)->Object_0["id"@] == command.id,
        command_json(command)->Object_0["method"@] == JsonView::Str(command.method),
        command_json(command)->Object_0["params"@] == command.params,
{
    lemma_names_differ();
}

/// A value that is a command is an object that holds the id, the method and the
/// parameters of the command, whatever else it holds.
pub proof fn law_a_command_is_found_in_its_json(json: JsonView, command: CommandView)
    ensures
        read_command(json) == Ok::<CommandView, MessageErrorView>(command) <==> {
            &&& json is Object
            &&& json->Object_0.contains_key("id"@) && json->Object_0["id"@] == command.id
            &&& json->Object_0.contains_key("method"@) && json->Object_0["method"@]
                == JsonView::Str(command.method)
            &&& json->Object_0.contains_key("params"@) && json->Object_0["params"@]
                == command.params
        },
{
}

/// What keeps a value from being a command is told, with the value at fault: it is
/// no object, or the first of the id, the method and the parameters that it has
/// not, or that its method is no string.
pub proof fn law_the_first_fault_is_told(json: JsonView)
    ensures
        !(json is Object) ==> read_command(json) == Err::<CommandView, MessageErrorView>(
            MessageErrorView::NotAnObject(json),
        ),
        json is Object && !json->Object_0.contains_key("id"@) ==> read_command(json) == Err::<
            CommandView,
            MessageErrorView,
        >(MessageErrorView::MissingId(json)),
        json is Object && json->Object_0.contains_key("id"@) && !json->Object_0.contains_key(
            "method"@,
        ) ==> read_command(json) == Err::<CommandView, MessageErrorView>(
            MessageErrorView::MissingMethod(json),
        ),
        json is Object && json->Object_0.contains_key("id"@) && json->Object_0.contains_key(
            "method"@,
        ) && !(json->Object_0["method"@] is Str) ==> read_command(json) == Err::<
            CommandView,
            MessageErrorView,
        >(MessageErrorView::MethodNotString(json->Object_0["method"@])),
        json is Object && json->Object_0.contains_key("id"@) && json->Object_0.contains_key(
            "method"@,
        ) && json->Object_0["method"@] is Str && !json->Object_0.contains_key("params"@)
            ==> read_command(json) == Err::<CommandView, MessageErrorView>(
            MessageErrorView::MissingParams(json),
        ),
        read_command(json) matches Err(error) ==> read_message(json) == Err::<
            MessageView,
            MessageErrorView,
        >(error),
{
}

/// The message of a value, whatever its id is, has the string under "method" as its
/// method, the value under "params" as its parameters, and the text of the value
/// under "id" as its id.
pub proof fn law_a_message_is_found_in_its_json(json: JsonView, message: MessageView)
    ensures
        read_message(json) == Ok::<MessageView, MessageErrorView>(message) <==> {
            &&& json is Object
            &&& json->Object_0.contains_key("id"@) && message.id == crate::backend::json_text(
                json->Object_0["id"@],
            )
            &&& json->Object_0.contains_key("method"@) && json->Object_0["method"@]
                == JsonView::Str(message.method)
            &&& json->Object_0.contains_key("params"@) && json->Object_0["params"@]
                == message.params
        },
{
}

/// The message of a command is what is read from the command's JSON: nothing of the
/// command is lost but that its id is held as text.
pub proof fn law_the_message_of_a_command_loses_nothing(command: CommandView)
    ensures
        read_message(command_json(command)) == Ok::<MessageView, MessageErrorView>(
            command_message(command),
        ),
        command_message(command).id == crate::backend::json_text(command.id),
        command_message(command).method == command.method,
        command_message(command).params == command.params,
{
    law_command_survives_json(command);
}

/// The JSON of a message says what the message says: its method and its parameters
/// are read from it, and its id as well where that is the text of a value which it
/// is read as. It holds nothing else.
pub proof fn law_a_message_survives_json(message: MessageView)
    ensures
        read_message(message_json(message)) matches Ok(read) && {
            &&& read.method == message.method
            &&& read.params == message.params
            &&& forall|id: JsonView|
                message.id == #[trigger] crate::backend::json_text(id)
                    && crate::backend::parsed_json(message.id) == Some(id) ==> read == message
        },
        forall|k: Seq<char>| #[trigger]
            message_json(message)->Object_0.contains_key(k) <==> k == "id"@ || k == "method"@ || k
                == "params"@,
        crate::backend::parsed_json(message.id) is Some ==> message_json(message)->Object_0["id"@]
            == crate::backend::parsed_json(message.id)->0,
        crate::backend::parsed_json(message.id) is None ==> message_json(message)->Object_0["id"@]
            == JsonView::Str(message.id),
{
    lemma_names_differ();
}

/// A command's message is written as the command is, where its id is read back.
pub proof fn law_message_and_command_have_one_json(command: CommandView)
    requires
        crate::backend::parsed_json(crate::backend::json_text(command.id)) == Some(command.id),
    ensures
        message_json(command_message(command)) == command_json(command),
{
}

/// A value that is a response is an object that holds the id and the result of the
/// response, its error exactly if the response has one, and no method, whatever
/// else it holds.
pub proof fn law_a_response_is_found_in_its_json(json: JsonView, response: ResponseView)
    ensures
        read_response(json) == Some(response) <==> {
            &&& json is Object
            &&& !json->Object_0.contains_key("method"@)
            &&& json->Object_0.contains_key("id"@) && json->Object_0["id"@] == response.id
            &&& json->Object_0.contains_key("result"@) && json->Object_0["result"@]
                == response.result
            &&& json->Object_0.contains_key("error"@) <==> response.error is Some
            &&& response.error is Some ==> json->Object_0["error"@] == response.error->0
        },
        read_response(json) is Some <==> {
            &&& json is Object
            &&& !json->Object_0.contains_key("method"@)
            &&& json->Object_0.contains_key("id"@)
            &&& json->Object_0.contains_key("result"@)
        },
{
}

/// A response that was written as JSON is read from it as it was, and never as a
/// command.
pub proof fn law_a_response_survives_json(response: ResponseView)
    ensures
        read_response(response_json(response)) == Some(response),
        read_proxy_message(response_json(response)) == Ok::<ProxyMessageView, MessageErrorView>(
            ProxyMessageView::Response(response),
        ),
        read_command(response_json(response)) is Err,
        forall|k: Seq<char>| #[trigger]
            response_json(response)->Object_0.contains_key(k) <==> k == "id"@ || k == "result"@ || (
            k == "error"@ && response.error is Some),
{
    lemma_names_differ();
    law_a_response_is_found_in_its_json(response_json(response), response);
}

/// A value is taken for a command exactly if it is one, and for a response exactly
/// if it is one; no value is both. Of any other value it is told why it is no
/// command.
pub proof fn law_commands_and_responses_are_told_apart(
    json: JsonView,
    command: CommandView,
    response: ResponseView,
)
    ensures
        read_proxy_message(json) == Ok::<ProxyMessageView, MessageErrorView>(
            ProxyMessageView::Command(command),
        ) <==> read_command(json) == Ok::<CommandView, MessageErrorView>(command),
        read_proxy_message(json) == Ok::<ProxyMessageView, MessageErrorView>(
            ProxyMessageView::Response(response),
        ) <==> read_response(json) == Some(response),
        !(read_response(json) is Some && read_command(json) is Ok),
        read_proxy_message(json) matches Err(error) ==> read_response(json) is None
            && read_command(json) == Err::<CommandView, MessageErrorView>(error),
{
}

/// A response without an error is written with its id and its result. One with an
/// error is written as without it, and then, before the end, with the error.
pub proof fn law_a_response_is_written_part_by_part(id: JsonView, result: JsonView, error: JsonView)
    ensures
        response_text(ResponseView { id, result, error: None }) == "{\"id\":"@
            + crate::backend::json_text(id) + ",\"result\":"@ + crate::backend::json_text(result)
            + "}"@,
        response_text(ResponseView { id, result, error: Some(error) }) == response_text(
            ResponseView { id, result, error: None },
        ).drop_last() + ",\"error\":"@ + crate::backend::json_text(error) + "}"@,
{
    reveal_strlit("}");
    let start = "{\"id\":"@ + crate::backend::json_text(id) + ",\"result\":"@
        + crate::backend::json_text(result);
    assert(start + Seq::<char>::empty() =~= start);
    assert((start + "}"@).drop_last() =~= start);
    let end = ",\"error\":"@ + crate::backend::json_text(error);
    assert(start + end =~= start + ",\"error\":"@ + crate::backend::json_text(error));
}

/// An error tells what is missing, and then the text of the value at fault.
pub proof fn law_errors_tell_the_value_at_fault(json: JsonView)
    ensures
        error_text(MessageErrorView::NotAnObject(json))
            == "Error: message should be a JSON object "@ + crate::backend::json_text(json),
        error_text(MessageErrorView::MissingId(json))
            == "Error: message should have an ID field "@ + crate::backend::json_text(json),
        error_text(MessageErrorView::MissingMethod(json))
            == "Error: message should have a METHOD field "@ + crate::backend::json_text(json),
        error_text(MessageErrorView::MethodNotString(json))
            == "Error: message should have a METHOD string field "@ + crate::backend::json_text(
            json,
        ),
        error_text(MessageErrorView::MissingParams(json))
            == "Error: message should have a PARAMS field "@ + crate::backend::json_text(json),
        error_json(MessageErrorView::NotAnObject(json)) == json,
        error_json(MessageErrorView::MissingId(json)) == json,
        error_json(MessageErrorView::MissingMethod(json)) == json,
        error_json(MessageErrorView::MethodNotString(json)) == json,
        error_json(MessageErrorView::MissingParams(json)) == json,
{
}

/// What is looked at of an error is all that it holds.
pub proof fn law_no_fault_is_overlooked(json: Json)
    ensures
        MessageError::NotAnObject(json)@ == MessageErrorView::NotAnObject(json@),
        MessageError::MissingId(json)@ == MessageErrorView::MissingId(json@),
        MessageError::MissingMethod(json)@ == MessageErrorView::MissingMethod(json@),
        MessageError::MethodNotString(json)@ == MessageErrorView::MethodNotString(json@),
        MessageError::MissingParams(json)@ == MessageErrorView::MissingParams(json@),
{
}

/// A message's text is its id, a space, its method, a space, and a text of its
/// parameters: the indented one where there is one.
pub proof fn law_the_text_of_a_message_holds_its_parts(message: MessageView, params: Seq<char>)
    ensures
        ({
            let text = message_text(message, params);
            let id = message.id.len() as int;
            let method = message.method.len() as int;
            &&& text.len() == id + 1 + method + 1 + params.len()
            &&& text.take(id) == message.id
            &&& text[id] == ' '
            &&& text.subrange(id + 1, id + 1 + method) == message.method
            &&& text[id + 1 + method] == ' '
            &&& text.skip(id + 2 + method) == params
        }),
        crate::backend::pretty_text(message.params) == Some(params) ==> pretty_message(message)
            == message_text(message, params),
        crate::backend::pretty_text(message.params) is None && params == crate::backend::json_text(
            message.params,
        ) ==> pretty_message(message) == message_text(message, params),
{
    reveal_strlit(" ");
    let text = message_text(message, params);
    let id = message.id.len() as int;
    let method = message.method.len() as int;
    assert(text.take(id) =~= message.id);
    assert(text.subrange(id + 1, id + 1 + method) =~= message.method);
    assert(text.skip(id + 2 + method) =~= params);
}

} // verus!
