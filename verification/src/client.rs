//! A Stratum V1 client stub: it numbers its commands and writes them as lines.
use vstd::prelude::*;

use crate::forward::{write_command, ForwardActionView, ForwardStateView, ForwardTask};
use crate::json::{Json, JsonView};
use crate::line::LineView;
use crate::message::{Command, CommandView, MessageView};
use crate::server::ReceiveErrorView;

verus! {

/// What keeps a client from going on.
#[derive(Debug, Clone, Copy, PartialEq, Eq, Structural)]
pub enum ClientError {
    ConnectFailed,
    NotConnected,
    WriteFailed,
    FlushFailed,
}

/// What a `ClientError` tells.
pub open spec fn client_error_text(error: ClientError) -> Seq<char> {
    match error {
        ClientError::ConnectFailed => "Failed to connect to upstream server"@,
        ClientError::NotConnected => "Not connected"@,
        ClientError::WriteFailed => "Failed to write message"@,
        ClientError::FlushFailed => "Failed to flush"@,
    }
}

impl ClientError {
    /// What the error tells.
    pub fn text(self) -> (text: &'static str)
        ensures
            text@ == client_error_text(self),
    {
        match self {
            ClientError::ConnectFailed => "Failed to connect to upstream server",
            ClientError::NotConnected => "Not connected",
            ClientError::WriteFailed => "Failed to write message",
            ClientError::FlushFailed => "Failed to flush",
        }
    }
}

/// Where a client stands.
#[verifier::ext_equal]
pub struct ClientView {
    pub server_addr: Seq<char>,
    pub username: Seq<char>,
    pub connected: bool,
    /// How many messages it has sent, which is the id of the last one.
    pub sent: nat,
}

/// A Stratum V1 client stub for testing.
#[derive(Debug)]
pub struct ClientStub {
    server_addr: String,
    username: String,
    connected: bool,
    id_counter: u32,
}

impl View for ClientStub {
    type V = ClientView;

    closed spec fn view(&self) -> ClientView {
        ClientView {
            server_addr: self.server_addr@,
            username: self.username@,
            connected: self.connected,
            sent: self.id_counter as nat,
        }
    }
}

/// How the writing of a message's line went.
#[derive(Debug, Clone, Copy, PartialEq, Eq, Structural)]
pub enum SendEvent {
    Sent,
    WriteFailed,
    FlushFailed,
}

/// The command of this number.
pub open spec fn numbered(number: nat, method: Seq<char>, params: JsonView) -> CommandView {
    CommandView {
        id: JsonView::Number(crate::backend::unsigned_number(number as u64)),
        method,
        params,
    }
}

/// The message of this number, as a server keeps it.
pub open spec fn numbered_message(number: nat, method: Seq<char>, params: JsonView) -> MessageView {
    MessageView { id: crate::text::decimal(number), method, params }
}

/// The line is the JSON object of the id, the method and the parameters, with no
/// other field, and both a proxy and a server find the message in it.
pub open spec fn delivers(
    line: Seq<char>,
    number: nat,
    method: Seq<char>,
    params: JsonView,
) -> bool {
    &&& crate::backend::parsed_json(line) == Some(
        crate::message::command_json(numbered(number, method, params)),
    )
    &&& crate::line::line_view(line) == LineView::Command(numbered(number, method, params))
    &&& crate::server::received(line) == Ok::<MessageView, ReceiveErrorView>(
        numbered_message(number, method, params),
    )
}

/// The parser takes the parameters inside a command.
pub open spec fn params_readable(params: JsonView) -> bool {
    &&& crate::backend::nests_within(params, (crate::backend::MAX_NESTING - 1) as nat)
    &&& crate::backend::numbers_parse(params)
}

/// The parameters, inside a command, can be read back.
pub open spec fn params_read_back(params: JsonView) -> bool {
    &&& crate::backend::nests_within(params, (crate::backend::MAX_NESTING - 1) as nat)
    &&& crate::backend::numbers_read_back(params)
}

/// A client that is not connected refuses to send and stays as it is. One that
/// is connected gives the message the next number and writes it as one line. The
/// message is delivered if the parser takes its parameters, with their numbers as
/// they are read from their texts, and as it was sent if those are read back as
/// themselves.
pub open spec fn sends(
    before: ClientView,
    method: Seq<char>,
    params: JsonView,
    after: ClientView,
    result: Result<String, ClientError>,
) -> bool {
    if !before.connected {
        &&& result == Err::<String, ClientError>(ClientError::NotConnected)
        &&& after == before
    } else {
        let number = before.sent + 1;
        &&& after == ClientView { sent: number, ..before }
        &&& result matches Ok(line) && {
            &&& line@ == crate::forward::command_line(numbered(number, method, params))
            &&& crate::text::is_one_line(line@)
            &&& params_readable(params) ==> delivers(
                line@,
                number,
                method,
                crate::backend::reread(params),
            )
            &&& params_read_back(params) ==> delivers(line@, number, method, params)
        }
    }
}

/// The parameters of `mining.configure`.
pub open spec fn configure_params() -> JsonView {
    JsonView::Array(
        seq![
            JsonView::Array(seq![JsonView::Str("version-rolling"@)]),
            JsonView::Object(map!["version-rolling.mask"@ => JsonView::Str("ffffffff"@)]),
        ],
    )
}

/// The parameters of `mining.subscribe`.
pub open spec fn subscribe_params() -> JsonView {
    JsonView::Array(seq![JsonView::Str("bitaxe/BM1368/v2.8.1"@)])
}

/// The parameters of `mining.authorize`.
pub open spec fn authorize_params(username: Seq<char>) -> JsonView {
    JsonView::Array(seq![JsonView::Str(username), JsonView::Str("password"@)])
}

/// The parameters of `mining.suggest_difficulty`.
pub open spec fn suggest_difficulty_params(difficulty: u64) -> JsonView {
    JsonView::Array(seq![JsonView::Number(crate::backend::unsigned_number(difficulty))])
}

impl ClientStub {
    /// A client that is not connected and has sent nothing.
    pub fn new(server_addr: &str, username: &str) -> (client: ClientStub)
        ensures
            client@ == (ClientView {
                server_addr: server_addr@,
                username: username@,
                connected: false,
                sent: 0,
            }),
    {
        ClientStub {
            server_addr: server_addr.to_string(),
            username: username.to_string(),
            connected: false,
            id_counter: 0,
        }
    }

    /// The address to connect to.
    pub fn server_addr(&self) -> (addr: &str)
        ensures
            addr@ == self@.server_addr,
    {
        &self.server_addr
    }

    /// How many messages the client has sent.
    pub fn sent(&self) -> (sent: u32)
        ensures
            sent == self@.sent,
    {
        self.id_counter
    }

    /// Starts the client, of which connecting has succeeded or not.
    pub fn start(&mut self, connected: bool) -> (result: Result<(), ClientError>)
        ensures
            connected ==> result is Ok && final(self)@ == (ClientView {
                connected: true,
                ..old(self)@
            }),
            !connected ==> result == Err::<(), ClientError>(ClientError::ConnectFailed)
                && final(self)@ == old(self)@,
    {
        if connected {
            self.connected = true;
            Ok(())
        } else {
            Err(ClientError::ConnectFailed)
        }
    }

    /// Stops the client; tells whether there is a connection to shut down.
    pub fn stop(&mut self) -> (shut_down: bool)
        ensures
            shut_down == old(self)@.connected,
            final(self)@ == (ClientView { connected: false, ..old(self)@ }),
    {
        let shut_down = self.connected;
        self.connected = false;
        shut_down
    }

    /// Makes the line that sends a message.
    pub fn send_message(&mut self, method: String, params: Json) -> (result: Result<
        String,
        ClientError,
    >)
        requires
            old(self)@.connected ==> old(self)@.sent < u32::MAX,
        ensures
            sends(old(self)@, method@, params@, final(self)@, result),
    {
        if !self.connected {
            return Err(ClientError::NotConnected);
        }
        self.id_counter = self.id_counter + 1;
        let id = Json::from_u64(self.id_counter as u64);
        let command = Command { id, method, params };
        let line = write_command(&command);
        proof {
            let number = self.id_counter as nat;
            assert(command@ == numbered(number, method@, params@));
            crate::backend::law_a_value_that_reads_back_is_read_as_itself(command@.id);
            let read = crate::message::reread_command(command@);
            assert(read == numbered(number, method@, crate::backend::reread(params@)));
            if params_readable(params@) {
                lemma_command_is_readable(command@);
                crate::message::law_command_survives_json(read);
            }
            if params_read_back(params@) {
                crate::backend::law_a_value_that_reads_back_is_read_as_itself(params@);
            }
        }
        Ok(line)
    }

    /// What comes of sending a message, of which writing or flushing has failed or
    /// not. The client stays connected, and the number of the message is used up.
    pub fn finish_sending(&self, event: SendEvent) -> (result: Result<(), ClientError>)
        ensures
            result == match event {
                SendEvent::Sent => Ok(()),
                SendEvent::WriteFailed => Err(ClientError::WriteFailed),
                SendEvent::FlushFailed => Err(ClientError::FlushFailed),
            },
    {
        match event {
            SendEvent::Sent => Ok(()),
            SendEvent::WriteFailed => Err(ClientError::WriteFailed),
            SendEvent::FlushFailed => Err(ClientError::FlushFailed),
        }
    }

    /// Makes the line that sends `mining.configure`.
    pub fn send_mining_configure(&mut self) -> (result: Result<String, ClientError>)
        requires
            old(self)@.connected ==> old(self)@.sent < u32::MAX,
        ensures
            sends(old(self)@, "mining.configure"@, configure_params(), final(self)@, result),
            result matches Ok(line) ==> delivers(
                line@,
                final(self)@.sent,
                "mining.configure"@,
                configure_params(),
            ),
    {
        let mut extensions: Vec<Json> = Vec::new();
        extensions.push(Json::string("version-rolling"));
        let mut options: Vec<(String, Json)> = Vec::new();
        options.push(("version-rolling.mask".to_string(), Json::string("ffffffff")));
        let mut items: Vec<Json> = Vec::new();
        items.push(Json::array(extensions));
        items.push(Json::object(options));
        let params = Json::array(items);
        proof {
            reveal_with_fuel(crate::json::fields_view, 2);
            assert(options@.drop_last() =~= Seq::empty());
            assert(params@->Array_0[0]->Array_0 =~= configure_params()->Array_0[0]->Array_0);
            assert(params@->Array_0[1]->Object_0 =~= configure_params()->Array_0[1]->Object_0);
            assert(params@->Array_0 =~= configure_params()->Array_0);
            lemma_configure_reads_back();
        }
        self.send_message("mining.configure".to_string(), params)
    }

    /// Makes the line that sends `mining.subscribe`.
    pub fn send_mining_subscribe(&mut self) -> (result: Result<String, ClientError>)
        requires
            old(self)@.connected ==> old(self)@.sent < u32::MAX,
        ensures
            sends(old(self)@, "mining.subscribe"@, subscribe_params(), final(self)@, result),
            result matches Ok(line) ==> delivers(
                line@,
                final(self)@.sent,
                "mining.subscribe"@,
                subscribe_params(),
            ),
    {
        let mut items: Vec<Json> = Vec::new();
        items.push(Json::string("bitaxe/BM1368/v2.8.1"));
        let params = Json::array(items);
        proof {
            assert(params@->Array_0 =~= subscribe_params()->Array_0);
            reveal_with_fuel(crate::backend::nests_within, 2);
            reveal_with_fuel(crate::backend::numbers_read_back, 2);
        }
        self.send_message("mining.subscribe".to_string(), params)
    }

    /// Makes the line that sends `mining.authorize`, for the client's user.
    pub fn send_mining_authorize(&mut self) -> (result: Result<String, ClientError>)
        requires
            old(self)@.connected ==> old(self)@.sent < u32::MAX,
        ensures
            sends(
                old(self)@,
                "mining.authorize"@,
                authorize_params(old(self)@.username),
                final(self)@,
                result,
            ),
            result matches Ok(line) ==> delivers(
                line@,
                final(self)@.sent,
                "mining.authorize"@,
                authorize_params(old(self)@.username),
            ),
    {
        let mut items: Vec<Json> = Vec::new();
        items.push(Json::string(&self.username));
        items.push(Json::string("password"));
        let params = Json::array(items);
        proof {
            assert(params@->Array_0 =~= authorize_params(self@.username)->Array_0);
            reveal_with_fuel(crate::backend::nests_within, 2);
            reveal_with_fuel(crate::backend::numbers_read_back, 2);
        }
        self.send_message("mining.authorize".to_string(), params)
    }

    /// Makes the line that sends `mining.suggest_difficulty`.
    pub fn send_mining_suggest_difficulty(&mut self, difficulty: u64) -> (result: Result<
        String,
        ClientError,
    >)
        requires
            old(self)@.connected ==> old(self)@.sent < u32::MAX,
        ensures
            sends(
                old(self)@,
                "mining.suggest_difficulty"@,
                suggest_difficulty_params(difficulty),
                final(self)@,
                result,
            ),
            result matches Ok(line) ==> delivers(
                line@,
                final(self)@.sent,
                "mining.suggest_difficulty"@,
                suggest_difficulty_params(difficulty),
            ),
    {
        let mut items: Vec<Json> = Vec::new();
        items.push(Json::from_u64(difficulty));
        let params = Json::array(items);
        proof {
            assert(params@->Array_0 =~= suggest_difficulty_params(difficulty)->Array_0);
            reveal_with_fuel(crate::backend::nests_within, 2);
            reveal_with_fuel(crate::backend::numbers_read_back, 2);
        }
        self.send_message("mining.suggest_difficulty".to_string(), params)
    }
}

/// The parameters of `mining.configure` can be read back.
proof fn lemma_configure_reads_back()
    ensures
        params_read_back(configure_params()),
{
    reveal_with_fuel(crate::backend::nests_within, 3);
    reveal_with_fuel(crate::backend::numbers_read_back, 3);
}

/// The parser takes a numbered command if it takes its parameters.
proof fn lemma_command_is_readable(command: CommandView)
    requires
        command.id is Number,
        crate::backend::numbers_parse(command.id),
        params_readable(command.params),
    ensures
        crate::backend::is_readable(crate::message::command_json(command)),
{
    let fields = crate::message::command_json(command)->Object_0;
    let levels = (crate::backend::MAX_NESTING - 1) as nat;
    assert forall|k: Seq<char>| #[trigger] fields.contains_key(k) implies {
        &&& crate::backend::nests_within(fields[k], levels)
        &&& crate::backend::numbers_parse(fields[k])
    } by {}
}

/// What a server keeps after a row of lines.
pub open spec fn kept_after(lines: Seq<Seq<char>>) -> Map<Seq<char>, MessageView>
    decreases lines.len(),
{
    if lines.len() == 0 {
        Map::empty()
    } else {
        crate::server::kept(kept_after(lines.drop_last()), crate::server::received(lines.last()))
    }
}

/// A server that gets a client's messages keeps them all, each under its number,
/// with the method and the parameters that it was sent with, and nothing else.
pub proof fn law_server_keeps_what_the_client_sends(
    lines: Seq<Seq<char>>,
    methods: Seq<Seq<char>>,
    params: Seq<JsonView>,
)
    requires
        methods.len() == lines.len(),
        params.len() == lines.len(),
        forall|i: int|
            0 <= i < lines.len() ==> delivers(
                #[trigger] lines[i],
                (i + 1) as nat,
                methods[i],
                params[i],
            ),
    ensures
        kept_after(lines).dom().finite(),
        kept_after(lines).len() == lines.len(),
        forall|n: int|
            1 <= n <= lines.len() ==> {
                &&& kept_after(lines).contains_key(#[trigger] crate::text::decimal(n as nat))
                &&& kept_after(lines)[crate::text::decimal(n as nat)] == numbered_message(
                    n as nat,
                    methods[n - 1],
                    params[n - 1],
                )
            },
        forall|id: Seq<char>| #[trigger]
            kept_after(lines).contains_key(id) ==> exists|n: int|
                1 <= n <= lines.len() && id == #[trigger] crate::text::decimal(n as nat),
    decreases lines.len(),
{
    if lines.len() > 0 {
        let earlier = lines.drop_last();
        let number = lines.len() as int;
        assert forall|i: int| 0 <= i < earlier.len() implies delivers(
            #[trigger] earlier[i],
            (i + 1) as nat,
            methods.drop_last()[i],
            params.drop_last()[i],
        ) by {
            assert(earlier[i] == lines[i]);
        }
        law_server_keeps_what_the_client_sends(earlier, methods.drop_last(), params.drop_last());
        assert(delivers(lines[number - 1], number as nat, methods[number - 1], params[number - 1]));
        let id = crate::text::decimal(number as nat);
        assert(!kept_after(earlier).contains_key(id)) by {
            if kept_after(earlier).contains_key(id) {
                let n = choose|n: int|
                    1 <= n <= earlier.len() && id == #[trigger] crate::text::decimal(n as nat);
                crate::text::lemma_decimal_injective(n as nat, number as nat);
            }
        }
        assert forall|n: int| 1 <= n <= lines.len() implies {
            &&& kept_after(lines).contains_key(#[trigger] crate::text::decimal(n as nat))
            &&& kept_after(lines)[crate::text::decimal(n as nat)] == numbered_message(
                n as nat,
                methods[n - 1],
                params[n - 1],
            )
        } by {
            if n < number {
                assert(kept_after(earlier).contains_key(crate::text::decimal(n as nat)));
            }
        }
    }
}

/// A message that a client sends through a proxy, whose hooks give it no new
/// parameters, is written to the server as the client wrote it, and the server
/// finds it there under its number, as it was sent.
pub proof fn law_message_reaches_the_server_through_a_proxy(
    before: ClientView,
    method: Seq<char>,
    params: JsonView,
    after: ClientView,
    line: String,
    task: ForwardTask,
    gifts: Seq<Option<JsonView>>,
)
    requires
        before.connected,
        sends(before, method, params, after, Ok(line)),
        params_read_back(params),
        gifts.len() == task.hooks,
        forall|i: int| 0 <= i < gifts.len() ==> (#[trigger] gifts[i]) is None,
    ensures
        crate::forward_laws::forward_run(
            task,
            ForwardStateView::Reading,
            crate::forward_laws::processing(line@, gifts),
        ) matches Some((state, actions)) && state is Writing && actions.last() == (
        ForwardActionView::Write { data: line@, complaint: None }),
        crate::server::received(line@) == Ok::<MessageView, ReceiveErrorView>(
            numbered_message(after.sent, method, params),
        ),
{
    crate::forward_laws::law_silent_hooks_pass_the_line(
        task,
        line@,
        numbered(after.sent, method, params),
        gifts,
    );
}

/// A client sends exactly if it is connected. The line is then the text of the JSON
/// object of the next number, the method and the parameters, whatever they are, and
/// a newline; the client stays as it was but for the number that it has used. A
/// client that is not connected says so and stays as it was.
pub proof fn law_a_line_holds_what_is_sent(
    before: ClientView,
    method: Seq<char>,
    params: JsonView,
    after: ClientView,
    result: Result<String, ClientError>,
)
    requires
        sends(before, method, params, after, result),
    ensures
        result is Ok <==> before.connected,
        result is Err ==> result->Err_0 == ClientError::NotConnected && after == before,
        result is Ok ==> {
            &&& after.sent == before.sent + 1
            &&& after.connected
            &&& after.username == before.username
            &&& after.server_addr == before.server_addr
            &&& result->Ok_0@ == crate::backend::json_text(
                JsonView::Object(
                    map![
                        "id"@ => JsonView::Number(
                            crate::backend::unsigned_number((before.sent + 1) as u64),
                        ),
                        "method"@ => JsonView::Str(method),
                        "params"@ => params,
                    ],
                ),
            ).push('\n')
            &&& crate::text::is_one_line(result->Ok_0@)
        },
{
}

/// What is sent in two messages, one after the other, is told apart by its numbers,
/// which follow one another.
pub proof fn law_numbers_follow_one_another(
    before: ClientView,
    between: ClientView,
    after: ClientView,
    methods: (Seq<char>, Seq<char>),
    params: (JsonView, JsonView),
    lines: (String, String),
)
    requires
        sends(before, methods.0, params.0, between, Ok(lines.0)),
        sends(between, methods.1, params.1, after, Ok(lines.1)),
        before.connected,
        params_read_back(params.0),
        params_read_back(params.1),
    ensures
        crate::server::received(lines.0@) matches Ok(first) && (crate::server::received(
            lines.1@,
        ) matches Ok(second) && {
            &&& first.id == crate::text::decimal(before.sent + 1)
            &&& second.id == crate::text::decimal(before.sent + 2)
            &&& first.id != second.id
            &&& first.method == methods.0 && second.method == methods.1
            &&& first.params == params.0 && second.params == params.1
        }),
{
    crate::text::lemma_decimal_injective(before.sent + 1, before.sent + 2);
}

/// A line that delivers a message is read as the JSON object of its number, its method
/// and its parameters, with no other field, and a proxy and a server find these in
/// it.
pub proof fn law_what_is_delivered_is_what_was_sent(
    line: Seq<char>,
    number: nat,
    method: Seq<char>,
    params: JsonView,
)
    requires
        delivers(line, number, method, params),
    ensures
        crate::backend::parsed_json(line) == Some(
            JsonView::Object(
                map![
                    "id"@ => JsonView::Number(crate::backend::unsigned_number(number as u64)),
                    "method"@ => JsonView::Str(method),
                    "params"@ => params,
                ],
            ),
        ),
        crate::line::line_view(line) matches LineView::Command(command) && command.method == method
            && command.params == params && command.id == JsonView::Number(
            crate::backend::unsigned_number(number as u64),
        ),
        crate::server::received(line) matches Ok(message) && message.id == crate::text::decimal(
            number,
        ) && message.method == method && message.params == params,
{
}

/// The parameters of the commands hold what the client was made with or asked for:
/// its user, whatever the name, and the difficulty, whatever it is.
pub proof fn law_commands_hold_what_was_asked_for(username: Seq<char>, difficulty: u64)
    ensures
        authorize_params(username) is Array,
        authorize_params(username)->Array_0.len() == 2,
        authorize_params(username)->Array_0[0] == JsonView::Str(username),
        authorize_params(username)->Array_0[1] == JsonView::Str("password"@),
        suggest_difficulty_params(difficulty) is Array,
        suggest_difficulty_params(difficulty)->Array_0.len() == 1,
        suggest_difficulty_params(difficulty)->Array_0[0] == JsonView::Number(
            crate::backend::unsigned_number(difficulty),
        ),
        subscribe_params() is Array,
        subscribe_params()->Array_0 == seq![JsonView::Str("bitaxe/BM1368/v2.8.1"@)],
        configure_params() is Array,
        configure_params()->Array_0.len() == 2,
        configure_params()->Array_0[0] == JsonView::Array(
            seq![JsonView::Str("version-rolling"@)],
        ),
        configure_params()->Array_0[1] == JsonView::Object(
            map!["version-rolling.mask"@ => JsonView::Str("ffffffff"@)],
        ),
{
}

} // verus!
