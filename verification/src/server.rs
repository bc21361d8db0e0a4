//! A Stratum V1 server stub: it counts connections and keeps what it receives.
use vstd::prelude::*;

use crate::json::{Json, JsonError, JsonView};
use crate::message::{Message, MessageError, MessageErrorView, MessageView};
use crate::store::MessageStore;

verus! {

/// Why a line is not kept.
#[derive(Debug)]
pub enum ReceiveError {
    NotJson,
    NotAMessage(MessageError),
}

/// What a `ReceiveError` says.
pub enum ReceiveErrorView {
    NotJson,
    NotAMessage(MessageErrorView),
}

impl View for ReceiveError {
    type V = ReceiveErrorView;

    open spec fn view(&self) -> ReceiveErrorView {
        match self {
            ReceiveError::NotJson => ReceiveErrorView::NotJson,
            ReceiveError::NotAMessage(error) => ReceiveErrorView::NotAMessage(error@),
        }
    }
}

/// The message of a line that was read as this JSON value, or as none.
pub open spec fn read_received(parsed: Option<JsonView>) -> Result<MessageView, ReceiveErrorView> {
    match parsed {
        None => Err(ReceiveErrorView::NotJson),
        Some(json) => match crate::message::read_message(json) {
            Ok(message) => Ok(message),
            Err(error) => Err(ReceiveErrorView::NotAMessage(error)),
        },
    }
}

/// The message that a server finds in a line.
pub open spec fn received(line: Seq<char>) -> Result<MessageView, ReceiveErrorView> {
    read_received(crate::backend::parsed_json(line))
}

/// What is kept once a line has come: its message, if it holds one, as well.
pub open spec fn kept(
    messages: Map<Seq<char>, MessageView>,
    found: Result<MessageView, ReceiveErrorView>,
) -> Map<Seq<char>, MessageView> {
    match found {
        Ok(message) => messages.insert(message.id, message),
        Err(_) => messages,
    }
}

/// What a server has seen.
#[verifier::ext_equal]
pub struct ServerView {
    pub listen_addr: Seq<char>,
    pub connections: nat,
    pub messages: Map<Seq<char>, MessageView>,
}

/// A Stratum V1 server stub for testing
#[derive(Debug)]
pub struct ServerStub {
    listen_addr: String,
    /// Received connections count
    connect_count: usize,
    /// Received messages
    message_store: MessageStore,
}

impl View for ServerStub {
    type V = ServerView;

    closed spec fn view(&self) -> ServerView {
        ServerView {
            listen_addr: self.listen_addr@,
            connections: self.connect_count as nat,
            messages: self.message_store@,
        }
    }
}

impl ServerStub {
    /// The messages are well kept.
    pub closed spec fn wf(&self) -> bool {
        self.message_store.wf()
    }

    /// A server to which nobody has connected.
    pub fn new(listen_addr: &str) -> (server: ServerStub)
        ensures
            server.wf(),
            server@ == (ServerView {
                listen_addr: listen_addr@,
                connections: 0,
                messages: Map::empty(),
            }),
    {
        ServerStub {
            listen_addr: listen_addr.to_string(),
            connect_count: 0,
            message_store: MessageStore::new(),
        }
    }

    /// A client has connected.
    pub fn accept(&mut self)
        requires
            old(self).wf(),
            old(self)@.connections < usize::MAX,
        ensures
            final(self).wf(),
            final(self)@ == (ServerView { connections: old(self)@.connections + 1, ..old(self)@ }),
    {
        self.connect_count = self.connect_count + 1;
    }

    /// A line has come that was read as `parsed`.
    pub fn receive_parsed(&mut self, parsed: Result<Json, JsonError>) -> (result: Result<
        (),
        ReceiveError,
    >)
        requires
            old(self).wf(),
        ensures
            final(self).wf(),
            final(self)@ == (ServerView {
                messages: kept(
                    old(self)@.messages,
                    read_received(crate::line::parsed_view(parsed)),
                ),
                ..old(self)@
            }),
            match read_received(crate::line::parsed_view(parsed)) {
                Ok(_) => result is Ok,
                Err(error) => result matches Err(e) && e@ == error,
            },
    {
        match parsed {
            Err(_) => Err(ReceiveError::NotJson),
            Ok(json) => match Message::from_json(&json) {
                Err(error) => Err(ReceiveError::NotAMessage(error)),
                Ok(message) => {
                    self.message_store.add(&message);
                    Ok(())
                },
            },
        }
    }

    /// A line has come. If it holds a message, the message is kept.
    pub fn receive_line(&mut self, line: &str) -> (result: Result<(), ReceiveError>)
        requires
            old(self).wf(),
        ensures
            final(self).wf(),
            final(self)@ == (ServerView {
                messages: kept(old(self)@.messages, received(line@)),
                ..old(self)@
            }),
            match received(line@) {
                Ok(_) => result is Ok,
                Err(error) => result matches Err(e) && e@ == error,
            },
    {
        self.receive_parsed(Json::parse(line))
    }

    /// How many clients have connected.
    pub fn get_connect_count(&self) -> (count: usize)
        ensures
            count == self@.connections,
    {
        self.connect_count
    }

    /// How many messages are kept.
    pub fn get_message_count(&self) -> (count: usize)
        requires
            self.wf(),
        ensures
            count == self@.messages.len(),
    {
        self.message_store.count()
    }

    /// The message of an id.
    pub fn get_message(&self, id: &str) -> (found: Option<Message>)
        requires
            self.wf(),
        ensures
            found is Some <==> self@.messages.contains_key(id@),
            found matches Some(message) ==> message@ == self@.messages[id@],
    {
        self.message_store.get(id)
    }
}

/// A server finds a message in a line exactly if the line is JSON, and that an object
/// with an id, a method that is a string, and parameters. The message has these
/// parameters and this method, and the text of the id as its id.
pub proof fn law_a_server_finds_what_the_line_holds(line: Seq<char>, message: MessageView)
    ensures
        received(line) == Ok::<MessageView, ReceiveErrorView>(message) <==> {
            let parsed = crate::backend::parsed_json(line);
            &&& parsed is Some && parsed->0 is Object
            &&& parsed->0->Object_0.contains_key("id"@) && message.id == crate::backend::json_text(
                parsed->0->Object_0["id"@],
            )
            &&& parsed->0->Object_0.contains_key("method"@) && parsed->0->Object_0["method"@]
                == JsonView::Str(message.method)
            &&& parsed->0->Object_0.contains_key("params"@) && parsed->0->Object_0["params"@]
                == message.params
        },
        received(line) == Err::<MessageView, ReceiveErrorView>(ReceiveErrorView::NotJson)
            <==> crate::backend::parsed_json(line) is None,
        received(line) matches Err(ReceiveErrorView::NotAMessage(error))
            ==> crate::message::read_message(crate::backend::parsed_json(line)->0) == Err::<
            MessageView,
            MessageErrorView,
        >(error),
        read_received(crate::backend::parsed_json(line)) == received(line),
{
    if let Some(json) = crate::backend::parsed_json(line) {
        crate::message::law_a_message_is_found_in_its_json(json, message);
    }
}

/// A message that was found is kept under its id, as it was found; what is kept under
/// other ids stays. If none was found everything stays.
pub proof fn law_a_server_keeps_what_it_finds(
    messages: Map<Seq<char>, MessageView>,
    message: MessageView,
    error: ReceiveErrorView,
    id: Seq<char>,
)
    ensures
        ({
            let after = kept(messages, Ok::<MessageView, ReceiveErrorView>(message));
            &&& after.contains_key(message.id) && after[message.id] == message
            &&& id != message.id ==> (after.contains_key(id) <==> messages.contains_key(id))
            &&& id != message.id && messages.contains_key(id) ==> after[id] == messages[id]
        }),
        kept(messages, Err::<MessageView, ReceiveErrorView>(error)) == messages,
{
}

/// What is looked at of an error is all that it holds.
pub proof fn law_no_part_of_an_error_is_overlooked(error: MessageError)
    ensures
        ReceiveError::NotJson@ == ReceiveErrorView::NotJson,
        ReceiveError::NotAMessage(error)@ == ReceiveErrorView::NotAMessage(error@),
{
}

} // verus!
