//! What a line that was received says.
use vstd::prelude::*;

use crate::json::{Json, JsonError, JsonView};
use crate::message::{
    Command, CommandView, MessageError, MessageErrorView, ProxyMessage, ProxyMessageView, Response,
    ResponseView,
};
use crate::text::trim;

verus! {

/// What a line says.
pub enum LineView {
    NotJson,
    NotAMessage(MessageErrorView),
    Command(CommandView),
    Response(ResponseView),
}

/// A line, read.
#[derive(Debug)]
pub enum Line {
    NotJson,
    NotAMessage(MessageError),
    Command(Command),
    Response(Response),
}

impl View for Line {
    type V = LineView;

    open spec fn view(&self) -> LineView {
        match self {
            Line::NotJson => LineView::NotJson,
            Line::NotAMessage(error) => LineView::NotAMessage(error@),
            Line::Command(command) => LineView::Command(command@),
            Line::Response(response) => LineView::Response(response@),
        }
    }
}

/// What a line says: the white space around it does not count.
pub open spec fn line_view(line: Seq<char>) -> LineView {
    match crate::backend::parsed_json(crate::text::trimmed(line)) {
        None => LineView::NotJson,
        Some(json) => json_line_view(json),
    }
}

/// What a line says that is this JSON value.
pub open spec fn json_line_view(json: JsonView) -> LineView {
    match crate::message::read_proxy_message(json) {
        Ok(ProxyMessageView::Command(command)) => LineView::Command(command),
        Ok(ProxyMessageView::Response(response)) => LineView::Response(response),
        Err(error) => LineView::NotAMessage(error),
    }
}

/// What is said of a line that no hook sees, if it is such a line.
pub open spec fn complaint(line: Seq<char>, read: LineView) -> Option<Seq<char>> {
    match read {
        LineView::NotJson => Some("ERROR: couldn't parse, hooks not called: "@ + line),
        LineView::NotAMessage(error) => Some(
            "ERROR: couldn't parse, hooks not called: "@ + crate::message::error_text(error) + " "@
                + line,
        ),
        _ => None,
    }
}

/// Reads a line that is this JSON value.
pub fn read_json_line(json: &Json) -> (read: Line)
    ensures
        read@ == json_line_view(json@),
{
    match ProxyMessage::from_json(json) {
        Ok(ProxyMessage::Command(command)) => Line::Command(command),
        Ok(ProxyMessage::Response(response)) => Line::Response(response),
        Err(error) => Line::NotAMessage(error),
    }
}

/// Reads a line.
pub fn read_line(line: &str) -> (read: Line)
    ensures
        read@ == line_view(line@),
{
    match Json::parse(trim(line)) {
        Err(_) => Line::NotJson,
        Ok(json) => read_json_line(&json),
    }
}

impl Line {
    /// What is said of the line if no hook sees it.
    pub fn complaint(&self, line: &str) -> (text: Option<String>)
        ensures
            match complaint(line@, self@) {
                Some(t) => text matches Some(s) && s@ == t,
                None => text is None,
            },
    {
        let start = "ERROR: couldn't parse, hooks not called: ".to_string();
        match self {
            Line::NotJson => Some(start.concat(line)),
            Line::NotAMessage(error) => Some(
                start.concat(&error.to_string()).concat(" ").concat(line),
            ),
            _ => None,
        }
    }
}

/// The JSON value that a text was read as, if it was read as one.
pub open spec fn parsed_view(parsed: Result<Json, JsonError>) -> Option<JsonView> {
    match parsed {
        Ok(json) => Some(json@),
        Err(_) => None,
    }
}

/// A line that is JSON, white space around it aside, is a command exactly if the
/// JSON is an object with the command's id, method and parameters, and a response
/// exactly if it is an object with the response's id and result, with its error if
/// it has one, and without a method.
pub proof fn law_a_line_says_what_its_json_says(
    line: Seq<char>,
    json: JsonView,
    command: CommandView,
    response: ResponseView,
)
    requires
        crate::backend::parsed_json(crate::text::trimmed(line)) == Some(json),
    ensures
        line_view(line) == LineView::Command(command) <==> {
            &&& json is Object
            &&& json->Object_0.contains_key("id"@) && json->Object_0["id"@] == command.id
            &&& json->Object_0.contains_key("method"@) && json->Object_0["method"@]
                == JsonView::Str(command.method)
            &&& json->Object_0.contains_key("params"@) && json->Object_0["params"@]
                == command.params
        },
        line_view(line) == LineView::Response(response) <==> {
            &&& json is Object
            &&& !json->Object_0.contains_key("method"@)
            &&& json->Object_0.contains_key("id"@) && json->Object_0["id"@] == response.id
            &&& json->Object_0.contains_key("result"@) && json->Object_0["result"@]
                == response.result
            &&& json->Object_0.contains_key("error"@) <==> response.error is Some
            &&& response.error is Some ==> json->Object_0["error"@] == response.error->0
        },
        line_view(line) matches LineView::NotAMessage(error) ==> crate::message::read_command(json)
            == Err::<CommandView, MessageErrorView>(error),
        !(line_view(line) is NotJson),
        json_line_view(json) == line_view(line),
{
    crate::message::law_commands_and_responses_are_told_apart(json, command, response);
    crate::message::law_a_command_is_found_in_its_json(json, command);
    crate::message::law_a_response_is_found_in_its_json(json, response);
}

/// A line is no JSON exactly if its text, white space around it aside, is none. Lines
/// that differ in the white space around them say the same.
pub proof fn law_white_space_around_a_line_does_not_count(a: Seq<char>, b: Seq<char>)
    ensures
        line_view(a) is NotJson <==> crate::backend::parsed_json(crate::text::trimmed(a)) is None,
        crate::text::trimmed(a) == crate::text::trimmed(b) ==> line_view(a) == line_view(b),
{
}

/// Of a line that no hook sees it is told that it is such a line, why it is no
/// message if it is JSON, and the whole line. Of commands and responses nothing is
/// told.
pub proof fn law_lines_that_no_hook_sees_are_told(
    line: Seq<char>,
    error: MessageErrorView,
    command: CommandView,
    response: ResponseView,
)
    ensures
        complaint(line, LineView::NotJson) == Some(
            "ERROR: couldn't parse, hooks not called: "@ + line,
        ),
        complaint(line, LineView::NotAMessage(error)) == Some(
            "ERROR: couldn't parse, hooks not called: "@ + crate::message::error_text(error) + " "@
                + line,
        ),
        complaint(line, LineView::Command(command)) is None,
        complaint(line, LineView::Response(response)) is None,
{
}

/// What is looked at of a line that was read is all that it holds, and so it is of a
/// text that was read.
pub proof fn law_no_part_of_a_line_is_overlooked(
    command: Command,
    response: Response,
    error: MessageError,
    json: Json,
)
    ensures
        Line::NotJson@ == LineView::NotJson,
        Line::NotAMessage(error)@ == LineView::NotAMessage(error@),
        Line::Command(command)@ == LineView::Command(command@),
        Line::Response(response)@ == LineView::Response(response@),
        parsed_view(Ok::<Json, JsonError>(json)) == Some(json@),
        parsed_view(Err::<Json, JsonError>(JsonError::NotJson)) is None,
{
}

} // verus!
