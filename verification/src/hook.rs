//! Hooks: what may look at a message, and change its parameters, before it is
//! sent on.
use vstd::prelude::*;

use crate::json::{Json, JsonView};
use crate::message::{Message, Response};
use crate::text::indent;

verus! {

/// Which way a message goes.
#[derive(Clone, Copy, PartialEq, Eq, Structural)]
pub enum Direction {
    ClientToUpstream,
    UpstreamToClient,
}

/// How a direction is shown in reports.
pub open spec fn direction_label(direction: Direction) -> Seq<char> {
    match direction {
        Direction::ClientToUpstream => "Client->Upstream"@,
        Direction::UpstreamToClient => "Upstream->Client"@,
    }
}

/// How a direction is shown with a message on its way.
pub open spec fn direction_way(direction: Direction) -> Seq<char> {
    match direction {
        Direction::ClientToUpstream => "CLIENT -> UPSTREAM"@,
        Direction::UpstreamToClient => "UPSTREAM -> CLIENT"@,
    }
}

/// One of the two that a session connects.
#[derive(Debug, Clone, Copy, PartialEq, Eq, Structural)]
pub enum Side {
    Client,
    Upstream,
}

/// The side whose lines go this way.
pub open spec fn source_of(direction: Direction) -> Side {
    match direction {
        Direction::ClientToUpstream => Side::Client,
        Direction::UpstreamToClient => Side::Upstream,
    }
}

/// The side that gets the lines that go this way.
pub open spec fn destination_of(direction: Direction) -> Side {
    match direction {
        Direction::ClientToUpstream => Side::Upstream,
        Direction::UpstreamToClient => Side::Client,
    }
}

impl Direction {
    /// How the direction is shown in reports.
    pub fn label(self) -> (label: &'static str)
        ensures
            label@ == direction_label(self),
    {
        match self {
            Direction::ClientToUpstream => "Client->Upstream",
            Direction::UpstreamToClient => "Upstream->Client",
        }
    }

    /// How the direction is shown with a message on its way.
    pub fn way(self) -> (way: &'static str)
        ensures
            way@ == direction_way(self),
    {
        match self {
            Direction::ClientToUpstream => "CLIENT -> UPSTREAM",
            Direction::UpstreamToClient => "UPSTREAM -> CLIENT",
        }
    }

    /// The side whose lines go this way.
    pub fn source(self) -> (side: Side)
        ensures
            side == source_of(self),
    {
        match self {
            Direction::ClientToUpstream => Side::Client,
            Direction::UpstreamToClient => Side::Upstream,
        }
    }

    /// The side that gets them.
    pub fn destination(self) -> (side: Side)
        ensures
            side == destination_of(self),
    {
        match self {
            Direction::ClientToUpstream => Side::Upstream,
            Direction::UpstreamToClient => Side::Client,
        }
    }
}

/// Why a hook gave up.
#[derive(Debug)]
pub struct HookError {
    pub reason: String,
}

/// What a hook says of a message: new parameters, nothing, or that it failed.
pub type HookOutcome = Result<Option<Json>, HookError>;

/// Trait for (optional) hooks
pub trait Hook: Send + Sync {
    /// Hook to use/modify the contents of a message, before forwarding.
    /// Contents presented as Json.
    /// Return modified params (if modified)
    fn process(&self, direction: Direction, client_addr: &str, message: &Message) -> (outcome:
        HookOutcome);

    /// Hook to use the contents of a response, which is forwarded as it came.
    /// A hook that is for commands alone lets it pass.
    fn process_response(&self, direction: Direction, client_addr: &str, response: &Response) {
    }
}

/// A boxed hook does what the hook in the box does.
impl<H: Hook + ?Sized> Hook for Box<H> {
    fn process(&self, direction: Direction, client_addr: &str, message: &Message) -> (outcome:
        HookOutcome)
        ensures
            call_ensures(H::process, (&**self, direction, client_addr, message), outcome),
    {
        (**self).process(direction, client_addr, message)
    }

    fn process_response(&self, direction: Direction, client_addr: &str, response: &Response)
        ensures
            call_ensures(H::process_response, (&**self, direction, client_addr, response), ()),
    {
        (**self).process_response(direction, client_addr, response)
    }
}

/// A line that reports something of a direction.
pub open spec fn reported(client_addr: Seq<char>, direction: Direction, text: Seq<char>) -> Seq<
    char,
> {
    "["@ + client_addr + "] "@ + direction_label(direction) + ": "@ + text
}

/// A line that reports something of a direction.
pub fn report(client_addr: &str, direction: Direction, text: &str) -> (line: String)
    ensures
        line@ == reported(client_addr@, direction, text@),
{
    "[".to_string().concat(client_addr).concat("] ").concat(direction.label()).concat(": ").concat(
        text,
    )
}

/// A message on its way: its JSON on one line, and below it the indented form.
pub open spec fn shown(
    client_addr: Seq<char>,
    direction: Direction,
    text: Seq<char>,
    pretty: Seq<char>,
) -> Seq<char> {
    "["@ + client_addr + "] "@ + direction_way(direction) + ": "@ + text + "\n  └─ Parsed: "@
        + crate::text::indented(pretty)
}

/// Shows a message on its way, its texts being known.
pub fn show_text(client_addr: &str, direction: Direction, text: &str, pretty: &str) -> (shown_as:
    String)
    ensures
        shown_as@ == shown(client_addr@, direction, text@, pretty@),
{
    "[".to_string().concat(client_addr).concat("] ").concat(direction.way()).concat(": ").concat(
        text,
    ).concat("\n  └─ Parsed: ").concat(&indent(pretty))
}

/// The indented text of a value; the compact one if it cannot be indented.
pub open spec fn parsed_form(json: JsonView) -> Seq<char> {
    match crate::backend::pretty_text(json) {
        Some(pretty) => pretty,
        None => crate::backend::json_text(json),
    }
}

/// Writes a value in its indented form; in the compact one if that fails.
fn write_parsed_form(json: &Json) -> (text: String)
    ensures
        text@ == parsed_form(json@),
{
    match json.to_pretty_text() {
        Some(pretty) => pretty,
        None => json.to_text(),
    }
}

/// Shows a message on its way.
pub fn show_message(client_addr: &str, direction: Direction, message: &Message) -> (shown_as:
    String)
    ensures
        shown_as@ == shown(
            client_addr@,
            direction,
            crate::backend::json_text(crate::message::message_json(message@)),
            parsed_form(crate::message::message_json(message@)),
        ),
{
    let json = message.to_json();
    show_text(client_addr, direction, &json.to_text(), &write_parsed_form(&json))
}

/// Shows a response on its way.
pub fn show_response(client_addr: &str, direction: Direction, response: &Response) -> (shown_as:
    String)
    ensures
        shown_as@ == shown(
            client_addr@,
            direction,
            crate::message::response_text(response@),
            parsed_form(crate::message::response_json(response@)),
        ),
{
    let pretty = write_parsed_form(&response.to_json());
    show_text(client_addr, direction, &response.to_text(), &pretty)
}

/// What a hook gave: parameters, if any.
pub open spec fn given(outcome: HookOutcome) -> Option<Json> {
    match outcome {
        Ok(changed) => changed,
        Err(_) => None,
    }
}

/// The value after one more hook: what it gave, if it gave any.
pub open spec fn after_hook<T>(value: T, gift: Option<T>) -> T {
    match gift {
        Some(changed) => changed,
        None => value,
    }
}

/// The value after a row of hooks.
pub open spec fn after_hooks<T>(value: T, gifts: Seq<Option<T>>) -> T
    decreases gifts.len(),
{
    if gifts.len() == 0 {
        value
    } else {
        after_hook(after_hooks(value, gifts.drop_last()), gifts.last())
    }
}

/// Tells whether a hook gave parameters.
pub fn gave_params(outcome: &HookOutcome) -> (gave: bool)
    ensures
        gave == given(*outcome) is Some,
        gave <==> *outcome is Ok && outcome->Ok_0 is Some,
{
    match outcome {
        Ok(changed) => changed.is_some(),
        Err(_) => false,
    }
}

/// Takes over what a hook gave: parameters, if it gave any.
pub fn apply_outcome(params: &mut Json, outcome: HookOutcome)
    ensures
        *final(params) == after_hook(*old(params), given(outcome)),
        outcome matches Ok(Some(answered)) ==> *final(params) == answered,
        outcome is Err || outcome->Ok_0 is None ==> *final(params) == *old(params),
{
    if let Ok(Some(changed)) = outcome {
        *params = changed;
    }
}

/// Hooks that give nothing leave the value as it was.
pub proof fn law_silent_hooks_change_nothing<T>(value: T, gifts: Seq<Option<T>>)
    requires
        forall|i: int| 0 <= i < gifts.len() ==> gifts[i] is None,
    ensures
        after_hooks(value, gifts) == value,
    decreases gifts.len(),
{
    if gifts.len() > 0 {
        law_silent_hooks_change_nothing(value, gifts.drop_last());
    }
}

/// Of the hooks that give something the last one wins.
pub proof fn law_last_hook_wins<T>(value: T, gifts: Seq<Option<T>>, winner: int)
    requires
        0 <= winner < gifts.len(),
        gifts[winner] is Some,
        forall|i: int| winner < i < gifts.len() ==> gifts[i] is None,
    ensures
        after_hooks(value, gifts) == gifts[winner]->0,
    decreases gifts.len(),
{
    if winner < gifts.len() - 1 {
        law_last_hook_wins(value, gifts.drop_last(), winner);
    }
}

/// What a hook gave is what it answered: the parameters of an answer that has some,
/// whatever they are, and nothing if it answered nothing or failed.
pub proof fn law_what_is_answered_is_given(params: Json, error: HookError)
    ensures
        given(Ok::<Option<Json>, HookError>(Some(params))) == Some(params),
        given(Ok::<Option<Json>, HookError>(None)) is None,
        given(Err::<Option<Json>, HookError>(error)) is None,
{
}

/// What a hook gives takes the place of what was there; a hook that gives nothing
/// leaves it.
pub proof fn law_a_gift_takes_the_place<T>(value: T, gift: T)
    ensures
        after_hook(value, Some(gift)) == gift,
        after_hook(value, None) == value,
        after_hooks(value, seq![Some(gift)]) == gift,
        after_hooks(value, Seq::empty()) == value,
{
    law_last_hook_wins(value, seq![Some(gift)], 0);
}

/// The hooks of two rows act one after the other: the second row starts with what
/// the first one left.
pub proof fn law_rows_of_hooks_follow_one_another<T>(
    value: T,
    first: Seq<Option<T>>,
    second: Seq<Option<T>>,
)
    ensures
        after_hooks(value, first + second) == after_hooks(after_hooks(value, first), second),
    decreases second.len(),
{
    if second.len() == 0 {
        assert(first + second =~= first);
    } else {
        law_rows_of_hooks_follow_one_another(value, first, second.drop_last());
        assert((first + second).drop_last() =~= first + second.drop_last());
    }
}

/// Each direction leads from one side to the other, and the two directions lead the
/// opposite ways.
pub proof fn law_directions_are_opposite()
    ensures
        forall|d: Direction| #[trigger] source_of(d) != destination_of(d),
        source_of(Direction::ClientToUpstream) is Client,
        source_of(Direction::UpstreamToClient) is Upstream,
        destination_of(Direction::ClientToUpstream) is Upstream,
        destination_of(Direction::UpstreamToClient) is Client,
{
}

/// A message on its way is shown with the client's address, its way and its text on
/// the first line, and below it with the indented form. Nothing of the texts is
/// left out, whatever they are.
pub proof fn law_what_is_shown_holds_all_texts(
    client_addr: Seq<char>,
    text: Seq<char>,
    pretty: Seq<char>,
)
    ensures
        shown(client_addr, Direction::ClientToUpstream, text, pretty) == "["@ + client_addr
            + "] CLIENT -> UPSTREAM: "@ + text + "\n  └─ Parsed: "@ + crate::text::indented(pretty),
        shown(client_addr, Direction::UpstreamToClient, text, pretty) == "["@ + client_addr
            + "] UPSTREAM -> CLIENT: "@ + text + "\n  └─ Parsed: "@ + crate::text::indented(pretty),
{
    reveal_strlit("] ");
    reveal_strlit(": ");
    reveal_strlit("CLIENT -> UPSTREAM");
    reveal_strlit("UPSTREAM -> CLIENT");
    reveal_strlit("] CLIENT -> UPSTREAM: ");
    reveal_strlit("] UPSTREAM -> CLIENT: ");
    assert("] "@ + "CLIENT -> UPSTREAM"@ + ": "@ =~= "] CLIENT -> UPSTREAM: "@);
    assert("] "@ + "UPSTREAM -> CLIENT"@ + ": "@ =~= "] UPSTREAM -> CLIENT: "@);
    assert("["@ + client_addr + "] "@ + "CLIENT -> UPSTREAM"@ + ": "@ =~= "["@ + client_addr
        + "] CLIENT -> UPSTREAM: "@);
    assert("["@ + client_addr + "] "@ + "UPSTREAM -> CLIENT"@ + ": "@ =~= "["@ + client_addr
        + "] UPSTREAM -> CLIENT: "@);
}

/// A report holds the client's address, the direction and the whole text.
pub proof fn law_a_report_holds_all_texts(client_addr: Seq<char>, text: Seq<char>)
    ensures
        reported(client_addr, Direction::ClientToUpstream, text) == "["@ + client_addr
            + "] Client->Upstream: "@ + text,
        reported(client_addr, Direction::UpstreamToClient, text) == "["@ + client_addr
            + "] Upstream->Client: "@ + text,
{
    reveal_strlit("] ");
    reveal_strlit(": ");
    reveal_strlit("Client->Upstream");
    reveal_strlit("Upstream->Client");
    reveal_strlit("] Client->Upstream: ");
    reveal_strlit("] Upstream->Client: ");
    assert("] "@ + "Client->Upstream"@ + ": "@ =~= "] Client->Upstream: "@);
    assert("] "@ + "Upstream->Client"@ + ": "@ =~= "] Upstream->Client: "@);
    assert("["@ + client_addr + "] "@ + "Client->Upstream"@ + ": "@ =~= "["@ + client_addr
        + "] Client->Upstream: "@);
    assert("["@ + client_addr + "] "@ + "Upstream->Client"@ + ": "@ =~= "["@ + client_addr
        + "] Upstream->Client: "@);
}

/// The form below the first line is the indented text where there is one, and the
/// compact one otherwise.
pub proof fn law_the_parsed_form_is_the_indented_text(json: JsonView, pretty: Seq<char>)
    ensures
        crate::backend::pretty_text(json) == Some(pretty) ==> parsed_form(json) == pretty,
        crate::backend::pretty_text(json) is None ==> parsed_form(json)
            == crate::backend::json_text(json),
{
}

} // verus!
