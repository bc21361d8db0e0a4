//! The part of serde_json that the library calls, and what is believed of it.
//!
//! A `serde_json::Value` is looked at through `value_contents`, an object
//! through `object_contents`. The text that a value is written as and the value
//! that a text is read as go by the names `json_text`, `pretty_text` and
//! `parsed_json`.
use vstd::prelude::*;

use crate::json::JsonView;

verus! {

/// A number, which is carried and never looked into.
#[verifier::external_type_specification]
#[verifier::external_body]
pub struct ExNumber(serde_json::Number);

/// A value, whose contents are `value_contents`.
#[verifier::external_type_specification]
#[verifier::external_body]
pub struct ExValue(serde_json::Value);

/// An object's fields, whose contents are `object_contents`.
#[verifier::external_type_specification]
#[verifier::external_body]
#[verifier::reject_recursive_types(K)]
#[verifier::reject_recursive_types(V)]
pub struct ExMap<K, V>(serde_json::Map<K, V>);

/// Why a text is no JSON, or a value could not be written.
#[verifier::external_type_specification]
#[verifier::external_body]
pub struct ExError(serde_json::Error);

/// What a value holds.
pub uninterp spec fn value_contents(value: serde_json::Value) -> JsonView;

/// What an object holds, by the names of its fields.
pub uninterp spec fn object_contents(object: serde_json::Map<String, serde_json::Value>) -> Map<
    Seq<char>,
    JsonView,
>;

/// The compact text of a value.
pub uninterp spec fn json_text(value: JsonView) -> Seq<char>;

/// The indented text of a value, or that it cannot be written.
pub uninterp spec fn pretty_text(value: JsonView) -> Option<Seq<char>>;

/// The value that a text is read as, or that it is no JSON.
pub uninterp spec fn parsed_json(text: Seq<char>) -> Option<JsonView>;

/// The number that stands for an unsigned integer.
pub uninterp spec fn unsigned_number(n: u64) -> serde_json::Number;

/// The number is held as a float.
pub uninterp spec fn is_float(number: serde_json::Number) -> bool;

/// How many arrays and objects inside one another the parser follows.
pub const MAX_NESTING: u8 = 127;

/// `value` nests at most `levels` deep.
pub open spec fn nests_within(value: JsonView, levels: nat) -> bool
    decreases levels,
{
    match value {
        JsonView::Array(items) => levels > 0 && forall|i: int|
            0 <= i < items.len() ==> nests_within(#[trigger] items[i], (levels - 1) as nat),
        JsonView::Object(fields) => levels > 0 && forall|k: Seq<char>| #[trigger]
            fields.contains_key(k) ==> nests_within(fields[k], (levels - 1) as nat),
        _ => true,
    }
}

/// Each number in `value` is read from its own text as a number. (A float at the
/// far end of the range may be refused.)
pub open spec fn numbers_parse(value: JsonView) -> bool
    decreases value,
{
    match value {
        JsonView::Number(n) => parsed_json(json_text(value)) is Some && parsed_json(
            json_text(value),
        )->0 is Number,
        JsonView::Array(items) => forall|i: int|
            0 <= i < items.len() ==> numbers_parse(#[trigger] items[i]),
        JsonView::Object(fields) => forall|k: Seq<char>| #[trigger]
            fields.contains_key(k) ==> numbers_parse(fields[k]),
        _ => true,
    }
}

/// Each number in `value` is read back from its own text as itself. (Some floats
/// are read back as a neighbouring float.)
pub open spec fn numbers_read_back(value: JsonView) -> bool
    decreases value,
{
    match value {
        JsonView::Number(n) => parsed_json(json_text(value)) == Some(value),
        JsonView::Array(items) => forall|i: int|
            0 <= i < items.len() ==> numbers_read_back(#[trigger] items[i]),
        JsonView::Object(fields) => forall|k: Seq<char>| #[trigger]
            fields.contains_key(k) ==> numbers_read_back(fields[k]),
        _ => true,
    }
}

/// `value` with each number replaced by what that number's text is read as.
pub open spec fn reread(value: JsonView) -> JsonView
    decreases value,
{
    match value {
        JsonView::Number(n) => parsed_json(json_text(value))->0,
        JsonView::Array(items) => JsonView::Array(
            Seq::new(
                items.len(),
                |i: int|
                    if 0 <= i < items.len() {
                        reread(items[i])
                    } else {
                        JsonView::Null
                    },
            ),
        ),
        JsonView::Object(fields) => JsonView::Object(
            Map::new(
                |k: Seq<char>| fields.contains_key(k),
                |k: Seq<char>|
                    if fields.contains_key(k) {
                        reread(fields[k])
                    } else {
                        JsonView::Null
                    },
            ),
        ),
        _ => value,
    }
}

/// The parser takes the text of `value`.
pub open spec fn is_readable(value: JsonView) -> bool {
    nests_within(value, MAX_NESTING as nat) && numbers_parse(value)
}

/// The parser reads `value` back from its text.
pub open spec fn reads_back(value: JsonView) -> bool {
    nests_within(value, MAX_NESTING as nat) && numbers_read_back(value)
}

/// A value whose numbers are read back as themselves is read as itself.
pub proof fn law_a_value_that_reads_back_is_read_as_itself(value: JsonView)
    requires
        numbers_read_back(value),
    ensures
        numbers_parse(value),
        reread(value) == value,
    decreases value,
{
    match value {
        JsonView::Array(items) => {
            assert forall|i: int| 0 <= i < items.len() implies {
                &&& numbers_parse(#[trigger] items[i])
                &&& reread(items[i]) == items[i]
            } by {
                law_a_value_that_reads_back_is_read_as_itself(items[i]);
            }
            assert(reread(value)->Array_0 =~= items);
        },
        JsonView::Object(fields) => {
            assert forall|k: Seq<char>| #[trigger] fields.contains_key(k) implies {
                &&& numbers_parse(fields[k])
                &&& reread(fields[k]) == fields[k]
            } by {
                law_a_value_that_reads_back_is_read_as_itself(fields[k]);
            }
            assert(reread(value)->Object_0 =~= fields);
        },
        _ => {},
    }
}

/// What a sequence of fields makes of an object: a later field replaces an
/// earlier one of its name.
pub open spec fn entries_contents(entries: Seq<(String, serde_json::Value)>) -> Map<
    Seq<char>,
    JsonView,
>
    decreases entries.len(),
{
    if entries.len() == 0 {
        Map::empty()
    } else {
        entries_contents(entries.drop_last()).insert(
            entries.last().0@,
            value_contents(entries.last().1),
        )
    }
}

/// One level of a value.
pub enum Node {
    Null,
    Bool(bool),
    Number(serde_json::Number),
    Str(String),
    Array(Vec<serde_json::Value>),
    Object(serde_json::Map<String, serde_json::Value>),
}

/// What the value of a level holds.
pub open spec fn node_contents(node: Node) -> JsonView {
    match node {
        Node::Null => JsonView::Null,
        Node::Bool(b) => JsonView::Bool(b),
        Node::Number(n) => JsonView::Number(n),
        Node::Str(s) => JsonView::Str(s@),
        Node::Array(items) => JsonView::Array(
            items@.map_values(|v: serde_json::Value| value_contents(v)),
        ),
        Node::Object(object) => JsonView::Object(object_contents(object)),
    }
}

/// Takes a `serde_json::Value` apart by its variants; the level holds what the
/// value held.
#[verifier::external_body]
pub(crate) fn open_value(value: serde_json::Value) -> (node: Node)
    ensures
        node_contents(node) == value_contents(value),
{
    match value {
        serde_json::Value::Null => Node::Null,
        serde_json::Value::Bool(b) => Node::Bool(b),
        serde_json::Value::Number(n) => Node::Number(n),
        serde_json::Value::String(s) => Node::Str(s),
        serde_json::Value::Array(items) => Node::Array(items),
        serde_json::Value::Object(object) => Node::Object(object),
    }
}

/// Puts a `serde_json::Value` together by its variants; the value holds what
/// the level held.
#[verifier::external_body]
pub(crate) fn close_value(node: Node) -> (value: serde_json::Value)
    ensures
        value_contents(value) == node_contents(node),
{
    match node {
        Node::Null => serde_json::Value::Null,
        Node::Bool(b) => serde_json::Value::Bool(b),
        Node::Number(n) => serde_json::Value::Number(n),
        Node::Str(s) => serde_json::Value::String(s),
        Node::Array(items) => serde_json::Value::Array(items),
        Node::Object(object) => serde_json::Value::Object(object),
    }
}

/// Calls `serde_json::Map::new`, which makes an object without fields.
#[verifier::external_body]
pub(crate) fn object_new() -> (object: serde_json::Map<String, serde_json::Value>)
    ensures
        object_contents(object) == crate::json::no_fields(),
{
    serde_json::Map::new()
}

/// Calls `serde_json::Map::insert`, which gives the field `name` the value
/// `value`, whether or not the object had it, and leaves the other fields as
/// they were. The value that the field had before is dropped.
#[verifier::external_body]
pub(crate) fn object_insert(
    object: &mut serde_json::Map<String, serde_json::Value>,
    name: String,
    value: serde_json::Value,
)
    ensures
        object_contents(*final(object)) == object_contents(*old(object)).insert(
            name@,
            value_contents(value),
        ),
{
    object.insert(name, value);
}

/// Calls `serde_json::Map::into_iter`, which hands out the fields of an object,
/// no name twice.
#[verifier::external_body]
pub(crate) fn object_entries(object: serde_json::Map<String, serde_json::Value>) -> (entries: Vec<
    (String, serde_json::Value),
>)
    ensures
        entries_contents(entries@) == object_contents(object),
        forall|i: int, j: int| 0 <= i < j < entries@.len() ==> entries@[i].0@ != entries@[j].0@,
{
    object.into_iter().collect()
}

/// Calls `serde_json::from_str` for a `serde_json::Value`: the text is read as
/// the value named `parsed_json`, or refused. A text that nests too deep is
/// refused.
#[verifier::external_body]
pub(crate) fn parse_value(text: &str) -> (parsed: Result<serde_json::Value, serde_json::Error>)
    ensures
        parsed is Ok <==> parsed_json(text@) is Some,
        parsed matches Ok(value) ==> parsed_json(text@) == Some(value_contents(value)),
        parsed matches Ok(value) ==> nests_within(value_contents(value), MAX_NESTING as nat),
{
    serde_json::from_str(text)
}

/// Calls `to_string` on a `serde_json::Value`, whose `Display` writes the
/// compact form, named `json_text`. That text is never empty; it neither starts
/// nor ends in white space and holds no newline, which inside a string is
/// written as an escape. If the value nests no deeper than the parser follows and
/// the text of each of its numbers is read as a number, the text is read as the
/// value with its numbers read so, also with a newline behind it.
#[verifier::external_body]
pub(crate) fn write_value(value: &serde_json::Value) -> (text: String)
    ensures
        text@ == json_text(value_contents(*value)),
        text@.len() > 0,
        !crate::text::is_white_space(text@.first()),
        !crate::text::is_white_space(text@.last()),
        !text@.contains('\n'),
        is_readable(value_contents(*value)) ==> parsed_json(text@) == Some(
            reread(value_contents(*value)),
        ),
        is_readable(value_contents(*value)) ==> parsed_json(
            crate::text::as_line(text@),
        ) == Some(reread(value_contents(*value))),
{
    value.to_string()
}

/// Calls `serde_json::to_string_pretty` on a `serde_json::Value`, which writes
/// the indented form, named `pretty_text`, or fails. The indented form differs
/// from the compact one in white space between the tokens alone: both are read
/// as the same value, or both are refused.
#[verifier::external_body]
pub(crate) fn write_value_pretty(value: &serde_json::Value) -> (text: Result<
    String,
    serde_json::Error,
>)
    ensures
        text is Ok <==> pretty_text(value_contents(*value)) is Some,
        text matches Ok(t) ==> pretty_text(value_contents(*value)) == Some(t@),
        text matches Ok(t) ==> parsed_json(t@) == parsed_json(json_text(value_contents(*value))),
{
    serde_json::to_string_pretty(value)
}

/// Calls `serde_json::Number::from` on a `u64`. The number, named
/// `unsigned_number`, is written as the decimal digits of `n`, and those digits
/// are read back as it.
#[verifier::external_body]
pub(crate) fn number_from(n: u64) -> (number: serde_json::Number)
    ensures
        number == unsigned_number(n),
        json_text(JsonView::Number(number)) == crate::text::decimal(n as nat),
        parsed_json(crate::text::decimal(n as nat)) == Some(JsonView::Number(number)),
{
    serde_json::Number::from(n)
}

/// Calls `serde_json::Number::is_f64`, which tells, as `is_float` says, whether
/// the number is a float. One that is not is an integer, and an integer's digits
/// are read back as it.
#[verifier::external_body]
pub(crate) fn number_is_float(number: &serde_json::Number) -> (float: bool)
    ensures
        float == is_float(*number),
        !float ==> parsed_json(json_text(JsonView::Number(*number))) == Some(
            JsonView::Number(*number),
        ),
{
    number.is_f64()
}

/// `serde_json::Number`'s `clone` gives an equal number.
pub assume_specification[ <serde_json::Number as Clone>::clone ](
    number: &serde_json::Number,
) -> (copy: serde_json::Number)
    ensures
        copy == *number,
;

/// What a value is read as differs from it in its numbers alone: strings, the order
/// and number of items, and the names of fields stay.
pub proof fn law_a_value_is_read_in_its_own_shape(value: JsonView)
    ensures
        value is Null || value is Bool || value is Str ==> reread(value) == value,
        value is Number ==> reread(value) == parsed_json(json_text(value))->0,
        value is Array ==> {
            &&& reread(value) is Array
            &&& reread(value)->Array_0.len() == value->Array_0.len()
            &&& forall|i: int|
                0 <= i < value->Array_0.len() ==> #[trigger] reread(value)->Array_0[i] == reread(
                    value->Array_0[i],
                )
        },
        value is Object ==> {
            &&& reread(value) is Object
            &&& reread(value)->Object_0.dom() == value->Object_0.dom()
            &&& forall|k: Seq<char>| #[trigger]
                value->Object_0.contains_key(k) ==> reread(value)->Object_0[k] == reread(
                    value->Object_0[k],
                )
        },
{
    reveal_with_fuel(reread, 2);
    if value is Object {
        assert(reread(value)->Object_0.dom() =~= value->Object_0.dom());
    }
}

} // verus!
