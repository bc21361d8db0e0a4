//! JSON values.
use vstd::prelude::*;

use crate::backend::{
    close_value, number_from, number_is_float, object_entries, object_insert, object_new, open_value, parse_value,
    write_value, write_value_pretty, Node,
};

verus! {

/// A JSON value as mathematics: an object is a map from its fields' names.
#[verifier::ext_equal]
pub enum JsonView {
    Null,
    Bool(bool),
    Number(serde_json::Number),
    Str(Seq<char>),
    Array(Seq<JsonView>),
    Object(Map<Seq<char>, JsonView>),
}

/// A JSON value. Of two fields of one name in an object the later one counts.
#[derive(Debug)]
pub enum Json {
    Null,
    Bool(bool),
    Number(serde_json::Number),
    Str(String),
    Array(Vec<Json>),
    Object(Vec<(String, Json)>),
}

/// Why a text is no JSON value.
#[derive(Debug, Clone, Copy, PartialEq, Eq, Structural)]
pub enum JsonError {
    NotJson,
}

/// An object without fields.
pub open spec fn no_fields() -> Map<Seq<char>, JsonView> {
    Map::empty()
}

/// What a sequence of fields makes of an object.
pub open spec fn fields_view(fields: Seq<(String, Json)>) -> Map<Seq<char>, JsonView>
    decreases fields,
{
    if fields.len() == 0 {
        Map::empty()
    } else {
        fields_view(fields.drop_last()).insert(fields.last().0@, fields.last().1.model())
    }
}

impl View for Json {
    type V = JsonView;

    open spec fn view(&self) -> JsonView {
        self.model()
    }
}

/// An item of an array is smaller than the array.
proof fn lemma_item_is_smaller(json: Json, i: int)
    requires
        json is Array,
        0 <= i < json->Array_0@.len(),
    ensures
        decreases_to!(json => json->Array_0@[i]),
{
    assert(decreases_to!(json => json->Array_0));
    assert(decreases_to!(json->Array_0 => json->Array_0@));
    assert(decreases_to!(json->Array_0@ => json->Array_0@[i]));
}

/// The value of a field of an object is smaller than the object.
proof fn lemma_field_is_smaller(json: Json, i: int)
    requires
        json is Object,
        0 <= i < json->Object_0@.len(),
    ensures
        decreases_to!(json => json->Object_0@[i].1),
{
    assert(decreases_to!(json => json->Object_0));
    assert(decreases_to!(json->Object_0 => json->Object_0@));
    assert(decreases_to!(json->Object_0@ => json->Object_0@[i]));
    assert(decreases_to!(json->Object_0@[i] => json->Object_0@[i].1));
}

/// The last field of a name is what the object holds under that name.
proof fn lemma_fields_view_at(fields: Seq<(String, Json)>, i: int)
    requires
        0 <= i < fields.len(),
        forall|j: int| i < j < fields.len() ==> fields[j].0@ != fields[i].0@,
    ensures
        fields_view(fields).contains_key(fields[i].0@),
        fields_view(fields)[fields[i].0@] == fields[i].1@,
    decreases fields.len(),
{
    if i < fields.len() - 1 {
        let shorter = fields.drop_last();
        assert(forall|j: int| 0 <= j < shorter.len() ==> shorter[j] == fields[j]);
        lemma_fields_view_at(shorter, i);
        assert(fields.last().0@ != fields[i].0@);
    }
}

/// A name that no field has is not in the object.
proof fn lemma_fields_view_missing(fields: Seq<(String, Json)>, name: Seq<char>)
    requires
        forall|j: int| 0 <= j < fields.len() ==> fields[j].0@ != name,
    ensures
        !fields_view(fields).contains_key(name),
    decreases fields.len(),
{
    if fields.len() > 0 {
        let shorter = fields.drop_last();
        assert(forall|j: int| 0 <= j < shorter.len() ==> shorter[j] == fields[j]);
        lemma_fields_view_missing(shorter, name);
        assert(fields.last().0@ != name);
    }
}

/// The numbers of an object are read back if those of its fields are.
proof fn lemma_fields_read_back(fields: Seq<(String, Json)>)
    requires
        forall|i: int|
            0 <= i < fields.len() ==> crate::backend::numbers_read_back(
                (#[trigger] fields[i]).1@,
            ),
    ensures
        crate::backend::numbers_read_back(JsonView::Object(fields_view(fields))),
    decreases fields.len(),
{
    if fields.len() > 0 {
        let shorter = fields.drop_last();
        assert(forall|j: int| 0 <= j < shorter.len() ==> shorter[j] == fields[j]);
        lemma_fields_read_back(shorter);
        let whole = JsonView::Object(fields_view(shorter));
        let rest = whole->Object_0;
        assert(crate::backend::numbers_read_back(whole));
        assert(crate::backend::numbers_read_back(fields[fields.len() - 1].1@));
        let object = fields_view(fields);
        assert forall|k: Seq<char>| #[trigger]
            object.contains_key(k) implies crate::backend::numbers_read_back(object[k]) by {
            if k != fields.last().0@ {
                assert(rest.contains_key(k));
            }
        }
    }
}

/// The value of the field `name` among the fields of an object.
pub fn field<'a>(fields: &'a Vec<(String, Json)>, name: &str) -> (found: Option<&'a Json>)
    ensures
        found is Some <==> fields_view(fields@).contains_key(name@),
        found matches Some(value) ==> value@ == fields_view(fields@)[name@],
{
    let wanted: String = name.to_string();
    let mut i: usize = fields.len();
    while i > 0
        invariant
            i <= fields.len(),
            wanted@ == name@,
            forall|j: int| i <= j < fields.len() ==> fields[j].0@ != name@,
        decreases i,
    {
        i = i - 1;
        if fields[i].0 == wanted {
            proof {
                lemma_fields_view_at(fields@, i as int);
            }
            return Some(&fields[i].1);
        }
    }
    proof {
        lemma_fields_view_missing(fields@, name@);
    }
    None
}

impl Json {
    /// What the value holds.
    pub open spec fn model(self) -> JsonView
        decreases self,
    {
        match self {
            Json::Null => JsonView::Null,
            Json::Bool(b) => JsonView::Bool(b),
            Json::Number(n) => JsonView::Number(n),
            Json::Str(s) => JsonView::Str(s@),
            Json::Array(items) => JsonView::Array(
                Seq::new(
                    items@.len(),
                    |i: int|
                        if 0 <= i < items@.len() {
                            items@[i].model()
                        } else {
                            JsonView::Null
                        },
                ),
            ),
            Json::Object(fields) => JsonView::Object(fields_view(fields@)),
        }
    }

    /// The number `n`.
    pub fn from_u64(n: u64) -> (json: Json)
        ensures
            json@ == JsonView::Number(crate::backend::unsigned_number(n)),
            crate::backend::json_text(json@) == crate::text::decimal(n as nat),
            crate::backend::numbers_read_back(json@),
    {
        Json::Number(number_from(n))
    }

    /// A string.
    pub fn string(text: &str) -> (json: Json)
        ensures
            json@ == JsonView::Str(text@),
    {
        Json::Str(text.to_string())
    }

    /// An array of these items.
    pub fn array(items: Vec<Json>) -> (json: Json)
        ensures
            json@ == JsonView::Array(items@.map_values(|item: Json| item@)),
    {
        let json = Json::Array(items);
        assert(json@->Array_0 =~= items@.map_values(|item: Json| item@));
        json
    }

    /// An object of these fields; of two of one name the later one counts.
    pub fn object(fields: Vec<(String, Json)>) -> (json: Json)
        ensures
            json@ == JsonView::Object(fields_view(fields@)),
    {
        Json::Object(fields)
    }

    /// Reads a text as a JSON value.
    pub fn parse(text: &str) -> (parsed: Result<Json, JsonError>)
        ensures
            match crate::backend::parsed_json(text@) {
                Some(value) => parsed matches Ok(json) && json@ == value,
                None => parsed == Err::<Json, JsonError>(JsonError::NotJson),
            },
            parsed matches Ok(json) ==> crate::backend::nests_within(
                json@,
                crate::backend::MAX_NESTING as nat,
            ),
    {
        match parse_value(text) {
            Ok(value) => Ok(Json::from_value(value)),
            Err(_) => Err(JsonError::NotJson),
        }
    }

    /// Writes the value in its compact form.
    pub fn to_text(&self) -> (text: String)
        ensures
            text@ == crate::backend::json_text(self@),
            text@.len() > 0,
            !crate::text::is_white_space(text@.first()),
            !crate::text::is_white_space(text@.last()),
            !text@.contains('\n'),
            crate::backend::is_readable(self@) ==> {
                &&& crate::backend::parsed_json(text@) == Some(crate::backend::reread(self@))
                &&& crate::backend::parsed_json(crate::text::as_line(text@)) == Some(
                    crate::backend::reread(self@),
                )
            },
            crate::backend::reads_back(self@) ==> {
                &&& crate::backend::parsed_json(text@) == Some(self@)
                &&& crate::backend::parsed_json(crate::text::as_line(text@)) == Some(self@)
            },
    {
        proof {
            if crate::backend::reads_back(self@) {
                crate::backend::law_a_value_that_reads_back_is_read_as_itself(self@);
            }
        }
        write_value(&self.to_value())
    }

    /// Writes the value in its indented form, which is read as what the compact
    /// form is read as.
    pub fn to_pretty_text(&self) -> (text: Option<String>)
        ensures
            match crate::backend::pretty_text(self@) {
                Some(t) => text matches Some(s) && s@ == t,
                None => text is None,
            },
            text matches Some(s) ==> crate::backend::parsed_json(s@)
                == crate::backend::parsed_json(crate::backend::json_text(self@)),
    {
        match write_value_pretty(&self.to_value()) {
            Ok(text) => Some(text),
            Err(_) => None,
        }
    }

    /// No number in the value is a float. (Of two fields of one name both are
    /// looked at.)
    pub open spec fn holds_no_float(self) -> bool
        decreases self,
    {
        match self {
            Json::Number(n) => !crate::backend::is_float(n),
            Json::Array(items) => forall|i: int|
                0 <= i < items@.len() ==> (#[trigger] items@[i]).holds_no_float(),
            Json::Object(fields) => forall|i: int|
                0 <= i < fields@.len() ==> (#[trigger] fields@[i]).1.holds_no_float(),
            _ => true,
        }
    }

    /// Tells whether no number in the value is a float. Integers are read back as
    /// themselves.
    pub fn is_free_of_floats(&self) -> (free: bool)
        ensures
            free == self.holds_no_float(),
            free ==> crate::backend::numbers_read_back(self@),
        decreases self,
    {
        match self {
            Json::Number(n) => !number_is_float(n),
            Json::Array(items) => {
                let mut i: usize = 0;
                while i < items.len()
                    invariant
                        self == Json::Array(*items),
                        i <= items.len(),
                        forall|j: int|
                            0 <= j < i ==> (#[trigger] items@[j]).holds_no_float()
                                && crate::backend::numbers_read_back(items@[j]@),
                    decreases items.len() - i,
                {
                    proof {
                        lemma_item_is_smaller(*self, i as int);
                    }
                    if !items[i].is_free_of_floats() {
                        return false;
                    }
                    i = i + 1;
                }
                true
            },
            Json::Object(fields) => {
                let mut i: usize = 0;
                while i < fields.len()
                    invariant
                        self == Json::Object(*fields),
                        i <= fields.len(),
                        forall|j: int|
                            0 <= j < i ==> (#[trigger] fields@[j]).1.holds_no_float()
                                && crate::backend::numbers_read_back(fields@[j].1@),
                    decreases fields.len() - i,
                {
                    proof {
                        lemma_field_is_smaller(*self, i as int);
                    }
                    if !fields[i].1.is_free_of_floats() {
                        return false;
                    }
                    i = i + 1;
                }
                proof {
                    lemma_fields_read_back(fields@);
                }
                true
            },
            _ => true,
        }
    }

    /// Takes over a value of serde_json.
    fn from_value(value: serde_json::Value) -> (json: Json)
        ensures
            json@ == crate::backend::value_contents(value),
        decreases crate::backend::value_contents(value),
    {
        let ghost contents = crate::backend::value_contents(value);
        match open_value(value) {
            Node::Null => Json::Null,
            Node::Bool(b) => Json::Bool(b),
            Node::Number(n) => Json::Number(n),
            Node::Str(s) => Json::Str(s),
            Node::Array(values) => {
                let ghost all = values@;
                let mut items: Vec<Json> = Vec::new();
                #[verifier::loop_isolation(false)]
                for item in rest: values.into_iter()
                    invariant
                        rest.seq() == all,
                        items.len() == rest.index(),
                        forall|j: int|
                            0 <= j < items.len() ==> items[j]@
                                == crate::backend::value_contents(#[trigger] all[j]),
                {
                    assert(contents->Array_0[rest.index() as int] == crate::backend::value_contents(
                        item,
                    ));
                    assert(decreases_to!(contents => contents->Array_0[rest.index() as int]));
                    items.push(Json::from_value(item));
                }
                let json = Json::Array(items);
                assert(json@->Array_0 =~= contents->Array_0);
                json
            },
            Node::Object(object) => {
                let entries = object_entries(object);
                let ghost all = entries@;
                let mut fields: Vec<(String, Json)> = Vec::new();
                #[verifier::loop_isolation(false)]
                for entry in rest: entries.into_iter()
                    invariant
                        rest.seq() == all,
                        fields.len() == rest.index(),
                        fields_view(fields@) == crate::backend::entries_contents(
                            all.take(rest.index() as int),
                        ),
                {
                    let (name, value) = entry;
                    proof {
                        let i = rest.index() as int;
                        lemma_entry(all, i);
                        assert(decreases_to!(contents => contents->Object_0[all[i].0@]));
                        assert(all.take(i + 1).drop_last() =~= all.take(i));
                    }
                    let ghost before = fields@;
                    fields.push((name, Json::from_value(value)));
                    assert(fields@.drop_last() =~= before);
                }
                assert(all.take(all.len() as int) =~= all);
                Json::Object(fields)
            },
        }
    }

    /// The value as one of serde_json.
    fn to_value(&self) -> (value: serde_json::Value)
        ensures
            crate::backend::value_contents(value) == self@,
        decreases self,
    {
        match self {
            Json::Null => close_value(Node::Null),
            Json::Bool(b) => close_value(Node::Bool(*b)),
            Json::Number(n) => close_value(Node::Number(n.clone())),
            Json::Str(s) => close_value(Node::Str(s.clone())),
            Json::Array(items) => {
                let mut values: Vec<serde_json::Value> = Vec::new();
                let mut i: usize = 0;
                while i < items.len()
                    invariant
                        self == Json::Array(*items),
                        i == values.len() <= items.len(),
                        forall|j: int|
                            0 <= j < i ==> crate::backend::value_contents(#[trigger] values[j])
                                == items[j]@,
                    decreases items.len() - i,
                {
                    proof {
                        lemma_item_is_smaller(*self, i as int);
                    }
                    values.push(items[i].to_value());
                    i = i + 1;
                }
                let node = Node::Array(values);
                assert(crate::backend::node_contents(node)->Array_0 =~= self@->Array_0);
                close_value(node)
            },
            Json::Object(fields) => {
                let mut object = object_new();
                let mut i: usize = 0;
                while i < fields.len()
                    invariant
                        self == Json::Object(*fields),
                        i <= fields.len(),
                        crate::backend::object_contents(object) == fields_view(
                            fields@.take(i as int),
                        ),
                    decreases fields.len() - i,
                {
                    let name = fields[i].0.clone();
                    proof {
                        lemma_field_is_smaller(*self, i as int);
                    }
                    object_insert(&mut object, name, fields[i].1.to_value());
                    assert(fields@.take(i + 1).drop_last() =~= fields@.take(i as int));
                    i = i + 1;
                }
                assert(fields@.take(fields.len() as int) =~= fields@);
                close_value(Node::Object(object))
            },
        }
    }
}

impl Clone for Json {
    fn clone(&self) -> (copy: Json)
        ensures
            copy@ == self@,
        decreases self,
    {
        match self {
            Json::Null => Json::Null,
            Json::Bool(b) => Json::Bool(*b),
            Json::Number(n) => Json::Number(n.clone()),
            Json::Str(s) => Json::Str(s.clone()),
            Json::Array(items) => {
                let mut copies: Vec<Json> = Vec::new();
                let mut i: usize = 0;
                while i < items.len()
                    invariant
                        self == Json::Array(*items),
                        i == copies.len() <= items.len(),
                        forall|j: int| 0 <= j < i ==> (#[trigger] copies[j])@ == items[j]@,
                    decreases items.len() - i,
                {
                    proof {
                        lemma_item_is_smaller(*self, i as int);
                    }
                    copies.push(items[i].clone());
                    i = i + 1;
                }
                let json = Json::Array(copies);
                assert(json@->Array_0 =~= self@->Array_0);
                json
            },
            Json::Object(fields) => {
                let mut copies: Vec<(String, Json)> = Vec::new();
                let mut i: usize = 0;
                while i < fields.len()
                    invariant
                        self == Json::Object(*fields),
                        i == copies.len() <= fields.len(),
                        fields_view(copies@) == fields_view(fields@.take(i as int)),
                    decreases fields.len() - i,
                {
                    proof {
                        lemma_field_is_smaller(*self, i as int);
                    }
                    let ghost before = copies@;
                    copies.push((fields[i].0.clone(), fields[i].1.clone()));
                    assert(copies@.drop_last() =~= before);
                    assert(fields@.take(i + 1).drop_last() =~= fields@.take(i as int));
                    i = i + 1;
                }
                assert(fields@.take(fields.len() as int) =~= fields@);
                Json::Object(copies)
            },
        }
    }
}

/// An entry whose name comes once is what the object holds under that name.
proof fn lemma_entry(entries: Seq<(String, serde_json::Value)>, i: int)
    requires
        0 <= i < entries.len(),
        forall|j: int, k: int| 0 <= j < k < entries.len() ==> entries[j].0@ != entries[k].0@,
    ensures
        crate::backend::entries_contents(entries).contains_key(entries[i].0@),
        crate::backend::entries_contents(entries)[entries[i].0@] == crate::backend::value_contents(
            entries[i].1,
        ),
    decreases entries.len(),
{
    if i < entries.len() - 1 {
        let shorter = entries.drop_last();
        assert(forall|j: int| 0 <= j < shorter.len() ==> shorter[j] == entries[j]);
        lemma_entry(shorter, i);
        assert(entries[i].0@ != entries[entries.len() - 1].0@);
    }
}

/// A value is free of floats exactly if all that it is made of is.
pub proof fn law_floats_are_found_wherever_they_are(json: Json)
    ensures
        json matches Json::Number(number) ==> (json.holds_no_float() <==> !crate::backend::is_float(
            number,
        )),
        json is Null || json is Bool || json is Str ==> json.holds_no_float(),
        json is Array ==> (json.holds_no_float() <==> forall|i: int|
            0 <= i < json->Array_0@.len() ==> (#[trigger] json->Array_0@[i]).holds_no_float()),
        json is Object ==> (json.holds_no_float() <==> forall|i: int|
            0 <= i < json->Object_0@.len() ==> (#[trigger] json->Object_0@[i]).1.holds_no_float()),
{
}

/// What is looked at of a value is all that it holds: items in their order, and under
/// each name the value of the last field of that name.
pub proof fn law_nothing_of_a_value_is_overlooked(
    number: serde_json::Number,
    text: String,
    truth: bool,
    items: Vec<Json>,
    fields: Vec<(String, Json)>,
    at: int,
)
    ensures
        Json::Null@ == JsonView::Null,
        Json::Bool(truth)@ == JsonView::Bool(truth),
        Json::Number(number)@ == JsonView::Number(number),
        Json::Str(text)@ == JsonView::Str(text@),
        Json::Array(items)@ is Array,
        Json::Array(items)@->Array_0.len() == items@.len(),
        0 <= at < items@.len() ==> Json::Array(items)@->Array_0[at] == items@[at]@,
        Json::Object(fields)@ is Object,
        0 <= at < fields@.len() && (forall|j: int|
            at < j < fields@.len() ==> fields@[j].0@ != fields@[at].0@) ==> {
            &&& Json::Object(fields)@->Object_0.contains_key(fields@[at].0@)
            &&& Json::Object(fields)@->Object_0[fields@[at].0@] == fields@[at].1@
        },
        forall|name: Seq<char>|
            (forall|j: int| 0 <= j < fields@.len() ==> (#[trigger] fields@[j]).0@ != name)
                ==> !#[trigger] Json::Object(fields)@->Object_0.contains_key(name),
{
    reveal_with_fuel(Json::model, 2);
    if 0 <= at < fields@.len() && (forall|j: int|
        at < j < fields@.len() ==> fields@[j].0@ != fields@[at].0@) {
        lemma_fields_view_at(fields@, at);
    }
    assert forall|name: Seq<char>|
        (forall|j: int| 0 <= j < fields@.len() ==> (#[trigger] fields@[j]).0@ != name)
            implies !#[trigger] Json::Object(fields)@->Object_0.contains_key(name) by {
        lemma_fields_view_missing(fields@, name);
    }
}

} // verus!
