//! Decoding the payloads of a response.
//!
//! A payload is a JSON object whose member "type" names its kind; the field
//! that it carries stands under a member named after the kind. Decoding a
//! payload never fails: a payload without a tag, with a tag that is not
//! known, or whose field is missing or of another shape than its kind asks
//! for, decodes to `Unknown`. A field that may be left out (a date, the value
//! of a rollup) is absent where the member is missing or `null`.
//!
//! The grammar is stated by the spec functions of this module, over
//! [`JsonModel`]; every decoder returns what they say.

use crate::assemble::{CHECKBOX, DATE, OBJECTIVE_DEADLINE, OBJECTIVE_NAME, TASK_NAME};
use crate::json::{
    items_of, json_model, member, member_of, same_text, text_member, text_member_of, JsonModel,
};
use crate::notion::{
    date_option, entries, fragments, rollup_option, DatabaseObject, DatabaseObjectModel,
    DateValue, FormulaModel, FormulaValue, Page, PageModel, PropertyModel, PropertyValue,
    QueryResponse, RichText, RollupEntryModel, RollupModel, RollupProperty, RollupValue,
    SearchResponse,
};
use vstd::prelude::*;

verus! {

/// The tag of a payload: the text under "type".
pub open spec fn tag_of(json: JsonModel) -> Option<Seq<char>> {
    text_member_of(json, "type"@)
}

/// A text fragment: an object with a text under "plain_text".
pub open spec fn rich_text_of(json: JsonModel) -> Option<Seq<char>> {
    text_member_of(json, "plain_text"@)
}

/// A list of text fragments: an array, each item of which is a fragment.
pub open spec fn rich_texts_of(json: JsonModel) -> Option<Seq<Seq<char>>> {
    match json {
        JsonModel::List(items) => if forall|i: int|
            0 <= i < items.len() ==> rich_text_of(#[trigger] items[i]) is Some {
            Some(items.map_values(|item: JsonModel| rich_text_of(item)->0))
        } else {
            None
        },
        _ => None,
    }
}

/// The field "title" of a payload: a list of text fragments.
pub open spec fn title_field_of(json: JsonModel) -> Option<Seq<Seq<char>>> {
    match member_of(json, "title"@) {
        Some(list) => rich_texts_of(list),
        None => None,
    }
}

/// The field "date" of a payload. A missing or `null` member is an absent
/// date; an object with a text under "start" is a date; anything else is
/// malformed, which the outer `None` says.
pub open spec fn date_field_of(json: JsonModel) -> Option<Option<Seq<char>>> {
    match member_of(json, "date"@) {
        None => Some(None),
        Some(JsonModel::Null) => Some(None),
        Some(date) => match text_member_of(date, "start"@) {
            Some(start) => Some(Some(start)),
            None => None,
        },
    }
}

/// The formula that a JSON value denotes.
pub open spec fn formula_of(json: JsonModel) -> FormulaModel {
    if tag_of(json) == Some("date"@) {
        match date_field_of(json) {
            Some(date) => FormulaModel::Date(date),
            None => FormulaModel::Unknown,
        }
    } else {
        FormulaModel::Unknown
    }
}

/// The rollup entry that a JSON value denotes.
pub open spec fn rollup_entry_of(json: JsonModel) -> RollupEntryModel {
    if tag_of(json) == Some("title"@) {
        match title_field_of(json) {
            Some(texts) => RollupEntryModel::Title(texts),
            None => RollupEntryModel::Unknown,
        }
    } else if tag_of(json) == Some("date"@) {
        match date_field_of(json) {
            Some(date) => RollupEntryModel::Date(date),
            None => RollupEntryModel::Unknown,
        }
    } else if tag_of(json) == Some("formula"@) {
        match member_of(json, "formula"@) {
            Some(formula) => RollupEntryModel::Formula(formula_of(formula)),
            None => RollupEntryModel::Unknown,
        }
    } else {
        RollupEntryModel::Unknown
    }
}

/// The rollup that a JSON value denotes.
pub open spec fn rollup_of(json: JsonModel) -> RollupModel {
    if tag_of(json) == Some("array"@) {
        match member_of(json, "array"@) {
            Some(JsonModel::List(items)) => RollupModel::Array(
                items.map_values(|item: JsonModel| rollup_entry_of(item)),
            ),
            _ => RollupModel::Unknown,
        }
    } else if tag_of(json) == Some("date"@) {
        match date_field_of(json) {
            Some(date) => RollupModel::Date(date),
            None => RollupModel::Unknown,
        }
    } else {
        RollupModel::Unknown
    }
}

/// The field "rollup" of a payload: absent where the member is missing or
/// `null`, and the rollup that the member denotes otherwise.
pub open spec fn rollup_field_of(json: JsonModel) -> Option<RollupModel> {
    match member_of(json, "rollup"@) {
        None => None,
        Some(JsonModel::Null) => None,
        Some(rollup) => Some(rollup_of(rollup)),
    }
}

/// The property payload that a JSON value denotes.
pub open spec fn property_of(json: JsonModel) -> PropertyModel {
    if tag_of(json) == Some("title"@) {
        match title_field_of(json) {
            Some(texts) => PropertyModel::Title(texts),
            None => PropertyModel::Unknown,
        }
    } else if tag_of(json) == Some("date"@) {
        match date_field_of(json) {
            Some(date) => PropertyModel::Date(date),
            None => PropertyModel::Unknown,
        }
    } else if tag_of(json) == Some("checkbox"@) {
        match member_of(json, "checkbox"@) {
            Some(JsonModel::Bool(checked)) => PropertyModel::Checkbox(checked),
            _ => PropertyModel::Unknown,
        }
    } else if tag_of(json) == Some("rollup"@) {
        PropertyModel::Rollup(rollup_field_of(json))
    } else {
        PropertyModel::Unknown
    }
}

/// Whether a task reads the property `name`.
pub open spec fn is_task_property(name: Seq<char>) -> bool {
    name == TASK_NAME@ || name == CHECKBOX@ || name == DATE@ || name == OBJECTIVE_NAME@ || name
        == OBJECTIVE_DEADLINE@
}

/// The raw payload that a record has under `name`: the member `name` of its
/// member "properties".
pub open spec fn raw_property_of(json: JsonModel, name: Seq<char>) -> Option<JsonModel> {
    match member_of(json, "properties"@) {
        Some(properties) => member_of(properties, name),
        None => None,
    }
}

/// The properties of the record that a JSON value denotes: for each property
/// that a task reads and the record has, its decoded payload.
pub open spec fn properties_of(json: JsonModel) -> Map<Seq<char>, PropertyModel> {
    Map::new(
        |name: Seq<char>| is_task_property(name) && raw_property_of(json, name) is Some,
        |name: Seq<char>| property_of(raw_property_of(json, name)->0),
    )
}

/// The record that a JSON value denotes: an object with a text under "id".
/// Its properties are decoded one by one, and none of them can make the
/// record fail.
pub open spec fn page_of(json: JsonModel) -> Option<PageModel> {
    match text_member_of(json, "id"@) {
        Some(id) => Some(PageModel { id, properties: properties_of(json) }),
        None => None,
    }
}

/// The records of the answer to a query: the array under "results", each
/// item of which is a record.
pub open spec fn query_response_of(json: JsonModel) -> Option<Seq<PageModel>> {
    match member_of(json, "results"@) {
        Some(JsonModel::List(items)) => if forall|i: int|
            0 <= i < items.len() ==> page_of(#[trigger] items[i]) is Some {
            Some(items.map_values(|item: JsonModel| page_of(item)->0))
        } else {
            None
        },
        _ => None,
    }
}

/// The database that a JSON value denotes: an object with a text under "id"
/// and, under "title", nothing, `null` or a list of text fragments.
pub open spec fn database_of(json: JsonModel) -> Option<DatabaseObjectModel> {
    match text_member_of(json, "id"@) {
        Some(id) => match member_of(json, "title"@) {
            None => Some(DatabaseObjectModel { id, title: None }),
            Some(JsonModel::Null) => Some(DatabaseObjectModel { id, title: None }),
            Some(list) => match rich_texts_of(list) {
                Some(texts) => Some(DatabaseObjectModel { id, title: Some(texts) }),
                None => None,
            },
        },
        None => None,
    }
}

/// The databases of the answer to a search: the array under "results", each
/// item of which is a database.
pub open spec fn search_response_of(json: JsonModel) -> Option<Seq<DatabaseObjectModel>> {
    match member_of(json, "results"@) {
        Some(JsonModel::List(items)) => if forall|i: int|
            0 <= i < items.len() ==> database_of(#[trigger] items[i]) is Some {
            Some(items.map_values(|item: JsonModel| database_of(item)->0))
        } else {
            None
        },
        _ => None,
    }
}

/// The model of an optional list of text fragments.
pub open spec fn fragments_option(texts: Option<Vec<RichText>>) -> Option<Seq<Seq<char>>> {
    match texts {
        Some(t) => Some(fragments(t@)),
        None => None,
    }
}

/// The model of a date field that has been decoded.
pub open spec fn date_field(date: Option<Option<DateValue>>) -> Option<Option<Seq<char>>> {
    match date {
        Some(d) => Some(date_option(d)),
        None => None,
    }
}

/// Whether the tag of `value` is `tag`.
pub fn has_tag(value: &serde_json::Value, tag: &str) -> (has: bool)
    ensures
        has == (tag_of(json_model(*value)) == Some(tag@)),
{
    match member(value, "type") {
        Some(t) => match t.as_str() {
            Some(text) => same_text(text, tag),
            None => false,
        },
        None => false,
    }
}

/// Decodes a list of text fragments.
pub fn decode_rich_texts(value: &serde_json::Value) -> (texts: Option<Vec<RichText>>)
    ensures
        fragments_option(texts) == rich_texts_of(json_model(*value)),
{
    match value.as_array() {
        Some(items) => {
            let ghost list = items@.map_values(|v: serde_json::Value| json_model(v));
            let mut texts: Vec<RichText> = Vec::new();
            let mut i: usize = 0;
            while i < items.len()
                invariant
                    i <= items.len(),
                    texts@.len() == i,
                    list == items@.map_values(|v: serde_json::Value| json_model(v)),
                    json_model(*value) == JsonModel::List(list),
                    forall|j: int|
                        0 <= j < i ==> rich_text_of(#[trigger] list[j]) == Some(texts@[j]@),
                decreases items.len() - i,
            {
                match text_member(&items[i], "plain_text") {
                    Some(plain_text) => {
                        texts.push(RichText { plain_text });
                    },
                    None => {
                        assert(rich_text_of(list[i as int]) is None);
                        return None;
                    },
                }
                i += 1;
            }
            Some(texts)
        },
        None => None,
    }
}

/// Decodes the field "title" of a payload.
pub fn decode_title_field(value: &serde_json::Value) -> (texts: Option<Vec<RichText>>)
    ensures
        fragments_option(texts) == title_field_of(json_model(*value)),
{
    match member(value, "title") {
        Some(list) => decode_rich_texts(list),
        None => None,
    }
}

/// Decodes the field "date" of a payload. The outer `None` says that the
/// field is malformed.
pub fn decode_date_field(value: &serde_json::Value) -> (date: Option<Option<DateValue>>)
    ensures
        date_field(date) == date_field_of(json_model(*value)),
{
    match member(value, "date") {
        None => Some(None),
        Some(date) => {
            if date.is_null() {
                Some(None)
            } else {
                match text_member(date, "start") {
                    Some(start) => Some(Some(DateValue { start })),
                    None => None,
                }
            }
        },
    }
}

/// Decodes a formula.
pub fn decode_formula(value: &serde_json::Value) -> (formula: FormulaValue)
    ensures
        formula@ == formula_of(json_model(*value)),
{
    if has_tag(value, "date") {
        match decode_date_field(value) {
            Some(date) => FormulaValue::Date { date },
            None => FormulaValue::Unknown,
        }
    } else {
        FormulaValue::Unknown
    }
}

/// Decodes one entry of a rollup array.
pub fn decode_rollup_entry(value: &serde_json::Value) -> (entry: RollupProperty)
    ensures
        entry@ == rollup_entry_of(json_model(*value)),
{
    if has_tag(value, "title") {
        match decode_title_field(value) {
            Some(title) => RollupProperty::Title { title },
            None => RollupProperty::Unknown,
        }
    } else if has_tag(value, "date") {
        match decode_date_field(value) {
            Some(date) => RollupProperty::Date { date },
            None => RollupProperty::Unknown,
        }
    } else if has_tag(value, "formula") {
        match member(value, "formula") {
            Some(formula) => RollupProperty::Formula { formula: decode_formula(formula) },
            None => RollupProperty::Unknown,
        }
    } else {
        RollupProperty::Unknown
    }
}

/// Decodes the entries of a rollup array, in order.
pub fn decode_rollup_entries(items: &Vec<serde_json::Value>) -> (array: Vec<RollupProperty>)
    ensures
        entries(array@) == items@.map_values(|v: serde_json::Value| rollup_entry_of(json_model(v))),
{
    let mut array: Vec<RollupProperty> = Vec::new();
    let mut i: usize = 0;
    while i < items.len()
        invariant
            i <= items.len(),
            array@.len() == i,
            forall|j: int|
                0 <= j < i ==> (#[trigger] array@[j])@ == rollup_entry_of(json_model(items@[j])),
        decreases items.len() - i,
    {
        array.push(decode_rollup_entry(&items[i]));
        i += 1;
    }
    array
}

/// Decodes a rollup.
pub fn decode_rollup(value: &serde_json::Value) -> (rollup: RollupValue)
    ensures
        rollup@ == rollup_of(json_model(*value)),
{
    if has_tag(value, "array") {
        match member(value, "array") {
            Some(list) => match list.as_array() {
                Some(items) => {
                    let array = decode_rollup_entries(items);
                    assert(entries(array@) =~= items_of(json_model(*list))->0.map_values(
                        |item: JsonModel| rollup_entry_of(item),
                    ));
                    RollupValue::Array { array }
                },
                None => RollupValue::Unknown,
            },
            None => RollupValue::Unknown,
        }
    } else if has_tag(value, "date") {
        match decode_date_field(value) {
            Some(date) => RollupValue::Date { date },
            None => RollupValue::Unknown,
        }
    } else {
        RollupValue::Unknown
    }
}

/// Decodes the field "rollup" of a payload.
pub fn decode_rollup_field(value: &serde_json::Value) -> (rollup: Option<RollupValue>)
    ensures
        rollup_option(rollup) == rollup_field_of(json_model(*value)),
{
    match member(value, "rollup") {
        None => None,
        Some(rollup) => {
            if rollup.is_null() {
                None
            } else {
                Some(decode_rollup(rollup))
            }
        },
    }
}

/// Decodes the payload of a property. Every JSON value decodes: to the kind
/// that its tag names where the field of that kind is well formed, and to
/// `Unknown` otherwise.
pub fn decode_property(value: &serde_json::Value) -> (property: PropertyValue)
    ensures
        property@ == property_of(json_model(*value)),
{
    if has_tag(value, "title") {
        match decode_title_field(value) {
            Some(title) => PropertyValue::Title { title },
            None => PropertyValue::Unknown,
        }
    } else if has_tag(value, "date") {
        match decode_date_field(value) {
            Some(date) => PropertyValue::Date { date },
            None => PropertyValue::Unknown,
        }
    } else if has_tag(value, "checkbox") {
        match member(value, "checkbox") {
            Some(flag) => match flag.as_bool() {
                Some(checkbox) => PropertyValue::Checkbox { checkbox },
                None => PropertyValue::Unknown,
            },
            None => PropertyValue::Unknown,
        }
    } else if has_tag(value, "rollup") {
        PropertyValue::Rollup { rollup: decode_rollup_field(value) }
    } else {
        PropertyValue::Unknown
    }
}

/// Decodes the property `name` of the record `value` into `page`, where the
/// record has it.
fn decode_into(page: &mut Page, value: &serde_json::Value, name: &str)
    ensures
        final(page)@.id == old(page)@.id,
        final(page)@.properties == (match raw_property_of(json_model(*value), name@) {
            Some(raw) => old(page)@.properties.insert(name@, property_of(raw)),
            None => old(page)@.properties,
        }),
{
    match member(value, "properties") {
        Some(properties) => match member(properties, name) {
            Some(raw) => {
                page.insert(name.to_owned(), decode_property(raw));
            },
            None => {},
        },
        None => {},
    }
}

/// Decodes a record. It fails only where the value has no text under "id".
pub fn decode_page(value: &serde_json::Value) -> (page: Option<Page>)
    ensures
        match page {
            Some(p) => page_of(json_model(*value)) == Some(p@),
            None => page_of(json_model(*value)) is None,
        },
{
    match text_member(value, "id") {
        Some(id) => {
            let mut page = Page::new(id);
            decode_into(&mut page, value, TASK_NAME);
            decode_into(&mut page, value, CHECKBOX);
            decode_into(&mut page, value, DATE);
            decode_into(&mut page, value, OBJECTIVE_NAME);
            decode_into(&mut page, value, OBJECTIVE_DEADLINE);
            assert(page@.properties =~= properties_of(json_model(*value)));
            Some(page)
        },
        None => None,
    }
}

/// Decodes the answer to a query. It fails where the value has no array
/// under "results", and where an item of that array is no record.
pub fn decode_query_response(value: &serde_json::Value) -> (response: Option<QueryResponse>)
    ensures
        match response {
            Some(r) => query_response_of(json_model(*value)) == Some(r@),
            None => query_response_of(json_model(*value)) is None,
        },
{
    match member(value, "results") {
        Some(list) => match list.as_array() {
            Some(items) => {
                let ghost models = items@.map_values(|v: serde_json::Value| json_model(v));
                let mut results: Vec<Page> = Vec::new();
                let mut i: usize = 0;
                while i < items.len()
                    invariant
                        i <= items.len(),
                        results@.len() == i,
                        models == items@.map_values(|v: serde_json::Value| json_model(v)),
                        member_of(json_model(*value), "results"@) == Some(
                            JsonModel::List(models),
                        ),
                        forall|j: int|
                            0 <= j < i ==> page_of(#[trigger] models[j]) == Some(results@[j]@),
                    decreases items.len() - i,
                {
                    match decode_page(&items[i]) {
                        Some(page) => {
                            results.push(page);
                        },
                        None => {
                            assert(page_of(models[i as int]) is None);
                            return None;
                        },
                    }
                    i += 1;
                }
                Some(QueryResponse { results })
            },
            None => None,
        },
        None => None,
    }
}

/// Decodes a database.
pub fn decode_database(value: &serde_json::Value) -> (database: Option<DatabaseObject>)
    ensures
        match database {
            Some(d) => database_of(json_model(*value)) == Some(d@),
            None => database_of(json_model(*value)) is None,
        },
{
    match text_member(value, "id") {
        Some(id) => match member(value, "title") {
            None => Some(DatabaseObject { id, title: None }),
            Some(list) => {
                if list.is_null() {
                    Some(DatabaseObject { id, title: None })
                } else {
                    match decode_rich_texts(list) {
                        Some(texts) => Some(DatabaseObject { id, title: Some(texts) }),
                        None => None,
                    }
                }
            },
        },
        None => None,
    }
}

/// Decodes the answer to a search. It fails where the value has no array
/// under "results", and where an item of that array is no database.
pub fn decode_search_response(value: &serde_json::Value) -> (response: Option<SearchResponse>)
    ensures
        match response {
            Some(r) => search_response_of(json_model(*value)) == Some(r@),
            None => search_response_of(json_model(*value)) is None,
        },
{
    match member(value, "results") {
        Some(list) => match list.as_array() {
            Some(items) => {
                let ghost models = items@.map_values(|v: serde_json::Value| json_model(v));
                let mut results: Vec<DatabaseObject> = Vec::new();
                let mut i: usize = 0;
                while i < items.len()
                    invariant
                        i <= items.len(),
                        results@.len() == i,
                        models == items@.map_values(|v: serde_json::Value| json_model(v)),
                        member_of(json_model(*value), "results"@) == Some(
                            JsonModel::List(models),
                        ),
                        forall|j: int|
                            0 <= j < i ==> database_of(#[trigger] models[j]) == Some(
                                results@[j]@,
                            ),
                    decreases items.len() - i,
                {
                    match decode_database(&items[i]) {
                        Some(database) => {
                            results.push(database);
                        },
                        None => {
                            assert(database_of(models[i as int]) is None);
                            return None;
                        },
                    }
                    i += 1;
                }
                Some(SearchResponse { results })
            },
            None => None,
        },
        None => None,
    }
}

} // verus!
