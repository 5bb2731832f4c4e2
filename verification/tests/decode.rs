use planit::decode::{
    decode_database, decode_date_field, decode_formula, decode_page, decode_property,
    decode_query_response, decode_rich_texts, decode_rollup, decode_rollup_entry,
    decode_rollup_field, decode_search_response, decode_title_field, has_tag,
};
use planit::json::{same_text, text_member};
use planit::notion::{
    DateValue, FormulaValue, PropertyValue, RichText, RollupProperty, RollupValue,
};

fn json(text: &str) -> serde_json::Value {
    serde_json::from_str(text).unwrap()
}

fn text(plain_text: &str) -> RichText {
    RichText { plain_text: plain_text.to_string() }
}

fn day(start: &str) -> Option<DateValue> {
    Some(DateValue { start: start.to_string() })
}

#[test]
fn same_text_compares_letter_by_letter() {
    assert!(same_text("title", "title"));
    assert!(same_text("", ""));
    assert!(!same_text("title", "Title"));
    assert!(!same_text("title", "titles"));
    assert!(!same_text("date", ""));
}

#[test]
fn text_member_reads_only_strings_of_objects() {
    assert_eq!(text_member(&json(r#"{"id":"abc","n":1}"#), "id"), Some("abc".to_string()));
    assert_eq!(text_member(&json(r#"{"id":"abc","n":1}"#), "n"), None);
    assert_eq!(text_member(&json(r#"{"id":"abc"}"#), "ID"), None);
    assert_eq!(text_member(&json(r#"{"id":null}"#), "id"), None);
    assert_eq!(text_member(&json(r#"["id"]"#), "id"), None);
    assert_eq!(text_member(&json(r#""id""#), "id"), None);
}

#[test]
fn has_tag_reads_the_type_member() {
    assert!(has_tag(&json(r#"{"type":"date"}"#), "date"));
    assert!(!has_tag(&json(r#"{"type":"date"}"#), "title"));
    assert!(!has_tag(&json(r#"{"type":"Date"}"#), "date"));
    assert!(!has_tag(&json(r#"{"kind":"date"}"#), "date"));
    assert!(!has_tag(&json(r#"{"type":["date"]}"#), "date"));
    assert!(!has_tag(&json(r#""date""#), "date"));
}

#[test]
fn title_property_decodes() {
    let value = json(
        r#"{"id":"title","type":"title","title":[{"type":"text","plain_text":"Write report","href":null},{"plain_text":"!"}]}"#,
    );
    assert_eq!(
        decode_property(&value),
        PropertyValue::Title { title: vec![text("Write report"), text("!")] }
    );
}

#[test]
fn empty_title_property_decodes() {
    assert_eq!(
        decode_property(&json(r#"{"type":"title","title":[]}"#)),
        PropertyValue::Title { title: vec![] }
    );
}

#[test]
fn malformed_title_property_is_unknown() {
    for raw in [
        r#"{"type":"title"}"#,
        r#"{"type":"title","title":null}"#,
        r#"{"type":"title","title":"Write report"}"#,
        r#"{"type":"title","title":{"plain_text":"Write report"}}"#,
        r#"{"type":"title","title":[{"plain_text":"ok"},{"text":"no plain text"}]}"#,
        r#"{"type":"title","title":[{"plain_text":7}]}"#,
        r#"{"type":"title","title":["Write report"]}"#,
    ] {
        assert_eq!(decode_property(&json(raw)), PropertyValue::Unknown, "{}", raw);
    }
}

#[test]
fn date_property_decodes() {
    assert_eq!(
        decode_property(&json(
            r#"{"type":"date","date":{"start":"2024-03-05","end":null,"time_zone":null}}"#
        )),
        PropertyValue::Date { date: day("2024-03-05") }
    );
}

#[test]
fn date_property_without_value_decodes() {
    assert_eq!(
        decode_property(&json(r#"{"type":"date","date":null}"#)),
        PropertyValue::Date { date: None }
    );
    assert_eq!(decode_property(&json(r#"{"type":"date"}"#)), PropertyValue::Date { date: None });
}

#[test]
fn malformed_date_property_is_unknown() {
    for raw in [
        r#"{"type":"date","date":"2024-03-05"}"#,
        r#"{"type":"date","date":{}}"#,
        r#"{"type":"date","date":{"start":null}}"#,
        r#"{"type":"date","date":{"start":20240305}}"#,
        r#"{"type":"date","date":{"end":"2024-03-05"}}"#,
        r#"{"type":"date","date":["2024-03-05"]}"#,
        r#"{"type":"date","date":false}"#,
    ] {
        assert_eq!(decode_property(&json(raw)), PropertyValue::Unknown, "{}", raw);
    }
}

#[test]
fn checkbox_property_decodes() {
    assert_eq!(
        decode_property(&json(r#"{"type":"checkbox","checkbox":true}"#)),
        PropertyValue::Checkbox { checkbox: true }
    );
    assert_eq!(
        decode_property(&json(r#"{"checkbox":false,"type":"checkbox"}"#)),
        PropertyValue::Checkbox { checkbox: false }
    );
}

#[test]
fn malformed_checkbox_property_is_unknown() {
    for raw in [
        r#"{"type":"checkbox"}"#,
        r#"{"type":"checkbox","checkbox":null}"#,
        r#"{"type":"checkbox","checkbox":"true"}"#,
        r#"{"type":"checkbox","checkbox":1}"#,
        r#"{"type":"checkbox","checkbox":[true]}"#,
    ] {
        assert_eq!(decode_property(&json(raw)), PropertyValue::Unknown, "{}", raw);
    }
}

#[test]
fn unknown_or_missing_tag_is_unknown() {
    for raw in [
        r#"{"type":"relation","relation":[{"id":"x"}]}"#,
        r#"{"type":"number","number":3.5}"#,
        r#"{"type":"Checkbox","checkbox":true}"#,
        r#"{"type":"","checkbox":true}"#,
        r#"{"type":null,"checkbox":true}"#,
        r#"{"type":7,"checkbox":true}"#,
        r#"{"type":["checkbox"],"checkbox":true}"#,
        r#"{"checkbox":true}"#,
        r#"{}"#,
        r#"[]"#,
        r#"null"#,
        r#"true"#,
        r#"12"#,
        r#""checkbox""#,
    ] {
        assert_eq!(decode_property(&json(raw)), PropertyValue::Unknown, "{}", raw);
    }
}

#[test]
fn tag_decides_over_other_members() {
    let value = json(r#"{"type":"checkbox","checkbox":true,"title":[{"plain_text":"x"}]}"#);
    assert_eq!(decode_property(&value), PropertyValue::Checkbox { checkbox: true });
    let value = json(r#"{"type":"title","checkbox":true,"title":[{"plain_text":"x"}]}"#);
    assert_eq!(decode_property(&value), PropertyValue::Title { title: vec![text("x")] });
}

#[test]
fn rollup_property_without_value_decodes() {
    assert_eq!(
        decode_property(&json(r#"{"type":"rollup","rollup":null}"#)),
        PropertyValue::Rollup { rollup: None }
    );
    assert_eq!(
        decode_property(&json(r#"{"type":"rollup"}"#)),
        PropertyValue::Rollup { rollup: None }
    );
}

#[test]
fn rollup_array_property_decodes() {
    let value = json(
        r#"{"type":"rollup","rollup":{"type":"array","function":"show_unique","array":[
            {"type":"formula","formula":{"type":"date","date":null}},
            {"type":"formula","formula":{"type":"date","date":{"start":"2024-05-01"}}},
            {"type":"formula","formula":{"type":"string","string":"soon"}},
            {"type":"date","date":{"start":"2024-01-01"}},
            {"type":"title","title":[{"plain_text":"Launch"}]},
            {"type":"people","people":[]}
        ]}}"#,
    );
    assert_eq!(
        decode_property(&value),
        PropertyValue::Rollup {
            rollup: Some(RollupValue::Array {
                array: vec![
                    RollupProperty::Formula { formula: FormulaValue::Date { date: None } },
                    RollupProperty::Formula {
                        formula: FormulaValue::Date { date: day("2024-05-01") }
                    },
                    RollupProperty::Formula { formula: FormulaValue::Unknown },
                    RollupProperty::Date { date: day("2024-01-01") },
                    RollupProperty::Title { title: vec![text("Launch")] },
                    RollupProperty::Unknown,
                ]
            })
        }
    );
}

#[test]
fn rollup_scalar_date_decodes() {
    assert_eq!(
        decode_rollup(&json(r#"{"type":"date","date":{"start":"2025-12-31"}}"#)),
        RollupValue::Date { date: day("2025-12-31") }
    );
    assert_eq!(decode_rollup(&json(r#"{"type":"date","date":null}"#)), RollupValue::Date { date: None });
}

#[test]
fn rollup_of_other_shape_is_unknown() {
    for raw in [
        r#"{"type":"number","number":3}"#,
        r#"{"type":"array"}"#,
        r#"{"type":"array","array":null}"#,
        r#"{"type":"array","array":{"0":{"type":"date"}}}"#,
        r#"{"type":"date","date":"2025-12-31"}"#,
        r#"{"array":[]}"#,
        r#"[]"#,
        r#"7"#,
    ] {
        assert_eq!(decode_rollup(&json(raw)), RollupValue::Unknown, "{}", raw);
    }
    assert_eq!(
        decode_rollup_field(&json(r#"{"rollup":7}"#)),
        Some(RollupValue::Unknown)
    );
    assert_eq!(decode_rollup_field(&json(r#"{"rollup":null}"#)), None);
    assert_eq!(decode_rollup_field(&json(r#"{}"#)), None);
}

#[test]
fn empty_rollup_array_decodes() {
    assert_eq!(
        decode_rollup(&json(r#"{"type":"array","array":[]}"#)),
        RollupValue::Array { array: vec![] }
    );
}

#[test]
fn rollup_entries_decode_each_on_its_own() {
    assert_eq!(
        decode_rollup_entry(&json(r#"{"type":"title","title":[]}"#)),
        RollupProperty::Title { title: vec![] }
    );
    assert_eq!(
        decode_rollup_entry(&json(r#"{"type":"date","date":null}"#)),
        RollupProperty::Date { date: None }
    );
    assert_eq!(
        decode_rollup_entry(&json(r#"{"type":"formula","formula":null}"#)),
        RollupProperty::Formula { formula: FormulaValue::Unknown }
    );
    for raw in [
        r#"{"type":"formula"}"#,
        r#"{"type":"title","title":"Launch"}"#,
        r#"{"type":"date","date":7}"#,
        r#"{"type":"checkbox","checkbox":true}"#,
        r#"{"type":"rollup","rollup":null}"#,
        r#"null"#,
    ] {
        assert_eq!(decode_rollup_entry(&json(raw)), RollupProperty::Unknown, "{}", raw);
    }
}

#[test]
fn formulas_decode() {
    assert_eq!(
        decode_formula(&json(r#"{"type":"date","date":{"start":"2024-05-01"}}"#)),
        FormulaValue::Date { date: day("2024-05-01") }
    );
    assert_eq!(decode_formula(&json(r#"{"type":"date"}"#)), FormulaValue::Date { date: None });
    for raw in [
        r#"{"type":"date","date":{"start":5}}"#,
        r#"{"type":"boolean","boolean":true}"#,
        r#"{"date":{"start":"2024-05-01"}}"#,
        r#""2024-05-01""#,
    ] {
        assert_eq!(decode_formula(&json(raw)), FormulaValue::Unknown, "{}", raw);
    }
}

#[test]
fn fields_decode() {
    assert_eq!(decode_date_field(&json(r#"{"date":{"start":"2024-05-01"}}"#)), Some(day("2024-05-01")));
    assert_eq!(decode_date_field(&json(r#"{"date":null}"#)), Some(None));
    assert_eq!(decode_date_field(&json(r#"{}"#)), Some(None));
    assert_eq!(decode_date_field(&json(r#"[]"#)), Some(None));
    assert_eq!(decode_date_field(&json(r#"{"date":{}}"#)), None);
    assert_eq!(decode_title_field(&json(r#"{"title":[{"plain_text":"a"}]}"#)), Some(vec![text("a")]));
    assert_eq!(decode_title_field(&json(r#"{}"#)), None);
    assert_eq!(decode_rich_texts(&json(r#"[]"#)), Some(vec![]));
    assert_eq!(decode_rich_texts(&json(r#"[{"plain_text":"a"},{"plain_text":""}]"#)), Some(vec![text("a"), text("")]));
    assert_eq!(decode_rich_texts(&json(r#"[{"plain_text":"a"},{}]"#)), None);
    assert_eq!(decode_rich_texts(&json(r#"{"plain_text":"a"}"#)), None);
}

#[test]
fn page_keeps_the_properties_that_a_task_reads() {
    let value = json(
        r#"{"object":"page","id":"page-1","properties":{
            "Task Name":{"type":"title","title":[{"plain_text":"Write report"}]},
            "Checkbox":{"type":"checkbox","checkbox":false},
            "Date":{"type":"date","date":{"start":"2024-03-05"}},
            "Objective Name":{"type":"rollup","rollup":{"type":"array","array":[]}},
            "Strategy":{"type":"relation","relation":[]},
            "task name":{"type":"title","title":[{"plain_text":"lower"}]}
        }}"#,
    );
    let page = decode_page(&value).unwrap();
    assert_eq!(page.id, "page-1");
    assert_eq!(
        page.get("Task Name"),
        Some(&PropertyValue::Title { title: vec![text("Write report")] })
    );
    assert_eq!(page.get("Checkbox"), Some(&PropertyValue::Checkbox { checkbox: false }));
    assert_eq!(page.get("Date"), Some(&PropertyValue::Date { date: day("2024-03-05") }));
    assert_eq!(
        page.get("Objective Name"),
        Some(&PropertyValue::Rollup { rollup: Some(RollupValue::Array { array: vec![] }) })
    );
    assert_eq!(page.get("Objective Deadline"), None);
    assert_eq!(page.get("Strategy"), None);
    assert_eq!(page.get("task name"), None);
    assert_eq!(page.properties.len(), 4);
}

#[test]
fn page_needs_only_an_id() {
    for raw in [
        r#"{"id":"page-1"}"#,
        r#"{"id":"page-1","properties":null}"#,
        r#"{"id":"page-1","properties":[]}"#,
        r#"{"id":"page-1","properties":{}}"#,
        r#"{"id":"page-1","properties":{"Checkbox":"yes","Date":null}}"#,
    ] {
        let page = decode_page(&json(raw)).unwrap();
        assert_eq!(page.id, "page-1");
        assert_eq!(page.get("Task Name"), None);
    }
    let page = decode_page(&json(r#"{"id":"p","properties":{"Checkbox":"yes","Date":null}}"#)).unwrap();
    assert_eq!(page.get("Checkbox"), Some(&PropertyValue::Unknown));
    assert_eq!(page.get("Date"), Some(&PropertyValue::Unknown));
    for raw in [r#"{}"#, r#"{"id":7}"#, r#"{"id":null,"properties":{}}"#, r#"["page-1"]"#, r#""page-1""#] {
        assert!(decode_page(&json(raw)).is_none(), "{}", raw);
    }
}

#[test]
fn query_response_decodes_in_order() {
    let response = decode_query_response(&json(
        r#"{"object":"list","results":[{"id":"b"},{"id":"a"},{"id":"c"}],"has_more":false}"#,
    ))
    .unwrap();
    let ids: Vec<&str> = response.results.iter().map(|p| p.id.as_str()).collect();
    assert_eq!(ids, vec!["b", "a", "c"]);
    assert_eq!(decode_query_response(&json(r#"{"results":[]}"#)).unwrap().results.len(), 0);
}

#[test]
fn query_response_of_other_shape_fails() {
    for raw in [
        r#"{}"#,
        r#"{"results":null}"#,
        r#"{"results":{"id":"a"}}"#,
        r#"{"results":[{"id":"a"},{"properties":{}}]}"#,
        r#"{"results":[7]}"#,
        r#"[{"id":"a"}]"#,
        r#"null"#,
    ] {
        assert!(decode_query_response(&json(raw)).is_none(), "{}", raw);
    }
}

#[test]
fn databases_decode() {
    let database = decode_database(&json(
        r#"{"object":"database","id":"db-1","title":[{"plain_text":"Tasks"},{"plain_text":" 2024"}]}"#,
    ))
    .unwrap();
    assert_eq!(database.id, "db-1");
    assert_eq!(database.title, Some(vec![text("Tasks"), text(" 2024")]));
    assert_eq!(decode_database(&json(r#"{"id":"db-2"}"#)).unwrap().title, None);
    assert_eq!(decode_database(&json(r#"{"id":"db-2","title":null}"#)).unwrap().title, None);
    assert_eq!(decode_database(&json(r#"{"id":"db-2","title":[]}"#)).unwrap().title, Some(vec![]));
    for raw in [
        r#"{"title":[]}"#,
        r#"{"id":2}"#,
        r#"{"id":"db-3","title":"Tasks"}"#,
        r#"{"id":"db-3","title":[{"text":"Tasks"}]}"#,
        r#"[]"#,
    ] {
        assert!(decode_database(&json(raw)).is_none(), "{}", raw);
    }
}

#[test]
fn search_response_decodes_in_order() {
    let response = decode_search_response(&json(
        r#"{"results":[{"id":"z","title":[]},{"id":"y"}],"next_cursor":null}"#,
    ))
    .unwrap();
    let ids: Vec<&str> = response.results.iter().map(|d| d.id.as_str()).collect();
    assert_eq!(ids, vec!["z", "y"]);
    for raw in [r#"{}"#, r#"{"results":7}"#, r#"{"results":[{"id":"z"},{"id":null}]}"#] {
        assert!(decode_search_response(&json(raw)).is_none(), "{}", raw);
    }
}
