use planit::notion::{DatabaseInfo, Task};
use planit::request::{
    api_error_message, bearer, page_url, parse_error_message, query_url, snippet, NOTION_VERSION,
    SEARCH_URL, SNIPPET_LEN,
};
use planit::response::{
    databases_from_text, databases_of_value, tasks_from_text, tasks_of_value, ResponseError,
};

const ANSWER: &str = r#"{
  "object": "list",
  "results": [
    {
      "object": "page",
      "id": "11111111-aaaa",
      "properties": {
        "Task Name": {"id": "title", "type": "title", "title": [{"type": "text", "plain_text": "Write report"}]},
        "Checkbox": {"id": "c", "type": "checkbox", "checkbox": false},
        "Date": {"id": "d", "type": "date", "date": {"start": "2024-03-05", "end": null}},
        "Strategy": {"id": "s", "type": "relation", "relation": [{"id": "x"}]},
        "Objective Name": {"id": "n", "type": "rollup", "rollup": {"type": "array", "array": [
          {"type": "date", "date": {"start": "2024-01-01"}},
          {"type": "title", "title": []},
          {"type": "title", "title": [{"plain_text": "Launch"}]}
        ], "function": "show_unique"}},
        "Objective Deadline": {"id": "l", "type": "rollup", "rollup": {"type": "array", "array": [
          {"type": "formula", "formula": {"type": "date", "date": null}},
          {"type": "formula", "formula": {"type": "date", "date": {"start": "2024-05-01"}}},
          {"type": "date", "date": {"start": "2024-01-01"}}
        ], "function": "show_unique"}}
      }
    },
    {
      "object": "page",
      "id": "22222222-bbbb",
      "properties": {
        "Task Name": {"type": "title", "title": []},
        "Checkbox": {"type": "checkbox", "checkbox": true},
        "Date": {"type": "date", "date": null},
        "Objective Name": {"type": "rollup", "rollup": {"type": "number", "number": 3}},
        "Objective Deadline": {"type": "rollup", "rollup": {"type": "date", "date": {"start": "2025-12-31"}}}
      }
    },
    {
      "object": "page",
      "id": "33333333-cccc",
      "properties": {
        "Task Name": {"type": "rich_text", "rich_text": []},
        "Checkbox": {"type": "checkbox", "checkbox": "yes"},
        "Date": {"type": "date", "date": "tomorrow"}
      }
    }
  ],
  "has_more": false
}"#;

fn task(
    id: &str,
    title: &str,
    status: &str,
    do_date: Option<&str>,
    objective_name: Option<&str>,
    objective_deadline: Option<&str>,
) -> Task {
    Task {
        id: id.to_string(),
        title: title.to_string(),
        status: status.to_string(),
        do_date: do_date.map(|s| s.to_string()),
        objective_name: objective_name.map(|s| s.to_string()),
        objective_deadline: objective_deadline.map(|s| s.to_string()),
    }
}

#[test]
fn tasks_are_read_from_the_text_of_an_answer() {
    assert_eq!(
        tasks_from_text(ANSWER),
        Ok(vec![
            task(
                "11111111-aaaa",
                "Write report",
                "To Do",
                Some("2024-03-05"),
                Some("Launch"),
                Some("2024-05-01")
            ),
            task("22222222-bbbb", "Untitled", "Done", None, None, Some("2025-12-31")),
            task("33333333-cccc", "Untitled", "To Do", None, None, None),
        ])
    );
}

#[test]
fn tasks_of_value_agree_with_tasks_from_text() {
    let value: serde_json::Value = serde_json::from_str(ANSWER).unwrap();
    assert_eq!(tasks_of_value(&value), tasks_from_text(ANSWER).ok());
    let other: serde_json::Value = serde_json::from_str(r#"{"results":7}"#).unwrap();
    assert_eq!(tasks_of_value(&other), None);
}

#[test]
fn answer_without_records_gives_no_tasks() {
    assert_eq!(tasks_from_text(r#"{"results":[]}"#), Ok(vec![]));
}

#[test]
fn text_that_is_not_json_is_a_syntax_fault() {
    for text in ["", "{", "{\"results\":[}", "results", "{\"results\":[]} trailing"] {
        match tasks_from_text(text) {
            Err(ResponseError::Syntax { detail }) => assert!(!detail.is_empty()),
            other => panic!("{:?} for {:?}", other, text),
        }
        assert!(matches!(databases_from_text(text), Err(ResponseError::Syntax { .. })));
    }
}

#[test]
fn json_of_another_shape_is_a_shape_fault() {
    for text in [
        "null",
        "[]",
        "{}",
        r#"{"object":"error","status":401,"message":"API token is invalid."}"#,
        r#"{"results":[{"properties":{}}]}"#,
    ] {
        assert_eq!(tasks_from_text(text), Err(ResponseError::Shape));
        assert_eq!(databases_from_text(text), Err(ResponseError::Shape));
    }
}

#[test]
fn fault_gives_its_detail() {
    let fault = ResponseError::Syntax { detail: "expected value at line 1 column 1".to_string() };
    assert_eq!(fault.detail(), "expected value at line 1 column 1");
    assert_eq!(ResponseError::Shape.detail(), "the answer has another shape than was asked for");
}

#[test]
fn databases_are_read_from_the_text_of_an_answer() {
    let text = r#"{"object":"list","results":[
        {"object":"database","id":"db-1","title":[{"plain_text":"Tasks"},{"plain_text":" 2024"}]},
        {"object":"database","id":"db-2","title":[]},
        {"object":"database","id":"db-3"},
        {"object":"database","id":"db-4","title":null}
    ]}"#;
    let expected = vec![
        DatabaseInfo { id: "db-1".to_string(), title: "Tasks".to_string() },
        DatabaseInfo { id: "db-2".to_string(), title: "Untitled Database".to_string() },
        DatabaseInfo { id: "db-3".to_string(), title: "Untitled Database".to_string() },
        DatabaseInfo { id: "db-4".to_string(), title: "Untitled Database".to_string() },
    ];
    assert_eq!(databases_from_text(text), Ok(expected.clone()));
    let value: serde_json::Value = serde_json::from_str(text).unwrap();
    assert_eq!(databases_of_value(&value), Some(expected));
}

#[test]
fn addresses_and_headers() {
    assert_eq!(query_url("abc-123"), "https://api.notion.com/v1/databases/abc-123/query");
    assert_eq!(query_url(""), "https://api.notion.com/v1/databases//query");
    assert_eq!(page_url("page-9"), "https://api.notion.com/v1/pages/page-9");
    assert_eq!(bearer("SECRET-REDACTED"), "Bearer SECRET-REDACTED");
    assert_eq!(SEARCH_URL, "https://api.notion.com/v1/search");
    assert_eq!(NOTION_VERSION, "2022-06-28");
}

#[test]
fn api_error_quotes_the_whole_answer() {
    assert_eq!(api_error_message("unauthorized"), "Notion API Error: unauthorized");
    assert_eq!(api_error_message(""), "Notion API Error: ");
}

#[test]
fn snippet_is_at_most_five_hundred_letters() {
    assert_eq!(SNIPPET_LEN, 500);
    assert_eq!(snippet(""), "");
    assert_eq!(snippet("short"), "short");
    let exact = "x".repeat(500);
    assert_eq!(snippet(&exact), exact);
    let long = format!("{}{}", "a".repeat(500), "b".repeat(20));
    assert_eq!(snippet(&long), "a".repeat(500));
}

#[test]
fn snippet_counts_letters_not_bytes() {
    let long = "é".repeat(501);
    let part = snippet(&long);
    assert_eq!(part.chars().count(), 500);
    assert_eq!(part.len(), 1000);
    let mixed = format!("{}{}", "日本".repeat(250), "z");
    assert_eq!(snippet(&mixed), "日本".repeat(250));
    assert_eq!(snippet(&"é".repeat(500)), "é".repeat(500));
}

#[test]
fn parse_error_quotes_detail_and_snippet() {
    assert_eq!(
        parse_error_message("expected value at line 1 column 1", "<html>"),
        "JSON Parse Error: expected value at line 1 column 1. Snippet: <html>"
    );
    let long = format!("{}{}", "a".repeat(500), "tail");
    assert_eq!(
        parse_error_message("eof", &long),
        format!("JSON Parse Error: eof. Snippet: {}", "a".repeat(500))
    );
}
