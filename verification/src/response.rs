//! From the text of an answer to the tasks and databases that it lists.

use crate::assemble::{assemble_all, database_list, database_list_of, tasks_of};
use crate::decode::{
    decode_query_response, decode_search_response, query_response_of, search_response_of,
};
use crate::json::{describe, json_model, json_of_text, parse, JsonModel};
use crate::notion::{database_infos, tasks, DatabaseInfo, DatabaseInfoModel, Task, TaskModel};
use vstd::prelude::*;

verus! {

/// Why the text of an answer could not be read.
#[derive(Debug, Clone, PartialEq, Eq)]
pub enum ResponseError {
    /// The text is not JSON. `detail` is the parser's account of the fault.
    Syntax { detail: String },
    /// The text is JSON, but not of the shape of the answer asked for.
    Shape,
}

/// What is said of an answer of another shape than was asked for.
pub const SHAPE_DETAIL: &'static str = "the answer has another shape than was asked for";

impl ResponseError {
    /// An account of the fault: the parser's own for a fault of syntax.
    pub fn detail(&self) -> (text: String)
        ensures
            match self {
                ResponseError::Syntax { detail } => text@ == detail@,
                ResponseError::Shape => text@ == SHAPE_DETAIL@,
            },
    {
        match self {
            ResponseError::Syntax { detail } => detail.clone(),
            ResponseError::Shape => SHAPE_DETAIL.to_owned(),
        }
    }
}

/// The tasks that a JSON value lists as the answer to a query, where it has
/// the shape of one.
pub open spec fn tasks_of_json(json: JsonModel) -> Option<Seq<TaskModel>> {
    match query_response_of(json) {
        Some(records) => Some(tasks_of(records)),
        None => None,
    }
}

/// The databases that a JSON value lists as the answer to a search, where it
/// has the shape of one.
pub open spec fn databases_of_json(json: JsonModel) -> Option<Seq<DatabaseInfoModel>> {
    match search_response_of(json) {
        Some(databases) => Some(database_list_of(databases)),
        None => None,
    }
}

/// The model of an optional list of tasks.
pub open spec fn tasks_option(list: Option<Vec<Task>>) -> Option<Seq<TaskModel>> {
    match list {
        Some(l) => Some(tasks(l@)),
        None => None,
    }
}

/// The model of an optional list of database entries.
pub open spec fn database_infos_option(list: Option<Vec<DatabaseInfo>>) -> Option<
    Seq<DatabaseInfoModel>,
> {
    match list {
        Some(l) => Some(database_infos(l@)),
        None => None,
    }
}

/// The tasks of the answer to a query: one for each record, in the order of
/// the records. There are none where the value has not the shape of such an
/// answer.
pub fn tasks_of_value(value: &serde_json::Value) -> (list: Option<Vec<Task>>)
    ensures
        tasks_option(list) == tasks_of_json(json_model(*value)),
{
    match decode_query_response(value) {
        Some(response) => Some(assemble_all(&response.results)),
        None => None,
    }
}

/// The databases of the answer to a search, in the order of the answer.
/// There are none where the value has not the shape of such an answer.
pub fn databases_of_value(value: &serde_json::Value) -> (list: Option<Vec<DatabaseInfo>>)
    ensures
        database_infos_option(list) == databases_of_json(json_model(*value)),
{
    match decode_search_response(value) {
        Some(response) => Some(database_list(&response.results)),
        None => None,
    }
}

/// Reads the tasks out of the text of the answer to a query. The text must
/// be JSON, and the JSON an answer; its records then all have a task.
pub fn tasks_from_text(text: &str) -> (outcome: Result<Vec<Task>, ResponseError>)
    ensures
        match outcome {
            Ok(list) => json_of_text(text@) matches Some(json) && tasks_of_json(json) == Some(
                tasks(list@),
            ),
            Err(ResponseError::Syntax { .. }) => json_of_text(text@) is None,
            Err(ResponseError::Shape) => json_of_text(text@) matches Some(json) && tasks_of_json(
                json,
            ) is None,
        },
{
    match parse(text) {
        Ok(value) => match tasks_of_value(&value) {
            Some(list) => Ok(list),
            None => Err(ResponseError::Shape),
        },
        Err(error) => Err(ResponseError::Syntax { detail: describe(&error) }),
    }
}

/// Reads the databases out of the text of the answer to a search.
pub fn databases_from_text(text: &str) -> (outcome: Result<Vec<DatabaseInfo>, ResponseError>)
    ensures
        match outcome {
            Ok(list) => json_of_text(text@) matches Some(json) && databases_of_json(json) == Some(
                database_infos(list@),
            ),
            Err(ResponseError::Syntax { .. }) => json_of_text(text@) is None,
            Err(ResponseError::Shape) => json_of_text(text@) matches Some(json)
                && databases_of_json(json) is None,
        },
{
    match parse(text) {
        Ok(value) => match databases_of_value(&value) {
            Some(list) => Ok(list),
            None => Err(ResponseError::Shape),
        },
        Err(error) => Err(ResponseError::Syntax { detail: describe(&error) }),
    }
}

} // verus!
