//! Assembling a task from a page, field by field.
//!
//! Each field of a task comes from one named property of the page. A property
//! that is missing, or whose payload is of another kind than the field reads,
//! gives the field its default: assembling never fails.

use crate::notion::{
    database_infos, database_objects, fragments, pages, tasks, text_option, DatabaseInfo,
    DatabaseInfoModel, DatabaseObject, DatabaseObjectModel, Page, PageModel, PropertyModel,
    PropertyValue, Task, TaskModel,
};
use crate::rollup::{date_text, first_fragment, first_text, rollup_date, rollup_title};
use vstd::prelude::*;

verus! {

/// The property that holds the title of a task.
pub const TASK_NAME: &'static str = "Task Name";

/// The property that says whether a task is done.
pub const CHECKBOX: &'static str = "Checkbox";

/// The property that holds the day on which a task is to be done.
pub const DATE: &'static str = "Date";

/// The rollup that holds the name of the objective of a task.
pub const OBJECTIVE_NAME: &'static str = "Objective Name";

/// The rollup that holds the deadline of the objective of a task.
pub const OBJECTIVE_DEADLINE: &'static str = "Objective Deadline";

/// The title of a task whose page gives none.
pub const UNTITLED: &'static str = "Untitled";

/// The status of a task that is done.
pub const DONE: &'static str = "Done";

/// The status of a task that is not done.
pub const TO_DO: &'static str = "To Do";

/// The title of a database that gives none.
pub const UNTITLED_DATABASE: &'static str = "Untitled Database";

/// The payload that a record has under `name`, if it has one.
pub open spec fn property(record: PageModel, name: Seq<char>) -> Option<PropertyModel> {
    if record.properties.contains_key(name) {
        Some(record.properties[name])
    } else {
        None
    }
}

/// The title of the task of a record: the first fragment of its "Task Name",
/// where that is a title with fragments, and "Untitled" otherwise.
pub open spec fn title_of(record: PageModel) -> Seq<char> {
    match property(record, TASK_NAME@) {
        Some(PropertyModel::Title(texts)) => match first_fragment(texts) {
            Some(text) => text,
            None => UNTITLED@,
        },
        _ => UNTITLED@,
    }
}

/// The status of the task of a record: "Done" where its "Checkbox" is a
/// checkbox that is set, and "To Do" otherwise.
pub open spec fn status_of(record: PageModel) -> Seq<char> {
    match property(record, CHECKBOX@) {
        Some(PropertyModel::Checkbox(checked)) => if checked {
            DONE@
        } else {
            TO_DO@
        },
        _ => TO_DO@,
    }
}

/// The day on which the task of a record is to be done: the start of its
/// "Date", where that is a date and present.
pub open spec fn do_date_of(record: PageModel) -> Option<Seq<char>> {
    match property(record, DATE@) {
        Some(PropertyModel::Date(date)) => date,
        _ => None,
    }
}

/// The name of the objective of a record: the title that its "Objective Name"
/// resolves to, where that is a rollup with a value.
pub open spec fn objective_name_of(record: PageModel) -> Option<Seq<char>> {
    match property(record, OBJECTIVE_NAME@) {
        Some(PropertyModel::Rollup(Some(rollup))) => rollup_title(rollup),
        _ => None,
    }
}

/// The deadline of the objective of a record: the date that its "Objective
/// Deadline" resolves to, where that is a rollup with a value.
pub open spec fn objective_deadline_of(record: PageModel) -> Option<Seq<char>> {
    match property(record, OBJECTIVE_DEADLINE@) {
        Some(PropertyModel::Rollup(Some(rollup))) => rollup_date(rollup),
        _ => None,
    }
}

/// The task of a record.
pub open spec fn task_of(record: PageModel) -> TaskModel {
    TaskModel {
        id: record.id,
        title: title_of(record),
        status: status_of(record),
        do_date: do_date_of(record),
        objective_name: objective_name_of(record),
        objective_deadline: objective_deadline_of(record),
    }
}

/// The tasks of a list of records: one for each record, in the same order.
pub open spec fn tasks_of(records: Seq<PageModel>) -> Seq<TaskModel> {
    records.map_values(|r: PageModel| task_of(r))
}

/// The title under which a database is listed: the first fragment of its
/// title, and "Untitled Database" where it has none.
pub open spec fn database_title(database: DatabaseObjectModel) -> Seq<char> {
    match database.title {
        Some(texts) => match first_fragment(texts) {
            Some(text) => text,
            None => UNTITLED_DATABASE@,
        },
        None => UNTITLED_DATABASE@,
    }
}

/// The entry under which a database is listed.
pub open spec fn database_info_of(database: DatabaseObjectModel) -> DatabaseInfoModel {
    DatabaseInfoModel { id: database.id, title: database_title(database) }
}

/// The entries of a list of databases, in the same order.
pub open spec fn database_list_of(databases: Seq<DatabaseObjectModel>) -> Seq<DatabaseInfoModel> {
    databases.map_values(|d: DatabaseObjectModel| database_info_of(d))
}

impl Page {
    /// The payload of the property `name`, if the page has one.
    pub fn get(&self, name: &str) -> (payload: Option<&PropertyValue>)
        ensures
            match payload {
                Some(p) => property(self@, name@) == Some(p@),
                None => property(self@, name@) is None,
            },
    {
        self.properties.get(name)
    }

    /// The title of the task.
    pub fn title(&self) -> (text: String)
        ensures
            text@ == title_of(self@),
    {
        match self.get(TASK_NAME) {
            Some(PropertyValue::Title { title }) => match first_text(title) {
                Some(text) => text,
                None => UNTITLED.to_owned(),
            },
            _ => UNTITLED.to_owned(),
        }
    }

    /// The status of the task.
    pub fn status(&self) -> (text: String)
        ensures
            text@ == status_of(self@),
    {
        match self.get(CHECKBOX) {
            Some(PropertyValue::Checkbox { checkbox }) => if *checkbox {
                DONE.to_owned()
            } else {
                TO_DO.to_owned()
            },
            _ => TO_DO.to_owned(),
        }
    }

    /// The day on which the task is to be done.
    pub fn do_date(&self) -> (text: Option<String>)
        ensures
            text_option(text) == do_date_of(self@),
    {
        match self.get(DATE) {
            Some(PropertyValue::Date { date }) => date_text(date),
            _ => None,
        }
    }

    /// The name of the objective of the task.
    pub fn objective_name(&self) -> (text: Option<String>)
        ensures
            text_option(text) == objective_name_of(self@),
    {
        match self.get(OBJECTIVE_NAME) {
            Some(PropertyValue::Rollup { rollup: Some(rollup) }) => rollup.title(),
            _ => None,
        }
    }

    /// The deadline of the objective of the task.
    pub fn objective_deadline(&self) -> (text: Option<String>)
        ensures
            text_option(text) == objective_deadline_of(self@),
    {
        match self.get(OBJECTIVE_DEADLINE) {
            Some(PropertyValue::Rollup { rollup: Some(rollup) }) => rollup.date(),
            _ => None,
        }
    }
}

/// Assembles the task of a page. Every page has a task: a field that the page
/// does not give takes its default.
pub fn assemble(page: &Page) -> (task: Task)
    ensures
        task@ == task_of(page@),
{
    Task {
        id: page.id.clone(),
        title: page.title(),
        status: page.status(),
        do_date: page.do_date(),
        objective_name: page.objective_name(),
        objective_deadline: page.objective_deadline(),
    }
}

/// Assembles the tasks of a list of pages: one task for each page, in the
/// order of the pages.
pub fn assemble_all(records: &Vec<Page>) -> (list: Vec<Task>)
    ensures
        list@.len() == records@.len(),
        tasks(list@) == tasks_of(pages(records@)),
{
    let mut list: Vec<Task> = Vec::new();
    let mut i: usize = 0;
    while i < records.len()
        invariant
            i <= records.len(),
            list@.len() == i,
            forall|j: int| 0 <= j < i ==> (#[trigger] list@[j])@ == task_of(records@[j]@),
        decreases records.len() - i,
    {
        list.push(assemble(&records[i]));
        i += 1;
    }
    list
}

/// The entry under which a database is listed.
pub fn database_info(database: &DatabaseObject) -> (info: DatabaseInfo)
    ensures
        info@ == database_info_of(database@),
{
    let title = match &database.title {
        Some(texts) => match first_text(texts) {
            Some(text) => text,
            None => UNTITLED_DATABASE.to_owned(),
        },
        None => UNTITLED_DATABASE.to_owned(),
    };
    DatabaseInfo { id: database.id.clone(), title }
}

/// The entries of a list of databases: one for each database, in the order
/// of the databases.
pub fn database_list(databases: &Vec<DatabaseObject>) -> (list: Vec<DatabaseInfo>)
    ensures
        list@.len() == databases@.len(),
        database_infos(list@) == database_list_of(database_objects(databases@)),
{
    let mut list: Vec<DatabaseInfo> = Vec::new();
    let mut i: usize = 0;
    while i < databases.len()
        invariant
            i <= databases.len(),
            list@.len() == i,
            forall|j: int| 0 <= j < i ==> (#[trigger] list@[j])@ == database_info_of(databases@[j]@),
        decreases databases.len() - i,
    {
        list.push(database_info(&databases[i]));
        i += 1;
    }
    list
}

} // verus!
