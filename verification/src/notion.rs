//! The records of a task database and the flat tasks made from them.
//!
//! Every type has a mathematical model, reached with `@`, in which text is a
//! `Seq<char>`, a list is a `Seq` and the properties of a page are a `Map`
//! from property name to payload. All contracts of the crate are stated over
//! these models.

use vstd::hash_map::StringHashMap;
use vstd::prelude::*;

verus! {

/// A fragment of styled text, of which only the plain text is kept.
#[derive(Debug, Clone, PartialEq, Eq)]
pub struct RichText {
    pub plain_text: String,
}

impl View for RichText {
    type V = Seq<char>;

    open spec fn view(&self) -> Seq<char> {
        self.plain_text@
    }
}

/// A date, given by the text of its start day.
#[derive(Debug, Clone, PartialEq, Eq)]
pub struct DateValue {
    pub start: String,
}

impl View for DateValue {
    type V = Seq<char>;

    open spec fn view(&self) -> Seq<char> {
        self.start@
    }
}

/// The model of an optional text.
pub open spec fn text_option(text: Option<String>) -> Option<Seq<char>> {
    match text {
        Some(t) => Some(t@),
        None => None,
    }
}

/// The model of an optional date: the text of its start day, if there is one.
pub open spec fn date_option(date: Option<DateValue>) -> Option<Seq<char>> {
    match date {
        Some(d) => Some(d@),
        None => None,
    }
}

/// The model of a list of text fragments: their plain texts, in order.
pub open spec fn fragments(texts: Seq<RichText>) -> Seq<Seq<char>> {
    texts.map_values(|t: RichText| t@)
}

/// The model of a [`FormulaValue`].
pub enum FormulaModel {
    Date(Option<Seq<char>>),
    Unknown,
}

/// A computed value inside a rollup entry.
#[derive(Debug, Clone, PartialEq, Eq)]
pub enum FormulaValue {
    Date { date: Option<DateValue> },
    /// Any formula that is not a date.
    Unknown,
}

impl View for FormulaValue {
    type V = FormulaModel;

    open spec fn view(&self) -> FormulaModel {
        match self {
            FormulaValue::Date { date } => FormulaModel::Date(date_option(*date)),
            FormulaValue::Unknown => FormulaModel::Unknown,
        }
    }
}

/// The model of a [`RollupProperty`].
pub enum RollupEntryModel {
    Title(Seq<Seq<char>>),
    Date(Option<Seq<char>>),
    Formula(FormulaModel),
    Unknown,
}

/// One entry of a rollup array: a property value of a linked record.
#[derive(Debug, Clone, PartialEq, Eq)]
pub enum RollupProperty {
    Title { title: Vec<RichText> },
    Date { date: Option<DateValue> },
    Formula { formula: FormulaValue },
    /// Any entry of another kind.
    Unknown,
}

impl View for RollupProperty {
    type V = RollupEntryModel;

    open spec fn view(&self) -> RollupEntryModel {
        match self {
            RollupProperty::Title { title } => RollupEntryModel::Title(fragments(title@)),
            RollupProperty::Date { date } => RollupEntryModel::Date(date_option(*date)),
            RollupProperty::Formula { formula } => RollupEntryModel::Formula(formula@),
            RollupProperty::Unknown => RollupEntryModel::Unknown,
        }
    }
}

/// The model of a list of rollup entries.
pub open spec fn entries(array: Seq<RollupProperty>) -> Seq<RollupEntryModel> {
    array.map_values(|e: RollupProperty| e@)
}

/// The model of a [`RollupValue`].
pub enum RollupModel {
    Array(Seq<RollupEntryModel>),
    Date(Option<Seq<char>>),
    Unknown,
}

/// The value of a rollup: what a property aggregates from linked records.
#[derive(Debug, Clone, PartialEq, Eq)]
pub enum RollupValue {
    Array { array: Vec<RollupProperty> },
    Date { date: Option<DateValue> },
    /// Any rollup of another kind.
    Unknown,
}

impl View for RollupValue {
    type V = RollupModel;

    open spec fn view(&self) -> RollupModel {
        match self {
            RollupValue::Array { array } => RollupModel::Array(entries(array@)),
            RollupValue::Date { date } => RollupModel::Date(date_option(*date)),
            RollupValue::Unknown => RollupModel::Unknown,
        }
    }
}

/// The model of an optional rollup.
pub open spec fn rollup_option(rollup: Option<RollupValue>) -> Option<RollupModel> {
    match rollup {
        Some(r) => Some(r@),
        None => None,
    }
}

/// The model of a [`PropertyValue`].
pub enum PropertyModel {
    Title(Seq<Seq<char>>),
    Date(Option<Seq<char>>),
    Checkbox(bool),
    Rollup(Option<RollupModel>),
    Unknown,
}

/// The payload of one property of a page. The variant says which field is
/// there; a payload of any other kind is `Unknown`.
#[derive(Debug, Clone, PartialEq, Eq)]
pub enum PropertyValue {
    Title { title: Vec<RichText> },
    Date { date: Option<DateValue> },
    Checkbox { checkbox: bool },
    Rollup { rollup: Option<RollupValue> },
    /// Any property of another kind.
    Unknown,
}

impl View for PropertyValue {
    type V = PropertyModel;

    open spec fn view(&self) -> PropertyModel {
        match self {
            PropertyValue::Title { title } => PropertyModel::Title(fragments(title@)),
            PropertyValue::Date { date } => PropertyModel::Date(date_option(*date)),
            PropertyValue::Checkbox { checkbox } => PropertyModel::Checkbox(*checkbox),
            PropertyValue::Rollup { rollup } => PropertyModel::Rollup(rollup_option(*rollup)),
            PropertyValue::Unknown => PropertyModel::Unknown,
        }
    }
}

/// The model of a [`Page`]: its identifier and its properties by name.
pub struct PageModel {
    pub id: Seq<char>,
    pub properties: Map<Seq<char>, PropertyModel>,
}

/// One record of the database: an identifier and the payloads of its
/// properties, by property name. Names are compared letter by letter.
pub struct Page {
    pub id: String,
    pub properties: StringHashMap<PropertyValue>,
}

impl View for Page {
    type V = PageModel;

    open spec fn view(&self) -> PageModel {
        PageModel {
            id: self.id@,
            properties: self.properties@.map_values(|p: PropertyValue| p@),
        }
    }
}

impl Page {
    /// A page with the given identifier and no property.
    pub fn new(id: String) -> (page: Page)
        ensures
            page@.id == id@,
            page@.properties == Map::<Seq<char>, PropertyModel>::empty(),
    {
        Page { id, properties: StringHashMap::new() }
    }

    /// Sets the payload of the property `name`, in place of any that the page
    /// had under that name.
    pub fn insert(&mut self, name: String, value: PropertyValue)
        ensures
            final(self)@.id == old(self)@.id,
            final(self)@.properties == old(self)@.properties.insert(name@, value@),
    {
        self.properties.insert(name, value);
    }
}

/// The model of a list of pages.
pub open spec fn pages(results: Seq<Page>) -> Seq<PageModel> {
    results.map_values(|p: Page| p@)
}

/// The answer to a query of the database: its pages, in the order received.
pub struct QueryResponse {
    pub results: Vec<Page>,
}

impl View for QueryResponse {
    type V = Seq<PageModel>;

    open spec fn view(&self) -> Seq<PageModel> {
        pages(self.results@)
    }
}

/// The model of a [`Task`].
pub struct TaskModel {
    pub id: Seq<char>,
    pub title: Seq<char>,
    pub status: Seq<char>,
    pub do_date: Option<Seq<char>>,
    pub objective_name: Option<Seq<char>>,
    pub objective_deadline: Option<Seq<char>>,
}

/// A task as the interface shows it.
#[derive(Debug, Clone, PartialEq, Eq)]
pub struct Task {
    pub id: String,
    pub title: String,
    pub status: String,
    pub do_date: Option<String>,
    pub objective_name: Option<String>,
    pub objective_deadline: Option<String>,
}

impl View for Task {
    type V = TaskModel;

    open spec fn view(&self) -> TaskModel {
        TaskModel {
            id: self.id@,
            title: self.title@,
            status: self.status@,
            do_date: text_option(self.do_date),
            objective_name: text_option(self.objective_name),
            objective_deadline: text_option(self.objective_deadline),
        }
    }
}

/// The model of a list of tasks.
pub open spec fn tasks(list: Seq<Task>) -> Seq<TaskModel> {
    list.map_values(|t: Task| t@)
}

/// The model of a [`DatabaseObject`].
pub struct DatabaseObjectModel {
    pub id: Seq<char>,
    pub title: Option<Seq<Seq<char>>>,
}

/// A database as a search returns it.
#[derive(Debug, Clone, PartialEq, Eq)]
pub struct DatabaseObject {
    pub id: String,
    pub title: Option<Vec<RichText>>,
}

impl View for DatabaseObject {
    type V = DatabaseObjectModel;

    open spec fn view(&self) -> DatabaseObjectModel {
        DatabaseObjectModel {
            id: self.id@,
            title: match self.title {
                Some(t) => Some(fragments(t@)),
                None => None,
            },
        }
    }
}

/// The model of a list of databases.
pub open spec fn database_objects(results: Seq<DatabaseObject>) -> Seq<DatabaseObjectModel> {
    results.map_values(|d: DatabaseObject| d@)
}

/// The answer to a search for databases, in the order received.
#[derive(Debug, Clone, PartialEq, Eq)]
pub struct SearchResponse {
    pub results: Vec<DatabaseObject>,
}

impl View for SearchResponse {
    type V = Seq<DatabaseObjectModel>;

    open spec fn view(&self) -> Seq<DatabaseObjectModel> {
        database_objects(self.results@)
    }
}

/// The model of a [`DatabaseInfo`].
pub struct DatabaseInfoModel {
    pub id: Seq<char>,
    pub title: Seq<char>,
}

/// A database as the interface lists it.
#[derive(Debug, Clone, PartialEq, Eq)]
pub struct DatabaseInfo {
    pub id: String,
    pub title: String,
}

impl View for DatabaseInfo {
    type V = DatabaseInfoModel;

    open spec fn view(&self) -> DatabaseInfoModel {
        DatabaseInfoModel { id: self.id@, title: self.title@ }
    }
}

/// The model of a list of database entries.
pub open spec fn database_infos(list: Seq<DatabaseInfo>) -> Seq<DatabaseInfoModel> {
    list.map_values(|d: DatabaseInfo| d@)
}

} // verus!
