//! Resolving a rollup: the title or the date that a property takes from the
//! records it links to.
//!
//! A rollup reaches its value through up to three levels: the rollup itself,
//! the entries of its array, and a formula inside an entry. Each level has an
//! accessor of its own that yields an optional text, so that a caller asks one
//! question whatever the shape of the rollup.

use crate::notion::{
    date_option, entries, fragments, text_option, DateValue, FormulaModel, FormulaValue, RichText,
    RollupEntryModel, RollupModel, RollupProperty, RollupValue,
};
use vstd::prelude::*;

verus! {

/// The first of a list of optional values that is present.
pub open spec fn first_present<T>(found: Seq<Option<T>>) -> Option<T>
    decreases found.len(),
{
    if found.len() == 0 {
        None
    } else if found[0] is Some {
        found[0]
    } else {
        first_present(found.drop_first())
    }
}

/// The first fragment of a text, if it has one.
pub open spec fn first_fragment(texts: Seq<Seq<char>>) -> Option<Seq<char>> {
    if texts.len() > 0 {
        Some(texts[0])
    } else {
        None
    }
}

/// The date of a formula: the start of its date, where the formula is a date
/// and the date is present.
pub open spec fn formula_date(formula: FormulaModel) -> Option<Seq<char>> {
    match formula {
        FormulaModel::Date(date) => date,
        FormulaModel::Unknown => None,
    }
}

/// The title that one rollup entry yields: the first fragment of a title
/// entry that has fragments.
pub open spec fn entry_title(entry: RollupEntryModel) -> Option<Seq<char>> {
    match entry {
        RollupEntryModel::Title(texts) => first_fragment(texts),
        _ => None,
    }
}

/// The date that one rollup entry yields: that of a date entry, or of a
/// formula entry whose formula is a date.
pub open spec fn entry_date(entry: RollupEntryModel) -> Option<Seq<char>> {
    match entry {
        RollupEntryModel::Date(date) => date,
        RollupEntryModel::Formula(formula) => formula_date(formula),
        _ => None,
    }
}

/// The title of a list of entries: that of the first entry that yields one.
pub open spec fn first_title(list: Seq<RollupEntryModel>) -> Option<Seq<char>> {
    first_present(list.map_values(|e: RollupEntryModel| entry_title(e)))
}

/// The date of a list of entries: that of the first entry that yields one.
pub open spec fn first_date(list: Seq<RollupEntryModel>) -> Option<Seq<char>> {
    first_present(list.map_values(|e: RollupEntryModel| entry_date(e)))
}

/// The title of a rollup. Only an array has one.
pub open spec fn rollup_title(rollup: RollupModel) -> Option<Seq<char>> {
    match rollup {
        RollupModel::Array(list) => first_title(list),
        _ => None,
    }
}

/// The date of a rollup: the first date of an array, or the date of a rollup
/// that is itself a date.
pub open spec fn rollup_date(rollup: RollupModel) -> Option<Seq<char>> {
    match rollup {
        RollupModel::Array(list) => first_date(list),
        RollupModel::Date(date) => date,
        RollupModel::Unknown => None,
    }
}

/// The first present value is found at `at` when nothing before `at` is
/// present and the value at `at` is.
pub proof fn lemma_first_present_at<T>(found: Seq<Option<T>>, at: int)
    requires
        0 <= at < found.len(),
        found[at] is Some,
        forall|j: int| 0 <= j < at ==> found[j] is None,
    ensures
        first_present(found) == found[at],
    decreases found.len(),
{
    if at > 0 {
        let rest = found.drop_first();
        lemma_first_present_at(rest, at - 1);
    }
}

/// Nothing is found where nothing is present.
pub proof fn lemma_first_present_none<T>(found: Seq<Option<T>>)
    requires
        forall|j: int| 0 <= j < found.len() ==> found[j] is None,
    ensures
        first_present(found) is None,
    decreases found.len(),
{
    if found.len() > 0 {
        let rest = found.drop_first();
        lemma_first_present_none(rest);
    }
}

/// A copy of the start of an optional date.
pub fn date_text(date: &Option<DateValue>) -> (text: Option<String>)
    ensures
        text_option(text) == date_option(*date),
{
    match date {
        Some(d) => Some(d.start.clone()),
        None => None,
    }
}

/// A copy of the first fragment of a text, if it has one.
pub fn first_text(texts: &Vec<RichText>) -> (text: Option<String>)
    ensures
        text_option(text) == first_fragment(fragments(texts@)),
{
    if texts.len() > 0 {
        Some(texts[0].plain_text.clone())
    } else {
        None
    }
}

impl FormulaValue {
    /// The date that the formula computes, if it computes a present date.
    pub fn date(&self) -> (text: Option<String>)
        ensures
            text_option(text) == formula_date(self@),
    {
        match self {
            FormulaValue::Date { date } => date_text(date),
            FormulaValue::Unknown => None,
        }
    }
}

impl RollupProperty {
    /// The title that the entry yields.
    pub fn title(&self) -> (text: Option<String>)
        ensures
            text_option(text) == entry_title(self@),
    {
        match self {
            RollupProperty::Title { title } => first_text(title),
            _ => None,
        }
    }

    /// The date that the entry yields, directly or through a formula.
    pub fn date(&self) -> (text: Option<String>)
        ensures
            text_option(text) == entry_date(self@),
    {
        match self {
            RollupProperty::Date { date } => date_text(date),
            RollupProperty::Formula { formula } => formula.date(),
            _ => None,
        }
    }
}

/// The title of the first entry of `array` that yields one.
pub fn scan_title(array: &Vec<RollupProperty>) -> (text: Option<String>)
    ensures
        text_option(text) == first_title(entries(array@)),
{
    let ghost found = entries(array@).map_values(|e: RollupEntryModel| entry_title(e));
    let mut i: usize = 0;
    while i < array.len()
        invariant
            i <= array.len(),
            found == entries(array@).map_values(|e: RollupEntryModel| entry_title(e)),
            forall|j: int| 0 <= j < i ==> found[j] is None,
        decreases array.len() - i,
    {
        let here = array[i].title();
        if here.is_some() {
            proof {
                lemma_first_present_at(found, i as int);
            }
            return here;
        }
        i += 1;
    }
    proof {
        lemma_first_present_none(found);
    }
    None
}

/// The date of the first entry of `array` that yields one.
pub fn scan_date(array: &Vec<RollupProperty>) -> (text: Option<String>)
    ensures
        text_option(text) == first_date(entries(array@)),
{
    let ghost found = entries(array@).map_values(|e: RollupEntryModel| entry_date(e));
    let mut i: usize = 0;
    while i < array.len()
        invariant
            i <= array.len(),
            found == entries(array@).map_values(|e: RollupEntryModel| entry_date(e)),
            forall|j: int| 0 <= j < i ==> found[j] is None,
        decreases array.len() - i,
    {
        let here = array[i].date();
        if here.is_some() {
            proof {
                lemma_first_present_at(found, i as int);
            }
            return here;
        }
        i += 1;
    }
    proof {
        lemma_first_present_none(found);
    }
    None
}

impl RollupValue {
    /// The title that the rollup resolves to.
    pub fn title(&self) -> (text: Option<String>)
        ensures
            text_option(text) == rollup_title(self@),
    {
        match self {
            RollupValue::Array { array } => scan_title(array),
            _ => None,
        }
    }

    /// The date that the rollup resolves to.
    pub fn date(&self) -> (text: Option<String>)
        ensures
            text_option(text) == rollup_date(self@),
    {
        match self {
            RollupValue::Array { array } => scan_date(array),
            RollupValue::Date { date } => date_text(date),
            RollupValue::Unknown => None,
        }
    }
}

} // verus!
