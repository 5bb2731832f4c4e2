//! What holds of every record and of every rollup, whatever it contains.

use crate::assemble::{
    do_date_of, objective_deadline_of, objective_name_of, property, status_of, task_of, tasks_of,
    title_of, CHECKBOX, DATE, OBJECTIVE_DEADLINE, OBJECTIVE_NAME, TASK_NAME,
};
use crate::decode::{
    date_field_of, formula_of, page_of, properties_of, property_of, raw_property_of,
    rollup_entry_of, rollup_field_of, rollup_of, tag_of, title_field_of,
};
use crate::json::{member_of, JsonModel};
use crate::notion::{PageModel, PropertyModel, RollupEntryModel, RollupModel};
use crate::rollup::{
    entry_date, entry_title, first_date, first_present, first_title, lemma_first_present_at,
    rollup_date, rollup_title,
};
use vstd::prelude::*;

verus! {

/// The status of a task is "Done" or "To Do", and it is "Done" exactly where
/// the record has a "Checkbox" that is a checkbox and is set. So it is
/// "To Do" where the checkbox is not set, where the record has no "Checkbox",
/// and where its "Checkbox" is a payload of another kind.
pub proof fn lemma_status(record: PageModel)
    ensures
        "Done"@ != "To Do"@,
        status_of(record) == "Done"@ || status_of(record) == "To Do"@,
        status_of(record) == "Done"@ <==> property(record, "Checkbox"@) == Some(
            PropertyModel::Checkbox(true),
        ),
        property(record, "Checkbox"@) == Some(PropertyModel::Checkbox(false)) ==> status_of(record)
            == "To Do"@,
        !record.properties.contains_key("Checkbox"@) ==> status_of(record) == "To Do"@,
        (property(record, "Checkbox"@) matches Some(payload) && !(payload is Checkbox))
            ==> status_of(record) == "To Do"@,
{
    reveal_strlit("Done");
    reveal_strlit("To Do");
    assert("Done"@.len() != "To Do"@.len());
}

/// The title of a task is the first fragment of the "Task Name" of its
/// record, and "Untitled" where the record has no "Task Name", where its
/// "Task Name" is a title without fragments, and where it is a payload of
/// another kind.
pub proof fn lemma_title(record: PageModel)
    ensures
        !record.properties.contains_key("Task Name"@) ==> title_of(record) == "Untitled"@,
        property(record, "Task Name"@) == Some(PropertyModel::Title(Seq::empty())) ==> title_of(
            record,
        ) == "Untitled"@,
        (property(record, "Task Name"@) matches Some(payload) && !(payload is Title)) ==> title_of(
            record,
        ) == "Untitled"@,
        forall|texts: Seq<Seq<char>>|
            property(record, "Task Name"@) == Some(PropertyModel::Title(texts)) && texts.len() > 0
                ==> title_of(record) == texts[0],
{
}

/// A record without a "Date" has no day on which it is to be done, nor has
/// one whose "Date" is a payload of another kind; a record whose "Date" is a
/// date has the day of that date.
pub proof fn lemma_do_date(record: PageModel)
    ensures
        !record.properties.contains_key("Date"@) ==> do_date_of(record) is None,
        (property(record, "Date"@) matches Some(payload) && !(payload is Date)) ==> do_date_of(
            record,
        ) is None,
        forall|date: Option<Seq<char>>|
            property(record, "Date"@) == Some(PropertyModel::Date(date)) ==> do_date_of(record)
                == date,
{
}

/// A record without an "Objective Name" or an "Objective Deadline", or with
/// one that is no rollup or a rollup without a value, has no objective name
/// or deadline.
pub proof fn lemma_objective_absent(record: PageModel)
    ensures
        !record.properties.contains_key("Objective Name"@) ==> objective_name_of(record) is None,
        !record.properties.contains_key("Objective Deadline"@) ==> objective_deadline_of(record)
            is None,
        (property(record, "Objective Name"@) matches Some(payload) && !(payload is Rollup))
            ==> objective_name_of(record) is None,
        (property(record, "Objective Deadline"@) matches Some(payload) && !(payload is Rollup))
            ==> objective_deadline_of(record) is None,
        property(record, "Objective Name"@) == Some(PropertyModel::Rollup(None))
            ==> objective_name_of(record) is None,
        property(record, "Objective Deadline"@) == Some(PropertyModel::Rollup(None))
            ==> objective_deadline_of(record) is None,
{
}

/// Every record has a task, with the identifier of the record, and the task
/// depends on nothing but the identifier and the five properties that it
/// reads.
pub proof fn lemma_task_reads_five_properties(left: PageModel, right: PageModel)
    requires
        left.id == right.id,
        property(left, TASK_NAME@) == property(right, TASK_NAME@),
        property(left, CHECKBOX@) == property(right, CHECKBOX@),
        property(left, DATE@) == property(right, DATE@),
        property(left, OBJECTIVE_NAME@) == property(right, OBJECTIVE_NAME@),
        property(left, OBJECTIVE_DEADLINE@) == property(right, OBJECTIVE_DEADLINE@),
    ensures
        task_of(left).id == left.id,
        task_of(left) == task_of(right),
{
}

/// The tasks of a list of records are as many as the records, and the task
/// at each place is that of the record at that place.
pub proof fn lemma_tasks_keep_order(records: Seq<PageModel>)
    ensures
        tasks_of(records).len() == records.len(),
        forall|i: int| 0 <= i < records.len() ==> tasks_of(records)[i] == task_of(records[i]),
{
}

/// Where a list of optional values has a first present value, it is at an
/// index before which nothing is present.
pub proof fn lemma_first_present_found<T>(found: Seq<Option<T>>) -> (at: int)
    requires
        first_present(found) is Some,
    ensures
        0 <= at < found.len(),
        found[at] == first_present(found),
        forall|j: int| 0 <= j < at ==> found[j] is None,
    decreases found.len(),
{
    if found[0] is Some {
        0
    } else {
        let rest = found.drop_first();
        let at = lemma_first_present_found(rest);
        assert forall|j: int| 0 <= j < at + 1 implies found[j] is None by {
            if j > 0 {
                assert(found[j] == rest[j - 1]);
            }
        }
        at + 1
    }
}

/// The date of a list of rollup entries is that of the first entry that
/// yields a date: entries before it that yield none are passed over, and
/// entries after it are not looked at.
pub proof fn lemma_first_date_wins(list: Seq<RollupEntryModel>, at: int)
    requires
        0 <= at < list.len(),
        entry_date(list[at]) is Some,
        forall|j: int| 0 <= j < at ==> entry_date(list[j]) is None,
    ensures
        first_date(list) == entry_date(list[at]),
        rollup_date(RollupModel::Array(list)) == entry_date(list[at]),
{
    lemma_first_present_at(list.map_values(|e: RollupEntryModel| entry_date(e)), at);
}

/// The title of a list of rollup entries is that of the first entry that
/// yields a title.
pub proof fn lemma_first_title_wins(list: Seq<RollupEntryModel>, at: int)
    requires
        0 <= at < list.len(),
        entry_title(list[at]) is Some,
        forall|j: int| 0 <= j < at ==> entry_title(list[j]) is None,
    ensures
        first_title(list) == entry_title(list[at]),
        rollup_title(RollupModel::Array(list)) == entry_title(list[at]),
{
    lemma_first_present_at(list.map_values(|e: RollupEntryModel| entry_title(e)), at);
}

/// A list of rollup entries has a date exactly where one of its entries
/// yields one, and a title exactly where one of its entries yields one.
pub proof fn lemma_found_iff_present(list: Seq<RollupEntryModel>)
    ensures
        first_date(list) is Some <==> exists|i: int|
            0 <= i < list.len() && entry_date(#[trigger] list[i]) is Some,
        first_title(list) is Some <==> exists|i: int|
            0 <= i < list.len() && entry_title(#[trigger] list[i]) is Some,
{
    let dates = list.map_values(|e: RollupEntryModel| entry_date(e));
    let titles = list.map_values(|e: RollupEntryModel| entry_title(e));
    if first_date(list) is Some {
        lemma_first_present_found(dates);
    } else {
        if exists|i: int| 0 <= i < list.len() && entry_date(#[trigger] list[i]) is Some {
            let i = choose|i: int| 0 <= i < list.len() && entry_date(#[trigger] list[i]) is Some;
            lemma_present_is_found(dates, i);
        }
    }
    if first_title(list) is Some {
        lemma_first_present_found(titles);
    } else {
        if exists|i: int| 0 <= i < list.len() && entry_title(#[trigger] list[i]) is Some {
            let i = choose|i: int| 0 <= i < list.len() && entry_title(#[trigger] list[i]) is Some;
            lemma_present_is_found(titles, i);
        }
    }
}

/// A list in which a value is present has a first present value.
pub proof fn lemma_present_is_found<T>(found: Seq<Option<T>>, at: int)
    requires
        0 <= at < found.len(),
        found[at] is Some,
    ensures
        first_present(found) is Some,
    decreases found.len(),
{
    if found[0] is None {
        let rest = found.drop_first();
        lemma_present_is_found(rest, at - 1);
    }
}

/// A rollup that is no array has no title, and a rollup of a kind that is
/// not known has no date.
pub proof fn lemma_rollup_of_other_kind(rollup: RollupModel)
    ensures
        !(rollup is Array) ==> rollup_title(rollup) is None,
        rollup is Unknown ==> rollup_date(rollup) is None,
        forall|date: Option<Seq<char>>| rollup == RollupModel::Date(date) ==> rollup_date(rollup) == date,
{
}

/// A payload whose tag is missing or not known decodes to `Unknown`, at
/// every level: as a property, as a rollup, as an entry of a rollup array and
/// as a formula.
pub proof fn lemma_unknown_tag(json: JsonModel)
    ensures
        tag_of(json) != Some("title"@) && tag_of(json) != Some("date"@) && tag_of(json) != Some(
            "checkbox"@,
        ) && tag_of(json) != Some("rollup"@) ==> property_of(json) is Unknown,
        tag_of(json) != Some("array"@) && tag_of(json) != Some("date"@) ==> rollup_of(json)
            is Unknown,
        tag_of(json) != Some("title"@) && tag_of(json) != Some("date"@) && tag_of(json) != Some(
            "formula"@,
        ) ==> rollup_entry_of(json) is Unknown,
        tag_of(json) != Some("date"@) ==> formula_of(json) is Unknown,
        !(json is Object) ==> property_of(json) is Unknown,
{
}

/// The tag of a payload determines its kind: a payload decodes to a kind
/// only under the tag of that kind, and under that tag it decodes to the kind
/// where its field is well formed and to `Unknown` where it is not.
pub proof fn lemma_tag_determines_kind(json: JsonModel)
    ensures
        property_of(json) is Title ==> tag_of(json) == Some("title"@),
        property_of(json) is Date ==> tag_of(json) == Some("date"@),
        property_of(json) is Checkbox ==> tag_of(json) == Some("checkbox"@),
        property_of(json) is Rollup ==> tag_of(json) == Some("rollup"@),
        tag_of(json) == Some("title"@) ==> property_of(json) == (match title_field_of(json) {
            Some(texts) => PropertyModel::Title(texts),
            None => PropertyModel::Unknown,
        }),
        tag_of(json) == Some("date"@) ==> property_of(json) == (match date_field_of(json) {
            Some(date) => PropertyModel::Date(date),
            None => PropertyModel::Unknown,
        }),
        tag_of(json) == Some("checkbox"@) ==> property_of(json) == (match member_of(
            json,
            "checkbox"@,
        ) {
            Some(JsonModel::Bool(checked)) => PropertyModel::Checkbox(checked),
            _ => PropertyModel::Unknown,
        }),
        tag_of(json) == Some("rollup"@) ==> property_of(json) == PropertyModel::Rollup(
            rollup_field_of(json),
        ),
{
    reveal_strlit("title");
    reveal_strlit("date");
    reveal_strlit("checkbox");
    reveal_strlit("rollup");
    assert("title"@.len() == 5 && "date"@.len() == 4 && "checkbox"@.len() == 8 && "rollup"@.len()
        == 6);
}

/// A record that decodes has a task whatever its properties hold: a property
/// that is missing from the JSON, or that decodes to a payload of another
/// kind than the field reads, leaves the field at its default.
pub proof fn lemma_decoded_record_defaults(json: JsonModel)
    requires
        page_of(json) is Some,
    ensures
        page_of(json)->0.properties == properties_of(json),
        raw_property_of(json, "Task Name"@) is None ==> title_of(page_of(json)->0) == "Untitled"@,
        raw_property_of(json, "Checkbox"@) is None ==> status_of(page_of(json)->0) == "To Do"@,
        raw_property_of(json, "Date"@) is None ==> do_date_of(page_of(json)->0) is None,
        (raw_property_of(json, "Task Name"@) matches Some(raw) && !(property_of(raw) is Title))
            ==> title_of(page_of(json)->0) == "Untitled"@,
        (raw_property_of(json, "Checkbox"@) matches Some(raw) && !(property_of(raw) is Checkbox))
            ==> status_of(page_of(json)->0) == "To Do"@,
        (raw_property_of(json, "Date"@) matches Some(raw) && !(property_of(raw) is Date))
            ==> do_date_of(page_of(json)->0) is None,
{
}

} // verus!
