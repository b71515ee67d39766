//! Field-by-field change detection between a proposed and a stored event.

use crate::calendar::{date_text, date_text_of, time_text, time_text_of};
use crate::catalog::candidate::{ChangeSet, ChangeSetView, FieldChangeView};
use crate::domain::{Event, EventView};
use crate::ids::{uuid_text, uuid_text_of};
use crate::text::{opt_clone, opt_str_eq, opt_view, owned};
use vstd::prelude::*;
use vstd::string::*;

verus! {

/// The text of an optional time of day.
pub open spec fn opt_time_text(t: Option<u32>) -> Option<Seq<char>> {
    match t {
        Some(s) => time_text_of(s),
        None => None,
    }
}

/// The changes of `proposed` against `current`, in the order title, day,
/// start time, venue, description, each recorded with old and new text.
pub open spec fn event_field_changes(proposed: EventView, current: EventView) -> Seq<FieldChangeView> {
    let c1: Seq<FieldChangeView> = if proposed.title != current.title {
        seq![FieldChangeView { field_name: "title"@, old_value: Some(current.title), new_value: Some(proposed.title) }]
    } else {
        Seq::empty()
    };
    let c2: Seq<FieldChangeView> = if proposed.event_day != current.event_day {
        seq![FieldChangeView {
            field_name: "event_day"@,
            old_value: date_text_of(current.event_day.year, current.event_day.month, current.event_day.day),
            new_value: date_text_of(proposed.event_day.year, proposed.event_day.month, proposed.event_day.day),
        }]
    } else {
        Seq::empty()
    };
    let c3: Seq<FieldChangeView> = if proposed.start_time != current.start_time {
        seq![FieldChangeView {
            field_name: "start_time"@,
            old_value: opt_time_text(current.start_time),
            new_value: opt_time_text(proposed.start_time),
        }]
    } else {
        Seq::empty()
    };
    let c4: Seq<FieldChangeView> = if proposed.venue_id != current.venue_id {
        seq![FieldChangeView {
            field_name: "venue_id"@,
            old_value: Some(uuid_text_of(current.venue_id)),
            new_value: Some(uuid_text_of(proposed.venue_id)),
        }]
    } else {
        Seq::empty()
    };
    let c5: Seq<FieldChangeView> = if proposed.description != current.description {
        seq![FieldChangeView { field_name: "description"@, old_value: current.description, new_value: proposed.description }]
    } else {
        Seq::empty()
    };
    c1 + c2 + c3 + c4 + c5
}

/// The change set of `proposed` against `current`: the changed fields and,
/// where there are any, the summary `Updated event: ` and the title.
pub open spec fn event_changes_spec(proposed: EventView, current: EventView) -> ChangeSetView {
    let fields = event_field_changes(proposed, current);
    ChangeSetView {
        is_new: false,
        has_changes: fields.len() > 0,
        changed_fields: fields,
        change_summary: if fields.len() > 0 {
            "Updated event: "@ + proposed.title
        } else {
            "No changes detected"@
        },
    }
}

/// The text of an optional time of day.
fn opt_time(t: Option<u32>) -> (r: Option<String>)
    ensures
        opt_view(r) == opt_time_text(t),
{
    match t {
        Some(s) => time_text(s),
        None => None,
    }
}

/// Compares a proposed event with the stored one, field by field.
pub fn detect_event_changes(proposed: &Event, current: &Event) -> (r: ChangeSet)
    ensures
        r@ == event_changes_spec(proposed@, current@),
{
    let ghost p = proposed@;
    let ghost c = current@;
    let mut cs = ChangeSet::no_changes();
    if proposed.title != current.title {
        cs.add_change("title", Some(current.title.clone()), Some(proposed.title.clone()));
    }
    if proposed.event_day != current.event_day {
        cs.add_change("event_day", date_text(current.event_day), date_text(proposed.event_day));
    }
    let same_start = match (proposed.start_time, current.start_time) {
        (Some(x), Some(y)) => x == y,
        (None, None) => true,
        _ => false,
    };
    if !same_start {
        cs.add_change("start_time", opt_time(current.start_time), opt_time(proposed.start_time));
    }
    if proposed.venue_id != current.venue_id {
        cs.add_change("venue_id", Some(uuid_text(current.venue_id)), Some(uuid_text(proposed.venue_id)));
    }
    if !opt_str_eq(&proposed.description, &current.description) {
        cs.add_change("description", opt_clone(&current.description), opt_clone(&proposed.description));
    }
    proof {
        reveal_strlit("title");
        reveal_strlit("event_day");
        reveal_strlit("start_time");
        reveal_strlit("venue_id");
        reveal_strlit("description");
        let fs = event_field_changes(p, c);
        assert(cs@.changed_fields =~= fs);
        assert(cs.has_changes == (fs.len() > 0));
    }
    if cs.has_changes {
        let mut s = owned("Updated event: ");
        s.append(proposed.title.as_str());
        cs.change_summary = s;
    }
    cs
}

/// A proposed event has changes against the stored one exactly when its
/// title, day, start time, venue or description differs; an event compared
/// with itself has none and is summarised `No changes detected`; a changed
/// title is the first change recorded, with the stored title as the old
/// value and the proposed one as the new; a changed set is summarised
/// `Updated event: ` and the proposed title.
pub proof fn lemma_event_changes(proposed: EventView, current: EventView)
    ensures
        event_changes_spec(proposed, current).has_changes <==> (proposed.title != current.title || proposed.event_day
            != current.event_day || proposed.start_time != current.start_time || proposed.venue_id != current.venue_id
            || proposed.description != current.description),
        !event_changes_spec(current, current).has_changes,
        event_changes_spec(current, current).changed_fields.len() == 0,
        event_changes_spec(current, current).change_summary == "No changes detected"@,
        proposed.title != current.title ==> event_changes_spec(proposed, current).changed_fields[0] == (FieldChangeView {
            field_name: "title"@,
            old_value: Some(current.title),
            new_value: Some(proposed.title),
        }),
        event_changes_spec(proposed, current).has_changes ==> event_changes_spec(proposed, current).change_summary
            == "Updated event: "@ + proposed.title,
{
    let f = event_field_changes(proposed, current);
    if proposed.title != current.title || proposed.event_day != current.event_day || proposed.start_time != current.start_time
        || proposed.venue_id != current.venue_id || proposed.description != current.description {
        assert(f.len() > 0);
    }
    assert(event_field_changes(current, current).len() == 0);
}

} // verus!
