//! Catalog candidates and the change sets that describe them.

use crate::domain::{Artist, Event, Venue};
use crate::text::{join, join_spec, opt_view, owned};
use vstd::prelude::*;
use vstd::string::*;

verus! {

/// One changed field: its name and its old and new values as text.
#[derive(Debug)]
pub struct FieldChange {
    pub field_name: String,
    pub old_value: Option<String>,
    pub new_value: Option<String>,
}

/// The mathematical content of a [`FieldChange`].
#[verifier::ext_equal]
pub struct FieldChangeView {
    pub field_name: Seq<char>,
    pub old_value: Option<Seq<char>>,
    pub new_value: Option<Seq<char>>,
}

impl View for FieldChange {
    type V = FieldChangeView;

    open spec fn view(&self) -> FieldChangeView {
        FieldChangeView {
            field_name: self.field_name@,
            old_value: opt_view(self.old_value),
            new_value: opt_view(self.new_value),
        }
    }
}

/// What changed between a proposed entity and its stored state.
#[derive(Debug)]
pub struct ChangeSet {
    pub is_new: bool,
    pub has_changes: bool,
    pub changed_fields: Vec<FieldChange>,
    pub change_summary: String,
}

/// The mathematical content of a [`ChangeSet`].
#[verifier::ext_equal]
pub struct ChangeSetView {
    pub is_new: bool,
    pub has_changes: bool,
    pub changed_fields: Seq<FieldChangeView>,
    pub change_summary: Seq<char>,
}

impl View for ChangeSet {
    type V = ChangeSetView;

    open spec fn view(&self) -> ChangeSetView {
        ChangeSetView {
            is_new: self.is_new,
            has_changes: self.has_changes,
            changed_fields: self.changed_fields@.map_values(|f: FieldChange| f@),
            change_summary: self.change_summary@,
        }
    }
}

/// The summary text of a change set: `No changes`, the stored summary of a
/// new entity, or the changed field names after `Updated fields: `.
pub open spec fn summary_spec(c: ChangeSetView) -> Seq<char> {
    if !c.has_changes {
        "No changes"@
    } else if c.is_new {
        c.change_summary
    } else {
        "Updated fields: "@ + join_spec(c.changed_fields.map_values(|f: FieldChangeView| f.field_name), ", "@)
    }
}

impl ChangeSet {
    /// An empty change set: not new, no changes.
    pub fn no_changes() -> (r: Self)
        ensures
            r@ == (ChangeSetView {
                is_new: false,
                has_changes: false,
                changed_fields: Seq::empty(),
                change_summary: "No changes detected"@,
            }),
    {
        let r = ChangeSet {
            is_new: false,
            has_changes: false,
            changed_fields: Vec::new(),
            change_summary: owned("No changes detected"),
        };
        assert(r@.changed_fields =~= Seq::<FieldChangeView>::empty());
        r
    }

    /// Records that `field_name` went from `old` to `new`.
    pub fn add_change(&mut self, field_name: &str, old_value: Option<String>, new_value: Option<String>)
        ensures
            final(self)@ == (ChangeSetView {
                has_changes: true,
                changed_fields: old(self)@.changed_fields.push(
                    FieldChangeView { field_name: field_name@, old_value: opt_view(old_value), new_value: opt_view(new_value) },
                ),
                ..old(self)@
            }),
    {
        let ghost before = self.changed_fields@.map_values(|f: FieldChange| f@);
        let ghost fc = FieldChangeView { field_name: field_name@, old_value: opt_view(old_value), new_value: opt_view(new_value) };
        self.changed_fields.push(FieldChange { field_name: owned(field_name), old_value, new_value });
        self.has_changes = true;
        assert(self.changed_fields@.map_values(|f: FieldChange| f@) =~= before.push(fc));
    }

    /// The summary of the changes.
    pub fn summarize(&self) -> (r: String)
        ensures
            r@ == summary_spec(self@),
    {
        if !self.has_changes {
            return owned("No changes");
        }
        if self.is_new {
            return self.change_summary.clone();
        }
        let mut names: Vec<String> = Vec::new();
        let mut i: usize = 0;
        while i < self.changed_fields.len()
            invariant
                i <= self.changed_fields@.len(),
                names@.map_values(|s: String| s@) == self@.changed_fields.subrange(0, i as int).map_values(
                    |f: FieldChangeView| f.field_name,
                ),
            decreases self.changed_fields@.len() - i,
        {
            let ghost before = names@.map_values(|s: String| s@);
            assert(self@.changed_fields[i as int].field_name == self.changed_fields@[i as int].field_name@);
            names.push(self.changed_fields[i].field_name.clone());
            assert(names@.map_values(|s: String| s@) =~= before.push(self@.changed_fields[i as int].field_name));
            assert(names@.map_values(|s: String| s@) =~= self@.changed_fields.subrange(0, i + 1).map_values(
                |f: FieldChangeView| f.field_name,
            ));
            i = i + 1;
        }
        assert(self@.changed_fields.subrange(0, self.changed_fields@.len() as int) =~= self@.changed_fields);
        let mut r = owned("Updated fields: ");
        let joined = join(&names, ", ");
        r.append(joined.as_str());
        r
    }
}

/// The entity proposed for persistence.
#[derive(Debug)]
pub enum ProposedEntity {
    Venue(Venue),
    Event(Event),
    Artist(Artist),
}

/// The kind of entity already stored.
#[derive(Debug, Clone, Copy, PartialEq, Eq, Structural)]
pub enum PersistedEntity {
    Venue,
    Event,
    Artist,
}

/// An entity on its way to persistence, with its stored state and changes.
#[derive(Debug)]
pub struct CatalogCandidate {
    pub proposed_state: ProposedEntity,
    pub current_state: Option<PersistedEntity>,
    pub changes: ChangeSet,
    pub should_persist: bool,
}

/// The summary of a new entity: `New venue: `, `New event: ` or
/// `New artist: ` and its name or title.
pub open spec fn new_entity_summary(p: ProposedEntity) -> Seq<char> {
    match p {
        ProposedEntity::Venue(v) => "New venue: "@ + v.name@,
        ProposedEntity::Event(e) => "New event: "@ + e.title@,
        ProposedEntity::Artist(a) => "New artist: "@ + a.name@,
    }
}

impl CatalogCandidate {
    /// A candidate for an entity not stored yet: new, changed, to persist.
    pub fn new_entity(proposed: ProposedEntity) -> (r: Self)
        ensures
            r.proposed_state == proposed,
            r.current_state.is_none(),
            r.changes@ == (ChangeSetView {
                is_new: true,
                has_changes: true,
                changed_fields: Seq::empty(),
                change_summary: new_entity_summary(proposed),
            }),
            r.should_persist,
    {
        let change_summary = match &proposed {
            ProposedEntity::Venue(v) => {
                let mut s = owned("New venue: ");
                s.append(v.name.as_str());
                s
            },
            ProposedEntity::Event(e) => {
                let mut s = owned("New event: ");
                s.append(e.title.as_str());
                s
            },
            ProposedEntity::Artist(a) => {
                let mut s = owned("New artist: ");
                s.append(a.name.as_str());
                s
            },
        };
        let changes = ChangeSet { is_new: true, has_changes: true, changed_fields: Vec::new(), change_summary };
        assert(changes@.changed_fields =~= Seq::<FieldChangeView>::empty());
        CatalogCandidate { proposed_state: proposed, current_state: None, changes, should_persist: true }
    }

    /// A candidate for a stored entity: persisted exactly when it changed.
    pub fn existing_entity(proposed: ProposedEntity, current: PersistedEntity, changes: ChangeSet) -> (r: Self)
        ensures
            r.proposed_state == proposed,
            r.current_state == Some(current),
            r.changes@ == changes@,
            r.should_persist == changes.has_changes,
    {
        let persist = changes.has_changes;
        CatalogCandidate { proposed_state: proposed, current_state: Some(current), changes, should_persist: persist }
    }

    /// Whether the entity is not stored yet.
    pub fn is_new(&self) -> (r: bool)
        ensures
            r == self.current_state.is_none(),
    {
        self.current_state.is_none()
    }

    /// Whether the entity changed.
    pub fn has_changes(&self) -> (r: bool)
        ensures
            r == self.changes.has_changes,
    {
        self.changes.has_changes
    }
}

} // verus!
