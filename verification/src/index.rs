//! The index built over a catalog of application entries.

use vstd::prelude::*;
use crate::items::{ListItem, ListItemView, SubListItem, SubListItemView, item_views, subitem_views};
use crate::text::optional_text;

verus! {

/// A named sub-action of an application entry. `name` is the display name
/// resolved under the caller's locale list, absent when none resolves.
#[derive(Debug)]
pub struct ActionDescriptor {
    pub id: String,
    pub name: Option<String>,
}

/// One application entry of the catalog, reduced to what the index reads:
/// the display name resolved under the caller's locale list, the launch
/// command, and the declared sub-actions in their declared order.
#[derive(Debug)]
pub struct EntryDescriptor {
    pub name: Option<String>,
    pub command: Option<String>,
    pub actions: Option<Vec<ActionDescriptor>>,
}

/// Mathematical model of an [`ActionDescriptor`].
pub struct ActionDescriptorView {
    pub id: Seq<char>,
    pub name: Option<Seq<char>>,
}

/// Mathematical model of an [`EntryDescriptor`].
pub struct EntryDescriptorView {
    pub name: Option<Seq<char>>,
    pub command: Option<Seq<char>>,
    pub actions: Option<Seq<ActionDescriptorView>>,
}

impl View for ActionDescriptor {
    type V = ActionDescriptorView;

    open spec fn view(&self) -> ActionDescriptorView {
        ActionDescriptorView { id: self.id@, name: optional_text(self.name) }
    }
}

/// The models of a sequence of actions, position by position.
pub open spec fn action_views(actions: Seq<ActionDescriptor>) -> Seq<ActionDescriptorView> {
    actions.map_values(|a: ActionDescriptor| a@)
}

impl View for EntryDescriptor {
    type V = EntryDescriptorView;

    open spec fn view(&self) -> EntryDescriptorView {
        EntryDescriptorView {
            name: optional_text(self.name),
            command: optional_text(self.command),
            actions: match self.actions {
                Some(actions) => Some(action_views(actions@)),
                None => None,
            },
        }
    }
}

/// The models of a sequence of entries, position by position.
pub open spec fn entry_views(entries: Seq<EntryDescriptor>) -> Seq<EntryDescriptorView> {
    entries.map_values(|e: EntryDescriptor| e@)
}

/// An entry is a launch target when it has both a display name and a command.
pub open spec fn is_launchable(entry: EntryDescriptorView) -> bool {
    entry.name is Some && entry.command is Some
}

/// The sub-items of a sequence of actions: the actions with a display name,
/// in declared order, numbered from 0 without gaps.
pub open spec fn action_subitems(actions: Seq<ActionDescriptorView>) -> Seq<SubListItemView>
    decreases actions.len(),
{
    if actions.len() == 0 {
        Seq::empty()
    } else {
        let before = action_subitems(actions.drop_last());
        match actions.last().name {
            Some(name) => before.push(SubListItemView { index: before.len(), name }),
            None => before,
        }
    }
}

/// The item that a launchable entry becomes under the given index.
pub open spec fn entry_item(index: nat, entry: EntryDescriptorView) -> ListItemView
    recommends
        is_launchable(entry),
{
    ListItemView {
        index,
        name: entry.name.unwrap(),
        subitems: match entry.actions {
            Some(actions) => Some(action_subitems(actions)),
            None => None,
        },
    }
}

/// The index of a catalog: its launchable entries in catalog order, numbered
/// from 0 without gaps. Entries that are no launch target leave no trace.
pub open spec fn catalog_index(entries: Seq<EntryDescriptorView>) -> Seq<ListItemView>
    decreases entries.len(),
{
    if entries.len() == 0 {
        Seq::empty()
    } else {
        let before = catalog_index(entries.drop_last());
        if is_launchable(entries.last()) {
            before.push(entry_item(before.len(), entries.last()))
        } else {
            before
        }
    }
}

/// The index never holds more items than the catalog has entries.
pub proof fn lemma_index_len(entries: Seq<EntryDescriptorView>)
    ensures
        catalog_index(entries).len() <= entries.len(),
    decreases entries.len(),
{
    if entries.len() > 0 {
        lemma_index_len(entries.drop_last());
    }
}

/// There are never more sub-items than declared actions.
pub proof fn lemma_subitems_len(actions: Seq<ActionDescriptorView>)
    ensures
        action_subitems(actions).len() <= actions.len(),
    decreases actions.len(),
{
    if actions.len() > 0 {
        lemma_subitems_len(actions.drop_last());
    }
}

/// Every item of the index carries its own position as its index, so
/// indices are unique and lookup by index is lookup by position.
pub proof fn lemma_index_positions(entries: Seq<EntryDescriptorView>)
    ensures
        forall|k: int|
            0 <= k < catalog_index(entries).len() ==> (#[trigger] catalog_index(entries)[k]).index == k,
    decreases entries.len(),
{
    if entries.len() > 0 {
        lemma_index_positions(entries.drop_last());
        let before = catalog_index(entries.drop_last());
        assert forall|k: int| 0 <= k < catalog_index(entries).len() implies (
        #[trigger] catalog_index(entries)[k]).index == k by {
            if k < before.len() {
                assert(catalog_index(entries)[k] == before[k]);
            }
        }
    }
}

/// Every sub-item carries its own position as its index.
pub proof fn lemma_subitem_positions(actions: Seq<ActionDescriptorView>)
    ensures
        forall|k: int|
            0 <= k < action_subitems(actions).len() ==> (#[trigger] action_subitems(actions)[k]).index
                == k,
    decreases actions.len(),
{
    if actions.len() > 0 {
        lemma_subitem_positions(actions.drop_last());
        let before = action_subitems(actions.drop_last());
        assert forall|k: int| 0 <= k < action_subitems(actions).len() implies (
        #[trigger] action_subitems(actions)[k]).index == k by {
            if k < before.len() {
                assert(action_subitems(actions)[k] == before[k]);
            }
        }
    }
}

/// Builds the sub-items of an entry from its declared actions.
pub fn build_subitems(actions: &Vec<ActionDescriptor>) -> (out: Vec<SubListItem>)
    ensures
        subitem_views(out@) == action_subitems(action_views(actions@)),
{
    let ghost models = action_views(actions@);
    let mut out: Vec<SubListItem> = Vec::new();
    let mut i: usize = 0;
    assert(models.take(0) =~= Seq::empty());
    while i < actions.len()
        invariant
            i <= actions.len(),
            out.len() <= i,
            models == action_views(actions@),
            subitem_views(out@) =~= action_subitems(models.take(i as int)),
        decreases actions.len() - i,
    {
        assert(models.take(i + 1).drop_last() =~= models.take(i as int));
        assert(models.take(i + 1).last() == actions@[i as int]@);
        match &actions[i].name {
            Some(name) => {
                let ghost before = out@;
                let item = SubListItem::new(out.len() as u64, name.clone());
                out.push(item);
                assert(subitem_views(out@) =~= subitem_views(before).push(item@));
            },
            None => {},
        }
        i += 1;
    }
    assert(models.take(i as int) =~= models);
    out
}

/// Builds the index of a catalog as a list in which the item at position
/// `k` carries index `k`.
pub fn build_index(entries: &Vec<EntryDescriptor>) -> (out: Vec<ListItem>)
    ensures
        item_views(out@) == catalog_index(entry_views(entries@)),
{
    let ghost models = entry_views(entries@);
    let mut out: Vec<ListItem> = Vec::new();
    let mut i: usize = 0;
    assert(models.take(0) =~= Seq::empty());
    while i < entries.len()
        invariant
            i <= entries.len(),
            out.len() <= i,
            models == entry_views(entries@),
            item_views(out@) =~= catalog_index(models.take(i as int)),
        decreases entries.len() - i,
    {
        assert(models.take(i + 1).drop_last() =~= models.take(i as int));
        assert(models.take(i + 1).last() == entries@[i as int]@);
        let entry = &entries[i];
        match &entry.name {
            Some(name) => {
                if entry.command.is_some() {
                    let ghost before = out@;
                    let index: u64 = out.len() as u64;
                    let item = match &entry.actions {
                        Some(actions) => ListItem::with_subitems(
                            index,
                            name.clone(),
                            build_subitems(actions),
                        ),
                        None => ListItem::new(index, name.clone()),
                    };
                    out.push(item);
                    assert(item_views(out@) =~= item_views(before).push(item@));
                }
            },
            None => {},
        }
        i += 1;
    }
    assert(models.take(i as int) =~= models);
    out
}

} // verus!
