//! Result items exchanged between a plugin and the manager.

use vstd::prelude::*;

verus! {

/// Mathematical model of a [`SubListItem`].
pub struct SubListItemView {
    pub index: nat,
    pub name: Seq<char>,
}

/// Mathematical model of a [`ListItem`].
pub struct ListItemView {
    pub index: nat,
    pub name: Seq<char>,
    pub subitems: Option<Seq<SubListItemView>>,
}

/// One alternate launch behaviour of a list item.
#[derive(Debug)]
pub struct SubListItem {
    pub index: u64,
    pub name: String,
}

/// One searchable entry offered by a plugin.
#[derive(Debug)]
pub struct ListItem {
    pub index: u64,
    pub name: String,
    pub subitems: Option<Vec<SubListItem>>,
}

impl View for SubListItem {
    type V = SubListItemView;

    open spec fn view(&self) -> SubListItemView {
        SubListItemView { index: self.index as nat, name: self.name@ }
    }
}

/// The models of a sequence of sub-items, position by position.
pub open spec fn subitem_views(items: Seq<SubListItem>) -> Seq<SubListItemView> {
    items.map_values(|s: SubListItem| s@)
}

impl View for ListItem {
    type V = ListItemView;

    open spec fn view(&self) -> ListItemView {
        ListItemView {
            index: self.index as nat,
            name: self.name@,
            subitems: match self.subitems {
                Some(subs) => Some(subitem_views(subs@)),
                None => None,
            },
        }
    }
}

/// The models of a sequence of items, position by position.
pub open spec fn item_views(items: Seq<ListItem>) -> Seq<ListItemView> {
    items.map_values(|s: ListItem| s@)
}

impl SubListItem {
    pub fn new(index: u64, name: String) -> (item: SubListItem)
        ensures
            item@ == (SubListItemView { index: index as nat, name: name@ }),
            item.index == index,
            item.name == name,
    {
        SubListItem { index, name }
    }
}

impl ListItem {
    /// An item without sub-items.
    pub fn new(index: u64, name: String) -> (item: ListItem)
        ensures
            item@ == (ListItemView { index: index as nat, name: name@, subitems: None }),
            item.index == index,
            item.name == name,
            item.subitems is None,
    {
        ListItem { index, name, subitems: None }
    }

    /// An item that carries the given sub-items, in the given order.
    pub fn with_subitems(index: u64, name: String, subitems: Vec<SubListItem>) -> (item: ListItem)
        ensures
            item@ == (ListItemView {
                index: index as nat,
                name: name@,
                subitems: Some(subitem_views(subitems@)),
            }),
            item.index == index,
            item.name == name,
            item.subitems == Some(subitems),
    {
        ListItem { index, name, subitems: Some(subitems) }
    }
}

impl Default for ListItem {
    /// The empty item: index 0, empty name, no sub-items.
    fn default() -> (item: ListItem)
        ensures
            item@ == (ListItemView { index: 0, name: Seq::<char>::empty(), subitems: None }),
    {
        ListItem { index: 0, name: String::new(), subitems: None }
    }
}

} // verus!
