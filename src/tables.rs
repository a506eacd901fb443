//! The label-keyed tables of components, widgets and entities, kept in
//! `linked_hash_map::LinkedHashMap`s. Each table's contents are named by the entries
//! it walks, in order; the functions below are the only calls made into that crate.

use vstd::prelude::*;

use linked_hash_map::LinkedHashMap;

use crate::common::Component;
use crate::entities::NamedEntity3;
use crate::gui::Widget;
use crate::label_map::{insert_entry, lookup, remove_key, set_value};

verus! {

/// The entries of a component table, in iteration order.
pub uninterp spec fn component_entries(m: LinkedHashMap<String, Component>) -> Seq<(Seq<char>, Component)>;

/// The entries of a widget table, in iteration order.
pub uninterp spec fn widget_entries(m: LinkedHashMap<String, Widget>) -> Seq<(Seq<char>, Widget)>;

/// The entries of an entity table, in iteration order.
pub uninterp spec fn entity_entries(m: LinkedHashMap<String, NamedEntity3>) -> Seq<(Seq<char>, NamedEntity3)>;

/// Relies on `LinkedHashMap::new`: the new table is empty.
#[verifier::external_body]
pub(crate) fn components_new() -> (r: LinkedHashMap<String, Component>)
    ensures
        component_entries(r) == Seq::<(Seq<char>, Component)>::empty(),
{
    LinkedHashMap::new()
}

/// Relies on `LinkedHashMap::insert`: an existing entry of the key is dropped from its
/// place and the new one goes to the back.
#[verifier::external_body]
pub(crate) fn components_insert(m: &mut LinkedHashMap<String, Component>, k: String, v: Component)
    ensures
        component_entries(*final(m)) == insert_entry(component_entries(*old(m)), k@, v),
{
    m.insert(k, v);
}

/// Relies on `LinkedHashMap::get`: the value under the key, if any.
#[verifier::external_body]
pub(crate) fn components_get<'a>(m: &'a LinkedHashMap<String, Component>, k: &String) -> (r: Option<&'a Component>)
    ensures
        r is None <==> lookup(component_entries(*m), k@) is None,
        r is Some ==> lookup(component_entries(*m), k@) == Some(*(r->0)),
{
    m.get(k)
}

/// Relies on `LinkedHashMap::get_mut`: the value under the key, changed in place
/// without moving its entry.
#[verifier::external_body]
pub(crate) fn components_get_mut<'a>(m: &'a mut LinkedHashMap<String, Component>, k: &String) -> (r: Option<&'a mut Component>)
    ensures
        r is None <==> lookup(component_entries(*old(m)), k@) is None,
        r is None ==> *final(m) == *old(m),
        r is Some ==> lookup(component_entries(*old(m)), k@) == Some(*(r->0)),
        r is Some ==> component_entries(*final(m)) == set_value(component_entries(*old(m)), k@, *final(r->0)),
{
    m.get_mut(k)
}

/// Relies on `LinkedHashMap::remove`: the entry of the key, if any, leaves the table.
#[verifier::external_body]
pub(crate) fn components_remove(m: &mut LinkedHashMap<String, Component>, k: &String)
    ensures
        component_entries(*final(m)) == remove_key(component_entries(*old(m)), k@),
{
    m.remove(k);
}

/// Relies on `LinkedHashMap::new`: the new table is empty.
#[verifier::external_body]
pub(crate) fn widgets_new() -> (r: LinkedHashMap<String, Widget>)
    ensures
        widget_entries(r) == Seq::<(Seq<char>, Widget)>::empty(),
{
    LinkedHashMap::new()
}

/// Relies on `LinkedHashMap::insert`: an existing entry of the key is dropped from its
/// place and the new one goes to the back.
#[verifier::external_body]
pub(crate) fn widgets_insert(m: &mut LinkedHashMap<String, Widget>, k: String, v: Widget)
    ensures
        widget_entries(*final(m)) == insert_entry(widget_entries(*old(m)), k@, v),
{
    m.insert(k, v);
}

/// Relies on `LinkedHashMap::get`: the value under the key, if any.
#[verifier::external_body]
pub(crate) fn widgets_get<'a>(m: &'a LinkedHashMap<String, Widget>, k: &String) -> (r: Option<&'a Widget>)
    ensures
        r is None <==> lookup(widget_entries(*m), k@) is None,
        r is Some ==> lookup(widget_entries(*m), k@) == Some(*(r->0)),
{
    m.get(k)
}

/// Relies on `LinkedHashMap::get_mut`: the value under the key, changed in place
/// without moving its entry.
#[verifier::external_body]
pub(crate) fn widgets_get_mut<'a>(m: &'a mut LinkedHashMap<String, Widget>, k: &String) -> (r: Option<&'a mut Widget>)
    ensures
        r is None <==> lookup(widget_entries(*old(m)), k@) is None,
        r is None ==> *final(m) == *old(m),
        r is Some ==> lookup(widget_entries(*old(m)), k@) == Some(*(r->0)),
        r is Some ==> widget_entries(*final(m)) == set_value(widget_entries(*old(m)), k@, *final(r->0)),
{
    m.get_mut(k)
}

/// Relies on `LinkedHashMap::new`: the new table is empty.
#[verifier::external_body]
pub(crate) fn entities_new() -> (r: LinkedHashMap<String, NamedEntity3>)
    ensures
        entity_entries(r) == Seq::<(Seq<char>, NamedEntity3)>::empty(),
{
    LinkedHashMap::new()
}

/// Relies on `LinkedHashMap::insert`: an existing entry of the key is dropped from its
/// place and the new one goes to the back.
#[verifier::external_body]
pub(crate) fn entities_insert(m: &mut LinkedHashMap<String, NamedEntity3>, k: String, v: NamedEntity3)
    ensures
        entity_entries(*final(m)) == insert_entry(entity_entries(*old(m)), k@, v),
{
    m.insert(k, v);
}

/// Relies on `LinkedHashMap::get`: the value under the key, if any.
#[verifier::external_body]
pub(crate) fn entities_get<'a>(m: &'a LinkedHashMap<String, NamedEntity3>, k: &String) -> (r: Option<&'a NamedEntity3>)
    ensures
        r is None <==> lookup(entity_entries(*m), k@) is None,
        r is Some ==> lookup(entity_entries(*m), k@) == Some(*(r->0)),
{
    m.get(k)
}

/// Relies on `LinkedHashMap::get_mut`: the value under the key, changed in place
/// without moving its entry.
#[verifier::external_body]
pub(crate) fn entities_get_mut<'a>(m: &'a mut LinkedHashMap<String, NamedEntity3>, k: &String) -> (r: Option<&'a mut NamedEntity3>)
    ensures
        r is None <==> lookup(entity_entries(*old(m)), k@) is None,
        r is None ==> *final(m) == *old(m),
        r is Some ==> lookup(entity_entries(*old(m)), k@) == Some(*(r->0)),
        r is Some ==> entity_entries(*final(m)) == set_value(entity_entries(*old(m)), k@, *final(r->0)),
{
    m.get_mut(k)
}

} // verus!
