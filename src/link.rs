//! The registry that connects a form to its fields.

use vstd::prelude::*;
use crate::keyed::KeyedList;

verus! {

/// The identity of a field within a form: cloned freely, compared by value.
pub trait FieldKey: Clone + Eq {}

impl FieldKey for String {}

/// A command that the form sends to its fields.
#[derive(PartialEq, Eq, Structural, Clone, Copy, Debug)]
pub enum FieldMsg {
    /// Validate the field; the field reports the result to the form.
    Validate,
    /// Reset the field's own errors; the field reports the empty set to the form.
    ClearValidationErrors,
}

/// A handle through which a registered field receives commands.
pub trait FieldLink {
    fn field_key(&self) -> &String;

    fn send_message(&self, msg: FieldMsg);
}

/// The set of keys that `register_field` leaves behind when it is called
/// with `keys`, in order, on a registry that holds `start`.
pub open spec fn registered_after(start: Set<Seq<char>>, keys: Seq<Seq<char>>) -> Set<Seq<char>>
    decreases keys.len(),
{
    if keys.len() == 0 {
        start
    } else {
        registered_after(start, keys.drop_last()).insert(keys.last())
    }
}

/// Registering fields under a sequence of keys leaves registered exactly the
/// keys that were there and the keys of the sequence, whatever their order
/// and however often a key repeats.
pub proof fn lemma_registered_after(start: Set<Seq<char>>, keys: Seq<Seq<char>>)
    ensures
        registered_after(start, keys) == start.union(keys.to_set()),
    decreases keys.len(),
{
    if keys.len() == 0 {
        assert(keys.to_set() =~= Set::<Seq<char>>::empty());
        assert(start.union(keys.to_set()) =~= start);
    } else {
        lemma_registered_after(start, keys.drop_last());
        assert(keys =~= keys.drop_last().push(keys.last()));
        keys.drop_last().lemma_push_to_set_commute(keys.last());
        assert(registered_after(start, keys) =~= start.union(keys.to_set()));
    }
}

/// The registry shared by a form and its fields: for each field key the
/// handle of the field registered under it, and the handle of the form.
pub struct FormFieldLink<F, L> {
    form_link: Option<F>,
    field_links: KeyedList<L>,
}

impl<F, L> FormFieldLink<F, L> {
    pub open spec fn wf(&self) -> bool {
        self.links().wf()
    }

    /// The registrations, in the order in which their keys first came.
    pub closed spec fn links(&self) -> KeyedList<L> {
        self.field_links
    }

    pub closed spec fn form(&self) -> Option<F> {
        self.form_link
    }

    /// The keys of the registered fields.
    pub open spec fn keys(&self) -> Set<Seq<char>> {
        self.links().keys()
    }

    /// The handle of each registered field, by key.
    pub open spec fn field_map(&self) -> Map<Seq<char>, L> {
        self.links().map()
    }

    pub fn new() -> (r: Self)
        ensures
            r.wf(),
            r.field_map() == Map::<Seq<char>, L>::empty(),
            r.form() is None,
    {
        FormFieldLink { form_link: None, field_links: KeyedList::new() }
    }

    /// The keys of the registered fields, each once.
    pub fn registered_fields(&self) -> (r: Vec<String>)
        requires
            self.wf(),
        ensures
            r@.map_values(|s: String| s@).no_duplicates(),
            r@.map_values(|s: String| s@).to_set() == self.keys(),
    {
        self.field_links.keys_vec()
    }

    /// Sets the form's handle, replacing any earlier one.
    pub fn register_form(&mut self, link: F)
        ensures
            final(self).form() == Some(link),
            final(self).links() == old(self).links(),
    {
        self.form_link = Some(link);
    }

    pub fn form_is_registered(&self) -> (r: bool)
        ensures
            r == self.form() is Some,
    {
        self.form_link.is_some()
    }

    pub fn field_is_registered(&self, key: &String) -> (r: bool)
        requires
            self.wf(),
        ensures
            r == self.keys().contains(key@),
    {
        self.field_links.contains_key(key)
    }

    /// Registers `link` under `key`; a handle already registered under that
    /// key is replaced.
    pub fn register_field(&mut self, key: String, link: L)
        requires
            old(self).wf(),
        ensures
            final(self).wf(),
            final(self).keys() == old(self).keys().insert(key@),
            final(self).field_map() == old(self).field_map().insert(key@, link),
            final(self).form() == old(self).form(),
    {
        self.field_links.insert(key, link);
    }

    /// A field whose registry may have been replaced by this one (`moved`)
    /// registers here only when it moved and its key is not registered yet:
    /// a handle already under that key stays. Returns whether it registered.
    pub fn reattach_field(&mut self, moved: bool, key: String, link: L) -> (r: bool)
        requires
            old(self).wf(),
        ensures
            final(self).wf(),
            r == (moved && !old(self).keys().contains(key@)),
            r ==> final(self).field_map() == old(self).field_map().insert(key@, link)
                && final(self).form() == old(self).form(),
            !r ==> *final(self) == *old(self),
    {
        if moved && !self.field_is_registered(&key) {
            self.register_field(key, link);
            true
        } else {
            false
        }
    }

    /// A form whose registry may have been replaced by this one (`moved`)
    /// registers here only when it moved and no form is registered yet.
    /// Returns whether it registered.
    pub fn reattach_form(&mut self, moved: bool, form: F) -> (r: bool)
        ensures
            r == (moved && old(self).form() is None),
            r ==> final(self).form() == Some(form) && final(self).links() == old(self).links(),
            !r ==> *final(self) == *old(self),
    {
        if moved && !self.form_is_registered() {
            self.register_form(form);
            true
        } else {
            false
        }
    }

    /// The handle registered under `key`, if any.
    pub fn field_link(&self, key: &String) -> (r: Option<&L>)
        requires
            self.wf(),
        ensures
            r is None <==> !self.keys().contains(key@),
            r matches Some(l) ==> *l == self.field_map()[key@],
    {
        self.field_links.get(key)
    }

    /// The form's handle, if one is registered.
    pub fn form_link(&self) -> (r: Option<&F>)
        ensures
            r matches Some(f) ==> self.form() == Some(*f),
            r is None <==> self.form() is None,
    {
        self.form_link.as_ref()
    }

    /// Every registration, in order: the fields that a broadcast reaches.
    pub fn field_links(&self) -> (r: &Vec<(String, L)>)
        ensures
            r@ == self.links().entries(),
    {
        self.field_links.as_vec()
    }
}

} // verus!
