//! A field of a record type: its declared identifier and its attributes,
//! with the derived effective column name used in generated SQL.

use vstd::prelude::*;

use crate::attribute::AttrV;
use crate::attribute::Attribute;

verus! {

/// One field of a record type.
#[derive(Debug)]
pub struct Field {
    /// The declared name of the field.
    pub identifier: String,
    /// All the attributes the field carries.
    pub attributes: Vec<Attribute>,
}

/// The mathematical value of a [`Field`].
pub struct FieldV {
    pub identifier: Seq<char>,
    pub attributes: Seq<AttrV>,
}

impl View for Field {
    type V = FieldV;

    open spec fn view(&self) -> FieldV {
        FieldV {
            identifier: self.identifier@,
            attributes: self.attributes@.map_values(|a: Attribute| a@),
        }
    }
}

/// The new name of the first rename attribute in the list, if there is one.
/// When several renames are present the first one wins.
pub open spec fn first_rename(attrs: Seq<AttrV>) -> Option<Seq<char>>
    decreases attrs.len(),
{
    if attrs.len() == 0 {
        None
    } else {
        match attrs[0] {
            AttrV::Rename { new_name } => Some(new_name),
            _ => first_rename(attrs.drop_first()),
        }
    }
}

/// A list that holds a rename attribute anywhere has a first rename: the
/// effective name of such a field is always a renamed name, never the
/// declared identifier.
pub proof fn lemma_has_rename_first_rename(attrs: Seq<AttrV>)
    requires
        exists|i: int| 0 <= i < attrs.len() && attrs[i] is Rename,
    ensures
        first_rename(attrs) is Some,
    decreases attrs.len(),
{
    let i = choose|i: int| 0 <= i < attrs.len() && attrs[i] is Rename;
    if !(attrs[0] is Rename) {
        assert(attrs.drop_first()[i - 1] == attrs[i]);
        lemma_has_rename_first_rename(attrs.drop_first());
    }
}

impl FieldV {
    /// The column name used in generated SQL: the rename override if present,
    /// else the declared identifier.
    pub open spec fn effective_name(self) -> Seq<char> {
        match first_rename(self.attributes) {
            Some(n) => n,
            None => self.identifier,
        }
    }

    /// Whether the field carries a primary-key marker.
    pub open spec fn is_primary_key(self) -> bool {
        exists|i: int| 0 <= i < self.attributes.len() && self.attributes[i] is PrimaryKey
    }
}

/// The mathematical values of a list of fields, in order.
pub open spec fn views_of(fields: Seq<Field>) -> Seq<FieldV> {
    fields.map_values(|f: Field| f@)
}

/// The view of a pushed field is pushed onto the views.
pub proof fn lemma_views_of_push(fields: Seq<Field>, f: Field)
    ensures
        views_of(fields.push(f)) == views_of(fields).push(f@),
{
    assert(views_of(fields.push(f)) =~= views_of(fields).push(f@));
}

/// Skipping a prefix that holds no rename attribute does not change the
/// first rename of the list.
proof fn lemma_first_rename_skip(attrs: Seq<AttrV>, i: int)
    requires
        0 <= i < attrs.len(),
        !(attrs[i] is Rename),
        first_rename(attrs) == first_rename(attrs.skip(i)),
    ensures
        first_rename(attrs) == first_rename(attrs.skip(i + 1)),
{
    assert(attrs.skip(i).drop_first() =~= attrs.skip(i + 1));
    assert(attrs.skip(i)[0] == attrs[i]);
}

impl Field {
    /// The effective name of the field: the first rename attribute's new
    /// name when one is present, else the declared identifier.
    pub fn name(&self) -> (r: String)
        ensures
            r@ == self@.effective_name(),
    {
        let ghost attrs = self@.attributes;
        proof {
            assert(attrs.skip(0) =~= attrs);
        }
        let mut i: usize = 0;
        while i < self.attributes.len()
            invariant
                i <= self.attributes.len(),
                attrs == self@.attributes,
                first_rename(attrs) == first_rename(attrs.skip(i as int)),
            decreases self.attributes.len() - i,
        {
            match &self.attributes[i] {
                Attribute::Rename { new_name } => {
                    proof {
                        assert(attrs.skip(i as int)[0] == attrs[i as int]);
                    }
                    return new_name.clone();
                },
                _ => {
                    proof {
                        lemma_first_rename_skip(attrs, i as int);
                    }
                },
            }
            i += 1;
        }
        proof {
            assert(attrs.skip(attrs.len() as int) =~= Seq::empty());
        }
        self.identifier.clone()
    }

    /// Whether the field carries a primary-key marker.
    pub fn has_primary_key(&self) -> (r: bool)
        ensures
            r == self@.is_primary_key(),
    {
        let ghost attrs = self@.attributes;
        let mut i: usize = 0;
        while i < self.attributes.len()
            invariant
                i <= self.attributes.len(),
                attrs == self@.attributes,
                forall|j: int| 0 <= j < i ==> !(attrs[j] is PrimaryKey),
            decreases self.attributes.len() - i,
        {
            match &self.attributes[i] {
                Attribute::PrimaryKey => {
                    proof {
                        assert(attrs[i as int] is PrimaryKey);
                    }
                    return true;
                },
                _ => {},
            }
            i += 1;
        }
        false
    }
}

impl Clone for Field {
    fn clone(&self) -> (r: Self)
        ensures
            r@ == self@,
    {
        let r = Field { identifier: self.identifier.clone(), attributes: self.attributes.clone() };
        proof {
            assert(r@.attributes =~= self@.attributes);
        }
        r
    }
}

/// A cloned list of fields has the same mathematical values, element for
/// element, as the list it was cloned from.
pub proof fn lemma_cloned_fields_views(a: Seq<Field>, b: Seq<Field>)
    requires
        a.len() == b.len(),
        forall|i: int| #![all_triggers] 0 <= i < a.len() ==> cloned::<Field>(a[i], b[i]),
    ensures
        views_of(a) == views_of(b),
{
    assert forall|i: int| 0 <= i < a.len() implies views_of(a)[i] == views_of(b)[i] by {
        assert(cloned::<Field>(a[i], b[i]));
    }
    assert(views_of(a) =~= views_of(b));
}

} // verus!
