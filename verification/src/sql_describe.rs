//! Descriptor assembly: the fields of a record type are partitioned by
//! primary key and the builder is applied once to produce the six canonical
//! statement strings of the type.

use vstd::prelude::*;

use crate::attribute::AttrV;
use crate::attribute::Attribute;
use crate::field::Field;
use crate::field::FieldV;
use crate::field::lemma_cloned_fields_views;
use crate::field::lemma_views_of_push;
use crate::field::views_of;
use crate::query_builder::QueryBuilder;
use crate::statements::delete_where_stmt;
use crate::statements::insert_stmt;
use crate::statements::retrieve_stmt;
use crate::statements::retrieve_where_stmt;

verus! {

/// Describes a record type through its generated SQL statements. It is
/// usually implemented by generated code, with the strings produced by
/// [`create_queries`].
pub trait SqlDescribe {
    /// A statement which inserts a given record, requiring all fields.
    fn insert() -> &'static str;

    /// A statement which inserts the record without the fields marked as
    /// primary key, returning the entire record.
    fn insert_without_pk() -> &'static str;

    /// A statement which inserts the record without the fields marked as
    /// primary key, returning just those fields.
    fn insert_without_pk_return_pk() -> &'static str;

    /// A statement which retrieves all records of the table.
    fn retrieve_all() -> &'static str;

    /// A statement which retrieves the records matching the primary key.
    fn retrieve_by_pk() -> &'static str;

    /// A statement which deletes the records matching the primary key.
    fn delete_by_pk() -> &'static str;

    /// The name of the table for the record type.
    fn table_name() -> &'static str;
}

/// The fields of the list that carry a primary-key marker, in their
/// original relative order.
pub open spec fn pk_of(fields: Seq<FieldV>) -> Seq<FieldV> {
    fields.filter(|f: FieldV| f.is_primary_key())
}

/// The fields of the list that carry no primary-key marker, in their
/// original relative order.
pub open spec fn non_pk_of(fields: Seq<FieldV>) -> Seq<FieldV> {
    fields.filter(|f: FieldV| !f.is_primary_key())
}

/// A pushed field lands in the primary-key partition exactly when it
/// carries the marker; what was already in the partition stays, in order.
pub proof fn lemma_pk_of_push(fields: Seq<FieldV>, f: FieldV)
    ensures
        pk_of(fields.push(f)) == if f.is_primary_key() {
            pk_of(fields).push(f)
        } else {
            pk_of(fields)
        },
{
    reveal(Seq::filter);
    assert(fields.push(f).drop_last() =~= fields);
    assert(fields.push(f).last() == f);
}

/// A pushed field lands in the complement partition exactly when it does
/// not carry the marker; what was already in the partition stays, in order.
pub proof fn lemma_non_pk_of_push(fields: Seq<FieldV>, f: FieldV)
    ensures
        non_pk_of(fields.push(f)) == if !f.is_primary_key() {
            non_pk_of(fields).push(f)
        } else {
            non_pk_of(fields)
        },
{
    reveal(Seq::filter);
    assert(fields.push(f).drop_last() =~= fields);
    assert(fields.push(f).last() == f);
}

/// The two partitions cover the field list exactly: every field lands in
/// one of them, each partition holds only fields of its kind, and a
/// partition is empty only when no field of its kind exists.
pub proof fn lemma_partition_exact(fields: Seq<FieldV>)
    ensures
        pk_of(fields).len() + non_pk_of(fields).len() == fields.len(),
        forall|i: int| 0 <= i < pk_of(fields).len() ==> pk_of(fields)[i].is_primary_key(),
        forall|i: int|
            0 <= i < non_pk_of(fields).len() ==> !non_pk_of(fields)[i].is_primary_key(),
    decreases fields.len(),
{
    reveal(Seq::filter);
    if fields.len() > 0 {
        let prefix = fields.drop_last();
        lemma_partition_exact(prefix);
        lemma_pk_of_push(prefix, fields.last());
        lemma_non_pk_of_push(prefix, fields.last());
        assert(prefix.push(fields.last()) =~= fields);
    }
}

/// Splits the fields into those not carrying and those carrying a
/// primary-key marker, preserving the original relative order within each
/// partition.
pub fn partition_by_primary_key(all_fields: &Vec<Field>) -> (r: (Vec<Field>, Vec<Field>))
    ensures
        views_of(r.0@) == non_pk_of(views_of(all_fields@)),
        views_of(r.1@) == pk_of(views_of(all_fields@)),
{
    let mut not_pk: Vec<Field> = Vec::new();
    let mut pk: Vec<Field> = Vec::new();
    let mut i: usize = 0;
    proof {
        assert(views_of(all_fields@.take(0)) =~= Seq::empty());
        reveal(Seq::filter);
        assert(views_of(not_pk@) =~= Seq::empty());
        assert(views_of(pk@) =~= Seq::empty());
    }
    while i < all_fields.len()
        invariant
            i <= all_fields.len(),
            views_of(not_pk@) == non_pk_of(views_of(all_fields@.take(i as int))),
            views_of(pk@) == pk_of(views_of(all_fields@.take(i as int))),
        decreases all_fields.len() - i,
    {
        let f = all_fields[i].clone();
        let ghost prev_not_pk = not_pk@;
        let ghost prev_pk = pk@;
        if f.has_primary_key() {
            pk.push(f);
            proof {
                lemma_views_of_push(prev_pk, all_fields@[i as int]);
                assert(views_of(pk@) =~= views_of(prev_pk).push(all_fields@[i as int]@));
            }
        } else {
            not_pk.push(f);
            proof {
                lemma_views_of_push(prev_not_pk, all_fields@[i as int]);
                assert(views_of(not_pk@) =~= views_of(prev_not_pk).push(all_fields@[i as int]@));
            }
        }
        proof {
            lemma_pk_of_push(views_of(all_fields@.take(i as int)), all_fields@[i as int]@);
            lemma_non_pk_of_push(views_of(all_fields@.take(i as int)), all_fields@[i as int]@);
            assert(all_fields@.take(i + 1) =~= all_fields@.take(i as int).push(
                all_fields@[i as int],
            ));
            lemma_views_of_push(all_fields@.take(i as int), all_fields@[i as int]);
        }
        i += 1;
    }
    proof {
        assert(all_fields@.take(all_fields@.len() as int) =~= all_fields@);
    }
    (not_pk, pk)
}

/// The assembled, immutable output for one record type: the table name and
/// the six statement strings, each computed once. A statement whose builder
/// call fails is stored as the empty string.
pub struct Descriptor {
    pub table_name: String,
    pub insert: String,
    pub insert_without_pk: String,
    pub insert_without_pk_return_pk: String,
    pub retrieve_all: String,
    pub retrieve_by_pk: String,
    pub delete_by_pk: String,
}

/// The string of a successful builder call, or the empty string where the
/// call failed.
fn or_empty(o: Option<String>) -> (r: String)
    ensures
        r@ == match o {
            Some(s) => s@,
            None => Seq::<char>::empty(),
        },
{
    match o {
        Some(s) => s,
        None => String::new(),
    }
}

/// Assembles the descriptor of one record type: the fields are partitioned
/// by primary key and each of the six statements is built once. A statement
/// whose builder call fails (an empty field list) is stored as the empty
/// string, so that the unaffected statements remain usable.
pub fn create_queries(table_name: &str, all_fields: &Vec<Field>) -> (d: Descriptor)
    ensures
        d.table_name@ == table_name@,
        d.insert@ == if views_of(all_fields@).len() > 0 {
            insert_stmt(table_name@, views_of(all_fields@), Seq::<FieldV>::empty())
        } else {
            Seq::<char>::empty()
        },
        d.insert_without_pk@ == if non_pk_of(views_of(all_fields@)).len() > 0 {
            insert_stmt(table_name@, non_pk_of(views_of(all_fields@)), views_of(all_fields@))
        } else {
            Seq::<char>::empty()
        },
        d.insert_without_pk_return_pk@ == if non_pk_of(views_of(all_fields@)).len() > 0 {
            insert_stmt(table_name@, non_pk_of(views_of(all_fields@)), pk_of(views_of(all_fields@)))
        } else {
            Seq::<char>::empty()
        },
        d.retrieve_all@ == retrieve_stmt(table_name@),
        d.retrieve_by_pk@ == retrieve_where_stmt(table_name@, pk_of(views_of(all_fields@))),
        d.delete_by_pk@ == delete_where_stmt(table_name@, pk_of(views_of(all_fields@))),
{
    let (not_pk, pk) = partition_by_primary_key(all_fields);

    let fields_clone = all_fields.clone();
    proof {
        lemma_cloned_fields_views(all_fields@, fields_clone@);
    }
    let builder = QueryBuilder::new().table_name(table_name).entity_attributes(fields_clone);

    let no_returns: Vec<Field> = Vec::new();
    proof {
        assert(views_of(no_returns@) =~= Seq::<FieldV>::empty());
    }
    let insert = or_empty(builder.build_insert(&no_returns));

    // From here on the builder holds just the fields that are not part of
    // the primary key.
    let builder = builder.entity_attributes(not_pk);

    let insert_without_pk = or_empty(builder.build_insert(all_fields));
    let insert_without_pk_return_pk = or_empty(builder.build_insert(&pk));
    let retrieve_all = or_empty(builder.build_retrieve());
    let retrieve_by_pk = or_empty(builder.build_retrieve_where(&pk));
    let delete_by_pk = or_empty(builder.build_delete_where(&pk));

    Descriptor {
        table_name: table_name.to_owned(),
        insert,
        insert_without_pk,
        insert_without_pk_return_pk,
        retrieve_all,
        retrieve_by_pk,
        delete_by_pk,
    }
}

/// The table name given by the first table attribute in the list, if any.
pub open spec fn spec_table_name(attrs: Seq<AttrV>) -> Option<Seq<char>>
    decreases attrs.len(),
{
    if attrs.len() == 0 {
        None
    } else {
        match attrs[0] {
            AttrV::Table { table_name } => Some(table_name),
            _ => spec_table_name(attrs.drop_first()),
        }
    }
}

/// The identifier type given by the first identifier attribute in the
/// list, if any.
pub open spec fn spec_identifier(attrs: Seq<AttrV>) -> Option<Seq<char>>
    decreases attrs.len(),
{
    if attrs.len() == 0 {
        None
    } else {
        match attrs[0] {
            AttrV::Identifier { ident_type } => Some(ident_type),
            _ => spec_identifier(attrs.drop_first()),
        }
    }
}

/// Skipping a prefix without a table attribute keeps the first table name.
proof fn lemma_spec_table_name_skip(attrs: Seq<AttrV>, i: int)
    requires
        0 <= i < attrs.len(),
        !(attrs[i] is Table),
        spec_table_name(attrs) == spec_table_name(attrs.skip(i)),
    ensures
        spec_table_name(attrs) == spec_table_name(attrs.skip(i + 1)),
{
    assert(attrs.skip(i).drop_first() =~= attrs.skip(i + 1));
    assert(attrs.skip(i)[0] == attrs[i]);
}

/// Skipping a prefix without an identifier attribute keeps the first
/// identifier type.
proof fn lemma_spec_identifier_skip(attrs: Seq<AttrV>, i: int)
    requires
        0 <= i < attrs.len(),
        !(attrs[i] is Identifier),
        spec_identifier(attrs) == spec_identifier(attrs.skip(i)),
    ensures
        spec_identifier(attrs) == spec_identifier(attrs.skip(i + 1)),
{
    assert(attrs.skip(i).drop_first() =~= attrs.skip(i + 1));
    assert(attrs.skip(i)[0] == attrs[i]);
}

/// The name of the table from the attributes of a record type: the first
/// table attribute wins.
pub fn parse_table_name(attrs: &Vec<Attribute>) -> (r: Option<String>)
    ensures
        match (r, spec_table_name(attrs@.map_values(|a: Attribute| a@))) {
            (Some(s), Some(t)) => s@ == t,
            (None, None) => true,
            _ => false,
        },
{
    let ghost view_attrs = attrs@.map_values(|a: Attribute| a@);
    proof {
        assert(view_attrs.skip(0) =~= view_attrs);
    }
    let mut i: usize = 0;
    while i < attrs.len()
        invariant
            i <= attrs.len(),
            view_attrs == attrs@.map_values(|a: Attribute| a@),
            spec_table_name(view_attrs) == spec_table_name(view_attrs.skip(i as int)),
        decreases attrs.len() - i,
    {
        match &attrs[i] {
            Attribute::Table { table_name } => {
                proof {
                    assert(view_attrs.skip(i as int)[0] == view_attrs[i as int]);
                }
                return Some(table_name.clone());
            },
            _ => {
                proof {
                    lemma_spec_table_name_skip(view_attrs, i as int);
                }
            },
        }
        i += 1;
    }
    proof {
        assert(view_attrs.skip(view_attrs.len() as int) =~= Seq::empty());
    }
    None
}

/// The identifier type from the attributes of a record type: the first
/// identifier attribute wins.
pub fn parse_identifier(attrs: &Vec<Attribute>) -> (r: Option<String>)
    ensures
        match (r, spec_identifier(attrs@.map_values(|a: Attribute| a@))) {
            (Some(s), Some(t)) => s@ == t,
            (None, None) => true,
            _ => false,
        },
{
    let ghost view_attrs = attrs@.map_values(|a: Attribute| a@);
    proof {
        assert(view_attrs.skip(0) =~= view_attrs);
    }
    let mut i: usize = 0;
    while i < attrs.len()
        invariant
            i <= attrs.len(),
            view_attrs == attrs@.map_values(|a: Attribute| a@),
            spec_identifier(view_attrs) == spec_identifier(view_attrs.skip(i as int)),
        decreases attrs.len() - i,
    {
        match &attrs[i] {
            Attribute::Identifier { ident_type } => {
                proof {
                    assert(view_attrs.skip(i as int)[0] == view_attrs[i as int]);
                }
                return Some(ident_type.clone());
            },
            _ => {
                proof {
                    lemma_spec_identifier_skip(view_attrs, i as int);
                }
            },
        }
        i += 1;
    }
    proof {
        assert(view_attrs.skip(view_attrs.len() as int) =~= Seq::empty());
    }
    None
}

} // verus!
