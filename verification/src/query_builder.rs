//! The statement builder: a table name plus an ordered field list, from
//! which the canonical statement strings are produced. Every successful
//! result is pinned to the corresponding shape in [`crate::statements`].

use vstd::prelude::*;
use vstd::string::StringExecFns;

use crate::field::Field;
use crate::field::FieldV;
use crate::field::views_of;
use crate::statements::delete_where_stmt;
use crate::statements::equals_token;
use crate::statements::equals_tokens;
use crate::statements::insert_stmt;
use crate::statements::names_of;
use crate::statements::placeholder;
use crate::statements::placeholder_tokens;
use crate::statements::retrieve_stmt;
use crate::statements::retrieve_where_stmt;
use crate::statements::update_stmt;
use crate::statements::where_clause;
use crate::field::lemma_views_of_push;
use crate::statements::lemma_equals_tokens_push;
use crate::statements::lemma_names_of_push;
use crate::text::join_with;
use crate::text::lemma_seq_views_push;
use crate::text::seq_views;
use crate::text::sep_join;
use crate::text::usize_to_string;

verus! {

/// A builder for the statement strings of one record type.
pub struct QueryBuilder {
    /// The name of the table, once set.
    pub table_name: Option<String>,
    /// The ordered fields of the record type, once set.
    pub entity_fields: Option<Vec<Field>>,
}

/// The mathematical value of a [`QueryBuilder`].
pub struct QueryBuilderV {
    pub table_name: Option<Seq<char>>,
    pub entity_fields: Option<Seq<FieldV>>,
}

impl View for QueryBuilder {
    type V = QueryBuilderV;

    open spec fn view(&self) -> QueryBuilderV {
        QueryBuilderV {
            table_name: match self.table_name {
                Some(t) => Some(t@),
                None => None,
            },
            entity_fields: match self.entity_fields {
                Some(f) => Some(views_of(f@)),
                None => None,
            },
        }
    }
}

impl Default for QueryBuilder {
    /// An empty builder, with neither a table name nor fields.
    fn default() -> (r: Self)
        ensures
            r@.table_name is None,
            r@.entity_fields is None,
    {
        QueryBuilder { table_name: None, entity_fields: None }
    }
}

impl QueryBuilder {
    /// An empty query builder.
    pub fn new() -> (r: Self)
        ensures
            r@.table_name is None,
            r@.entity_fields is None,
    {
        Self::default()
    }

    /// Sets the table name for the query builder.
    pub fn table_name(self, name: &str) -> (r: Self)
        ensures
            r@.table_name == Some(name@),
            r@.entity_fields == self@.entity_fields,
    {
        QueryBuilder { table_name: Some(name.to_owned()), entity_fields: self.entity_fields }
    }

    /// Sets the entity fields for the query builder.
    pub fn entity_attributes(self, entity_fields: Vec<Field>) -> (r: Self)
        ensures
            r@.table_name == self@.table_name,
            r@.entity_fields == Some(views_of(entity_fields@)),
    {
        QueryBuilder { table_name: self.table_name, entity_fields: Some(entity_fields) }
    }

    /// Builds an insert statement. The fields of the builder become the
    /// column list and one placeholder each; a non-empty `return_fields` list
    /// adds a `RETURNING` clause with those fields' effective names. Fails
    /// when the table name is absent or the field list is absent or empty.
    pub fn build_insert(&self, return_fields: &Vec<Field>) -> (r: Option<String>)
        ensures
            r is Some <==> (self@.table_name is Some && self@.entity_fields is Some
                && self@.entity_fields->0.len() > 0),
            r matches Some(s) ==> s@ == insert_stmt(
                self@.table_name->0,
                self@.entity_fields->0,
                views_of(return_fields@),
            ),
    {
        let table = match &self.table_name {
            Some(t) => t,
            None => {
                return None;
            },
        };
        let fields = match &self.entity_fields {
            Some(f) => f,
            None => {
                return None;
            },
        };
        if fields.len() == 0 {
            return None;
        }
        let names = Self::fields_to_names(fields);
        let placeholders = Self::get_n_placeholders(fields.len());
        let mut s = "INSERT INTO ".to_owned();
        s.append(table.as_str());
        s.append(" (");
        s.append(names.as_str());
        s.append(") VALUES (");
        s.append(placeholders.as_str());
        s.append(") ");
        if return_fields.len() > 0 {
            let return_names = Self::fields_to_names(return_fields);
            s.append("RETURNING ");
            s.append(return_names.as_str());
        }
        s.append(";");
        proof {
            assert(s@ =~= insert_stmt(
                self@.table_name->0,
                self@.entity_fields->0,
                views_of(return_fields@),
            ));
        }
        Some(s)
    }

    /// Builds a retrieve statement without a `WHERE` clause. Fails only
    /// when the table name is absent.
    pub fn build_retrieve(&self) -> (r: Option<String>)
        ensures
            r is Some <==> self@.table_name is Some,
            r matches Some(s) ==> s@ == retrieve_stmt(self@.table_name->0),
    {
        let table = match &self.table_name {
            Some(t) => t,
            None => {
                return None;
            },
        };
        let mut s = "SELECT * FROM ".to_owned();
        s.append(table.as_str());
        s.append(";");
        proof {
            assert(s@ =~= retrieve_stmt(self@.table_name->0));
        }
        Some(s)
    }

    /// Builds a retrieve statement whose `WHERE` clause conjoins all the
    /// given fields, numbering their placeholders from 1. Fails only when
    /// the table name is absent.
    pub fn build_retrieve_where(&self, where_fields: &Vec<Field>) -> (r: Option<String>)
        ensures
            r is Some <==> self@.table_name is Some,
            r matches Some(s) ==> s@ == retrieve_where_stmt(
                self@.table_name->0,
                views_of(where_fields@),
            ),
    {
        let table = match &self.table_name {
            Some(t) => t,
            None => {
                return None;
            },
        };
        let filter = Self::where_and_fields(where_fields);
        let mut s = "SELECT * FROM ".to_owned();
        s.append(table.as_str());
        s.append(" ");
        s.append(filter.as_str());
        s.append(";");
        proof {
            assert(s@ =~= retrieve_where_stmt(self@.table_name->0, views_of(where_fields@)));
        }
        Some(s)
    }

    /// Builds a delete statement whose `WHERE` clause conjoins all the
    /// given fields, numbering their placeholders from 1. Fails only when
    /// the table name is absent.
    pub fn build_delete_where(&self, where_fields: &Vec<Field>) -> (r: Option<String>)
        ensures
            r is Some <==> self@.table_name is Some,
            r matches Some(s) ==> s@ == delete_where_stmt(
                self@.table_name->0,
                views_of(where_fields@),
            ),
    {
        let table = match &self.table_name {
            Some(t) => t,
            None => {
                return None;
            },
        };
        let filter = Self::where_and_fields(where_fields);
        let mut s = "DELETE FROM ".to_owned();
        s.append(table.as_str());
        s.append(" ");
        s.append(filter.as_str());
        s.append(";");
        proof {
            assert(s@ =~= delete_where_stmt(self@.table_name->0, views_of(where_fields@)));
        }
        Some(s)
    }

    /// Builds an update statement: the first list gives the fields to set,
    /// the second the `WHERE` filter. The `SET` placeholders are numbered
    /// from 1, and the `WHERE` placeholders restart at 1. Fails when the
    /// table name is absent or the set list is empty.
    pub fn build_update(&self, set: &Vec<Field>, where_fields: &Vec<Field>) -> (r: Option<String>)
        ensures
            r is Some <==> (self@.table_name is Some && set@.len() > 0),
            r matches Some(s) ==> s@ == update_stmt(
                self@.table_name->0,
                views_of(set@),
                views_of(where_fields@),
            ),
    {
        if set.len() == 0 {
            return None;
        }
        let table = match &self.table_name {
            Some(t) => t,
            None => {
                return None;
            },
        };
        let set_tokens = Self::generate_equals_field(set);
        let set_par = join_with(&set_tokens, ", ");
        let filter = Self::where_and_fields(where_fields);
        let mut s = "UPDATE ".to_owned();
        s.append(table.as_str());
        s.append(" SET ");
        s.append(set_par.as_str());
        s.append(" ");
        s.append(filter.as_str());
        s.append(";");
        proof {
            assert(s@ =~= update_stmt(
                self@.table_name->0,
                views_of(set@),
                views_of(where_fields@),
            ));
        }
        Some(s)
    }

    /// The `WHERE` clause for the fields: empty for an empty list, else
    /// the equality tokens joined with `AND`.
    pub fn where_and_fields(where_fields: &Vec<Field>) -> (r: String)
        ensures
            r@ == where_clause(views_of(where_fields@)),
    {
        if where_fields.len() == 0 {
            String::new()
        } else {
            let tokens = Self::generate_equals_field(where_fields);
            let joined = join_with(&tokens, " AND ");
            let mut s = "WHERE ".to_owned();
            s.append(joined.as_str());
            s
        }
    }

    /// Maps each field to the token `<name> = $<index + 1>`.
    pub fn generate_equals_field(input: &Vec<Field>) -> (r: Vec<String>)
        ensures
            seq_views(r@) == equals_tokens(views_of(input@)),
    {
        let mut tokens: Vec<String> = Vec::new();
        let mut i: usize = 0;
        while i < input.len()
            invariant
                i <= input.len(),
                seq_views(tokens@) == equals_tokens(views_of(input@.take(i as int))),
            decreases input.len() - i,
        {
            let mut t = input[i].name();
            let number = usize_to_string(i + 1);
            t.append(" = ");
            t.append("$");
            t.append(number.as_str());
            proof {
                assert(t@ =~= equals_token(input@[i as int]@, (i + 1) as nat));
            }
            let ghost prev = tokens@;
            tokens.push(t);
            proof {
                lemma_seq_views_push(prev, t);
                lemma_equals_tokens_push(views_of(input@.take(i as int)), input@[i as int]@);
                assert(views_of(input@.take(i as int)).len() == i as int);
                assert(input@.take(i + 1) =~= input@.take(i as int).push(input@[i as int]));
                lemma_views_of_push(input@.take(i as int), input@[i as int]);
            }
            i += 1;
        }
        proof {
            assert(input@.take(input@.len() as int) =~= input@);
        }
        tokens
    }

    /// Maps the fields to their effective names, joined with `, `.
    pub fn fields_to_names(fields: &Vec<Field>) -> (r: String)
        ensures
            r@ == sep_join(names_of(views_of(fields@)), ", "@),
    {
        let mut names: Vec<String> = Vec::new();
        let mut i: usize = 0;
        while i < fields.len()
            invariant
                i <= fields.len(),
                seq_views(names@) == names_of(views_of(fields@.take(i as int))),
            decreases fields.len() - i,
        {
            let n = fields[i].name();
            let ghost prev = names@;
            names.push(n);
            proof {
                lemma_seq_views_push(prev, n);
                lemma_names_of_push(views_of(fields@.take(i as int)), fields@[i as int]@);
                assert(fields@.take(i + 1) =~= fields@.take(i as int).push(fields@[i as int]));
                lemma_views_of_push(fields@.take(i as int), fields@[i as int]);
            }
            i += 1;
        }
        proof {
            assert(fields@.take(fields@.len() as int) =~= fields@);
        }
        join_with(&names, ", ")
    }

    /// The placeholder tokens `$1`, ..., `$n`, joined with `, `.
    pub fn get_n_placeholders(n: usize) -> (r: String)
        ensures
            r@ == sep_join(placeholder_tokens(n as nat), ", "@),
    {
        let mut tokens: Vec<String> = Vec::new();
        let mut i: usize = 0;
        while i < n
            invariant
                i <= n,
                seq_views(tokens@) == placeholder_tokens(i as nat),
            decreases n - i,
        {
            let mut t = "$".to_owned();
            let number = usize_to_string(i + 1);
            t.append(number.as_str());
            proof {
                assert(t@ =~= placeholder((i + 1) as nat));
            }
            tokens.push(t);
            proof {
                assert(placeholder_tokens((i + 1) as nat) =~= placeholder_tokens(i as nat).push(
                    placeholder((i + 1) as nat),
                ));
                assert(seq_views(tokens@) =~= placeholder_tokens((i + 1) as nat));
            }
            i += 1;
        }
        join_with(&tokens, ", ")
    }
}

} // verus!
