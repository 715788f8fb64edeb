//! A sample record type, described by hand exactly as generated code would
//! describe it: a primary-key field `name` and a field `test` renamed to
//! `newTest`, in table `test_table`.

use vstd::prelude::*;

use crate::attribute::AttrV;
use crate::attribute::Attribute;
use crate::field::Field;
use crate::sql_describe::SqlDescribe;

verus! {

/// A sample record type with a primary-key field and a renamed field.
#[derive(Debug)]
pub struct Test {
    pub name: String,
    pub test: String,
}

impl Test {
    /// The field description of the record type: `name` carries the
    /// primary-key marker, `test` is renamed to `newTest`.
    pub fn fields() -> (r: Vec<Field>)
        ensures
            r@.len() == 2,
            r@[0]@.identifier == "name"@,
            r@[0]@.attributes == seq![AttrV::PrimaryKey],
            r@[1]@.identifier == "test"@,
            r@[1]@.attributes == seq![AttrV::Rename { new_name: "newTest"@ }],
    {
        let mut name_attrs: Vec<Attribute> = Vec::new();
        name_attrs.push(Attribute::PrimaryKey);
        let name_field = Field { identifier: "name".to_owned(), attributes: name_attrs };

        let mut test_attrs: Vec<Attribute> = Vec::new();
        test_attrs.push(Attribute::Rename { new_name: "newTest".to_owned() });
        let test_field = Field { identifier: "test".to_owned(), attributes: test_attrs };

        let mut r: Vec<Field> = Vec::new();
        r.push(name_field);
        r.push(test_field);
        proof {
            assert(r@[0]@.attributes =~= seq![AttrV::PrimaryKey]);
            assert(r@[1]@.attributes =~= seq![AttrV::Rename { new_name: "newTest"@ }]);
        }
        r
    }
}

impl SqlDescribe for Test {
    fn insert() -> &'static str {
        "INSERT INTO test_table (name, newTest) VALUES ($1, $2) ;"
    }

    fn insert_without_pk() -> &'static str {
        "INSERT INTO test_table (newTest) VALUES ($1) RETURNING name, newTest;"
    }

    fn insert_without_pk_return_pk() -> &'static str {
        "INSERT INTO test_table (newTest) VALUES ($1) RETURNING name;"
    }

    fn retrieve_all() -> &'static str {
        "SELECT * FROM test_table;"
    }

    fn retrieve_by_pk() -> &'static str {
        "SELECT * FROM test_table WHERE name = $1;"
    }

    fn delete_by_pk() -> &'static str {
        "DELETE FROM test_table WHERE name = $1;"
    }

    fn table_name() -> &'static str {
        "test_table"
    }
}

} // verus!
