use sqlx_extension::attribute::Attribute;
use sqlx_extension::field::Field;
use sqlx_extension::sample::Test;
use sqlx_extension::sql_describe::SqlDescribe;
use sqlx_extension::sql_describe::create_queries;
use sqlx_extension::sql_describe::partition_by_primary_key;

fn field(name: &str) -> Field {
    Field { identifier: name.to_string(), attributes: vec![] }
}

fn renamed(name: &str, new_name: &str) -> Field {
    Field {
        identifier: name.to_string(),
        attributes: vec![Attribute::Rename { new_name: new_name.to_string() }],
    }
}

fn pk_field(name: &str) -> Field {
    Field { identifier: name.to_string(), attributes: vec![Attribute::PrimaryKey] }
}

#[test]
fn partition_keeps_relative_order() {
    let fields = vec![pk_field("a"), field("b"), pk_field("c"), field("d")];
    let (not_pk, pk) = partition_by_primary_key(&fields);
    let not_pk_names: Vec<String> = not_pk.iter().map(|f| f.name().to_string()).collect();
    let pk_names: Vec<String> = pk.iter().map(|f| f.name().to_string()).collect();
    assert_eq!(not_pk_names, vec!["b", "d"]);
    assert_eq!(pk_names, vec!["a", "c"]);
}

#[test]
fn descriptor_partitions_by_primary_key() {
    let fields = vec![pk_field("a"), field("b"), pk_field("c")];
    let d = create_queries("t", &fields);
    assert_eq!(d.insert, "INSERT INTO t (a, b, c) VALUES ($1, $2, $3) ;");
    assert_eq!(d.insert_without_pk, "INSERT INTO t (b) VALUES ($1) RETURNING a, b, c;");
    assert_eq!(d.insert_without_pk_return_pk, "INSERT INTO t (b) VALUES ($1) RETURNING a, c;");
    assert_eq!(d.retrieve_all, "SELECT * FROM t;");
    assert_eq!(d.retrieve_by_pk, "SELECT * FROM t WHERE a = $1 AND c = $2;");
    assert_eq!(d.delete_by_pk, "DELETE FROM t WHERE a = $1 AND c = $2;");
    assert_eq!(d.table_name, "t");
}

#[test]
fn descriptor_for_users_table() {
    let fields = vec![pk_field("id"), renamed("name", "full_name")];
    let d = create_queries("users", &fields);
    assert_eq!(d.insert, "INSERT INTO users (id, full_name) VALUES ($1, $2) ;");
    assert_eq!(d.retrieve_by_pk, "SELECT * FROM users WHERE id = $1;");
    assert_eq!(d.delete_by_pk, "DELETE FROM users WHERE id = $1;");
}

#[test]
fn descriptor_without_primary_key() {
    let fields = vec![field("a"), field("b")];
    let d = create_queries("t", &fields);
    assert_eq!(d.insert, "INSERT INTO t (a, b) VALUES ($1, $2) ;");
    assert_eq!(d.insert_without_pk, "INSERT INTO t (a, b) VALUES ($1, $2) RETURNING a, b;");
    assert_eq!(d.insert_without_pk_return_pk, "INSERT INTO t (a, b) VALUES ($1, $2) ;");
    assert_eq!(d.retrieve_by_pk, "SELECT * FROM t ;");
    assert_eq!(d.delete_by_pk, "DELETE FROM t ;");
}

#[test]
fn descriptor_with_only_primary_keys() {
    let fields = vec![pk_field("a"), pk_field("b")];
    let d = create_queries("t", &fields);
    assert_eq!(d.insert, "INSERT INTO t (a, b) VALUES ($1, $2) ;");
    assert_eq!(d.insert_without_pk, "");
    assert_eq!(d.insert_without_pk_return_pk, "");
    assert_eq!(d.retrieve_by_pk, "SELECT * FROM t WHERE a = $1 AND b = $2;");
}

#[test]
fn descriptor_with_no_fields() {
    let fields: Vec<Field> = vec![];
    let d = create_queries("t", &fields);
    assert_eq!(d.insert, "");
    assert_eq!(d.insert_without_pk, "");
    assert_eq!(d.insert_without_pk_return_pk, "");
    assert_eq!(d.retrieve_all, "SELECT * FROM t;");
    assert_eq!(d.retrieve_by_pk, "SELECT * FROM t ;");
    assert_eq!(d.delete_by_pk, "DELETE FROM t ;");
}

#[test]
fn sample_statements_match_descriptor_assembly() {
    let d = create_queries(<Test as SqlDescribe>::table_name(), &Test::fields());
    assert_eq!(d.insert, <Test as SqlDescribe>::insert());
    assert_eq!(d.insert_without_pk, <Test as SqlDescribe>::insert_without_pk());
    assert_eq!(
        d.insert_without_pk_return_pk,
        <Test as SqlDescribe>::insert_without_pk_return_pk()
    );
    assert_eq!(d.retrieve_all, <Test as SqlDescribe>::retrieve_all());
    assert_eq!(d.retrieve_by_pk, <Test as SqlDescribe>::retrieve_by_pk());
    assert_eq!(d.delete_by_pk, <Test as SqlDescribe>::delete_by_pk());
}
