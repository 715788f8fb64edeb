use sqlx_extension::attribute::Attribute;
use sqlx_extension::field::Field;
use sqlx_extension::query_builder::QueryBuilder;

fn field(name: &str) -> Field {
    Field { identifier: name.to_string(), attributes: vec![] }
}

fn renamed(name: &str, new_name: &str) -> Field {
    Field {
        identifier: name.to_string(),
        attributes: vec![Attribute::Rename { new_name: new_name.to_string() }],
    }
}

fn pk_field(name: &str) -> Field {
    Field { identifier: name.to_string(), attributes: vec![Attribute::PrimaryKey] }
}

#[test]
fn build_insert_basic() {
    let builder = QueryBuilder::new()
        .table_name("users")
        .entity_attributes(vec![field("id"), field("name")]);
    let sql = builder.build_insert(&vec![]).unwrap();
    assert_eq!(sql, "INSERT INTO users (id, name) VALUES ($1, $2) ;");
}

#[test]
fn build_insert_returning() {
    let builder = QueryBuilder::new()
        .table_name("users")
        .entity_attributes(vec![field("id"), field("name")]);
    let sql = builder.build_insert(&vec![field("id")]).unwrap();
    assert_eq!(sql, "INSERT INTO users (id, name) VALUES ($1, $2) RETURNING id;");
}

#[test]
fn build_insert_returning_several() {
    let builder = QueryBuilder::new().table_name("t").entity_attributes(vec![field("a")]);
    let sql = builder.build_insert(&vec![field("a"), field("b"), field("c")]).unwrap();
    assert_eq!(sql, "INSERT INTO t (a) VALUES ($1) RETURNING a, b, c;");
}

#[test]
fn build_insert_without_table_fails() {
    let builder = QueryBuilder::new().entity_attributes(vec![field("id")]);
    assert!(builder.build_insert(&vec![]).is_none());
}

#[test]
fn build_insert_without_fields_fails() {
    let builder = QueryBuilder::new().table_name("users");
    assert!(builder.build_insert(&vec![]).is_none());
}

#[test]
fn build_insert_with_empty_field_list_fails() {
    let builder = QueryBuilder::new().table_name("users").entity_attributes(vec![]);
    assert!(builder.build_insert(&vec![]).is_none());
}

#[test]
fn build_insert_two_digit_placeholders() {
    let names = ["a", "b", "c", "d", "e", "f", "g", "h", "i", "j", "k", "l"];
    let fields: Vec<Field> = names.iter().map(|n| field(n)).collect();
    let builder = QueryBuilder::new().table_name("wide").entity_attributes(fields);
    let sql = builder.build_insert(&vec![]).unwrap();
    assert_eq!(
        sql,
        "INSERT INTO wide (a, b, c, d, e, f, g, h, i, j, k, l) \
         VALUES ($1, $2, $3, $4, $5, $6, $7, $8, $9, $10, $11, $12) ;"
    );
}

#[test]
fn build_retrieve_basic() {
    let builder = QueryBuilder::new().table_name("users");
    assert_eq!(builder.build_retrieve().unwrap(), "SELECT * FROM users;");
}

#[test]
fn build_retrieve_without_table_fails() {
    let builder = QueryBuilder::new();
    assert!(builder.build_retrieve().is_none());
}

#[test]
fn build_retrieve_where_empty_filter() {
    let builder = QueryBuilder::new().table_name("users");
    assert_eq!(builder.build_retrieve_where(&vec![]).unwrap(), "SELECT * FROM users ;");
}

#[test]
fn build_retrieve_where_single_filter() {
    let builder = QueryBuilder::new().table_name("users");
    let sql = builder.build_retrieve_where(&vec![field("id")]).unwrap();
    assert_eq!(sql, "SELECT * FROM users WHERE id = $1;");
}

#[test]
fn build_retrieve_where_conjoins_filters() {
    let builder = QueryBuilder::new().table_name("users");
    let sql = builder.build_retrieve_where(&vec![field("id"), field("org")]).unwrap();
    assert_eq!(sql, "SELECT * FROM users WHERE id = $1 AND org = $2;");
}

#[test]
fn build_delete_where_basic() {
    let builder = QueryBuilder::new().table_name("users");
    let sql = builder.build_delete_where(&vec![field("id"), field("org")]).unwrap();
    assert_eq!(sql, "DELETE FROM users WHERE id = $1 AND org = $2;");
}

#[test]
fn build_delete_where_empty_filter() {
    let builder = QueryBuilder::new().table_name("users");
    assert_eq!(builder.build_delete_where(&vec![]).unwrap(), "DELETE FROM users ;");
}

#[test]
fn build_update_restarts_where_numbering() {
    let builder = QueryBuilder::new().table_name("t");
    let sql = builder
        .build_update(&vec![field("a"), field("b")], &vec![field("c")])
        .unwrap();
    assert_eq!(sql, "UPDATE t SET a = $1, b = $2 WHERE c = $1;");
}

#[test]
fn build_update_without_filter() {
    let builder = QueryBuilder::new().table_name("t");
    let sql = builder.build_update(&vec![field("a")], &vec![]).unwrap();
    assert_eq!(sql, "UPDATE t SET a = $1 ;");
}

#[test]
fn build_update_with_empty_set_fails() {
    let builder = QueryBuilder::new().table_name("t");
    assert!(builder.build_update(&vec![], &vec![field("c")]).is_none());
}

#[test]
fn build_update_without_table_fails() {
    let builder = QueryBuilder::new();
    assert!(builder.build_update(&vec![field("a")], &vec![]).is_none());
}

#[test]
fn renamed_field_renders_as_new_name_everywhere() {
    let fields = vec![renamed("x", "y"), field("z")];
    let builder = QueryBuilder::new().table_name("t").entity_attributes(fields);
    let insert = builder.build_insert(&vec![renamed("x", "y")]).unwrap();
    assert_eq!(insert, "INSERT INTO t (y, z) VALUES ($1, $2) RETURNING y;");
    assert!(!insert.contains('x'));
    let retrieve = builder.build_retrieve_where(&vec![renamed("x", "y")]).unwrap();
    assert_eq!(retrieve, "SELECT * FROM t WHERE y = $1;");
    let update = builder
        .build_update(&vec![renamed("x", "y")], &vec![renamed("x", "y")])
        .unwrap();
    assert_eq!(update, "UPDATE t SET y = $1 WHERE y = $1;");
    let delete = builder.build_delete_where(&vec![renamed("x", "y")]).unwrap();
    assert_eq!(delete, "DELETE FROM t WHERE y = $1;");
}

#[test]
fn first_rename_wins() {
    let f = Field {
        identifier: "x".to_string(),
        attributes: vec![
            Attribute::PrimaryKey,
            Attribute::Rename { new_name: "first".to_string() },
            Attribute::Rename { new_name: "second".to_string() },
        ],
    };
    assert_eq!(f.name(), "first");
}

#[test]
fn name_without_rename_is_identifier() {
    assert_eq!(field("plain").name(), "plain");
    assert_eq!(pk_field("keyed").name(), "keyed");
}

#[test]
fn has_primary_key_reports_marker() {
    assert!(pk_field("id").has_primary_key());
    assert!(!field("id").has_primary_key());
    assert!(!renamed("x", "y").has_primary_key());
}
