//! The mathematical shapes of the generated SQL statements. Every statement
//! the builder produces is pinned, character for character, to one of the
//! functions below.

use vstd::prelude::*;

use crate::field::FieldV;
use crate::field::first_rename;
use crate::text::dec_str;
use crate::text::sep_join;

verus! {

/// The effective column names of the fields, in order.
pub open spec fn names_of(fields: Seq<FieldV>) -> Seq<Seq<char>> {
    fields.map_values(|f: FieldV| f.effective_name())
}

/// The effective name of a pushed field is pushed onto the name list.
pub proof fn lemma_names_of_push(fields: Seq<FieldV>, f: FieldV)
    ensures
        names_of(fields.push(f)) == names_of(fields).push(f.effective_name()),
{
    assert(names_of(fields.push(f)) =~= names_of(fields).push(f.effective_name()));
}

/// The positional placeholder token `$i`.
pub open spec fn placeholder(i: nat) -> Seq<char> {
    "$"@ + dec_str(i)
}

/// The placeholder tokens `$1`, ..., `$n`, in order.
pub open spec fn placeholder_tokens(n: nat) -> Seq<Seq<char>> {
    Seq::new(n, |i: int| placeholder((i + 1) as nat))
}

/// The token `<name> = $i` that equates a column with a placeholder.
pub open spec fn equals_token(f: FieldV, i: nat) -> Seq<char> {
    f.effective_name() + " = "@ + placeholder(i)
}

/// The equality tokens for the fields, with placeholders numbered from 1
/// in field order.
pub open spec fn equals_tokens(fields: Seq<FieldV>) -> Seq<Seq<char>> {
    Seq::new(fields.len(), |i: int| equals_token(fields[i], (i + 1) as nat))
}

/// The equality token of a pushed field is pushed onto the token list,
/// with the next placeholder number.
pub proof fn lemma_equals_tokens_push(fields: Seq<FieldV>, f: FieldV)
    ensures
        equals_tokens(fields.push(f)) == equals_tokens(fields).push(
            equals_token(f, (fields.len() + 1) as nat),
        ),
{
    assert(equals_tokens(fields.push(f)) =~= equals_tokens(fields).push(
        equals_token(f, (fields.len() + 1) as nat),
    ));
}

/// The `WHERE` clause that conjoins all the fields, empty when there are
/// no fields. Its placeholder numbering starts at 1, independent of any
/// other clause of the same statement.
pub open spec fn where_clause(fields: Seq<FieldV>) -> Seq<char> {
    if fields.len() == 0 {
        Seq::empty()
    } else {
        "WHERE "@ + sep_join(equals_tokens(fields), " AND "@)
    }
}

/// The `RETURNING` clause that lists the fields' effective names, empty
/// when there are no fields.
pub open spec fn returning_clause(return_fields: Seq<FieldV>) -> Seq<char> {
    if return_fields.len() == 0 {
        Seq::empty()
    } else {
        "RETURNING "@ + sep_join(names_of(return_fields), ", "@)
    }
}

/// The insert statement: every field's effective name in order, one
/// placeholder per field numbered from 1, and the returning clause for
/// `return_fields` (empty when `return_fields` is empty).
pub open spec fn insert_stmt(table: Seq<char>, fields: Seq<FieldV>, return_fields: Seq<FieldV>) -> Seq<
    char,
> {
    "INSERT INTO "@ + table + " ("@ + sep_join(names_of(fields), ", "@) + ") VALUES ("@ + sep_join(
        placeholder_tokens(fields.len()),
        ", "@,
    ) + ") "@ + returning_clause(return_fields) + ";"@
}

/// The insert statement up to and including the closing parenthesis of its
/// placeholder list: everything before the returning clause.
pub open spec fn insert_stem(table: Seq<char>, fields: Seq<FieldV>) -> Seq<char> {
    "INSERT INTO "@ + table + " ("@ + sep_join(names_of(fields), ", "@) + ") VALUES ("@ + sep_join(
        placeholder_tokens(fields.len()),
        ", "@,
    ) + ") "@
}

/// The retrieve statement without a filter.
pub open spec fn retrieve_stmt(table: Seq<char>) -> Seq<char> {
    "SELECT * FROM "@ + table + ";"@
}

/// The retrieve statement filtered by the given fields.
pub open spec fn retrieve_where_stmt(table: Seq<char>, where_fields: Seq<FieldV>) -> Seq<char> {
    "SELECT * FROM "@ + table + " "@ + where_clause(where_fields) + ";"@
}

/// The delete statement filtered by the given fields.
pub open spec fn delete_where_stmt(table: Seq<char>, where_fields: Seq<FieldV>) -> Seq<char> {
    "DELETE FROM "@ + table + " "@ + where_clause(where_fields) + ";"@
}

/// The update statement. The `SET` clause numbers its placeholders from 1,
/// and the `WHERE` clause restarts its own numbering at 1: the two
/// sequences are deliberately independent, and a caller binding values
/// must follow exactly this numbering.
pub open spec fn update_stmt(table: Seq<char>, set: Seq<FieldV>, where_fields: Seq<FieldV>) -> Seq<
    char,
> {
    "UPDATE "@ + table + " SET "@ + sep_join(equals_tokens(set), ", "@) + " "@ + where_clause(
        where_fields,
    ) + ";"@
}

/// An insert statement built from a non-empty field list holds exactly one
/// column name per field — the effective names, in field order — and
/// exactly one placeholder per field, numbered `$1` to `$n` in order.
pub proof fn lemma_insert_placeholders_and_columns(table: Seq<char>, fields: Seq<FieldV>)
    requires
        fields.len() > 0,
    ensures
        names_of(fields).len() == fields.len(),
        forall|i: int| 0 <= i < fields.len() ==> names_of(fields)[i] == fields[i].effective_name(),
        placeholder_tokens(fields.len()).len() == fields.len(),
        forall|i: int|
            0 <= i < fields.len() ==> placeholder_tokens(fields.len())[i] == "$"@ + dec_str(
                (i + 1) as nat,
            ),
        insert_stmt(table, fields, Seq::<FieldV>::empty()) == insert_stem(table, fields) + ";"@,
{
    assert(insert_stmt(table, fields, Seq::<FieldV>::empty()) =~= insert_stem(table, fields)
        + ";"@);
}

/// An insert statement with a non-empty returning list ends with a
/// `RETURNING` clause listing the returned fields' effective names in
/// order, separated by `, `; with an empty returning list the statement is
/// the bare stem and holds no returning clause at all.
pub proof fn lemma_insert_returning(
    table: Seq<char>,
    fields: Seq<FieldV>,
    return_fields: Seq<FieldV>,
)
    ensures
        return_fields.len() == 0 ==> insert_stmt(table, fields, return_fields) == insert_stem(
            table,
            fields,
        ) + ";"@,
        return_fields.len() > 0 ==> insert_stmt(table, fields, return_fields) == insert_stem(
            table,
            fields,
        ) + "RETURNING "@ + sep_join(names_of(return_fields), ", "@) + ";"@,
        names_of(return_fields).len() == return_fields.len(),
        forall|i: int|
            0 <= i < return_fields.len() ==> names_of(return_fields)[i]
                == return_fields[i].effective_name(),
{
    if return_fields.len() == 0 {
        assert(insert_stmt(table, fields, return_fields) =~= insert_stem(table, fields) + ";"@);
    } else {
        assert(insert_stmt(table, fields, return_fields) =~= insert_stem(table, fields)
            + "RETURNING "@ + sep_join(names_of(return_fields), ", "@) + ";"@);
    }
}

/// A retrieve filtered by no fields carries an empty `WHERE` clause: the
/// statement is the table selection alone.
pub proof fn lemma_retrieve_where_empty(table: Seq<char>)
    ensures
        where_clause(Seq::<FieldV>::empty()) == Seq::<char>::empty(),
        retrieve_where_stmt(table, Seq::<FieldV>::empty()) == "SELECT * FROM "@ + table + " "@
            + ";"@,
{
    assert(retrieve_where_stmt(table, Seq::<FieldV>::empty()) =~= "SELECT * FROM "@ + table + " "@
        + ";"@);
}

/// A retrieve filtered by a single field equates that field's effective
/// name with the placeholder `$1`.
pub proof fn lemma_retrieve_where_single(table: Seq<char>, f: FieldV)
    ensures
        retrieve_where_stmt(table, seq![f]) == "SELECT * FROM "@ + table + " "@ + "WHERE "@
            + f.effective_name() + " = "@ + "$"@ + "1"@ + ";"@,
{
    reveal_strlit("1");
    assert(dec_str(1) =~= "1"@);
    assert(equals_tokens(seq![f])[0] == equals_token(f, 1));
    assert(sep_join(equals_tokens(seq![f]), " AND "@) == equals_token(f, 1));
    assert(retrieve_where_stmt(table, seq![f]) =~= "SELECT * FROM "@ + table + " "@ + "WHERE "@
        + f.effective_name() + " = "@ + "$"@ + "1"@ + ";"@);
}

/// In an update statement the `SET` clause numbers its placeholders from
/// 1 and the `WHERE` clause restarts its own numbering at 1: with two set
/// fields and one filter field, the filter's placeholder is `$1` again,
/// not `$3`.
pub proof fn lemma_update_independent_numbering(
    table: Seq<char>,
    a: FieldV,
    b: FieldV,
    c: FieldV,
)
    ensures
        update_stmt(table, seq![a, b], seq![c]) == "UPDATE "@ + table + " SET "@
            + a.effective_name() + " = "@ + "$"@ + "1"@ + ", "@ + b.effective_name() + " = "@
            + "$"@ + "2"@ + " "@ + "WHERE "@ + c.effective_name() + " = "@ + "$"@ + "1"@ + ";"@,
{
    reveal_strlit("1");
    reveal_strlit("2");
    assert(dec_str(1) =~= "1"@);
    assert(dec_str(2) =~= "2"@);
    let set_tokens = equals_tokens(seq![a, b]);
    assert(set_tokens[0] == equals_token(a, 1));
    assert(set_tokens[1] == equals_token(b, 2));
    assert(set_tokens.drop_first() =~= seq![equals_token(b, 2)]);
    assert(sep_join(seq![equals_token(b, 2)], ", "@) == equals_token(b, 2));
    assert(sep_join(set_tokens, ", "@) == equals_token(a, 1) + ", "@ + equals_token(b, 2));
    assert(equals_tokens(seq![c])[0] == equals_token(c, 1));
    assert(sep_join(equals_tokens(seq![c]), " AND "@) == equals_token(c, 1));
    assert(update_stmt(table, seq![a, b], seq![c]) =~= "UPDATE "@ + table + " SET "@
        + a.effective_name() + " = "@ + "$"@ + "1"@ + ", "@ + b.effective_name() + " = "@ + "$"@
        + "2"@ + " "@ + "WHERE "@ + c.effective_name() + " = "@ + "$"@ + "1"@ + ";"@);
}

/// A field that carries a rename always renders as the renamed name —
/// the first rename in its attribute list — never as its identifier: the
/// effective name does not depend on the identifier at all.
pub proof fn lemma_rename_overrides(f: FieldV, g: FieldV)
    requires
        f.attributes == g.attributes,
        first_rename(f.attributes) is Some,
    ensures
        f.effective_name() == first_rename(f.attributes)->0,
        f.effective_name() == g.effective_name(),
{
}

/// Every generated statement depends on its fields only through their
/// effective names: field lists with equal effective names, and returning
/// lists with equal effective names, yield identical statements.
pub proof fn lemma_statements_use_effective_names_only(
    table: Seq<char>,
    f1: Seq<FieldV>,
    f2: Seq<FieldV>,
    r1: Seq<FieldV>,
    r2: Seq<FieldV>,
)
    requires
        names_of(f1) == names_of(f2),
        names_of(r1) == names_of(r2),
    ensures
        insert_stmt(table, f1, r1) == insert_stmt(table, f2, r2),
        retrieve_where_stmt(table, f1) == retrieve_where_stmt(table, f2),
        delete_where_stmt(table, f1) == delete_where_stmt(table, f2),
        update_stmt(table, f1, r1) == update_stmt(table, f2, r2),
{
    assert(f1.len() == names_of(f1).len());
    assert(f2.len() == names_of(f2).len());
    assert(r1.len() == names_of(r1).len());
    assert(r2.len() == names_of(r2).len());
    assert forall|i: int| 0 <= i < f1.len() implies equals_tokens(f1)[i] == equals_tokens(f2)[i] by {
        assert(names_of(f1)[i] == f1[i].effective_name());
        assert(names_of(f2)[i] == f2[i].effective_name());
    }
    assert(equals_tokens(f1) =~= equals_tokens(f2));
    assert forall|i: int| 0 <= i < r1.len() implies equals_tokens(r1)[i] == equals_tokens(r2)[i] by {
        assert(names_of(r1)[i] == r1[i].effective_name());
        assert(names_of(r2)[i] == r2[i].effective_name());
    }
    assert(equals_tokens(r1) =~= equals_tokens(r2));
}

} // verus!
