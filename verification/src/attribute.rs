//! Attributes attached to a record type or to one of its fields, and the
//! mapping from raw (name, value) annotations to the known attribute kinds.

use vstd::prelude::*;
use vstd::string::StrSliceExecFns;
use vstd::string::StringExecFns;

verus! {

/// An attribute on a field or on the owning record type.
#[derive(Debug)]
pub enum Attribute {
    /// Overrides the SQL column name of a field.
    Rename { new_name: String },
    /// Names the SQL table of the record type.
    Table { table_name: String },
    /// Marks a field as part of the primary key.
    PrimaryKey,
    /// Names the type that represents the tuple of primary-key values
    /// returned from an insert.
    Identifier { ident_type: String },
}

/// The mathematical value of an [`Attribute`]: the same variants with
/// payloads as character sequences.
pub enum AttrV {
    Rename { new_name: Seq<char> },
    Table { table_name: Seq<char> },
    PrimaryKey,
    Identifier { ident_type: Seq<char> },
}

impl View for Attribute {
    type V = AttrV;

    open spec fn view(&self) -> AttrV {
        match self {
            Attribute::Rename { new_name } => AttrV::Rename { new_name: new_name@ },
            Attribute::Table { table_name } => AttrV::Table { table_name: table_name@ },
            Attribute::PrimaryKey => AttrV::PrimaryKey,
            Attribute::Identifier { ident_type } => AttrV::Identifier { ident_type: ident_type@ },
        }
    }
}

impl Clone for Attribute {
    fn clone(&self) -> (r: Self)
        ensures
            r@ == self@,
    {
        match self {
            Attribute::Rename { new_name } => Attribute::Rename { new_name: new_name.clone() },
            Attribute::Table { table_name } => Attribute::Table {
                table_name: table_name.clone(),
            },
            Attribute::PrimaryKey => Attribute::PrimaryKey,
            Attribute::Identifier { ident_type } => Attribute::Identifier {
                ident_type: ident_type.clone(),
            },
        }
    }
}

/// A raw attribute as it appears on an annotated source item, before it has
/// been recognised as one of the known attribute kinds.
#[derive(Debug)]
pub struct RawAttribute {
    /// The name of the attribute.
    pub name: String,
    /// The value of the attribute, if it carries one.
    pub value: Option<String>,
}

/// The mathematical value of a [`RawAttribute`].
pub struct RawAttrV {
    pub name: Seq<char>,
    pub value: Option<Seq<char>>,
}

impl View for RawAttribute {
    type V = RawAttrV;

    open spec fn view(&self) -> RawAttrV {
        RawAttrV {
            name: self.name@,
            value: match self.value {
                Some(v) => Some(v@),
                None => None,
            },
        }
    }
}

/// The characters of `s` with every double-quote character removed.
pub open spec fn without_quotes(s: Seq<char>) -> Seq<char> {
    s.filter(|c: char| c != '"')
}

/// Which attribute, if any, a raw annotation names. Unknown names are
/// rejected, so that the caller can ignore them; the value of an `ident`
/// annotation is kept with its quotes removed.
pub open spec fn spec_attr_of_raw(raw: RawAttrV) -> Result<AttrV, ()> {
    if raw.name == "rename"@ {
        Ok(AttrV::Rename { new_name: raw.value->0 })
    } else if raw.name == "p_key"@ {
        Ok(AttrV::PrimaryKey)
    } else if raw.name == "table"@ {
        Ok(AttrV::Table { table_name: raw.value->0 })
    } else if raw.name == "ident"@ {
        Ok(AttrV::Identifier { ident_type: without_quotes(raw.value->0) })
    } else {
        Err(())
    }
}

impl Attribute {
    /// Maps a raw attribute to its corresponding attribute, if the name
    /// matches one of the known kinds.
    pub fn try_from(value: RawAttribute) -> (r: Result<Attribute, ()>)
        requires
            value@.name == "rename"@ || value@.name == "table"@ || value@.name == "ident"@
                ==> value@.value is Some,
        ensures
            match (r, spec_attr_of_raw(value@)) {
                (Ok(a), Ok(v)) => a@ == v,
                (Err(e), Err(f)) => e == f,
                _ => false,
            },
    {
        if string_eq_lit(&value.name, "rename") {
            let new_name = match value.value {
                Some(v) => v,
                None => unreached(),
            };
            Ok(Attribute::Rename { new_name })
        } else if string_eq_lit(&value.name, "p_key") {
            Ok(Attribute::PrimaryKey)
        } else if string_eq_lit(&value.name, "table") {
            let table_name = match value.value {
                Some(v) => v,
                None => unreached(),
            };
            Ok(Attribute::Table { table_name })
        } else if string_eq_lit(&value.name, "ident") {
            let raw = match value.value {
                Some(v) => v,
                None => unreached(),
            };
            Ok(Attribute::Identifier { ident_type: strip_quotes(raw.as_str()) })
        } else {
            Err(())
        }
    }
}

/// Whether a string equals a literal, character for character.
fn string_eq_lit(s: &String, lit: &str) -> (r: bool)
    ensures
        r == (s@ == lit@),
{
    let other = lit.to_owned();
    *s == other
}

/// Removing quotes from one more character keeps the character exactly when
/// it is not a double quote.
proof fn lemma_without_quotes_push(s: Seq<char>, x: char)
    ensures
        without_quotes(s.push(x)) == if x != '"' {
            without_quotes(s).push(x)
        } else {
            without_quotes(s)
        },
{
    reveal(Seq::filter);
    assert(s.push(x).drop_last() =~= s);
    assert(s.push(x).last() == x);
}

/// The string with every double-quote character removed.
pub fn strip_quotes(s: &str) -> (r: String)
    ensures
        r@ == without_quotes(s@),
{
    let n = s.unicode_len();
    let mut r = String::new();
    let mut i: usize = 0;
    while i < n
        invariant
            n == s@.len(),
            i <= n,
            r@ == without_quotes(s@.take(i as int)),
        decreases n - i,
    {
        let c = s.get_char(i);
        if c != '"' {
            let piece = s.substring_char(i, i + 1);
            proof {
                assert(piece@ =~= seq![s@[i as int]]);
            }
            r.append(piece);
        }
        proof {
            lemma_without_quotes_push(s@.take(i as int), s@[i as int]);
            assert(s@.take(i + 1) =~= s@.take(i as int).push(s@[i as int]));
        }
        i += 1;
    }
    proof {
        assert(s@.take(n as int) =~= s@);
    }
    r
}

} // verus!
