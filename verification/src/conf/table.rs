//! The generic key→value tree that the structured-text parser produces,
//! and the trusted boundary to that parser. The tree holds as plain values
//! everything the pipeline reads: strings, integers, booleans and nested
//! tables. Floats and datetimes can occur in a document but none of their
//! content is ever read, so only their kind is kept.

use vstd::prelude::*;

verus! {

/// One value of the parsed document tree. A table keeps its entries in the
/// order the parser handed them out.
pub enum Item {
    Str(String),
    Int(i64),
    Bool(bool),
    Table(Vec<(String, Item)>),
    Arr(Vec<Item>),
    Float,
    Datetime,
}

/// The kind of an item, worded as the text parser words it.
pub open spec fn spec_kind_str(v: Item) -> Seq<char> {
    match v {
        Item::Str(_) => "string"@,
        Item::Int(_) => "integer"@,
        Item::Bool(_) => "boolean"@,
        Item::Table(_) => "table"@,
        Item::Arr(_) => "array"@,
        Item::Float => "float"@,
        Item::Datetime => "datetime"@,
    }
}

/// The kind of an item, for error reports.
pub fn kind_str(v: &Item) -> (r: &'static str)
    ensures
        r@ == spec_kind_str(*v),
{
    match v {
        Item::Str(_) => "string",
        Item::Int(_) => "integer",
        Item::Bool(_) => "boolean",
        Item::Table(_) => "table",
        Item::Arr(_) => "array",
        Item::Float => "float",
        Item::Datetime => "datetime",
    }
}

/// The first entry of `fields` whose key reads `key`, if any.
pub open spec fn spec_lookup(fields: Seq<(String, Item)>, key: Seq<char>) -> Option<Item>
    decreases fields.len(),
{
    if fields.len() == 0 {
        None
    } else if fields[0].0@ == key {
        Some(fields[0].1)
    } else {
        spec_lookup(fields.drop_first(), key)
    }
}

/// Looks a key up in a table's entries, first match winning.
pub fn lookup<'a>(fields: &'a Vec<(String, Item)>, key: &str) -> (r: Option<&'a Item>)
    ensures
        match r {
            Some(it) => spec_lookup(fields@, key@) == Some(*it),
            None => spec_lookup(fields@, key@) is None,
        },
{
    let n = fields.len();
    proof {
        assert(fields@.skip(0int) =~= fields@);
    }
    let mut i: usize = 0;
    while i < n
        invariant
            i <= n,
            n == fields@.len(),
            spec_lookup(fields@, key@) == spec_lookup(fields@.skip(i as int), key@),
        decreases n - i,
    {
        proof {
            assert(fields@.skip(i as int)[0] == fields@[i as int]);
            assert(fields@.skip(i as int).drop_first() =~= fields@.skip(i as int + 1));
        }
        if crate::text::str_eq(fields[i].0.as_str(), key) {
            return Some(&fields[i].1);
        }
        i += 1;
    }
    proof {
        assert(fields@.skip(n as int) =~= Seq::<(String, Item)>::empty());
    }
    None
}

/// The structured-text parser's value type, declared so that its values
/// can pass through this crate's trusted boundary; nothing of a value is
/// read here.
#[verifier::external_type_specification]
#[verifier::external_body]
pub struct ExValue(toml::Value);

/// What the structured-text parser makes of a document: either the parsed
/// tree or the parser's own message. The outcome is a function of the text
/// alone.
pub uninterp spec fn toml_tree(text: Seq<char>) -> Result<Item, Seq<char>>;

/// Relies on `toml::Value`: its seven variants are told apart one for one,
/// each moved into the matching `Item` variant; a float's or datetime's
/// content is dropped, only its kind being kept.
#[verifier::external_body]
fn value_to_item(v: toml::Value) -> Item {
    match v {
        toml::Value::String(s) => Item::Str(s),
        toml::Value::Integer(i) => Item::Int(i),
        toml::Value::Float(_) => Item::Float,
        toml::Value::Boolean(b) => Item::Bool(b),
        toml::Value::Datetime(_) => Item::Datetime,
        toml::Value::Array(a) => Item::Arr(a.into_iter().map(value_to_item).collect()),
        toml::Value::Table(t) => Item::Table(
            t.into_iter().map(|(k, val)| (k, value_to_item(val))).collect(),
        ),
    }
}

/// Relies on `str::parse::<toml::Value>`: parsing a TOML document yields
/// its value tree or a parse error, deterministically in the text; the
/// error's message is its `Display` rendering.
#[verifier::external_body]
pub(crate) fn parse_toml_text(text: &str) -> (r: Result<Item, String>)
    ensures
        match r {
            Ok(it) => toml_tree(text@) == Ok::<Item, Seq<char>>(it),
            Err(msg) => (toml_tree(text@) matches Err(m) && msg@ == m),
        },
{
    match text.parse::<toml::Value>() {
        Ok(v) => Ok(value_to_item(v)),
        Err(e) => Err(e.to_string()),
    }
}

} // verus!
