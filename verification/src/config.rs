//! The parsed configuration tree the diff engine consumes.
//!
//! A manifest snapshot arrives already parsed into an order-preserving table
//! of string keys and [`ConfigValue`]s. The engine never sees manifest text;
//! callers parse it and hand over this tree.

use vstd::prelude::*;

verus! {

/// One value of a parsed configuration document: a string, a boolean, a
/// nested table, or some other scalar/array shape this engine never inspects.
pub enum ConfigValue {
    Str(String),
    Bool(bool),
    Table(Vec<(String, ConfigValue)>),
    Other,
}

/// First value bound to `key` in an order-preserving key/value sequence,
/// if any. Keys are unique in a well-formed document, so "first" is "the".
pub open spec fn spec_table_get(entries: Seq<(String, ConfigValue)>, key: Seq<char>) -> Option<
    ConfigValue,
>
    decreases entries.len(),
{
    if entries.len() == 0 {
        None
    } else if entries[0].0@ == key {
        Some(entries[0].1)
    } else {
        spec_table_get(entries.drop_first(), key)
    }
}

/// Relies on `<str as PartialEq>::eq`: string slices compare equal exactly
/// when their character sequences are equal.
#[verifier::external_body]
fn str_eq(a: &str, b: &str) -> (r: bool)
    ensures
        r == (a@ == b@),
{
    a == b
}

/// Looks up `key` in an order-preserving table, returning the first match.
pub fn table_get<'a>(entries: &'a Vec<(String, ConfigValue)>, key: &str) -> (r: Option<
    &'a ConfigValue,
>)
    ensures
        match r {
            Some(v) => spec_table_get(entries@, key@) == Some(*v),
            None => spec_table_get(entries@, key@) is None,
        },
{
    let n = entries.len();
    let mut i: usize = 0;
    proof {
        assert(entries@.skip(0) =~= entries@);
    }
    while i < n
        invariant
            i <= n,
            n == entries@.len(),
            spec_table_get(entries@, key@) == spec_table_get(entries@.skip(i as int), key@),
        decreases n - i,
    {
        proof {
            assert(entries@.skip(i as int)[0] == entries@[i as int]);
            assert(entries@.skip(i as int).drop_first() =~= entries@.skip(i + 1));
        }
        if str_eq(entries[i].0.as_str(), key) {
            return Some(&entries[i].1);
        }
        i = i + 1;
    }
    proof {
        assert(entries@.skip(n as int) =~= Seq::<(String, ConfigValue)>::empty());
    }
    None
}

/// The dependency table a manifest document contributes: its top-level
/// `dependencies` table first, else the workspace-level
/// `workspace.dependencies` table, else the empty table. A manifest with no
/// dependency table is valid and simply contributes no outcomes.
pub open spec fn spec_deps_table(doc: Seq<(String, ConfigValue)>) -> Seq<(String, ConfigValue)> {
    match spec_table_get(doc, "dependencies"@) {
        Some(ConfigValue::Table(t)) => t@,
        _ => match spec_table_get(doc, "workspace"@) {
            Some(ConfigValue::Table(w)) => match spec_table_get(w@, "dependencies"@) {
                Some(ConfigValue::Table(t)) => t@,
                _ => Seq::empty(),
            },
            _ => Seq::empty(),
        },
    }
}

/// Locates the dependency table to compare; `None` stands for the empty
/// table.
pub fn get_deps_table<'a>(manifest: &'a Vec<(String, ConfigValue)>) -> (r: Option<
    &'a Vec<(String, ConfigValue)>,
>)
    ensures
        match r {
            Some(t) => t@ == spec_deps_table(manifest@),
            None => spec_deps_table(manifest@) == Seq::<(String, ConfigValue)>::empty(),
        },
{
    match table_get(manifest, "dependencies") {
        Some(ConfigValue::Table(t)) => Some(t),
        _ => match table_get(manifest, "workspace") {
            Some(ConfigValue::Table(w)) => match table_get(w, "dependencies") {
                Some(ConfigValue::Table(t)) => Some(t),
                _ => None,
            },
            _ => None,
        },
    }
}

} // verus!
