//! Named strings: the fields of a query string, of a form or of a flat JSON
//! object, and what can be said of a list of them.

use vstd::prelude::*;

verus! {

/// A name and a value as they appear in a query string or a body.
pub type Pair = (Seq<char>, Seq<char>);

/// One named string of a query string or of a flat body.
#[derive(Debug, Clone, PartialEq, Eq)]
pub struct Field {
    pub name: String,
    pub value: String,
}

impl View for Field {
    type V = Pair;

    open spec fn view(&self) -> Pair {
        (self.name@, self.value@)
    }
}

impl Field {
    /// A field with the given name and value.
    pub fn new(name: &str, value: &str) -> (field: Field)
        ensures
            field@ == (name@, value@),
    {
        Field { name: name.to_owned(), value: value.to_owned() }
    }
}

/// The names and values of a list of fields, in the list's order.
pub open spec fn fields_view(fields: Seq<Field>) -> Seq<Pair> {
    Seq::new(fields.len(), |i: int| fields[i]@)
}

/// Whether some pair of `pairs` is named `name`.
pub open spec fn has_name(pairs: Seq<Pair>, name: Seq<char>) -> bool {
    exists|i: int| 0 <= i < pairs.len() && (#[trigger] pairs[i]).0 == name
}

/// Whether no two pairs of `pairs` have the same name.
pub open spec fn distinct_names(pairs: Seq<Pair>) -> bool {
    forall|i: int, j: int|
        0 <= i < j < pairs.len() ==> (#[trigger] pairs[i]).0 != (#[trigger] pairs[j]).0
}

/// The value under `name` in `pairs`, where one pair has that name; `None` where
/// none has. Where names are distinct, at most one pair has it.
pub open spec fn value_of(pairs: Seq<Pair>, name: Seq<char>) -> Option<Seq<char>> {
    if has_name(pairs, name) {
        Some(pairs[choose|i: int| 0 <= i < pairs.len() && (#[trigger] pairs[i]).0 == name].1)
    } else {
        None
    }
}

/// `pairs`, followed by the pair of `name` and the value where there is one.
pub open spec fn with_optional(pairs: Seq<Pair>, name: Seq<char>, value: Option<Seq<char>>) -> Seq<
    Pair,
> {
    match value {
        Some(v) => pairs.push((name, v)),
        None => pairs,
    }
}

/// The characters of a string that may be absent.
pub open spec fn text(value: Option<&str>) -> Option<Seq<char>> {
    match value {
        Some(s) => Some(s@),
        None => None,
    }
}

/// A pair under a new name, put at the end of pairs with distinct names, leaves
/// the names distinct, is the one pair under its name, and changes nothing
/// under any other name.
pub proof fn lemma_push_pair(pairs: Seq<Pair>, pair: Pair)
    requires
        distinct_names(pairs),
        !has_name(pairs, pair.0),
    ensures
        distinct_names(pairs.push(pair)),
        forall|name: Seq<char>| #[trigger]
            has_name(pairs.push(pair), name) <==> has_name(pairs, name) || name == pair.0,
        forall|name: Seq<char>| #[trigger]
            value_of(pairs.push(pair), name) == if name == pair.0 {
                Some(pair.1)
            } else {
                value_of(pairs, name)
            },
{
    let pushed = pairs.push(pair);
    let last = pairs.len() as int;
    assert forall|name: Seq<char>| #[trigger]
        has_name(pushed, name) <==> has_name(pairs, name) || name == pair.0 by {
        if has_name(pairs, name) {
            let i = choose|i: int| 0 <= i < pairs.len() && (#[trigger] pairs[i]).0 == name;
            assert(pushed[i].0 == name);
        }
        if name == pair.0 {
            assert(pushed[last].0 == name);
        }
    }
}

/// An optional pair under a new name, put at the end of pairs with distinct
/// names, leaves the names distinct; its name is found with its value exactly
/// when it has one, and nothing changes under any other name.
pub proof fn lemma_with_optional(pairs: Seq<Pair>, name: Seq<char>, value: Option<Seq<char>>)
    requires
        distinct_names(pairs),
        !has_name(pairs, name),
    ensures
        distinct_names(with_optional(pairs, name, value)),
        forall|other: Seq<char>| #[trigger]
            has_name(with_optional(pairs, name, value), other) <==> has_name(pairs, other) || (
            value is Some && other == name),
        forall|other: Seq<char>| #[trigger]
            value_of(with_optional(pairs, name, value), other) == if other == name {
                value
            } else {
                value_of(pairs, other)
            },
{
    match value {
        Some(v) => lemma_push_pair(pairs, (name, v)),
        None => {},
    }
}

/// Puts a field at the end of a list.
pub(crate) fn push_field(fields: &mut Vec<Field>, name: &str, value: &str)
    ensures
        fields_view(final(fields)@) == fields_view(old(fields)@).push((name@, value@)),
{
    fields.push(Field::new(name, value));
}

/// Puts a field at the end of a list where it has a value, and leaves the list
/// as it is where it has none.
pub(crate) fn push_optional(fields: &mut Vec<Field>, name: &str, value: Option<&str>)
    ensures
        fields_view(final(fields)@) == with_optional(fields_view(old(fields)@), name@, text(value)),
{
    match value {
        Some(v) => push_field(fields, name, v),
        None => {},
    }
}

/// Copies a list of fields.
pub(crate) fn copy_fields(fields: &Vec<Field>) -> (copy: Vec<Field>)
    ensures
        fields_view(copy@) == fields_view(fields@),
{
    let mut copy: Vec<Field> = Vec::new();
    let mut i: usize = 0;
    while i < fields.len()
        invariant
            i <= fields.len(),
            copy@.len() == i,
            forall|j: int| 0 <= j < i ==> (#[trigger] copy@[j])@ == fields@[j]@,
        decreases fields.len() - i,
    {
        copy.push(Field::new(fields[i].name.as_str(), fields[i].value.as_str()));
        i += 1;
    }
    copy
}

} // verus!
