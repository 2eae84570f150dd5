//! The mathematical model of a resource's attributes.

use vstd::prelude::*;

verus! {

/// What an attribute value is, as far as this library produces them.
pub enum AttributeModel {
    /// A signed 64-bit integer.
    Int(i64),
    /// An ordered array of strings.
    Strings(Seq<Seq<char>>),
}

/// Inserts string-array attributes in order; a later pair replaces an earlier
/// one with the same key.
pub open spec fn with_string_arrays(
    m: Map<Seq<char>, AttributeModel>,
    pairs: Seq<(Seq<char>, Seq<Seq<char>>)>,
) -> Map<Seq<char>, AttributeModel>
    decreases pairs.len(),
{
    if pairs.len() == 0 {
        m
    } else {
        with_string_arrays(m, pairs.drop_last()).insert(
            pairs.last().0,
            AttributeModel::Strings(pairs.last().1),
        )
    }
}

/// Inserts integer attributes in order; a later pair replaces an earlier one
/// with the same key.
pub open spec fn with_ints(
    m: Map<Seq<char>, AttributeModel>,
    pairs: Seq<(Seq<char>, i64)>,
) -> Map<Seq<char>, AttributeModel>
    decreases pairs.len(),
{
    if pairs.len() == 0 {
        m
    } else {
        with_ints(m, pairs.drop_last()).insert(pairs.last().0, AttributeModel::Int(pairs.last().1))
    }
}

/// The attributes of a resource made from string-array pairs followed by
/// integer pairs.
pub open spec fn attribute_map(
    arrays: Seq<(Seq<char>, Seq<Seq<char>>)>,
    ints: Seq<(Seq<char>, i64)>,
) -> Map<Seq<char>, AttributeModel> {
    with_ints(with_string_arrays(Map::empty(), arrays), ints)
}

} // verus!
