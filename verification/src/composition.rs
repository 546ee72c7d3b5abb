//! What a list of constituents composes to: the combined dimension and the
//! generated name, and the laws that both obey.

use crate::dimension::Exponents;
use crate::name::{joined, separator, token};
use crate::unit::Unit;
use vstd::prelude::*;
use vstd::seq_lib::lemma_multiset_commutative;

verus! {

/// The dimension that one constituent contributes: the dimension of its unit,
/// scaled by its exponent.
pub open spec fn contribution(pair: (&Unit, i32)) -> Exponents {
    pair.0.dimension()@.scaled(pair.1 as int)
}

/// The dimension that a list of constituents combines to: the sum of their
/// contributions, taken in order from the zero vector.
pub open spec fn combined_dimension(units: Seq<(&Unit, i32)>) -> Exponents
    decreases units.len(),
{
    if units.len() == 0 {
        Exponents::zero()
    } else {
        combined_dimension(units.drop_last()).plus(contribution(units.last()))
    }
}

/// The token of one constituent in a generated name.
pub open spec fn pair_token(pair: (&Unit, i32)) -> Seq<char> {
    token(pair.0.name(), pair.1 as int)
}

/// The tokens of a generated name: those of the constituents, in order,
/// without the empty ones.
pub open spec fn name_tokens(units: Seq<(&Unit, i32)>) -> Seq<Seq<char>> {
    units.map_values(|pair: (&Unit, i32)| pair_token(pair)).filter(
        |text: Seq<char>| text.len() > 0,
    )
}

/// The name generated for a list of constituents.
pub open spec fn generated_name(units: Seq<(&Unit, i32)>) -> Seq<char> {
    joined(name_tokens(units), separator())
}

/// Adding a constituent at the end adds its contribution to the combined
/// dimension.
pub proof fn lemma_combined_dimension_push(units: Seq<(&Unit, i32)>, pair: (&Unit, i32))
    ensures
        combined_dimension(units.push(pair)) == combined_dimension(units).plus(contribution(pair)),
{
    assert(units.push(pair).drop_last() =~= units);
}

/// Adding a constituent at the end appends its token to the tokens of the
/// generated name, unless that token is empty.
pub proof fn lemma_name_tokens_push(units: Seq<(&Unit, i32)>, pair: (&Unit, i32))
    ensures
        name_tokens(units.push(pair)) == if pair_token(pair).len() > 0 {
            name_tokens(units).push(pair_token(pair))
        } else {
            name_tokens(units)
        },
{
    let tokens = units.map_values(|pair: (&Unit, i32)| pair_token(pair));
    assert(units.push(pair).map_values(|pair: (&Unit, i32)| pair_token(pair)) =~= tokens.push(
        pair_token(pair),
    ));
    tokens.lemma_filter_push(pair_token(pair), |text: Seq<char>| text.len() > 0);
}

/// Constituents written one list after another combine to the sum of what
/// each list combines to.
pub proof fn lemma_combined_dimension_concat(front: Seq<(&Unit, i32)>, back: Seq<(&Unit, i32)>)
    ensures
        combined_dimension(front + back) == combined_dimension(front).plus(
            combined_dimension(back),
        ),
    decreases back.len(),
{
    if back.len() == 0 {
        assert(front + back =~= front);
    } else {
        lemma_combined_dimension_concat(front, back.drop_last());
        assert((front + back).drop_last() =~= front + back.drop_last());
    }
}

/// The tokens of constituents written one list after another are the tokens
/// of the first list followed by those of the second.
pub proof fn lemma_name_tokens_concat(front: Seq<(&Unit, i32)>, back: Seq<(&Unit, i32)>)
    ensures
        name_tokens(front + back) == name_tokens(front) + name_tokens(back),
{
    let to_token = |pair: (&Unit, i32)| pair_token(pair);
    assert((front + back).map_values(to_token) =~= front.map_values(to_token) + back.map_values(
        to_token,
    ));
    Seq::filter_distributes_over_add(
        front.map_values(to_token),
        back.map_values(to_token),
        |text: Seq<char>| text.len() > 0,
    );
}

/// What a single constituent composes to: its contribution, and its token
/// unless that is empty.
pub proof fn lemma_composed_alone(pair: (&Unit, i32))
    ensures
        combined_dimension(seq![pair]) == contribution(pair),
        name_tokens(seq![pair]) == if pair_token(pair).len() > 0 {
            seq![pair_token(pair)]
        } else {
            Seq::<Seq<char>>::empty()
        },
{
    let none = Seq::<(&Unit, i32)>::empty();
    assert(seq![pair] =~= none.push(pair));
    lemma_combined_dimension_push(none, pair);
    lemma_name_tokens_push(none, pair);
    reveal(Seq::filter);
    assert(name_tokens(none) =~= Seq::<Seq<char>>::empty());
    assert(Seq::<Seq<char>>::empty().push(pair_token(pair)) =~= seq![pair_token(pair)]);
}

/// A list of constituents is the part before position `i`, the constituent
/// at `i` and the part behind it; without that constituent it is the two
/// parts alone.
proof fn lemma_split_at(units: Seq<(&Unit, i32)>, i: int)
    requires
        0 <= i < units.len(),
    ensures
        units == units.take(i) + seq![units[i]] + units.skip(i + 1),
        units.remove(i) == units.take(i) + units.skip(i + 1),
{
    assert(units =~= units.take(i) + seq![units[i]] + units.skip(i + 1));
    assert(units.remove(i) =~= units.take(i) + units.skip(i + 1));
}

/// Taking one constituent out of a list takes its contribution out of the
/// combined dimension.
pub proof fn lemma_combined_dimension_remove(units: Seq<(&Unit, i32)>, i: int)
    requires
        0 <= i < units.len(),
    ensures
        combined_dimension(units) == combined_dimension(units.remove(i)).plus(
            contribution(units[i]),
        ),
{
    let front = units.take(i);
    let back = units.skip(i + 1);
    lemma_split_at(units, i);
    lemma_composed_alone(units[i]);
    lemma_combined_dimension_concat(front, seq![units[i]]);
    lemma_combined_dimension_concat(front + seq![units[i]], back);
    lemma_combined_dimension_concat(front, back);
}

/// Taking one constituent out of a list takes its token, if it has one, out
/// of the tokens of the generated name and leaves the others in their order.
pub proof fn lemma_name_tokens_remove(units: Seq<(&Unit, i32)>, i: int)
    requires
        0 <= i < units.len(),
    ensures
        name_tokens(units) == name_tokens(units.take(i)) + name_tokens(seq![units[i]])
            + name_tokens(units.skip(i + 1)),
        name_tokens(units.remove(i)) == name_tokens(units.take(i)) + name_tokens(
            units.skip(i + 1),
        ),
{
    let front = units.take(i);
    let back = units.skip(i + 1);
    lemma_split_at(units, i);
    lemma_name_tokens_concat(front, seq![units[i]]);
    lemma_name_tokens_concat(front + seq![units[i]], back);
    lemma_name_tokens_concat(front, back);
}

/// A unit alone, raised to the first power, composes to itself: the combined
/// dimension is the unit's own, and the generated name is the unit's name.
pub proof fn lemma_first_power_alone(unit: &Unit)
    ensures
        combined_dimension(seq![(unit, 1i32)]) == unit.dimension()@,
        generated_name(seq![(unit, 1i32)]) == unit.name(),
{
    lemma_composed_alone((unit, 1i32));
    let tokens = name_tokens(seq![(unit, 1i32)]);
    if unit.name().len() > 0 {
        assert(tokens.first() == unit.name());
    } else {
        assert(unit.name() =~= Seq::<char>::empty());
    }
}

/// A unit alone, raised to the power minus one, composes to the negation of
/// its dimension.
pub proof fn lemma_inverse_alone(unit: &Unit)
    ensures
        combined_dimension(seq![(unit, -1i32)]) == unit.dimension()@.negated(),
{
    lemma_composed_alone((unit, -1i32));
}

/// A constituent raised to the power zero contributes nothing: the combined
/// dimension, the tokens and the generated name are those of the list
/// without it.
pub proof fn lemma_zeroth_power_contributes_nothing(units: Seq<(&Unit, i32)>, i: int)
    requires
        0 <= i < units.len(),
        units[i].1 == 0,
    ensures
        combined_dimension(units) == combined_dimension(units.remove(i)),
        name_tokens(units) == name_tokens(units.remove(i)),
        generated_name(units) == generated_name(units.remove(i)),
{
    lemma_combined_dimension_remove(units, i);
    lemma_name_tokens_remove(units, i);
    lemma_composed_alone(units[i]);
    assert(name_tokens(units.take(i)) + Seq::<Seq<char>>::empty() =~= name_tokens(units.take(i)));
}

/// Reordering the constituents leaves the combined dimension unchanged, and
/// of the generated name it changes only the order of the tokens: each token
/// occurs as often as before.
pub proof fn lemma_reordered(units: Seq<(&Unit, i32)>, reordered: Seq<(&Unit, i32)>)
    requires
        units.to_multiset() == reordered.to_multiset(),
    ensures
        combined_dimension(units) == combined_dimension(reordered),
        name_tokens(units).to_multiset() == name_tokens(reordered).to_multiset(),
    decreases units.len(),
{
    broadcast use vstd::seq_lib::group_to_multiset_ensures;

    if units.len() == 0 {
        assert(reordered.len() == reordered.to_multiset().len() == units.len());
        assert(units =~= reordered);
    } else {
        let at = lemma_found_after_reordering(units, reordered);
        lemma_reordered(units.drop_last(), reordered.remove(at));
        lemma_combined_dimension_remove(reordered, at);

        let alone = name_tokens(seq![units.last()]);
        let front = name_tokens(reordered.take(at));
        let back = name_tokens(reordered.skip(at + 1));
        assert(units =~= units.drop_last() + seq![units.last()]);
        lemma_name_tokens_concat(units.drop_last(), seq![units.last()]);
        lemma_name_tokens_remove(reordered, at);
        lemma_multiset_commutative(name_tokens(units.drop_last()), alone);
        lemma_multiset_commutative(front, back);
        lemma_multiset_commutative(front, alone);
        lemma_multiset_commutative(front + alone, back);
        assert(name_tokens(units).to_multiset() =~= name_tokens(reordered).to_multiset());
    }
}

/// The last constituent of a list stands somewhere in every reordering of
/// it, and what is left of the two lists without it are reorderings of each
/// other.
proof fn lemma_found_after_reordering(
    units: Seq<(&Unit, i32)>,
    reordered: Seq<(&Unit, i32)>,
) -> (at: int)
    requires
        units.len() > 0,
        units.to_multiset() == reordered.to_multiset(),
    ensures
        0 <= at < reordered.len(),
        reordered[at] == units.last(),
        units.drop_last().to_multiset() == reordered.remove(at).to_multiset(),
{
    broadcast use vstd::seq_lib::group_to_multiset_ensures;

    let moved = units.last();
    assert(units.contains(moved));
    assert(reordered.to_multiset().count(moved) > 0);
    assert(reordered.contains(moved));
    let at = choose|at: int| 0 <= at < reordered.len() && reordered[at] == moved;
    assert(units.remove(units.len() - 1) =~= units.drop_last());
    at
}

} // verus!
