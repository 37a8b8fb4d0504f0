//! Reading the attributes of collateral items: whether an item may be
//! deposited, and what weight it carries in each weighting dimension.

use crate::error::ContractError;
use crate::msg::{StakingWeight, Trait};
use crate::state::State;
use vstd::prelude::*;

verus! {

/// The number that a trait value spells, as `str::parse::<u32>` reads it;
/// `None` where it spells none.
pub uninterp spec fn parsed_weight(text: Seq<char>) -> Option<u32>;

/// Calls `str::parse::<u32>` on the text. The contract gives the outcome a
/// name and claims that it depends on the text alone; a text that the call
/// refuses has no number.
#[verifier::external_body]
fn parse_weight(text: &String) -> (r: Option<u32>)
    ensures
        r == parsed_weight(text@),
{
    text.parse::<u32>().ok()
}

/// Whether the attribute is of the trait `name`.
pub open spec fn is_trait(attribute: Trait, name: Seq<char>) -> bool {
    match attribute.trait_type {
        Some(trait_type) => trait_type@ == name,
        None => false,
    }
}

/// The value of the first attribute of the trait `name` at or after index
/// `from`.
pub open spec fn trait_from(attributes: Seq<Trait>, name: Seq<char>, from: int) -> Option<String>
    decreases attributes.len() - from,
{
    if from < 0 || from >= attributes.len() {
        None
    } else if is_trait(attributes[from], name) {
        Some(attributes[from].value)
    } else {
        trait_from(attributes, name, from + 1)
    }
}

/// The value that an item carries for the trait `name`.
pub open spec fn trait_value(attributes: Seq<Trait>, name: Seq<char>) -> Option<String> {
    trait_from(attributes, name, 0)
}

/// The weight that an item carries in the dimension of the trait `name`;
/// `None` where it lacks the trait or the trait's value spells no number.
pub open spec fn item_weight(attributes: Seq<Trait>, name: Seq<char>) -> Option<u32> {
    match trait_value(attributes, name) {
        Some(value) => parsed_weight(value@),
        None => None,
    }
}

/// Whether the item carries a weight in each of the dimensions.
pub open spec fn weighs_in_all(attributes: Seq<Trait>, dimensions: Seq<StakingWeight>) -> bool {
    forall|k: int|
        0 <= k < dimensions.len() ==> item_weight(
            attributes,
            (#[trigger] dimensions[k]).weight_trait_type@,
        ) is Some
}

/// Why the pool refuses an item with these attributes, if it does: the item
/// lacks the trait that the pool is restricted to, or it carries no weight in
/// one of the pool's weighting dimensions.
pub open spec fn item_refusal(state: State, attributes: Seq<Trait>) -> Option<ContractError> {
    if state.trait_restriction matches Some(name) && trait_value(attributes, name@) is None {
        Some(ContractError::IneligibleCollateral)
    } else if !weighs_in_all(attributes, state.dimensions()) {
        Some(ContractError::MissingWeightTrait)
    } else {
        None
    }
}

/// The attributes of the item at index `item`; an item without an entry has
/// none.
pub open spec fn attributes_of(metadata: Seq<Vec<Trait>>, item: int) -> Seq<Trait> {
    if 0 <= item < metadata.len() {
        metadata[item]@
    } else {
        Seq::empty()
    }
}

/// Why the pool refuses the first `count` items, if it does: the refusal of
/// the first item that it refuses.
pub open spec fn first_refusal(state: State, metadata: Seq<Vec<Trait>>, count: nat) -> Option<
    ContractError,
>
    decreases count,
{
    if count == 0 {
        None
    } else {
        match first_refusal(state, metadata, (count - 1) as nat) {
            Some(refusal) => Some(refusal),
            None => item_refusal(state, attributes_of(metadata, count - 1)),
        }
    }
}

/// The weight that the first `count` items together carry in the dimension of
/// the trait `name`.
pub open spec fn added_weight(metadata: Seq<Vec<Trait>>, name: Seq<char>, count: nat) -> nat
    decreases count,
{
    if count == 0 {
        0
    } else {
        added_weight(metadata, name, (count - 1) as nat) + (match item_weight(
            attributes_of(metadata, count - 1),
            name,
        ) {
            Some(weight) => weight as nat,
            None => 0,
        })
    }
}

/// The weight that the first `count` items together carry in each of the
/// pool's weighting dimensions; empty where the pool has none.
pub open spec fn added_weights(state: State, metadata: Seq<Vec<Trait>>, count: nat) -> Seq<u128> {
    Seq::new(
        state.dimensions().len(),
        |k: int| added_weight(metadata, state.dimensions()[k].weight_trait_type@, count) as u128,
    )
}

/// Once an item is refused, the refusal stands however many items follow.
proof fn lemma_refusal_stands(state: State, metadata: Seq<Vec<Trait>>, item: nat, count: nat)
    requires
        item < count,
        first_refusal(state, metadata, item) is None,
        item_refusal(state, attributes_of(metadata, item as int)) is Some,
    ensures
        first_refusal(state, metadata, count) == item_refusal(
            state,
            attributes_of(metadata, item as int),
        ),
    decreases count,
{
    if item + 1 < count {
        lemma_refusal_stands(state, metadata, item, (count - 1) as nat);
    }
}

/// Finds the value that an item carries for the trait `name`.
fn find_trait<'a>(attributes: &'a Vec<Trait>, name: &String) -> (r: Option<&'a String>)
    ensures
        r is Some <==> trait_value(attributes@, name@) is Some,
        r matches Some(value) ==> *value == trait_value(attributes@, name@)->Some_0,
{
    let mut i: usize = 0;
    while i < attributes.len()
        invariant
            i <= attributes@.len(),
            trait_value(attributes@, name@) == trait_from(attributes@, name@, i as int),
        decreases attributes@.len() - i,
    {
        let found = match &attributes[i].trait_type {
            Some(trait_type) => *trait_type == *name,
            None => false,
        };
        if found {
            return Some(&attributes[i].value);
        }
        i = i + 1;
    }
    None
}

/// Reads the weight that an item carries in the dimension of the trait
/// `name`.
fn weight_in(attributes: &Vec<Trait>, name: &String) -> (r: Option<u32>)
    ensures
        r == item_weight(attributes@, name@),
{
    match find_trait(attributes, name) {
        Some(value) => parse_weight(value),
        None => None,
    }
}

/// Adds the item's weight in each dimension to `sums`, where the item carries
/// a weight in all of them.
fn add_item_weights(
    attributes: &Vec<Trait>,
    dimensions: &Vec<StakingWeight>,
    sums: &mut Vec<u128>,
    Ghost(limit): Ghost<nat>,
) -> (complete: bool)
    requires
        old(sums)@.len() == dimensions@.len(),
        limit < usize::MAX,
        forall|k: int| 0 <= k < dimensions@.len() ==> old(sums)@[k] <= limit * u32::MAX,
    ensures
        complete == weighs_in_all(attributes@, dimensions@),
        final(sums)@.len() == dimensions@.len(),
        complete ==> forall|k: int|
            0 <= k < dimensions@.len() ==> final(sums)@[k] == old(sums)@[k] + item_weight(
                attributes@,
                (#[trigger] dimensions@[k]).weight_trait_type@,
            )->Some_0,
{
    let mut k: usize = 0;
    while k < dimensions.len()
        invariant
            k <= dimensions@.len(),
            sums@.len() == dimensions@.len(),
            limit < usize::MAX,
            forall|j: int| 0 <= j < dimensions@.len() ==> old(sums)@[j] <= limit * u32::MAX,
            forall|j: int|
                0 <= j < k ==> item_weight(
                    attributes@,
                    (#[trigger] dimensions@[j]).weight_trait_type@,
                ) is Some,
            forall|j: int|
                0 <= j < k ==> sums@[j] == old(sums)@[j] + item_weight(
                    attributes@,
                    (#[trigger] dimensions@[j]).weight_trait_type@,
                )->Some_0,
            forall|j: int| k <= j < dimensions@.len() ==> sums@[j] == old(sums)@[j],
        decreases dimensions@.len() - k,
    {
        match weight_in(attributes, &dimensions[k].weight_trait_type) {
            Some(weight) => {
                assert(limit * u32::MAX + u32::MAX <= u128::MAX) by (nonlinear_arith)
                    requires
                        limit < usize::MAX,
                ;
                sums[k] = sums[k] + weight as u128;
            },
            None => {
                assert(item_weight(attributes@, dimensions@[k as int].weight_trait_type@) is None);
                return false;
            },
        }
        k = k + 1;
    }
    true
}

/// Tells whether the pool looks at the attributes of the items it is given:
/// it does where it is restricted to a trait or has weighting dimensions.
pub fn reads_attributes(state: &State) -> (r: bool)
    ensures
        r == (state.trait_restriction is Some || state.staking_weights is Some),
{
    state.trait_restriction.is_some() || state.staking_weights.is_some()
}

/// Checks the first `count` deposited items against the pool's rules and adds
/// up the weight that they carry in each weighting dimension.
///
/// `metadata` holds the attributes of each item, in the items' order; an item
/// without an entry has none. An item is refused with `IneligibleCollateral`
/// where the pool is restricted to a trait that the item lacks, and with
/// `MissingWeightTrait` where it lacks the trait of a weighting dimension or
/// the trait's value spells no number. The first refused item decides.
pub fn collateral_weights(state: &State, count: usize, metadata: &Vec<Vec<Trait>>) -> (r: Result<
    Vec<u128>,
    ContractError,
>)
    ensures
        first_refusal(*state, metadata@, count as nat) matches Some(e) ==> r == Err::<
            Vec<u128>,
            ContractError,
        >(e),
        first_refusal(*state, metadata@, count as nat) is None ==> r is Ok && r->Ok_0@
            == added_weights(*state, metadata@, count as nat),
{
    let none: Vec<StakingWeight> = Vec::new();
    let dimensions = match &state.staking_weights {
        Some(dimensions) => dimensions,
        None => &none,
    };
    let mut sums: Vec<u128> = Vec::new();
    while sums.len() < dimensions.len()
        invariant
            sums@.len() <= dimensions@.len(),
            forall|k: int| 0 <= k < sums@.len() ==> sums@[k] == 0,
        decreases dimensions@.len() - sums@.len(),
    {
        sums.push(0);
    }
    let no_attributes: Vec<Trait> = Vec::new();
    let mut item: usize = 0;
    while item < count
        invariant
            item <= count,
            dimensions@ == state.dimensions(),
            no_attributes@.len() == 0,
            sums@.len() == dimensions@.len(),
            first_refusal(*state, metadata@, item as nat) is None,
            forall|k: int|
                0 <= k < dimensions@.len() ==> sums@[k] == added_weight(
                    metadata@,
                    (#[trigger] dimensions@[k]).weight_trait_type@,
                    item as nat,
                ),
            forall|k: int| 0 <= k < dimensions@.len() ==> sums@[k] <= item * u32::MAX,
        decreases count - item,
    {
        let attributes = if item < metadata.len() {
            &metadata[item]
        } else {
            &no_attributes
        };
        assert(attributes@ == attributes_of(metadata@, item as int));
        let eligible = match &state.trait_restriction {
            Some(name) => find_trait(attributes, name).is_some(),
            None => true,
        };
        if !eligible {
            proof {
                lemma_refusal_stands(*state, metadata@, item as nat, count as nat);
            }
            return Err(ContractError::IneligibleCollateral);
        }
        if !add_item_weights(attributes, dimensions, &mut sums, Ghost(item as nat)) {
            proof {
                lemma_refusal_stands(*state, metadata@, item as nat, count as nat);
            }
            return Err(ContractError::MissingWeightTrait);
        }
        assert forall|k: int| 0 <= k < dimensions@.len() implies sums@[k] <= (item + 1)
            * u32::MAX by {
            assert(item * u32::MAX + u32::MAX == (item + 1) * u32::MAX) by (nonlinear_arith);
            let weight = item_weight(attributes@, dimensions@[k].weight_trait_type@)->Some_0;
            assert(weight <= u32::MAX);
        }
        item = item + 1;
    }
    assert(count * u32::MAX <= u128::MAX) by (nonlinear_arith)
        requires
            count <= usize::MAX,
    ;
    assert(sums@ =~= added_weights(*state, metadata@, count as nat));
    Ok(sums)
}

} // verus!
