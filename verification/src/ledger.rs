//! The books of a whole pool, and what every sequence of operations keeps
//! true of them.
//!
//! An operation works on the pool's state and on one participant's position.
//! Here all positions are put side by side, so that one can say what holds of
//! the pool as a whole: its total is the sum of the positions, each weighting
//! dimension holds what the positions contribute to it, and every position
//! counts the items it holds. Each operation keeps this true, and so does
//! every sequence of operations.

use crate::contract::{claim_outcome, claimed};
use crate::deposit::{deposit_outcome, deposited};
use crate::error::ContractError;
use crate::laws::{
    claim_conserves, claim_settles_forward, clock_ahead, settles_forward, conserved, counts_items,
    deposit_balances_weights, deposit_conserves, deposit_settles_forward, distinct_dimensions,
    eject_conserves, lemma_contributed_update, quantity_withdraw_conserves,
    release_balances_weights, weights_balanced, withdraw_conserves,
    withdraw_no_reward_conserves,
};
use crate::msg::{Response, Staked};
use crate::state::State;
use crate::withdraw::{
    eject_outcome, quantity_withdrawn, released, taken_out, withdraw_no_reward_outcome,
    withdraw_outcome, withdraw_quantity_outcome, withdrawn,
};
use vstd::prelude::*;

verus! {

/// The books of a whole pool: its state, the position of every participant,
/// the items that each position holds, and the time of the last operation. A
/// participant who never deposited has an empty position.
pub struct Ledger {
    pub state: State,
    pub positions: Seq<Staked>,
    pub holdings: Seq<Seq<String>>,
    pub clock: u64,
}

/// Whether the books are in step: the pool's total is the sum of the
/// positions, every weighting dimension holds what the positions contribute
/// to it, no two dimensions go by the same trait, and every position counts
/// the items it holds.
pub open spec fn in_step(ledger: Ledger) -> bool {
    &&& ledger.holdings.len() == ledger.positions.len()
    &&& conserved(ledger.state, ledger.positions)
    &&& weights_balanced(ledger.state, ledger.positions)
    &&& distinct_dimensions(ledger.state.dimensions())
    &&& forall|i: int|
        0 <= i < ledger.positions.len() ==> counts_items(
            #[trigger] ledger.positions[i],
            ledger.holdings[i],
        )
}

/// Whether no position is settled later than the last operation took place.
pub open spec fn on_time(ledger: Ledger) -> bool {
    forall|i: int|
        0 <= i < ledger.positions.len() ==> clock_ahead(
            #[trigger] ledger.positions[i],
            ledger.clock,
        )
}

/// Whether the two books differ at most in the pool's state and in the
/// position and the items of the one participant, through an operation at
/// `current_time`. The clock does not run backwards.
pub open spec fn touches_only(
    before: Ledger,
    after: Ledger,
    participant: int,
    current_time: u64,
) -> bool {
    &&& 0 <= participant < before.positions.len()
    &&& before.holdings.len() == before.positions.len()
    &&& after.positions == before.positions.update(participant, after.positions[participant])
    &&& after.holdings == before.holdings.update(participant, after.holdings[participant])
    &&& before.clock <= current_time
    &&& after.clock == current_time
}

/// Whether `after` is what a successful deposit of `participant` makes of
/// `before`.
pub open spec fn deposit_step(
    before: Ledger,
    after: Ledger,
    participant: int,
    current_time: u64,
    recipient: String,
    token_ids: Seq<String>,
    added: Seq<u128>,
    payouts: Seq<u128>,
    response: Response,
) -> bool {
    &&& touches_only(before, after, participant, current_time)
    &&& deposit_outcome(
        before.state,
        before.positions[participant],
        current_time,
        token_ids.len(),
        added,
    ) == Ok::<Seq<u128>, ContractError>(payouts)
    &&& deposited(
        before.state,
        before.positions[participant],
        before.holdings[participant],
        current_time,
        recipient,
        token_ids,
        added,
        payouts,
        after.state,
        after.positions[participant],
        after.holdings[participant],
        response,
    )
}

/// Whether `after` is what a successful full withdrawal of `participant`
/// makes of `before`.
pub open spec fn withdraw_step(
    before: Ledger,
    after: Ledger,
    participant: int,
    current_time: u64,
    recipient: String,
    payouts: Seq<u128>,
    response: Response,
) -> bool {
    &&& touches_only(before, after, participant, current_time)
    &&& withdraw_outcome(
        before.state,
        before.positions[participant],
        before.holdings[participant],
        current_time,
    ) == Ok::<Seq<u128>, ContractError>(payouts)
    &&& withdrawn(
        before.state,
        before.positions[participant],
        before.holdings[participant],
        current_time,
        recipient,
        payouts,
        after.state,
        after.positions[participant],
        after.holdings[participant],
        response,
    )
}

/// Whether `after` is what a successful withdrawal by quantity of
/// `participant` makes of `before`.
pub open spec fn quantity_step(
    before: Ledger,
    after: Ledger,
    participant: int,
    current_time: u64,
    recipient: String,
    quantity: u128,
    payouts: Seq<u128>,
    response: Response,
) -> bool {
    &&& touches_only(before, after, participant, current_time)
    &&& withdraw_quantity_outcome(
        before.state,
        before.positions[participant],
        before.holdings[participant],
        current_time,
        quantity,
    ) == Ok::<Seq<u128>, ContractError>(payouts)
    &&& quantity_withdrawn(
        before.state,
        before.positions[participant],
        before.holdings[participant],
        current_time,
        recipient,
        quantity,
        payouts,
        after.state,
        after.positions[participant],
        after.holdings[participant],
        response,
    )
}

/// Whether `after` is what a successful withdrawal without rewards of
/// `participant` makes of `before`.
pub open spec fn no_reward_step(
    before: Ledger,
    after: Ledger,
    participant: int,
    current_time: u64,
    recipient: String,
    response: Response,
) -> bool {
    &&& touches_only(before, after, participant, current_time)
    &&& withdraw_no_reward_outcome(
        before.state,
        before.positions[participant],
        before.holdings[participant],
    ) is Ok
    &&& taken_out(
        before.state,
        before.positions[participant],
        before.holdings[participant],
        current_time,
        recipient,
        before.positions[participant].staked_amount,
        after.state,
        after.positions[participant],
        after.holdings[participant],
        response,
    )
}

/// Whether `after` is what a successful ejection of `participant` by `sender`
/// makes of `before`.
pub open spec fn eject_step(
    before: Ledger,
    after: Ledger,
    participant: int,
    current_time: u64,
    sender: String,
    recipient: String,
    response: Response,
) -> bool {
    &&& touches_only(before, after, participant, current_time)
    &&& eject_outcome(
        before.state,
        before.positions[participant],
        before.holdings[participant],
        sender,
    ) is Ok
    &&& taken_out(
        before.state,
        before.positions[participant],
        before.holdings[participant],
        current_time,
        recipient,
        before.holdings[participant].len() as u128,
        after.state,
        after.positions[participant],
        after.holdings[participant],
        response,
    )
}

/// Whether `after` is what a successful claim of `participant` makes of
/// `before`.
pub open spec fn claim_step(
    before: Ledger,
    after: Ledger,
    participant: int,
    current_time: u64,
    recipient: String,
    payouts: Seq<u128>,
    response: Response,
) -> bool {
    &&& touches_only(before, after, participant, current_time)
    &&& after.holdings[participant] == before.holdings[participant]
    &&& claim_outcome(before.state, before.positions[participant], current_time) == Ok::<
        Seq<u128>,
        ContractError,
    >(payouts)
    &&& claimed(
        before.state,
        before.positions[participant],
        current_time,
        recipient,
        payouts,
        after.state,
        after.positions[participant],
        response,
    )
}

/// Whether `after` is what an operation of the owner or a funding notice
/// makes of `before`: no position changes, and the pool keeps its total and
/// its weighting dimensions. Pausing, restricting, funding, draining and
/// replacing the reward streams are of this kind, as is every refused
/// operation.
pub open spec fn administered(before: Ledger, after: Ledger) -> bool {
    &&& after.positions == before.positions
    &&& after.holdings == before.holdings
    &&& after.state.total_staked_amount == before.state.total_staked_amount
    &&& after.state.staking_weights == before.state.staking_weights
    &&& before.clock <= after.clock
}

/// Whether `after` is what one operation makes of `before`.
pub open spec fn moved(before: Ledger, after: Ledger) -> bool {
    ||| administered(before, after)
    ||| exists|
        participant: int,
        current_time: u64,
        recipient: String,
        token_ids: Seq<String>,
        added: Seq<u128>,
        payouts: Seq<u128>,
        response: Response,
    |
        deposit_step(
            before,
            after,
            participant,
            current_time,
            recipient,
            token_ids,
            added,
            payouts,
            response,
        )
    ||| exists|
        participant: int,
        current_time: u64,
        recipient: String,
        payouts: Seq<u128>,
        response: Response,
    |
        withdraw_step(before, after, participant, current_time, recipient, payouts, response)
    ||| exists|
        participant: int,
        current_time: u64,
        recipient: String,
        quantity: u128,
        payouts: Seq<u128>,
        response: Response,
    |
        quantity_step(
            before,
            after,
            participant,
            current_time,
            recipient,
            quantity,
            payouts,
            response,
        )
    ||| exists|participant: int, current_time: u64, recipient: String, response: Response|
        no_reward_step(before, after, participant, current_time, recipient, response)
    ||| exists|
        participant: int,
        current_time: u64,
        sender: String,
        recipient: String,
        response: Response,
    |
        eject_step(before, after, participant, current_time, sender, recipient, response)
    ||| exists|
        participant: int,
        current_time: u64,
        recipient: String,
        payouts: Seq<u128>,
        response: Response,
    |
        claim_step(before, after, participant, current_time, recipient, payouts, response)
}

/// Positions that the operation did not touch still count their items.
proof fn lemma_others_untouched(before: Ledger, after: Ledger, participant: int)
    requires
        in_step(before),
        exists|current_time: u64| touches_only(before, after, participant, current_time),
        counts_items(after.positions[participant], after.holdings[participant]),
    ensures
        after.holdings.len() == after.positions.len(),
        forall|i: int|
            0 <= i < after.positions.len() ==> counts_items(
                #[trigger] after.positions[i],
                after.holdings[i],
            ),
{
    assert forall|i: int| 0 <= i < after.positions.len() implies counts_items(
        #[trigger] after.positions[i],
        after.holdings[i],
    ) by {
        if i != participant {
            assert(after.positions[i] == before.positions[i]);
            assert(after.holdings[i] == before.holdings[i]);
        }
    }
}

/// Taking a position's weights out of the dimensions leaves their traits as
/// they were.
proof fn lemma_release_keeps_traits(state: State, staked: Staked, amount: u128, after: State)
    requires
        distinct_dimensions(state.dimensions()),
        crate::withdraw::collateral_left(state, staked.weights(), amount, after),
    ensures
        distinct_dimensions(after.dimensions()),
{
    assert forall|j: int, k: int| 0 <= j < k < after.dimensions().len() implies (
    #[trigger] after.dimensions()[j]).weight_trait_type@ != (
    #[trigger] after.dimensions()[k]).weight_trait_type@ by {
        assert(after.dimensions()[j] == released(state.dimensions()[j], staked.weights()));
        assert(after.dimensions()[k] == released(state.dimensions()[k], staked.weights()));
    }
}

/// Every operation keeps the books in step.
pub proof fn operation_keeps_books_in_step(before: Ledger, after: Ledger)
    requires
        in_step(before),
        moved(before, after),
    ensures
        in_step(after),
{
    if administered(before, after) {
        assert(after.state.dimensions() == before.state.dimensions());
    } else if exists|
        participant: int,
        current_time: u64,
        recipient: String,
        token_ids: Seq<String>,
        added: Seq<u128>,
        payouts: Seq<u128>,
        response: Response,
    |
        deposit_step(
            before,
            after,
            participant,
            current_time,
            recipient,
            token_ids,
            added,
            payouts,
            response,
        ) {
        let (participant, current_time, recipient, token_ids, added, payouts, response) = choose|
            participant: int,
            current_time: u64,
            recipient: String,
            token_ids: Seq<String>,
            added: Seq<u128>,
            payouts: Seq<u128>,
            response: Response,
        |
            deposit_step(
                before,
                after,
                participant,
                current_time,
                recipient,
                token_ids,
                added,
                payouts,
                response,
            );
        deposit_conserves(
            before.state,
            before.positions,
            participant,
            before.holdings[participant],
            current_time,
            recipient,
            token_ids,
            added,
            payouts,
            after.state,
            after.positions[participant],
            after.holdings[participant],
            response,
        );
        deposit_balances_weights(
            before.state,
            before.positions,
            participant,
            before.holdings[participant],
            current_time,
            recipient,
            token_ids,
            added,
            payouts,
            after.state,
            after.positions[participant],
            after.holdings[participant],
            response,
        );
        lemma_others_untouched(before, after, participant);
    } else if exists|
        participant: int,
        current_time: u64,
        recipient: String,
        payouts: Seq<u128>,
        response: Response,
    |
        withdraw_step(before, after, participant, current_time, recipient, payouts, response) {
        let (participant, current_time, recipient, payouts, response) = choose|
            participant: int,
            current_time: u64,
            recipient: String,
            payouts: Seq<u128>,
            response: Response,
        |
            withdraw_step(before, after, participant, current_time, recipient, payouts, response);
        withdraw_conserves(
            before.state,
            before.positions,
            participant,
            before.holdings[participant],
            current_time,
            recipient,
            payouts,
            after.state,
            after.positions[participant],
            after.holdings[participant],
            response,
        );
        release_balances_weights(
            before.state,
            before.positions,
            participant,
            before.positions[participant].staked_amount,
            after.state,
            after.positions[participant],
        );
        lemma_release_keeps_traits(
            before.state,
            before.positions[participant],
            before.positions[participant].staked_amount,
            after.state,
        );
        lemma_others_untouched(before, after, participant);
    } else if exists|
        participant: int,
        current_time: u64,
        recipient: String,
        quantity: u128,
        payouts: Seq<u128>,
        response: Response,
    |
        quantity_step(
            before,
            after,
            participant,
            current_time,
            recipient,
            quantity,
            payouts,
            response,
        ) {
        let (participant, current_time, recipient, quantity, payouts, response) = choose|
            participant: int,
            current_time: u64,
            recipient: String,
            quantity: u128,
            payouts: Seq<u128>,
            response: Response,
        |
            quantity_step(
                before,
                after,
                participant,
                current_time,
                recipient,
                quantity,
                payouts,
                response,
            );
        quantity_withdraw_conserves(
            before.state,
            before.positions,
            participant,
            before.holdings[participant],
            current_time,
            recipient,
            quantity,
            payouts,
            after.state,
            after.positions[participant],
            after.holdings[participant],
            response,
        );
        release_balances_weights(
            before.state,
            before.positions,
            participant,
            quantity,
            after.state,
            after.positions[participant],
        );
        lemma_release_keeps_traits(
            before.state,
            before.positions[participant],
            quantity,
            after.state,
        );
        lemma_others_untouched(before, after, participant);
    } else if exists|participant: int, current_time: u64, recipient: String, response: Response|
        no_reward_step(before, after, participant, current_time, recipient, response) {
        let (participant, current_time, recipient, response) = choose|
            participant: int,
            current_time: u64,
            recipient: String,
            response: Response,
        |
            no_reward_step(before, after, participant, current_time, recipient, response);
        withdraw_no_reward_conserves(
            before.state,
            before.positions,
            participant,
            before.holdings[participant],
            current_time,
            recipient,
            after.state,
            after.positions[participant],
            after.holdings[participant],
            response,
        );
        release_balances_weights(
            before.state,
            before.positions,
            participant,
            before.positions[participant].staked_amount,
            after.state,
            after.positions[participant],
        );
        lemma_release_keeps_traits(
            before.state,
            before.positions[participant],
            before.positions[participant].staked_amount,
            after.state,
        );
        lemma_others_untouched(before, after, participant);
    } else if exists|
        participant: int,
        current_time: u64,
        sender: String,
        recipient: String,
        response: Response,
    |
        eject_step(before, after, participant, current_time, sender, recipient, response) {
        let (participant, current_time, sender, recipient, response) = choose|
            participant: int,
            current_time: u64,
            sender: String,
            recipient: String,
            response: Response,
        |
            eject_step(before, after, participant, current_time, sender, recipient, response);
        eject_conserves(
            before.state,
            before.positions,
            participant,
            before.holdings[participant],
            current_time,
            sender,
            recipient,
            after.state,
            after.positions[participant],
            after.holdings[participant],
            response,
        );
        release_balances_weights(
            before.state,
            before.positions,
            participant,
            before.holdings[participant].len() as u128,
            after.state,
            after.positions[participant],
        );
        lemma_release_keeps_traits(
            before.state,
            before.positions[participant],
            before.holdings[participant].len() as u128,
            after.state,
        );
        lemma_others_untouched(before, after, participant);
    } else {
        let (participant, current_time, recipient, payouts, response) = choose|
            participant: int,
            current_time: u64,
            recipient: String,
            payouts: Seq<u128>,
            response: Response,
        |
            claim_step(before, after, participant, current_time, recipient, payouts, response);
        claim_conserves(
            before.state,
            before.positions,
            participant,
            current_time,
            recipient,
            payouts,
            after.state,
            after.positions[participant],
            response,
        );
        assert(after.state.dimensions() == before.state.dimensions());
        assert forall|k: int| 0 <= k < after.state.dimensions().len() implies (
        #[trigger] after.state.dimensions()[k]).amount == crate::laws::contributed(
            after.positions,
            after.state.dimensions()[k].weight_trait_type@,
        ) by {
            lemma_contributed_update(
                before.positions,
                participant,
                after.positions[participant],
                after.state.dimensions()[k].weight_trait_type@,
            );
        }
        lemma_others_untouched(before, after, participant);
    }
}

/// Conservation and weighted aggregate consistency for any sequence of
/// operations: where the books start in step and each is what one operation
/// makes of the one before it, the books are in step at all times.
pub proof fn every_sequence_keeps_books_in_step(history: Seq<Ledger>, moment: int)
    requires
        0 <= moment < history.len(),
        in_step(history[0]),
        forall|k: int| 0 <= k < history.len() - 1 ==> moved(#[trigger] history[k], history[k + 1]),
    ensures
        in_step(history[moment]),
    decreases moment,
{
    if moment > 0 {
        every_sequence_keeps_books_in_step(history, moment - 1);
        assert(moved(history[moment - 1], history[moment - 1 + 1]));
        operation_keeps_books_in_step(history[moment - 1], history[moment]);
    }
}

/// What one operation does to the settlement of one position: it leaves it as
/// it was, clears it, or moves it to the time of the operation.
proof fn lemma_operation_settles(before: Ledger, after: Ledger, participant: int)
    requires
        on_time(before),
        moved(before, after),
        0 <= participant < before.positions.len(),
    ensures
        after.positions.len() == before.positions.len(),
        before.clock <= after.clock,
        after.positions[participant].last_settlement_time() is None
            || after.positions[participant].last_settlement_time()
            == before.positions[participant].last_settlement_time()
            || after.positions[participant].last_settlement_time() == Some(after.clock),
{
    if administered(before, after) {
    } else if exists|
        who: int,
        current_time: u64,
        recipient: String,
        token_ids: Seq<String>,
        added: Seq<u128>,
        payouts: Seq<u128>,
        response: Response,
    |
        deposit_step(
            before,
            after,
            who,
            current_time,
            recipient,
            token_ids,
            added,
            payouts,
            response,
        ) {
        let (who, current_time, recipient, token_ids, added, payouts, response) = choose|
            who: int,
            current_time: u64,
            recipient: String,
            token_ids: Seq<String>,
            added: Seq<u128>,
            payouts: Seq<u128>,
            response: Response,
        |
            deposit_step(
                before,
                after,
                who,
                current_time,
                recipient,
                token_ids,
                added,
                payouts,
                response,
            );
        assert(clock_ahead(before.positions[who], before.clock));
        deposit_settles_forward(
            before.state,
            before.positions[who],
            before.holdings[who],
            current_time,
            recipient,
            token_ids,
            added,
            payouts,
            after.state,
            after.positions[who],
            after.holdings[who],
            response,
        );
    } else if exists|
        who: int,
        current_time: u64,
        recipient: String,
        payouts: Seq<u128>,
        response: Response,
    |
        withdraw_step(before, after, who, current_time, recipient, payouts, response) {
    } else if exists|
        who: int,
        current_time: u64,
        recipient: String,
        quantity: u128,
        payouts: Seq<u128>,
        response: Response,
    |
        quantity_step(before, after, who, current_time, recipient, quantity, payouts, response) {
    } else if exists|who: int, current_time: u64, recipient: String, response: Response|
        no_reward_step(before, after, who, current_time, recipient, response) {
    } else if exists|
        who: int,
        current_time: u64,
        sender: String,
        recipient: String,
        response: Response,
    |
        eject_step(before, after, who, current_time, sender, recipient, response) {
    } else {
        let (who, current_time, recipient, payouts, response) = choose|
            who: int,
            current_time: u64,
            recipient: String,
            payouts: Seq<u128>,
            response: Response,
        |
            claim_step(before, after, who, current_time, recipient, payouts, response);
        assert(clock_ahead(before.positions[who], before.clock));
        claim_settles_forward(
            before.state,
            before.positions[who],
            current_time,
            recipient,
            payouts,
            after.state,
            after.positions[who],
            response,
        );
    }
}

/// Every operation keeps the books on time: after it, no position is settled
/// later than the operation took place.
pub proof fn operation_keeps_books_on_time(before: Ledger, after: Ledger)
    requires
        on_time(before),
        moved(before, after),
    ensures
        on_time(after),
        after.positions.len() == before.positions.len(),
        before.clock <= after.clock,
{
    lemma_operation_settles_length(before, after);
    assert forall|i: int| 0 <= i < after.positions.len() implies clock_ahead(
        #[trigger] after.positions[i],
        after.clock,
    ) by {
        lemma_operation_settles(before, after, i);
        assert(clock_ahead(before.positions[i], before.clock));
    }
}

/// An operation neither adds nor removes a participant, and does not turn the
/// clock back.
proof fn lemma_operation_settles_length(before: Ledger, after: Ledger)
    requires
        moved(before, after),
    ensures
        after.positions.len() == before.positions.len(),
        before.clock <= after.clock,
{
}

/// Monotonic settlement for any sequence of operations: where the books start
/// on time and each is what one operation makes of the one before it, a
/// position that is settled at some moment is never settled earlier at a
/// later moment.
pub proof fn settlement_never_goes_back(
    history: Seq<Ledger>,
    participant: int,
    earlier: int,
    later: int,
)
    requires
        0 <= earlier <= later < history.len(),
        0 <= participant < history[0].positions.len(),
        on_time(history[0]),
        forall|k: int| 0 <= k < history.len() - 1 ==> moved(#[trigger] history[k], history[k + 1]),
    ensures
        history[later].positions.len() == history[0].positions.len(),
        on_time(history[later]),
        history[earlier].clock <= history[later].clock,
        settles_forward(
            history[earlier].positions[participant],
            history[later].positions[participant],
        ),
    decreases later,
{
    if later == 0 {
    } else if earlier == later {
        settlement_never_goes_back(history, participant, 0, later - 1);
        assert(moved(history[later - 1], history[later - 1 + 1]));
        operation_keeps_books_on_time(history[later - 1], history[later]);
    } else {
        settlement_never_goes_back(history, participant, earlier, later - 1);
        assert(moved(history[later - 1], history[later - 1 + 1]));
        operation_keeps_books_on_time(history[later - 1], history[later]);
        lemma_operation_settles(history[later - 1], history[later], participant);
        settlement_never_goes_back(history, participant, earlier, earlier);
        assert(clock_ahead(history[earlier].positions[participant], history[earlier].clock));
    }
}

} // verus!
