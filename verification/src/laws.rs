//! What holds of the operations whatever the state and the arguments are.
//! Each law is stated over the functions by which the operations' contracts
//! say what they hand back and what state they leave.

use vstd::prelude::*;

use crate::decimal::decimal;
use crate::error::ContractError;
use crate::execute::{
    deposit_result, refused, subscribe_result, subscribe_state, unsubscribe_result,
    unsubscribe_state, update_config_result, update_config_state, update_subscription_result,
    update_subscription_state, withdraw_result,
};
use crate::settlement::{
    bounty_of, lemma_bounty_bounds, remainder_of, settlement, wire, wire_mint, wire_transfer,
};
use crate::state::{StorageView, SubscriptionView};

verus! {

/// Splitting creates and destroys nothing: at up to 100 percent, the bounty
/// and the remainder are both between nothing and the amount, and together
/// they are the amount.
pub proof fn law_split_conserves(bounty_pct: u16, amount: u128)
    requires
        bounty_pct <= 100,
    ensures
        0 <= bounty_of(bounty_pct, amount) <= amount,
        0 <= remainder_of(bounty_pct, amount) <= amount,
        bounty_of(bounty_pct, amount) + remainder_of(bounty_pct, amount) == amount,
{
    lemma_bounty_bounds(bounty_pct, amount);
}

/// Rounding goes against the bounty: a hundred times the bounty is at most
/// the percentage of the amount, and misses it by less than a hundred.
pub proof fn law_bounty_rounds_down(bounty_pct: u16, amount: u128)
    ensures
        100 * bounty_of(bounty_pct, amount) <= bounty_pct * amount < 100 * bounty_of(
            bounty_pct,
            amount,
        ) + 100,
{
}

/// `subscribe` refuses a percentage above 100 and leaves the state as it was.
pub proof fn law_subscribe_refuses_above_100(
    before: StorageView,
    subscriber: Seq<char>,
    bounty_pct: u16,
    min_bounty: Option<u128>,
)
    requires
        bounty_pct > 100,
    ensures
        subscribe_result(bounty_pct) == refused(ContractError::InvalidBountyPercentage),
        subscribe_state(before, subscriber, bounty_pct, min_bounty) == before,
{
}

/// For a sender that has a subscription, `update_subscription` refuses a
/// percentage above 100 and leaves the state as it was.
pub proof fn law_update_subscription_refuses_above_100(
    before: StorageView,
    sender: Seq<char>,
    new_bounty_pct: u16,
    new_min_bounty: Option<u128>,
)
    requires
        before.subscription(sender) is Some,
        new_bounty_pct > 100,
    ensures
        update_subscription_result(before, sender, Some(new_bounty_pct), new_min_bounty) == refused(ContractError::InvalidBountyPercentage),
        update_subscription_state(before, sender, Some(new_bounty_pct), new_min_bounty) == before,
{
}

/// `unsubscribe` can be repeated: both calls go through, the sender has no
/// subscription after either, and the second call changes nothing.
pub proof fn law_unsubscribe_idempotent(before: StorageView, sender: Seq<char>)
    ensures
        unsubscribe_result() is Ok,
        unsubscribe_state(before, sender).subscription(sender) is None,
        unsubscribe_state(unsubscribe_state(before, sender), sender).subscription(sender) is None,
        unsubscribe_state(unsubscribe_state(before, sender), sender) == unsubscribe_state(
            before,
            sender,
        ),
{
    let once = unsubscribe_state(before, sender);
    let twice = unsubscribe_state(once, sender);
    assert(twice.subscriptions =~= once.subscriptions);
}

/// Subscribing again replaces the terms: after two calls for one subscriber
/// the second terms are stored, and the state is the one that the second
/// call alone would have left.
pub proof fn law_subscribe_overwrites(
    before: StorageView,
    subscriber: Seq<char>,
    first_pct: u16,
    first_min: Option<u128>,
    second_pct: u16,
    second_min: Option<u128>,
)
    requires
        first_pct <= 100,
        second_pct <= 100,
    ensures
        subscribe_state(
            subscribe_state(before, subscriber, first_pct, first_min),
            subscriber,
            second_pct,
            second_min,
        ).subscription(subscriber) == Some(
            SubscriptionView { subscriber, bounty_pct: second_pct, min_bounty: second_min },
        ),
        subscribe_state(
            subscribe_state(before, subscriber, first_pct, first_min),
            subscriber,
            second_pct,
            second_min,
        ) == subscribe_state(before, subscriber, second_pct, second_min),
{
    let once = subscribe_state(before, subscriber, first_pct, first_min);
    let twice = subscribe_state(once, subscriber, second_pct, second_min);
    let direct = subscribe_state(before, subscriber, second_pct, second_min);
    assert(twice.subscriptions =~= direct.subscriptions);
}

/// Only the owner updates the configuration: from anyone else `update_config`
/// is refused as unauthorized, whatever it asks for and whatever the host
/// says, and the state stays as it was.
pub proof fn law_update_config_owner_only(
    before: StorageView,
    sender: Seq<char>,
    new_contract_owner: Option<Seq<char>>,
    new_protocol_fee: Option<u16>,
    owner_accepted: bool,
)
    requires
        before.config is Some,
        sender != before.config->0.contract_owner,
    ensures
        update_config_result(before, sender, new_contract_owner, new_protocol_fee, owner_accepted)
            == refused(ContractError::Unauthorized),
        update_config_state(before, sender, new_contract_owner, new_protocol_fee, owner_accepted)
            == before,
{
}

/// Only the owner withdraws: from anyone else `withdraw` is refused as
/// unauthorized.
pub proof fn law_withdraw_owner_only(state: StorageView, sender: Seq<char>, amount: Option<u128>)
    requires
        state.config is Some,
        sender != state.config->0.contract_owner,
    ensures
        withdraw_result(state, sender, amount) == refused(ContractError::Unauthorized),
{
}

/// An update that repeats the owner and the fee in office is refused as
/// changing nothing, whatever the host says of the owner, and the state
/// stays as it was.
pub proof fn law_update_config_refuses_no_change(before: StorageView, owner_accepted: bool)
    requires
        before.config is Some,
    ensures
        update_config_result(
            before,
            before.config->0.contract_owner,
            Some(before.config->0.contract_owner),
            Some(before.config->0.protocol_fee),
            owner_accepted,
        ) == refused(ContractError::NothingToUpdate),
        update_config_state(
            before,
            before.config->0.contract_owner,
            Some(before.config->0.contract_owner),
            Some(before.config->0.protocol_fee),
            owner_accepted,
        ) == before,
{
}

/// A deposit that is settled gives three instructions, in this order: the
/// bounty goes to the depositor and the remainder to the subscriber, both
/// through the ledger of the deposit, and the issuer of the configuration
/// mints the receipt that follows those it has issued to the depositor.
pub proof fn law_deposit_instructions(
    state: StorageView,
    subscriber: Seq<char>,
    subscriber_accepted: bool,
    hacker_addr: Seq<char>,
    cw20_addr: Seq<char>,
    amount: u128,
    num_tokens: Option<u64>,
)
    requires
        state.valid(),
        deposit_result(
            state,
            subscriber,
            subscriber_accepted,
            hacker_addr,
            cw20_addr,
            amount,
            num_tokens,
        ) is Ok,
    ensures
        ({
            let response = deposit_result(
                state,
                subscriber,
                subscriber_accepted,
                hacker_addr,
                cw20_addr,
                amount,
                num_tokens,
            )->Ok_0;
            let terms = state.subscriptions[subscriber];
            let bounty = bounty_of(terms.bounty_pct, amount) as u128;
            let remainder = remainder_of(terms.bounty_pct, amount) as u128;
            &&& subscriber_accepted
            &&& state.subscriptions.dom().contains(subscriber)
            &&& state.config is Some
            &&& num_tokens is Some
            &&& bounty + remainder == amount
            &&& response.messages.len() == 3
            &&& Some(response.messages[0]) == wire_transfer(cw20_addr, hacker_addr, bounty)
            &&& Some(response.messages[1]) == wire_transfer(cw20_addr, subscriber, remainder)
            &&& Some(response.messages[2]) == wire_mint(
                state.config->0.cw721_contract_addr,
                decimal((num_tokens->0 + 1) as nat),
                hacker_addr,
            )
        }),
{
    let terms = state.subscriptions[subscriber];
    lemma_bounty_bounds(terms.bounty_pct, amount);
    let instructions = settlement(
        terms,
        hacker_addr,
        cw20_addr,
        state.config->0.cw721_contract_addr,
        amount,
        num_tokens->0,
    );
    assert(wire(instructions[0]) is Some);
    assert(wire(instructions[1]) is Some);
    assert(wire(instructions[2]) is Some);
}

/// The operations keep the state valid: every subscription stays stored
/// under its own subscriber, with a percentage of at most 100.
pub proof fn law_state_stays_valid(
    before: StorageView,
    identity: Seq<char>,
    bounty_pct: u16,
    min_bounty: Option<u128>,
    new_bounty_pct: Option<u16>,
    new_contract_owner: Option<Seq<char>>,
    new_protocol_fee: Option<u16>,
    owner_accepted: bool,
)
    requires
        before.valid(),
    ensures
        subscribe_state(before, identity, bounty_pct, min_bounty).valid(),
        unsubscribe_state(before, identity).valid(),
        update_subscription_state(before, identity, new_bounty_pct, min_bounty).valid(),
        update_config_state(
            before,
            identity,
            new_contract_owner,
            new_protocol_fee,
            owner_accepted,
        ).valid(),
{
    assert(before.subscription(identity) is Some ==> before.subscriptions.dom().contains(
        identity,
    ));
}

} // verus!
