//! The operations of the contract. Each takes the stored state and plain
//! values, and hands back the response for the host or the reason for which
//! it refused. An operation that refuses leaves the state as it was.
//!
//! Three things only the host can tell: whether it accepts an identity, and
//! how many receipts the issuer has handed out. The operations that depend on
//! them take the host's answers as arguments.

use vstd::prelude::*;

use crate::addr::Addr;
use crate::decimal::{decimal, to_decimal};
use crate::error::ContractError;
use crate::response::{Response, ResponseView};
use crate::settlement::{into_messages, settle, settlement, wire_all};
use crate::state::{Config, ConfigView, Storage, StorageView, Subscription, SubscriptionView};

verus! {

/// What an operation handed back, as plain values.
pub open spec fn outcome(result: Result<Response, ContractError>) -> Result<
    ResponseView,
    ContractError,
> {
    match result {
        Ok(response) => Ok(response@),
        Err(e) => Err(e),
    }
}

/// What an operation hands back when it refuses for the reason `e`.
pub open spec fn refused(e: ContractError) -> Result<ResponseView, ContractError> {
    Err(e)
}

/// The response of an operation that reports its name and nothing else.
pub open spec fn action(name: Seq<char>) -> ResponseView {
    ResponseView::empty().add_attribute("action"@, name)
}

/// What `subscribe` hands back.
pub open spec fn subscribe_result(bounty_pct: u16) -> Result<ResponseView, ContractError> {
    if bounty_pct > 100 {
        Err(ContractError::InvalidBountyPercentage)
    } else {
        Ok(action("subscribe"@))
    }
}

/// The state that `subscribe` leaves.
pub open spec fn subscribe_state(
    before: StorageView,
    subscriber: Seq<char>,
    bounty_pct: u16,
    min_bounty: Option<u128>,
) -> StorageView {
    if bounty_pct > 100 {
        before
    } else {
        StorageView {
            config: before.config,
            subscriptions: before.subscriptions.insert(
                subscriber,
                SubscriptionView { subscriber, bounty_pct, min_bounty },
            ),
        }
    }
}

/// Registers the terms of `subscriber`, in place of those it had, if any.
/// Anyone may subscribe. A percentage above 100 is refused.
pub fn subscribe(
    storage: &mut Storage,
    subscriber: Addr,
    bounty_pct: u16,
    min_bounty: Option<u128>,
) -> (result: Result<Response, ContractError>)
    requires
        old(storage).wf(),
    ensures
        final(storage).wf(),
        outcome(result) == subscribe_result(bounty_pct),
        final(storage)@ == subscribe_state(old(storage)@, subscriber@, bounty_pct, min_bounty),
{
    if bounty_pct > 100 {
        return Err(ContractError::InvalidBountyPercentage);
    }
    storage.save_subscription(Subscription { subscriber, bounty_pct, min_bounty });
    Ok(Response::new().add_attribute("action", "subscribe"))
}

/// What `unsubscribe` hands back.
pub open spec fn unsubscribe_result() -> Result<ResponseView, ContractError> {
    Ok(action("unsubscribe"@))
}

/// The state that `unsubscribe` leaves.
pub open spec fn unsubscribe_state(before: StorageView, sender: Seq<char>) -> StorageView {
    StorageView { config: before.config, subscriptions: before.subscriptions.remove(sender) }
}

/// Removes the subscription of `sender`. Where it has none, nothing changes
/// and the call still goes through.
pub fn unsubscribe(storage: &mut Storage, sender: &Addr) -> (result: Result<
    Response,
    ContractError,
>)
    requires
        old(storage).wf(),
    ensures
        final(storage).wf(),
        outcome(result) == unsubscribe_result(),
        final(storage)@ == unsubscribe_state(old(storage)@, sender@),
{
    storage.remove_subscription(sender);
    Ok(Response::new().add_attribute("action", "unsubscribe"))
}

/// What `update_subscription` hands back.
pub open spec fn update_subscription_result(
    before: StorageView,
    sender: Seq<char>,
    new_bounty_pct: Option<u16>,
    new_min_bounty: Option<u128>,
) -> Result<ResponseView, ContractError> {
    match before.subscription(sender) {
        None => Err(ContractError::NotFound),
        Some(stored) => {
            if new_bounty_pct is None && new_min_bounty == stored.min_bounty {
                Err(ContractError::NothingToUpdate)
            } else if new_bounty_pct is Some && new_bounty_pct->0 > 100 {
                Err(ContractError::InvalidBountyPercentage)
            } else {
                Ok(action("update_subscription"@))
            }
        },
    }
}

/// The state that `update_subscription` leaves. A percentage that is not
/// given stays; the minimum is replaced in any case, so it can be cleared.
pub open spec fn update_subscription_state(
    before: StorageView,
    sender: Seq<char>,
    new_bounty_pct: Option<u16>,
    new_min_bounty: Option<u128>,
) -> StorageView {
    if update_subscription_result(before, sender, new_bounty_pct, new_min_bounty) is Ok {
        let stored = before.subscriptions[sender];
        StorageView {
            config: before.config,
            subscriptions: before.subscriptions.insert(
                sender,
                SubscriptionView {
                    subscriber: stored.subscriber,
                    bounty_pct: match new_bounty_pct {
                        Some(pct) => pct,
                        None => stored.bounty_pct,
                    },
                    min_bounty: new_min_bounty,
                },
            ),
        }
    } else {
        before
    }
}

/// Changes the terms of `sender`.
pub fn update_subscription(
    storage: &mut Storage,
    sender: &Addr,
    new_bounty_pct: Option<u16>,
    new_min_bounty: Option<u128>,
) -> (result: Result<Response, ContractError>)
    requires
        old(storage).wf(),
    ensures
        final(storage).wf(),
        outcome(result) == update_subscription_result(
            old(storage)@,
            sender@,
            new_bounty_pct,
            new_min_bounty,
        ),
        final(storage)@ == update_subscription_state(
            old(storage)@,
            sender@,
            new_bounty_pct,
            new_min_bounty,
        ),
{
    proof {
        storage.lemma_wf_valid();
    }
    let stored = match storage.load_subscription(sender) {
        Ok(stored) => stored,
        Err(e) => {
            return Err(e);
        },
    };
    if new_bounty_pct.is_none() && new_min_bounty == stored.min_bounty {
        return Err(ContractError::NothingToUpdate);
    }
    let bounty_pct = match new_bounty_pct {
        Some(pct) => {
            if pct > 100 {
                return Err(ContractError::InvalidBountyPercentage);
            }
            pct
        },
        None => stored.bounty_pct,
    };
    let updated = Subscription {
        subscriber: stored.subscriber.clone(),
        bounty_pct,
        min_bounty: new_min_bounty,
    };
    storage.save_subscription(updated);
    Ok(Response::new().add_attribute("action", "update_subscription"))
}

/// The owner that an update of the configuration asks for: the new one
/// where one is given, else the one in office.
pub open spec fn owner_after(current: ConfigView, new_contract_owner: Option<Seq<char>>) -> Seq<
    char,
> {
    match new_contract_owner {
        Some(owner) => owner,
        None => current.contract_owner,
    }
}

/// The fee that an update of the configuration asks for.
pub open spec fn fee_after(current: ConfigView, new_protocol_fee: Option<u16>) -> u16 {
    match new_protocol_fee {
        Some(fee) => fee,
        None => current.protocol_fee,
    }
}

/// What `update_config` hands back. `owner_accepted` is the host's verdict
/// on `owner_after`.
pub open spec fn update_config_result(
    before: StorageView,
    sender: Seq<char>,
    new_contract_owner: Option<Seq<char>>,
    new_protocol_fee: Option<u16>,
    owner_accepted: bool,
) -> Result<ResponseView, ContractError> {
    match before.config {
        None => Err(ContractError::NotInitialized),
        Some(current) => {
            if sender != current.contract_owner {
                Err(ContractError::Unauthorized)
            } else if owner_after(current, new_contract_owner) == current.contract_owner
                && fee_after(current, new_protocol_fee) == current.protocol_fee {
                Err(ContractError::NothingToUpdate)
            } else if !owner_accepted {
                Err(ContractError::InvalidAddress)
            } else {
                Ok(action("update_config"@))
            }
        },
    }
}

/// The state that `update_config` leaves.
pub open spec fn update_config_state(
    before: StorageView,
    sender: Seq<char>,
    new_contract_owner: Option<Seq<char>>,
    new_protocol_fee: Option<u16>,
    owner_accepted: bool,
) -> StorageView {
    if update_config_result(before, sender, new_contract_owner, new_protocol_fee, owner_accepted)
        is Ok {
        let current = before.config->0;
        StorageView {
            config: Some(
                ConfigView {
                    contract_owner: owner_after(current, new_contract_owner),
                    protocol_fee: fee_after(current, new_protocol_fee),
                    cw721_contract_addr: current.cw721_contract_addr,
                },
            ),
            subscriptions: before.subscriptions,
        }
    } else {
        before
    }
}

/// The identity that the host is to be asked about before `update_config`
/// is called with the same `new_contract_owner`: the owner that the update
/// asks for. There is none before the configuration is stored.
pub fn owner_candidate(storage: &Storage, new_contract_owner: &Option<String>) -> (candidate:
    Option<String>)
    ensures
        match candidate {
            Some(owner) => storage@.config is Some && owner@ == owner_after(
                storage@.config->0,
                text_of(*new_contract_owner),
            ),
            None => storage@.config is None,
        },
{
    match storage.load_config() {
        Ok(current) => match new_contract_owner {
            Some(owner) => Some(owner.clone()),
            None => Some(current.contract_owner.clone().into_string()),
        },
        Err(_) => None,
    }
}

/// The text of a string that may be absent.
pub open spec fn text_of(text: Option<String>) -> Option<Seq<char>> {
    match text {
        Some(t) => Some(t@),
        None => None,
    }
}

/// Changes the owner, the fee, or both. Only the owner may do so, and only
/// where something changes and the host accepts the owner that is asked for.
pub fn update_config(
    storage: &mut Storage,
    sender: &Addr,
    new_contract_owner: Option<String>,
    new_protocol_fee: Option<u16>,
    owner_accepted: bool,
) -> (result: Result<Response, ContractError>)
    requires
        old(storage).wf(),
    ensures
        final(storage).wf(),
        outcome(result) == update_config_result(
            old(storage)@,
            sender@,
            text_of(new_contract_owner),
            new_protocol_fee,
            owner_accepted,
        ),
        final(storage)@ == update_config_state(
            old(storage)@,
            sender@,
            text_of(new_contract_owner),
            new_protocol_fee,
            owner_accepted,
        ),
{
    let current = match storage.load_config() {
        Ok(current) => current,
        Err(e) => {
            return Err(e);
        },
    };
    if !current.is_owner(sender) {
        return Err(ContractError::Unauthorized);
    }
    let contract_owner = match new_contract_owner {
        Some(owner) => Addr::unchecked(owner),
        None => current.contract_owner.clone(),
    };
    let protocol_fee = match new_protocol_fee {
        Some(fee) => fee,
        None => current.protocol_fee,
    };
    if current.is_owner(&contract_owner) && protocol_fee == current.protocol_fee {
        return Err(ContractError::NothingToUpdate);
    }
    if !owner_accepted {
        return Err(ContractError::InvalidAddress);
    }
    let updated = Config {
        contract_owner,
        protocol_fee,
        cw721_contract_addr: current.cw721_contract_addr.clone(),
    };
    storage.save_config(updated);
    Ok(Response::new().add_attribute("action", "update_config"))
}

/// What `withdraw` hands back. An amount that is not given counts as zero.
pub open spec fn withdraw_result(
    state: StorageView,
    sender: Seq<char>,
    amount: Option<u128>,
) -> Result<ResponseView, ContractError> {
    match state.config {
        None => Err(ContractError::NotInitialized),
        Some(current) => {
            if sender != current.contract_owner {
                Err(ContractError::Unauthorized)
            } else {
                Ok(
                    action("withdraw"@).add_attribute(
                        "amount"@,
                        decimal(
                            match amount {
                                Some(a) => a as nat,
                                None => 0,
                            },
                        ),
                    ),
                )
            }
        },
    }
}

/// Checks that `sender` may withdraw and reports the amount. No funds move.
pub fn withdraw(storage: &Storage, sender: &Addr, amount: Option<u128>) -> (result: Result<
    Response,
    ContractError,
>)
    ensures
        outcome(result) == withdraw_result(storage@, sender@, amount),
{
    let current = match storage.load_config() {
        Ok(current) => current,
        Err(e) => {
            return Err(e);
        },
    };
    if !current.is_owner(sender) {
        return Err(ContractError::Unauthorized);
    }
    let amount = match amount {
        Some(a) => a,
        None => 0u128,
    };
    let text = to_decimal(amount);
    Ok(Response::new().add_attribute("action", "withdraw").add_attribute("amount", text.as_str()))
}

/// What `deposit_cw20` hands back. `subscriber_accepted` is the host's
/// verdict on `subscriber`, and `num_tokens` the number of receipts that the
/// issuer reported, or `None` where it reported none.
pub open spec fn deposit_result(
    state: StorageView,
    subscriber: Seq<char>,
    subscriber_accepted: bool,
    hacker_addr: Seq<char>,
    cw20_addr: Seq<char>,
    amount: u128,
    num_tokens: Option<u64>,
) -> Result<ResponseView, ContractError> {
    if !subscriber_accepted {
        Err(ContractError::InvalidAddress)
    } else if state.subscription(subscriber) is None {
        Err(ContractError::NotFound)
    } else if state.config is None {
        Err(ContractError::NotInitialized)
    } else if num_tokens is None {
        Err(ContractError::ExternalQueryFailed)
    } else {
        match wire_all(
            settlement(
                state.subscriptions[subscriber],
                hacker_addr,
                cw20_addr,
                state.config->0.cw721_contract_addr,
                amount,
                num_tokens->0,
            ),
        ) {
            None => Err(ContractError::EncodingFailed),
            Some(messages) => Ok(
                ResponseView { attributes: action("deposit_cw20"@).attributes, messages },
            ),
        }
    }
}

/// Settles a deposit of `amount` that `hacker_addr` made in the token of
/// `cw20_addr` against the subscription of `subscriber`. Nothing is stored
/// and nothing is carried out: the response holds the instructions for the
/// host, in their order.
pub fn deposit_cw20(
    storage: &Storage,
    subscriber: String,
    subscriber_accepted: bool,
    hacker_addr: Addr,
    cw20_addr: Addr,
    amount: u128,
    num_tokens: Option<u64>,
) -> (result: Result<Response, ContractError>)
    requires
        storage.wf(),
    ensures
        outcome(result) == deposit_result(
            storage@,
            subscriber@,
            subscriber_accepted,
            hacker_addr@,
            cw20_addr@,
            amount,
            num_tokens,
        ),
{
    proof {
        storage.lemma_wf_valid();
    }
    if !subscriber_accepted {
        return Err(ContractError::InvalidAddress);
    }
    let subscriber = Addr::unchecked(subscriber);
    let subscription = match storage.load_subscription(&subscriber) {
        Ok(subscription) => subscription,
        Err(e) => {
            return Err(e);
        },
    };
    let config = match storage.load_config() {
        Ok(config) => config,
        Err(e) => {
            return Err(e);
        },
    };
    let issued = match num_tokens {
        Some(count) => count,
        None => {
            return Err(ContractError::ExternalQueryFailed);
        },
    };
    let instructions = settle(
        subscription,
        &hacker_addr,
        &cw20_addr,
        &config.cw721_contract_addr,
        amount,
        issued,
    );
    let messages = match into_messages(&instructions) {
        Ok(messages) => messages,
        Err(e) => {
            return Err(e);
        },
    };
    let mut response = Response::new().add_attribute("action", "deposit_cw20");
    response.messages = messages;
    Ok(response)
}

/// What a token ledger sends along with a deposit, once it is decoded.
#[derive(Debug)]
pub enum ReceiveMsg {
    /// The deposit is meant for the subscription of `subscriber`.
    DepositCw20 { subscriber: String },
}

/// The notice that a token ledger gives of a deposit.
#[derive(Debug)]
pub struct Cw20ReceiveMsg {
    /// Who made the deposit.
    pub sender: String,
    /// How much was deposited.
    pub amount: u128,
    /// What the depositor sent along.
    pub msg: ReceiveMsg,
}

/// What `handle_receive_cw20` hands back. `sender_accepted` is the host's
/// verdict on the depositor that the notice names.
pub open spec fn receive_result(
    state: StorageView,
    cw20_addr: Seq<char>,
    cw20_msg: Cw20ReceiveMsg,
    sender_accepted: bool,
    subscriber_accepted: bool,
    num_tokens: Option<u64>,
) -> Result<ResponseView, ContractError> {
    if !sender_accepted {
        Err(ContractError::InvalidAddress)
    } else {
        match cw20_msg.msg {
            ReceiveMsg::DepositCw20 { subscriber } => deposit_result(
                state,
                subscriber@,
                subscriber_accepted,
                cw20_msg.sender@,
                cw20_addr,
                cw20_msg.amount,
                num_tokens,
            ),
        }
    }
}

/// Takes the notice `cw20_msg` that the token ledger `cw20_addr` gave of a
/// deposit, and settles the deposit.
pub fn handle_receive_cw20(
    storage: &Storage,
    cw20_addr: Addr,
    cw20_msg: Cw20ReceiveMsg,
    sender_accepted: bool,
    subscriber_accepted: bool,
    num_tokens: Option<u64>,
) -> (result: Result<Response, ContractError>)
    requires
        storage.wf(),
    ensures
        outcome(result) == receive_result(
            storage@,
            cw20_addr@,
            cw20_msg,
            sender_accepted,
            subscriber_accepted,
            num_tokens,
        ),
{
    if !sender_accepted {
        return Err(ContractError::InvalidAddress);
    }
    let hacker_addr = Addr::unchecked(cw20_msg.sender);
    match cw20_msg.msg {
        ReceiveMsg::DepositCw20 { subscriber } => deposit_cw20(
            storage,
            subscriber,
            subscriber_accepted,
            hacker_addr,
            cw20_addr,
            cw20_msg.amount,
            num_tokens,
        ),
    }
}

} // verus!
