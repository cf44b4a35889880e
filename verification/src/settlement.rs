//! Settlement of a deposit: how it is split between the reporting party and
//! the subscriber, and which instructions go out in consequence.

use vstd::prelude::*;

use crate::addr::Addr;
use crate::decimal::{decimal, to_decimal};
use crate::encoding::{encode_mint, encode_transfer, mint_payload, transfer_payload};
use crate::error::ContractError;
use crate::response::{WasmExecute, WasmExecuteView};
use crate::state::{Subscription, SubscriptionView};

verus! {

/// The share of `amount` that goes to the reporting party at `bounty_pct`
/// percent: the percentage of the amount, rounded down.
pub open spec fn bounty_of(bounty_pct: u16, amount: u128) -> int {
    (bounty_pct as int * amount as int) / 100
}

/// The share of `amount` that stays with the subscriber: what the bounty
/// leaves.
pub open spec fn remainder_of(bounty_pct: u16, amount: u128) -> int {
    amount - bounty_of(bounty_pct, amount)
}

/// At up to 100 percent the bounty lies between nothing and the amount.
pub proof fn lemma_bounty_bounds(bounty_pct: u16, amount: u128)
    requires
        bounty_pct <= 100,
    ensures
        0 <= bounty_of(bounty_pct, amount) <= amount,
{
    let p = bounty_pct as int;
    let a = amount as int;
    assert(0 <= (p * a) / 100 <= a) by (nonlinear_arith)
        requires
            0 <= p <= 100,
            0 <= a,
    ;
}

/// Splits `amount` into the bounty and the remainder. The bounty is rounded
/// down, so what rounding takes from it stays with the subscriber.
pub fn split_bounty(bounty_pct: u16, amount: u128) -> (split: (u128, u128))
    requires
        bounty_pct <= 100,
    ensures
        split.0 == bounty_of(bounty_pct, amount),
        split.1 == remainder_of(bounty_pct, amount),
        split.0 + split.1 == amount,
{
    let pct = bounty_pct as u128;
    let hundreds = amount / 100;
    let units = amount % 100;
    proof {
        let p = pct as int;
        let q = hundreds as int;
        let r = units as int;
        let a = amount as int;
        assert(a == 100 * q + r);
        assert((p * a) / 100 == q * p + (r * p) / 100) by (nonlinear_arith)
            requires
                a == 100 * q + r,
        ;
        assert(0 <= q * p <= a && 0 <= r * p <= 9900) by (nonlinear_arith)
            requires
                a == 100 * q + r,
                0 <= p <= 100,
                0 <= q,
                0 <= r < 100,
        ;
        lemma_bounty_bounds(bounty_pct, amount);
    }
    let bounty = hundreds * pct + units * pct / 100;
    (bounty, amount - bounty)
}

/// An instruction to another contract, before it is put into its wire form.
#[derive(Debug)]
pub enum Instruction {
    /// Moves `amount` of the token that `ledger` keeps to `recipient`.
    TransferToken { ledger: Addr, recipient: Addr, amount: u128 },
    /// Has `issuer` mint the receipt token `token_id` to `owner`.
    MintReceipt { issuer: Addr, token_id: String, owner: Addr },
}

/// What an `Instruction` holds, as plain values.
pub enum InstructionView {
    TransferToken { ledger: Seq<char>, recipient: Seq<char>, amount: u128 },
    MintReceipt { issuer: Seq<char>, token_id: Seq<char>, owner: Seq<char> },
}

impl View for Instruction {
    type V = InstructionView;

    open spec fn view(&self) -> InstructionView {
        match self {
            Instruction::TransferToken { ledger, recipient, amount } => {
                InstructionView::TransferToken {
                    ledger: ledger@,
                    recipient: recipient@,
                    amount: *amount,
                }
            },
            Instruction::MintReceipt { issuer, token_id, owner } => InstructionView::MintReceipt {
                issuer: issuer@,
                token_id: token_id@,
                owner: owner@,
            },
        }
    }
}

/// What a list of instructions holds, as plain values.
pub open spec fn instruction_views(instructions: Seq<Instruction>) -> Seq<InstructionView> {
    instructions.map_values(|i: Instruction| i@)
}

/// The instructions that settle a deposit of `amount` from `depositor`
/// against `subscription`, in the order in which they go out: the bounty to
/// the depositor, the remainder to the subscriber, both in the token of
/// `ledger`, and the receipt that follows the `issued` receipts of `issuer`.
pub open spec fn settlement(
    subscription: SubscriptionView,
    depositor: Seq<char>,
    ledger: Seq<char>,
    issuer: Seq<char>,
    amount: u128,
    issued: u64,
) -> Seq<InstructionView> {
    seq![
        InstructionView::TransferToken {
            ledger,
            recipient: depositor,
            amount: bounty_of(subscription.bounty_pct, amount) as u128,
        },
        InstructionView::TransferToken {
            ledger,
            recipient: subscription.subscriber,
            amount: remainder_of(subscription.bounty_pct, amount) as u128,
        },
        InstructionView::MintReceipt {
            issuer,
            token_id: decimal((issued + 1) as nat),
            owner: depositor,
        },
    ]
}

/// Computes the instructions that settle a deposit.
pub fn settle(
    subscription: &Subscription,
    depositor: &Addr,
    ledger: &Addr,
    issuer: &Addr,
    amount: u128,
    issued: u64,
) -> (instructions: Vec<Instruction>)
    requires
        subscription.bounty_pct <= 100,
    ensures
        instruction_views(instructions@) == settlement(
            subscription@,
            depositor@,
            ledger@,
            issuer@,
            amount,
            issued,
        ),
{
    let (bounty, remainder) = split_bounty(subscription.bounty_pct, amount);
    let mut instructions: Vec<Instruction> = Vec::new();
    instructions.push(
        Instruction::TransferToken {
            ledger: ledger.clone(),
            recipient: depositor.clone(),
            amount: bounty,
        },
    );
    instructions.push(
        Instruction::TransferToken {
            ledger: ledger.clone(),
            recipient: subscription.subscriber.clone(),
            amount: remainder,
        },
    );
    instructions.push(
        Instruction::MintReceipt {
            issuer: issuer.clone(),
            token_id: to_decimal(issued as u128 + 1),
            owner: depositor.clone(),
        },
    );
    assert(instruction_views(instructions@) =~= settlement(
        subscription@,
        depositor@,
        ledger@,
        issuer@,
        amount,
        issued,
    ));
    instructions
}

/// The call that moves `amount` of the token of `ledger` to `recipient`, or
/// `None` where the transfer has no wire form.
pub open spec fn wire_transfer(ledger: Seq<char>, recipient: Seq<char>, amount: u128) -> Option<
    WasmExecuteView,
> {
    match transfer_payload(recipient, amount) {
        Some(msg) => Some(WasmExecuteView { contract_addr: ledger, msg }),
        None => None,
    }
}

/// The call that has `issuer` mint the receipt `token_id` to `owner`, without
/// a token URI, or `None` where the mint has no wire form.
pub open spec fn wire_mint(issuer: Seq<char>, token_id: Seq<char>, owner: Seq<char>) -> Option<
    WasmExecuteView,
> {
    match mint_payload(token_id, owner, None) {
        Some(msg) => Some(WasmExecuteView { contract_addr: issuer, msg }),
        None => None,
    }
}

/// The call that carries `instruction` out: the contract it goes to and the
/// wire form of the message, or `None` where the message has no wire form.
pub open spec fn wire(instruction: InstructionView) -> Option<WasmExecuteView> {
    match instruction {
        InstructionView::TransferToken { ledger, recipient, amount } => wire_transfer(
            ledger,
            recipient,
            amount,
        ),
        InstructionView::MintReceipt { issuer, token_id, owner } => wire_mint(
            issuer,
            token_id,
            owner,
        ),
    }
}

/// The calls that carry `instructions` out, in the same order, or `None`
/// where one of them has no wire form.
pub open spec fn wire_all(instructions: Seq<InstructionView>) -> Option<Seq<WasmExecuteView>> {
    if forall|i: int| 0 <= i < instructions.len() ==> (#[trigger] wire(instructions[i])) is Some {
        Some(instructions.map_values(|i: InstructionView| wire(i)->0))
    } else {
        None
    }
}

impl Instruction {
    /// Puts the instruction into the form in which the host carries it out.
    pub fn into_message(&self) -> (message: Result<WasmExecute, ContractError>)
        ensures
            match message {
                Ok(m) => wire(self@) == Some(m@),
                Err(e) => e == ContractError::EncodingFailed && wire(self@) is None,
            },
    {
        match self {
            Instruction::TransferToken { ledger, recipient, amount } => {
                match encode_transfer(recipient.as_str(), *amount) {
                    Ok(msg) => Ok(WasmExecute { contract_addr: ledger.clone().into_string(), msg }),
                    Err(_) => Err(ContractError::EncodingFailed),
                }
            },
            Instruction::MintReceipt { issuer, token_id, owner } => {
                match encode_mint(token_id.as_str(), owner.as_str(), None) {
                    Ok(msg) => Ok(WasmExecute { contract_addr: issuer.clone().into_string(), msg }),
                    Err(_) => Err(ContractError::EncodingFailed),
                }
            },
        }
    }
}

/// Puts each of `instructions` into the form in which the host carries it
/// out, in the same order.
pub fn into_messages(instructions: &Vec<Instruction>) -> (messages: Result<
    Vec<WasmExecute>,
    ContractError,
>)
    ensures
        match messages {
            Ok(m) => wire_all(instruction_views(instructions@)) == Some(
                m@.map_values(|w: WasmExecute| w@),
            ),
            Err(e) => e == ContractError::EncodingFailed && wire_all(
                instruction_views(instructions@),
            ) is None,
        },
{
    let ghost views = instruction_views(instructions@);
    let mut messages: Vec<WasmExecute> = Vec::new();
    let mut i: usize = 0;
    while i < instructions.len()
        invariant
            i <= instructions@.len(),
            views == instruction_views(instructions@),
            messages@.len() == i,
            forall|j: int| 0 <= j < i ==> wire(#[trigger] views[j]) == Some(messages@[j]@),
        decreases instructions@.len() - i,
    {
        match instructions[i].into_message() {
            Ok(message) => {
                messages.push(message);
            },
            Err(e) => {
                assert(wire(views[i as int]) is None);
                return Err(e);
            },
        }
        i = i + 1;
    }
    assert(wire_all(views)->0 =~= messages@.map_values(|w: WasmExecute| w@));
    Ok(messages)
}

} // verus!
