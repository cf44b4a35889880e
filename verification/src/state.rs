//! The state that the contract keeps between calls: one configuration record
//! and a table of subscriptions, one for each subscriber.

use vstd::prelude::*;

use crate::addr::Addr;
use crate::error::ContractError;

verus! {

/// The configuration of the contract.
#[derive(Debug)]
pub struct Config {
    /// The one identity that may update the configuration and withdraw.
    pub contract_owner: Addr,
    /// A fee kept for the protocol. Settlement does not read it.
    pub protocol_fee: u16,
    /// The contract that mints receipt tokens and reports how many it has
    /// issued.
    pub cw721_contract_addr: Addr,
}

/// What a `Config` holds, as plain values.
pub struct ConfigView {
    pub contract_owner: Seq<char>,
    pub protocol_fee: u16,
    pub cw721_contract_addr: Seq<char>,
}

impl View for Config {
    type V = ConfigView;

    open spec fn view(&self) -> ConfigView {
        ConfigView {
            contract_owner: self.contract_owner@,
            protocol_fee: self.protocol_fee,
            cw721_contract_addr: self.cw721_contract_addr@,
        }
    }
}

impl Clone for Config {
    fn clone(&self) -> (copy: Config)
        ensures
            copy@ == self@,
    {
        Config {
            contract_owner: self.contract_owner.clone(),
            protocol_fee: self.protocol_fee,
            cw721_contract_addr: self.cw721_contract_addr.clone(),
        }
    }
}

impl Config {
    /// Whether `caller` is the contract owner.
    pub fn is_owner(&self, caller: &Addr) -> (owner: bool)
        ensures
            owner == (caller@ == self@.contract_owner),
    {
        self.contract_owner == *caller
    }
}

/// The terms under which one subscriber pays bounties.
#[derive(Debug)]
pub struct Subscription {
    /// The subscriber, under whose identity the record is stored.
    pub subscriber: Addr,
    /// The share of each deposit that goes to the reporting party, in percent.
    pub bounty_pct: u16,
    /// A lower bound for bounties. It is stored and handed back; settlement
    /// does not read it.
    pub min_bounty: Option<u128>,
}

/// What a `Subscription` holds, as plain values.
pub struct SubscriptionView {
    pub subscriber: Seq<char>,
    pub bounty_pct: u16,
    pub min_bounty: Option<u128>,
}

impl View for Subscription {
    type V = SubscriptionView;

    open spec fn view(&self) -> SubscriptionView {
        SubscriptionView {
            subscriber: self.subscriber@,
            bounty_pct: self.bounty_pct,
            min_bounty: self.min_bounty,
        }
    }
}

impl Clone for Subscription {
    fn clone(&self) -> (copy: Subscription)
        ensures
            copy@ == self@,
    {
        Subscription {
            subscriber: self.subscriber.clone(),
            bounty_pct: self.bounty_pct,
            min_bounty: self.min_bounty,
        }
    }
}

/// The stored state as a mathematical value: the configuration, if it has
/// been stored, and the subscriptions by the text of the subscriber.
#[verifier::ext_equal]
pub struct StorageView {
    pub config: Option<ConfigView>,
    pub subscriptions: Map<Seq<char>, SubscriptionView>,
}

impl StorageView {
    /// Every subscription is stored under its own subscriber and pays out at
    /// most the whole deposit.
    pub open spec fn valid(self) -> bool {
        forall|key: Seq<char>| #[trigger]
            self.subscriptions.dom().contains(key) ==> {
                &&& self.subscriptions[key].subscriber == key
                &&& self.subscriptions[key].bounty_pct <= 100
            }
    }

    /// The subscription stored for `key`, if there is one.
    pub open spec fn subscription(self, key: Seq<char>) -> Option<SubscriptionView> {
        if self.subscriptions.dom().contains(key) {
            Some(self.subscriptions[key])
        } else {
            None
        }
    }
}

/// The stored state of the contract.
#[derive(Debug)]
pub struct Storage {
    config: Option<Config>,
    subscriptions: Vec<Subscription>,
}

/// Whether some record of `records` belongs to `key`.
spec fn stored(records: Seq<Subscription>, key: Seq<char>) -> bool {
    exists|i: int| 0 <= i < records.len() && #[trigger] records[i].subscriber@ == key
}

/// The place of the record that belongs to `key`.
spec fn place(records: Seq<Subscription>, key: Seq<char>) -> int {
    choose|i: int| 0 <= i < records.len() && #[trigger] records[i].subscriber@ == key
}

/// No two records belong to the same subscriber.
spec fn distinct(records: Seq<Subscription>) -> bool {
    forall|i: int, j: int|
        0 <= i < j < records.len() ==> #[trigger] records[i].subscriber@
            != #[trigger] records[j].subscriber@
}

/// The records as a map from subscriber to record.
spec fn table(records: Seq<Subscription>) -> Map<Seq<char>, SubscriptionView> {
    Map::new(
        |key: Seq<char>| stored(records, key),
        |key: Seq<char>| records[place(records, key)]@,
    )
}

/// Among distinct records, the record at `i` is the one the table holds for
/// its subscriber.
proof fn lemma_table_at(records: Seq<Subscription>, i: int)
    requires
        distinct(records),
        0 <= i < records.len(),
    ensures
        table(records).dom().contains(records[i].subscriber@),
        table(records)[records[i].subscriber@] == records[i]@,
{
    let key = records[i].subscriber@;
    assert(stored(records, key));
    let p = place(records, key);
    assert(p == i) by {
        if p < i {
            assert(records[p].subscriber@ != records[i].subscriber@);
        } else if i < p {
            assert(records[i].subscriber@ != records[p].subscriber@);
        }
    }
}

impl View for Storage {
    type V = StorageView;

    closed spec fn view(&self) -> StorageView {
        StorageView {
            config: match self.config {
                Some(config) => Some(config@),
                None => None,
            },
            subscriptions: table(self.subscriptions@),
        }
    }
}

impl Storage {
    /// The invariant of the stored state: one record for each subscriber,
    /// none of which pays out more than the whole deposit.
    pub closed spec fn wf(&self) -> bool {
        &&& distinct(self.subscriptions@)
        &&& forall|i: int|
            0 <= i < self.subscriptions@.len() ==> (#[trigger] self.subscriptions@[i]).bounty_pct
                <= 100
    }

    /// A well-formed state is valid as a mathematical value.
    pub proof fn lemma_wf_valid(&self)
        requires
            self.wf(),
        ensures
            self@.valid(),
    {
        let records = self.subscriptions@;
        assert forall|key: Seq<char>| #[trigger]
            self@.subscriptions.dom().contains(key) implies self@.subscriptions[key].subscriber
            == key && self@.subscriptions[key].bounty_pct <= 100 by {
            assert(stored(records, key));
            let p = place(records, key);
            assert(records[p].bounty_pct <= 100);
        }
    }

    /// The state before deployment: no configuration and no subscription.
    pub fn new() -> (storage: Storage)
        ensures
            storage.wf(),
            storage@.config is None,
            storage@.subscriptions == Map::<Seq<char>, SubscriptionView>::empty(),
    {
        let storage = Storage { config: None, subscriptions: Vec::new() };
        assert(storage@.subscriptions =~= Map::<Seq<char>, SubscriptionView>::empty());
        storage
    }

    /// The place of the record of `key`, if it has one.
    fn find(&self, key: &Addr) -> (found: Option<usize>)
        ensures
            match found {
                Some(i) => i < self.subscriptions@.len() && self.subscriptions@[i as int].subscriber@
                    == key@,
                None => !stored(self.subscriptions@, key@),
            },
    {
        let mut i: usize = 0;
        while i < self.subscriptions.len()
            invariant
                i <= self.subscriptions@.len(),
                forall|j: int| 0 <= j < i ==> (#[trigger] self.subscriptions@[j]).subscriber@ != key@,
            decreases self.subscriptions@.len() - i,
        {
            if self.subscriptions[i].subscriber == *key {
                return Some(i);
            }
            i = i + 1;
        }
        None
    }

    /// Reads the configuration.
    pub fn load_config(&self) -> (loaded: Result<&Config, ContractError>)
        ensures
            match loaded {
                Ok(config) => self@.config == Some(config@),
                Err(e) => e == ContractError::NotInitialized && self@.config is None,
            },
    {
        match &self.config {
            Some(config) => Ok(config),
            None => Err(ContractError::NotInitialized),
        }
    }

    /// Stores `config` in place of the configuration, if there was one.
    pub fn save_config(&mut self, config: Config)
        requires
            old(self).wf(),
        ensures
            final(self).wf(),
            final(self)@.config == Some(config@),
            final(self)@.subscriptions == old(self)@.subscriptions,
    {
        self.config = Some(config);
    }

    /// Reads the subscription of `key`.
    pub fn load_subscription(&self, key: &Addr) -> (loaded: Result<&Subscription, ContractError>)
        requires
            self.wf(),
        ensures
            match loaded {
                Ok(subscription) => self@.subscription(key@) == Some(subscription@),
                Err(e) => e == ContractError::NotFound && self@.subscription(key@) is None,
            },
    {
        match self.find(key) {
            Some(i) => {
                proof {
                    lemma_table_at(self.subscriptions@, i as int);
                }
                Ok(&self.subscriptions[i])
            },
            None => Err(ContractError::NotFound),
        }
    }

    /// Stores `subscription` under its subscriber, in place of the record
    /// that the subscriber had, if any.
    pub fn save_subscription(&mut self, subscription: Subscription)
        requires
            old(self).wf(),
            subscription.bounty_pct <= 100,
        ensures
            final(self).wf(),
            final(self)@.config == old(self)@.config,
            final(self)@.subscriptions == old(self)@.subscriptions.insert(
                subscription.subscriber@,
                subscription@,
            ),
    {
        let ghost before = self.subscriptions@;
        let ghost key = subscription.subscriber@;
        let ghost value = subscription@;
        let ghost at: int;
        match self.find(&subscription.subscriber) {
            Some(i) => {
                self.subscriptions.set(i, subscription);
                proof {
                    at = i as int;
                }
            },
            None => {
                self.subscriptions.push(subscription);
                proof {
                    at = before.len() as int;
                }
            },
        }
        proof {
            let after = self.subscriptions@;
            assert(after[at]@ == value);
            assert(distinct(after));
            assert forall|k: Seq<char>| #[trigger]
                table(after).dom().contains(k) == table(before).insert(key, value).dom().contains(
                    k,
                ) by {
                if stored(after, k) {
                    let p = place(after, k);
                    if k != key {
                        assert(before[p].subscriber@ == k);
                    }
                }
                if stored(before, k) {
                    let p = place(before, k);
                    assert(after[p].subscriber@ == k || k == key);
                }
                if k == key {
                    assert(after[at].subscriber@ == key);
                }
            }
            assert forall|k: Seq<char>| #[trigger]
                table(after).dom().contains(k) implies table(after)[k] == table(before).insert(
                key,
                value,
            )[k] by {
                let p = place(after, k);
                lemma_table_at(after, p);
                if k != key {
                    assert(before[p].subscriber@ == k);
                    lemma_table_at(before, p);
                }
            }
            assert(table(after) =~= table(before).insert(key, value));
        }
    }

    /// Removes the subscription of `key`. Where there is none, nothing
    /// changes.
    pub fn remove_subscription(&mut self, key: &Addr)
        requires
            old(self).wf(),
        ensures
            final(self).wf(),
            final(self)@.config == old(self)@.config,
            final(self)@.subscriptions == old(self)@.subscriptions.remove(key@),
    {
        let ghost before = self.subscriptions@;
        match self.find(key) {
            Some(i) => {
                self.subscriptions.remove(i);
                proof {
                    let after = self.subscriptions@;
                    assert(after == before.remove(i as int));
                    assert(distinct(after));
                    assert forall|k: Seq<char>| #[trigger]
                        table(after).dom().contains(k) == table(before).remove(key@).dom().contains(
                            k,
                        ) by {
                        if stored(after, k) {
                            let p = place(after, k);
                            let q = if p < i { p } else { p + 1 };
                            assert(before[q].subscriber@ == k);
                            if k == key@ {
                                assert(before[i as int].subscriber@ == before[q].subscriber@);
                            }
                        }
                        if stored(before, k) && k != key@ {
                            let q = place(before, k);
                            let p = if q < i { q } else { q - 1 };
                            assert(after[p].subscriber@ == k);
                        }
                    }
                    assert forall|k: Seq<char>| #[trigger]
                        table(after).dom().contains(k) implies table(after)[k] == table(
                        before,
                    ).remove(key@)[k] by {
                        let p = place(after, k);
                        let q = if p < i { p } else { p + 1 };
                        lemma_table_at(after, p);
                        assert(before[q].subscriber@ == k);
                        lemma_table_at(before, q);
                    }
                    assert(table(after) =~= table(before).remove(key@));
                }
            },
            None => {
                assert(table(before) =~= table(before).remove(key@));
            },
        }
    }
}

} // verus!
