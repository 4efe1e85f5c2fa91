//! The environment of a contract call, and the effects that the call leaves.

use crate::event::Event;
use crate::key::DataKey;
use crate::store::{well_typed, Store};
use crate::types::{Address, Bytes32, TokenId, TokenView, WithdrawRequest};
use crate::value::{Value, ValueView};
use vstd::prelude::*;

verus! {

/// One thing that a contract call does to the world.
#[derive(Debug, Eq, PartialEq)]
pub enum Effect {
    /// Go on only if the address has authorized the call.
    RequireAuth(Address),
    /// Put a value under a key.
    Put(DataKey, Value),
    /// Remove the entry under a key, if there is one.
    Remove(DataKey),
    /// Transfer an amount of the asset from one address to another.
    Transfer { asset: Address, from: Address, to: Address, amount: i128 },
    /// Transfer an amount of the native asset from one address to another.
    TransferNative { from: Address, to: Address, amount: i128 },
    /// Replace the code of the contract by the code with this hash.
    UpdateWasm(Bytes32),
    /// Publish an event.
    Publish(Event),
}

/// What an [`Effect`] says.
pub ghost enum EffectView {
    RequireAuth(Address),
    Put(DataKey, ValueView),
    Remove(DataKey),
    Transfer { asset: Address, from: Address, to: Address, amount: i128 },
    TransferNative { from: Address, to: Address, amount: i128 },
    UpdateWasm(Bytes32),
    Publish(Event),
}

impl EffectView {
    /// Whether the effect is a transfer, in a token asset or in the native one.
    pub open spec fn pays(self) -> bool {
        self is Transfer || self is TransferNative
    }
}

impl View for Effect {
    type V = EffectView;

    open spec fn view(&self) -> EffectView {
        match self {
            Effect::RequireAuth(address) => EffectView::RequireAuth(*address),
            Effect::Put(key, value) => EffectView::Put(*key, value@),
            Effect::Remove(key) => EffectView::Remove(*key),
            Effect::Transfer { asset, from, to, amount } => EffectView::Transfer {
                asset: *asset,
                from: *from,
                to: *to,
                amount: *amount,
            },
            Effect::TransferNative { from, to, amount } => EffectView::TransferNative {
                from: *from,
                to: *to,
                amount: *amount,
            },
            Effect::UpdateWasm(hash) => EffectView::UpdateWasm(*hash),
            Effect::Publish(event) => EffectView::Publish(*event),
        }
    }
}

/// The entries once an effect has been performed on them.
pub open spec fn performed(
    entries: Map<DataKey, ValueView>,
    effect: EffectView,
) -> Map<DataKey, ValueView> {
    match effect {
        EffectView::Put(key, value) => entries.insert(key, value),
        EffectView::Remove(key) => entries.remove(key),
        _ => entries,
    }
}

/// The entries once all effects have been performed on them, in order.
pub open spec fn replay(
    entries: Map<DataKey, ValueView>,
    effects: Seq<EffectView>,
) -> Map<DataKey, ValueView>
    decreases effects.len(),
{
    if effects.len() == 0 {
        entries
    } else {
        performed(replay(entries, effects.drop_last()), effects.last())
    }
}

/// What an [`Env`] holds.
pub ghost struct EnvView {
    /// The ledger time.
    pub timestamp: u64,
    /// The address of the contract itself.
    pub contract: Address,
    /// The entries as the ledger held them when the call began.
    pub loaded: Map<DataKey, ValueView>,
    /// The entries as they now stand.
    pub entries: Map<DataKey, ValueView>,
    /// What the call has done so far.
    pub effects: Seq<EffectView>,
}

impl EnvView {
    /// The value under a key.
    pub open spec fn get(self, key: DataKey) -> Option<ValueView> {
        if self.entries.contains_key(key) {
            Some(self.entries[key])
        } else {
            None
        }
    }

    /// Whether an entry stands under a key.
    pub open spec fn has(self, key: DataKey) -> bool {
        self.get(key) is Some
    }

    /// Whether the flag under a key is set.
    pub open spec fn flag(self, key: DataKey) -> bool {
        self.get(key) == Some(ValueView::Bool(true))
    }

    /// The time under a key.
    pub open spec fn time(self, key: DataKey) -> Option<u64> {
        match self.get(key) {
            Some(ValueView::U64(time)) => Some(time),
            _ => None,
        }
    }

    /// The address under a key.
    pub open spec fn address(self, key: DataKey) -> Option<Address> {
        match self.get(key) {
            Some(ValueView::Address(address)) => Some(address),
            _ => None,
        }
    }

    /// The 32 bytes under a key.
    pub open spec fn bytes(self, key: DataKey) -> Option<Bytes32> {
        match self.get(key) {
            Some(ValueView::Bytes(bytes)) => Some(bytes),
            _ => None,
        }
    }

    /// The amount under a key.
    pub open spec fn amount(self, key: DataKey) -> Option<i128> {
        match self.get(key) {
            Some(ValueView::I128(amount)) => Some(amount),
            _ => None,
        }
    }

    /// The pending withdrawal request.
    pub open spec fn withdrawal(self) -> Option<WithdrawRequest> {
        match self.get(DataKey::WithdrawXlmRequest) {
            Some(ValueView::Withdrawal(request)) => Some(request),
            _ => None,
        }
    }

    /// The token with an ID.
    pub open spec fn token(self, token_id: TokenId) -> Option<TokenView> {
        match self.get(DataKey::Token(token_id)) {
            Some(ValueView::Token(token)) => Some(token),
            _ => None,
        }
    }

    /// The environment once one more effect has taken place.
    pub open spec fn with(self, effect: EffectView) -> EnvView {
        EnvView {
            entries: performed(self.entries, effect),
            effects: self.effects.push(effect),
            ..self
        }
    }

    /// The environment once more effects have taken place, in order.
    pub open spec fn after(self, effects: Seq<EffectView>) -> EnvView {
        EnvView {
            entries: replay(self.entries, effects),
            effects: self.effects + effects,
            ..self
        }
    }

    /// The environment of the next call, at some ledger time, on the entries as they now stand.
    pub open spec fn next_call(self, timestamp: u64) -> EnvView {
        EnvView { timestamp, loaded: self.entries, effects: Seq::empty(), ..self }
    }
}

/// No effects change nothing.
pub broadcast proof fn lemma_after_none(env: EnvView)
    ensures
        #[trigger] env.after(Seq::<EffectView>::empty()) == env,
{
    assert(env.effects + Seq::<EffectView>::empty() =~= env.effects);
}

/// The last of several effects takes place after the others.
pub broadcast proof fn lemma_after_push(env: EnvView, effects: Seq<EffectView>, effect: EffectView)
    ensures
        #[trigger] env.after(effects.push(effect)) == env.after(effects).with(effect),
{
    let all = effects.push(effect);
    assert(all.drop_last() =~= effects);
    assert(env.effects + all =~= (env.effects + effects).push(effect));
}

/// Effects take place one after the other.
pub broadcast proof fn lemma_after_add(
    env: EnvView,
    first: Seq<EffectView>,
    second: Seq<EffectView>,
)
    ensures
        #[trigger] env.after(first + second) == env.after(first).after(second),
    decreases second.len(),
{
    if second.len() == 0 {
        assert(first + second =~= first);
        assert(second =~= Seq::<EffectView>::empty());
        lemma_after_none(env.after(first));
    } else {
        let rest = second.drop_last();
        lemma_after_add(env, first, rest);
        assert(second =~= rest.push(second.last()));
        assert(first + second =~= (first + rest).push(second.last()));
        lemma_after_push(env, first + rest, second.last());
        lemma_after_push(env.after(first), rest, second.last());
    }
}

/// How effects take place one after the other.
pub broadcast group group_after {
    lemma_after_none,
    lemma_after_push,
    lemma_after_add,
}

/// The environment of a contract call: what the call may read, and what it has done so far.
pub struct Env {
    timestamp: u64,
    contract: Address,
    store: Store,
    effects: Vec<Effect>,
    loaded: Ghost<Map<DataKey, ValueView>>,
}

impl View for Env {
    type V = EnvView;

    closed spec fn view(&self) -> EnvView {
        EnvView {
            timestamp: self.timestamp,
            contract: self.contract,
            loaded: self.loaded@,
            entries: self.store@,
            effects: self.effects@.map_values(|effect: Effect| effect@),
        }
    }
}

impl Env {
    /// Every value is of its key's type, and the entries are what the effects make of the
    /// entries that were loaded.
    pub closed spec fn wf(&self) -> bool {
        &&& self.store.wf()
        &&& self@.entries == replay(self@.loaded, self@.effects)
    }

    /// What every well-formed environment satisfies.
    pub proof fn lemma_wf(&self)
        requires
            self.wf(),
        ensures
            well_typed(self@.entries),
            self@.entries == replay(self@.loaded, self@.effects),
    {
        self.store.lemma_well_typed();
    }

    /// Creates the environment of a call at a ledger time, without entries.
    pub fn new(timestamp: u64, contract: Address) -> (env: Env)
        ensures
            env.wf(),
            env@ == (EnvView {
                timestamp,
                contract,
                loaded: Map::empty(),
                entries: Map::empty(),
                effects: Seq::empty(),
            }),
    {
        let env = Env {
            timestamp,
            contract,
            store: Store::new(),
            effects: Vec::new(),
            loaded: Ghost(Map::empty()),
        };
        assert(env@.effects =~= Seq::<EffectView>::empty());
        env
    }

    /// Adds an entry that the ledger holds. Refuses a value that is not of the key's type, and
    /// any entry once the call has had an effect.
    pub fn load(&mut self, key: DataKey, value: Value) -> (added: bool)
        requires
            old(self).wf(),
        ensures
            final(self).wf(),
            added == (key.admits(value@) && old(self)@.effects.len() == 0),
            added ==> final(self)@ == (EnvView {
                loaded: old(self)@.loaded.insert(key, value@),
                entries: old(self)@.entries.insert(key, value@),
                ..old(self)@
            }),
            !added ==> final(self)@ == old(self)@,
    {
        let fits = match key.kind() {
            Some(kind) => value.kind() == kind,
            None => true,
        };
        if !fits || self.effects.len() != 0 {
            return false;
        }
        let ghost view = value@;
        self.store.set(key, value);
        proof {
            self.loaded@ = self.loaded@.insert(key, view);
        }
        true
    }

    /// Begins the next call, at a ledger time, on the entries as they now stand.
    pub fn begin_call(&mut self, timestamp: u64)
        requires
            old(self).wf(),
        ensures
            final(self).wf(),
            final(self)@ == old(self)@.next_call(timestamp),
    {
        self.timestamp = timestamp;
        self.effects = Vec::new();
        proof {
            self.loaded@ = self.store@;
        }
        assert(self@.effects =~= Seq::<EffectView>::empty());
    }

    /// Returns the ledger time.
    pub fn timestamp(&self) -> (timestamp: u64)
        ensures
            timestamp == self@.timestamp,
    {
        self.timestamp
    }

    /// Returns the address of the contract itself.
    pub fn current_contract_address(&self) -> (contract: Address)
        ensures
            contract == self@.contract,
    {
        self.contract
    }

    /// Returns what the call has done so far.
    pub fn effects(&self) -> (effects: &Vec<Effect>)
        ensures
            effects@.map_values(|effect: Effect| effect@) == self@.effects,
    {
        &self.effects
    }

    /// Returns the value under a key.
    pub fn get(&self, key: &DataKey) -> (value: Option<&Value>)
        requires
            self.wf(),
        ensures
            match value {
                Some(v) => self@.get(*key) == Some(v@),
                None => self@.get(*key) is None,
            },
            match value {
                Some(v) => self@.entries.contains_key(*key) && self@.entries[*key] == v@,
                None => !self@.entries.contains_key(*key),
            },
    {
        self.store.get(key)
    }

    /// Returns whether an entry stands under a key.
    pub fn has(&self, key: &DataKey) -> (found: bool)
        requires
            self.wf(),
        ensures
            found == self@.has(*key),
            found == self@.entries.contains_key(*key),
    {
        self.store.get(key).is_some()
    }

    /// Returns whether the flag under a key is set.
    pub(crate) fn flag(&self, key: &DataKey) -> (set: bool)
        requires
            self.wf(),
        ensures
            set == self@.flag(*key),
    {
        match self.get(key) {
            Some(Value::Bool(set)) => *set,
            _ => false,
        }
    }

    /// Returns the time under a key.
    pub(crate) fn time(&self, key: &DataKey) -> (time: Option<u64>)
        requires
            self.wf(),
        ensures
            time == self@.time(*key),
    {
        match self.get(key) {
            Some(Value::U64(time)) => Some(*time),
            _ => None,
        }
    }

    /// Returns the address under a key.
    pub(crate) fn address(&self, key: &DataKey) -> (address: Option<Address>)
        requires
            self.wf(),
        ensures
            address == self@.address(*key),
    {
        match self.get(key) {
            Some(Value::Address(address)) => Some(*address),
            _ => None,
        }
    }

    /// Returns the 32 bytes under a key.
    pub(crate) fn bytes(&self, key: &DataKey) -> (bytes: Option<Bytes32>)
        requires
            self.wf(),
        ensures
            bytes == self@.bytes(*key),
    {
        match self.get(key) {
            Some(Value::Bytes(bytes)) => Some(*bytes),
            _ => None,
        }
    }

    /// Returns the amount under a key.
    pub(crate) fn amount(&self, key: &DataKey) -> (amount: Option<i128>)
        requires
            self.wf(),
        ensures
            amount == self@.amount(*key),
    {
        match self.get(key) {
            Some(Value::I128(amount)) => Some(*amount),
            _ => None,
        }
    }

    /// Returns the pending withdrawal request.
    pub(crate) fn withdrawal(&self) -> (request: Option<WithdrawRequest>)
        requires
            self.wf(),
        ensures
            request == self@.withdrawal(),
    {
        match self.get(&DataKey::WithdrawXlmRequest) {
            Some(Value::Withdrawal(request)) => Some(*request),
            _ => None,
        }
    }

    /// Demands that an address has authorized the call.
    pub(crate) fn require_auth(&mut self, address: Address)
        requires
            old(self).wf(),
        ensures
            final(self).wf(),
            final(self)@ == old(self)@.with(EffectView::RequireAuth(address)),
    {
        self.record(Effect::RequireAuth(address));
    }

    /// Puts a value under a key.
    pub(crate) fn set(&mut self, key: DataKey, value: Value)
        requires
            old(self).wf(),
            key.admits(value@),
        ensures
            final(self).wf(),
            final(self)@ == old(self)@.with(EffectView::Put(key, value@)),
    {
        self.store.set(key, value.clone());
        self.record(Effect::Put(key, value));
    }

    /// Removes the entry under a key, if there is one.
    pub(crate) fn remove(&mut self, key: DataKey)
        requires
            old(self).wf(),
        ensures
            final(self).wf(),
            final(self)@ == old(self)@.with(EffectView::Remove(key)),
    {
        self.store.remove(&key);
        self.record(Effect::Remove(key));
    }

    /// Transfers an amount of an asset.
    pub(crate) fn transfer(&mut self, asset: Address, from: Address, to: Address, amount: i128)
        requires
            old(self).wf(),
        ensures
            final(self).wf(),
            final(self)@ == old(self)@.with(EffectView::Transfer { asset, from, to, amount }),
    {
        self.record(Effect::Transfer { asset, from, to, amount });
    }

    /// Transfers an amount of the native asset.
    pub(crate) fn transfer_native(&mut self, from: Address, to: Address, amount: i128)
        requires
            old(self).wf(),
        ensures
            final(self).wf(),
            final(self)@ == old(self)@.with(EffectView::TransferNative { from, to, amount }),
    {
        self.record(Effect::TransferNative { from, to, amount });
    }

    /// Replaces the code of the contract.
    pub(crate) fn update_wasm(&mut self, hash: Bytes32)
        requires
            old(self).wf(),
        ensures
            final(self).wf(),
            final(self)@ == old(self)@.with(EffectView::UpdateWasm(hash)),
    {
        self.record(Effect::UpdateWasm(hash));
    }

    /// Publishes an event.
    pub(crate) fn publish(&mut self, event: Event)
        requires
            old(self).wf(),
        ensures
            final(self).wf(),
            final(self)@ == old(self)@.with(EffectView::Publish(event)),
    {
        self.record(Effect::Publish(event));
    }

    /// Notes an effect that has been carried out on the entries.
    fn record(&mut self, effect: Effect)
        requires
            old(self).store.wf(),
            old(self)@.entries == performed(replay(old(self)@.loaded, old(self)@.effects), effect@),
        ensures
            final(self).wf(),
            final(self)@ == (EnvView { effects: old(self)@.effects.push(effect@), ..old(self)@ }),
    {
        let ghost before = self@.effects;
        let ghost view = effect@;
        self.effects.push(effect);
        proof {
            assert(self@.effects =~= before.push(view));
            assert(before.push(view).drop_last() =~= before);
        }
    }
}

} // verus!
