//! Token bridge: senders lock tokens to be released on another chain, within a
//! daily limit per chain and less a bridge fee; a relayer confirms completed
//! transfers and the administrator can refund pending or failed ones.
use vstd::prelude::*;
use vstd::hash_map::{HashMapWithView, StringHashMap};
use std::collections::HashMap;
use crate::types::{Address, Transfer, DAY_SECS};
use crate::error::Error;
use crate::admin::AdminRole;

verus! {

broadcast use vstd::std_specs::hash::group_hash_axioms;

/// Bridge fee in basis points (0.5%).
pub const DEFAULT_BRIDGE_FEE_BPS: u32 = 50;

#[derive(Clone, Copy, Debug, PartialEq, Eq, Structural)]
pub enum BridgeStatus {
    Pending,
    Processing,
    Completed,
    Failed,
    Refunded,
}

#[derive(Clone, Debug)]
pub struct BridgeDeposit {
    pub deposit_id: u64,
    pub sender: Address,
    pub recipient_chain: String,
    /// The recipient's address on the target chain.
    pub recipient_address: String,
    pub token: Address,
    /// What reaches the target chain: the locked amount less the fee.
    pub amount: i128,
    pub bridge_fee: i128,
    pub status: BridgeStatus,
    pub created_at: u64,
    pub completed_at: Option<u64>,
    pub tx_hash: Option<[u8; 32]>,
}

/// The bridge's storage as mathematical values: chains by name with their
/// daily limit, and the volume bridged to each chain on each day.
#[verifier::ext_equal]
pub struct BridgeState {
    pub roles: AdminRole,
    pub relayer: Option<Address>,
    pub deposit_counter: u64,
    pub bridge_fee_bps: u32,
    pub supported_chains: Map<Seq<char>, i128>,
    pub daily_volume: Map<Seq<char>, Map<u64, i128>>,
    pub deposits: Map<u64, BridgeDeposit>,
}

pub struct TokenBridgeContract {
    roles: AdminRole,
    relayer: Option<Address>,
    deposit_counter: u64,
    bridge_fee_bps: u32,
    supported_chains: StringHashMap<i128>,
    daily_volume: StringHashMap<HashMap<u64, i128>>,
    deposits: HashMapWithView<u64, BridgeDeposit>,
}

impl View for TokenBridgeContract {
    type V = BridgeState;

    closed spec fn view(&self) -> BridgeState {
        BridgeState {
            roles: self.roles,
            relayer: self.relayer,
            deposit_counter: self.deposit_counter,
            bridge_fee_bps: self.bridge_fee_bps,
            supported_chains: self.supported_chains@,
            daily_volume: self.daily_volume@.map_values(|m: HashMap<u64, i128>| m@),
            deposits: self.deposits@,
        }
    }
}

/// The fee on `amount` at `bps` basis points, rounded down.
pub open spec fn bridge_fee(amount: i128, bps: u32) -> int {
    (amount * bps) / 10_000
}

impl BridgeState {
    /// What was bridged to `chain` on `day`.
    pub open spec fn volume_of(self, chain: Seq<char>, day: u64) -> int {
        if self.daily_volume.contains_key(chain) && self.daily_volume[chain].contains_key(day) {
            self.daily_volume[chain][day] as int
        } else {
            0
        }
    }

    pub open spec fn deposit_check(self, now: u64, amount: i128, chain: Seq<char>) -> Option<Error> {
        let day = (now / DAY_SECS) as u64;
        if amount <= 0 {
            Some(Error::InvalidAmount)
        } else if !self.supported_chains.contains_key(chain) {
            Some(Error::ChainNotSupported)
        } else if self.volume_of(chain, day) + amount > i128::MAX {
            Some(Error::Overflow)
        } else if self.volume_of(chain, day) + amount > self.supported_chains[chain] {
            Some(Error::DailyLimitExceeded)
        } else if amount * self.bridge_fee_bps > i128::MAX {
            Some(Error::BridgeFeeOverflow)
        } else if self.deposit_counter == u64::MAX {
            Some(Error::Overflow)
        } else {
            None
        }
    }

    /// The daily volumes after `amount` more is bridged to `chain` on `day`.
    pub open spec fn volume_added(self, chain: Seq<char>, day: u64, amount: i128) -> Map<Seq<char>, Map<u64, i128>> {
        let days = if self.daily_volume.contains_key(chain) {
            self.daily_volume[chain]
        } else {
            Map::empty()
        };
        self.daily_volume.insert(chain, days.insert(day, (self.volume_of(chain, day) + amount) as i128))
    }

    pub open spec fn confirm_check(self, relayer: Address, deposit_id: u64) -> Option<Error> {
        match self.relayer {
            None => Some(Error::NotInitialized),
            Some(r) => if r != relayer {
                Some(Error::UnauthorizedRelayer)
            } else if !self.deposits.contains_key(deposit_id) {
                Some(Error::DepositNotFound)
            } else if self.deposits[deposit_id].status != BridgeStatus::Pending {
                Some(Error::NotPending)
            } else {
                None
            },
        }
    }

    pub open spec fn refund_check(self, admin: Address, deposit_id: u64) -> Option<Error> {
        if self.roles.admin_check(admin) is Some {
            self.roles.admin_check(admin)
        } else if !self.deposits.contains_key(deposit_id) {
            Some(Error::DepositNotFound)
        } else if self.deposits[deposit_id].status != BridgeStatus::Pending
            && self.deposits[deposit_id].status != BridgeStatus::Failed {
            Some(Error::CannotRefund)
        } else if self.deposits[deposit_id].amount + self.deposits[deposit_id].bridge_fee
            > i128::MAX || self.deposits[deposit_id].amount
            + self.deposits[deposit_id].bridge_fee < i128::MIN {
            Some(Error::Overflow)
        } else {
            None
        }
    }
}

impl TokenBridgeContract {
    /// A bridge that has not been initialized.
    pub fn new() -> (c: TokenBridgeContract)
        ensures
            c@.roles.admin is None,
            c@.roles.pending_admin is None,
            c@.relayer is None,
            c@.deposit_counter == 0,
            c@.bridge_fee_bps == DEFAULT_BRIDGE_FEE_BPS,
            c@.supported_chains.is_empty(),
            c@.daily_volume.is_empty(),
            c@.deposits.is_empty(),
    {
        let c = TokenBridgeContract {
            roles: AdminRole::new(),
            relayer: None,
            deposit_counter: 0,
            bridge_fee_bps: DEFAULT_BRIDGE_FEE_BPS,
            supported_chains: StringHashMap::new(),
            daily_volume: StringHashMap::new(),
            deposits: HashMapWithView::new(),
        };
        assert(c@.daily_volume =~= Map::empty());
        c
    }

    /// Makes `admin` the administrator and `relayer` the confirmer of
    /// transfers, with a 0.5% fee.
    pub fn initialize(&mut self, admin: Address, relayer: Address) -> (r: Result<(), Error>)
        ensures
            r == (if old(self)@.roles.admin is Some {
                Err::<(), Error>(Error::AlreadyInitialized)
            } else {
                Ok(())
            }),
            final(self)@ == (if r is Ok {
                BridgeState {
                    roles: AdminRole { admin: Some(admin), ..old(self)@.roles },
                    relayer: Some(relayer),
                    deposit_counter: 0,
                    bridge_fee_bps: DEFAULT_BRIDGE_FEE_BPS,
                    ..old(self)@
                }
            } else {
                old(self)@
            }),
    {
        if self.roles.admin.is_some() {
            return Err(Error::AlreadyInitialized);
        }
        self.roles.admin = Some(admin);
        self.relayer = Some(relayer);
        self.deposit_counter = 0;
        self.bridge_fee_bps = DEFAULT_BRIDGE_FEE_BPS;
        Ok(())
    }

    /// The administrator supports `chain` with a positive daily limit,
    /// replacing an earlier limit; volumes already bridged stay.
    pub fn add_supported_chain(&mut self, admin: Address, chain: String, max_daily_limit: i128) -> (r: Result<(), Error>)
        ensures
            r == (if old(self)@.roles.admin_check(admin) is Some {
                Err::<(), Error>(old(self)@.roles.admin_check(admin).unwrap())
            } else if max_daily_limit <= 0 {
                Err(Error::NonPositiveDailyLimit)
            } else {
                Ok(())
            }),
            final(self)@ == (if r is Ok {
                BridgeState {
                    supported_chains: old(self)@.supported_chains.insert(chain@, max_daily_limit),
                    ..old(self)@
                }
            } else {
                old(self)@
            }),
    {
        self.roles.require_admin(admin)?;
        if max_daily_limit <= 0 {
            return Err(Error::NonPositiveDailyLimit);
        }
        self.supported_chains.insert(chain, max_daily_limit);
        Ok(())
    }

    /// `sender` locks a positive `amount` of `token` to be bridged to
    /// `recipient_address` on a supported chain, as long as the chain's volume
    /// for the day stays within its limit. The bridge keeps the fee; the
    /// deposit records the rest as its amount.
    pub fn deposit_for_bridge(
        &mut self,
        now: u64,
        sender: Address,
        token: Address,
        amount: i128,
        recipient_chain: String,
        recipient_address: String,
    ) -> (r: Result<(u64, Transfer), Error>)
        ensures
            ({
                let s = old(self)@;
                let day = (now / DAY_SECS) as u64;
                let fee = bridge_fee(amount, s.bridge_fee_bps);
                let id = (s.deposit_counter + 1) as u64;
                match s.deposit_check(now, amount, recipient_chain@) {
                    Some(e) => r == Err::<(u64, Transfer), Error>(e) && final(self)@ == s,
                    None => {
                        &&& r == Ok::<(u64, Transfer), Error>(
                            (id, Transfer::Collect { token, from: sender, amount }),
                        )
                        &&& final(self)@ == (BridgeState {
                            daily_volume: s.volume_added(recipient_chain@, day, amount),
                            deposit_counter: id,
                            deposits: s.deposits.insert(
                                id,
                                BridgeDeposit {
                                    deposit_id: id,
                                    sender,
                                    recipient_chain: final(self)@.deposits[id].recipient_chain,
                                    recipient_address,
                                    token,
                                    amount: (amount - fee) as i128,
                                    bridge_fee: fee as i128,
                                    status: BridgeStatus::Pending,
                                    created_at: now,
                                    completed_at: None,
                                    tx_hash: None,
                                },
                            ),
                            ..s
                        })
                        &&& final(self)@.deposits[id].recipient_chain@ == recipient_chain@
                    },
                }
            }),
    {
        if amount <= 0 {
            return Err(Error::InvalidAmount);
        }
        let max_daily_limit = match self.supported_chains.get(recipient_chain.as_str()) {
            Some(l) => *l,
            None => return Err(Error::ChainNotSupported),
        };
        let day = now / DAY_SECS;
        let days: HashMap<u64, i128> = match self.daily_volume.get(recipient_chain.as_str()) {
            Some(m) => m.clone(),
            None => HashMap::new(),
        };
        let volume: i128 = match days.get(&day) {
            Some(v) => *v,
            None => 0,
        };
        let new_volume = match volume.checked_add(amount) {
            Some(v) => v,
            None => return Err(Error::Overflow),
        };
        if new_volume > max_daily_limit {
            return Err(Error::DailyLimitExceeded);
        }
        let scaled = match amount.checked_mul(self.bridge_fee_bps as i128) {
            Some(v) => v,
            None => return Err(Error::BridgeFeeOverflow),
        };
        let fee = scaled / 10_000;
        let net_amount = amount - fee;
        let deposit_id = match self.deposit_counter.checked_add(1) {
            Some(v) => v,
            None => return Err(Error::Overflow),
        };
        let ghost s = self@;
        let mut days = days;
        days.insert(day, new_volume);
        self.daily_volume.insert(recipient_chain.clone(), days);
        assert(self@.daily_volume =~= s.volume_added(recipient_chain@, day, amount));
        let deposit = BridgeDeposit {
            deposit_id,
            sender,
            recipient_chain,
            recipient_address,
            token,
            amount: net_amount,
            bridge_fee: fee,
            status: BridgeStatus::Pending,
            created_at: now,
            completed_at: None,
            tx_hash: None,
        };
        self.deposits.insert(deposit_id, deposit);
        self.deposit_counter = deposit_id;
        Ok((deposit_id, Transfer::Collect { token, from: sender, amount }))
    }

    /// The relayer confirms at `now` that a pending deposit reached its chain
    /// in transaction `tx_hash`.
    pub fn confirm_bridge(&mut self, now: u64, relayer: Address, deposit_id: u64, tx_hash: [u8; 32]) -> (r: Result<(), Error>)
        ensures
            r == (match old(self)@.confirm_check(relayer, deposit_id) {
                Some(e) => Err(e),
                None => Ok(()),
            }),
            final(self)@ == (if r is Ok {
                BridgeState {
                    deposits: old(self)@.deposits.insert(
                        deposit_id,
                        BridgeDeposit {
                            status: BridgeStatus::Completed,
                            completed_at: Some(now),
                            tx_hash: Some(tx_hash),
                            ..old(self)@.deposits[deposit_id]
                        },
                    ),
                    ..old(self)@
                }
            } else {
                old(self)@
            }),
    {
        match self.relayer {
            None => return Err(Error::NotInitialized),
            Some(r) => {
                if r != relayer {
                    return Err(Error::UnauthorizedRelayer);
                }
            },
        }
        let mut deposit = match self.deposits.remove(&deposit_id) {
            Some(d) => d,
            None => return Err(Error::DepositNotFound),
        };
        if deposit.status != BridgeStatus::Pending {
            self.deposits.insert(deposit_id, deposit);
            return Err(Error::NotPending);
        }
        deposit.status = BridgeStatus::Completed;
        deposit.completed_at = Some(now);
        deposit.tx_hash = Some(tx_hash);
        self.deposits.insert(deposit_id, deposit);
        Ok(())
    }

    /// The administrator returns a pending or failed deposit, fee included,
    /// to its sender.
    pub fn refund_deposit(&mut self, admin: Address, deposit_id: u64) -> (r: Result<Transfer, Error>)
        ensures
            ({
                let s = old(self)@;
                match s.refund_check(admin, deposit_id) {
                    Some(e) => r == Err::<Transfer, Error>(e) && final(self)@ == s,
                    None => {
                        let d = s.deposits[deposit_id];
                        &&& r == Ok::<Transfer, Error>(
                            Transfer::Pay {
                                token: d.token,
                                to: d.sender,
                                amount: (d.amount + d.bridge_fee) as i128,
                            },
                        )
                        &&& final(self)@ == (BridgeState {
                            deposits: s.deposits.insert(
                                deposit_id,
                                BridgeDeposit { status: BridgeStatus::Refunded, ..d },
                            ),
                            ..s
                        })
                    },
                }
            }),
    {
        self.roles.require_admin(admin)?;
        let mut deposit = match self.deposits.remove(&deposit_id) {
            Some(d) => d,
            None => return Err(Error::DepositNotFound),
        };
        if deposit.status != BridgeStatus::Pending && deposit.status != BridgeStatus::Failed {
            self.deposits.insert(deposit_id, deposit);
            return Err(Error::CannotRefund);
        }
        let total = match deposit.amount.checked_add(deposit.bridge_fee) {
            Some(v) => v,
            None => {
                self.deposits.insert(deposit_id, deposit);
                return Err(Error::Overflow);
            },
        };
        let payment = Transfer::Pay { token: deposit.token, to: deposit.sender, amount: total };
        deposit.status = BridgeStatus::Refunded;
        self.deposits.insert(deposit_id, deposit);
        Ok(payment)
    }

    pub fn get_deposit(&self, deposit_id: u64) -> (r: Option<&BridgeDeposit>)
        ensures
            r == (if self@.deposits.contains_key(deposit_id) {
                Some(&self@.deposits[deposit_id])
            } else {
                None
            }),
    {
        self.deposits.get(&deposit_id)
    }

    /// The administrator offers its role to `new_admin`.
    pub fn propose_admin(&mut self, current_admin: Address, new_admin: Address) -> (r: Result<(), Error>)
        ensures
            r == (match old(self)@.roles.propose_check(current_admin) {
                Some(e) => Err(e),
                None => Ok(()),
            }),
            final(self)@ == (if r is Ok {
                BridgeState { roles: old(self)@.roles.proposed(new_admin), ..old(self)@ }
            } else {
                old(self)@
            }),
    {
        self.roles.propose_admin(current_admin, new_admin)
    }

    /// The offered successor takes the administrator role.
    pub fn accept_admin(&mut self, new_admin: Address) -> (r: Result<(), Error>)
        ensures
            r == (match old(self)@.roles.accept_check(new_admin) {
                Some(e) => Err(e),
                None => Ok(()),
            }),
            final(self)@ == (if r is Ok {
                BridgeState { roles: old(self)@.roles.accepted(new_admin), ..old(self)@ }
            } else {
                old(self)@
            }),
    {
        self.roles.accept_admin(new_admin)
    }
}

/// A deposit loses nothing: what reaches the target chain plus the fee is the
/// amount locked, and with a fee of at most 100% neither part is negative.
pub proof fn law_fee_split(amount: i128, bps: u32)
    requires
        amount > 0,
        bps <= 10_000,
    ensures
        (amount - bridge_fee(amount, bps)) + bridge_fee(amount, bps) == amount,
        0 <= bridge_fee(amount, bps) <= amount,
{
    assert(0 <= amount * bps <= amount * 10_000) by (nonlinear_arith)
        requires
            amount > 0,
            0 <= bps <= 10_000,
    ;
    assert((amount * bps) / 10_000 <= (amount * 10_000) / 10_000) by {
        vstd::arithmetic::div_mod::lemma_div_is_ordered(amount * bps, amount * 10_000, 10_000);
    }
    assert((amount * 10_000) / 10_000 == amount) by {
        vstd::arithmetic::div_mod::lemma_div_by_multiple(amount as int, 10_000);
    }
}

/// The daily limit holds: after an accepted deposit, the chain's volume for
/// the day is at most the chain's limit, and other days and chains are
/// unchanged.
pub proof fn law_daily_limit(s: BridgeState, now: u64, amount: i128, chain: Seq<char>, other_day: u64)
    requires
        s.deposit_check(now, amount, chain) is None,
        other_day != (now / DAY_SECS) as u64,
    ensures
        ({
            let day = (now / DAY_SECS) as u64;
            let after = BridgeState { daily_volume: s.volume_added(chain, day, amount), ..s };
            &&& after.volume_of(chain, day) <= s.supported_chains[chain]
            &&& after.volume_of(chain, day) == s.volume_of(chain, day) + amount
            &&& after.volume_of(chain, other_day) == s.volume_of(chain, other_day)
        }),
{
}

} // verus!
