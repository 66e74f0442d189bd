//! The PULSAR governance token: balances, allowances with an expiry ledger,
//! minting by the administrator up to a fixed maximum supply, burning, and
//! delegation of voting power.
use vstd::prelude::*;
use vstd::hash_map::HashMapWithView;
use crate::types::{Address, pair_key, make_pair_key};
use crate::error::Error;
use crate::admin::AdminRole;

verus! {

broadcast use vstd::std_specs::hash::group_hash_axioms;

/// The most base units that can ever be in circulation (10^12).
pub const MAX_SUPPLY: i128 = 1_000_000_000_000;
/// Decimals of the token.
pub const DECIMALS: u32 = 7;

/// What `spender` may move out of an owner's balance, until ledger `expiry`.
#[derive(Clone, Copy, Debug, PartialEq, Eq)]
pub struct Allowance {
    pub amount: i128,
    pub expiry: u32,
}

#[derive(Clone, Copy, Debug, PartialEq, Eq)]
pub struct Delegation {
    pub delegate: Address,
    pub delegated_at: u64,
}

#[derive(Clone, Debug)]
pub struct TokenMetadata {
    pub name: String,
    pub symbol: String,
    pub decimals: u32,
}

/// The token's storage as mathematical values. Allowances are keyed by
/// `pair_key(owner, spender)`.
#[verifier::ext_equal]
pub struct TokenState {
    pub roles: AdminRole,
    pub total_supply: i128,
    pub max_supply: Option<i128>,
    pub metadata: Option<TokenMetadata>,
    pub balances: Map<Address, i128>,
    pub allowances: Map<u128, Allowance>,
    pub delegations: Map<Address, Delegation>,
}

pub struct GovernanceTokenContract {
    roles: AdminRole,
    total_supply: i128,
    max_supply: Option<i128>,
    metadata: Option<TokenMetadata>,
    balances: HashMapWithView<u64, i128>,
    allowances: HashMapWithView<u128, Allowance>,
    delegations: HashMapWithView<u64, Delegation>,
}

impl View for GovernanceTokenContract {
    type V = TokenState;

    closed spec fn view(&self) -> TokenState {
        TokenState {
            roles: self.roles,
            total_supply: self.total_supply,
            max_supply: self.max_supply,
            metadata: self.metadata,
            balances: self.balances@,
            allowances: self.allowances@,
            delegations: self.delegations@,
        }
    }
}

/// The balance of `a`: 0 for an account never credited.
pub open spec fn balance_of(balances: Map<Address, i128>, a: Address) -> int {
    if balances.contains_key(a) {
        balances[a] as int
    } else {
        0
    }
}

/// Whether `x` fits an `i128`.
pub open spec fn fits(x: int) -> bool {
    i128::MIN <= x <= i128::MAX
}

/// The balances after `amount` moves from `from` to `to`; the receiving
/// balance is read after the sending one is written, so a transfer to oneself
/// changes nothing.
pub open spec fn moved(balances: Map<Address, i128>, from: Address, to: Address, amount: i128) -> Map<Address, i128> {
    let debited = balances.insert(from, (balance_of(balances, from) - amount) as i128);
    debited.insert(to, (balance_of(debited, to) + amount) as i128)
}

impl TokenState {
    pub open spec fn allowance_of(self, owner: Address, spender: Address) -> Allowance {
        let k = pair_key(owner, spender);
        if self.allowances.contains_key(k) {
            self.allowances[k]
        } else {
            Allowance { amount: 0, expiry: 0 }
        }
    }

    pub open spec fn transfer_check(self, from: Address, to: Address, amount: i128) -> Option<Error> {
        if amount <= 0 {
            Some(Error::InvalidAmount)
        } else if balance_of(self.balances, from) < amount {
            Some(Error::InsufficientBalance)
        } else if from != to && !fits(balance_of(self.balances, to) + amount) {
            Some(Error::Overflow)
        } else {
            None
        }
    }

    pub open spec fn transfer_from_check(
        self,
        ledger_seq: u32,
        spender: Address,
        from: Address,
        to: Address,
        amount: i128,
    ) -> Option<Error> {
        let a = self.allowance_of(from, spender);
        if ledger_seq > a.expiry {
            Some(Error::AllowanceExpired)
        } else if a.amount < amount {
            Some(Error::InsufficientAllowance)
        } else if balance_of(self.balances, from) < amount {
            Some(Error::InsufficientBalance)
        } else if !fits(a.amount - amount) || !fits(balance_of(self.balances, from) - amount) {
            Some(Error::Overflow)
        } else if !fits(
            balance_of(
                self.balances.insert(from, (balance_of(self.balances, from) - amount) as i128),
                to,
            ) + amount,
        ) {
            Some(Error::Overflow)
        } else {
            None
        }
    }

    pub open spec fn mint_check(self, admin: Address, recipient: Address, amount: i128) -> Option<Error> {
        if self.roles.admin_check(admin) is Some {
            self.roles.admin_check(admin)
        } else if !fits(self.total_supply + amount) {
            Some(Error::Overflow)
        } else if self.total_supply + amount > MAX_SUPPLY {
            Some(Error::ExceedsMaxSupply)
        } else if !fits(balance_of(self.balances, recipient) + amount) {
            Some(Error::Overflow)
        } else {
            None
        }
    }

    pub open spec fn burn_check(self, from: Address, amount: i128) -> Option<Error> {
        if balance_of(self.balances, from) < amount {
            Some(Error::InsufficientBalance)
        } else if !fits(balance_of(self.balances, from) - amount) || !fits(
            self.total_supply - amount,
        ) {
            Some(Error::Overflow)
        } else {
            None
        }
    }
}

impl GovernanceTokenContract {
    /// A token that has not been initialized.
    pub fn new() -> (c: GovernanceTokenContract)
        ensures
            c@.roles.admin is None,
            c@.roles.pending_admin is None,
            c@.total_supply == 0,
            c@.max_supply is None,
            c@.metadata is None,
            c@.balances.is_empty(),
            c@.allowances.is_empty(),
            c@.delegations.is_empty(),
    {
        GovernanceTokenContract {
            roles: AdminRole::new(),
            total_supply: 0,
            max_supply: None,
            metadata: None,
            balances: HashMapWithView::new(),
            allowances: HashMapWithView::new(),
            delegations: HashMapWithView::new(),
        }
    }

    /// Makes `admin` the administrator, sets the supply to 0 and names the
    /// token "PulsarTrack Governance" ("PULSAR", 7 decimals).
    pub fn initialize(&mut self, admin: Address) -> (r: Result<(), Error>)
        ensures
            r == (if old(self)@.roles.admin is Some {
                Err::<(), Error>(Error::AlreadyInitialized)
            } else {
                Ok(())
            }),
            r is Err ==> final(self)@ == old(self)@,
            r is Ok ==> final(self)@ == (TokenState {
                roles: AdminRole { admin: Some(admin), ..old(self)@.roles },
                total_supply: 0,
                max_supply: Some(MAX_SUPPLY),
                metadata: final(self)@.metadata,
                ..old(self)@
            }),
            r is Ok ==> final(self)@.metadata is Some,
            r is Ok ==> final(self)@.metadata.unwrap().name@ == "PulsarTrack Governance"@,
            r is Ok ==> final(self)@.metadata.unwrap().symbol@ == "PULSAR"@,
            r is Ok ==> final(self)@.metadata.unwrap().decimals == DECIMALS,
    {
        if self.roles.admin.is_some() {
            return Err(Error::AlreadyInitialized);
        }
        self.roles.admin = Some(admin);
        self.total_supply = 0;
        self.max_supply = Some(MAX_SUPPLY);
        let name = String::from_str("PulsarTrack Governance");
        let symbol = String::from_str("PULSAR");
        proof {
            reveal_strlit("PulsarTrack Governance");
            reveal_strlit("PULSAR");
        }
        self.metadata = Some(TokenMetadata { name, symbol, decimals: DECIMALS });
        Ok(())
    }

    pub fn name(&self) -> (r: Result<String, Error>)
        ensures
            r is Err <==> self@.metadata is None,
            r is Err ==> r->Err_0 == Error::NotInitialized,
            r is Ok ==> r->Ok_0@ == self@.metadata.unwrap().name@,
    {
        match &self.metadata {
            Some(m) => Ok(m.name.clone()),
            None => Err(Error::NotInitialized),
        }
    }

    pub fn symbol(&self) -> (r: Result<String, Error>)
        ensures
            r is Err <==> self@.metadata is None,
            r is Err ==> r->Err_0 == Error::NotInitialized,
            r is Ok ==> r->Ok_0@ == self@.metadata.unwrap().symbol@,
    {
        match &self.metadata {
            Some(m) => Ok(m.symbol.clone()),
            None => Err(Error::NotInitialized),
        }
    }

    pub fn decimals(&self) -> (r: Result<u32, Error>)
        ensures
            r == (match self@.metadata {
                Some(m) => Ok(m.decimals),
                None => Err(Error::NotInitialized),
            }),
    {
        match &self.metadata {
            Some(m) => Ok(m.decimals),
            None => Err(Error::NotInitialized),
        }
    }

    pub fn balance(&self, account: Address) -> (r: i128)
        ensures
            r == balance_of(self@.balances, account),
    {
        match self.balances.get(&account) {
            Some(b) => *b,
            None => 0,
        }
    }

    pub fn total_supply(&self) -> (r: i128)
        ensures
            r == self@.total_supply,
    {
        self.total_supply
    }

    /// Moves a positive `amount` from `from` to `to`.
    pub fn transfer(&mut self, from: Address, to: Address, amount: i128) -> (r: Result<(), Error>)
        ensures
            r == (match old(self)@.transfer_check(from, to, amount) {
                Some(e) => Err(e),
                None => Ok(()),
            }),
            final(self)@ == (if r is Ok {
                TokenState { balances: moved(old(self)@.balances, from, to, amount), ..old(self)@ }
            } else {
                old(self)@
            }),
    {
        if amount <= 0 {
            return Err(Error::InvalidAmount);
        }
        let from_balance = self.balance(from);
        if from_balance < amount {
            return Err(Error::InsufficientBalance);
        }
        if from != to {
            let to_balance = self.balance(to);
            if to_balance.checked_add(amount).is_none() {
                return Err(Error::Overflow);
            }
        }
        self.credit(from, to, from_balance - amount, amount);
        Ok(())
    }

    /// Writes `from`'s new balance, then adds `amount` to `to`'s balance as
    /// it reads after that write.
    fn credit(&mut self, from: Address, to: Address, from_after: i128, amount: i128)
        requires
            fits(
                balance_of(old(self)@.balances.insert(from, from_after), to) + amount,
            ),
        ensures
            final(self)@ == (TokenState {
                balances: ({
                    let debited = old(self)@.balances.insert(from, from_after);
                    debited.insert(to, (balance_of(debited, to) + amount) as i128)
                }),
                ..old(self)@
            }),
    {
        self.balances.insert(from, from_after);
        let to_balance = self.balance(to);
        self.balances.insert(to, to_balance + amount);
    }

    /// `spender` moves `amount` from `from` to `to` within an allowance that
    /// has not expired at `ledger_seq`; the allowance shrinks by `amount`.
    pub fn transfer_from(&mut self, ledger_seq: u32, spender: Address, from: Address, to: Address, amount: i128) -> (r: Result<(), Error>)
        ensures
            r == (match old(self)@.transfer_from_check(ledger_seq, spender, from, to, amount) {
                Some(e) => Err(e),
                None => Ok(()),
            }),
            final(self)@ == (if r is Ok {
                TokenState {
                    allowances: old(self)@.allowances.insert(
                        pair_key(from, spender),
                        Allowance {
                            amount: (old(self)@.allowance_of(from, spender).amount - amount) as i128,
                            expiry: old(self)@.allowance_of(from, spender).expiry,
                        },
                    ),
                    balances: moved(old(self)@.balances, from, to, amount),
                    ..old(self)@
                }
            } else {
                old(self)@
            }),
    {
        let key = make_pair_key(from, spender);
        let allowance = match self.allowances.get(&key) {
            Some(a) => *a,
            None => Allowance { amount: 0, expiry: 0 },
        };
        if ledger_seq > allowance.expiry {
            return Err(Error::AllowanceExpired);
        }
        if allowance.amount < amount {
            return Err(Error::InsufficientAllowance);
        }
        let from_balance = self.balance(from);
        if from_balance < amount {
            return Err(Error::InsufficientBalance);
        }
        let left = match allowance.amount.checked_sub(amount) {
            Some(v) => v,
            None => return Err(Error::Overflow),
        };
        let from_after = match from_balance.checked_sub(amount) {
            Some(v) => v,
            None => return Err(Error::Overflow),
        };
        let to_before = if from == to { from_after } else { self.balance(to) };
        if to_before.checked_add(amount).is_none() {
            return Err(Error::Overflow);
        }
        self.allowances.insert(key, Allowance { amount: left, expiry: allowance.expiry });
        self.credit(from, to, from_after, amount);
        Ok(())
    }

    /// `owner` lets `spender` move up to `amount` until ledger `expiry`,
    /// replacing any earlier allowance.
    pub fn approve(&mut self, owner: Address, spender: Address, amount: i128, expiry: u32)
        ensures
            final(self)@ == (TokenState {
                allowances: old(self)@.allowances.insert(
                    pair_key(owner, spender),
                    Allowance { amount, expiry },
                ),
                ..old(self)@
            }),
    {
        self.allowances.insert(make_pair_key(owner, spender), Allowance { amount, expiry });
    }

    /// The amount of the allowance of `spender` over `owner`'s balance, 0 when
    /// none was given.
    pub fn allowance(&self, owner: Address, spender: Address) -> (r: i128)
        ensures
            r == self@.allowance_of(owner, spender).amount,
    {
        match self.allowances.get(&make_pair_key(owner, spender)) {
            Some(a) => a.amount,
            None => 0,
        }
    }

    /// The administrator creates `amount` tokens for `recipient`, as long as
    /// the supply stays at most `MAX_SUPPLY`.
    pub fn mint(&mut self, admin: Address, recipient: Address, amount: i128) -> (r: Result<(), Error>)
        ensures
            r == (match old(self)@.mint_check(admin, recipient, amount) {
                Some(e) => Err(e),
                None => Ok(()),
            }),
            final(self)@ == (if r is Ok {
                TokenState {
                    balances: old(self)@.balances.insert(
                        recipient,
                        (balance_of(old(self)@.balances, recipient) + amount) as i128,
                    ),
                    total_supply: (old(self)@.total_supply + amount) as i128,
                    ..old(self)@
                }
            } else {
                old(self)@
            }),
    {
        self.roles.require_admin(admin)?;
        let supply = match self.total_supply.checked_add(amount) {
            Some(v) => v,
            None => return Err(Error::Overflow),
        };
        if supply > MAX_SUPPLY {
            return Err(Error::ExceedsMaxSupply);
        }
        let balance = match self.balance(recipient).checked_add(amount) {
            Some(v) => v,
            None => return Err(Error::Overflow),
        };
        self.balances.insert(recipient, balance);
        self.total_supply = supply;
        Ok(())
    }

    /// Destroys `amount` of `from`'s tokens.
    pub fn burn(&mut self, from: Address, amount: i128) -> (r: Result<(), Error>)
        ensures
            r == (match old(self)@.burn_check(from, amount) {
                Some(e) => Err(e),
                None => Ok(()),
            }),
            final(self)@ == (if r is Ok {
                TokenState {
                    balances: old(self)@.balances.insert(
                        from,
                        (balance_of(old(self)@.balances, from) - amount) as i128,
                    ),
                    total_supply: (old(self)@.total_supply - amount) as i128,
                    ..old(self)@
                }
            } else {
                old(self)@
            }),
    {
        let balance = self.balance(from);
        if balance < amount {
            return Err(Error::InsufficientBalance);
        }
        let after = match balance.checked_sub(amount) {
            Some(v) => v,
            None => return Err(Error::Overflow),
        };
        let supply = match self.total_supply.checked_sub(amount) {
            Some(v) => v,
            None => return Err(Error::Overflow),
        };
        self.balances.insert(from, after);
        self.total_supply = supply;
        Ok(())
    }

    /// `delegator` hands its voting power to `delegate_to`.
    pub fn delegate(&mut self, now: u64, delegator: Address, delegate_to: Address)
        ensures
            final(self)@ == (TokenState {
                delegations: old(self)@.delegations.insert(
                    delegator,
                    Delegation { delegate: delegate_to, delegated_at: now },
                ),
                ..old(self)@
            }),
    {
        self.delegations.insert(delegator, Delegation { delegate: delegate_to, delegated_at: now });
    }

    /// `delegator` takes its voting power back.
    pub fn revoke_delegation(&mut self, delegator: Address)
        ensures
            final(self)@ == (TokenState {
                delegations: old(self)@.delegations.remove(delegator),
                ..old(self)@
            }),
    {
        self.delegations.remove(&delegator);
    }

    /// The voting power of `voter`: its balance, or 0 while it has delegated.
    pub fn voting_power(&self, voter: Address) -> (r: i128)
        ensures
            r == (if self@.delegations.contains_key(voter) {
                0
            } else {
                balance_of(self@.balances, voter)
            }),
    {
        if self.delegations.contains_key(&voter) {
            0
        } else {
            self.balance(voter)
        }
    }

    pub fn get_delegation(&self, delegator: Address) -> (r: Option<Delegation>)
        ensures
            r == (if self@.delegations.contains_key(delegator) {
                Some(self@.delegations[delegator])
            } else {
                None
            }),
    {
        match self.delegations.get(&delegator) {
            Some(d) => Some(*d),
            None => None,
        }
    }

    /// The administrator offers its role to `new_admin`.
    pub fn propose_admin(&mut self, current_admin: Address, new_admin: Address) -> (r: Result<(), Error>)
        ensures
            r == (match old(self)@.roles.propose_check(current_admin) {
                Some(e) => Err(e),
                None => Ok(()),
            }),
            final(self)@ == (if r is Ok {
                TokenState { roles: old(self)@.roles.proposed(new_admin), ..old(self)@ }
            } else {
                old(self)@
            }),
    {
        self.roles.propose_admin(current_admin, new_admin)
    }

    /// The offered successor takes the administrator role.
    pub fn accept_admin(&mut self, new_admin: Address) -> (r: Result<(), Error>)
        ensures
            r == (match old(self)@.roles.accept_check(new_admin) {
                Some(e) => Err(e),
                None => Ok(()),
            }),
            final(self)@ == (if r is Ok {
                TokenState { roles: old(self)@.roles.accepted(new_admin), ..old(self)@ }
            } else {
                old(self)@
            }),
    {
        self.roles.accept_admin(new_admin)
    }
}

/// A transfer conserves tokens: the sender loses what the receiver gains, and
/// every other balance is unchanged; a transfer to oneself changes nothing.
pub proof fn law_transfer_conserves(balances: Map<Address, i128>, from: Address, to: Address, amount: i128, other: Address)
    requires
        other != from,
        other != to,
        fits(balance_of(balances, from) - amount),
        from != to ==> fits(balance_of(balances, to) + amount),
    ensures
        balance_of(moved(balances, from, to, amount), other) == balance_of(balances, other),
        from != to ==> balance_of(moved(balances, from, to, amount), from) == balance_of(
            balances,
            from,
        ) - amount,
        from != to ==> balance_of(moved(balances, from, to, amount), to) == balance_of(
            balances,
            to,
        ) + amount,
        from == to ==> balance_of(moved(balances, from, to, amount), from) == balance_of(
            balances,
            from,
        ),
{
}

/// Minting never takes the supply above `MAX_SUPPLY`, and it raises the
/// supply by exactly what it credits.
pub proof fn law_mint_capped(s: TokenState, admin: Address, recipient: Address, amount: i128)
    requires
        s.mint_check(admin, recipient, amount) is None,
    ensures
        s.total_supply + amount <= MAX_SUPPLY,
        balance_of(
            s.balances.insert(recipient, (balance_of(s.balances, recipient) + amount) as i128),
            recipient,
        ) - balance_of(s.balances, recipient) == amount,
{
}

/// Minting and burning move the supply and the holder's balance by the same
/// amount and leave every other balance alone, so the supply keeps matching
/// the sum of the balances.
pub proof fn law_supply_tracks_balances(s: TokenState, admin: Address, holder: Address, amount: i128, other: Address)
    requires
        other != holder,
    ensures
        s.mint_check(admin, holder, amount) is None ==> {
            let b = s.balances.insert(holder, (balance_of(s.balances, holder) + amount) as i128);
            &&& balance_of(b, holder) - balance_of(s.balances, holder) == amount
            &&& ((s.total_supply + amount) as i128) - s.total_supply == amount
            &&& balance_of(b, other) == balance_of(s.balances, other)
        },
        s.burn_check(holder, amount) is None ==> {
            let b = s.balances.insert(holder, (balance_of(s.balances, holder) - amount) as i128);
            &&& balance_of(b, holder) - balance_of(s.balances, holder) == -amount
            &&& ((s.total_supply - amount) as i128) - s.total_supply == -amount
            &&& balance_of(b, other) == balance_of(s.balances, other)
        },
{
}

} // verus!
