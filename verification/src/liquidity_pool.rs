//! Liquidity pool: providers deposit tokens for pool shares; campaigns borrow
//! from the pool and repay principal plus interest, which is split between a
//! protocol reserve and the providers.
use vstd::prelude::*;
use vstd::hash_map::HashMapWithView;
use crate::types::{
    Address, Transfer, div_trunc, checked_div_i128, clamp_i128, saturating_sub_i128,
    saturating_mul_i128,
};
use crate::error::Error;
use crate::admin::AdminRole;

verus! {

broadcast use vstd::std_specs::hash::group_hash_axioms;

/// Seconds in a year of 365.25 days.
pub const SECONDS_PER_YEAR: u64 = 31_557_600;
/// Percentage of interest kept as protocol reserve.
pub const DEFAULT_RESERVE_FACTOR: u32 = 10;
/// Annual borrow rate in basis points (5%).
pub const DEFAULT_BORROW_RATE_BPS: u32 = 500;

#[derive(Clone, Copy, Debug, PartialEq, Eq)]
pub struct PoolState {
    pub total_liquidity: i128,
    pub total_borrowed: i128,
    /// Percentage of interest kept as reserve.
    pub reserve_factor: u32,
    /// Percentage of the liquidity that is borrowed.
    pub utilization_rate: u32,
    /// Annual rate in basis points.
    pub borrow_rate_bps: u32,
    pub last_updated: u64,
    /// Interest kept for the protocol.
    pub interest_reserve: i128,
}

#[derive(Clone, Copy, Debug, PartialEq, Eq)]
pub struct ProviderPosition {
    pub provider: Address,
    pub deposited: i128,
    pub shares: i128,
    pub deposited_at: u64,
    pub last_claim: u64,
}

#[derive(Clone, Copy, Debug, PartialEq, Eq)]
pub struct BorrowPosition {
    pub borrower: Address,
    pub campaign_id: u64,
    pub borrowed: i128,
    pub interest_accrued: i128,
    pub borrowed_at: u64,
    pub due_at: u64,
}

/// The pool contract's storage as mathematical values; borrows are keyed by
/// campaign.
#[verifier::ext_equal]
pub struct PoolStorage {
    pub roles: AdminRole,
    pub token: Option<Address>,
    pub total_shares: i128,
    pub pool: Option<PoolState>,
    pub providers: Map<Address, ProviderPosition>,
    pub borrows: Map<u64, BorrowPosition>,
}

pub struct LiquidityPoolContract {
    roles: AdminRole,
    token: Option<Address>,
    total_shares: i128,
    pool: Option<PoolState>,
    providers: HashMapWithView<u64, ProviderPosition>,
    borrows: HashMapWithView<u64, BorrowPosition>,
}

impl View for LiquidityPoolContract {
    type V = PoolStorage;

    closed spec fn view(&self) -> PoolStorage {
        PoolStorage {
            roles: self.roles,
            token: self.token,
            total_shares: self.total_shares,
            pool: self.pool,
            providers: self.providers@,
            borrows: self.borrows@,
        }
    }
}

/// Whether `x` fits an `i128`.
pub open spec fn fits(x: int) -> bool {
    i128::MIN <= x <= i128::MAX
}

/// Whether `div_trunc(a, b)` is defined and fits an `i128`.
pub open spec fn div_fits(a: int, b: int) -> bool {
    b != 0 && !(a == i128::MIN && b == -1)
}

/// Interest on `borrowed` at `rate_bps` basis points a year, from `borrowed_at`
/// to `now` (no time elapses when `now` is earlier): principal times rate
/// times seconds, each product saturating, over 10000 times the seconds of a
/// year, rounded toward zero.
pub open spec fn interest(now: u64, borrowed: i128, borrowed_at: u64, rate_bps: u32) -> int {
    let elapsed: int = if now > borrowed_at { now - borrowed_at } else { 0 };
    div_trunc(clamp_i128(clamp_i128(borrowed * rate_bps) * elapsed), 10_000 * SECONDS_PER_YEAR)
}

/// Shares issued for a deposit of `amount`: one per token while the pool is
/// empty, else in proportion to the shares outstanding.
pub open spec fn shares_for(pool: PoolState, total_shares: i128, amount: i128) -> int {
    if pool.total_liquidity == 0 || total_shares == 0 {
        amount as int
    } else {
        div_trunc(amount * total_shares, pool.total_liquidity as int)
    }
}

/// Tokens paid out for `shares`: their proportion of the liquidity.
pub open spec fn amount_for(pool: PoolState, total_shares: i128, shares: i128) -> int {
    div_trunc(shares * pool.total_liquidity, total_shares as int)
}

/// The pool's utilization rate after its borrowed total becomes
/// `total_borrowed`: the percentage borrowed, kept as it was while there is no
/// positive liquidity.
pub open spec fn utilization(p: PoolState, total_borrowed: i128, total_liquidity: i128) -> u32 {
    if total_liquidity > 0 {
        div_trunc(total_borrowed * 100, total_liquidity as int) as u32
    } else {
        p.utilization_rate
    }
}

/// The protocol's share of an interest payment.
pub open spec fn protocol_share(interest_paid: int, reserve_factor: u32) -> int {
    div_trunc(interest_paid * reserve_factor, 100)
}

impl PoolStorage {
    pub open spec fn position_of(self, provider: Address, now: u64) -> ProviderPosition {
        if self.providers.contains_key(provider) {
            self.providers[provider]
        } else {
            ProviderPosition {
                provider,
                deposited: 0,
                shares: 0,
                deposited_at: now,
                last_claim: now,
            }
        }
    }

    pub open spec fn deposit_check(self, now: u64, provider: Address, amount: i128) -> Option<Error> {
        if amount <= 0 {
            Some(Error::InvalidAmount)
        } else if self.token is None || self.pool is None {
            Some(Error::NotInitialized)
        } else {
            let p = self.pool.unwrap();
            let ts = self.total_shares;
            let shares = shares_for(p, ts, amount);
            let pos = self.position_of(provider, now);
            if !(p.total_liquidity == 0 || ts == 0) && (!fits(amount * ts) || !div_fits(
                amount * ts,
                p.total_liquidity as int,
            )) {
                Some(Error::Overflow)
            } else if !fits(p.total_liquidity + amount) || !fits(ts + shares) {
                Some(Error::Overflow)
            } else if !fits(pos.deposited + amount) || !fits(pos.shares + shares) {
                Some(Error::Overflow)
            } else {
                None
            }
        }
    }

    pub open spec fn after_deposit(self, now: u64, provider: Address, amount: i128) -> PoolStorage {
        let p = self.pool.unwrap();
        let shares = shares_for(p, self.total_shares, amount);
        let pos = self.position_of(provider, now);
        PoolStorage {
            pool: Some(
                PoolState {
                    total_liquidity: (p.total_liquidity + amount) as i128,
                    last_updated: now,
                    ..p
                },
            ),
            total_shares: (self.total_shares + shares) as i128,
            providers: self.providers.insert(
                provider,
                ProviderPosition {
                    deposited: (pos.deposited + amount) as i128,
                    shares: (pos.shares + shares) as i128,
                    ..pos
                },
            ),
            ..self
        }
    }

    pub open spec fn withdraw_check(self, provider: Address, shares: i128) -> Option<Error> {
        if !self.providers.contains_key(provider) {
            Some(Error::NoPosition)
        } else if self.providers[provider].shares < shares {
            Some(Error::InsufficientShares)
        } else if self.pool is None {
            Some(Error::NotInitialized)
        } else if self.total_shares == 0 {
            Some(Error::NoSharesInPool)
        } else {
            let p = self.pool.unwrap();
            let ts = self.total_shares;
            let amount = amount_for(p, ts, shares);
            let pos = self.providers[provider];
            if !fits(shares * p.total_liquidity) || !div_fits(
                shares * p.total_liquidity,
                ts as int,
            ) {
                Some(Error::Overflow)
            } else if !fits(p.total_liquidity - p.total_borrowed) {
                Some(Error::Overflow)
            } else if amount > p.total_liquidity - p.total_borrowed {
                Some(Error::InsufficientLiquidity)
            } else if !fits(p.total_liquidity - amount) || !fits(ts - shares) || !fits(
                pos.shares - shares,
            ) {
                Some(Error::Overflow)
            } else if self.token is None {
                Some(Error::NotInitialized)
            } else {
                None
            }
        }
    }

    pub open spec fn after_withdraw(self, now: u64, provider: Address, shares: i128) -> PoolStorage {
        let p = self.pool.unwrap();
        let amount = amount_for(p, self.total_shares, shares);
        let pos = self.providers[provider];
        PoolStorage {
            pool: Some(
                PoolState {
                    total_liquidity: (p.total_liquidity - amount) as i128,
                    last_updated: now,
                    ..p
                },
            ),
            total_shares: (self.total_shares - shares) as i128,
            providers: self.providers.insert(
                provider,
                ProviderPosition {
                    shares: (pos.shares - shares) as i128,
                    deposited: clamp_i128(pos.deposited - amount) as i128,
                    ..pos
                },
            ),
            ..self
        }
    }

    pub open spec fn borrow_check(self, now: u64, campaign_id: u64, amount: i128, duration_secs: u64) -> Option<Error> {
        if self.pool is None {
            Some(Error::NotInitialized)
        } else {
            let p = self.pool.unwrap();
            if !fits(p.total_liquidity - p.total_borrowed) {
                Some(Error::Overflow)
            } else if amount > p.total_liquidity - p.total_borrowed {
                Some(Error::InsufficientLiquidity)
            } else if self.borrows.contains_key(campaign_id) {
                Some(Error::AlreadyHasBorrow)
            } else if !fits(p.total_borrowed + amount) {
                Some(Error::Overflow)
            } else if p.total_liquidity > 0 && !fits((p.total_borrowed + amount) * 100) {
                Some(Error::Overflow)
            } else if now + duration_secs > u64::MAX {
                Some(Error::Overflow)
            } else if self.token is None {
                Some(Error::NotInitialized)
            } else {
                None
            }
        }
    }

    pub open spec fn after_borrow(
        self,
        now: u64,
        borrower: Address,
        campaign_id: u64,
        amount: i128,
        duration_secs: u64,
    ) -> PoolStorage {
        let p = self.pool.unwrap();
        let borrowed = (p.total_borrowed + amount) as i128;
        PoolStorage {
            pool: Some(
                PoolState {
                    total_borrowed: borrowed,
                    utilization_rate: utilization(p, borrowed, p.total_liquidity),
                    last_updated: now,
                    ..p
                },
            ),
            borrows: self.borrows.insert(
                campaign_id,
                BorrowPosition {
                    borrower,
                    campaign_id,
                    borrowed: amount,
                    interest_accrued: 0,
                    borrowed_at: now,
                    due_at: (now + duration_secs) as u64,
                },
            ),
            ..self
        }
    }

    /// The amount owed on a borrow at `now`: principal plus interest.
    pub open spec fn owed(self, now: u64, campaign_id: u64) -> int {
        let b = self.borrows[campaign_id];
        b.borrowed + interest(now, b.borrowed, b.borrowed_at, self.pool.unwrap().borrow_rate_bps)
    }

    pub open spec fn repay_check(self, now: u64, borrower: Address, campaign_id: u64, amount: i128) -> Option<Error> {
        if !self.borrows.contains_key(campaign_id) {
            Some(Error::BorrowNotFound)
        } else if self.borrows[campaign_id].borrower != borrower {
            Some(Error::Unauthorized)
        } else if self.pool is None {
            Some(Error::NotInitialized)
        } else {
            let p = self.pool.unwrap();
            let b = self.borrows[campaign_id];
            let i = interest(now, b.borrowed, b.borrowed_at, p.borrow_rate_bps);
            let owed = self.owed(now, campaign_id);
            let reserve = protocol_share(i, p.reserve_factor);
            let liquidity = p.total_liquidity + (i - reserve);
            if !fits(owed) {
                Some(Error::Overflow)
            } else if amount < owed {
                Some(Error::InsufficientPayment)
            } else if self.token is None {
                Some(Error::NotInitialized)
            } else if !fits(p.total_borrowed - b.borrowed) || !fits(i * p.reserve_factor)
                || !fits(i - reserve) || !fits(p.interest_reserve + reserve) || !fits(liquidity) {
                Some(Error::Overflow)
            } else if liquidity > 0 && !fits((p.total_borrowed - b.borrowed) * 100) {
                Some(Error::Overflow)
            } else {
                None
            }
        }
    }

    pub open spec fn after_repay(self, now: u64, campaign_id: u64) -> PoolStorage {
        let p = self.pool.unwrap();
        let b = self.borrows[campaign_id];
        let i = interest(now, b.borrowed, b.borrowed_at, p.borrow_rate_bps);
        let reserve = protocol_share(i, p.reserve_factor);
        let borrowed = (p.total_borrowed - b.borrowed) as i128;
        let liquidity = (p.total_liquidity + (i - reserve)) as i128;
        PoolStorage {
            pool: Some(
                PoolState {
                    total_borrowed: borrowed,
                    interest_reserve: (p.interest_reserve + reserve) as i128,
                    total_liquidity: liquidity,
                    utilization_rate: utilization(p, borrowed, liquidity),
                    last_updated: now,
                    ..p
                },
            ),
            borrows: self.borrows.remove(campaign_id),
            ..self
        }
    }
}

/// The interest on a borrow at `now`, computed with saturating products.
fn calculate_interest(now: u64, borrowed: i128, borrowed_at: u64, rate_bps: u32) -> (r: i128)
    ensures
        r == interest(now, borrowed, borrowed_at, rate_bps),
{
    let elapsed = now.saturating_sub(borrowed_at);
    let scaled = saturating_mul_i128(saturating_mul_i128(borrowed, rate_bps as i128), elapsed as i128);
    scaled / 315_576_000_000i128
}

impl LiquidityPoolContract {
    /// A pool that has not been initialized.
    pub fn new() -> (c: LiquidityPoolContract)
        ensures
            c@.roles.admin is None,
            c@.roles.pending_admin is None,
            c@.token is None,
            c@.total_shares == 0,
            c@.pool is None,
            c@.providers.is_empty(),
            c@.borrows.is_empty(),
    {
        LiquidityPoolContract {
            roles: AdminRole::new(),
            token: None,
            total_shares: 0,
            pool: None,
            providers: HashMapWithView::new(),
            borrows: HashMapWithView::new(),
        }
    }

    /// Makes `admin` the administrator and opens an empty pool of `token`
    /// with a 10% reserve factor and a 5% annual borrow rate.
    pub fn initialize(&mut self, now: u64, admin: Address, token: Address) -> (r: Result<(), Error>)
        ensures
            r == (if old(self)@.roles.admin is Some {
                Err::<(), Error>(Error::AlreadyInitialized)
            } else {
                Ok(())
            }),
            final(self)@ == (if r is Ok {
                PoolStorage {
                    roles: AdminRole { admin: Some(admin), ..old(self)@.roles },
                    token: Some(token),
                    total_shares: 0,
                    pool: Some(
                        PoolState {
                            total_liquidity: 0,
                            total_borrowed: 0,
                            reserve_factor: DEFAULT_RESERVE_FACTOR,
                            utilization_rate: 0,
                            borrow_rate_bps: DEFAULT_BORROW_RATE_BPS,
                            last_updated: now,
                            interest_reserve: 0,
                        },
                    ),
                    ..old(self)@
                }
            } else {
                old(self)@
            }),
    {
        if self.roles.admin.is_some() {
            return Err(Error::AlreadyInitialized);
        }
        self.roles.admin = Some(admin);
        self.token = Some(token);
        self.total_shares = 0;
        self.pool = Some(
            PoolState {
                total_liquidity: 0,
                total_borrowed: 0,
                reserve_factor: DEFAULT_RESERVE_FACTOR,
                utilization_rate: 0,
                borrow_rate_bps: DEFAULT_BORROW_RATE_BPS,
                last_updated: now,
                interest_reserve: 0,
            },
        );
        Ok(())
    }

    fn position_of(&self, provider: Address, now: u64) -> (r: ProviderPosition)
        ensures
            r == self@.position_of(provider, now),
    {
        match self.providers.get(&provider) {
            Some(p) => *p,
            None => ProviderPosition {
                provider,
                deposited: 0,
                shares: 0,
                deposited_at: now,
                last_claim: now,
            },
        }
    }

    /// `provider` deposits a positive `amount` and receives shares: one per
    /// token in an empty pool, else `amount * total_shares / total_liquidity`.
    pub fn deposit(&mut self, now: u64, provider: Address, amount: i128) -> (r: Result<(i128, Transfer), Error>)
        ensures
            ({
                let s = old(self)@;
                match s.deposit_check(now, provider, amount) {
                    Some(e) => r == Err::<(i128, Transfer), Error>(e) && final(self)@ == s,
                    None => {
                        &&& r == Ok::<(i128, Transfer), Error>(
                            (
                                shares_for(s.pool.unwrap(), s.total_shares, amount) as i128,
                                Transfer::Collect { token: s.token.unwrap(), from: provider, amount },
                            ),
                        )
                        &&& final(self)@ == s.after_deposit(now, provider, amount)
                    },
                }
            }),
    {
        if amount <= 0 {
            return Err(Error::InvalidAmount);
        }
        let token = match self.token {
            Some(t) => t,
            None => return Err(Error::NotInitialized),
        };
        let pool = match self.pool {
            Some(p) => p,
            None => return Err(Error::NotInitialized),
        };
        let total_shares = self.total_shares;
        let shares = if pool.total_liquidity == 0 || total_shares == 0 {
            amount
        } else {
            let scaled = match amount.checked_mul(total_shares) {
                Some(v) => v,
                None => return Err(Error::Overflow),
            };
            match checked_div_i128(scaled, pool.total_liquidity) {
                Some(v) => v,
                None => return Err(Error::Overflow),
            }
        };
        let liquidity = match pool.total_liquidity.checked_add(amount) {
            Some(v) => v,
            None => return Err(Error::Overflow),
        };
        let new_total_shares = match total_shares.checked_add(shares) {
            Some(v) => v,
            None => return Err(Error::Overflow),
        };
        let pos = self.position_of(provider, now);
        let deposited = match pos.deposited.checked_add(amount) {
            Some(v) => v,
            None => return Err(Error::Overflow),
        };
        let pos_shares = match pos.shares.checked_add(shares) {
            Some(v) => v,
            None => return Err(Error::Overflow),
        };
        self.pool = Some(PoolState { total_liquidity: liquidity, last_updated: now, ..pool });
        self.total_shares = new_total_shares;
        self.providers.insert(
            provider,
            ProviderPosition { deposited, shares: pos_shares, ..pos },
        );
        Ok((shares, Transfer::Collect { token, from: provider, amount }))
    }

    /// `provider` redeems `shares` for their proportion of the liquidity,
    /// which must not exceed what is not lent out.
    pub fn withdraw(&mut self, now: u64, provider: Address, shares: i128) -> (r: Result<(i128, Transfer), Error>)
        ensures
            ({
                let s = old(self)@;
                match s.withdraw_check(provider, shares) {
                    Some(e) => r == Err::<(i128, Transfer), Error>(e) && final(self)@ == s,
                    None => {
                        let amount = amount_for(s.pool.unwrap(), s.total_shares, shares) as i128;
                        &&& r == Ok::<(i128, Transfer), Error>(
                            (amount, Transfer::Pay { token: s.token.unwrap(), to: provider, amount }),
                        )
                        &&& final(self)@ == s.after_withdraw(now, provider, shares)
                    },
                }
            }),
    {
        let pos = match self.providers.get(&provider) {
            Some(p) => *p,
            None => return Err(Error::NoPosition),
        };
        if pos.shares < shares {
            return Err(Error::InsufficientShares);
        }
        let pool = match self.pool {
            Some(p) => p,
            None => return Err(Error::NotInitialized),
        };
        let total_shares = self.total_shares;
        if total_shares == 0 {
            return Err(Error::NoSharesInPool);
        }
        let scaled = match shares.checked_mul(pool.total_liquidity) {
            Some(v) => v,
            None => return Err(Error::Overflow),
        };
        let amount = match checked_div_i128(scaled, total_shares) {
            Some(v) => v,
            None => return Err(Error::Overflow),
        };
        let available = match pool.total_liquidity.checked_sub(pool.total_borrowed) {
            Some(v) => v,
            None => return Err(Error::Overflow),
        };
        if amount > available {
            return Err(Error::InsufficientLiquidity);
        }
        let liquidity = match pool.total_liquidity.checked_sub(amount) {
            Some(v) => v,
            None => return Err(Error::Overflow),
        };
        let new_total_shares = match total_shares.checked_sub(shares) {
            Some(v) => v,
            None => return Err(Error::Overflow),
        };
        let pos_shares = match pos.shares.checked_sub(shares) {
            Some(v) => v,
            None => return Err(Error::Overflow),
        };
        let token = match self.token {
            Some(t) => t,
            None => return Err(Error::NotInitialized),
        };
        self.pool = Some(PoolState { total_liquidity: liquidity, last_updated: now, ..pool });
        self.total_shares = new_total_shares;
        self.providers.insert(
            provider,
            ProviderPosition {
                shares: pos_shares,
                deposited: saturating_sub_i128(pos.deposited, amount),
                ..pos
            },
        );
        Ok((amount, Transfer::Pay { token, to: provider, amount }))
    }

    /// Lends `amount` to `borrower` for campaign `campaign_id`, due after
    /// `duration_secs`; a campaign has at most one open borrow, and only
    /// liquidity not lent out can be borrowed.
    pub fn borrow(&mut self, now: u64, borrower: Address, campaign_id: u64, amount: i128, duration_secs: u64) -> (r: Result<Transfer, Error>)
        ensures
            ({
                let s = old(self)@;
                match s.borrow_check(now, campaign_id, amount, duration_secs) {
                    Some(e) => r == Err::<Transfer, Error>(e) && final(self)@ == s,
                    None => {
                        &&& r == Ok::<Transfer, Error>(
                            Transfer::Pay { token: s.token.unwrap(), to: borrower, amount },
                        )
                        &&& final(self)@ == s.after_borrow(
                            now,
                            borrower,
                            campaign_id,
                            amount,
                            duration_secs,
                        )
                    },
                }
            }),
    {
        let pool = match self.pool {
            Some(p) => p,
            None => return Err(Error::NotInitialized),
        };
        let available = match pool.total_liquidity.checked_sub(pool.total_borrowed) {
            Some(v) => v,
            None => return Err(Error::Overflow),
        };
        if amount > available {
            return Err(Error::InsufficientLiquidity);
        }
        if self.borrows.contains_key(&campaign_id) {
            return Err(Error::AlreadyHasBorrow);
        }
        let borrowed = match pool.total_borrowed.checked_add(amount) {
            Some(v) => v,
            None => return Err(Error::Overflow),
        };
        let mut utilization = pool.utilization_rate;
        if pool.total_liquidity > 0 {
            let scaled = match borrowed.checked_mul(100) {
                Some(v) => v,
                None => return Err(Error::Overflow),
            };
            utilization = (scaled / pool.total_liquidity) as u32;
        }
        let due_at = match now.checked_add(duration_secs) {
            Some(v) => v,
            None => return Err(Error::Overflow),
        };
        let token = match self.token {
            Some(t) => t,
            None => return Err(Error::NotInitialized),
        };
        self.pool = Some(
            PoolState {
                total_borrowed: borrowed,
                utilization_rate: utilization,
                last_updated: now,
                ..pool
            },
        );
        self.borrows.insert(
            campaign_id,
            BorrowPosition {
                borrower,
                campaign_id,
                borrowed: amount,
                interest_accrued: 0,
                borrowed_at: now,
                due_at,
            },
        );
        Ok(Transfer::Pay { token, to: borrower, amount })
    }

    /// Records on a borrow the interest it has accrued by `now`, and returns
    /// it.
    pub fn accrue_interest(&mut self, now: u64, campaign_id: u64) -> (r: Result<i128, Error>)
        ensures
            ({
                let s = old(self)@;
                if !s.borrows.contains_key(campaign_id) {
                    r == Err::<i128, Error>(Error::BorrowNotFound) && final(self)@ == s
                } else if s.pool is None {
                    r == Err::<i128, Error>(Error::NotInitialized) && final(self)@ == s
                } else {
                    let b = s.borrows[campaign_id];
                    let i = interest(now, b.borrowed, b.borrowed_at, s.pool.unwrap().borrow_rate_bps) as i128;
                    &&& r == Ok::<i128, Error>(i)
                    &&& final(self)@ == (PoolStorage {
                        borrows: s.borrows.insert(
                            campaign_id,
                            BorrowPosition { interest_accrued: i, ..b },
                        ),
                        ..s
                    })
                }
            }),
    {
        let b = match self.borrows.get(&campaign_id) {
            Some(b) => *b,
            None => return Err(Error::BorrowNotFound),
        };
        let pool = match self.pool {
            Some(p) => p,
            None => return Err(Error::NotInitialized),
        };
        let i = calculate_interest(now, b.borrowed, b.borrowed_at, pool.borrow_rate_bps);
        self.borrows.insert(campaign_id, BorrowPosition { interest_accrued: i, ..b });
        Ok(i)
    }

    /// The borrower repays its borrow with `amount`, at least principal plus
    /// interest to `now`. The principal returns to the pool; of the interest,
    /// the reserve factor goes to the protocol reserve and the rest to the
    /// providers' liquidity; any excess is paid back. The borrow is closed.
    pub fn repay(&mut self, now: u64, borrower: Address, campaign_id: u64, amount: i128) -> (r: Result<Vec<Transfer>, Error>)
        ensures
            ({
                let s = old(self)@;
                match s.repay_check(now, borrower, campaign_id, amount) {
                    Some(e) => r is Err && r->Err_0 == e && final(self)@ == s,
                    None => {
                        let token = s.token.unwrap();
                        let excess = clamp_i128(amount - s.owed(now, campaign_id));
                        &&& r is Ok
                        &&& r->Ok_0@ == seq![Transfer::Collect { token, from: borrower, amount }]
                            + (if excess > 0 {
                            seq![Transfer::Pay { token, to: borrower, amount: excess as i128 }]
                        } else {
                            Seq::empty()
                        })
                        &&& final(self)@ == s.after_repay(now, campaign_id)
                    },
                }
            }),
    {
        let b = match self.borrows.get(&campaign_id) {
            Some(b) => *b,
            None => return Err(Error::BorrowNotFound),
        };
        if b.borrower != borrower {
            return Err(Error::Unauthorized);
        }
        let pool = match self.pool {
            Some(p) => p,
            None => return Err(Error::NotInitialized),
        };
        let i = calculate_interest(now, b.borrowed, b.borrowed_at, pool.borrow_rate_bps);
        let owed = match b.borrowed.checked_add(i) {
            Some(v) => v,
            None => return Err(Error::Overflow),
        };
        if amount < owed {
            return Err(Error::InsufficientPayment);
        }
        let token = match self.token {
            Some(t) => t,
            None => return Err(Error::NotInitialized),
        };
        let excess = saturating_sub_i128(amount, owed);
        let borrowed = match pool.total_borrowed.checked_sub(b.borrowed) {
            Some(v) => v,
            None => return Err(Error::Overflow),
        };
        let scaled = match i.checked_mul(pool.reserve_factor as i128) {
            Some(v) => v,
            None => return Err(Error::Overflow),
        };
        let reserve = scaled / 100;
        let lender = match i.checked_sub(reserve) {
            Some(v) => v,
            None => return Err(Error::Overflow),
        };
        let interest_reserve = match pool.interest_reserve.checked_add(reserve) {
            Some(v) => v,
            None => return Err(Error::Overflow),
        };
        let liquidity = match pool.total_liquidity.checked_add(lender) {
            Some(v) => v,
            None => return Err(Error::Overflow),
        };
        let mut utilization = pool.utilization_rate;
        if liquidity > 0 {
            let scaled_borrowed = match borrowed.checked_mul(100) {
                Some(v) => v,
                None => return Err(Error::Overflow),
            };
            utilization = (scaled_borrowed / liquidity) as u32;
        }
        self.pool = Some(
            PoolState {
                total_borrowed: borrowed,
                interest_reserve,
                total_liquidity: liquidity,
                utilization_rate: utilization,
                last_updated: now,
                ..pool
            },
        );
        self.borrows.remove(&campaign_id);
        let mut transfers: Vec<Transfer> = Vec::new();
        transfers.push(Transfer::Collect { token, from: borrower, amount });
        if excess > 0 {
            transfers.push(Transfer::Pay { token, to: borrower, amount: excess });
        }
        Ok(transfers)
    }

    /// The pool's figures.
    pub fn get_pool_state(&self) -> (r: Result<PoolState, Error>)
        ensures
            r == (match self@.pool {
                Some(p) => Ok(p),
                None => Err(Error::NotInitialized),
            }),
    {
        match self.pool {
            Some(p) => Ok(p),
            None => Err(Error::NotInitialized),
        }
    }

    pub fn get_provider_position(&self, provider: Address) -> (r: Option<ProviderPosition>)
        ensures
            r == (if self@.providers.contains_key(provider) {
                Some(self@.providers[provider])
            } else {
                None
            }),
    {
        match self.providers.get(&provider) {
            Some(p) => Some(*p),
            None => None,
        }
    }

    pub fn get_borrow(&self, campaign_id: u64) -> (r: Option<BorrowPosition>)
        ensures
            r == (if self@.borrows.contains_key(campaign_id) {
                Some(self@.borrows[campaign_id])
            } else {
                None
            }),
    {
        match self.borrows.get(&campaign_id) {
            Some(b) => Some(*b),
            None => None,
        }
    }

    /// The administrator offers its role to `new_admin`.
    pub fn propose_admin(&mut self, current_admin: Address, new_admin: Address) -> (r: Result<(), Error>)
        ensures
            r == (match old(self)@.roles.propose_check(current_admin) {
                Some(e) => Err(e),
                None => Ok(()),
            }),
            final(self)@ == (if r is Ok {
                PoolStorage { roles: old(self)@.roles.proposed(new_admin), ..old(self)@ }
            } else {
                old(self)@
            }),
    {
        self.roles.propose_admin(current_admin, new_admin)
    }

    /// The offered successor takes the administrator role.
    pub fn accept_admin(&mut self, new_admin: Address) -> (r: Result<(), Error>)
        ensures
            r == (match old(self)@.roles.accept_check(new_admin) {
                Some(e) => Err(e),
                None => Ok(()),
            }),
            final(self)@ == (if r is Ok {
                PoolStorage { roles: old(self)@.roles.accepted(new_admin), ..old(self)@ }
            } else {
                old(self)@
            }),
    {
        self.roles.accept_admin(new_admin)
    }
}

/// The first deposit into an empty pool issues one share per token.
pub proof fn law_first_deposit_one_to_one(p: PoolState, total_shares: i128, amount: i128)
    requires
        p.total_liquidity == 0 || total_shares == 0,
    ensures
        shares_for(p, total_shares, amount) == amount,
{
}

/// Interest is never negative on a non-negative principal at a non-negative
/// rate, and no interest accrues at the moment of borrowing.
pub proof fn law_interest_nonnegative(now: u64, borrowed: i128, borrowed_at: u64, rate_bps: u32)
    requires
        borrowed >= 0,
    ensures
        interest(now, borrowed, borrowed_at, rate_bps) >= 0,
        interest(borrowed_at, borrowed, borrowed_at, rate_bps) == 0,
{
    assert(borrowed * rate_bps >= 0) by (nonlinear_arith)
        requires
            borrowed >= 0,
            rate_bps >= 0,
    ;
    let c = clamp_i128(borrowed * rate_bps);
    let elapsed: int = if now > borrowed_at { now - borrowed_at } else { 0 };
    assert(c * elapsed >= 0) by (nonlinear_arith)
        requires
            c >= 0,
            elapsed >= 0,
    ;
}

/// Repaying splits the interest without loss: what goes to the reserve and
/// what goes to the providers add up to the interest paid, and with a reserve
/// factor of at most 100% neither part is negative for non-negative interest.
pub proof fn law_interest_split(i: int, reserve_factor: u32)
    requires
        i >= 0,
        reserve_factor <= 100,
    ensures
        protocol_share(i, reserve_factor) + (i - protocol_share(i, reserve_factor)) == i,
        0 <= protocol_share(i, reserve_factor) <= i,
{
    assert(0 <= i * reserve_factor <= i * 100) by (nonlinear_arith)
        requires
            i >= 0,
            0 <= reserve_factor <= 100,
    ;
    assert((i * reserve_factor) / 100 <= (i * 100) / 100) by {
        vstd::arithmetic::div_mod::lemma_div_is_ordered(i * reserve_factor, i * 100, 100);
    }
    assert((i * 100) / 100 == i) by {
        vstd::arithmetic::div_mod::lemma_div_by_multiple(i, 100);
    }
}

/// The pool has not lent out more than it holds.
pub open spec fn lent_within_liquidity(s: PoolStorage) -> bool {
    s.pool is Some ==> s.pool.unwrap().total_borrowed <= s.pool.unwrap().total_liquidity
}

/// The pool never lends more than it holds: deposits, withdrawals, borrows
/// and repayments of non-negative borrows all keep the amount borrowed within
/// the pool's liquidity.
pub proof fn law_pool_never_overlent(
    s: PoolStorage,
    now: u64,
    provider: Address,
    amount: i128,
    shares: i128,
    borrower: Address,
    campaign_id: u64,
    duration_secs: u64,
    payment: i128,
)
    requires
        lent_within_liquidity(s),
        s.pool is Some ==> s.pool.unwrap().reserve_factor <= 100,
    ensures
        s.deposit_check(now, provider, amount) is None ==> lent_within_liquidity(
            s.after_deposit(now, provider, amount),
        ),
        s.withdraw_check(provider, shares) is None ==> lent_within_liquidity(
            s.after_withdraw(now, provider, shares),
        ),
        s.borrow_check(now, campaign_id, amount, duration_secs) is None ==> lent_within_liquidity(
            s.after_borrow(now, borrower, campaign_id, amount, duration_secs),
        ),
        s.repay_check(now, borrower, campaign_id, payment) is None
            && s.borrows[campaign_id].borrowed >= 0 ==> lent_within_liquidity(
            s.after_repay(now, campaign_id),
        ),
{
    if s.repay_check(now, borrower, campaign_id, payment) is None && s.borrows[campaign_id].borrowed
        >= 0 {
        let p = s.pool.unwrap();
        let b = s.borrows[campaign_id];
        law_interest_nonnegative(now, b.borrowed, b.borrowed_at, p.borrow_rate_bps);
        law_interest_split(interest(now, b.borrowed, b.borrowed_at, p.borrow_rate_bps), p.reserve_factor);
    }
}

/// A deposit into a pool that already has liquidity and shares is priced at
/// the pool's value per share: the shares issued are the largest number whose
/// value (at total liquidity over total shares) does not exceed the deposit,
/// so the depositor never gains at the other providers' expense; and what the
/// pool has lent out does not enter the price.
pub proof fn law_deposit_priced_at_share_value(p: PoolState, total_shares: i128, amount: i128, borrowed: i128)
    requires
        p.total_liquidity > 0,
        total_shares > 0,
        amount >= 0,
    ensures
        shares_for(p, total_shares, amount) * p.total_liquidity <= amount * total_shares,
        amount * total_shares < (shares_for(p, total_shares, amount) + 1) * p.total_liquidity,
        shares_for(PoolState { total_borrowed: borrowed, ..p }, total_shares, amount) == shares_for(
            p,
            total_shares,
            amount,
        ),
{
    let a = amount * total_shares;
    let l = p.total_liquidity as int;
    assert(a >= 0) by (nonlinear_arith)
        requires
            a == amount * total_shares,
            amount >= 0,
            total_shares > 0,
    ;
    vstd::arithmetic::div_mod::lemma_fundamental_div_mod(a, l);
    vstd::arithmetic::div_mod::lemma_mod_bound(a, l);
    let q = a / l;
    assert(shares_for(p, total_shares, amount) == q);
    assert(q * l <= a < (q + 1) * l) by (nonlinear_arith)
        requires
            a == l * q + a % l,
            0 <= a % l < l,
    ;
}

/// A withdrawal is priced at the pool's value per share: it pays the largest
/// amount not exceeding the shares' part of the total liquidity, and what the
/// pool has lent out does not enter the price.
pub proof fn law_withdraw_priced_at_share_value(p: PoolState, total_shares: i128, shares: i128, borrowed: i128)
    requires
        p.total_liquidity >= 0,
        total_shares > 0,
        shares >= 0,
    ensures
        amount_for(p, total_shares, shares) * total_shares <= shares * p.total_liquidity,
        shares * p.total_liquidity < (amount_for(p, total_shares, shares) + 1) * total_shares,
        amount_for(PoolState { total_borrowed: borrowed, ..p }, total_shares, shares) == amount_for(
            p,
            total_shares,
            shares,
        ),
{
    let a = shares * p.total_liquidity;
    let t = total_shares as int;
    assert(a >= 0) by (nonlinear_arith)
        requires
            a == shares * p.total_liquidity,
            shares >= 0,
            p.total_liquidity >= 0,
    ;
    vstd::arithmetic::div_mod::lemma_fundamental_div_mod(a, t);
    vstd::arithmetic::div_mod::lemma_mod_bound(a, t);
    let q = a / t;
    assert(amount_for(p, total_shares, shares) == q);
    assert(q * t <= a < (q + 1) * t) by (nonlinear_arith)
        requires
            a == t * q + a % t,
            0 <= a % t < t,
    ;
}

} // verus!
