//! The token ledger facade: it plans the calls to make on the fungible-token ledger and
//! hands the ledger's answer on. The ledger does the accounting; nothing of it is kept here.

use vstd::prelude::*;
use crate::address::Address;
use crate::authority::{derive_proxy, found_program_address, mint_seeds, program_address,
    rederive_proxy,
    signer_seeds, SigningProxy};
use crate::error::Error;

verus! {

/// The number of decimal places of every mint this facade creates.
pub const MINT_DECIMALS: u8 = 9;

/// The state kept for a mint's signing proxy: the identity that established it, and the
/// bump seed by which the proxy's address is derived again. It is written once.
#[derive(Clone, Copy, Debug)]
pub struct MintAuthority {
    pub authority: Address,
    pub bump: u8,
}

impl MintAuthority {
    /// Whether two states hold the same authority and bump seed.
    pub fn same(&self, other: &MintAuthority) -> (same: bool)
        ensures
            same == (*self == *other),
    {
        self.authority.is(&other.authority) && self.bump == other.bump
    }
}

impl PartialEq for MintAuthority {
    fn eq(&self, other: &MintAuthority) -> (same: bool) {
        self.same(other)
    }
}

impl Eq for MintAuthority {}

impl vstd::std_specs::cmp::PartialEqSpecImpl for MintAuthority {
    open spec fn obeys_eq_spec() -> bool {
        true
    }

    open spec fn eq_spec(&self, other: &MintAuthority) -> bool {
        *self == *other
    }
}

/// One call on the token ledger.
#[derive(Clone, Copy, Debug)]
pub enum LedgerCall {
    /// Create `mint`, with `authority` as the only identity that may mint from it.
    CreateMint { mint: Address, decimals: u8, authority: Address },
    /// Create the holding account `account` of `mint`, owned by `owner`.
    CreateAccount { account: Address, mint: Address, owner: Address },
    /// Mint `amount` units of `mint` to `destination`, signed by the proxy through its seeds.
    MintTo { mint: Address, destination: Address, signer: SigningProxy, amount: u64 },
    /// Move `amount` units from `from` to `to`, signed by `owner`.
    Transfer { from: Address, to: Address, owner: Address, amount: u64 },
}

impl LedgerCall {
    /// Whether two calls are the same call, with the same parties and amount.
    pub fn same(&self, other: &LedgerCall) -> (same: bool)
        ensures
            same == (*self == *other),
    {
        match (self, other) {
            (
                LedgerCall::CreateMint { mint: m, decimals: d, authority: a },
                LedgerCall::CreateMint { mint: n, decimals: e, authority: b },
            ) => m.is(n) && *d == *e && a.is(b),
            (
                LedgerCall::CreateAccount { account: a, mint: m, owner: o },
                LedgerCall::CreateAccount { account: b, mint: n, owner: p },
            ) => a.is(b) && m.is(n) && o.is(p),
            (
                LedgerCall::MintTo { mint: m, destination: d, signer: s, amount: a },
                LedgerCall::MintTo { mint: n, destination: e, signer: t, amount: b },
            ) => m.is(n) && d.is(e) && s.same(t) && *a == *b,
            (
                LedgerCall::Transfer { from: f, to: t, owner: o, amount: a },
                LedgerCall::Transfer { from: g, to: u, owner: p, amount: b },
            ) => f.is(g) && t.is(u) && o.is(p) && *a == *b,
            _ => false,
        }
    }
}

impl PartialEq for LedgerCall {
    fn eq(&self, other: &LedgerCall) -> (same: bool) {
        self.same(other)
    }
}

impl Eq for LedgerCall {}

impl vstd::std_specs::cmp::PartialEqSpecImpl for LedgerCall {
    open spec fn obeys_eq_spec() -> bool {
        true
    }

    open spec fn eq_spec(&self, other: &LedgerCall) -> bool {
        *self == *other
    }
}

/// Who takes part in creating a mint: the caller, the mint, and the caller's holding account.
#[derive(Clone, Copy, Debug)]
pub struct Initialize {
    pub authority: Address,
    pub mint: Address,
    pub token_account: Address,
}

/// Who takes part in minting: the caller, the mint, the account to credit, and the stored
/// state of the mint's signing proxy.
#[derive(Clone, Copy, Debug)]
pub struct MintTokens {
    pub authority: Address,
    pub mint: Address,
    pub token_account: Address,
    pub mint_authority: MintAuthority,
}

/// Who takes part in a transfer: the caller, who signs as owner of `from`, and the two accounts.
#[derive(Clone, Copy, Debug)]
pub struct TransferTokens {
    pub authority: Address,
    pub from: Address,
    pub to: Address,
}

/// The state to keep and the calls to make when `ctx.authority` creates a mint whose
/// signing proxy is `proxy`: create the mint under the proxy, create the caller's holding
/// account, and mint the initial supply to it, signed by the proxy.
pub open spec fn initialize_plan(ctx: Initialize, proxy: SigningProxy, initial_supply: u64) -> (
    MintAuthority,
    Seq<LedgerCall>,
) {
    (
        MintAuthority { authority: ctx.authority, bump: proxy.bump },
        seq![
            LedgerCall::CreateMint { mint: ctx.mint, decimals: 9, authority: proxy.address },
            LedgerCall::CreateAccount {
                account: ctx.token_account,
                mint: ctx.mint,
                owner: ctx.authority,
            },
            LedgerCall::MintTo {
                mint: ctx.mint,
                destination: ctx.token_account,
                signer: proxy,
                amount: initial_supply,
            },
        ],
    )
}

/// The call that mints `amount` units to `ctx.token_account`, signed by `proxy`.
pub open spec fn mint_call(ctx: MintTokens, proxy: SigningProxy, amount: u64) -> LedgerCall {
    LedgerCall::MintTo { mint: ctx.mint, destination: ctx.token_account, signer: proxy, amount }
}

/// The call that moves `amount` units from `ctx.from` to `ctx.to`, signed by the caller.
pub open spec fn transfer_call(ctx: TransferTokens, amount: u64) -> LedgerCall {
    LedgerCall::Transfer { from: ctx.from, to: ctx.to, owner: ctx.authority, amount }
}

/// What an operation answers once the ledger has answered `answer`.
pub open spec fn settled(answer: Result<(), u64>) -> Result<(), Error> {
    match answer {
        Ok(_) => Ok(()),
        Err(code) => Err(Error::DelegateFailure { code }),
    }
}

/// Plans the creation of a mint for a signing proxy already derived.
pub fn initialize_with(ctx: &Initialize, proxy: SigningProxy, initial_supply: u64) -> (plan: (
    MintAuthority,
    Vec<LedgerCall>,
))
    ensures
        plan.0 == initialize_plan(*ctx, proxy, initial_supply).0,
        plan.1@ == initialize_plan(*ctx, proxy, initial_supply).1,
{
    let state = MintAuthority { authority: ctx.authority, bump: proxy.bump };
    let calls: Vec<LedgerCall> = vec![
        LedgerCall::CreateMint { mint: ctx.mint, decimals: MINT_DECIMALS, authority: proxy.address },
        LedgerCall::CreateAccount {
            account: ctx.token_account,
            mint: ctx.mint,
            owner: ctx.authority,
        },
        LedgerCall::MintTo {
            mint: ctx.mint,
            destination: ctx.token_account,
            signer: proxy,
            amount: initial_supply,
        },
    ];
    assert(calls@ =~= initialize_plan(*ctx, proxy, initial_supply).1);
    (state, calls)
}

/// Plans the creation of a mint under `program`: derives the mint's signing proxy, and
/// plans the calls that create the mint and the caller's holding account and mint
/// `initial_supply` units to it.
///
/// Yields a plan exactly where a proxy can be found for the mint. The proxy of the plan
/// signs for the mint, and the state to keep holds the caller and the proxy's bump seed.
pub fn initialize(program: &Address, ctx: &Initialize, initial_supply: u64) -> (plan: Option<
    (MintAuthority, Vec<LedgerCall>),
>)
    ensures
        match plan {
            Some((state, calls)) => exists|proxy: SigningProxy|
                {
                    &&& found_program_address(mint_seeds(ctx.mint@), program@) == Some(
                        (proxy.address@, proxy.bump),
                    )
                    &&& proxy.signs_for(program@, ctx.mint@)
                    &&& state == initialize_plan(*ctx, proxy, initial_supply).0
                    &&& calls@ == #[trigger] initialize_plan(*ctx, proxy, initial_supply).1
                },
            None => found_program_address(mint_seeds(ctx.mint@), program@) is None,
        },
{
    match derive_proxy(program, &ctx.mint) {
        Some(proxy) => {
            let plan = initialize_with(ctx, proxy, initial_supply);
            Some(plan)
        },
        None => None,
    }
}

/// Plans the minting of `amount` units for a signing proxy already derived.
pub fn mint_tokens_with(ctx: &MintTokens, proxy: SigningProxy, amount: u64) -> (call: LedgerCall)
    ensures
        call == mint_call(*ctx, proxy, amount),
{
    LedgerCall::MintTo { mint: ctx.mint, destination: ctx.token_account, signer: proxy, amount }
}

/// Plans the minting of `amount` units to `ctx.token_account` under `program`: derives the
/// mint's signing proxy again from the stored bump seed and lets it sign. The caller's
/// identity is not consulted.
///
/// Yields the call exactly where the stored bump seed derives an address for the mint.
pub fn mint_tokens(program: &Address, ctx: &MintTokens, amount: u64) -> (call: Option<LedgerCall>)
    ensures
        match call {
            Some(call) => exists|proxy: SigningProxy|
                {
                    &&& proxy.bump == ctx.mint_authority.bump
                    &&& proxy.signs_for(program@, ctx.mint@)
                    &&& call == #[trigger] mint_call(*ctx, proxy, amount)
                },
            None => program_address(signer_seeds(ctx.mint@, ctx.mint_authority.bump), program@)
                is None,
        },
{
    match rederive_proxy(program, &ctx.mint, ctx.mint_authority.bump) {
        Some(proxy) => Some(mint_tokens_with(ctx, proxy, amount)),
        None => None,
    }
}

/// Plans the transfer of `amount` units from `ctx.from` to `ctx.to`, signed by the caller
/// as the owner of `ctx.from`. Whether the caller owns the account, and whether the
/// account holds enough, is the ledger's to judge.
pub fn transfer_tokens(ctx: &TransferTokens, amount: u64) -> (call: LedgerCall)
    ensures
        call == transfer_call(*ctx, amount),
{
    LedgerCall::Transfer { from: ctx.from, to: ctx.to, owner: ctx.authority, amount }
}

/// Ends an operation with the ledger's answer: success as success, a refusal as
/// `DelegateFailure` with the ledger's code unchanged.
pub fn settle(answer: Result<(), u64>) -> (outcome: Result<(), Error>)
    ensures
        outcome == settled(answer),
{
    match answer {
        Ok(_) => Ok(()),
        Err(code) => Err(Error::DelegateFailure { code }),
    }
}

} // verus!
