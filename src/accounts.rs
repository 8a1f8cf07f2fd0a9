use vstd::prelude::*;
use anchor_lang::prelude::{AccountInfo, InterfaceAccount};
use anchor_spl::token_interface::TokenAccount;
use crate::snapshot::{snapshot_from_sources, snapshot_of, TokenSource, WalletSnapshot};

verus! {

#[verifier::external_type_specification]
#[verifier::external_body]
pub struct ExAccountInfo<'a>(AccountInfo<'a>);

/// An anchor token account (SPL Token or Token-2022), with its cached state.
#[verifier::external_body]
pub struct TokenAccountHandle<'info>(pub Box<InterfaceAccount<'info, TokenAccount>>);

/// Relies on `AccountInfo::try_lamports`: the account's lamport balance, or
/// `None` where the lamports are borrowed mutably elsewhere.
#[verifier::external_body]
fn try_lamports(info: &AccountInfo) -> Option<u64> {
    info.try_lamports().ok()
}

/// Relies on `AccountInfo::try_lamports`, on the account info behind the token
/// account: zero once the account has been closed.
#[verifier::external_body]
fn token_account_lamports(acc: &TokenAccountHandle) -> Option<u64> {
    let info: &AccountInfo = AsRef::<AccountInfo>::as_ref(&*acc.0);
    info.try_lamports().ok()
}

/// Relies on `InterfaceAccount::reload`: re-reads the cached token state from
/// the account's data. Every error it returns comes before the cache is
/// replaced, so on failure the account is left as it was.
#[verifier::external_body]
fn reload(acc: &mut TokenAccountHandle) -> (ok: bool)
    ensures
        !ok ==> *final(acc) == *old(acc),
{
    acc.0.reload().is_ok()
}

/// Relies on the `amount` field of the cached token account state.
#[verifier::external_body]
fn cached_amount(acc: &TokenAccountHandle) -> u64 {
    acc.0.amount
}

/// The payer's native account, with a record of the last lamport reading.
pub struct PayerAccount<'info> {
    info: AccountInfo<'info>,
    lamports_read: Ghost<Option<u64>>,
}

impl<'info> PayerAccount<'info> {
    /// The account info held.
    pub closed spec fn info(&self) -> AccountInfo<'info> {
        self.info
    }

    /// What the last lamport reading returned; `None` if it could not be read.
    pub closed spec fn lamports_read(&self) -> Option<u64> {
        self.lamports_read@
    }

    pub fn new(info: AccountInfo<'info>) -> (r: Self)
        ensures
            r.info() == info,
            r.lamports_read() is None,
    {
        PayerAccount { info, lamports_read: Ghost(None) }
    }

    /// Reads the lamport balance, and records the reading.
    fn read_lamports(&mut self) -> (r: Option<u64>)
        ensures
            final(self).info() == old(self).info(),
            final(self).lamports_read() == r,
    {
        let r = try_lamports(&self.info);
        self.lamports_read = Ghost(r);
        r
    }
}

/// A token account supplied by the caller, with records of what its last
/// snapshot read: the lamports, the outcome of the refresh, the amount.
pub struct TokenAccountSource<'info> {
    account: TokenAccountHandle<'info>,
    lamports_read: Ghost<Option<u64>>,
    refresh_outcome: Ghost<Option<bool>>,
    amount_read: Ghost<Option<u64>>,
}

impl<'info> TokenAccountSource<'info> {
    /// The token account held.
    pub closed spec fn account(&self) -> TokenAccountHandle<'info> {
        self.account
    }

    /// What the last lamport reading returned; `None` if it could not be read.
    pub closed spec fn lamports_read(&self) -> Option<u64> {
        self.lamports_read@
    }

    /// Whether the last read refreshed the account (`Some`), and if so whether
    /// the refresh succeeded.
    pub closed spec fn refresh_outcome(&self) -> Option<bool> {
        self.refresh_outcome@
    }

    /// The amount the last read took from the account, if it took one.
    pub closed spec fn amount_read(&self) -> Option<u64> {
        self.amount_read@
    }

    pub fn new(account: TokenAccountHandle<'info>) -> (r: Self)
        ensures
            r.account() == account,
            r.lamports_read() is None,
            r.refresh_outcome() is None,
            r.amount_read() is None,
    {
        TokenAccountSource {
            account,
            lamports_read: Ghost(None),
            refresh_outcome: Ghost(None),
            amount_read: Ghost(None),
        }
    }

    /// Finds out whether the account is live. A live one (holding lamports)
    /// is refreshed, and its amount read whether or not the refresh
    /// succeeded; a closed or unreadable one is left untouched.
    fn observe(&mut self) -> (r: TokenSource)
        ensures
            token_read(Some(*old(self)), Some(*final(self))),
            r == observed_source(Some(*final(self))),
    {
        let lamports = token_account_lamports(&self.account);
        self.lamports_read = Ghost(lamports);
        let live = match lamports {
            Some(l) => l > 0,
            None => false,
        };
        if live {
            let ok = reload(&mut self.account);
            self.refresh_outcome = Ghost(Some(ok));
            let amount = cached_amount(&self.account);
            self.amount_read = Ghost(Some(amount));
            TokenSource::Backed { amount }
        } else {
            self.refresh_outcome = Ghost(None);
            self.amount_read = Ghost(None);
            TokenSource::Closed
        }
    }
}

/// The lamports a reading found, where `None` means that none was found.
pub open spec fn found_live(lamports: Option<u64>) -> bool {
    match lamports {
        Some(l) => l > 0,
        None => false,
    }
}

/// What a token source counts as, by what its last read recorded: absent;
/// live, with the amount read after its refresh; or else closed.
pub open spec fn observed_source(src: Option<TokenAccountSource>) -> TokenSource {
    match src {
        None => TokenSource::Absent,
        Some(s) => if found_live(s.lamports_read()) {
            match s.amount_read() {
                Some(amount) => TokenSource::Backed { amount },
                None => TokenSource::Closed,
            }
        } else {
            TokenSource::Closed
        },
    }
}

/// How a read leaves a token source: present as before; if live, refreshed
/// and its amount read, the account unchanged where the refresh failed; if
/// not, neither refreshed nor changed.
pub open spec fn token_read(before: Option<TokenAccountSource>, after: Option<TokenAccountSource>) -> bool {
    match (before, after) {
        (None, None) => true,
        (Some(b), Some(a)) => if found_live(a.lamports_read()) {
            &&& a.refresh_outcome() is Some
            &&& a.amount_read() is Some
            &&& a.refresh_outcome() == Some(false) ==> a.account() == b.account()
        } else {
            &&& a.account() == b.account()
            &&& a.refresh_outcome() is None
            &&& a.amount_read() is None
        },
        _ => false,
    }
}

/// The native balance a payer reading gives: zero where it could not be read.
pub open spec fn native_balance(payer: PayerAccount) -> u64 {
    match payer.lamports_read() {
        Some(n) => n,
        None => 0,
    }
}

/// A token account whose read found no lamports adds to a snapshot what an
/// absent one does: zero.
pub proof fn lemma_closed_account_counts_as_absent(
    sol_lamports: u64,
    src: TokenAccountSource,
    other: TokenSource,
)
    requires
        src.lamports_read() == Some(0u64),
    ensures
        snapshot_of(sol_lamports, observed_source(Some(src)), other) == snapshot_of(
            sol_lamports,
            observed_source(None),
            other,
        ),
        snapshot_of(sol_lamports, other, observed_source(Some(src))) == snapshot_of(
            sol_lamports,
            other,
            observed_source(None),
        ),
{
}

fn observe_token_source(src: &mut Option<TokenAccountSource>) -> (r: TokenSource)
    ensures
        token_read(*old(src), *final(src)),
        r == observed_source(*final(src)),
{
    match src {
        Some(acc) => acc.observe(),
        None => TokenSource::Absent,
    }
}

/// Takes a snapshot of the payer's SOL, WSOL and USDC balances. A token
/// account that is absent, closed (no lamports) or whose lamports cannot be
/// read counts as zero and is left untouched; a live one is refreshed and its
/// amount read, a failed refresh leaving its cached amount in place. The call
/// never fails.
pub fn snapshot_wallet_balances<'info>(
    payer: &mut PayerAccount<'info>,
    payer_wsol_token_account: &mut Option<TokenAccountSource<'info>>,
    payer_usdc_token_account: &mut Option<TokenAccountSource<'info>>,
) -> (r: WalletSnapshot)
    ensures
        final(payer).info() == old(payer).info(),
        token_read(*old(payer_wsol_token_account), *final(payer_wsol_token_account)),
        token_read(*old(payer_usdc_token_account), *final(payer_usdc_token_account)),
        r == snapshot_of(
            native_balance(*final(payer)),
            observed_source(*final(payer_wsol_token_account)),
            observed_source(*final(payer_usdc_token_account)),
        ),
{
    let sol_lamports = match payer.read_lamports() {
        Some(n) => n,
        None => 0,
    };
    let wsol = observe_token_source(payer_wsol_token_account);
    let usdc = observe_token_source(payer_usdc_token_account);
    snapshot_from_sources(sol_lamports, wsol, usdc)
}

} // verus!
