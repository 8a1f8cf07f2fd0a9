use vstd::prelude::*;

verus! {

/// The three balances of a wallet at one point in time.
#[derive(Clone, Copy, Debug, PartialEq, Eq, Structural)]
pub struct WalletSnapshot {
    /// Native balance, in lamports (9 decimals).
    pub sol_lamports: u64,
    /// Wrapped native token balance, 9 decimals (lamports-equivalent).
    pub wsol_amount: u64,
    /// Stablecoin token balance, 6 decimals.
    pub usdc_amount: u64,
}

/// What a token balance source was found to be when it was read.
#[derive(Clone, Copy, Debug, PartialEq, Eq, Structural)]
pub enum TokenSource {
    /// No account was supplied.
    Absent,
    /// An account was supplied, but it holds no lamports: it was closed.
    Closed,
    /// A live account, with the balance read after its data was refreshed.
    Backed { amount: u64 },
}

/// The balance that a token source contributes to a snapshot.
pub open spec fn source_balance(s: TokenSource) -> u64 {
    match s {
        TokenSource::Backed { amount } => amount,
        _ => 0,
    }
}

/// The snapshot made of a native balance and two token sources.
pub open spec fn snapshot_of(sol_lamports: u64, wsol: TokenSource, usdc: TokenSource) -> WalletSnapshot {
    WalletSnapshot {
        sol_lamports,
        wsol_amount: source_balance(wsol),
        usdc_amount: source_balance(usdc),
    }
}

impl TokenSource {
    /// The balance this source contributes: zero unless it is backed.
    pub fn balance(&self) -> (r: u64)
        ensures
            r == source_balance(*self),
    {
        match self {
            TokenSource::Backed { amount } => *amount,
            _ => 0,
        }
    }
}

/// Builds the snapshot of a native balance and two token sources, where an
/// absent or closed source counts as zero.
pub fn snapshot_from_sources(sol_lamports: u64, wsol: TokenSource, usdc: TokenSource) -> (r: WalletSnapshot)
    ensures
        r == snapshot_of(sol_lamports, wsol, usdc),
{
    WalletSnapshot { sol_lamports, wsol_amount: wsol.balance(), usdc_amount: usdc.balance() }
}

/// An absent token source and a closed one give the same snapshot, all else
/// being equal.
pub proof fn lemma_absent_same_as_closed(sol_lamports: u64, wsol: TokenSource, usdc: TokenSource)
    ensures
        snapshot_of(sol_lamports, TokenSource::Absent, usdc) == snapshot_of(sol_lamports, TokenSource::Closed, usdc),
        snapshot_of(sol_lamports, wsol, TokenSource::Absent) == snapshot_of(sol_lamports, wsol, TokenSource::Closed),
        snapshot_of(sol_lamports, TokenSource::Absent, usdc).wsol_amount == 0,
{
}

} // verus!
