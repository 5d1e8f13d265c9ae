use crate::derive::{derive_trust_key, trust_key_of};
use crate::identity::{option_view, Identity};
use crate::registry::{TrustAccount, VERITAS_PROGRAM_ID};
use vstd::prelude::*;

verus! {

/// What one qualifying claim pays out, in base units.
pub const AIRDROP_AMOUNT: u64 = 100_000_000;

/// The airdrop's policy: who set it up, the least score that may claim, and the
/// wallet that pays.
#[derive(Clone, Copy, Debug)]
pub struct AirdropConfig {
    pub authority: Identity,
    pub min_score_required: u8,
    pub treasury: Identity,
}

/// Why a claim was refused.
#[derive(Clone, Copy, Debug, PartialEq, Eq, Structural)]
pub enum AirdropError {
    /// The record's score is below the configured minimum.
    LowTrustScore,
    /// The claimer, the treasury or the authority did not sign.
    AccountNotSigner,
    /// The registry named is not the one whose records the airdrop trusts.
    InvalidProgramId,
    /// The record supplied is not the one derived from the registry and the claimer.
    ConstraintSeeds,
    /// The treasury supplied is not the configured one.
    ConstraintHasOne,
    /// The treasury holds less than the payout.
    InsufficientFunds,
    /// A policy already stands at the key.
    AlreadyInitialized,
}

/// A wallet taking part in a call: its identity, its balance in base units and
/// whether it signed the call.
#[derive(Clone, Copy, Debug)]
pub struct Wallet {
    pub key: Identity,
    pub lamports: u64,
    pub is_signer: bool,
}

/// A movement of value from one wallet to another.
#[derive(Clone, Copy, Debug)]
pub struct Transfer {
    pub from: Identity,
    pub to: Identity,
    pub lamports: u64,
}

/// The accounts of `initialize_config`: the key the policy is stored at, the
/// identity that sets it up (and whether it signed), and the wallet that will pay.
#[derive(Clone, Copy, Debug)]
pub struct InitializeConfig {
    pub config: Identity,
    pub authority: Identity,
    pub authority_is_signer: bool,
    pub treasury: Identity,
}

/// A policy together with the key it is stored at.
#[derive(Clone, Copy, Debug)]
pub struct ConfigEntry {
    pub key: Identity,
    pub config: AirdropConfig,
}

/// The airdrop policies, each at its own key; several may stand side by side.
#[derive(Clone, Debug)]
pub struct ConfigStore {
    pub entries: Vec<ConfigEntry>,
}

/// The policy that `initialize_config` creates from `ctx` and `min_score`.
pub open spec fn config_of(ctx: InitializeConfig, min_score: u8) -> AirdropConfig {
    AirdropConfig { authority: ctx.authority, min_score_required: min_score, treasury: ctx.treasury }
}

impl ConfigStore {
    /// No two policies share a key.
    pub open spec fn wf(&self) -> bool {
        forall|i: int, j: int|
            0 <= i < j < self.entries@.len() ==> self.entries@[i].key@ != self.entries@[j].key@
    }

    /// Whether a policy stands at `key`.
    pub open spec fn has_key(&self, key: Seq<u8>) -> bool {
        exists|i: int| 0 <= i < self.entries@.len() && self.entries@[i].key@ == key
    }

    /// A store with no policies.
    pub fn new() -> (r: ConfigStore)
        ensures
            r.wf(),
            r.entries@.len() == 0,
    {
        ConfigStore { entries: Vec::new() }
    }

    /// The position of the policy at `key`.
    pub fn find(&self, key: &Identity) -> (r: Option<usize>)
        ensures
            match r {
                Some(i) => i < self.entries@.len() && self.entries@[i as int].key@ == key@,
                None => !self.has_key(key@),
            },
    {
        let mut i: usize = 0;
        while i < self.entries.len()
            invariant
                0 <= i <= self.entries@.len(),
                forall|j: int| 0 <= j < i ==> self.entries@[j].key@ != key@,
            decreases self.entries@.len() - i,
        {
            if self.entries[i].key.same(key) {
                return Some(i);
            }
            i = i + 1;
        }
        None
    }

    /// The policy at `key`, if there is one.
    pub fn get(&self, key: &Identity) -> (r: Option<AirdropConfig>)
        ensures
            match r {
                Some(c) => exists|i: int|
                    0 <= i < self.entries@.len() && self.entries@[i].key@ == key@
                        && self.entries@[i].config == c,
                None => !self.has_key(key@),
            },
    {
        match self.find(key) {
            Some(i) => Some(self.entries[i].config),
            None => None,
        }
    }
}

/// Creates the policy at `ctx.config` and returns it. The minimum score is
/// taken as given. Refused, with the store unchanged, where the authority did
/// not sign or a policy already stands at that key.
pub fn initialize_config(store: &mut ConfigStore, ctx: &InitializeConfig, min_score: u8) -> (r: Result<
    AirdropConfig,
    AirdropError,
>)
    requires
        old(store).wf(),
    ensures
        final(store).wf(),
        !ctx.authority_is_signer ==> r == Err::<AirdropConfig, AirdropError>(
            AirdropError::AccountNotSigner,
        ) && final(store).entries@ == old(store).entries@,
        ctx.authority_is_signer && old(store).has_key(ctx.config@) ==> r == Err::<
            AirdropConfig,
            AirdropError,
        >(AirdropError::AlreadyInitialized) && final(store).entries@ == old(store).entries@,
        ctx.authority_is_signer && !old(store).has_key(ctx.config@) ==> r == Ok::<
            AirdropConfig,
            AirdropError,
        >(config_of(*ctx, min_score)) && final(store).entries@ == old(store).entries@.push(
            ConfigEntry { key: ctx.config, config: config_of(*ctx, min_score) },
        ),
{
    if !ctx.authority_is_signer {
        return Err(AirdropError::AccountNotSigner);
    }
    if store.find(&ctx.config).is_some() {
        return Err(AirdropError::AlreadyInitialized);
    }
    let config = AirdropConfig { authority: ctx.authority, min_score_required: min_score, treasury: ctx.treasury };
    store.entries.push(ConfigEntry { key: ctx.config, config });
    Ok(config)
}

/// The first reason, in the order the airdrop checks them, why a claim by
/// `claimer` with the record at `trust_key` fails, where `program` is the
/// registry named and `expected_key` the key derived from it and the claimer;
/// `None` where it succeeds.
pub open spec fn claim_error(
    claimer: Wallet,
    treasury: Wallet,
    program: Seq<u8>,
    trust_key: Seq<u8>,
    expected_key: Option<Seq<u8>>,
    account: TrustAccount,
    config: AirdropConfig,
) -> Option<AirdropError> {
    if !claimer.is_signer {
        Some(AirdropError::AccountNotSigner)
    } else if !treasury.is_signer {
        Some(AirdropError::AccountNotSigner)
    } else if program != VERITAS_PROGRAM_ID@ {
        Some(AirdropError::InvalidProgramId)
    } else if expected_key != Some(trust_key) {
        Some(AirdropError::ConstraintSeeds)
    } else if config.treasury@ != treasury.key@ {
        Some(AirdropError::ConstraintHasOne)
    } else if account.score < config.min_score_required {
        Some(AirdropError::LowTrustScore)
    } else if treasury.lamports < AIRDROP_AMOUNT {
        Some(AirdropError::InsufficientFunds)
    } else {
        None
    }
}

/// `w` after receiving the payout.
pub open spec fn credited(w: Wallet) -> Wallet {
    Wallet { lamports: (w.lamports + AIRDROP_AMOUNT) as u64, ..w }
}

/// `w` after paying the payout.
pub open spec fn debited(w: Wallet) -> Wallet {
    Wallet { lamports: (w.lamports - AIRDROP_AMOUNT) as u64, ..w }
}

/// Checks a claim against the airdrop's rules, given the registry named and
/// the key derived from it and the claimer; on success, the transfer to make.
pub fn check_claim(
    claimer: &Wallet,
    treasury: &Wallet,
    veritas_program: &Identity,
    trust_key: &Identity,
    expected_key: &Option<Identity>,
    account: &TrustAccount,
    config: &AirdropConfig,
) -> (r: Result<Transfer, AirdropError>)
    ensures
        match claim_error(
            *claimer,
            *treasury,
            veritas_program@,
            trust_key@,
            option_view(*expected_key),
            *account,
            *config,
        ) {
            Some(e) => r == Err::<Transfer, AirdropError>(e),
            None => r == Ok::<Transfer, AirdropError>(
                Transfer { from: treasury.key, to: claimer.key, lamports: AIRDROP_AMOUNT },
            ),
        },
{
    if !claimer.is_signer || !treasury.is_signer {
        return Err(AirdropError::AccountNotSigner);
    }
    if !veritas_program.same(&Identity::new(VERITAS_PROGRAM_ID)) {
        return Err(AirdropError::InvalidProgramId);
    }
    let bound = match expected_key {
        Some(k) => k.same(trust_key),
        None => false,
    };
    if !bound {
        return Err(AirdropError::ConstraintSeeds);
    }
    if !config.treasury.same(&treasury.key) {
        return Err(AirdropError::ConstraintHasOne);
    }
    if account.score < config.min_score_required {
        return Err(AirdropError::LowTrustScore);
    }
    if treasury.lamports < AIRDROP_AMOUNT {
        return Err(AirdropError::InsufficientFunds);
    }
    Ok(Transfer { from: treasury.key, to: claimer.key, lamports: AIRDROP_AMOUNT })
}

/// The accounts of `claim`: the claimer, the record offered as the claimer's
/// (its key and contents), the airdrop's policy, the treasury, and the registry
/// named for the record.
#[derive(Clone, Copy, Debug)]
pub struct Claim {
    pub claimer: Wallet,
    pub trust_key: Identity,
    pub trust_account: TrustAccount,
    pub config: AirdropConfig,
    pub treasury: Wallet,
    pub veritas_program: Identity,
}

/// The first reason why the claim `c` fails, where the airdrop derives the
/// expected record key from `c.veritas_program` and the claimer.
pub open spec fn claim_error_of(c: Claim) -> Option<AirdropError> {
    claim_error(
        c.claimer,
        c.treasury,
        c.veritas_program@,
        c.trust_key@,
        trust_key_of(c.veritas_program@, c.claimer.key@),
        c.trust_account,
        c.config,
    )
}

/// Pays `AIRDROP_AMOUNT` from the treasury to the claimer where both wallets
/// signed, the registry named is `VERITAS_PROGRAM_ID`, the record at
/// `ctx.trust_key` is the claimer's record under it, the treasury is the
/// configured one and the score clears the minimum. All checks come before any
/// change: a refused claim changes no balance. Nothing records a claim, so a
/// qualifying claimer may claim again.
pub fn claim(ctx: &mut Claim) -> (r: Result<Transfer, AirdropError>)
    requires
        old(ctx).claimer.lamports + AIRDROP_AMOUNT <= u64::MAX,
    ensures
        match claim_error_of(*old(ctx)) {
            Some(e) => r == Err::<Transfer, AirdropError>(e),
            None => r == Ok::<Transfer, AirdropError>(
                Transfer {
                    from: old(ctx).treasury.key,
                    to: old(ctx).claimer.key,
                    lamports: AIRDROP_AMOUNT,
                },
            ),
        },
        r is Ok ==> *final(ctx) == (Claim {
            claimer: credited(old(ctx).claimer),
            treasury: debited(old(ctx).treasury),
            ..*old(ctx)
        }),
        r is Ok ==> final(ctx).treasury.lamports + AIRDROP_AMOUNT == old(ctx).treasury.lamports
            && final(ctx).claimer.lamports == old(ctx).claimer.lamports + AIRDROP_AMOUNT,
        r is Err ==> *final(ctx) == *old(ctx),
        old(ctx).veritas_program@ != VERITAS_PROGRAM_ID@ ==> r is Err,
        trust_key_of(VERITAS_PROGRAM_ID@, old(ctx).claimer.key@) != Some(old(ctx).trust_key@)
            ==> r is Err,
        old(ctx).claimer.is_signer && old(ctx).treasury.is_signer && old(ctx).veritas_program@
            == VERITAS_PROGRAM_ID@ && trust_key_of(VERITAS_PROGRAM_ID@, old(ctx).claimer.key@)
            == Some(old(ctx).trust_key@) && old(ctx).config.treasury@ == old(ctx).treasury.key@
            && old(ctx).treasury.lamports >= AIRDROP_AMOUNT ==> (r is Ok <==> old(
            ctx,
        ).trust_account.score >= old(ctx).config.min_score_required),
{
    let expected_key = derive_trust_key(&ctx.veritas_program, &ctx.claimer.key);
    let transfer = check_claim(
        &ctx.claimer,
        &ctx.treasury,
        &ctx.veritas_program,
        &ctx.trust_key,
        &expected_key,
        &ctx.trust_account,
        &ctx.config,
    )?;
    ctx.treasury.lamports = ctx.treasury.lamports - AIRDROP_AMOUNT;
    ctx.claimer.lamports = ctx.claimer.lamports + AIRDROP_AMOUNT;
    Ok(transfer)
}

/// Claims leave no mark: after a successful claim, the same claim succeeds
/// again, and pays again, wherever the treasury still holds the payout.
pub proof fn lemma_claim_repeatable(c: Claim)
    requires
        claim_error_of(c) is None,
        c.treasury.lamports >= 2 * AIRDROP_AMOUNT,
    ensures
        claim_error_of(Claim { claimer: credited(c.claimer), treasury: debited(c.treasury), ..c })
            is None,
{
}

} // verus!
