use crate::derive::{derive_trust_key, trust_key_of};
use crate::identity::Identity;
use vstd::prelude::*;

verus! {

/// Largest score a trust record may hold; also the score of a new record.
pub const MAX_SCORE: u8 = 100;

/// The identity of the registry whose records the airdrop trusts.
pub const VERITAS_PROGRAM_ID: [u8; 32] = [
    116, 150, 193, 254, 79, 204, 75, 117, 113, 154, 93, 107, 229, 169, 127, 157, 249, 127, 215,
    241, 163, 244, 173, 100, 210, 12, 186, 238, 243, 148, 102, 208,
];

/// The reputation record of one identity.
#[derive(Clone, Copy, Debug)]
pub struct TrustAccount {
    /// The identity this record attests.
    pub address: Identity,
    pub score: u8,
    /// Unix time of the last change.
    pub last_updated: i64,
    pub flags: u32,
}

/// Why a registry operation was refused.
#[derive(Clone, Copy, Debug, PartialEq, Eq, Structural)]
pub enum VeritasError {
    /// The proposed score is above `MAX_SCORE`.
    InvalidScore,
    /// A record already stands at the derived key.
    AlreadyInitialized,
    /// No record stands at the given key.
    AccountNotInitialized,
    /// The ledger gives no address for the record's seeds.
    DerivationFailed,
    /// The authority did not sign.
    AccountNotSigner,
}

/// A record together with the storage key it stands at.
#[derive(Clone, Copy, Debug)]
pub struct TrustEntry {
    pub key: Identity,
    pub account: TrustAccount,
}

/// The records of one registry, each at the key derived from the registry's
/// identity and the record's owner.
#[derive(Clone, Debug)]
pub struct TrustRegistry {
    pub program_id: Identity,
    pub entries: Vec<TrustEntry>,
}

/// The record that `initialize_trust_account` creates for `owner` at time `now`.
pub open spec fn fresh_account(owner: Identity, now: i64) -> TrustAccount {
    TrustAccount { address: owner, score: MAX_SCORE, last_updated: now, flags: 0 }
}

/// `account` after a successful `update_score`.
pub open spec fn rescored(account: TrustAccount, score: u8, flags: u32, now: i64) -> TrustAccount {
    TrustAccount { score, flags, last_updated: now, ..account }
}

impl TrustRegistry {
    /// No two records share a key; every score is in range; every record stands
    /// at the key derived from the registry and its owner.
    pub open spec fn wf(&self) -> bool {
        &&& forall|i: int, j: int|
            0 <= i < j < self.entries@.len() ==> self.entries@[i].key@ != self.entries@[j].key@
        &&& forall|i: int|
            0 <= i < self.entries@.len() ==> self.entries@[i].account.score <= MAX_SCORE
        &&& forall|i: int|
            0 <= i < self.entries@.len() ==> trust_key_of(self.program_id@, self.entries@[i].account.address@)
                == Some(self.entries@[i].key@)
    }

    /// Whether a record stands at `key`.
    pub open spec fn has_key(&self, key: Seq<u8>) -> bool {
        exists|i: int| 0 <= i < self.entries@.len() && self.entries@[i].key@ == key
    }

    /// An empty registry with identity `program_id`.
    pub fn new(program_id: Identity) -> (r: TrustRegistry)
        ensures
            r.wf(),
            r.program_id == program_id,
            r.entries@.len() == 0,
    {
        TrustRegistry { program_id, entries: Vec::new() }
    }

    /// The position of the record at `key`.
    pub fn find(&self, key: &Identity) -> (r: Option<usize>)
        ensures
            match r {
                Some(i) => i < self.entries@.len() && self.entries@[i as int].key@ == key@,
                None => !self.has_key(key@),
            },
    {
        let mut i: usize = 0;
        while i < self.entries.len()
            invariant
                0 <= i <= self.entries@.len(),
                forall|j: int| 0 <= j < i ==> self.entries@[j].key@ != key@,
            decreases self.entries@.len() - i,
        {
            if self.entries[i].key.same(key) {
                return Some(i);
            }
            i = i + 1;
        }
        None
    }

    /// The record at `key`, if there is one.
    pub fn get(&self, key: &Identity) -> (r: Option<TrustAccount>)
        ensures
            match r {
                Some(a) => exists|i: int|
                    0 <= i < self.entries@.len() && self.entries@[i].key@ == key@
                        && self.entries@[i].account == a,
                None => !self.has_key(key@),
            },
    {
        match self.find(key) {
            Some(i) => Some(self.entries[i].account),
            None => None,
        }
    }
}

/// The accounts of `initialize_trust_account`: the wallet to be scored, and
/// the authority that pays for its record and whether it signed.
#[derive(Clone, Copy, Debug)]
pub struct InitializeTrustAccount {
    pub wallet: Identity,
    pub authority: Identity,
    pub authority_is_signer: bool,
}

/// The accounts of `update_score`: the key of the record to rescore, and the
/// authority that asks for it and whether it signed.
#[derive(Clone, Copy, Debug)]
pub struct UpdateScore {
    pub trust_account: Identity,
    pub authority: Identity,
    pub authority_is_signer: bool,
}

/// Creates the record of `ctx.wallet`, with the highest score and no flags, at
/// the key derived from the registry and that wallet; returns that key.
/// Refused, with the registry unchanged, where the authority did not sign or a
/// record already stands there.
pub fn initialize_trust_account(
    registry: &mut TrustRegistry,
    ctx: &InitializeTrustAccount,
    now: i64,
) -> (r: Result<Identity, VeritasError>)
    requires
        old(registry).wf(),
    ensures
        final(registry).wf(),
        final(registry).program_id == old(registry).program_id,
        !ctx.authority_is_signer ==> r == Err::<Identity, VeritasError>(VeritasError::AccountNotSigner)
            && final(registry).entries@ == old(registry).entries@,
        ctx.authority_is_signer ==> match trust_key_of(old(registry).program_id@, ctx.wallet@) {
            None => r == Err::<Identity, VeritasError>(VeritasError::DerivationFailed)
                && final(registry).entries@ == old(registry).entries@,
            Some(k) => if old(registry).has_key(k) {
                r == Err::<Identity, VeritasError>(VeritasError::AlreadyInitialized)
                    && final(registry).entries@ == old(registry).entries@
            } else {
                &&& r is Ok
                &&& r.unwrap()@ == k
                &&& final(registry).entries@ == old(registry).entries@.push(
                    TrustEntry { key: r.unwrap(), account: fresh_account(ctx.wallet, now) },
                )
            },
        },
{
    if !ctx.authority_is_signer {
        return Err(VeritasError::AccountNotSigner);
    }
    let key = match derive_trust_key(&registry.program_id, &ctx.wallet) {
        Some(k) => k,
        None => return Err(VeritasError::DerivationFailed),
    };
    if registry.find(&key).is_some() {
        return Err(VeritasError::AlreadyInitialized);
    }
    let account = TrustAccount { address: ctx.wallet, score: MAX_SCORE, last_updated: now, flags: 0 };
    registry.entries.push(TrustEntry { key, account });
    Ok(key)
}

/// Sets the score and flags of the record at `ctx.trust_account` and stamps it with `now`.
/// Any authority that signed may do so. Refused, with the registry unchanged,
/// where the authority did not sign, `score` is above `MAX_SCORE` or no record
/// stands at that key.
pub fn update_score(
    registry: &mut TrustRegistry,
    ctx: &UpdateScore,
    score: u8,
    flags: u32,
    now: i64,
) -> (r: Result<(), VeritasError>)
    requires
        old(registry).wf(),
    ensures
        final(registry).wf(),
        final(registry).program_id == old(registry).program_id,
        final(registry).entries@.len() == old(registry).entries@.len(),
        !ctx.authority_is_signer ==> r == Err::<(), VeritasError>(VeritasError::AccountNotSigner)
            && final(registry).entries@ == old(registry).entries@,
        ctx.authority_is_signer && score > MAX_SCORE ==> r == Err::<(), VeritasError>(VeritasError::InvalidScore)
            && final(registry).entries@ == old(registry).entries@,
        ctx.authority_is_signer && score <= MAX_SCORE && !old(registry).has_key(ctx.trust_account@) ==> r == Err::<(), VeritasError>(
            VeritasError::AccountNotInitialized,
        ) && final(registry).entries@ == old(registry).entries@,
        ctx.authority_is_signer && score <= MAX_SCORE && old(registry).has_key(ctx.trust_account@) ==> r is Ok && forall|i: int|
            0 <= i < old(registry).entries@.len() ==> final(registry).entries@[i] == (if old(registry).entries@[i].key@ == ctx.trust_account@ {
                TrustEntry {
                    account: rescored(old(registry).entries@[i].account, score, flags, now),
                    ..old(registry).entries@[i]
                }
            } else {
                old(registry).entries@[i]
            }),
{
    if !ctx.authority_is_signer {
        return Err(VeritasError::AccountNotSigner);
    }
    if score > MAX_SCORE {
        return Err(VeritasError::InvalidScore);
    }
    match registry.find(&ctx.trust_account) {
        None => Err(VeritasError::AccountNotInitialized),
        Some(i) => {
            let old_entry = registry.entries[i];
            let account = TrustAccount { score, flags, last_updated: now, ..old_entry.account };
            registry.entries[i] = TrustEntry { key: old_entry.key, account };
            Ok(())
        },
    }
}

/// A record, once created, takes its key: after `initialize_trust_account` has
/// added the record of `wallet` at `key`, the key derived for `wallet` under the
/// same registry is still `key`, a record stands there, and it is the fresh
/// record of `wallet`. By the contract of `initialize_trust_account`, a second
/// call for `wallet` is then refused with `AlreadyInitialized` and leaves the
/// entries as they are.
pub proof fn lemma_initialize_twice_refused(
    before: TrustRegistry,
    after: TrustRegistry,
    wallet: Identity,
    now: i64,
    key: Identity,
)
    requires
        trust_key_of(before.program_id@, wallet@) == Some(key@),
        after.program_id == before.program_id,
        after.entries@ == before.entries@.push(TrustEntry { key, account: fresh_account(wallet, now) }),
    ensures
        trust_key_of(after.program_id@, wallet@) == Some(key@),
        after.has_key(key@),
        after.entries@[before.entries@.len() as int].account == fresh_account(wallet, now),
{
    assert(after.entries@[before.entries@.len() as int].key@ == key@);
}

} // verus!
