use anchor_lang::prelude::Pubkey;
use veritas_airdrop::derive::derive_trust_key;
use veritas_airdrop::airdrop::{
    check_claim, claim, initialize_config, AirdropConfig, AirdropError, Claim, ConfigStore,
    InitializeConfig, Wallet, AIRDROP_AMOUNT,
};
use veritas_airdrop::identity::Identity;
use veritas_airdrop::registry::{
    initialize_trust_account, update_score, InitializeTrustAccount, TrustAccount, TrustRegistry,
    UpdateScore, VeritasError, MAX_SCORE, VERITAS_PROGRAM_ID,
};

const CLAIMER: u8 = 1;
const TREASURY: u8 = 2;
const AUTHORITY: u8 = 3;

fn id(b: u8) -> Identity {
    Identity::new([b; 32])
}

fn veritas() -> Identity {
    Identity::new(VERITAS_PROGRAM_ID)
}

fn init_ctx(owner: u8) -> InitializeTrustAccount {
    InitializeTrustAccount { wallet: id(owner), authority: id(AUTHORITY), authority_is_signer: true }
}

fn update_ctx(key: Identity) -> UpdateScore {
    UpdateScore { trust_account: key, authority: id(AUTHORITY), authority_is_signer: true }
}

fn config_ctx(key: u8) -> InitializeConfig {
    InitializeConfig { config: id(key), authority: id(AUTHORITY), authority_is_signer: true, treasury: id(TREASURY) }
}

fn registry_with_record(owner: u8, now: i64) -> (TrustRegistry, Identity) {
    let mut registry = TrustRegistry::new(veritas());
    let ctx = init_ctx(owner);
    let key = initialize_trust_account(&mut registry, &ctx, now).unwrap();
    (registry, key)
}

fn config(min_score: u8) -> AirdropConfig {
    let mut store = ConfigStore::new();
    initialize_config(&mut store, &config_ctx(6), min_score).unwrap()
}

fn claim_ctx(registry: &TrustRegistry, key: Identity, min_score: u8) -> Claim {
    Claim {
        claimer: Wallet { key: id(CLAIMER), lamports: 5_000, is_signer: true },
        trust_key: key,
        trust_account: registry.get(&key).unwrap(),
        config: config(min_score),
        treasury: Wallet { key: id(TREASURY), lamports: 1_000_000_000, is_signer: true },
        veritas_program: registry.program_id,
    }
}

#[test]
fn default_record_claims() {
    let (registry, key) = registry_with_record(CLAIMER, 10);
    let mut ctx = claim_ctx(&registry, key, 50);
    let transfer = claim(&mut ctx).unwrap();
    assert_eq!(transfer.lamports, 100_000_000);
    assert_eq!(transfer.from.bytes, [TREASURY; 32]);
    assert_eq!(transfer.to.bytes, [CLAIMER; 32]);
    assert_eq!(ctx.treasury.lamports, 900_000_000);
    assert_eq!(ctx.claimer.lamports, 100_005_000);
}

#[test]
fn low_score_claim_refused() {
    let (mut registry, key) = registry_with_record(CLAIMER, 10);
    let up = update_ctx(key);
    assert_eq!(update_score(&mut registry, &up, 30, 0, 20), Ok(()));
    let mut ctx = claim_ctx(&registry, key, 50);
    assert_eq!(claim(&mut ctx).map(|t| t.lamports), Err(AirdropError::LowTrustScore));
    assert_eq!(ctx.treasury.lamports, 1_000_000_000);
    assert_eq!(ctx.claimer.lamports, 5_000);
}

#[test]
fn out_of_range_score_refused() {
    let (mut registry, key) = registry_with_record(CLAIMER, 10);
    let up = update_ctx(key);
    assert_eq!(update_score(&mut registry, &up, 150, 9, 20), Err(VeritasError::InvalidScore));
    let account = registry.get(&key).unwrap();
    assert_eq!(account.score, 100);
    assert_eq!(account.flags, 0);
    assert_eq!(account.last_updated, 10);
}

#[test]
fn second_initialization_refused() {
    let (mut registry, key) = registry_with_record(CLAIMER, 10);
    let ctx = init_ctx(CLAIMER);
    assert_eq!(
        initialize_trust_account(&mut registry, &ctx, 99).map(|k| k.bytes),
        Err(VeritasError::AlreadyInitialized)
    );
    assert_eq!(registry.entries.len(), 1);
    let account = registry.get(&key).unwrap();
    assert_eq!(account.address.bytes, [CLAIMER; 32]);
    assert_eq!(account.score, MAX_SCORE);
    assert_eq!(account.flags, 0);
    assert_eq!(account.last_updated, 10);
}

#[test]
fn repeated_claims_both_pay() {
    let (registry, key) = registry_with_record(CLAIMER, 10);
    let mut ctx = claim_ctx(&registry, key, 50);
    assert!(claim(&mut ctx).is_ok());
    assert!(claim(&mut ctx).is_ok());
    assert_eq!(ctx.treasury.lamports, 800_000_000);
    assert_eq!(ctx.claimer.lamports, 200_005_000);
}

#[test]
fn update_in_range_stores_score() {
    let (mut registry, key) = registry_with_record(CLAIMER, 10);
    let up = update_ctx(key);
    for score in 0..=100u8 {
        assert_eq!(update_score(&mut registry, &up, score, 0xABCD, 11), Ok(()));
        let account: TrustAccount = registry.get(&key).unwrap();
        assert_eq!(account.score, score);
        assert_eq!(account.flags, 0xABCD);
        assert_eq!(account.last_updated, 11);
        assert_eq!(account.address.bytes, [CLAIMER; 32]);
    }
}

#[test]
fn update_of_missing_record_refused() {
    let mut registry = TrustRegistry::new(veritas());
    let up = update_ctx(id(9));
    assert_eq!(update_score(&mut registry, &up, 50, 0, 1), Err(VeritasError::AccountNotInitialized));
}

#[test]
fn record_of_another_owner_refused() {
    let (mut registry, _) = registry_with_record(CLAIMER, 10);
    let other = init_ctx(4);
    let other_key = initialize_trust_account(&mut registry, &other, 10).unwrap();
    let mut ctx = claim_ctx(&registry, other_key, 50);
    assert_eq!(claim(&mut ctx).map(|t| t.lamports), Err(AirdropError::ConstraintSeeds));
    assert_eq!(ctx.treasury.lamports, 1_000_000_000);
    assert_eq!(ctx.claimer.lamports, 5_000);
}

#[test]
fn record_of_another_registry_refused() {
    let mut foreign = TrustRegistry::new(id(8));
    let ctx = init_ctx(CLAIMER);
    let foreign_key = initialize_trust_account(&mut foreign, &ctx, 10).unwrap();
    let mut named = claim_ctx(&foreign, foreign_key, 0);
    assert_eq!(claim(&mut named).map(|t| t.lamports), Err(AirdropError::InvalidProgramId));
    assert_eq!(named.treasury.lamports, 1_000_000_000);
    let mut c = claim_ctx(&foreign, foreign_key, 0);
    c.veritas_program = veritas();
    assert_eq!(claim(&mut c).map(|t| t.lamports), Err(AirdropError::ConstraintSeeds));
}

#[test]
fn unsigned_treasury_refused() {
    let (registry, key) = registry_with_record(CLAIMER, 10);
    let mut ctx = claim_ctx(&registry, key, 50);
    ctx.treasury.is_signer = false;
    assert_eq!(claim(&mut ctx).map(|t| t.lamports), Err(AirdropError::AccountNotSigner));
    assert_eq!(ctx.treasury.lamports, 1_000_000_000);
}

#[test]
fn unsigned_claimer_refused() {
    let (registry, key) = registry_with_record(CLAIMER, 10);
    let mut ctx = claim_ctx(&registry, key, 50);
    ctx.claimer.is_signer = false;
    assert_eq!(claim(&mut ctx).map(|t| t.lamports), Err(AirdropError::AccountNotSigner));
}

#[test]
fn other_treasury_refused() {
    let (registry, key) = registry_with_record(CLAIMER, 10);
    let mut ctx = claim_ctx(&registry, key, 50);
    ctx.treasury.key = id(5);
    assert_eq!(claim(&mut ctx).map(|t| t.lamports), Err(AirdropError::ConstraintHasOne));
}

#[test]
fn empty_treasury_refused() {
    let (registry, key) = registry_with_record(CLAIMER, 10);
    let mut ctx = claim_ctx(&registry, key, 50);
    ctx.treasury.lamports = AIRDROP_AMOUNT - 1;
    assert_eq!(claim(&mut ctx).map(|t| t.lamports), Err(AirdropError::InsufficientFunds));
    assert_eq!(ctx.treasury.lamports, AIRDROP_AMOUNT - 1);
}

#[test]
fn score_equal_to_minimum_claims() {
    let (mut registry, key) = registry_with_record(CLAIMER, 10);
    let up = update_ctx(key);
    update_score(&mut registry, &up, 50, 0, 12).unwrap();
    let mut ctx = claim_ctx(&registry, key, 50);
    assert!(claim(&mut ctx).is_ok());
    let mut below = claim_ctx(&registry, key, 51);
    assert_eq!(claim(&mut below).map(|t| t.lamports), Err(AirdropError::LowTrustScore));
}

#[test]
fn config_minimum_is_not_checked() {
    let cfg = config(200);
    assert_eq!(cfg.min_score_required, 200);
    assert_eq!(cfg.authority.bytes, [AUTHORITY; 32]);
    assert_eq!(cfg.treasury.bytes, [TREASURY; 32]);
    let (registry, key) = registry_with_record(CLAIMER, 10);
    let mut ctx = claim_ctx(&registry, key, 200);
    assert_eq!(claim(&mut ctx).map(|t| t.lamports), Err(AirdropError::LowTrustScore));
}

#[test]
fn derived_key_is_the_program_address() {
    let registry = veritas();
    let owner = id(CLAIMER);
    let key = derive_trust_key(&registry, &owner).unwrap();
    let (expected, _bump) = Pubkey::find_program_address(
        &[b"trust", &[CLAIMER; 32]],
        &Pubkey::new_from_array(VERITAS_PROGRAM_ID),
    );
    assert_eq!(key.bytes, expected.to_bytes());
    assert_ne!(key.bytes, owner.bytes);
    let other = derive_trust_key(&id(8), &owner).unwrap();
    assert_ne!(key.bytes, other.bytes);
}

#[test]
fn check_claim_without_derived_key_refused() {
    let (registry, key) = registry_with_record(CLAIMER, 10);
    let ctx = claim_ctx(&registry, key, 0);
    let program = veritas();
    let r = check_claim(&ctx.claimer, &ctx.treasury, &program, &key, &None, &ctx.trust_account, &ctx.config);
    assert_eq!(r.map(|t| t.lamports), Err(AirdropError::ConstraintSeeds));
    let ok =
        check_claim(&ctx.claimer, &ctx.treasury, &program, &key, &Some(key), &ctx.trust_account, &ctx.config);
    assert_eq!(ok.map(|t| t.lamports), Ok(AIRDROP_AMOUNT));
}

#[test]
fn identity_comparison_and_bytes() {
    let mut bytes = [3u8; 32];
    bytes[31] = 4;
    let a = Identity::new(bytes);
    assert!(a.same(&Identity::new(bytes)));
    assert!(!a.same(&id(3)));
    assert_eq!(a.to_vec(), bytes.to_vec());
}

#[test]
fn second_config_at_same_key_refused() {
    let mut store = ConfigStore::new();
    let first = initialize_config(&mut store, &config_ctx(6), 50).unwrap();
    assert_eq!(first.min_score_required, 50);
    assert_eq!(
        initialize_config(&mut store, &config_ctx(6), 10).map(|c| c.min_score_required),
        Err(AirdropError::AlreadyInitialized)
    );
    assert_eq!(store.entries.len(), 1);
    assert_eq!(store.get(&id(6)).unwrap().min_score_required, 50);
    let other = initialize_config(&mut store, &config_ctx(9), 70).unwrap();
    assert_eq!(other.min_score_required, 70);
    assert_eq!(store.entries.len(), 2);
}

#[test]
fn unsigned_config_authority_refused() {
    let mut store = ConfigStore::new();
    let mut ctx = config_ctx(6);
    ctx.authority_is_signer = false;
    assert_eq!(
        initialize_config(&mut store, &ctx, 50).map(|c| c.min_score_required),
        Err(AirdropError::AccountNotSigner)
    );
    assert_eq!(store.entries.len(), 0);
}

#[test]
fn unsigned_record_authority_refused() {
    let mut registry = TrustRegistry::new(veritas());
    let mut ctx = init_ctx(CLAIMER);
    ctx.authority_is_signer = false;
    assert_eq!(
        initialize_trust_account(&mut registry, &ctx, 1).map(|k| k.bytes),
        Err(VeritasError::AccountNotSigner)
    );
    assert_eq!(registry.entries.len(), 0);
}

#[test]
fn unsigned_update_refused() {
    let (mut registry, key) = registry_with_record(CLAIMER, 10);
    let mut up = update_ctx(key);
    up.authority_is_signer = false;
    assert_eq!(update_score(&mut registry, &up, 20, 3, 11), Err(VeritasError::AccountNotSigner));
    let account = registry.get(&key).unwrap();
    assert_eq!(account.score, 100);
    assert_eq!(account.last_updated, 10);
}
