#![allow(dead_code, unused_imports)]

use token_metadata::account::AccountView;
use token_metadata::checks::{MintFields, MintReadings};
use token_metadata::entrypoint::process_instruction;
use token_metadata::error::{ProgramError, TokenMetadataError};
use token_metadata::instruction::{discriminator, CreatorInput, MetadataContentArgs};
use token_metadata::processor::finish_create;
use token_metadata::state::{TokenMetadata, MAX_CREATORS, MAX_NAME_LEN, MAX_SYMBOL_LEN, MAX_URI_LEN};
use token_metadata::Address;

const RENT_FOR_METADATA: u64 = 4_321_680;

fn program_id() -> Address {
    token_metadata::id()
}

fn spl_token_program_id() -> Address {
    Address::new_from_array(pinocchio_token::ID.to_bytes())
}

fn spl_token_2022_program_id() -> Address {
    Address::new_from_array(pinocchio_token_2022::ID.to_bytes())
}

fn system_program_id() -> Address {
    Address::new_from_array(pinocchio_system::ID.to_bytes())
}

/// Deterministic distinct addresses standing in for fresh keypairs.
fn key(n: u8) -> Address {
    let mut bytes = [n; 32];
    bytes[0] = 0xa0;
    bytes[31] = n.wrapping_mul(7).wrapping_add(1);
    Address::new_from_array(bytes)
}

fn copy_account(a: &AccountView) -> AccountView {
    AccountView {
        address: a.address,
        owner: a.owner,
        is_signer: a.is_signer,
        is_writable: a.is_writable,
        lamports: a.lamports,
        data: a.data.clone(),
    }
}

struct Meta {
    address: Address,
    is_signer: bool,
    is_writable: bool,
}

fn meta(address: Address, is_signer: bool, is_writable: bool) -> Meta {
    Meta { address, is_signer, is_writable }
}

struct Instruction {
    accounts: Vec<Meta>,
    data: Vec<u8>,
}

/// A small ledger of accounts that runs instructions the way the runtime does: account
/// changes are kept only when the instruction succeeds, and `CreateAccount` is carried out
/// between the two steps of a creation.
struct Ledger {
    accounts: Vec<AccountView>,
}

impl Ledger {
    fn new() -> Ledger {
        Ledger { accounts: Vec::new() }
    }

    fn find(&self, address: &Address) -> Option<usize> {
        self.accounts.iter().position(|a| a.address == *address)
    }

    fn get(&self, address: &Address) -> Option<&AccountView> {
        self.find(address).map(|i| &self.accounts[i])
    }

    fn balance(&self, address: &Address) -> Option<u64> {
        self.get(address).map(|a| a.lamports)
    }

    fn set_account(&mut self, address: Address, owner: Address, data: Vec<u8>, lamports: u64) {
        let account = AccountView { address, owner, is_signer: false, is_writable: false, lamports, data };
        match self.find(&address) {
            Some(i) => self.accounts[i] = account,
            None => self.accounts.push(account),
        }
    }

    fn airdrop(&mut self, address: Address, lamports: u64) {
        self.set_account(address, system_program_id(), Vec::new(), lamports);
    }

    fn load(&self, m: &Meta) -> AccountView {
        let mut a = match self.get(&m.address) {
            Some(a) => copy_account(a),
            None => AccountView {
                address: m.address,
                owner: system_program_id(),
                is_signer: false,
                is_writable: false,
                lamports: 0,
                data: Vec::new(),
            },
        };
        a.is_signer = m.is_signer;
        a.is_writable = m.is_writable;
        a
    }

    fn send(&mut self, ix: Instruction) -> Result<(), ProgramError> {
        let pid = program_id();
        let mut accounts: Vec<AccountView> = ix.accounts.iter().map(|m| self.load(m)).collect();
        let readings = if accounts.len() > 1 {
            mint_readings(&accounts[1])
        } else {
            MintReadings { token: None, token_2022: None }
        };
        let plan = process_instruction(&pid, &mut accounts, &ix.data, &readings)?;
        if let Some(plan) = plan {
            // The system program's `CreateAccount`, signed for by the metadata address.
            let rent = RENT_FOR_METADATA;
            if accounts[0].lamports != 0 || !accounts[0].data.is_empty() {
                return Err(ProgramError::Custom(0));
            }
            if accounts[3].lamports < rent {
                return Err(ProgramError::Custom(1));
            }
            accounts[3].lamports -= rent;
            accounts[0].lamports = rent;
            accounts[0].owner = pid;
            accounts[0].data = vec![0u8; plan.space as usize];
            finish_create(&pid, &mut accounts, &plan)?;
        }
        for a in accounts {
            let closed = a.lamports == 0 && a.data.is_empty();
            match self.find(&a.address) {
                Some(i) => {
                    if closed {
                        self.accounts.remove(i);
                    } else {
                        self.accounts[i] = AccountView { is_signer: false, is_writable: false, ..a };
                    }
                }
                None => {
                    if !closed {
                        self.accounts.push(AccountView { is_signer: false, is_writable: false, ..a });
                    }
                }
            }
        }
        Ok(())
    }
}

/// What the SPL Token and Token-2022 mint readers make of an account: the token program's
/// reader wants exactly the 82-byte base layout, Token-2022's the base layout or an extended
/// account carrying the mint marker after the 165-byte base.
fn mint_readings(account: &AccountView) -> MintReadings {
    let data = &account.data;
    let fields = |data: &Vec<u8>| {
        let mint_authority = if data[0] == 1 {
            let mut b = [0u8; 32];
            b.copy_from_slice(&data[4..36]);
            Some(Address::new_from_array(b))
        } else {
            None
        };
        MintFields { mint_authority, decimals: data[44], is_initialized: data[45] == 1 }
    };
    let token = if account.owner == spl_token_program_id() && data.len() == 82 {
        Some(fields(data))
    } else {
        None
    };
    let token_2022 = if account.owner == spl_token_2022_program_id()
        && (data.len() == 82 || (data.len() != 355 && data.len() > 165 && data[165] == 1))
    {
        Some(fields(data))
    } else {
        None
    };
    MintReadings { token, token_2022 }
}

/// Raw classic SPL Token `Mint` account data (82 bytes).
fn mint_account_data(mint_authority: Option<Address>, decimals: u8) -> Vec<u8> {
    let mut data = vec![0u8; 82];
    if let Some(auth) = mint_authority {
        data[0..4].copy_from_slice(&1u32.to_le_bytes());
        data[4..36].copy_from_slice(auth.as_array());
    }
    data[44] = decimals;
    data[45] = 1;
    data
}

/// Raw Token-2022 mint account data, optionally extended with a `MetadataPointer` extension.
fn mint2022_account_data(
    mint_authority: Option<Address>,
    decimals: u8,
    metadata_pointer: Option<(Option<Address>, Option<Address>)>,
) -> Vec<u8> {
    let mut data = mint_account_data(mint_authority, decimals);
    if let Some((authority, metadata_address)) = metadata_pointer {
        data.resize(165, 0);
        data.push(1);
        data.extend_from_slice(&18u16.to_le_bytes());
        data.extend_from_slice(&64u16.to_le_bytes());
        data.extend_from_slice(&authority.map(|a| a.to_bytes()).unwrap_or([0u8; 32]));
        data.extend_from_slice(&metadata_address.map(|a| a.to_bytes()).unwrap_or([0u8; 32]));
    }
    data
}

/// A mint as the token program's `InitializeMint2` leaves it, funded by `payer`.
fn create_real_mint(
    ledger: &mut Ledger,
    payer: &Address,
    token_program_id: Address,
    mint_authority: Address,
    decimals: u8,
    n: u8,
) -> Address {
    let mint = key(n);
    let lamports = 1_461_600;
    let balance = ledger.balance(payer).unwrap();
    ledger.airdrop(*payer, balance - lamports);
    ledger.set_account(mint, token_program_id, mint_account_data(Some(mint_authority), decimals), lamports);
    mint
}

/// The metadata address of `mint` and the bump it was derived with.
fn metadata_pda(mint: &Address) -> (Address, u8) {
    let bump = 255;
    (token_metadata::pda::derive_metadata_address(mint, bump, &program_id()), bump)
}

struct CreatorSpec {
    address: Address,
    share: u8,
}

fn fixed_bytes<const N: usize>(s: &[u8]) -> (u8, [u8; N]) {
    assert!(s.len() <= N);
    let mut buf = [0u8; N];
    buf[..s.len()].copy_from_slice(s);
    (s.len() as u8, buf)
}

fn content_args(name: &str, symbol: &str, uri: &str, royalty_bps: u16, creators: &[CreatorSpec]) -> MetadataContentArgs {
    assert!(creators.len() <= MAX_CREATORS);
    let (name_len, name) = fixed_bytes::<MAX_NAME_LEN>(name.as_bytes());
    let (symbol_len, symbol) = fixed_bytes::<MAX_SYMBOL_LEN>(symbol.as_bytes());
    let (uri_len, uri) = fixed_bytes::<MAX_URI_LEN>(uri.as_bytes());
    let mut creator_buf = [CreatorInput { address: Address::default(), share: 0 }; MAX_CREATORS];
    for (i, c) in creators.iter().enumerate() {
        creator_buf[i] = CreatorInput { address: c.address, share: c.share };
    }
    MetadataContentArgs {
        royalty_bps: royalty_bps.to_le_bytes(),
        name_len,
        name,
        symbol_len,
        symbol,
        uri_len,
        uri,
        creator_count: creators.len() as u8,
        creators: creator_buf,
    }
}

/// The 413-byte encoding of a content payload.
fn content_bytes(c: &MetadataContentArgs) -> Vec<u8> {
    let mut out = Vec::new();
    out.extend_from_slice(&c.royalty_bps);
    out.push(c.name_len);
    out.extend_from_slice(&c.name);
    out.push(c.symbol_len);
    out.extend_from_slice(&c.symbol);
    out.push(c.uri_len);
    out.extend_from_slice(&c.uri);
    out.push(c.creator_count);
    for cr in c.creators.iter() {
        out.extend_from_slice(cr.address.as_array());
        out.push(cr.share);
    }
    assert_eq!(out.len(), MetadataContentArgs::LEN);
    out
}

fn build_create_ix(
    metadata: Address,
    mint: Address,
    mint_authority: Address,
    payer: Address,
    bump: u8,
    initial_update_authority: Address,
    content: MetadataContentArgs,
) -> Instruction {
    let mut data = discriminator::CREATE_METADATA.to_vec();
    data.push(bump);
    data.extend_from_slice(initial_update_authority.as_array());
    data.extend_from_slice(&content_bytes(&content));
    Instruction {
        accounts: vec![
            meta(metadata, false, true),
            meta(mint, false, false),
            meta(mint_authority, true, false),
            meta(payer, true, true),
            meta(system_program_id(), false, false),
        ],
        data,
    }
}

fn build_update_ix(metadata: Address, mint: Address, update_authority: Address, content: MetadataContentArgs) -> Instruction {
    let mut data = discriminator::UPDATE_METADATA.to_vec();
    data.extend_from_slice(&content_bytes(&content));
    Instruction {
        accounts: vec![meta(metadata, false, true), meta(mint, false, false), meta(update_authority, true, false)],
        data,
    }
}

fn build_set_update_authority_ix(
    metadata: Address,
    current_authority: Address,
    renounce: bool,
    new_update_authority: Address,
) -> Instruction {
    let mut data = discriminator::SET_UPDATE_AUTHORITY.to_vec();
    data.push(renounce as u8);
    data.extend_from_slice(new_update_authority.as_array());
    Instruction { accounts: vec![meta(metadata, false, true), meta(current_authority, true, false)], data }
}

fn build_set_immutable_ix(metadata: Address, update_authority: Address) -> Instruction {
    Instruction {
        accounts: vec![meta(metadata, false, true), meta(update_authority, true, false)],
        data: discriminator::SET_IMMUTABLE.to_vec(),
    }
}

fn build_verify_creator_ix(metadata: Address, creator: Address) -> Instruction {
    Instruction {
        accounts: vec![meta(metadata, false, true), meta(creator, true, false)],
        data: discriminator::VERIFY_CREATOR.to_vec(),
    }
}

fn build_unverify_creator_ix(metadata: Address, creator: Address) -> Instruction {
    Instruction {
        accounts: vec![meta(metadata, false, true), meta(creator, true, false)],
        data: discriminator::UNVERIFY_CREATOR.to_vec(),
    }
}

fn build_close_ix(metadata: Address, mint: Address, update_authority: Address, destination: Address) -> Instruction {
    Instruction {
        accounts: vec![
            meta(metadata, false, true),
            meta(mint, false, false),
            meta(update_authority, true, false),
            meta(destination, false, true),
        ],
        data: discriminator::CLOSE_METADATA.to_vec(),
    }
}

fn read_metadata(ledger: &Ledger, metadata: &Address) -> TokenMetadata {
    let account = ledger.get(metadata).expect("metadata account should exist");
    assert_eq!(account.data.len(), TokenMetadata::LEN, "unexpected metadata account size");
    TokenMetadata::from_account_view(account, &program_id()).expect("metadata should be initialized")
}

fn funded_keypair(ledger: &mut Ledger, n: u8) -> Address {
    let k = key(n);
    ledger.airdrop(k, 10_000_000_000);
    k
}

fn assert_custom_error(result: Result<(), ProgramError>, expected: u32) {
    match result {
        Err(ProgramError::Custom(code)) => assert_eq!(code, expected, "wrong custom error code"),
        other => panic!("expected Custom({expected}), got {other:?}"),
    }
}

fn setup() -> Ledger {
    Ledger::new()
}

#[test]
fn create_metadata_succeeds_for_classic_spl_mint() {
    let mut ledger = setup();
    let payer = funded_keypair(&mut ledger, 1);
    let mint_authority = funded_keypair(&mut ledger, 2);

    let mint = key(3);
    ledger.set_account(mint, spl_token_program_id(), mint_account_data(Some(mint_authority), 6), 10_000_000);

    let (metadata, bump) = metadata_pda(&mint);
    let update_authority = key(4);

    let creators = [CreatorSpec { address: key(5), share: 100 }];
    let content = content_args("My Token", "MTK", "https://example.com/metadata.json", 250, &creators);

    let ix = build_create_ix(metadata, mint, mint_authority, payer, bump, update_authority, content);

    ledger.send(ix).expect("create_metadata should succeed for a valid classic SPL mint");

    let m = read_metadata(&ledger, &metadata);
    assert_eq!(m.discriminator, token_metadata::state::DISCRIMINATOR_TOKEN_METADATA_V1);
    assert_eq!(m.bump, bump);
    assert!(m.is_mutable());
    assert_eq!(m.token_kind, token_metadata::state::TokenKind::Fungible as u8);
    assert_eq!(m.update_authority, update_authority);
    assert_eq!(m.mint, mint);
    assert_eq!(m.royalty_bps(), 250);
    assert_eq!(m.name(), b"My Token");
    assert_eq!(m.symbol(), b"MTK");
    assert_eq!(m.uri(), b"https://example.com/metadata.json");
    assert_eq!(m.creators().len(), 1);
    assert_eq!(m.creators()[0].address, creators[0].address);
    assert_eq!(m.creators()[0].share, 100);
    assert!(!m.creators()[0].is_verified());
}

#[test]
fn create_metadata_succeeds_for_zero_decimal_mint_as_fungible_asset() {
    let mut ledger = setup();
    let payer = funded_keypair(&mut ledger, 1);
    let mint_authority = funded_keypair(&mut ledger, 2);

    let mint = key(3);
    ledger.set_account(mint, spl_token_program_id(), mint_account_data(Some(mint_authority), 0), 10_000_000);

    let (metadata, bump) = metadata_pda(&mint);
    let content = content_args("Item", "ITM", "https://example.com/item.json", 0, &[]);
    let ix = build_create_ix(metadata, mint, mint_authority, payer, bump, payer, content);

    ledger.send(ix).expect("create_metadata should succeed");

    let m = read_metadata(&ledger, &metadata);
    assert_eq!(m.token_kind, token_metadata::state::TokenKind::FungibleAsset as u8);
    assert_eq!(m.creators().len(), 0);
}

#[test]
fn create_metadata_fails_when_signer_is_not_mint_authority() {
    let mut ledger = setup();
    let payer = funded_keypair(&mut ledger, 1);
    let real_mint_authority = funded_keypair(&mut ledger, 2);
    let impostor = funded_keypair(&mut ledger, 3);

    let mint = key(4);
    ledger.set_account(mint, spl_token_program_id(), mint_account_data(Some(real_mint_authority), 6), 10_000_000);

    let (metadata, bump) = metadata_pda(&mint);
    let content = content_args("Name", "SYM", "https://example.com", 0, &[]);
    let ix = build_create_ix(metadata, mint, impostor, payer, bump, payer, content);

    let result = ledger.send(ix);
    assert_custom_error(result, TokenMetadataError::InvalidMintAuthority as u32);
}

#[test]
fn create_metadata_fails_when_mint_authority_does_not_sign() {
    let mut ledger = setup();
    let payer = funded_keypair(&mut ledger, 1);
    let mint_authority = funded_keypair(&mut ledger, 2);

    let mint = key(3);
    ledger.set_account(mint, spl_token_program_id(), mint_account_data(Some(mint_authority), 6), 10_000_000);

    let (metadata, bump) = metadata_pda(&mint);
    let content = content_args("Name", "SYM", "https://example.com", 0, &[]);
    let mut ix = build_create_ix(metadata, mint, mint_authority, payer, bump, payer, content);
    ix.accounts[2].is_signer = false;

    let result = ledger.send(ix);
    assert_custom_error(result, TokenMetadataError::MintAuthorityNotSigner as u32);
}

#[test]
fn create_metadata_fails_when_mint_has_no_authority() {
    let mut ledger = setup();
    let payer = funded_keypair(&mut ledger, 1);
    let mint_authority = funded_keypair(&mut ledger, 2);

    let mint = key(3);
    ledger.set_account(mint, spl_token_program_id(), mint_account_data(None, 6), 10_000_000);

    let (metadata, bump) = metadata_pda(&mint);
    let content = content_args("Name", "SYM", "https://example.com", 0, &[]);
    let ix = build_create_ix(metadata, mint, mint_authority, payer, bump, payer, content);

    let result = ledger.send(ix);
    assert_custom_error(result, TokenMetadataError::MintHasNoAuthority as u32);
}

#[test]
fn create_metadata_fails_when_mint_is_owned_by_unrelated_program() {
    let mut ledger = setup();
    let payer = funded_keypair(&mut ledger, 1);
    let mint_authority = funded_keypair(&mut ledger, 2);

    let mint = key(3);
    ledger.set_account(mint, program_id(), mint_account_data(Some(mint_authority), 6), 10_000_000);

    let (metadata, bump) = metadata_pda(&mint);
    let content = content_args("Name", "SYM", "https://example.com", 0, &[]);
    let ix = build_create_ix(metadata, mint, mint_authority, payer, bump, payer, content);

    let result = ledger.send(ix);
    assert_custom_error(result, TokenMetadataError::IncorrectMintOwner as u32);
}

#[test]
fn create_metadata_fails_when_creator_shares_do_not_sum_to_100() {
    let mut ledger = setup();
    let payer = funded_keypair(&mut ledger, 1);
    let mint_authority = funded_keypair(&mut ledger, 2);

    let mint = key(3);
    ledger.set_account(mint, spl_token_program_id(), mint_account_data(Some(mint_authority), 6), 10_000_000);

    let (metadata, bump) = metadata_pda(&mint);
    let creators = [CreatorSpec { address: key(4), share: 40 }, CreatorSpec { address: key(5), share: 40 }];
    let content = content_args("Name", "SYM", "https://example.com", 0, &creators);
    let ix = build_create_ix(metadata, mint, mint_authority, payer, bump, payer, content);

    let result = ledger.send(ix);
    assert_custom_error(result, TokenMetadataError::CreatorSharesMustSumTo100 as u32);
}

#[test]
fn create_metadata_fails_on_duplicate_creator_addresses() {
    let mut ledger = setup();
    let payer = funded_keypair(&mut ledger, 1);
    let mint_authority = funded_keypair(&mut ledger, 2);

    let mint = key(3);
    ledger.set_account(mint, spl_token_program_id(), mint_account_data(Some(mint_authority), 6), 10_000_000);

    let (metadata, bump) = metadata_pda(&mint);
    let same = key(4);
    let creators = [CreatorSpec { address: same, share: 50 }, CreatorSpec { address: same, share: 50 }];
    let content = content_args("Name", "SYM", "https://example.com", 0, &creators);
    let ix = build_create_ix(metadata, mint, mint_authority, payer, bump, payer, content);

    let result = ledger.send(ix);
    assert_custom_error(result, TokenMetadataError::DuplicateCreatorAddress as u32);
}

#[test]
fn create_metadata_succeeds_for_token2022_mint_without_metadata_pointer() {
    let mut ledger = setup();
    let payer = funded_keypair(&mut ledger, 1);
    let mint_authority = funded_keypair(&mut ledger, 2);

    let mint = key(3);
    ledger.set_account(
        mint,
        spl_token_2022_program_id(),
        mint2022_account_data(Some(mint_authority), 6, None),
        10_000_000,
    );

    let (metadata, bump) = metadata_pda(&mint);
    let content = content_args("T22", "T22", "https://example.com", 0, &[]);
    let ix = build_create_ix(metadata, mint, mint_authority, payer, bump, payer, content);

    ledger
        .send(ix)
        .expect("create_metadata should succeed for a Token-2022 mint with no MetadataPointer extension");
}

#[test]
fn create_metadata_succeeds_for_token2022_mint_with_matching_metadata_pointer() {
    let mut ledger = setup();
    let payer = funded_keypair(&mut ledger, 1);
    let mint_authority = funded_keypair(&mut ledger, 2);

    let mint = key(3);
    let (metadata, bump) = metadata_pda(&mint);

    ledger.set_account(
        mint,
        spl_token_2022_program_id(),
        mint2022_account_data(Some(mint_authority), 6, Some((None, Some(metadata)))),
        10_000_000,
    );

    let content = content_args("T22", "T22", "https://example.com", 0, &[]);
    let ix = build_create_ix(metadata, mint, mint_authority, payer, bump, payer, content);

    ledger
        .send(ix)
        .expect("create_metadata should succeed when MetadataPointer already points at this PDA");
}

#[test]
fn create_metadata_fails_for_token2022_mint_with_mismatched_metadata_pointer() {
    let mut ledger = setup();
    let payer = funded_keypair(&mut ledger, 1);
    let mint_authority = funded_keypair(&mut ledger, 2);

    let mint = key(3);
    let (metadata, bump) = metadata_pda(&mint);
    let some_other_account = key(4);

    ledger.set_account(
        mint,
        spl_token_2022_program_id(),
        mint2022_account_data(Some(mint_authority), 6, Some((None, Some(some_other_account)))),
        10_000_000,
    );

    let content = content_args("T22", "T22", "https://example.com", 0, &[]);
    let ix = build_create_ix(metadata, mint, mint_authority, payer, bump, payer, content);

    let result = ledger.send(ix);
    assert_custom_error(result, TokenMetadataError::InvalidMetadataPointer as u32);
}

#[test]
fn create_metadata_succeeds_against_a_genuinely_initialized_classic_mint() {
    let mut ledger = setup();
    let payer = funded_keypair(&mut ledger, 1);
    let mint_authority = funded_keypair(&mut ledger, 2);

    let mint = create_real_mint(&mut ledger, &payer, spl_token_program_id(), mint_authority, 6, 3);

    let (metadata, bump) = metadata_pda(&mint);
    let content = content_args("Real Mint", "REAL", "https://example.com/real.json", 0, &[]);
    let ix = build_create_ix(metadata, mint, mint_authority, payer, bump, payer, content);

    ledger
        .send(ix)
        .expect("create_metadata should succeed against a genuinely initialized classic SPL mint");

    let m = read_metadata(&ledger, &metadata);
    assert_eq!(m.mint, mint);
    assert_eq!(m.name(), b"Real Mint");
    assert_eq!(m.token_kind, token_metadata::state::TokenKind::Fungible as u8);
}

#[test]
fn create_metadata_succeeds_against_a_genuinely_initialized_token2022_mint() {
    let mut ledger = setup();
    let payer = funded_keypair(&mut ledger, 1);
    let mint_authority = funded_keypair(&mut ledger, 2);

    let mint = create_real_mint(&mut ledger, &payer, spl_token_2022_program_id(), mint_authority, 9, 3);

    let (metadata, bump) = metadata_pda(&mint);
    let content = content_args("Real T22", "RT22", "https://example.com/real22.json", 0, &[]);
    let ix = build_create_ix(metadata, mint, mint_authority, payer, bump, payer, content);

    ledger
        .send(ix)
        .expect("create_metadata should succeed against a genuinely initialized Token-2022 mint");

    let m = read_metadata(&ledger, &metadata);
    assert_eq!(m.mint, mint);
    assert_eq!(m.name(), b"Real T22");
}
