//! The pinocchio NFT minter: reads a name, a symbol and a URI from the
//! instruction data and mints one token of a fresh Token-2022 mint through six
//! cross-program invocations whose data it lays out by hand.
use vstd::prelude::*;
use vstd::bytes::{
    lemma_auto_spec_u32_to_from_le_bytes, lemma_auto_spec_u64_to_from_le_bytes,
    spec_u32_from_le_bytes, spec_u64_from_le_bytes, spec_u32_to_le_bytes, spec_u64_to_le_bytes,
};
use crate::bytes::{
    field_at, lemma_prefixed_read_back, prefixed, push_slice, push_u32_le, push_u64_le, read_field,
};
use crate::model::{Account, AccountMeta, Address, Cpi, Finish, Invocation, Plan, PlanView, ProgramError, failed};
use crate::rent::{RentSysvar, pinocchio_minimum_balance, rent_exempt_minimum};

verus! {

/// The name, symbol and URI that the instruction data holds: three
/// length-prefixed byte strings, one after the other, from offset 8.
pub open spec fn metadata_fields(data: Seq<u8>) -> Option<(Seq<u8>, Seq<u8>, Seq<u8>)> {
    match field_at(data, 8) {
        None => None,
        Some(name) => match field_at(data, 12 + name.len() as int) {
            None => None,
            Some(symbol) => match field_at(data, 16 + name.len() as int + symbol.len() as int) {
                None => None,
                Some(uri) => Some((name, symbol, uri)),
            },
        },
    }
}

/// The length of the metadata strings once laid out in the mint account.
pub open spec fn metadata_payload_len(name: Seq<u8>, symbol: Seq<u8>, uri: Seq<u8>) -> int {
    12 + name.len() as int + symbol.len() as int + uri.len() as int
}

/// The size of the mint account: 165 bytes of base mint, one byte of account
/// type, 24 + 12 bytes of extension headers, then the metadata strings.
pub open spec fn mint_account_space(name: Seq<u8>, symbol: Seq<u8>, uri: Seq<u8>) -> int {
    165 + 1 + 24 + 12 + metadata_payload_len(name, symbol, uri)
}

/// The discriminator that starts the metadata-initialisation data.
pub open spec fn metadata_discriminator() -> Seq<u8> {
    seq![219u8, 131u8, 102u8, 114u8, 184u8, 196u8, 215u8, 187u8]
}

/// Whether the metadata-initialisation data fits the program's 1024-byte buffer.
pub open spec fn metadata_fits(name: Seq<u8>, symbol: Seq<u8>, uri: Seq<u8>) -> bool {
    104 + metadata_payload_len(name, symbol, uri) <= 1024
}

/// The account meta for `address` with the given access.
pub open spec fn meta(address: Address, is_writable: bool, is_signer: bool) -> AccountMeta {
    AccountMeta { address, is_writable, is_signer }
}

/// Step 1: the system program creates the mint account, funded by the
/// authority, with its final size and owned by the token program.
pub open spec fn create_mint_account_cpi(acc: Seq<Account>, lamports: u64, space: int) -> Cpi {
    Cpi {
        program_id: acc[5].address,
        accounts: seq![meta(acc[0].address, true, true), meta(acc[1].address, true, true)],
        data: spec_u32_to_le_bytes(0) + spec_u64_to_le_bytes(lamports) + spec_u64_to_le_bytes(
            space as u64,
        ) + acc[3].address@,
        account_infos: seq![0usize, 1usize],
        signer_seeds: Seq::empty(),
    }
}

/// Step 2: the token program initialises the metadata-pointer extension,
/// naming the authority and the mint itself.
pub open spec fn metadata_pointer_cpi(acc: Seq<Account>) -> Cpi {
    Cpi {
        program_id: acc[3].address,
        accounts: seq![meta(acc[1].address, true, false)],
        data: seq![39u8, 0u8] + acc[0].address@ + acc[1].address@,
        account_infos: seq![1usize],
        signer_seeds: Seq::empty(),
    }
}

/// Step 3: the token program initialises the mint, with no decimals and the
/// authority as mint authority.
pub open spec fn initialize_mint_cpi(acc: Seq<Account>) -> Cpi {
    Cpi {
        program_id: acc[3].address,
        accounts: seq![meta(acc[1].address, true, false)],
        data: seq![20u8, 0u8] + acc[0].address@ + seq![0u8, 0u8, 0u8, 0u8],
        account_infos: seq![1usize],
        signer_seeds: Seq::empty(),
    }
}

/// Step 4: the associated-token-account program creates the authority's
/// token account.
pub open spec fn create_token_account_cpi(acc: Seq<Account>) -> Cpi {
    Cpi {
        program_id: acc[4].address,
        accounts: seq![
            meta(acc[0].address, true, true),
            meta(acc[2].address, true, false),
            meta(acc[0].address, false, false),
            meta(acc[1].address, false, false),
            meta(acc[5].address, false, false),
            meta(acc[3].address, false, false),
        ],
        data: Seq::empty(),
        account_infos: seq![0usize, 2usize, 0usize, 1usize, 5usize, 3usize],
        signer_seeds: Seq::empty(),
    }
}

/// Step 5: the token program writes the metadata strings.
pub open spec fn initialize_metadata_cpi(acc: Seq<Account>, name: Seq<u8>, symbol: Seq<u8>, uri: Seq<u8>) -> Cpi {
    Cpi {
        program_id: acc[3].address,
        accounts: seq![
            meta(acc[1].address, true, false),
            meta(acc[0].address, false, true),
            meta(acc[1].address, false, false),
            meta(acc[0].address, false, true),
        ],
        data: metadata_discriminator() + acc[0].address@ + acc[1].address@ + acc[0].address@
            + prefixed(name) + prefixed(symbol) + prefixed(uri),
        account_infos: seq![1usize, 0usize],
        signer_seeds: Seq::empty(),
    }
}

/// Step 6: the token program mints one token to the authority's account.
pub open spec fn mint_one_cpi(acc: Seq<Account>) -> Cpi {
    Cpi {
        program_id: acc[3].address,
        accounts: seq![
            meta(acc[1].address, true, false),
            meta(acc[2].address, true, false),
            meta(acc[0].address, false, true),
        ],
        data: seq![7u8] + spec_u64_to_le_bytes(1),
        account_infos: seq![1usize, 2usize, 0usize],
        signer_seeds: Seq::empty(),
    }
}

/// What the program does on `accounts` and `data` when reading the rent
/// sysvar gives `rent`.  The metadata data is laid out in a 1024-byte buffer:
/// where it does not fit, the program panics after the first four
/// invocations.
pub open spec fn mint_nft_plan(acc: Seq<Account>, data: Seq<u8>, rent: Result<RentSysvar, ProgramError>) -> PlanView {
    if acc.len() != 6 {
        failed(ProgramError::NotEnoughAccountKeys)
    } else {
        match metadata_fields(data) {
            None => failed(ProgramError::InvalidInstructionData),
            Some((name, symbol, uri)) => match rent {
                Err(e) => failed(e),
                Ok(rent) => {
                    let space = mint_account_space(name, symbol, uri);
                    match rent_exempt_minimum(rent.lamports_per_byte, space) {
                        Err(e) => failed(e),
                        Ok(lamports) => {
                            let first = seq![
                                create_mint_account_cpi(acc, lamports, space),
                                metadata_pointer_cpi(acc),
                                initialize_mint_cpi(acc),
                                create_token_account_cpi(acc),
                            ];
                            if metadata_fits(name, symbol, uri) {
                                PlanView {
                                    invocations: first + seq![
                                        initialize_metadata_cpi(acc, name, symbol, uri),
                                        mint_one_cpi(acc),
                                    ],
                                    finish: Finish::Success,
                                }
                            } else {
                                PlanView { invocations: first, finish: Finish::Abort }
                            }
                        },
                    }
                },
            },
        }
    }
}

/// Law: what the program writes to the mint's metadata is what its
/// instruction data held.  When a mint succeeds, the data of its fifth
/// invocation holds, from offset 104, the name, the symbol and the URI read
/// from the instruction, as length-prefixed strings.
pub proof fn law_metadata_written_as_read(acc: Seq<Account>, data: Seq<u8>, rent: Result<RentSysvar, ProgramError>)
    requires
        mint_nft_plan(acc, data, rent).finish == Finish::Success,
    ensures
        metadata_fields(data) matches Some((name, symbol, uri)) && {
            let d = mint_nft_plan(acc, data, rent).invocations[4].data;
            &&& field_at(d, 104) == Some(name)
            &&& field_at(d, 108 + name.len() as int) == Some(symbol)
            &&& field_at(d, 112 + name.len() as int + symbol.len() as int) == Some(uri)
        },
{
    lemma_auto_spec_u32_to_from_le_bytes();
    let (name, symbol, uri) = metadata_fields(data)->Some_0;
    let d = mint_nft_plan(acc, data, rent).invocations[4].data;
    assert(d == initialize_metadata_cpi(acc, name, symbol, uri).data);
    let head = metadata_discriminator() + acc[0].address@ + acc[1].address@ + acc[0].address@;
    assert(head.len() == 104);
    assert(d =~= head + prefixed(name) + (prefixed(symbol) + prefixed(uri)));
    lemma_prefixed_read_back(head, name, prefixed(symbol) + prefixed(uri));
    assert(d =~= (head + prefixed(name)) + prefixed(symbol) + prefixed(uri));
    lemma_prefixed_read_back(head + prefixed(name), symbol, prefixed(uri));
    assert(d =~= (head + prefixed(name) + prefixed(symbol)) + prefixed(uri) + Seq::<u8>::empty());
    lemma_prefixed_read_back(head + prefixed(name) + prefixed(symbol), uri, Seq::<u8>::empty());
}

fn no_seeds() -> (s: Vec<Vec<u8>>)
    ensures
        s@.map_values(|v: Vec<u8>| v@) == Seq::<Seq<u8>>::empty(),
{
    let s: Vec<Vec<u8>> = Vec::new();
    assert(s@.map_values(|v: Vec<u8>| v@) =~= Seq::<Seq<u8>>::empty());
    s
}

fn create_mint_account(acc: &[Account], lamports: u64, space: usize) -> (c: Invocation)
    requires
        acc@.len() == 6,
    ensures
        c@ == create_mint_account_cpi(acc@, lamports, space as int),
{
    let mut accounts = Vec::new();
    accounts.push(AccountMeta::writable_signer(acc[0].address));
    accounts.push(AccountMeta::writable_signer(acc[1].address));
    let mut data = Vec::new();
    push_u32_le(&mut data, 0);
    push_u64_le(&mut data, lamports);
    push_u64_le(&mut data, space as u64);
    push_slice(&mut data, acc[3].address.as_slice());
    let mut account_infos = Vec::new();
    account_infos.push(0);
    account_infos.push(1);
    let c = Invocation {
        program_id: acc[5].address,
        accounts,
        data,
        account_infos,
        signer_seeds: no_seeds(),
    };
    assert(c@ =~= create_mint_account_cpi(acc@, lamports, space as int));
    c
}


fn metadata_pointer(acc: &[Account]) -> (c: Invocation)
    requires
        acc@.len() == 6,
    ensures
        c@ == metadata_pointer_cpi(acc@),
{
    let mut accounts = Vec::new();
    accounts.push(AccountMeta::writable(acc[1].address));
    let mut data = Vec::new();
    data.push(39);
    data.push(0);
    push_slice(&mut data, acc[0].address.as_slice());
    push_slice(&mut data, acc[1].address.as_slice());
    let mut account_infos = Vec::new();
    account_infos.push(1);
    let c = Invocation { program_id: acc[3].address, accounts, data, account_infos, signer_seeds: no_seeds() };
    assert(c@ =~= metadata_pointer_cpi(acc@));
    c
}

fn initialize_mint(acc: &[Account]) -> (c: Invocation)
    requires
        acc@.len() == 6,
    ensures
        c@ == initialize_mint_cpi(acc@),
{
    let mut accounts = Vec::new();
    accounts.push(AccountMeta::writable(acc[1].address));
    let mut data = Vec::new();
    data.push(20);
    data.push(0);
    push_slice(&mut data, acc[0].address.as_slice());
    data.push(0);
    data.push(0);
    data.push(0);
    data.push(0);
    let mut account_infos = Vec::new();
    account_infos.push(1);
    let c = Invocation { program_id: acc[3].address, accounts, data, account_infos, signer_seeds: no_seeds() };
    assert(c@ =~= initialize_mint_cpi(acc@));
    c
}

fn create_token_account(acc: &[Account]) -> (c: Invocation)
    requires
        acc@.len() == 6,
    ensures
        c@ == create_token_account_cpi(acc@),
{
    let mut accounts = Vec::new();
    accounts.push(AccountMeta::writable_signer(acc[0].address));
    accounts.push(AccountMeta::writable(acc[2].address));
    accounts.push(AccountMeta::readonly(acc[0].address));
    accounts.push(AccountMeta::readonly(acc[1].address));
    accounts.push(AccountMeta::readonly(acc[5].address));
    accounts.push(AccountMeta::readonly(acc[3].address));
    let data = Vec::new();
    let mut account_infos = Vec::new();
    account_infos.push(0);
    account_infos.push(2);
    account_infos.push(0);
    account_infos.push(1);
    account_infos.push(5);
    account_infos.push(3);
    let c = Invocation { program_id: acc[4].address, accounts, data, account_infos, signer_seeds: no_seeds() };
    assert(c@ =~= create_token_account_cpi(acc@));
    c
}

/// Appends `s` as a length-prefixed byte string.
fn push_prefixed(v: &mut Vec<u8>, s: &[u8])
    requires
        s@.len() <= u32::MAX,
    ensures
        final(v)@ == old(v)@ + prefixed(s@),
{
    push_u32_le(v, s.len() as u32);
    push_slice(v, s);
    assert(final(v)@ =~= old(v)@ + prefixed(s@));
}

fn initialize_metadata(acc: &[Account], name: &[u8], symbol: &[u8], uri: &[u8]) -> (c: Invocation)
    requires
        acc@.len() == 6,
        name@.len() <= u32::MAX,
        symbol@.len() <= u32::MAX,
        uri@.len() <= u32::MAX,
    ensures
        c@ == initialize_metadata_cpi(acc@, name@, symbol@, uri@),
{
    let mut accounts = Vec::new();
    accounts.push(AccountMeta::writable(acc[1].address));
    accounts.push(AccountMeta::readonly_signer(acc[0].address));
    accounts.push(AccountMeta::readonly(acc[1].address));
    accounts.push(AccountMeta::readonly_signer(acc[0].address));
    let mut data = Vec::new();
    data.push(219);
    data.push(131);
    data.push(102);
    data.push(114);
    data.push(184);
    data.push(196);
    data.push(215);
    data.push(187);
    assert(data@ =~= metadata_discriminator());
    push_slice(&mut data, acc[0].address.as_slice());
    push_slice(&mut data, acc[1].address.as_slice());
    push_slice(&mut data, acc[0].address.as_slice());
    push_prefixed(&mut data, name);
    push_prefixed(&mut data, symbol);
    push_prefixed(&mut data, uri);
    let mut account_infos = Vec::new();
    account_infos.push(1);
    account_infos.push(0);
    let c = Invocation { program_id: acc[3].address, accounts, data, account_infos, signer_seeds: no_seeds() };
    assert(c@ =~= initialize_metadata_cpi(acc@, name@, symbol@, uri@));
    c
}

fn mint_one(acc: &[Account]) -> (c: Invocation)
    requires
        acc@.len() == 6,
    ensures
        c@ == mint_one_cpi(acc@),
{
    let mut accounts = Vec::new();
    accounts.push(AccountMeta::writable(acc[1].address));
    accounts.push(AccountMeta::writable(acc[2].address));
    accounts.push(AccountMeta::readonly_signer(acc[0].address));
    let mut data = Vec::new();
    data.push(7);
    push_u64_le(&mut data, 1);
    let mut account_infos = Vec::new();
    account_infos.push(1);
    account_infos.push(2);
    account_infos.push(0);
    let c = Invocation { program_id: acc[3].address, accounts, data, account_infos, signer_seeds: no_seeds() };
    assert(c@ =~= mint_one_cpi(acc@));
    c
}

/// Law: the name, symbol and URI are read, as length-prefixed byte strings,
/// from the bytes right after the 8-byte prefix, and from nothing else.
pub proof fn law_fields_follow_prefix(data: Seq<u8>)
    requires
        metadata_fields(data) is Some,
    ensures
        ({
            let (n, s, u) = metadata_fields(data)->Some_0;
            &&& 20 + n.len() + s.len() + u.len() <= data.len()
            &&& data.subrange(8, 20 + n.len() as int + s.len() as int + u.len() as int) == prefixed(n) + prefixed(s) + prefixed(u)
        }),
{
    lemma_auto_spec_u32_to_from_le_bytes();
    let (n, s, u) = metadata_fields(data)->Some_0;
    let a = 12 + n.len() as int;
    let b = a + 4 + s.len() as int;
    assert(data.subrange(8, 12) == spec_u32_to_le_bytes(n.len() as u32));
    assert(data.subrange(a, a + 4) == spec_u32_to_le_bytes(s.len() as u32));
    assert(data.subrange(b, b + 4) == spec_u32_to_le_bytes(u.len() as u32));
    assert(data.subrange(8, 20 + n.len() as int + s.len() as int + u.len() as int) =~= prefixed(n) + prefixed(s) + prefixed(u));
}

/// Law: a mint succeeds exactly when it has six accounts, its strings read,
/// the rent sysvar reads, the rent-exempt minimum of its space is defined, and
/// its metadata fits the 1024-byte buffer.
pub proof fn law_mint_succeeds_exactly(acc: Seq<Account>, data: Seq<u8>, rent: Result<RentSysvar, ProgramError>)
    ensures
        mint_nft_plan(acc, data, rent).finish == Finish::Success <==> {
            &&& acc.len() == 6
            &&& metadata_fields(data) matches Some((n, s, u))
            &&& rent matches Ok(r)
            &&& r.lamports_per_byte <= 1_759_197_129_867
            &&& 214 + n.len() + s.len() + u.len() <= 10 * 1024 * 1024
            &&& 116 + n.len() + s.len() + u.len() <= 1024
        },
        acc.len() != 6 ==> mint_nft_plan(acc, data, rent).finish == Finish::Failure(ProgramError::NotEnoughAccountKeys),
        acc.len() == 6 && metadata_fields(data) is None ==> mint_nft_plan(acc, data, rent).finish
            == Finish::Failure(ProgramError::InvalidInstructionData),
{
}

/// Law: a successful mint asks, in order, for exactly these six
/// invocations, each stated byte by byte against the accounts (authority,
/// mint, token account, token program, associated-token program, system
/// program) and the instruction's strings:
/// 1. the system program creates the mint, the authority and the mint signing,
///    with `0u32`, the rent-exempt lamports, the space and the token program;
/// 2. the token program initialises the metadata pointer `[39, 0]`, with the
///    authority and the mint;
/// 3. the token program initialises the mint `[20, 0]` with the authority as
///    mint authority;
/// 4. the associated-token program creates the authority's token account;
/// 5. the token program receives the metadata, signed by the authority;
/// 6. the token program mints one token (`[7]` and `1u64`) to the token
///    account, the authority signing.
pub proof fn law_mint_invocations(acc: Seq<Account>, data: Seq<u8>, rent: Result<RentSysvar, ProgramError>)
    requires
        mint_nft_plan(acc, data, rent).finish == Finish::Success,
    ensures
        acc.len() == 6,
        rent is Ok,
        metadata_fields(data) is Some,
        ({
            let p = mint_nft_plan(acc, data, rent).invocations;
            let (name, symbol, uri) = metadata_fields(data)->Some_0;
            let space = 214 + name.len() + symbol.len() + uri.len();
            &&& p.len() == 6
            &&& p[0].program_id == acc[5].address
            &&& p[0].accounts.len() == 2
            &&& p[0].accounts[0].address == acc[0].address && p[0].accounts[0].is_writable && p[0].accounts[0].is_signer
            &&& p[0].accounts[1].address == acc[1].address && p[0].accounts[1].is_writable && p[0].accounts[1].is_signer
            &&& p[0].data.len() == 52
            &&& spec_u32_from_le_bytes(p[0].data.subrange(0, 4)) == 0
            &&& spec_u64_from_le_bytes(p[0].data.subrange(4, 12)) == (128 + space) * rent->Ok_0.lamports_per_byte
            &&& spec_u64_from_le_bytes(p[0].data.subrange(12, 20)) == space
            &&& p[0].data.subrange(20, 52) == acc[3].address@
            &&& p[0].account_infos == seq![0usize, 1usize]
            &&& p[1].program_id == acc[3].address
            &&& p[1].accounts.len() == 1
            &&& p[1].accounts[0].address == acc[1].address && p[1].accounts[0].is_writable && !p[1].accounts[0].is_signer
            &&& p[1].data.len() == 66
            &&& p[1].data[0] == 39 && p[1].data[1] == 0
            &&& p[1].data.subrange(2, 34) == acc[0].address@
            &&& p[1].data.subrange(34, 66) == acc[1].address@
            &&& p[2].program_id == acc[3].address
            &&& p[2].accounts.len() == 1
            &&& p[2].accounts[0].address == acc[1].address && p[2].accounts[0].is_writable && !p[2].accounts[0].is_signer
            &&& p[2].data.len() == 38
            &&& p[2].data[0] == 20 && p[2].data[1] == 0
            &&& p[2].data.subrange(2, 34) == acc[0].address@
            &&& p[2].data.subrange(34, 38) == seq![0u8, 0u8, 0u8, 0u8]
            &&& p[3].program_id == acc[4].address
            &&& p[3].data.len() == 0
            &&& p[3].accounts.len() == 6
            &&& p[3].accounts[0].address == acc[0].address && p[3].accounts[0].is_writable && p[3].accounts[0].is_signer
            &&& p[3].accounts[1].address == acc[2].address && p[3].accounts[1].is_writable && !p[3].accounts[1].is_signer
            &&& p[3].accounts[2].address == acc[0].address && !p[3].accounts[2].is_writable && !p[3].accounts[2].is_signer
            &&& p[3].accounts[3].address == acc[1].address && !p[3].accounts[3].is_writable && !p[3].accounts[3].is_signer
            &&& p[3].accounts[4].address == acc[5].address && !p[3].accounts[4].is_writable && !p[3].accounts[4].is_signer
            &&& p[3].accounts[5].address == acc[3].address && !p[3].accounts[5].is_writable && !p[3].accounts[5].is_signer
            &&& p[4].program_id == acc[3].address
            &&& p[4].accounts.len() == 4
            &&& p[4].accounts[0].address == acc[1].address && p[4].accounts[0].is_writable && !p[4].accounts[0].is_signer
            &&& p[4].accounts[1].address == acc[0].address && !p[4].accounts[1].is_writable && p[4].accounts[1].is_signer
            &&& p[4].accounts[2].address == acc[1].address && !p[4].accounts[2].is_writable && !p[4].accounts[2].is_signer
            &&& p[4].accounts[3].address == acc[0].address && !p[4].accounts[3].is_writable && p[4].accounts[3].is_signer
            &&& p[4].data.len() == 104 + 12 + name.len() + symbol.len() + uri.len()
            &&& p[4].data.len() <= 1024
            &&& p[4].data.subrange(0, 8) == seq![219u8, 131u8, 102u8, 114u8, 184u8, 196u8, 215u8, 187u8]
            &&& p[4].data.subrange(8, 40) == acc[0].address@
            &&& p[4].data.subrange(40, 72) == acc[1].address@
            &&& p[4].data.subrange(72, 104) == acc[0].address@
            &&& p[5].program_id == acc[3].address
            &&& p[5].accounts.len() == 3
            &&& p[5].accounts[0].address == acc[1].address && p[5].accounts[0].is_writable && !p[5].accounts[0].is_signer
            &&& p[5].accounts[1].address == acc[2].address && p[5].accounts[1].is_writable && !p[5].accounts[1].is_signer
            &&& p[5].accounts[2].address == acc[0].address && !p[5].accounts[2].is_writable && p[5].accounts[2].is_signer
            &&& p[5].data.len() == 9
            &&& p[5].data[0] == 7
            &&& spec_u64_from_le_bytes(p[5].data.subrange(1, 9)) == 1
            &&& forall|i: int| 0 <= i < 6 ==> p[i].signer_seeds.len() == 0
        }),
{
    lemma_auto_spec_u32_to_from_le_bytes();
    lemma_auto_spec_u64_to_from_le_bytes();
    let p = mint_nft_plan(acc, data, rent).invocations;
    let (name, symbol, uri) = metadata_fields(data)->Some_0;
    let space = mint_account_space(name, symbol, uri);
    let lamports = rent_exempt_minimum(rent->Ok_0.lamports_per_byte, space)->Ok_0;
    assert(space == 214 + name.len() + symbol.len() + uri.len());
    let lpb = rent->Ok_0.lamports_per_byte;
    assert((128 + space) * lpb <= 18446744073706816896) by (nonlinear_arith)
        requires
            0 <= space <= 10485760,
            0 <= lpb <= 1759197129867,
    ;
    assert(lamports == (128 + space) * lpb);
    assert(p[0] == create_mint_account_cpi(acc, lamports, space));
    let d0 = p[0].data;
    assert(d0.subrange(0, 4) =~= spec_u32_to_le_bytes(0));
    assert(d0.subrange(4, 12) =~= spec_u64_to_le_bytes(lamports));
    assert(d0.subrange(12, 20) =~= spec_u64_to_le_bytes(space as u64));
    assert(d0.subrange(20, 52) =~= acc[3].address@);
    let d1 = p[1].data;
    assert(d1.subrange(2, 34) =~= acc[0].address@);
    assert(d1.subrange(34, 66) =~= acc[1].address@);
    let d2 = p[2].data;
    assert(d2.subrange(2, 34) =~= acc[0].address@);
    assert(d2.subrange(34, 38) =~= seq![0u8, 0u8, 0u8, 0u8]);
    assert(p[4] == initialize_metadata_cpi(acc, name, symbol, uri));
    let d4 = p[4].data;
    assert(d4.subrange(0, 8) =~= metadata_discriminator());
    assert(d4.subrange(8, 40) =~= acc[0].address@);
    assert(d4.subrange(40, 72) =~= acc[1].address@);
    assert(d4.subrange(72, 104) =~= acc[0].address@);
    let d5 = p[5].data;
    assert(d5.subrange(1, 9) =~= spec_u64_to_le_bytes(1));
    assert(p[3].signer_seeds.len() == 0);
}

/// Mints one NFT: the plan that the program carries out on `accounts` and
/// `instruction_data`, where reading the rent sysvar gave `rent`.
pub fn process_instruction(
    _program_id: &Address,
    accounts: &[Account],
    instruction_data: &[u8],
    rent: Result<RentSysvar, ProgramError>,
) -> (plan: Plan)
    requires
        instruction_data@.len() <= isize::MAX,
    ensures
        plan@ == mint_nft_plan(accounts@, instruction_data@, rent),
        plan@.finish == Finish::Success ==> {
            &&& plan@.invocations.len() == 6
            &&& plan@.invocations[2].program_id == accounts@[3].address
            &&& plan@.invocations[2].data.subrange(2, 34) == accounts@[0].address@
            &&& plan@.invocations[5].accounts[1].address == accounts@[2].address
            &&& plan@.invocations[5].accounts[2].address == accounts@[0].address
        },
{
    if accounts.len() != 6 {
        return Plan::fail(ProgramError::NotEnoughAccountKeys);
    }
    let (name, cur) = match read_field(instruction_data, 8) {
        None => return Plan::fail(ProgramError::InvalidInstructionData),
        Some(f) => f,
    };
    let (symbol, cur) = match read_field(instruction_data, cur) {
        None => return Plan::fail(ProgramError::InvalidInstructionData),
        Some(f) => f,
    };
    let (uri, _cur) = match read_field(instruction_data, cur) {
        None => return Plan::fail(ProgramError::InvalidInstructionData),
        Some(f) => f,
    };
    let ghost fields = (name@, symbol@, uri@);
    assert(metadata_fields(instruction_data@) == Some(fields));
    let rent = match rent {
        Err(e) => return Plan::fail(e),
        Ok(r) => r,
    };
    let payload_len = 4 + name.len() + 4 + symbol.len() + 4 + uri.len();
    let space = 165 + 1 + 24 + 12 + payload_len;
    let lamports = match pinocchio_minimum_balance(rent.lamports_per_byte, space) {
        Err(e) => return Plan::fail(e),
        Ok(l) => l,
    };
    let mut invocations = Vec::new();
    invocations.push(create_mint_account(accounts, lamports, space));
    invocations.push(metadata_pointer(accounts));
    invocations.push(initialize_mint(accounts));
    invocations.push(create_token_account(accounts));
    if 104 + payload_len > 1024 {
        let plan = Plan { invocations, finish: Finish::Abort };
        assert(plan@ =~= mint_nft_plan(accounts@, instruction_data@, Ok(rent)));
        return plan;
    }
    invocations.push(initialize_metadata(accounts, name, symbol, uri));
    invocations.push(mint_one(accounts));
    let plan = Plan { invocations, finish: Finish::Success };
    assert(plan@ =~= mint_nft_plan(accounts@, instruction_data@, Ok(rent)));
    proof {
        law_mint_invocations(accounts@, instruction_data@, Ok(rent));
    }
    plan
}

} // verus!
