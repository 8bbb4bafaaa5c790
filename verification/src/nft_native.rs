//! The solana-program NFT minter: its instruction arguments and the steps it
//! takes before it reads the rent sysvar.
use vstd::prelude::*;
use vstd::utf8::{
    decode_utf8, decode_utf8_encode_utf8, encode_utf8, encode_utf8_decode_utf8, encode_utf8_valid_utf8,
    valid_utf8,
};
use vstd::bytes::{lemma_auto_spec_u32_to_from_le_bytes, spec_u32_to_le_bytes};
use vstd::slice::slice_to_vec;
use spl_token_2022::extension::ExtensionType;
use spl_token_2022::state::Mint;
use crate::bytes::{field_at, lemma_field_at_shift, lemma_prefixed_read_back, prefixed, read_field};
use crate::nft_pinocchio::metadata_fields;
use crate::model::{Account, Address, ProgramError};

verus! {

/// The arguments of a mint: the token's name, symbol and metadata URI.
pub struct MintNftArgs {
    pub name: String,
    pub symbol: String,
    pub uri: String,
}

/// The three length-prefixed byte strings that make up all of `bytes`.
pub open spec fn args_fields(bytes: Seq<u8>) -> Option<(Seq<u8>, Seq<u8>, Seq<u8>)> {
    match field_at(bytes, 0) {
        None => None,
        Some(name) => match field_at(bytes, 4 + name.len() as int) {
            None => None,
            Some(symbol) => match field_at(bytes, 8 + name.len() as int + symbol.len() as int) {
                None => None,
                Some(uri) => if 12 + name.len() + symbol.len() + uri.len() == bytes.len() {
                    Some((name, symbol, uri))
                } else {
                    None
                },
            },
        },
    }
}

/// The arguments that `bytes` encode, as text: each field a length-prefixed
/// UTF-8 string, nothing after the last.
pub open spec fn decode_args(bytes: Seq<u8>) -> Option<(Seq<char>, Seq<char>, Seq<char>)> {
    match args_fields(bytes) {
        None => None,
        Some((name, symbol, uri)) => if valid_utf8(name) && valid_utf8(symbol) && valid_utf8(uri) {
            Some((decode_utf8(name), decode_utf8(symbol), decode_utf8(uri)))
        } else {
            None
        },
    }
}

/// `String::from_utf8`: std documents that it gives back the string whose
/// UTF-8 encoding is `bytes` when they are valid UTF-8, and an error
/// otherwise.  The contract claims that, with vstd's definitions of valid
/// UTF-8 and of its decoding.
#[verifier::external_body]
fn string_from_utf8(bytes: Vec<u8>) -> (r: Option<String>)
    ensures
        r is Some <==> valid_utf8(bytes@),
        r matches Some(s) ==> s@ == decode_utf8(bytes@),
{
    String::from_utf8(bytes).ok()
}

fn read_string(bytes: &[u8]) -> (r: Option<String>)
    ensures
        r is Some <==> valid_utf8(bytes@),
        r matches Some(s) ==> s@ == decode_utf8(bytes@),
{
    string_from_utf8(slice_to_vec(bytes))
}

impl MintNftArgs {
    /// Reads the arguments from all of `bytes`; a malformed or unfinished
    /// field, bytes that are not UTF-8, or bytes left over give
    /// `BorshIoError`.
    pub fn try_from_slice(bytes: &[u8]) -> (r: Result<MintNftArgs, ProgramError>)
        ensures
            match decode_args(bytes@) {
                None => r == Err::<MintNftArgs, ProgramError>(ProgramError::BorshIoError),
                Some((name, symbol, uri)) => r matches Ok(args) && args.name@ == name && args.symbol@
                    == symbol && args.uri@ == uri,
            },
            r matches Ok(args) ==> bytes@ == prefixed(encode_utf8(args.name@)) + prefixed(
                encode_utf8(args.symbol@),
            ) + prefixed(encode_utf8(args.uri@)),
    {
        let (name, at) = match read_field(bytes, 0) {
            None => return Err(ProgramError::BorshIoError),
            Some(f) => f,
        };
        let name = match read_string(name) {
            None => return Err(ProgramError::BorshIoError),
            Some(s) => s,
        };
        let (symbol, at) = match read_field(bytes, at) {
            None => return Err(ProgramError::BorshIoError),
            Some(f) => f,
        };
        let symbol = match read_string(symbol) {
            None => return Err(ProgramError::BorshIoError),
            Some(s) => s,
        };
        let (uri, at) = match read_field(bytes, at) {
            None => return Err(ProgramError::BorshIoError),
            Some(f) => f,
        };
        let uri = match read_string(uri) {
            None => return Err(ProgramError::BorshIoError),
            Some(s) => s,
        };
        if at != bytes.len() {
            return Err(ProgramError::BorshIoError);
        }
        proof {
            lemma_args_fields_encoding(bytes@);
            decode_utf8_encode_utf8(args_fields(bytes@)->Some_0.0);
            decode_utf8_encode_utf8(args_fields(bytes@)->Some_0.1);
            decode_utf8_encode_utf8(args_fields(bytes@)->Some_0.2);
        }
        Ok(MintNftArgs { name, symbol, uri })
    }
}

/// The bytes that hold three length-prefixed fields and nothing else are
/// those fields' encodings, one after the other.
proof fn lemma_args_fields_encoding(bytes: Seq<u8>)
    requires
        args_fields(bytes) is Some,
    ensures
        ({
            let (n, s, u) = args_fields(bytes)->Some_0;
            bytes == prefixed(n) + prefixed(s) + prefixed(u)
        }),
{
    lemma_auto_spec_u32_to_from_le_bytes();
    let (n, s, u) = args_fields(bytes)->Some_0;
    let a = 4 + n.len() as int;
    let b = a + 4 + s.len() as int;
    assert(bytes.subrange(0, 4) == spec_u32_to_le_bytes(n.len() as u32));
    assert(bytes.subrange(a, a + 4) == spec_u32_to_le_bytes(s.len() as u32));
    assert(bytes.subrange(b, b + 4) == spec_u32_to_le_bytes(u.len() as u32));
    assert(bytes =~= prefixed(n) + prefixed(s) + prefixed(u));
}

/// Law: the arguments read back from their encoding, whatever their
/// lengths: three valid UTF-8 byte strings, each length-prefixed, one after
/// the other and nothing after, decode to the three strings they encode.
pub proof fn law_args_decode_encoding(name: Seq<u8>, symbol: Seq<u8>, uri: Seq<u8>)
    requires
        valid_utf8(name),
        valid_utf8(symbol),
        valid_utf8(uri),
        name.len() <= u32::MAX,
        symbol.len() <= u32::MAX,
        uri.len() <= u32::MAX,
    ensures
        decode_args(prefixed(name) + prefixed(symbol) + prefixed(uri)) == Some(
            (decode_utf8(name), decode_utf8(symbol), decode_utf8(uri)),
        ),
{
    lemma_auto_spec_u32_to_from_le_bytes();
    let e = prefixed(name) + prefixed(symbol) + prefixed(uri);
    let empty = Seq::<u8>::empty();
    assert(e =~= empty + prefixed(name) + (prefixed(symbol) + prefixed(uri)));
    lemma_prefixed_read_back(empty, name, prefixed(symbol) + prefixed(uri));
    assert(e =~= prefixed(name) + prefixed(symbol) + prefixed(uri));
    lemma_prefixed_read_back(prefixed(name), symbol, prefixed(uri));
    assert(e =~= (prefixed(name) + prefixed(symbol)) + prefixed(uri) + empty);
    lemma_prefixed_read_back(prefixed(name) + prefixed(symbol), uri, empty);
    assert(args_fields(e) == Some((name, symbol, uri)));
}

/// Law: any three strings whose UTF-8 encodings fit a `u32` length read back
/// as themselves from their encoding.
pub proof fn law_args_round_trip(name: Seq<char>, symbol: Seq<char>, uri: Seq<char>)
    requires
        encode_utf8(name).len() <= u32::MAX,
        encode_utf8(symbol).len() <= u32::MAX,
        encode_utf8(uri).len() <= u32::MAX,
    ensures
        decode_args(prefixed(encode_utf8(name)) + prefixed(encode_utf8(symbol)) + prefixed(encode_utf8(uri)))
            == Some((name, symbol, uri)),
{
    encode_utf8_valid_utf8(name);
    encode_utf8_valid_utf8(symbol);
    encode_utf8_valid_utf8(uri);
    encode_utf8_decode_utf8(name);
    encode_utf8_decode_utf8(symbol);
    encode_utf8_decode_utf8(uri);
    law_args_decode_encoding(encode_utf8(name), encode_utf8(symbol), encode_utf8(uri));
}

/// Law: where the solana-program minter reads its arguments from the data
/// after the 8-byte prefix, the pinocchio minter reads the same strings from
/// the same data, as their UTF-8 bytes.
pub proof fn law_minters_read_same_strings(data: Seq<u8>)
    requires
        data.len() >= 8,
        decode_args(data.subrange(8, data.len() as int)) is Some,
    ensures
        ({
            let (name, symbol, uri) = decode_args(data.subrange(8, data.len() as int))->Some_0;
            metadata_fields(data) == Some((encode_utf8(name), encode_utf8(symbol), encode_utf8(uri)))
        }),
{
    let t = data.subrange(8, data.len() as int);
    let (n, s, u) = args_fields(t)->Some_0;
    lemma_field_at_shift(data, 8, 0);
    lemma_field_at_shift(data, 8, 4 + n.len() as int);
    lemma_field_at_shift(data, 8, 8 + n.len() as int + s.len() as int);
    decode_utf8_encode_utf8(n);
    decode_utf8_encode_utf8(s);
    decode_utf8_encode_utf8(u);
}

/// The Token-2022 mint extensions that the program sizes the mint for.
#[derive(Clone, Copy, Debug, PartialEq, Eq, Structural)]
pub enum MintExtension {
    MetadataPointer,
    TokenMetadata,
}

/// The length of a Token-2022 mint account with `extensions`, as Token-2022
/// computes it.
pub uninterp spec fn mint_account_len(extensions: Seq<MintExtension>) -> Result<usize, ProgramError>;

/// The error `InvalidArgument`, as a length result.
pub open spec fn invalid_argument() -> Result<usize, ProgramError> {
    Err(ProgramError::InvalidArgument)
}

/// `ExtensionType::try_calculate_account_len` for a mint, on `extensions`.  The
/// contract names its result `mint_account_len`.  In the crate's source the
/// only error is `InvalidArgument`, and the length of a variable-length
/// extension cannot be computed in advance: for `TokenMetadata` it returns
/// that error, and so does the whole sum; the contract claims that too.
#[verifier::external_body]
fn try_calculate_mint_len(extensions: &[MintExtension]) -> (r: Result<usize, ProgramError>)
    ensures
        r == mint_account_len(extensions@),
        extensions@.contains(MintExtension::TokenMetadata) ==> r == invalid_argument(),
{
    let kinds: Vec<ExtensionType> = extensions.iter().map(|e| match e {
        MintExtension::MetadataPointer => ExtensionType::MetadataPointer,
        MintExtension::TokenMetadata => ExtensionType::TokenMetadata,
    }).collect();
    match ExtensionType::try_calculate_account_len::<Mint>(&kinds) {
        Ok(len) => Ok(len),
        Err(_) => Err(ProgramError::InvalidArgument),
    }
}

/// What a mint has settled before it reads the rent sysvar.
pub struct MintPreparation {
    pub args: MintNftArgs,
    pub total_account_space: usize,
}

/// Why the program stops before reading the rent sysvar: too few accounts, data
/// shorter than its 8-byte prefix, arguments that do not decode, and else the
/// mint length that Token-2022 cannot give for a metadata extension.
pub open spec fn preparation_failure(acc: Seq<Account>, data: Seq<u8>) -> ProgramError {
    if acc.len() < 6 {
        ProgramError::NotEnoughAccountKeys
    } else if data.len() < 8 {
        ProgramError::InvalidInstructionData
    } else if decode_args(data.subrange(8, data.len() as int)) is None {
        ProgramError::BorshIoError
    } else {
        ProgramError::InvalidArgument
    }
}

/// Reads the six accounts and the arguments and sizes the mint account: the
/// mint's length with its extensions, plus the three length-prefixed strings.
/// Token-2022 gives no such length for the metadata extension, so every
/// instruction ends here with an error.
pub fn prepare_mint(_program_id: &Address, accounts: &[Account], instruction_data: &[u8]) -> (r: Result<MintPreparation, ProgramError>)
    ensures
        r matches Err(e) && e == preparation_failure(accounts@, instruction_data@),
{
    if accounts.len() < 6 {
        return Err(ProgramError::NotEnoughAccountKeys);
    }
    if instruction_data.len() < 8 {
        return Err(ProgramError::InvalidInstructionData);
    }
    let args = MintNftArgs::try_from_slice(&instruction_data[8..instruction_data.len()])?;
    let mut extensions = Vec::new();
    extensions.push(MintExtension::MetadataPointer);
    extensions.push(MintExtension::TokenMetadata);
    assert(extensions@[1] == MintExtension::TokenMetadata);
    let base_extension_len = try_calculate_mint_len(extensions.as_slice())?;
    let name_len = args.name.as_str().len();
    let symbol_len = args.symbol.as_str().len();
    let uri_len = args.uri.as_str().len();
    let string_payload_len = 4 + name_len + 4 + symbol_len + 4 + uri_len;
    let total_account_space = base_extension_len + string_payload_len;
    Ok(MintPreparation { args, total_account_space })
}

} // verus!
