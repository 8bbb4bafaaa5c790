use solana_programs::model::{Account, Finish, Plan, ProgramError};
use solana_programs::nft_anchor::rent_top_up;
use solana_programs::nft_native::{prepare_mint, MintNftArgs};
use solana_programs::nft_pinocchio::process_instruction;
use solana_programs::rent::RentSysvar;

fn accounts() -> Vec<Account> {
    (0u8..6)
        .map(|i| Account {
            address: [i + 1; 32],
            owner: [0u8; 32],
            lamports: 0,
            is_signer: i < 2,
            is_writable: true,
            data: Vec::new(),
        })
        .collect()
}

fn field(s: &[u8]) -> Vec<u8> {
    let mut v = (s.len() as u32).to_le_bytes().to_vec();
    v.extend_from_slice(s);
    v
}

fn mint_data(name: &[u8], symbol: &[u8], uri: &[u8]) -> Vec<u8> {
    let mut d = vec![0xAAu8; 8];
    d.extend(field(name));
    d.extend(field(symbol));
    d.extend(field(uri));
    d
}

const RENT: RentSysvar = RentSysvar { lamports_per_byte: 6960 };

fn failure(plan: &Plan) -> Option<ProgramError> {
    assert!(plan.invocations.is_empty());
    match plan.finish {
        Finish::Failure(e) => Some(e),
        _ => None,
    }
}

#[test]
fn pinocchio_mint_lays_out_six_invocations() {
    let acc = accounts();
    let data = mint_data(b"Cat", b"CAT", b"https://x/cat.json");
    let plan = process_instruction(&[9u8; 32], &acc, &data, Ok(RENT));
    assert_eq!(plan.finish, Finish::Success);
    assert_eq!(plan.invocations.len(), 6);
    let space: u64 = 202 + 12 + 3 + 3 + 18;
    let lamports = (128 + space) * 6960;

    let create = &plan.invocations[0];
    assert_eq!(create.program_id, [6u8; 32]);
    let mut expected = 0u32.to_le_bytes().to_vec();
    expected.extend_from_slice(&lamports.to_le_bytes());
    expected.extend_from_slice(&space.to_le_bytes());
    expected.extend_from_slice(&[4u8; 32]);
    assert_eq!(create.data, expected);
    assert_eq!(create.account_infos, vec![0, 1]);
    assert!(create.accounts[0].is_signer && create.accounts[1].is_signer);

    let pointer = &plan.invocations[1];
    assert_eq!(pointer.program_id, [4u8; 32]);
    assert_eq!(pointer.data.len(), 66);
    assert_eq!(&pointer.data[0..2], &[39, 0]);
    assert_eq!(&pointer.data[2..34], &[1u8; 32]);
    assert_eq!(&pointer.data[34..66], &[2u8; 32]);

    let init = &plan.invocations[2];
    assert_eq!(init.data.len(), 38);
    assert_eq!(&init.data[0..2], &[20, 0]);
    assert_eq!(&init.data[34..], &[0, 0, 0, 0]);

    let ata = &plan.invocations[3];
    assert_eq!(ata.program_id, [5u8; 32]);
    assert!(ata.data.is_empty());
    assert_eq!(ata.account_infos, vec![0, 2, 0, 1, 5, 3]);

    let meta = &plan.invocations[4];
    assert_eq!(&meta.data[0..8], &[219, 131, 102, 114, 184, 196, 215, 187]);
    assert_eq!(&meta.data[8..40], &[1u8; 32]);
    assert_eq!(&meta.data[40..72], &[2u8; 32]);
    assert_eq!(&meta.data[72..104], &[1u8; 32]);
    let mut strings = field(b"Cat");
    strings.extend(field(b"CAT"));
    strings.extend(field(b"https://x/cat.json"));
    assert_eq!(&meta.data[104..], &strings[..]);

    let mint = &plan.invocations[5];
    let mut one = vec![7u8];
    one.extend_from_slice(&1u64.to_le_bytes());
    assert_eq!(mint.data, one);
    assert_eq!(mint.account_infos, vec![1, 2, 0]);
}

#[test]
fn pinocchio_mint_aborts_when_metadata_overflows_buffer() {
    let long = vec![b'a'; 1024 - 116 + 1];
    let plan = process_instruction(&[9u8; 32], &accounts(), &mint_data(&long, b"", b""), Ok(RENT));
    assert_eq!(plan.finish, Finish::Abort);
    assert_eq!(plan.invocations.len(), 4);
    let fits = vec![b'a'; 1024 - 116];
    let plan = process_instruction(&[9u8; 32], &accounts(), &mint_data(&fits, b"", b""), Ok(RENT));
    assert_eq!(plan.finish, Finish::Success);
    assert_eq!(plan.invocations[4].data.len(), 1024);
}

#[test]
fn pinocchio_mint_refusals() {
    let data = mint_data(b"a", b"b", b"c");
    assert_eq!(
        failure(&process_instruction(&[9u8; 32], &accounts()[..5], &data, Ok(RENT))),
        Some(ProgramError::NotEnoughAccountKeys)
    );
    assert_eq!(
        failure(&process_instruction(&[9u8; 32], &accounts(), &data[..data.len() - 1], Ok(RENT))),
        Some(ProgramError::InvalidInstructionData)
    );
    assert_eq!(
        failure(&process_instruction(&[9u8; 32], &accounts(), &data[..11], Ok(RENT))),
        Some(ProgramError::InvalidInstructionData)
    );
    assert_eq!(
        failure(&process_instruction(&[9u8; 32], &accounts(), &data, Err(ProgramError::UnsupportedSysvar))),
        Some(ProgramError::UnsupportedSysvar)
    );
    assert_eq!(
        failure(&process_instruction(
            &[9u8; 32],
            &accounts(),
            &data,
            Ok(RentSysvar { lamports_per_byte: 1_759_197_129_868 })
        )),
        Some(ProgramError::InvalidArgument)
    );
}

#[test]
fn pinocchio_mint_ignores_trailing_data() {
    let mut data = mint_data(b"a", b"b", b"c");
    data.extend_from_slice(&[1, 2, 3]);
    let plan = process_instruction(&[9u8; 32], &accounts(), &data, Ok(RENT));
    assert_eq!(plan.finish, Finish::Success);
}

#[test]
fn native_args_read_borsh_strings() {
    let bytes = borsh::to_vec(&("Cat".to_string(), "CAT".to_string(), "uri".to_string())).unwrap();
    let args = MintNftArgs::try_from_slice(&bytes).unwrap();
    assert_eq!(args.name, "Cat");
    assert_eq!(args.symbol, "CAT");
    assert_eq!(args.uri, "uri");
    let unicode = borsh::to_vec(&("Çat".to_string(), "€".to_string(), String::new())).unwrap();
    let args = MintNftArgs::try_from_slice(&unicode).unwrap();
    assert_eq!(args.name, "Çat");
    assert_eq!(args.symbol, "€");
    assert_eq!(args.uri, "");
}

#[test]
fn native_args_refusals() {
    let bytes = borsh::to_vec(&("a".to_string(), "b".to_string(), "c".to_string())).unwrap();
    let mut longer = bytes.clone();
    longer.push(0);
    assert!(matches!(MintNftArgs::try_from_slice(&longer), Err(ProgramError::BorshIoError)));
    assert!(matches!(MintNftArgs::try_from_slice(&bytes[..bytes.len() - 1]), Err(ProgramError::BorshIoError)));
    let mut invalid = field(&[0xff]);
    invalid.extend(field(b"b"));
    invalid.extend(field(b"c"));
    assert!(matches!(MintNftArgs::try_from_slice(&invalid), Err(ProgramError::BorshIoError)));
}

#[test]
fn native_mint_stops_at_mint_length() {
    let mut data = vec![0u8; 8];
    data.extend(borsh::to_vec(&("a".to_string(), "b".to_string(), "c".to_string())).unwrap());
    assert!(matches!(prepare_mint(&[9u8; 32], &accounts(), &data), Err(ProgramError::InvalidArgument)));
    let mut extra = accounts();
    extra.push(accounts().remove(0));
    assert!(matches!(prepare_mint(&[9u8; 32], &extra, &data), Err(ProgramError::InvalidArgument)));
    assert!(matches!(prepare_mint(&[9u8; 32], &accounts()[..5], &data), Err(ProgramError::NotEnoughAccountKeys)));
    assert!(matches!(prepare_mint(&[9u8; 32], &accounts(), &data[..7]), Err(ProgramError::InvalidInstructionData)));
    assert!(matches!(prepare_mint(&[9u8; 32], &accounts(), &data[..10]), Err(ProgramError::BorshIoError)));
}

#[test]
fn native_and_pinocchio_read_same_strings() {
    let mut data = vec![0u8; 8];
    data.extend(borsh::to_vec(&("Ñame".to_string(), "S".to_string(), "u".to_string())).unwrap());
    let args = MintNftArgs::try_from_slice(&data[8..]).unwrap();
    let plan = process_instruction(&[9u8; 32], &accounts(), &data, Ok(RENT));
    let meta = &plan.invocations[4].data;
    let mut strings = field(args.name.as_bytes());
    strings.extend(field(args.symbol.as_bytes()));
    strings.extend(field(args.uri.as_bytes()));
    assert_eq!(&meta[104..], &strings[..]);
}

#[test]
fn anchor_top_up_is_shortfall() {
    assert_eq!(rent_top_up(1_000, 400), Some(600));
    assert_eq!(rent_top_up(1_000, 1_000), None);
    assert_eq!(rent_top_up(10, 400), None);
}
