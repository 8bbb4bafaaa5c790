//! What the two governance programs share: the instruction format, the
//! treasury seed and the withdrawal that a reclaim asks of Token-2022.
use vstd::prelude::*;
use vstd::bytes::{
    lemma_auto_spec_u64_to_from_le_bytes, spec_u64_from_le_bytes, spec_u64_to_le_bytes,
    u64_from_le_bytes,
};
use crate::bytes::push_u64_le;
use crate::model::ProgramError;

verus! {

/// A governance instruction.
#[derive(Clone, Copy, Debug, PartialEq, Eq, Structural)]
pub enum GovernanceInstruction {
    CastVote { proposal_id: u64, weight: u64 },
    ReclaimSurplusSol { bump: u8 },
}

/// The instruction at the start of `data`: a variant byte (0 for a vote,
/// 1 for a reclaim), then the variant's fields, integers in little-endian
/// order.  Bytes after the instruction are ignored.
pub open spec fn decode_instruction(data: Seq<u8>) -> Option<GovernanceInstruction> {
    if data.len() == 0 {
        None
    } else if data[0] == 0 {
        if data.len() < 17 {
            None
        } else {
            Some(
                GovernanceInstruction::CastVote {
                    proposal_id: spec_u64_from_le_bytes(data.subrange(1, 9)),
                    weight: spec_u64_from_le_bytes(data.subrange(9, 17)),
                },
            )
        }
    } else if data[0] == 1 {
        if data.len() < 2 {
            None
        } else {
            Some(GovernanceInstruction::ReclaimSurplusSol { bump: data[1] })
        }
    } else {
        None
    }
}

/// The bytes that encode `ix`.
pub open spec fn encode_instruction(ix: GovernanceInstruction) -> Seq<u8> {
    match ix {
        GovernanceInstruction::CastVote { proposal_id, weight } => seq![0u8] + spec_u64_to_le_bytes(
            proposal_id,
        ) + spec_u64_to_le_bytes(weight),
        GovernanceInstruction::ReclaimSurplusSol { bump } => seq![1u8, bump],
    }
}

/// Law: an encoded instruction reads back as itself.
pub proof fn law_decode_encode(ix: GovernanceInstruction)
    ensures
        decode_instruction(encode_instruction(ix)) == Some(ix),
{
    lemma_auto_spec_u64_to_from_le_bytes();
    let d = encode_instruction(ix);
    match ix {
        GovernanceInstruction::CastVote { proposal_id, weight } => {
            assert(d.subrange(1, 9) =~= spec_u64_to_le_bytes(proposal_id));
            assert(d.subrange(9, 17) =~= spec_u64_to_le_bytes(weight));
        },
        GovernanceInstruction::ReclaimSurplusSol { bump } => {},
    }
}

/// Law: an instruction read from `data` is encoded by the bytes that start
/// `data`.
pub proof fn law_encode_decode(data: Seq<u8>)
    requires
        decode_instruction(data) is Some,
    ensures
        data.subrange(0, encode_instruction(decode_instruction(data)->Some_0).len() as int)
            == encode_instruction(decode_instruction(data)->Some_0),
{
    lemma_auto_spec_u64_to_from_le_bytes();
    let ix = decode_instruction(data)->Some_0;
    match ix {
        GovernanceInstruction::CastVote { proposal_id, weight } => {
            assert(spec_u64_to_le_bytes(spec_u64_from_le_bytes(data.subrange(1, 9))) == data.subrange(1, 9));
            assert(spec_u64_to_le_bytes(spec_u64_from_le_bytes(data.subrange(9, 17))) == data.subrange(9, 17));
            assert(data.subrange(0, 17) =~= encode_instruction(ix));
        },
        GovernanceInstruction::ReclaimSurplusSol { bump } => {
            assert(data.subrange(0, 2) =~= encode_instruction(ix));
        },
    }
}

impl GovernanceInstruction {
    /// Reads the instruction at the start of `data`.
    pub fn unpack(data: &[u8]) -> (r: Result<GovernanceInstruction, ProgramError>)
        ensures
            match decode_instruction(data@) {
                Some(ix) => r == Ok::<GovernanceInstruction, ProgramError>(ix),
                None => r == Err::<GovernanceInstruction, ProgramError>(ProgramError::InvalidInstructionData),
            },
            r is Ok <==> (data@.len() > 0 && ((data@[0] == 0 && data@.len() >= 17) || (data@[0] == 1
                && data@.len() >= 2))),
            r matches Ok(GovernanceInstruction::CastVote { proposal_id, weight }) ==> {
                &&& data@[0] == 0
                &&& proposal_id == spec_u64_from_le_bytes(data@.subrange(1, 9))
                &&& weight == spec_u64_from_le_bytes(data@.subrange(9, 17))
            },
            r matches Ok(GovernanceInstruction::ReclaimSurplusSol { bump }) ==> data@[0] == 1 && bump
                == data@[1],
    {
        if data.len() == 0 {
            return Err(ProgramError::InvalidInstructionData);
        }
        if data[0] == 0 {
            if data.len() < 17 {
                return Err(ProgramError::InvalidInstructionData);
            }
            let proposal_id = u64_from_le_bytes(&data[1..9]);
            let weight = u64_from_le_bytes(&data[9..17]);
            Ok(GovernanceInstruction::CastVote { proposal_id, weight })
        } else if data[0] == 1 {
            if data.len() < 2 {
                return Err(ProgramError::InvalidInstructionData);
            }
            Ok(GovernanceInstruction::ReclaimSurplusSol { bump: data[1] })
        } else {
            Err(ProgramError::InvalidInstructionData)
        }
    }

    /// The bytes that encode this instruction.
    pub fn pack(&self) -> (v: Vec<u8>)
        ensures
            v@ == encode_instruction(*self),
    {
        let mut v = Vec::new();
        match *self {
            GovernanceInstruction::CastVote { proposal_id, weight } => {
                v.push(0);
                push_u64_le(&mut v, proposal_id);
                push_u64_le(&mut v, weight);
            },
            GovernanceInstruction::ReclaimSurplusSol { bump } => {
                v.push(1);
                v.push(bump);
            },
        }
        assert(v@ =~= encode_instruction(*self));
        v
    }
}

/// The seed of the treasury's program-derived address.
pub open spec fn treasury_seed() -> Seq<u8> {
    seq![116u8, 114u8, 101u8, 97u8, 115u8, 117u8, 114u8, 121u8, 95u8, 118u8, 97u8, 117u8, 108u8, 116u8]
}

/// The bytes of `treasury_vault`.
pub fn treasury_seed_bytes() -> (v: Vec<u8>)
    ensures
        v@ == treasury_seed(),
{
    let mut v = Vec::new();
    v.push(116);
    v.push(114);
    v.push(101);
    v.push(97);
    v.push(115);
    v.push(117);
    v.push(114);
    v.push(121);
    v.push(95);
    v.push(118);
    v.push(97);
    v.push(117);
    v.push(108);
    v.push(116);
    assert(v@ =~= treasury_seed());
    v
}

/// The seeds with which the treasury signs: the treasury seed and the bump.
pub open spec fn treasury_signer_seeds(bump: u8) -> Seq<Seq<u8>> {
    seq![treasury_seed(), seq![bump]]
}

/// The treasury's signer seeds, as owned vectors.
pub fn treasury_signer(bump: u8) -> (s: Vec<Vec<u8>>)
    ensures
        s@.map_values(|v: Vec<u8>| v@) == treasury_signer_seeds(bump),
{
    let mut s = Vec::new();
    s.push(treasury_seed_bytes());
    let mut b = Vec::new();
    b.push(bump);
    s.push(b);
    assert(s@.map_values(|v: Vec<u8>| v@) =~= treasury_signer_seeds(bump));
    s
}

/// The data of Token-2022's `WithdrawExcessLamports`: its discriminator, 38.
pub open spec fn withdraw_excess_lamports_data() -> Seq<u8> {
    seq![38u8]
}

} // verus!
