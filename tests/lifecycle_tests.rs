use darklake_sdk::commitment::commit;
use darklake_sdk::error::AmmError;
use darklake_sdk::instruction::{
    get_swap_instruction, DarklakeAmmAddLiquidityParams, DarklakeAmmInitializePoolParams,
    DarklakeAmmRemoveLiquidityParams, DarklakeAmmSlashParams, SWAP_DISCRIMINATOR,
};
use darklake_sdk::lifecycle::{
    get_cancel_instruction, get_finalize_instruction, get_settle_instruction,
    get_slash_instruction, proof_inputs, public_signals_pair, select_finalize_path,
    CancelParams, FinalizeInstruction, FinalizeParams, FinalizePath, ProofParams, SettleParams,
    SlashParams,
};
use darklake_sdk::proof_format::{GeneratedProof, PrivateProofInputs};
use darklake_sdk::text::{convert_string_to_bytes_array, find_circuit_path};

fn finalize(min_out: u64, output: u64, deadline: u64, current_slot: u64) -> FinalizeParams {
    FinalizeParams {
        unwrap_wsol: true,
        min_out,
        salt: [3, 0, 0, 0, 0, 0, 0, 1],
        output,
        commitment: [5; 32],
        deadline,
        current_slot,
    }
}

fn output_signal(output: u64) -> [u8; 32] {
    let mut signal = [0u8; 32];
    signal[24..].copy_from_slice(&output.to_be_bytes());
    signal
}

fn sample_proof(output: u64, commitment: [u8; 32]) -> ProofParams {
    ProofParams {
        generated_proof: GeneratedProof {
            proof_a: [1; 64],
            proof_b: [2; 128],
            proof_c: [3; 64],
            public_signals: vec![[4; 32], [5; 32]],
        },
        public_inputs: [output_signal(output), commitment],
    }
}

#[test]
fn finalize_path_precedence() {
    assert_eq!(select_finalize_path(&finalize(1, 10, 100, 101)), FinalizePath::Slash);
    assert_eq!(select_finalize_path(&finalize(50, 10, 100, 101)), FinalizePath::Slash);
    assert_eq!(select_finalize_path(&finalize(10, 10, 100, 100)), FinalizePath::Settle);
    assert_eq!(select_finalize_path(&finalize(11, 10, 100, 50)), FinalizePath::Cancel);
}

#[test]
fn settle_and_cancel_checks() {
    let settle = |min_out, output, deadline, current_slot| SettleParams {
        unwrap_wsol: false,
        min_out,
        salt: [0; 8],
        output,
        commitment: [5; 32],
        deadline,
        current_slot,
    };
    assert_eq!(get_settle_instruction(&settle(1, 10, 5, 6), &sample_proof(10, [5; 32])), Err(AmmError::OrderExpired));
    assert_eq!(get_settle_instruction(&settle(11, 10, 5, 5), &sample_proof(10, [5; 32])), Err(AmmError::WrongFinalizePath));
    let ok = get_settle_instruction(&settle(10, 10, 5, 5), &sample_proof(10, [5; 32])).unwrap();
    assert_eq!(ok.data.len(), 8 + 64 + 128 + 64 + 32 + 32 + 1);
    assert_eq!(ok.data[..8], [175, 42, 185, 87, 144, 131, 102, 212]);
    assert_eq!(ok.data[8..72], [1; 64]);
    assert_eq!(ok.data[264..296], output_signal(10));
    assert_eq!(ok.data[296..328], [5; 32]);
    assert_eq!(
        get_settle_instruction(&settle(10, 10, 5, 5), &sample_proof(11, [5; 32])),
        Err(AmmError::SerializationFailure)
    );
    assert_eq!(
        get_settle_instruction(&settle(10, 10, 5, 5), &sample_proof(10, [6; 32])),
        Err(AmmError::SerializationFailure)
    );
    assert_eq!(*ok.data.last().unwrap(), 0);

    let cancel = |min_out, output, deadline, current_slot| CancelParams {
        min_out,
        salt: [0; 8],
        output,
        commitment: [5; 32],
        deadline,
        current_slot,
    };
    assert_eq!(get_cancel_instruction(&cancel(11, 10, 5, 6), &sample_proof(10, [5; 32])), Err(AmmError::OrderExpired));
    assert_eq!(get_cancel_instruction(&cancel(10, 10, 5, 5), &sample_proof(10, [5; 32])), Err(AmmError::WrongFinalizePath));
    let ok = get_cancel_instruction(&cancel(11, 10, 5, 5), &sample_proof(10, [5; 32])).unwrap();
    assert_eq!(ok.data.len(), 8 + 64 + 128 + 64 + 32 + 32);
    assert_eq!(ok.data[..8], [232, 219, 223, 41, 219, 236, 220, 190]);
    assert_eq!(ok.data[264..296], output_signal(10));
    assert_eq!(
        get_cancel_instruction(&cancel(11, 10, 5, 5), &sample_proof(9, [5; 32])),
        Err(AmmError::SerializationFailure)
    );
}

#[test]
fn slash_checks() {
    assert_eq!(
        get_slash_instruction(&SlashParams { deadline: 5, current_slot: 5 }),
        Err(AmmError::OrderNotExpired)
    );
    let ok = get_slash_instruction(&SlashParams { deadline: 5, current_slot: 6 }).unwrap();
    assert_eq!(ok.data, vec![204, 141, 18, 161, 8, 177, 92, 142]);
    assert_eq!(DarklakeAmmSlashParams {}.data(), ok.data);
}

#[test]
fn finalize_instruction_follows_path() {
    let slash = get_finalize_instruction(&finalize(1, 10, 100, 101), &None).unwrap();
    assert!(matches!(slash, FinalizeInstruction::Slash(_)));
    assert_eq!(slash.data(), vec![204, 141, 18, 161, 8, 177, 92, 142]);
    assert_eq!(
        get_finalize_instruction(&finalize(1, 10, 100, 100), &None),
        Err(AmmError::ProofGenerationFailure)
    );
    let past = get_finalize_instruction(&finalize(50, 10, 100, 101), &Some(sample_proof(10, [5; 32]))).unwrap();
    assert_eq!(past.data(), vec![204, 141, 18, 161, 8, 177, 92, 142]);
    let settle = get_finalize_instruction(&finalize(1, 10, 100, 100), &Some(sample_proof(10, [5; 32]))).unwrap();
    assert!(matches!(settle, FinalizeInstruction::Settle(_)));
    let data = settle.data();
    assert_eq!(data[..8], [175, 42, 185, 87, 144, 131, 102, 212]);
    assert_eq!(data[72..200], [2; 128]);
    assert_eq!(data[200..264], [3; 64]);
    assert_eq!(*data.last().unwrap(), 1);
    assert_eq!(
        get_finalize_instruction(&finalize(1, 10, 100, 100), &Some(sample_proof(10, [4; 32]))),
        Err(AmmError::SerializationFailure)
    );
    let cancel = get_finalize_instruction(&finalize(11, 10, 100, 100), &Some(sample_proof(10, [5; 32]))).unwrap();
    assert!(matches!(cancel, FinalizeInstruction::Cancel(_)));
    let data = cancel.data();
    assert_eq!(data[..8], [232, 219, 223, 41, 219, 236, 220, 190]);
    assert_eq!(data[72..200], [2; 128]);
    assert_eq!(data.len(), 328);
}

#[test]
fn proof_inputs_read_salt_and_commitment() {
    let (private_inputs, public_inputs) = proof_inputs(&finalize(7, 9, 0, 0));
    assert_eq!(private_inputs, PrivateProofInputs { min_out: 7, salt: 3 + (1u64 << 56) });
    assert_eq!(public_inputs.real_out, 9);
    assert_eq!(public_inputs.commitment.le, [5; 32]);
}

#[test]
fn public_signals_need_exactly_two() {
    assert_eq!(public_signals_pair(&vec![[1; 32], [2; 32]]), Ok([[1; 32], [2; 32]]));
    assert_eq!(public_signals_pair(&vec![[1; 32]]), Err(AmmError::SerializationFailure));
    assert_eq!(public_signals_pair(&vec![[1; 32]; 3]), Err(AmmError::SerializationFailure));
}

#[test]
fn swap_instruction_layout() {
    let ix = get_swap_instruction(0x0102, true, 1, [0; 8]);
    assert_eq!(ix.discriminator, SWAP_DISCRIMINATOR);
    assert_eq!(ix.swap.c_min, commit(1, [0; 8]));
    let mut expected = SWAP_DISCRIMINATOR.to_vec();
    expected.extend_from_slice(&0x0102u64.to_le_bytes());
    expected.push(1);
    expected.extend_from_slice(&ix.swap.c_min);
    assert_eq!(ix.data, expected);
    assert_eq!(ix.data.len(), 8 + 8 + 1 + 32);
}

#[test]
fn liquidity_layouts() {
    let init = DarklakeAmmInitializePoolParams { amount_x: 1, amount_y: 2, label: None }.data();
    assert_eq!(init.len(), 8 + 8 + 8 + 1);
    assert_eq!(init[8], 1);
    assert_eq!(init[16], 2);
    assert_eq!(*init.last().unwrap(), 0);
    let add = DarklakeAmmAddLiquidityParams {
        amount_lp: 3,
        max_amount_x: 4,
        max_amount_y: 5,
        ref_code: Some([7; 20]),
        label: None,
    }
    .data();
    assert_eq!(add.len(), 8 + 24 + 21 + 1);
    assert_eq!(add[32], 1);
    assert_eq!(add[33..53], [7; 20]);
    let remove = DarklakeAmmRemoveLiquidityParams {
        amount_lp: 3,
        min_amount_x: 4,
        min_amount_y: 5,
        label: Some([8; 21]),
    }
    .data();
    assert_eq!(remove.len(), 8 + 24 + 22);
    assert_eq!(remove[..8], [80, 85, 209, 72, 24, 206, 177, 108]);
}

#[test]
fn text_fields_are_padded() {
    assert_eq!(convert_string_to_bytes_array("ab", 4), Ok(vec![97, 98, 0, 0]));
    assert_eq!(convert_string_to_bytes_array("", 2), Ok(vec![0, 0]));
    assert_eq!(convert_string_to_bytes_array("abcd", 4), Ok(b"abcd".to_vec()));
    assert_eq!(convert_string_to_bytes_array("abcde", 4), Err(AmmError::TextTooLong));
}

#[test]
fn circuit_paths() {
    assert_eq!(find_circuit_path("circuits", "settle.wasm"), "circuits/settle.wasm");
}
