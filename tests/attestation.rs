use rand::Rng;
use enclave_attest::address::{
    derive_address, function_quote_address, permission_address, state_address, ATTESTATION_PID,
    PERMISSION_SEED, QUOTE_SEED, STATE_SEED,
};
use enclave_attest::codec::{account_discriminator, ix_discriminator};
use enclave_attest::error::Error;
use enclave_attest::instruction::{
    build_ix, AccountMeta, FunctionVerify, FunctionVerifyArgs, FunctionVerifyParams, Instruction,
};
use enclave_attest::quote::{accept_generated, report_data_for, Quote};
use enclave_attest::records::{load_function_record, load_queue_record, load_verifier_record};
use enclave_attest::result::{
    next_allowed_timestamp, verification_instructions, Chain, FunctionResult, VerifyInputs,
};
use solana_sdk::pubkey::Pubkey;
use solana_sdk::signer::keypair::Keypair;
use solana_sdk::signer::Signer;

const FUNCTION_VERIFY_DISCRIMINATOR: [u8; 8] = [210, 108, 154, 138, 198, 14, 53, 191];
const TOKEN_PROGRAM: [u8; 32] = [
    6, 221, 246, 225, 215, 101, 161, 147, 217, 203, 225, 70, 206, 235, 121, 172, 28, 180, 133,
    237, 95, 91, 55, 145, 58, 140, 245, 133, 126, 255, 0, 169,
];

fn key(b: u8) -> [u8; 32] {
    [b; 32]
}

fn function_account(queue: [u8; 32], escrow: [u8; 32], due: Option<i64>) -> Vec<u8> {
    let mut v = account_discriminator("FunctionAccountData").to_vec();
    v.extend_from_slice(&queue);
    v.extend_from_slice(&escrow);
    match due {
        Some(t) => {
            v.push(1);
            v.extend_from_slice(&t.to_le_bytes());
        }
        None => {
            v.push(0);
            v.extend_from_slice(&[0u8; 8]);
        }
    }
    v
}

fn queue_account(authority: [u8; 32]) -> Vec<u8> {
    let mut v = account_discriminator("AttestationQueueAccountData").to_vec();
    v.extend_from_slice(&authority);
    v
}

fn verifier_account(secured_signer: [u8; 32]) -> Vec<u8> {
    let mut v = account_discriminator("QuoteAccountData").to_vec();
    v.extend_from_slice(&secured_signer);
    v
}

/// A well-formed version 3 quote with the given measurement and report data
/// and an empty certificate chain.
fn sample_quote(mr_enclave: [u8; 32], report_data: &[u8; 64]) -> Vec<u8> {
    let mut q = vec![0u8; 48];
    q[0] = 3;
    q[2] = 2;
    let mut report = vec![0u8; 384];
    report[64..96].copy_from_slice(&mr_enclave);
    report[320..384].copy_from_slice(report_data);
    q.extend_from_slice(&report);
    let mut sig = vec![0u8; 64 + 64 + 384 + 64];
    sig.extend_from_slice(&0u16.to_le_bytes());
    sig.extend_from_slice(&5u16.to_le_bytes());
    sig.extend_from_slice(&0u32.to_le_bytes());
    q.extend_from_slice(&(sig.len() as u32).to_le_bytes());
    q.extend_from_slice(&sig);
    q
}

fn sample_args() -> FunctionVerifyArgs {
    FunctionVerifyArgs {
        function: key(1),
        fn_signer: key(2),
        reward_receiver: key(3),
        verifier: key(4),
        payer: key(5),
        timestamp: 1_700_000_000,
        next_allowed_timestamp: i64::MAX,
        is_failure: false,
        mr_enclave: key(9),
    }
}

fn sample_inputs(signer: [u8; 32]) -> VerifyInputs {
    VerifyInputs {
        function: Some(key(1)),
        payer: Some(key(5)),
        verifier: Some(key(4)),
        reward_receiver: Some(key(3)),
        now: 1_700_000_000,
        blockhash: Some(key(42)),
        quote: Some(sample_quote(key(9), &report_data_for(&signer))),
        function_account: Some(function_account(key(6), key(7), None)),
        queue_account: Some(queue_account(key(8))),
        verifier_account: Some(verifier_account(key(10))),
    }
}

fn pda(seeds: &[&[u8]]) -> [u8; 32] {
    Pubkey::find_program_address(seeds, &Pubkey::new_from_array(ATTESTATION_PID)).0.to_bytes()
}

#[test]
fn discriminator_golden_value() {
    assert_eq!(ix_discriminator("function_verify"), FUNCTION_VERIFY_DISCRIMINATOR);
    assert_eq!(FunctionVerifyParams::discriminator(), FUNCTION_VERIFY_DISCRIMINATOR);
    assert_ne!(ix_discriminator("function_verifz"), FUNCTION_VERIFY_DISCRIMINATOR);
}

#[test]
fn account_discriminator_uses_account_namespace() {
    let digest = solana_sdk::hash::hash(b"account:FunctionAccountData").to_bytes();
    assert_eq!(account_discriminator("FunctionAccountData").to_vec(), digest[..8].to_vec());
}

#[test]
fn derivation_is_deterministic() {
    let seeds = vec![b"seed".to_vec(), vec![7u8; 32]];
    let a = derive_address(&seeds, &ATTESTATION_PID);
    let b = derive_address(&seeds.clone(), &ATTESTATION_PID);
    assert_eq!(a, b);
    assert_eq!(function_quote_address(&key(1)), function_quote_address(&key(1)));
}

#[test]
fn derivation_is_seed_sensitive() {
    let mut rng = rand::thread_rng();
    for _ in 0..64 {
        let mut seed = [0u8; 32];
        rng.fill(&mut seed);
        let base = derive_address(&vec![QUOTE_SEED.to_vec(), seed.to_vec()], &ATTESTATION_PID).0;
        let i: usize = rng.gen_range(0..32);
        let mut changed = seed;
        changed[i] ^= 1 << rng.gen_range(0..8);
        let other = derive_address(&vec![QUOTE_SEED.to_vec(), changed.to_vec()], &ATTESTATION_PID).0;
        assert_ne!(base, other);
    }
}

#[test]
fn derived_accounts_match_the_chain_derivation() {
    assert_eq!(function_quote_address(&key(1)), pda(&[b"QuoteAccountData", &key(1)]));
    assert_eq!(
        permission_address(&key(8), &key(6), &key(4)),
        pda(&[b"PermissionAccountData", &key(8), &key(6), &key(4)])
    );
    assert_eq!(state_address(), pda(&[b"STATE"]));
    assert_eq!(&QUOTE_SEED, b"QuoteAccountData");
    assert_eq!(&PERMISSION_SEED, b"PermissionAccountData");
    assert_eq!(&STATE_SEED, b"STATE");
}

#[test]
fn account_metas_order_and_flags() {
    let fv = FunctionVerify {
        function: key(1),
        fn_signer: key(2),
        fn_quote: key(3),
        verifier_quote: key(4),
        secured_signer: key(5),
        attestation_queue: key(6),
        escrow: key(7),
        receiver: key(8),
        verifier_permission: key(9),
        fn_permission: key(10),
        state: key(11),
        token_program: key(12),
        payer: key(13),
        system_program: key(14),
    };
    let metas = fv.to_account_metas();
    assert_eq!(metas.len(), 14);
    let signers = [1usize, 4, 12];
    let writable = [0usize, 2, 6, 7, 10, 12];
    for (i, m) in metas.iter().enumerate() {
        assert_eq!(m.pubkey, key(i as u8 + 1));
        assert_eq!(m.is_signer, signers.contains(&i));
        assert_eq!(m.is_writable, writable.contains(&i));
    }
    assert_eq!(metas, fv.to_account_metas());
}

#[test]
fn payload_layout() {
    let p = FunctionVerifyParams {
        observed_time: 5,
        next_allowed_timestamp: -1,
        is_failure: true,
        mr_enclave: key(0xab),
    };
    let mut expected = FUNCTION_VERIFY_DISCRIMINATOR.to_vec();
    expected.extend_from_slice(&[5, 0, 0, 0, 0, 0, 0, 0]);
    expected.extend_from_slice(&[0xff; 8]);
    expected.push(1);
    expected.extend_from_slice(&[0xab; 32]);
    assert_eq!(p.data(), expected);
    assert_eq!(p.data().len(), 57);
}

#[test]
fn build_ix_targets_attestation_program() {
    let fv = FunctionVerify {
        function: key(1),
        fn_signer: key(2),
        fn_quote: key(3),
        verifier_quote: key(4),
        secured_signer: key(5),
        attestation_queue: key(6),
        escrow: key(7),
        receiver: key(8),
        verifier_permission: key(9),
        fn_permission: key(10),
        state: key(11),
        token_program: key(12),
        payer: key(13),
        system_program: key(14),
    };
    let p = FunctionVerifyParams { observed_time: 1, next_allowed_timestamp: 2, is_failure: false, mr_enclave: key(3) };
    let ix = build_ix(&fv, &p);
    assert_eq!(ix.program_id, ATTESTATION_PID);
    assert_eq!(ix.accounts, fv.to_account_metas());
    assert_eq!(ix.data, p.data());
}

#[test]
fn build_is_fixed_and_complete() {
    let args = sample_args();
    let f = Some(function_account(key(6), key(7), None));
    let q = Some(queue_account(key(8)));
    let v = Some(verifier_account(key(10)));
    let ix = FunctionVerify::build(&args, &f, &q, &v).unwrap();
    let again = FunctionVerify::build(&args, &f, &q, &v).unwrap();
    assert_eq!(ix, again);
    let expect = |pubkey: [u8; 32], is_signer: bool, is_writable: bool| AccountMeta { pubkey, is_signer, is_writable };
    let expected = vec![
        expect(key(1), false, true),
        expect(key(2), true, false),
        expect(pda(&[b"QuoteAccountData", &key(1)]), false, true),
        expect(key(4), false, false),
        expect(key(10), true, false),
        expect(key(6), false, false),
        expect(key(7), false, true),
        expect(key(3), false, true),
        expect(pda(&[b"PermissionAccountData", &key(8), &key(6), &key(4)]), false, false),
        expect(pda(&[b"PermissionAccountData", &key(8), &key(6), &key(1)]), false, false),
        expect(pda(&[b"STATE"]), false, true),
        expect(TOKEN_PROGRAM, false, false),
        expect(key(5), true, true),
        expect([0u8; 32], false, false),
    ];
    assert_eq!(ix.accounts, expected);
    assert_eq!(ix.program_id, ATTESTATION_PID);
    assert_eq!(TOKEN_PROGRAM, spl_token::ID.to_bytes());
}

#[test]
fn build_reports_missing_and_malformed_records() {
    let args = sample_args();
    let f = Some(function_account(key(6), key(7), None));
    let q = Some(queue_account(key(8)));
    let v = Some(verifier_account(key(10)));
    assert_eq!(FunctionVerify::build(&args, &None, &q, &v), Err(Error::MissingAccount));
    assert_eq!(FunctionVerify::build(&args, &f, &None, &v), Err(Error::MissingAccount));
    assert_eq!(FunctionVerify::build(&args, &f, &q, &None), Err(Error::MissingAccount));
    assert_eq!(FunctionVerify::build(&args, &q, &q, &v), Err(Error::AnchorParseError));
    assert_eq!(FunctionVerify::build(&args, &f, &v, &v), Err(Error::AnchorParseError));
    assert_eq!(FunctionVerify::build(&args, &f, &q, &Some(vec![1, 2, 3])), Err(Error::AnchorParseError));
}

#[test]
fn records_decode_their_fields() {
    let f = load_function_record(&Some(function_account(key(6), key(7), Some(-3)))).unwrap();
    assert_eq!(f.attestation_queue, key(6));
    assert_eq!(f.escrow, key(7));
    assert_eq!(f.next_execution_timestamp, Some(-3));
    let unset = load_function_record(&Some(function_account(key(6), key(7), None))).unwrap();
    assert_eq!(unset.next_execution_timestamp, None);
    let mut bad_flag = function_account(key(6), key(7), None);
    bad_flag[72] = 2;
    assert_eq!(load_function_record(&Some(bad_flag)), Err(Error::AnchorParseError));
    assert_eq!(load_queue_record(&Some(queue_account(key(8)))).unwrap().authority, key(8));
    assert_eq!(load_verifier_record(&Some(verifier_account(key(10)))).unwrap().secured_signer, key(10));
    assert_eq!(load_queue_record(&None), Err(Error::MissingAccount));
}

#[test]
fn unset_due_time_is_never_due() {
    assert_eq!(next_allowed_timestamp(None), i64::MAX);
    assert_eq!(next_allowed_timestamp(Some(1234)), 1234);
    assert_eq!(next_allowed_timestamp(Some(0)), 0);
}

#[test]
fn quote_round_trip_binds_the_caller_bytes() {
    let binding = b"enclave signer public key".to_vec();
    let raw = sample_quote(key(9), &report_data_for(&binding));
    let q = Quote::parse(&raw).unwrap();
    assert_eq!(q.mr_enclave, key(9));
    assert_eq!(q.raw, raw);
    assert!(q.binds(&binding));
    assert!(!q.binds(b"another key"));
    let digest = solana_sdk::hash::hash(&binding).to_bytes();
    let data = report_data_for(&binding);
    assert_eq!(data[..32].to_vec(), digest.to_vec());
    assert_eq!(data[32..].to_vec(), vec![0u8; 32]);
}

#[test]
fn quote_faults_are_distinct() {
    assert_eq!(accept_generated(&None), Err(Error::SgxError));
    assert_eq!(accept_generated(&Some(vec![0u8; 100])), Err(Error::QuoteParseError));
    let mut raw = sample_quote(key(9), &[0u8; 64]);
    raw.push(0);
    assert_eq!(Quote::parse(&raw), Err(Error::QuoteParseError));
}

#[test]
fn fresh_function_is_verified_never_due() {
    let signer = key(2);
    let (quote, ixs) = verification_instructions(&signer, &sample_inputs(signer), vec![]).unwrap();
    assert_eq!(quote.mr_enclave, key(9));
    assert_eq!(ixs.len(), 1);
    let data = &ixs[0].data;
    assert_eq!(data[..8].to_vec(), FUNCTION_VERIFY_DISCRIMINATOR.to_vec());
    assert_eq!(data[8..16].to_vec(), 1_700_000_000i64.to_le_bytes().to_vec());
    assert_eq!(data[16..24].to_vec(), i64::MAX.to_le_bytes().to_vec());
    assert_eq!(data[24], 0);
    assert_eq!(data[25..].to_vec(), key(9).to_vec());
}

#[test]
fn verification_goes_in_front_of_caller_instructions() {
    let signer = key(2);
    let extra = Instruction { program_id: key(77), accounts: vec![], data: vec![1, 2] };
    let (_, ixs) = verification_instructions(&signer, &sample_inputs(signer), vec![extra.clone()]).unwrap();
    assert_eq!(ixs.len(), 2);
    assert_eq!(ixs[0].program_id, ATTESTATION_PID);
    assert_eq!(ixs[1], extra);
}

#[test]
fn missing_function_account_aborts() {
    let signer = key(2);
    let mut inputs = sample_inputs(signer);
    inputs.function_account = None;
    assert_eq!(verification_instructions(&signer, &inputs, vec![]).map(|_| ()), Err(Error::MissingAccount));
}

#[test]
fn pipeline_errors_come_in_order() {
    let signer = key(2);
    let mut inputs = sample_inputs(signer);
    inputs.verifier = None;
    assert_eq!(verification_instructions(&signer, &inputs, vec![]).map(|_| ()), Err(Error::VerifierMissing));
    inputs.payer = None;
    assert_eq!(verification_instructions(&signer, &inputs, vec![]).map(|_| ()), Err(Error::MissingConfiguration));
    inputs.blockhash = None;
    assert_eq!(verification_instructions(&signer, &inputs, vec![]).map(|_| ()), Err(Error::FetchError));
    inputs.quote = Some(vec![1, 2, 3]);
    assert_eq!(verification_instructions(&signer, &inputs, vec![]).map(|_| ()), Err(Error::QuoteParseError));
    inputs.quote = None;
    assert_eq!(verification_instructions(&signer, &inputs, vec![]).map(|_| ()), Err(Error::SgxError));
}

#[test]
fn attested_result_envelope() {
    let kp = Keypair::new();
    let signer = kp.pubkey().to_bytes();
    let mut inputs = sample_inputs(signer);
    inputs.payer = Some(signer);
    let r = FunctionResult::generate_verifiable_solana_tx(&kp, vec![], &inputs).unwrap();
    assert_eq!(r.version, 1);
    assert_eq!(r.chain, Chain::Solana);
    assert_eq!(r.key, key(1));
    assert_eq!(r.signer, signer);
    assert_eq!(&r.quote, inputs.quote.as_ref().unwrap());
    assert!(r.program.is_empty() && r.data.is_empty());
    let tx: solana_sdk::transaction::Transaction = bincode::deserialize(&r.serialized_tx).unwrap();
    assert_eq!(tx.message.instructions.len(), 1);
    assert_eq!(tx.message.recent_blockhash.to_bytes(), key(42));
}

#[test]
fn attested_result_aborts_without_quote() {
    let kp = Keypair::new();
    let mut inputs = sample_inputs(kp.pubkey().to_bytes());
    inputs.quote = None;
    assert_eq!(FunctionResult::generate_verifiable_solana_tx(&kp, vec![], &inputs), Err(Error::SgxError));
}

#[test]
fn output_line_is_marked_hex() {
    assert_eq!(FunctionResult::output_line(b"{}"), "FN_OUT: 7b7d");
    assert_eq!(FunctionResult::output_line(&[0x0f, 0xa0]), "FN_OUT: 0fa0");
    assert_eq!(FunctionResult::output_line(b""), "FN_OUT: ");
}

#[test]
fn default_chain_is_solana() {
    assert_eq!(Chain::default(), Chain::Solana);
}

#[test]
fn quote_for_another_key_is_refused() {
    let signer = key(2);
    let mut inputs = sample_inputs(signer);
    inputs.quote = Some(sample_quote(key(9), &report_data_for(&key(3))));
    assert_eq!(verification_instructions(&signer, &inputs, vec![]).map(|_| ()), Err(Error::QuoteBindingMismatch));
    let kp = Keypair::new();
    assert_eq!(FunctionResult::generate_verifiable_solana_tx(&kp, vec![], &inputs), Err(Error::QuoteBindingMismatch));
}

#[test]
fn attested_result_is_signed_by_the_enclave_key() {
    let kp = Keypair::new();
    let signer = kp.pubkey().to_bytes();
    let extra = Instruction { program_id: key(77), accounts: vec![], data: vec![1, 2] };
    let r = FunctionResult::generate_verifiable_solana_tx(&kp, vec![extra], &sample_inputs(signer)).unwrap();
    let tx: solana_sdk::transaction::Transaction = bincode::deserialize(&r.serialized_tx).unwrap();
    assert_eq!(tx.message.instructions.len(), 2);
    assert_eq!(tx.message.account_keys[0].to_bytes(), key(5));
    assert_eq!(tx.message.recent_blockhash.to_bytes(), key(42));
    assert_eq!(tx.message.instructions[1].data, vec![1, 2]);
    assert_eq!(tx.message.account_keys[tx.message.instructions[1].program_id_index as usize].to_bytes(), key(77));
    assert_eq!(tx.message.account_keys[tx.message.instructions[0].program_id_index as usize].to_bytes(), ATTESTATION_PID);
    let signed = tx.signatures.iter().filter(|s| **s != solana_sdk::signature::Signature::default()).count();
    assert_eq!(signed, 1);
    let pos = tx.message.account_keys.iter().position(|k| k.to_bytes() == signer).unwrap();
    assert!(pos < tx.message.header.num_required_signatures as usize);
    assert!(tx.signatures[pos].verify(&signer, &tx.message_data()));
    assert!(Quote::parse(&r.quote).unwrap().binds(&r.signer));
}

#[test]
fn default_result_is_empty_solana() {
    let r = FunctionResult::default();
    assert_eq!(r.version, 0);
    assert_eq!(r.chain, Chain::Solana);
    assert_eq!(r.key, [0u8; 32]);
    assert!(r.serialized_tx.is_empty() && r.quote.is_empty());
}
