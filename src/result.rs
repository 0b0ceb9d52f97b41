use vstd::prelude::*;
use crate::address::Address;
use crate::error::Error;
use crate::instruction::{
    AccountMeta,
    account_table, build_error, metas_view, signer_at, PARAMS_LEN, params_data, verify_keys, verify_params, FunctionVerify,
    FunctionVerifyArgs, Instruction,
};
use crate::quote::{accept_generated, binding_report_data, parses_to, quote_parses, Quote};
use crate::address::ATTESTATION_PID;
use crate::records::{due_timestamp_at, load_function_record};
use vstd::string::StringExecFns;
use solana_sdk::signer::keypair::Keypair;
use solana_sdk::signer::Signer;
use solana_sdk::pubkey::Pubkey;
use solana_sdk::instruction::{AccountMeta as ChainAccountMeta, Instruction as ChainInstruction};
use solana_sdk::transaction::Transaction;

verus! {

#[verifier::external_type_specification]
#[verifier::external_body]
pub struct ExKeypair(Keypair);

#[verifier::external_type_specification]
#[verifier::external_body]
pub struct ExTransaction(Transaction);

/// The chains that a function result can target.
#[derive(Clone, Copy, Debug, PartialEq, Eq, Structural)]
pub enum Chain {
    Solana,
    Arbitrum,
    Bsc,
    Coredao,
    Aptos,
    Sui,
}

impl Default for Chain {
    fn default() -> (r: Self)
        ensures
            r == Chain::Solana,
    {
        Chain::Solana
    }
}

/// The envelope that carries an attested result off the enclave.
#[derive(Clone, Debug, PartialEq, Eq)]
pub struct FunctionResult {
    pub version: u32,
    pub chain: Chain,
    pub key: [u8; 32],
    pub signer: [u8; 32],
    pub serialized_tx: Vec<u8>,
    pub quote: Vec<u8>,
    pub program: Vec<u8>,
    pub data: Vec<u8>,
}

impl Default for FunctionResult {
    fn default() -> (r: Self)
        ensures
            r.version == 0,
            r.chain == Chain::Solana,
            r.key@ == Seq::new(32, |i: int| 0u8),
            r.signer@ == Seq::new(32, |i: int| 0u8),
            r.serialized_tx@.len() == 0,
            r.quote@.len() == 0,
            r.program@.len() == 0,
            r.data@.len() == 0,
    {
        let r = FunctionResult {
            version: 0,
            chain: Chain::Solana,
            key: [0u8; 32],
            signer: [0u8; 32],
            serialized_tx: Vec::new(),
            quote: Vec::new(),
            program: Vec::new(),
            data: Vec::new(),
        };
        assert(r.key@ =~= Seq::new(32, |i: int| 0u8));
        assert(r.signer@ =~= Seq::new(32, |i: int| 0u8));
        r
    }
}

/// The version of the envelope layout.
pub const RESULT_VERSION: u32 = 1;

/// The next time a function may run: its due time when the record sets
/// one, else the largest timestamp, so that an unscheduled function is never
/// taken as overdue.
pub open spec fn resolved_timestamp(due: Option<i64>) -> i64 {
    match due {
        Some(t) => t,
        None => i64::MAX,
    }
}

/// Resolves a function's next allowed time from its recorded due time.
pub fn next_allowed_timestamp(due: Option<i64>) -> (r: i64)
    ensures
        r == resolved_timestamp(due),
{
    match due {
        Some(t) => t,
        None => i64::MAX,
    }
}

/// An unset due time resolves to the largest timestamp, never to zero.
pub proof fn lemma_unset_due_is_never(due: Option<i64>)
    requires
        due is None,
    ensures
        resolved_timestamp(due) == i64::MAX,
        resolved_timestamp(due) != 0,
{
}

/// What one attestation needs from outside the enclave library: the
/// configured addresses, the time, the chain's state and the enclave's quote.
#[derive(Clone, Debug)]
pub struct VerifyInputs {
    pub function: Option<Address>,
    pub payer: Option<Address>,
    pub verifier: Option<Address>,
    pub reward_receiver: Option<Address>,
    pub now: i64,
    pub blockhash: Option<[u8; 32]>,
    pub quote: Option<Vec<u8>>,
    pub function_account: Option<Vec<u8>>,
    pub queue_account: Option<Vec<u8>>,
    pub verifier_account: Option<Vec<u8>>,
}

/// The first failure of an attestation by `signer`, in the order: the
/// enclave's quote (`SgxError`, `QuoteParseError`, and
/// `QuoteBindingMismatch` when it does not bind `signer`), the blockhash
/// (`FetchError`), the
/// configured addresses (`MissingConfiguration`, `VerifierMissing`), and the
/// chain records (`MissingAccount`, `AnchorParseError`).
pub open spec fn verification_error(signer: Seq<u8>, inputs: VerifyInputs) -> Option<Error> {
    if inputs.quote is None {
        Some(Error::SgxError)
    } else if !quote_parses(inputs.quote->0@) {
        Some(Error::QuoteParseError)
    } else if inputs.quote->0@.subrange(368, 432) != binding_report_data(signer) {
        Some(Error::QuoteBindingMismatch)
    } else if inputs.blockhash is None {
        Some(Error::FetchError)
    } else if inputs.function is None || inputs.payer is None || inputs.reward_receiver is None {
        Some(Error::MissingConfiguration)
    } else if inputs.verifier is None {
        Some(Error::VerifierMissing)
    } else {
        build_error(&inputs.function_account, &inputs.queue_account, &inputs.verifier_account)
    }
}

/// The arguments of the verification that `signer` makes with measurement
/// `mr_enclave`: never a failure report, due at the function's resolved time.
pub open spec fn verify_args_of(signer: Address, inputs: VerifyInputs, mr_enclave: [u8; 32]) -> FunctionVerifyArgs {
    FunctionVerifyArgs {
        function: inputs.function->0,
        fn_signer: signer,
        reward_receiver: inputs.reward_receiver->0,
        verifier: inputs.verifier->0,
        payer: inputs.payer->0,
        timestamp: inputs.now,
        next_allowed_timestamp: resolved_timestamp(due_timestamp_at(inputs.function_account->0@)),
        is_failure: false,
        mr_enclave,
    }
}

/// Whether `ix` is the verification instruction for `args` over the records in `inputs`.
pub open spec fn is_verification(ix: Instruction, args: FunctionVerifyArgs, inputs: VerifyInputs) -> bool {
    &&& ix.program_id@ == ATTESTATION_PID@
    &&& metas_view(ix.accounts@) == account_table(verify_keys(
        args,
        inputs.function_account->0@,
        inputs.queue_account->0@,
        inputs.verifier_account->0@,
    ))
    &&& ix.data@ == params_data(verify_params(args))
    &&& ix.data@.len() == PARAMS_LEN
}

/// The verification instruction for `args` over the records in `inputs`, as
/// (program, account keys in order, payload).
pub open spec fn verification_view(args: FunctionVerifyArgs, inputs: VerifyInputs) -> (Seq<u8>, Seq<Seq<u8>>, Seq<u8>) {
    (
        ATTESTATION_PID@,
        verify_keys(args, inputs.function_account->0@, inputs.queue_account->0@, inputs.verifier_account->0@),
        params_data(verify_params(args)),
    )
}

/// Checks the quote, that it binds `signer`, the configuration and the
/// chain records, and puts the
/// verification instruction of `signer` in front of `extra`. Returns the
/// parsed quote with the instructions.
pub fn verification_instructions(
    signer: &Address,
    inputs: &VerifyInputs,
    extra: Vec<Instruction>,
) -> (r: Result<(Quote, Vec<Instruction>), Error>)
    ensures
        match verification_error(signer@, *inputs) {
            Some(e) => r == Err::<(Quote, Vec<Instruction>), Error>(e),
            None => r is Ok && parses_to(inputs.quote->0@, r->Ok_0.0) && r->Ok_0.1@.len()
                == extra@.len() + 1 && r->Ok_0.1@.subrange(1, extra@.len() + 1int) == extra@
                && is_verification(
                r->Ok_0.1@[0],
                verify_args_of(*signer, *inputs, r->Ok_0.0.mr_enclave),
                *inputs,
            ),
        },
{
    let quote = match accept_generated(&inputs.quote) {
        Ok(q) => q,
        Err(e) => return Err(e),
    };
    if !quote.binds(signer.as_slice()) {
        return Err(Error::QuoteBindingMismatch);
    }
    if inputs.blockhash.is_none() {
        return Err(Error::FetchError);
    }
    let (function, payer, reward_receiver) = match (inputs.function, inputs.payer, inputs.reward_receiver) {
        (Some(f), Some(p), Some(w)) => (f, p, w),
        _ => return Err(Error::MissingConfiguration),
    };
    let verifier = match inputs.verifier {
        Some(v) => v,
        None => return Err(Error::VerifierMissing),
    };
    let fn_data = match load_function_record(&inputs.function_account) {
        Ok(f) => f,
        Err(e) => return Err(e),
    };
    let args = FunctionVerifyArgs {
        function,
        fn_signer: *signer,
        reward_receiver,
        verifier,
        payer,
        timestamp: inputs.now,
        next_allowed_timestamp: next_allowed_timestamp(fn_data.next_execution_timestamp),
        is_failure: false,
        mr_enclave: quote.mr_enclave,
    };
    let ix = match FunctionVerify::build(
        &args,
        &inputs.function_account,
        &inputs.queue_account,
        &inputs.verifier_account,
    ) {
        Ok(ix) => ix,
        Err(e) => return Err(e),
    };
    let mut all = extra;
    all.insert(0, ix);
    assert(all@.subrange(1, all@.len() as int) =~= extra@);
    Ok((quote, all))
}

/// When the quote binds the signer and the blockhash and configuration are
/// there, a missing function account aborts the attestation with
/// `MissingAccount`.
pub proof fn lemma_missing_function_aborts(signer: Seq<u8>, inputs: VerifyInputs)
    requires
        inputs.quote is Some,
        quote_parses(inputs.quote->0@),
        inputs.quote->0@.subrange(368, 432) == binding_report_data(signer),
        inputs.blockhash is Some,
        inputs.function is Some,
        inputs.payer is Some,
        inputs.reward_receiver is Some,
        inputs.verifier is Some,
        inputs.function_account is None,
    ensures
        verification_error(signer, inputs) == Some(Error::MissingAccount),
{
}

/// The number of keys that a message over `ixs` can list: each
/// instruction's accounts and its program.
pub open spec fn message_keys(ixs: Seq<Instruction>) -> int
    decreases ixs.len(),
{
    if ixs.len() == 0 {
        0
    } else {
        ixs[0].accounts@.len() + 1 + message_keys(ixs.subrange(1, ixs.len() as int))
    }
}

/// The most keys of one kind that a message can index, less the payer.
pub const MESSAGE_KEY_LIMIT: usize = 254;

/// The public key of a keypair.
pub uninterp spec fn keypair_pubkey(k: Keypair) -> Seq<u8>;

/// The keys whose signatures a transaction requires.
pub uninterp spec fn signer_keys(tx: Transaction) -> Set<Seq<u8>>;

/// The wire form of a transaction, when it serialises.
pub uninterp spec fn wire_bytes(tx: Transaction) -> Option<Seq<u8>>;

/// Whether every instruction's payload fits a length prefix of the wire form.
pub open spec fn payloads_fit(ixs: Seq<Instruction>) -> bool {
    forall|i: int| 0 <= i < ixs.len() ==> #[trigger] ixs[i].data@.len() <= u16::MAX
}

/// Relies on solana_sdk::signer::Signer::pubkey for a keypair: its public key.
#[verifier::external_body]
fn keypair_address(k: &Keypair) -> (r: Address)
    ensures
        r@ == keypair_pubkey(*k),
{
    k.pubkey().to_bytes()
}

/// The fee payer of a transaction: the first key of its message.
pub uninterp spec fn fee_payer(tx: Transaction) -> Seq<u8>;

/// The recent blockhash of a transaction's message.
pub uninterp spec fn tx_blockhash(tx: Transaction) -> Seq<u8>;

/// The instructions of a transaction's message, decompiled to (program,
/// account keys in order, payload).
pub uninterp spec fn tx_instructions(tx: Transaction) -> Seq<(Seq<u8>, Seq<Seq<u8>>, Seq<u8>)>;

/// The keys whose signature slots of a transaction hold a signature.
pub uninterp spec fn signed_keys(tx: Transaction) -> Set<Seq<u8>>;

/// Whether a transaction has one signature slot per required signer.
pub uninterp spec fn slots_match(tx: Transaction) -> bool;

/// An instruction as (program, account keys in order, payload).
pub open spec fn instruction_view(ix: Instruction) -> (Seq<u8>, Seq<Seq<u8>>, Seq<u8>) {
    (ix.program_id@, ix.accounts@.map_values(|m: AccountMeta| m.pubkey@), ix.data@)
}

/// The views of a list of instructions.
pub open spec fn instructions_view(ixs: Seq<Instruction>) -> Seq<(Seq<u8>, Seq<Seq<u8>>, Seq<u8>)> {
    ixs.map_values(|ix: Instruction| instruction_view(ix))
}

/// Relies on solana_sdk::transaction::Transaction::new_with_payer: an
/// unsigned transaction over the instructions, each filled field for field
/// into the chain's instruction type, with `payer` first and one default
/// signature slot per required signer. Its message compiler panics when
/// more than 255 keys of one kind are listed; the bound here counts every
/// reference, so it is stricter than that. The message requires the
/// signatures of the payer and of every account that an instruction marks
/// as signer, and decompiles to the instructions given. Its wire form
/// (bincode) fails only when a length-prefixed list is longer than
/// `u16::MAX`: under the key bound only a payload can be.
#[verifier::external_body]
fn unsigned_transaction(ixs: &Vec<Instruction>, payer: &Address) -> (r: Transaction)
    requires
        message_keys(ixs@) <= MESSAGE_KEY_LIMIT,
    ensures
        slots_match(r),
        fee_payer(r) == payer@,
        tx_instructions(r) == instructions_view(ixs@),
        signed_keys(r) == Set::<Seq<u8>>::empty(),
        signer_keys(r).contains(payer@),
        forall|i: int, j: int|
            0 <= i < ixs@.len() && 0 <= j < ixs@[i].accounts@.len() && (#[trigger] ixs@[i].accounts@[j]).is_signer
                ==> signer_keys(r).contains(ixs@[i].accounts@[j].pubkey@),
        payloads_fit(ixs@) ==> wire_bytes(r) is Some,
{
    let ixs: Vec<ChainInstruction> = ixs.iter().map(|ix| ChainInstruction {
        program_id: Pubkey::new_from_array(ix.program_id),
        accounts: ix.accounts.iter().map(|m| ChainAccountMeta {
            pubkey: Pubkey::new_from_array(m.pubkey),
            is_signer: m.is_signer,
            is_writable: m.is_writable,
        }).collect(),
        data: ix.data.clone(),
    }).collect();
    Transaction::new_with_payer(&ixs, Some(&Pubkey::new_from_array(*payer)))
}

/// Relies on solana_sdk::transaction::Transaction::try_partial_sign: it
/// fails, leaving the transaction as it was, only when `signer` is not one
/// of the required signers; else it sets the blockhash (clearing every
/// signature when the blockhash changes) and fills the signer's slot (a
/// keypair's signing cannot fail). The message's keys, instructions and
/// slots stay, so whether it serialises stays too.
#[verifier::external_body]
fn partial_sign(tx: &mut Transaction, signer: &Keypair, blockhash: &[u8; 32]) -> (r: bool)
    requires
        slots_match(*old(tx)),
    ensures
        r <==> signer_keys(*old(tx)).contains(keypair_pubkey(*signer)),
        !r ==> *final(tx) == *old(tx),
        slots_match(*final(tx)),
        signer_keys(*final(tx)) == signer_keys(*old(tx)),
        fee_payer(*final(tx)) == fee_payer(*old(tx)),
        tx_instructions(*final(tx)) == tx_instructions(*old(tx)),
        wire_bytes(*final(tx)) is Some <==> wire_bytes(*old(tx)) is Some,
        r ==> tx_blockhash(*final(tx)) == blockhash@,
        r ==> signed_keys(*final(tx)) == (if tx_blockhash(*old(tx)) == blockhash@ {
            signed_keys(*old(tx))
        } else {
            Set::<Seq<u8>>::empty()
        }).insert(keypair_pubkey(*signer)),
{
    tx.try_partial_sign(&[signer], solana_sdk::hash::Hash::new_from_array(*blockhash)).is_ok()
}

/// Relies on bincode::serialize: the wire form of a transaction.
#[verifier::external_body]
fn serialize_transaction(tx: &Transaction) -> (r: Option<Vec<u8>>)
    ensures
        r is Some <==> wire_bytes(*tx) is Some,
        r is Some ==> r->0@ == wire_bytes(*tx)->0,
{
    bincode::serialize(tx).ok()
}

proof fn lemma_message_keys_front(ix: Instruction, rest: Seq<Instruction>)
    ensures
        message_keys(seq![ix] + rest) == ix.accounts@.len() + 1 + message_keys(rest),
{
    assert((seq![ix] + rest).subrange(1, (seq![ix] + rest).len() as int) =~= rest);
}

impl FunctionResult {
    /// The envelope of a Solana result: version 1, the function, the enclave
    /// signer, the signed transaction and the quote, with no program or data.
    pub fn solana(function: Address, signer: Address, serialized_tx: Vec<u8>, quote: Vec<u8>) -> (r: FunctionResult)
        ensures
            r.version == RESULT_VERSION,
            r.chain == Chain::Solana,
            r.key == function,
            r.signer == signer,
            r.serialized_tx@ == serialized_tx@,
            r.quote@ == quote@,
            r.program@.len() == 0,
            r.data@.len() == 0,
    {
        FunctionResult {
            version: RESULT_VERSION,
            chain: Chain::Solana,
            key: function,
            signer,
            serialized_tx,
            quote,
            program: Vec::new(),
            data: Vec::new(),
        }
    }

    /// Attests a Solana function run: puts the verification instruction of
    /// `enclave_signer` in front of `ixs`, signs the transaction with the
    /// enclave key alone, and wraps it with the quote. The first failure of
    /// `verification_error` aborts it; otherwise it succeeds whenever every
    /// payload of `ixs` fits the wire form, and the only other failure is
    /// `Generic`.
    pub fn generate_verifiable_solana_tx(
        enclave_signer: &Keypair,
        ixs: Vec<Instruction>,
        inputs: &VerifyInputs,
    ) -> (r: Result<FunctionResult, Error>)
        requires
            message_keys(ixs@) + 15 <= MESSAGE_KEY_LIMIT,
        ensures
            verification_error(keypair_pubkey(*enclave_signer), *inputs) is Some ==> r == Err::<
                FunctionResult,
                Error,
            >(verification_error(keypair_pubkey(*enclave_signer), *inputs)->0),
            verification_error(keypair_pubkey(*enclave_signer), *inputs) is None && payloads_fit(ixs@)
                ==> r is Ok,
            verification_error(keypair_pubkey(*enclave_signer), *inputs) is None && r is Err ==> r
                == Err::<FunctionResult, Error>(Error::Generic),
            r is Ok ==> r->Ok_0.version == RESULT_VERSION && r->Ok_0.chain == Chain::Solana
                && r->Ok_0.key == inputs.function->0 && r->Ok_0.signer@ == keypair_pubkey(
                *enclave_signer,
            ) && r->Ok_0.quote@ == inputs.quote->0@ && r->Ok_0.quote@.subrange(368, 432)
                == binding_report_data(r->Ok_0.signer@) && r->Ok_0.program@.len() == 0
                && r->Ok_0.data@.len() == 0,
            r is Ok ==> exists|tx: Transaction, mr_enclave: [u8; 32]|
                #![trigger wire_bytes(tx), verify_args_of(r->Ok_0.signer, *inputs, mr_enclave)]
                {
                    &&& wire_bytes(tx) == Some(r->Ok_0.serialized_tx@)
                    &&& mr_enclave@ == inputs.quote->0@.subrange(112, 144)
                    &&& fee_payer(tx) == inputs.payer->0@
                    &&& tx_blockhash(tx) == inputs.blockhash->0@
                    &&& signed_keys(tx) == Set::<Seq<u8>>::empty().insert(keypair_pubkey(*enclave_signer))
                    &&& tx_instructions(tx) == seq![
                        verification_view(verify_args_of(r->Ok_0.signer, *inputs, mr_enclave), *inputs),
                    ] + instructions_view(ixs@)
                },
    {
        let signer = keypair_address(enclave_signer);
        let (quote, all) = match verification_instructions(&signer, inputs, ixs) {
            Ok(v) => v,
            Err(e) => return Err(e),
        };
        let ghost first = all@[0];
        proof {
            lemma_message_keys_front(first, ixs@);
            assert(all@ =~= seq![first] + ixs@);
            assert(metas_view(first.accounts@).len() == first.accounts@.len());
            assert(metas_view(first.accounts@)[1] == (first.accounts@[1].pubkey@, first.accounts@[1].is_signer, first.accounts@[1].is_writable));
            assert(signer_at(1));
            assert(first.accounts@[1].pubkey@ == signer@);
            assert(first.accounts@[1].is_signer);
            if payloads_fit(ixs@) {
                assert forall|i: int| 0 <= i < all@.len() implies #[trigger] all@[i].data@.len() <= u16::MAX by {
                    if i > 0 {
                        assert(all@[i] == ixs@[i - 1]);
                    }
                }
            }
        }
        let payer = inputs.payer.unwrap();
        let blockhash = inputs.blockhash.unwrap();
        let mut tx = unsigned_transaction(&all, &payer);
        proof {
            assert(0 < all@[0].accounts@.len());
            assert(all@[0].accounts@[1].is_signer);
        }
        if !partial_sign(&mut tx, enclave_signer, &blockhash) {
            return Err(Error::Generic);
        }
        let serialized_tx = match serialize_transaction(&tx) {
            Some(b) => b,
            None => return Err(Error::Generic),
        };
        proof {
            let args = verify_args_of(signer, *inputs, quote.mr_enclave);
            let keys = verify_keys(args, inputs.function_account->0@, inputs.queue_account->0@, inputs.verifier_account->0@);
            let pubkeys = first.accounts@.map_values(|m: AccountMeta| m.pubkey@);
            assert(metas_view(first.accounts@) == account_table(keys));
            assert forall|i: int| 0 <= i < pubkeys.len() implies pubkeys[i] == keys[i] by {
                assert(metas_view(first.accounts@)[i] == account_table(keys)[i]);
            }
            assert(pubkeys =~= keys);
            assert(instruction_view(first) == verification_view(args, *inputs));
            assert(instructions_view(all@) =~= seq![verification_view(args, *inputs)] + instructions_view(ixs@));
            assert(wire_bytes(tx) == Some(serialized_tx@));
            assert(quote.mr_enclave@ == inputs.quote->0@.subrange(112, 144));
            assert(Set::<Seq<u8>>::empty().insert(keypair_pubkey(*enclave_signer)) == signed_keys(tx));
        }
        Ok(FunctionResult::solana(inputs.function.unwrap(), signer, serialized_tx, quote.raw))
    }
}

/// The lowercase hexadecimal digits.
pub open spec fn hex_chars() -> Seq<char> {
    seq!['0', '1', '2', '3', '4', '5', '6', '7', '8', '9', 'a', 'b', 'c', 'd', 'e', 'f']
}

/// Lowercase hexadecimal text of `b`: two digits per byte, high digit first.
pub open spec fn hex_of(b: Seq<u8>) -> Seq<char> {
    Seq::new(
        2 * b.len(),
        |i: int|
            if i % 2 == 0 {
                hex_chars()[b[i / 2] as int / 16]
            } else {
                hex_chars()[b[i / 2] as int % 16]
            },
    )
}

/// Relies on hex::encode: two lowercase digits per byte, high digit first.
#[verifier::external_body]
fn encode_hex(b: &[u8]) -> (r: String)
    ensures
        r@ == hex_of(b@),
{
    hex::encode(b)
}

/// The marker that starts the line carrying a result.
pub open spec fn output_marker() -> Seq<char> {
    "FN_OUT: "@
}

impl FunctionResult {
    /// The line that carries a result out of the enclave: the marker
    /// `FN_OUT: ` followed by the hexadecimal text of the result's JSON form.
    pub fn output_line(json: &[u8]) -> (r: String)
        ensures
            r@ == output_marker() + hex_of(json@),
    {
        let hex = encode_hex(json);
        let mut line = String::from_str("FN_OUT: ");
        line.append(hex.as_str());
        line
    }
}

} // verus!
