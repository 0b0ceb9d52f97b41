use vstd::prelude::*;
use vstd::bytes::{lemma_auto_spec_u64_to_from_le_bytes, spec_u64_to_le_bytes, u64_to_le_bytes};
use vstd::string::StringSliceAdditionalSpecFns;
use crate::address::{
    function_quote_address, function_quote_seeds, permission_address, permission_seeds,
    program_address, state_address, state_seeds, Address, ATTESTATION_PID,
};
use crate::codec::{discriminator_of, global_namespace, ix_discriminator};
use crate::error::Error;
use crate::records::{
    address_at, is_function_record, is_queue_record, is_verifier_record,
    load_function_record, load_queue_record, load_verifier_record,
};

verus! {

/// One account of an instruction, with its signer and writable flags.
#[derive(Clone, Copy, Debug, PartialEq, Eq)]
pub struct AccountMeta {
    pub pubkey: Address,
    pub is_signer: bool,
    pub is_writable: bool,
}

/// An instruction for an on-chain program: the program, its ordered
/// accounts and its payload.
#[derive(Clone, Debug, PartialEq, Eq)]
pub struct Instruction {
    pub program_id: Address,
    pub accounts: Vec<AccountMeta>,
    pub data: Vec<u8>,
}

/// The accounts of a function verification, in the order the verifying
/// program reads them.
#[derive(Clone, Copy, Debug, PartialEq, Eq)]
pub struct FunctionVerify {
    pub function: Address,
    pub fn_signer: Address,
    pub fn_quote: Address,
    pub verifier_quote: Address,
    pub secured_signer: Address,
    pub attestation_queue: Address,
    pub escrow: Address,
    pub receiver: Address,
    pub verifier_permission: Address,
    pub fn_permission: Address,
    pub state: Address,
    pub token_program: Address,
    pub payer: Address,
    pub system_program: Address,
}

/// The payload of a function verification.
#[derive(Clone, Copy, Debug, PartialEq, Eq)]
pub struct FunctionVerifyParams {
    pub observed_time: i64,
    pub next_allowed_timestamp: i64,
    pub is_failure: bool,
    pub mr_enclave: [u8; 32],
}

/// What the caller supplies to build a function verification.
#[derive(Clone, Copy, Debug, PartialEq, Eq)]
pub struct FunctionVerifyArgs {
    pub function: Address,
    pub fn_signer: Address,
    pub reward_receiver: Address,
    pub verifier: Address,
    pub payer: Address,
    pub timestamp: i64,
    pub next_allowed_timestamp: i64,
    pub is_failure: bool,
    pub mr_enclave: [u8; 32],
}

/// The length of a verification payload.
pub const PARAMS_LEN: usize = 57;

/// The number of accounts of a function verification.
pub const VERIFY_ACCOUNTS: usize = 14;

/// The address of the token program, `TokenkegQfeZyiNwAJbNbGKPFXCWuBvf9Ss623VQ5DA`.
pub open spec fn token_program_bytes() -> Seq<u8> {
    seq![
        6u8, 221u8, 246u8, 225u8, 215u8, 101u8, 161u8, 147u8, 217u8, 203u8, 225u8, 70u8, 206u8,
        235u8, 121u8, 172u8, 28u8, 180u8, 133u8, 237u8, 95u8, 91u8, 55u8, 145u8, 58u8, 140u8,
        245u8, 133u8, 126u8, 255u8, 0u8, 169u8,
    ]
}

/// The address of the system program: 32 zero bytes.
pub open spec fn system_program_bytes() -> Seq<u8> {
    Seq::new(32, |i: int| 0u8)
}

/// Relies on spl_token::ID, declared as `TokenkegQfeZyiNwAJbNbGKPFXCWuBvf9Ss623VQ5DA`.
#[verifier::external_body]
fn token_program_id() -> (r: Address)
    ensures
        r@ == token_program_bytes(),
{
    spl_token::ID.to_bytes()
}

/// Relies on solana_sdk::system_program::ID, declared as `11111111111111111111111111111111`.
#[verifier::external_body]
fn system_program_id() -> (r: Address)
    ensures
        r@ == system_program_bytes(),
{
    solana_sdk::system_program::ID.to_bytes()
}

/// Whether the account at position `i` of a verification must sign.
pub open spec fn signer_at(i: int) -> bool {
    i == 1 || i == 4 || i == 12
}

/// Whether the account at position `i` of a verification is writable.
pub open spec fn writable_at(i: int) -> bool {
    i == 0 || i == 2 || i == 6 || i == 7 || i == 10 || i == 12
}

/// The account list of a verification over its 14 addresses in order: the
/// function signer, the secured signer and the payer sign; the function, its
/// quote account, the escrow, the reward receiver, the state and the payer
/// are writable.
pub open spec fn account_table(keys: Seq<Seq<u8>>) -> Seq<(Seq<u8>, bool, bool)> {
    Seq::new(keys.len(), |i: int| (keys[i], signer_at(i), writable_at(i)))
}

/// What a list of account metas holds, as (address, signer, writable).
pub open spec fn metas_view(metas: Seq<AccountMeta>) -> Seq<(Seq<u8>, bool, bool)> {
    metas.map_values(|m: AccountMeta| (m.pubkey@, m.is_signer, m.is_writable))
}

/// The discriminator of the `function_verify` instruction.
pub open spec fn function_verify_discriminator() -> Seq<u8> {
    discriminator_of(global_namespace(), "function_verify".spec_bytes())
}

/// The encoding of an `i64`: its two's complement, little-endian.
pub open spec fn i64_le_bytes(x: i64) -> Seq<u8> {
    spec_u64_to_le_bytes(x as u64)
}

/// The payload of a verification: the discriminator, the observed time, the
/// next allowed time, a byte for the failure flag and the measurement.
pub open spec fn params_data(p: FunctionVerifyParams) -> Seq<u8> {
    function_verify_discriminator() + i64_le_bytes(p.observed_time)
        + i64_le_bytes(p.next_allowed_timestamp) + seq![if p.is_failure { 1u8 } else { 0u8 }]
        + p.mr_enclave@
}

impl FunctionVerify {
    /// The 14 addresses in the order of the account list.
    pub open spec fn keys(self) -> Seq<Seq<u8>> {
        seq![
            self.function@, self.fn_signer@, self.fn_quote@, self.verifier_quote@,
            self.secured_signer@, self.attestation_queue@, self.escrow@, self.receiver@,
            self.verifier_permission@, self.fn_permission@, self.state@, self.token_program@,
            self.payer@, self.system_program@,
        ]
    }

    /// The ordered, flagged account list that the verifying program expects.
    pub fn to_account_metas(&self) -> (r: Vec<AccountMeta>)
        ensures
            metas_view(r@) == account_table(self.keys()),
    {
        let r: Vec<AccountMeta> = vec![
            AccountMeta { pubkey: self.function, is_signer: false, is_writable: true },
            AccountMeta { pubkey: self.fn_signer, is_signer: true, is_writable: false },
            AccountMeta { pubkey: self.fn_quote, is_signer: false, is_writable: true },
            AccountMeta { pubkey: self.verifier_quote, is_signer: false, is_writable: false },
            AccountMeta { pubkey: self.secured_signer, is_signer: true, is_writable: false },
            AccountMeta { pubkey: self.attestation_queue, is_signer: false, is_writable: false },
            AccountMeta { pubkey: self.escrow, is_signer: false, is_writable: true },
            AccountMeta { pubkey: self.receiver, is_signer: false, is_writable: true },
            AccountMeta { pubkey: self.verifier_permission, is_signer: false, is_writable: false },
            AccountMeta { pubkey: self.fn_permission, is_signer: false, is_writable: false },
            AccountMeta { pubkey: self.state, is_signer: false, is_writable: true },
            AccountMeta { pubkey: self.token_program, is_signer: false, is_writable: false },
            AccountMeta { pubkey: self.payer, is_signer: true, is_writable: true },
            AccountMeta { pubkey: self.system_program, is_signer: false, is_writable: false },
        ];
        assert(metas_view(r@) =~= account_table(self.keys()));
        r
    }
}

impl FunctionVerifyParams {
    /// The discriminator of the `function_verify` instruction.
    pub fn discriminator() -> (r: [u8; 8])
        ensures
            r@ == function_verify_discriminator(),
    {
        ix_discriminator("function_verify")
    }

    /// The instruction payload: discriminator first, then the fields in order.
    pub fn data(&self) -> (r: Vec<u8>)
        ensures
            r@ == params_data(*self),
            r@.len() == PARAMS_LEN,
    {
        proof {
            lemma_auto_spec_u64_to_from_le_bytes();
        }
        let disc = Self::discriminator();
        let mut r: Vec<u8> = Vec::new();
        append(&mut r, disc.as_slice());
        let observed = u64_to_le_bytes(self.observed_time as u64);
        append(&mut r, observed.as_slice());
        let next = u64_to_le_bytes(self.next_allowed_timestamp as u64);
        append(&mut r, next.as_slice());
        r.push(if self.is_failure { 1u8 } else { 0u8 });
        append(&mut r, self.mr_enclave.as_slice());
        assert(r@ =~= params_data(*self));
        r
    }
}

/// Appends the bytes of `b` to `v`.
fn append(v: &mut Vec<u8>, b: &[u8])
    ensures
        final(v)@ == old(v)@ + b@,
{
    let mut i: usize = 0;
    while i < b.len()
        invariant
            i <= b@.len(),
            v@ == old(v)@ + b@.subrange(0, i as int),
        decreases b@.len() - i,
    {
        v.push(b[i]);
        i = i + 1;
    }
    assert(b@.subrange(0, b@.len() as int) == b@);
}

/// The verification instruction for the attestation program over `accounts`
/// with payload `params`.
pub fn build_ix(accounts: &FunctionVerify, params: &FunctionVerifyParams) -> (r: Instruction)
    ensures
        r.program_id@ == ATTESTATION_PID@,
        metas_view(r.accounts@) == account_table(accounts.keys()),
        r.data@ == params_data(*params),
        r.data@.len() == PARAMS_LEN,
{
    Instruction {
        program_id: ATTESTATION_PID,
        accounts: accounts.to_account_metas(),
        data: params.data(),
    }
}

/// The error of the first record, in the order function, queue, verifier,
/// that is missing (`MissingAccount`) or malformed (`AnchorParseError`).
pub open spec fn build_error(
    function_account: &Option<Vec<u8>>,
    queue_account: &Option<Vec<u8>>,
    verifier_account: &Option<Vec<u8>>,
) -> Option<Error> {
    if function_account is None {
        Some(Error::MissingAccount)
    } else if !is_function_record(function_account->0@) {
        Some(Error::AnchorParseError)
    } else if queue_account is None {
        Some(Error::MissingAccount)
    } else if !is_queue_record(queue_account->0@) {
        Some(Error::AnchorParseError)
    } else if verifier_account is None {
        Some(Error::MissingAccount)
    } else if !is_verifier_record(verifier_account->0@) {
        Some(Error::AnchorParseError)
    } else {
        None
    }
}

/// The 14 addresses of a verification, from the caller's arguments and the
/// encoded function, queue and verifier records.
pub open spec fn verify_keys(args: FunctionVerifyArgs, f: Seq<u8>, q: Seq<u8>, v: Seq<u8>) -> Seq<Seq<u8>> {
    let queue = address_at(f, 8);
    let authority = address_at(q, 8);
    seq![
        args.function@,
        args.fn_signer@,
        program_address(function_quote_seeds(args.function@), ATTESTATION_PID@).0,
        args.verifier@,
        address_at(v, 8),
        queue,
        address_at(f, 40),
        args.reward_receiver@,
        program_address(permission_seeds(authority, queue, args.verifier@), ATTESTATION_PID@).0,
        program_address(permission_seeds(authority, queue, args.function@), ATTESTATION_PID@).0,
        program_address(state_seeds(), ATTESTATION_PID@).0,
        token_program_bytes(),
        args.payer@,
        system_program_bytes(),
    ]
}

/// The payload fields that the caller's arguments give.
pub open spec fn verify_params(args: FunctionVerifyArgs) -> FunctionVerifyParams {
    FunctionVerifyParams {
        observed_time: args.timestamp,
        next_allowed_timestamp: args.next_allowed_timestamp,
        is_failure: args.is_failure,
        mr_enclave: args.mr_enclave,
    }
}

impl FunctionVerify {
    /// Builds the verification instruction for `args.function` from the
    /// function's record, the record of the queue that the function record
    /// names, and the verifier's quote record, each as read from the chain
    /// (`None` where the account does not exist).
    pub fn build(
        args: &FunctionVerifyArgs,
        function_account: &Option<Vec<u8>>,
        queue_account: &Option<Vec<u8>>,
        verifier_account: &Option<Vec<u8>>,
    ) -> (r: Result<Instruction, Error>)
        ensures
            match build_error(function_account, queue_account, verifier_account) {
                Some(e) => r == Err::<Instruction, Error>(e),
                None => r is Ok && r->Ok_0.program_id@ == ATTESTATION_PID@
                    && metas_view(r->Ok_0.accounts@) == account_table(verify_keys(
                        *args,
                        function_account->0@,
                        queue_account->0@,
                        verifier_account->0@,
                    )) && r->Ok_0.data@ == params_data(verify_params(*args))
                    && r->Ok_0.data@.len() == PARAMS_LEN,
            },
    {
        let fn_data = match load_function_record(function_account) {
            Ok(f) => f,
            Err(e) => return Err(e),
        };
        let queue = fn_data.attestation_queue;
        let queue_data = match load_queue_record(queue_account) {
            Ok(q) => q,
            Err(e) => return Err(e),
        };
        let quote_data = match load_verifier_record(verifier_account) {
            Ok(v) => v,
            Err(e) => return Err(e),
        };
        let accounts = FunctionVerify {
            function: args.function,
            fn_signer: args.fn_signer,
            fn_quote: function_quote_address(&args.function),
            verifier_quote: args.verifier,
            secured_signer: quote_data.secured_signer,
            attestation_queue: queue,
            escrow: fn_data.escrow,
            receiver: args.reward_receiver,
            verifier_permission: permission_address(&queue_data.authority, &queue, &args.verifier),
            fn_permission: permission_address(&queue_data.authority, &queue, &args.function),
            state: state_address(),
            token_program: token_program_id(),
            payer: args.payer,
            system_program: system_program_id(),
        };
        let params = FunctionVerifyParams {
            observed_time: args.timestamp,
            next_allowed_timestamp: args.next_allowed_timestamp,
            is_failure: args.is_failure,
            mr_enclave: args.mr_enclave,
        };
        let ix = build_ix(&accounts, &params);
        assert(accounts.keys() =~= verify_keys(
            *args,
            function_account->0@,
            queue_account->0@,
            verifier_account->0@,
        ));
        Ok(ix)
    }
}

/// Building a verification from well-formed function, queue and verifier
/// records succeeds, and building it twice from the same arguments and
/// records gives the same account list (the derived quote, permission and
/// state addresses included), with the same flags in the same order, and
/// the same payload bytes.
pub proof fn lemma_build_fixed(
    args1: FunctionVerifyArgs,
    args2: FunctionVerifyArgs,
    f: Option<Vec<u8>>,
    q: Option<Vec<u8>>,
    v: Option<Vec<u8>>,
)
    requires
        args1 == args2,
        f is Some && is_function_record(f->0@),
        q is Some && is_queue_record(q->0@),
        v is Some && is_verifier_record(v->0@),
    ensures
        build_error(&f, &q, &v) is None,
        account_table(verify_keys(args1, f->0@, q->0@, v->0@)) == account_table(
            verify_keys(args2, f->0@, q->0@, v->0@),
        ),
        params_data(verify_params(args1)) == params_data(verify_params(args2)),
        account_table(verify_keys(args1, f->0@, q->0@, v->0@)).len() == VERIFY_ACCOUNTS,
{
}

/// The flags of a verification's account list do not depend on its
/// addresses: exactly positions 1, 4 and 12 sign and exactly positions 0, 2,
/// 6, 7, 10 and 12 are writable.
pub proof fn lemma_account_flags(keys: Seq<Seq<u8>>, i: int)
    requires
        keys.len() == VERIFY_ACCOUNTS,
        0 <= i < VERIFY_ACCOUNTS,
    ensures
        account_table(keys)[i].0 == keys[i],
        account_table(keys)[i].1 <==> (i == 1 || i == 4 || i == 12),
        account_table(keys)[i].2 <==> (i == 0 || i == 2 || i == 6 || i == 7 || i == 10 || i == 12),
{
}

} // verus!
