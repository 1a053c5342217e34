//! The instruction that bootstraps the trading venue: which accounts it
//! names, in which order and with which rights, and the bytes it carries.

use crate::account::AccountId;
use vstd::bytes::spec_u64_to_le_bytes;
use vstd::bytes::u64_to_le_bytes;
use vstd::prelude::*;

verus! {

/// Why a venue request was rejected.
#[derive(Clone, Copy, Debug, PartialEq, Eq, Structural)]
pub enum ErrorCode {
    /// The venue's authority is not the expected one.
    InvalidAuthority,
}

/// The parameters that the venue is initialized with.
#[derive(Clone, Copy, Debug, PartialEq, Eq, Structural)]
pub struct AmmParams {
    pub nonce: u8,
    pub open_time: u64,
    pub init_pc_amount: u64,
    pub init_coin_amount: u64,
}

/// One account named by an instruction, and what the instruction may do with
/// it.
#[derive(Clone, Copy, Debug, PartialEq, Eq, Structural)]
pub struct AccountMeta {
    pub pubkey: AccountId,
    pub is_signer: bool,
    pub is_writable: bool,
}

impl AccountMeta {
    /// An account that the instruction may write.
    pub open spec fn spec_new(pubkey: AccountId, is_signer: bool) -> AccountMeta {
        AccountMeta { pubkey, is_signer, is_writable: true }
    }

    /// An account that the instruction may only read.
    pub open spec fn spec_new_readonly(pubkey: AccountId, is_signer: bool) -> AccountMeta {
        AccountMeta { pubkey, is_signer, is_writable: false }
    }

    /// An account that the instruction may write.
    pub fn new(pubkey: AccountId, is_signer: bool) -> (r: AccountMeta)
        ensures
            r == Self::spec_new(pubkey, is_signer),
    {
        AccountMeta { pubkey, is_signer, is_writable: true }
    }

    /// An account that the instruction may only read.
    pub fn new_readonly(pubkey: AccountId, is_signer: bool) -> (r: AccountMeta)
        ensures
            r == Self::spec_new_readonly(pubkey, is_signer),
    {
        AccountMeta { pubkey, is_signer, is_writable: false }
    }
}

/// An instruction for another program.
#[derive(Debug)]
pub struct Instruction {
    pub program_id: AccountId,
    pub accounts: Vec<AccountMeta>,
    pub data: Vec<u8>,
}

/// The accounts of the venue bootstrap.
#[derive(Clone, Copy, Debug)]
pub struct ProxyInitialize {
    pub amm_id: AccountId,
    pub amm_authority: AccountId,
    pub amm_open_orders: AccountId,
    pub lp_mint: AccountId,
    pub coin_mint: AccountId,
    pub pc_mint: AccountId,
    pub coin_vault: AccountId,
    pub pc_vault: AccountId,
    pub amm_target_orders: AccountId,
    pub pool_withdraw_queue: AccountId,
    pub token_program: AccountId,
    pub system_program: AccountId,
    pub rent: AccountId,
}

impl ProxyInitialize {
    /// The accounts that the bootstrap instruction names: the ten venue
    /// accounts, writable, then the token program, the system program and the
    /// rent account, read-only. None signs.
    pub open spec fn account_metas(self) -> Seq<AccountMeta> {
        seq![
            AccountMeta::spec_new(self.amm_id, false),
            AccountMeta::spec_new(self.amm_authority, false),
            AccountMeta::spec_new(self.amm_open_orders, false),
            AccountMeta::spec_new(self.lp_mint, false),
            AccountMeta::spec_new(self.coin_mint, false),
            AccountMeta::spec_new(self.pc_mint, false),
            AccountMeta::spec_new(self.coin_vault, false),
            AccountMeta::spec_new(self.pc_vault, false),
            AccountMeta::spec_new(self.amm_target_orders, false),
            AccountMeta::spec_new(self.pool_withdraw_queue, false),
            AccountMeta::spec_new_readonly(self.token_program, false),
            AccountMeta::spec_new_readonly(self.system_program, false),
            AccountMeta::spec_new_readonly(self.rent, false),
        ]
    }

    /// Accepts the venue's authority only where it is the expected one.
    pub fn validate_authority(&self, expected_authority: &AccountId) -> (r: Result<(), ErrorCode>)
        ensures
            r is Ok <==> self.amm_authority == *expected_authority,
            r is Err ==> r == Err::<(), ErrorCode>(ErrorCode::InvalidAuthority),
    {
        if !self.amm_authority.same(expected_authority) {
            return Err(ErrorCode::InvalidAuthority);
        }
        Ok(())
    }
}

/// The bytes of the bootstrap instruction: the nonce, then the open time, the
/// initial value amount and the initial asset amount, each as eight bytes,
/// least significant first.
pub open spec fn instruction_data(
    nonce: u8,
    open_time: u64,
    init_pc_amount: u64,
    init_coin_amount: u64,
) -> Seq<u8> {
    seq![nonce] + spec_u64_to_le_bytes(open_time) + spec_u64_to_le_bytes(init_pc_amount)
        + spec_u64_to_le_bytes(init_coin_amount)
}

/// Builds the instruction that initializes the venue. It is addressed to the
/// venue itself; the caller invokes it, once.
pub fn proxy_initialize(
    accounts: &ProxyInitialize,
    nonce: u8,
    open_time: u64,
    init_pc_amount: u64,
    init_coin_amount: u64,
) -> (r: Instruction)
    ensures
        r.program_id == accounts.amm_id,
        r.accounts@ == accounts.account_metas(),
        r.data@ == instruction_data(nonce, open_time, init_pc_amount, init_coin_amount),
{
    let mut ix_data: Vec<u8> = Vec::new();
    ix_data.push(nonce);
    let mut open_time_bytes = u64_to_le_bytes(open_time);
    ix_data.append(&mut open_time_bytes);
    let mut pc_bytes = u64_to_le_bytes(init_pc_amount);
    ix_data.append(&mut pc_bytes);
    let mut coin_bytes = u64_to_le_bytes(init_coin_amount);
    ix_data.append(&mut coin_bytes);

    let mut metas: Vec<AccountMeta> = Vec::new();
    metas.push(AccountMeta::new(accounts.amm_id, false));
    metas.push(AccountMeta::new(accounts.amm_authority, false));
    metas.push(AccountMeta::new(accounts.amm_open_orders, false));
    metas.push(AccountMeta::new(accounts.lp_mint, false));
    metas.push(AccountMeta::new(accounts.coin_mint, false));
    metas.push(AccountMeta::new(accounts.pc_mint, false));
    metas.push(AccountMeta::new(accounts.coin_vault, false));
    metas.push(AccountMeta::new(accounts.pc_vault, false));
    metas.push(AccountMeta::new(accounts.amm_target_orders, false));
    metas.push(AccountMeta::new(accounts.pool_withdraw_queue, false));
    metas.push(AccountMeta::new_readonly(accounts.token_program, false));
    metas.push(AccountMeta::new_readonly(accounts.system_program, false));
    metas.push(AccountMeta::new_readonly(accounts.rent, false));
    assert(metas@ =~= accounts.account_metas());
    assert(ix_data@ =~= instruction_data(nonce, open_time, init_pc_amount, init_coin_amount));
    Instruction { program_id: accounts.amm_id, accounts: metas, data: ix_data }
}

} // verus!
