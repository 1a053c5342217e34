use fair_launch::account::AccountId;
use fair_launch::cpamm::proxy_initialize;
use fair_launch::cpamm::AccountMeta;
use fair_launch::cpamm::ErrorCode;
use fair_launch::cpamm::ProxyInitialize;

fn id(n: u128) -> AccountId {
    AccountId { lo: n, hi: n + 1000 }
}

fn accounts() -> ProxyInitialize {
    ProxyInitialize {
        amm_id: id(1),
        amm_authority: id(2),
        amm_open_orders: id(3),
        lp_mint: id(4),
        coin_mint: id(5),
        pc_mint: id(6),
        coin_vault: id(7),
        pc_vault: id(8),
        amm_target_orders: id(9),
        pool_withdraw_queue: id(10),
        token_program: id(11),
        system_program: id(12),
        rent: id(13),
    }
}

#[test]
fn bootstrap_instruction_bytes() {
    let ix = proxy_initialize(&accounts(), 0xfe, 0x0102030405060708, 1, u64::MAX);
    let mut expected: Vec<u8> = vec![0xfe];
    expected.extend_from_slice(&[8, 7, 6, 5, 4, 3, 2, 1]);
    expected.extend_from_slice(&[1, 0, 0, 0, 0, 0, 0, 0]);
    expected.extend_from_slice(&[0xff; 8]);
    assert_eq!(ix.data, expected);
    assert_eq!(ix.data.len(), 25);
}

#[test]
fn bootstrap_instruction_accounts() {
    let ix = proxy_initialize(&accounts(), 1, 2, 3, 4);
    assert_eq!(ix.program_id, id(1));
    assert_eq!(ix.accounts.len(), 13);
    for (i, meta) in ix.accounts.iter().enumerate() {
        assert_eq!(meta.pubkey, id(i as u128 + 1));
        assert!(!meta.is_signer);
        assert_eq!(meta.is_writable, i < 10);
    }
}

#[test]
fn account_meta_constructors() {
    let w = AccountMeta::new(id(5), true);
    assert_eq!(w, AccountMeta { pubkey: id(5), is_signer: true, is_writable: true });
    let r = AccountMeta::new_readonly(id(5), false);
    assert_eq!(r, AccountMeta { pubkey: id(5), is_signer: false, is_writable: false });
}

#[test]
fn authority_is_validated() {
    let a = accounts();
    assert_eq!(a.validate_authority(&id(2)), Ok(()));
    assert_eq!(a.validate_authority(&id(3)), Err(ErrorCode::InvalidAuthority));
    let near = AccountId { lo: 2, hi: 0 };
    assert_eq!(a.validate_authority(&near), Err(ErrorCode::InvalidAuthority));
}

#[test]
fn unset_address() {
    assert!(AccountId::unset().is_unset());
    assert!(!AccountId { lo: 0, hi: 1 }.is_unset());
    assert!(!AccountId { lo: 1, hi: 0 }.is_unset());
    assert!(id(1).same(&id(1)));
    assert!(!id(1).same(&id(2)));
}
