use anchor_lang::solana_program::pubkey::Pubkey;
use mcp_token::address::Address;
use mcp_token::authority::{derive_proxy, rederive_proxy, signer_seeds_for, SigningProxy};

fn program() -> Address {
    Address::new([0x42; 32])
}

fn mint(n: u8) -> Address {
    Address::new([n; 32])
}

fn key(address: &Address) -> Pubkey {
    Pubkey::new_from_array(address.to_bytes())
}

#[test]
fn signer_seeds_are_tag_mint_and_bump() {
    let seeds = signer_seeds_for(&mint(7), 254);
    assert_eq!(seeds.len(), 3);
    assert_eq!(seeds[0], b"mint-authority".to_vec());
    assert_eq!(seeds[0].len(), 14);
    assert_eq!(seeds[1], vec![7u8; 32]);
    assert_eq!(seeds[2], vec![254u8]);
}

#[test]
fn derive_proxy_finds_the_program_address_of_the_mint() {
    for n in 0..20u8 {
        let seeds: [&[u8]; 2] = [b"mint-authority", &[n; 32]];
        let (address, bump) = Pubkey::find_program_address(&seeds, &key(&program()));
        let proxy = derive_proxy(&program(), &mint(n)).unwrap();
        assert_eq!(proxy.address.to_bytes(), address.to_bytes());
        assert_eq!(proxy.bump, bump);
        assert_ne!(proxy.address, mint(n));
        assert_ne!(proxy.address, program());
    }
}

#[test]
fn derive_proxy_depends_on_mint_and_program() {
    let a = derive_proxy(&program(), &mint(1)).unwrap();
    let b = derive_proxy(&program(), &mint(2)).unwrap();
    let c = derive_proxy(&Address::new([0x43; 32]), &mint(1)).unwrap();
    assert_ne!(a.address, b.address);
    assert_ne!(a.address, c.address);
    assert_eq!(derive_proxy(&program(), &mint(1)), Some(a));
}

#[test]
fn rederive_proxy_gives_the_derived_proxy_back() {
    for n in 0..20u8 {
        let proxy = derive_proxy(&program(), &mint(n)).unwrap();
        assert_eq!(rederive_proxy(&program(), &mint(n), proxy.bump), Some(proxy));
    }
}

#[test]
fn rederive_proxy_follows_create_program_address() {
    let mut refused = 0;
    let mut derived = 0;
    for bump in 0..=255u8 {
        let seeds: [&[u8]; 3] = [b"mint-authority", &[5; 32], &[bump]];
        let expected = Pubkey::create_program_address(&seeds, &key(&program())).ok();
        let proxy = rederive_proxy(&program(), &mint(5), bump);
        match expected {
            Some(address) => {
                derived += 1;
                assert_eq!(
                    proxy,
                    Some(SigningProxy { address: Address::new(address.to_bytes()), bump })
                );
            }
            None => {
                refused += 1;
                assert_eq!(proxy, None);
            }
        }
    }
    assert!(refused > 0);
    assert!(derived > 0);
}

#[test]
fn proxies_compare_by_address_and_bump() {
    let proxy = SigningProxy { address: mint(1), bump: 3 };
    assert!(proxy.same(&SigningProxy { address: mint(1), bump: 3 }));
    assert!(!proxy.same(&SigningProxy { address: mint(1), bump: 4 }));
    assert!(!proxy.same(&SigningProxy { address: mint(2), bump: 3 }));
}
