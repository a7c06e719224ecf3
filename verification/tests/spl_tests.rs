use solana_sdk::pubkey::Pubkey;
use solana_utils::address::Address;
use solana_utils::spl::get_ata;
use solana_utils::utils::pubkey_from_str;

const TOKEN_PROGRAM: &str = "TokenkegQfeZyiNwAJbNbGKPFXCWuBvf9Ss623VQ5DA";
const ASSOCIATED_TOKEN_PROGRAM: &str = "ATokenGPvbdGVxr1b2hvZbsiqW5xWH25efTNsLJA8knL";
const USDC_MINT: &str = "EPjFWdd5AufqSSqeM2qN1xzybapC8G4wEGGkZwyTDt1v";
const WRAPPED_SOL_MINT: &str = "So11111111111111111111111111111111111111112";

fn derived_by_hand(wallet: &Address, mint: &Address) -> [u8; 32] {
    let token_program = pubkey_from_str(TOKEN_PROGRAM).unwrap().to_bytes();
    let program = Pubkey::new_from_array(pubkey_from_str(ASSOCIATED_TOKEN_PROGRAM).unwrap().to_bytes());
    let (address, _bump) = Pubkey::find_program_address(
        &[&wallet.to_bytes(), &token_program, &mint.to_bytes()],
        &program,
    );
    address.to_bytes()
}

#[test]
fn get_ata_is_the_program_derived_address_of_wallet_and_mint() {
    let mint = pubkey_from_str(USDC_MINT).unwrap();
    for seed in [1u8, 2, 77, 255] {
        let wallet = Address::new_from_array([seed; 32]);
        assert_eq!(get_ata(&wallet, &mint).to_bytes(), derived_by_hand(&wallet, &mint));
    }
}

#[test]
fn get_ata_is_neither_of_its_inputs() {
    let wallet = Address::new_from_array([5u8; 32]);
    let mint = pubkey_from_str(WRAPPED_SOL_MINT).unwrap();
    let ata = get_ata(&wallet, &mint);
    assert_ne!(ata, wallet);
    assert_ne!(ata, mint);
}

#[test]
fn get_ata_is_a_function_of_its_inputs() {
    let wallet = Address::new_from_array([5u8; 32]);
    let other_wallet = Address::new_from_array([6u8; 32]);
    let mint = pubkey_from_str(USDC_MINT).unwrap();
    let other_mint = pubkey_from_str(WRAPPED_SOL_MINT).unwrap();
    assert_eq!(get_ata(&wallet, &mint), get_ata(&wallet, &mint));
    assert_ne!(get_ata(&wallet, &mint), get_ata(&other_wallet, &mint));
    assert_ne!(get_ata(&wallet, &mint), get_ata(&wallet, &other_mint));
    assert_ne!(get_ata(&wallet, &mint), get_ata(&mint, &wallet));
}

#[test]
fn get_ata_lies_off_the_curve() {
    let wallet = Address::new_from_array([9u8; 32]);
    let mint = pubkey_from_str(USDC_MINT).unwrap();
    let ata = Pubkey::new_from_array(get_ata(&wallet, &mint).to_bytes());
    assert!(!ata.is_on_curve());
}
