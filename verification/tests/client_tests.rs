use solana_utils::account::{Account, Observed, Response};
use solana_utils::address::Address;
use solana_utils::commitment::{CommitmentConfig, CommitmentLevel};
use solana_utils::error::{ClientError, ErrorKind};
use solana_utils::rpc_client::RpcClient;

const NODE: &str = "http://127.0.0.1:8899";

fn client_without_key() -> RpcClient {
    RpcClient::new(NODE.to_string(), None)
}

fn key_text(seed: [u8; 32]) -> String {
    solana_sdk::signature::Keypair::new_from_array(seed).to_base58_string()
}

fn account(lamports: u64, data: Vec<u8>) -> Account {
    Account {
        lamports,
        data,
        owner: Address::new_from_array([4u8; 32]),
        executable: false,
        rent_epoch: 361,
    }
}

fn found(slot: u64, value: Account) -> Result<Observed<Option<Account>>, String> {
    Ok(Observed { slot, value: Some(value) })
}

fn missing(slot: u64) -> Result<Observed<Option<Account>>, String> {
    Ok(Observed { slot, value: None })
}

fn unreachable_node() -> Result<Observed<Option<Account>>, String> {
    Err("connection refused".to_string())
}

#[test]
fn new_client_asks_for_confirmed_state() {
    let client = client_without_key();
    assert_eq!(client.node_url(), NODE);
    assert_eq!(client.commitment(), CommitmentConfig::confirmed());
    assert_eq!(client.commitment().commitment, CommitmentLevel::Confirmed);
}

#[test]
fn client_without_key_has_no_payer() {
    let client = client_without_key();
    assert_eq!(client.payer_key(), None);
    assert!(client.payer().is_none());
}

#[test]
fn client_without_key_for_any_node() {
    for url in ["", "http://localhost:8899", "https://api.mainnet-beta.solana.com", "not a url"] {
        let client = RpcClient::new(url.to_string(), None);
        assert_eq!(client.payer_key(), None);
        assert_eq!(client.node_url(), url);
    }
}

#[test]
fn client_with_key_pays_from_the_public_key() {
    let client = RpcClient::new(NODE.to_string(), Some(key_text([0u8; 32])));
    let expected = Address::new_from_array([
        59, 106, 39, 188, 206, 182, 164, 45, 98, 163, 168, 208, 42, 111, 13, 115, 101, 50, 21, 119,
        29, 226, 67, 166, 58, 192, 72, 161, 139, 89, 218, 41,
    ]);
    assert_eq!(client.payer_key(), Some(expected));
    assert_eq!(client.payer().unwrap().pubkey(), expected);
    assert_eq!(client.payer().unwrap().secret_bytes(), [0u8; 32]);
}

#[test]
fn try_new_accepts_what_new_accepts() {
    let without = RpcClient::try_new(NODE.to_string(), None).unwrap();
    assert_eq!(without.payer_key(), None);
    assert_eq!(without.commitment(), CommitmentConfig::confirmed());
    let with = RpcClient::try_new(NODE.to_string(), Some(key_text([3u8; 32]))).unwrap();
    let same = RpcClient::new(NODE.to_string(), Some(key_text([3u8; 32])));
    assert!(with.payer_key().is_some());
    assert_eq!(with.payer_key(), same.payer_key());
    assert_eq!(with.node_url(), NODE);
}

#[test]
fn try_new_refuses_a_text_that_is_no_keypair() {
    for key in ["", "abc", "TokenkegQfeZyiNwAJbNbGKPFXCWuBvf9Ss623VQ5DA", "0O0O0O"] {
        let result = RpcClient::try_new(NODE.to_string(), Some(key.to_string()));
        let error = result.unwrap_err();
        assert_eq!(error, ClientError::InvalidPayerKey);
        assert_eq!(error.kind(), ErrorKind::Configuration);
    }
}

#[test]
fn get_account_returns_the_account_that_was_found() {
    let client = client_without_key();
    let address = Address::new_from_array([1u8; 32]);
    let record = account(42, vec![1, 2, 3]);
    assert_eq!(client.get_account(&address, found(17, record.clone())), Ok(record));
}

#[test]
fn get_account_reports_a_missing_account_as_not_found() {
    let client = client_without_key();
    let address = Address::new_from_array([1u8; 32]);
    let result = client.get_account(&address, missing(17));
    assert_eq!(result, Err(ClientError::AccountNotFound(address)));
    let error = result.unwrap_err();
    assert_eq!(error.kind(), ErrorKind::NotFound);
    assert_ne!(error.kind(), ErrorKind::Transport);
}

#[test]
fn get_account_hands_on_a_transport_failure() {
    let client = client_without_key();
    let address = Address::new_from_array([1u8; 32]);
    let result = client.get_account(&address, unreachable_node());
    assert_eq!(result, Err(ClientError::Transport("connection refused".to_string())));
    assert_eq!(result.unwrap_err().kind(), ErrorKind::Transport);
}

#[test]
fn get_multiple_accounts_keeps_one_slot_per_address() {
    let client = client_without_key();
    let addresses = [
        Address::new_from_array([1u8; 32]),
        Address::new_from_array([2u8; 32]),
        Address::new_from_array([3u8; 32]),
    ];
    let slots = vec![Some(account(1, vec![1])), None, Some(account(3, vec![3, 3, 3]))];
    let result = client.get_multiple_accounts(&addresses, Ok(slots.clone())).unwrap();
    assert_eq!(result.len(), addresses.len());
    assert_eq!(result, slots);
    assert_eq!(result[1], None);
    assert_eq!(result[2].as_ref().unwrap().lamports, 3);
}

#[test]
fn get_multiple_accounts_has_as_many_slots_as_addresses() {
    let client = client_without_key();
    for count in [0usize, 1, 2, 5, 100] {
        let addresses: Vec<Address> =
            (0..count).map(|i| Address::new_from_array([i as u8; 32])).collect();
        let slots: Vec<Option<Account>> = (0..count)
            .map(|i| if i % 2 == 0 { Some(account(i as u64, vec![i as u8])) } else { None })
            .collect();
        let result = client.get_multiple_accounts(&addresses, Ok(slots.clone())).unwrap();
        assert_eq!(result.len(), count);
        assert_eq!(result, slots);
    }
}

#[test]
fn get_multiple_accounts_keeps_empty_slots_for_missing_accounts() {
    let client = client_without_key();
    let addresses = [Address::new_from_array([1u8; 32]), Address::new_from_array([2u8; 32])];
    let result = client.get_multiple_accounts(&addresses, Ok(vec![None, None]));
    assert_eq!(result, Ok(vec![None, None]));
}

#[test]
fn get_multiple_accounts_refuses_a_reply_of_another_length() {
    let client = client_without_key();
    let addresses = [Address::new_from_array([1u8; 32]), Address::new_from_array([2u8; 32])];
    let short = client.get_multiple_accounts(&addresses, Ok(vec![None]));
    assert_eq!(short, Err(ClientError::ReplyLengthMismatch { expected: 2, received: 1 }));
    let long = client.get_multiple_accounts(&addresses, Ok(vec![None, None, None]));
    assert_eq!(long, Err(ClientError::ReplyLengthMismatch { expected: 2, received: 3 }));
    let none_asked = client.get_multiple_accounts(&[], Ok(vec![Some(account(1, vec![]))]));
    assert_eq!(none_asked, Err(ClientError::ReplyLengthMismatch { expected: 0, received: 1 }));
    assert_eq!(short.unwrap_err().kind(), ErrorKind::Transport);
}

#[test]
fn get_multiple_accounts_hands_on_a_transport_failure() {
    let client = client_without_key();
    let addresses = [Address::new_from_array([1u8; 32])];
    let result = client.get_multiple_accounts(&addresses, Err("timed out".to_string()));
    assert_eq!(result, Err(ClientError::Transport("timed out".to_string())));
}

#[test]
fn get_account_with_commitment_tags_the_answer_with_the_level() {
    let client = client_without_key();
    let record = account(9, vec![8, 7]);
    for level in
        [CommitmentConfig::processed(), CommitmentConfig::confirmed(), CommitmentConfig::finalized()]
    {
        let result = client.get_account_with_commitment(level, found(1234, record.clone()));
        assert_eq!(
            result,
            Ok(Response { commitment: level, slot: 1234, value: Some(record.clone()) })
        );
        let empty = client.get_account_with_commitment(level, missing(1235));
        assert_eq!(empty, Ok(Response { commitment: level, slot: 1235, value: None }));
    }
}

#[test]
fn get_account_with_commitment_hands_on_a_transport_failure() {
    let client = client_without_key();
    let result = client.get_account_with_commitment(CommitmentConfig::finalized(), unreachable_node());
    assert_eq!(result, Err(ClientError::Transport("connection refused".to_string())));
}

#[test]
fn account_exists_is_false_for_an_address_without_an_account() {
    let client = client_without_key();
    for level in
        [CommitmentConfig::processed(), CommitmentConfig::confirmed(), CommitmentConfig::finalized()]
    {
        assert_eq!(client.account_exists(level, missing(5)), Ok(false));
    }
}

#[test]
fn account_exists_is_true_for_an_account_that_was_found() {
    let client = client_without_key();
    let result = client.account_exists(CommitmentConfig::confirmed(), found(5, account(0, vec![])));
    assert_eq!(result, Ok(true));
}

#[test]
fn account_exists_hands_on_a_transport_failure() {
    let client = client_without_key();
    let result = client.account_exists(CommitmentConfig::confirmed(), unreachable_node());
    assert_eq!(result, Err(ClientError::Transport("connection refused".to_string())));
}

#[test]
fn every_error_has_its_kind() {
    let address = Address::new_from_array([1u8; 32]);
    assert_eq!(ClientError::MissingPayer.kind(), ErrorKind::Configuration);
    assert_eq!(ClientError::InvalidPayerKey.kind(), ErrorKind::Configuration);
    assert_eq!(ClientError::Transport(String::new()).kind(), ErrorKind::Transport);
    assert_eq!(
        ClientError::ReplyLengthMismatch { expected: 1, received: 0 }.kind(),
        ErrorKind::Transport
    );
    assert_eq!(ClientError::UnexpectedReply.kind(), ErrorKind::Transport);
    assert_eq!(ClientError::AccountNotFound(address).kind(), ErrorKind::NotFound);
    assert_eq!(ClientError::AccountDataTooShort { len: 3 }.kind(), ErrorKind::Decode);
    assert_eq!(ClientError::InvalidAccountData.kind(), ErrorKind::Decode);
}
