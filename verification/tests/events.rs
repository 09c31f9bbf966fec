use keypom::events::{add_delete_key_logs, add_new_key_logs, AddOrDeleteKeyLog, NftBurnLog, NftMintLog};
use keypom::types::{AccountId, PublicKey};

fn account(name: &str) -> AccountId {
    AccountId::new(name.as_bytes().to_vec())
}

#[test]
fn new_key_appends_a_mint_and_a_key_record() {
    let mut mints: Vec<NftMintLog> = Vec::new();
    let mut keys: Vec<AddOrDeleteKeyLog> = Vec::new();
    let pk = PublicKey::new([4u8; 32]);
    add_new_key_logs(
        &mut mints,
        &mut keys,
        &account("alice.near"),
        &String::from("drop-1"),
        &pk,
        &String::from("drop-1:0"),
        &Some(String::from("meta")),
    );
    add_new_key_logs(
        &mut mints,
        &mut keys,
        &account("bob.near"),
        &String::from("drop-2"),
        &pk,
        &String::from("drop-2:0"),
        &None,
    );
    assert_eq!(mints.len(), 2);
    assert_eq!(keys.len(), 2);
    assert_eq!(mints[0].owner_id.bytes, b"alice.near".to_vec());
    assert_eq!(mints[0].token_ids, vec![String::from("drop-1:0")]);
    assert_eq!(mints[0].memo, None);
    assert_eq!(keys[0].owner_id.bytes, b"alice.near".to_vec());
    assert_eq!(keys[0].drop_id, "drop-1");
    assert_eq!(keys[0].public_key.data, [4u8; 32]);
    assert_eq!(keys[0].metadata, Some(String::from("meta")));
    assert_eq!(mints[1].owner_id.bytes, b"bob.near".to_vec());
    assert_eq!(keys[1].drop_id, "drop-2");
    assert_eq!(keys[1].metadata, None);
}

#[test]
fn deleted_key_appends_a_burn_and_a_key_record() {
    let mut burns: Vec<NftBurnLog> = Vec::new();
    let mut keys: Vec<AddOrDeleteKeyLog> = Vec::new();
    let pk = PublicKey::new([5u8; 32]);
    add_delete_key_logs(
        &mut burns,
        &mut keys,
        &account("alice.near"),
        &String::from("drop-1"),
        &pk,
        &String::from("drop-1:3"),
        &None,
    );
    assert_eq!(burns.len(), 1);
    assert_eq!(keys.len(), 1);
    assert_eq!(burns[0].owner_id.bytes, b"alice.near".to_vec());
    assert_eq!(burns[0].token_ids, vec![String::from("drop-1:3")]);
    assert_eq!(burns[0].authorized_id, None);
    assert_eq!(burns[0].memo, None);
    assert_eq!(keys[0].owner_id.bytes, b"alice.near".to_vec());
    assert_eq!(keys[0].drop_id, "drop-1");
    assert_eq!(keys[0].public_key.data, [5u8; 32]);
    assert_eq!(keys[0].metadata, None);
}
