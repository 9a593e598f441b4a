use preaching_partner_server::database::outcomes::{delete_congregation_statements, logout_statements};
use preaching_partner_server::database::queries::{Query, SqlParam};
use blake2::Digest;
use preaching_partner_server::tokens::{hashed_key, new_token, token_from_draw};
use preaching_partner_server::datatypes::DbError;

fn counting_token() -> [u8; 32] {
    let mut token = [0u8; 32];
    for (i, byte) in token.iter_mut().enumerate() {
        *byte = i as u8;
    }
    token
}

#[test]
fn hashed_key_is_hex_of_a_digest() {
    let token = counting_token();
    let key = hashed_key(&token);
    assert_eq!(key.len(), 128);
    assert!(key.chars().all(|c| c.is_ascii_digit() || ('a'..='f').contains(&c)));
    let digest = blake2::Blake2b512::digest(token);
    assert_eq!(key, hex::encode(&digest[..]));
    assert_eq!(&key[..2], format!("{:02x}", digest[0]));
    assert_eq!(key, hashed_key(&token));
    assert_ne!(key, hashed_key(&[0u8; 32]));
}

#[test]
fn drawn_tokens_differ() {
    let a = new_token().expect("random source");
    let b = new_token().expect("random source");
    assert_ne!(a, b);
}

#[test]
fn failed_draw_is_a_token_rng_failure() {
    assert!(matches!(
        token_from_draw(Err(rand::rngs::SysError::UNSUPPORTED)),
        Err(DbError::TokenRngFailure(_))
    ));
    assert_eq!(token_from_draw(Ok([5; 32])).unwrap(), [5; 32]);
}

#[test]
fn refresh_token_is_looked_up_under_its_stored_key() {
    let token = counting_token();
    let stored = Query::insert_token(7, true, &token);
    let lookup = Query::refresh_token_owner(&token);
    let stored_params = stored.params();
    let lookup_params = lookup.params();
    assert_eq!(stored_params[2], lookup_params[0]);
    assert_eq!(
        stored_params,
        vec![SqlParam::Integer(7), SqlParam::Boolean(true), SqlParam::Text(hashed_key(&token))]
    );
    assert_eq!(stored.sql(), "INSERT INTO tokens(user, refresh, token) VALUES (?, ?, ?)");
    assert_eq!(lookup.sql(), "SELECT user FROM tokens WHERE token = ? AND refresh = true");
}

#[test]
fn access_token_is_looked_up_under_its_stored_key() {
    let token = counting_token();
    let stored = Query::insert_token(7, false, &token).params();
    let lookup = Query::access_token_owner(&token).params();
    assert_eq!(lookup, vec![SqlParam::Text(hashed_key(&token))]);
    assert_eq!(stored[2], lookup[0]);
    assert_eq!(
        Query::access_token_owner(&token).sql(),
        "SELECT user FROM tokens WHERE token = ? AND refresh = false"
    );
    assert_eq!(Query::delete_token(&token).params(), vec![SqlParam::Text(hashed_key(&token))]);
}

#[test]
fn categories_are_those_updated_after_the_last_sync() {
    assert_eq!(
        Query::CategoriesSince { last_sync: 3 }.sql(),
        "SELECT * FROM categories WHERE updated > ?"
    );
}

#[test]
fn statements_bind_their_values_in_order() {
    assert_eq!(
        Query::UsersSince { last_sync: 10, user_id: 3 }.params(),
        vec![SqlParam::Integer(10), SqlParam::Integer(3)]
    );
    assert_eq!(
        Query::MapsSince { last_sync: 10, user_id: 3 }.params(),
        vec![SqlParam::Integer(10), SqlParam::Integer(3)]
    );
    assert_eq!(
        Query::SetAddressVisited { address_id: 9, visited: true }.params(),
        vec![SqlParam::Boolean(true), SqlParam::Integer(9)]
    );
    assert_eq!(Query::AllStreets.params(), vec![]);
    assert_eq!(Query::AllStreets.sql(), "SELECT * FROM streets");
    assert_eq!(
        Query::user_by_credentials("ann", "pw").params(),
        vec![SqlParam::Text("ann".to_string()), SqlParam::Text("pw".to_string())]
    );
    assert_eq!(
        Query::user_by_credentials("ann", "pw").sql(),
        "SELECT * FROM users WHERE firstname = ? AND password = ?"
    );
    assert_eq!(
        Query::DeleteAccessTokensOfUser { user: 4 }.sql(),
        "DELETE FROM tokens WHERE user = ? AND refresh = false"
    );
}

#[test]
fn logout_removes_both_tokens_by_stored_key() {
    let refresh = [1u8; 32];
    let access = [2u8; 32];
    let statements = logout_statements(&refresh, &access);
    assert_eq!(
        statements,
        vec![
            Query::DeleteToken { key: hashed_key(&refresh) },
            Query::DeleteToken { key: hashed_key(&access) },
        ]
    );
    assert_eq!(statements[0].sql(), "DELETE FROM tokens WHERE token = ?");
}

#[test]
fn deleting_a_congregation_marks_memberships_then_the_congregation() {
    let statements = delete_congregation_statements(5);
    assert_eq!(
        statements,
        vec![
            Query::MarkCongregationPairsDeleted { cong_id: 5 },
            Query::MarkCongregationDeleted { cong_id: 5 },
        ]
    );
    assert_eq!(
        statements[0].sql(),
        "UPDATE user_cong_pair SET deleted = TRUE WHERE congregation_id = ?"
    );
}
