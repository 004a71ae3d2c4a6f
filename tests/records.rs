use user_service::handler::{
    after_update, check_identifier, create_reply, delete_reply, error_status, failure, get_reply,
    list_reply, ReplyBody, UpdateNext,
};
use user_service::identifier::{parse_identifier, RecordId};
use user_service::password::hash_password;
use user_service::record::{RepoError, User};
use user_service::routes::{rocket, Method, Operation};
use user_service::store::{
    collect_records, found_outcome, update_outcome, new_document, prepare_create, prepare_lookup, prepare_update,
    update_document,
};

const SAMPLE_ID: &str = "507f1f77bcf86cd799439011";
const SAMPLE_BYTES: [u8; 12] = [0x50, 0x7f, 0x1f, 0x77, 0xbc, 0xf8, 0x6c, 0xd7, 0x99, 0x43, 0x90, 0x11];

fn user(name: &str, email: &str, password: &str) -> User {
    User::new(name.to_string(), email.to_string(), password.to_string())
}

fn stored(name: &str, email: &str, password: &str) -> User {
    let mut u = user(name, email, password);
    u.id = Some(RecordId { bytes: SAMPLE_BYTES });
    u
}

#[test]
fn parses_lowercase_identifier() {
    let id = parse_identifier(SAMPLE_ID).unwrap();
    assert_eq!(id.bytes, SAMPLE_BYTES);
}

#[test]
fn parses_uppercase_identifier() {
    let id = parse_identifier("507F1F77BCF86CD799439011").unwrap();
    assert_eq!(id.bytes, SAMPLE_BYTES);
}

#[test]
fn rejects_malformed_identifiers() {
    assert!(parse_identifier("").is_none());
    assert!(parse_identifier("xyz").is_none());
    assert!(parse_identifier("507f1f77bcf86cd79943901").is_none());
    assert!(parse_identifier("507f1f77bcf86cd7994390111").is_none());
    assert!(parse_identifier("507f1f77bcf86cd79943901g").is_none());
    assert!(parse_identifier("507f1f77bcf86cd79943901é").is_none());
}

#[test]
fn hashing_yields_a_salted_bcrypt_string() {
    let h = hash_password("secret").unwrap();
    assert_eq!(h.len(), 60);
    assert!(h.starts_with("$2b$12$"));
    assert_ne!(h, "secret");
    assert!(bcrypt::verify("secret", &h).unwrap());
}

#[test]
fn create_stores_a_hash_and_no_identifier() {
    let doc = prepare_create(&user("Ana", "ana@x.com", "secret")).unwrap();
    assert!(doc.id.is_none());
    assert_eq!(doc.name, "Ana");
    assert_eq!(doc.email, "ana@x.com");
    assert_ne!(doc.password, "secret");
    assert!(doc.password.starts_with("$2b$12$"));
    assert!(bcrypt::verify("secret", &doc.password).unwrap());
}

#[test]
fn create_ignores_a_supplied_identifier() {
    let doc = new_document(&stored("Ana", "ana@x.com", "secret"), Some("h".to_string())).unwrap();
    assert!(doc.id.is_none());
    assert_eq!(doc.password, "h");
}

#[test]
fn failed_hashing_is_a_store_error() {
    let r = new_document(&user("Ana", "ana@x.com", "secret"), None);
    assert_eq!(r.unwrap_err(), RepoError::StoreError);
    let id = RecordId { bytes: SAMPLE_BYTES };
    let r = update_document(id, &user("Ana", "ana@x.com", "secret"), None);
    assert_eq!(r.unwrap_err(), RepoError::StoreError);
}

#[test]
fn update_rejects_malformed_identifier() {
    let r = prepare_update("not-an-id", &user("Bo", "bo@x.com", "pw"));
    assert_eq!(r.unwrap_err(), RepoError::InvalidIdentifier);
    let r = prepare_update("", &user("Bo", "bo@x.com", "pw"));
    assert_eq!(r.unwrap_err(), RepoError::InvalidIdentifier);
}

#[test]
fn update_rehashes_and_keeps_identifier() {
    let (id, doc) = prepare_update(SAMPLE_ID, &user("Bo", "bo@x.com", "pw")).unwrap();
    assert_eq!(id.bytes, SAMPLE_BYTES);
    assert_eq!(doc.id.unwrap().bytes, SAMPLE_BYTES);
    assert_eq!(doc.name, "Bo");
    assert_eq!(doc.email, "bo@x.com");
    assert_ne!(doc.password, "pw");
    assert!(bcrypt::verify("pw", &doc.password).unwrap());
}

#[test]
fn lookup_reads_identifier() {
    assert_eq!(prepare_lookup(SAMPLE_ID).unwrap().bytes, SAMPLE_BYTES);
    assert_eq!(prepare_lookup("123").unwrap_err(), RepoError::InvalidIdentifier);
}

#[test]
fn missing_document_is_not_found() {
    assert_eq!(found_outcome(None).unwrap_err(), RepoError::NotFound);
    let u = found_outcome(Some(stored("Ana", "ana@x.com", "h"))).unwrap();
    assert_eq!(u.name, "Ana");
}

#[test]
fn listing_keeps_every_record_in_order() {
    let docs = vec![
        Ok(stored("A", "a@x.com", "h1")),
        Ok(stored("B", "b@x.com", "h2")),
        Ok(stored("C", "c@x.com", "h3")),
    ];
    let all = collect_records(&docs).unwrap();
    assert_eq!(all.len(), 3);
    assert_eq!(all[0].name, "A");
    assert_eq!(all[2].email, "c@x.com");
    assert!(collect_records(&Vec::new()).unwrap().is_empty());
}

#[test]
fn listing_fails_on_first_error() {
    let docs = vec![Ok(stored("A", "a@x.com", "h1")), Err(RepoError::StoreError), Err(RepoError::NotFound)];
    assert_eq!(collect_records(&docs).unwrap_err(), RepoError::StoreError);
}

#[test]
fn listing_after_creates_and_deletes_counts_the_rest() {
    let created = vec![stored("A", "a@x.com", "h1"), stored("B", "b@x.com", "h2"), stored("C", "c@x.com", "h3")];
    let remaining: Vec<Result<User, RepoError>> = created.into_iter().skip(1).map(Ok).collect();
    let reply = list_reply(collect_records(&remaining));
    assert_eq!(reply.status, 200);
    match reply.body {
        ReplyBody::Records(v) => assert_eq!(v.len(), 2),
        other => panic!("unexpected body {:?}", other),
    }
}

#[test]
fn empty_identifier_is_bad_request() {
    let r = check_identifier("").unwrap_err();
    assert_eq!(r.status, 400);
    assert!(matches!(r.body, ReplyBody::Empty));
}

#[test]
fn malformed_identifier_is_bad_request() {
    assert_eq!(check_identifier("abc").unwrap_err().status, 400);
    assert_eq!(check_identifier(SAMPLE_ID).unwrap().bytes, SAMPLE_BYTES);
}

#[test]
fn each_error_has_its_status() {
    assert_eq!(error_status(RepoError::InvalidIdentifier), 400);
    assert_eq!(error_status(RepoError::NotFound), 404);
    assert_eq!(error_status(RepoError::StoreError), 500);
    assert_eq!(failure(RepoError::StoreError).status, 500);
}

#[test]
fn create_reply_carries_identifier() {
    let r = create_reply(Ok(RecordId { bytes: SAMPLE_BYTES }));
    assert_eq!(r.status, 200);
    assert!(matches!(r.body, ReplyBody::Inserted(id) if id.bytes == SAMPLE_BYTES));
    assert_eq!(create_reply(Err(RepoError::StoreError)).status, 500);
}

#[test]
fn get_reply_distinguishes_not_found() {
    assert_eq!(get_reply(Err(RepoError::NotFound)).status, 404);
    assert_eq!(get_reply(Err(RepoError::StoreError)).status, 500);
    let r = get_reply(Ok(stored("Ana", "ana@x.com", "h")));
    assert_eq!(r.status, 200);
    assert!(matches!(r.body, ReplyBody::Record(u) if u.name == "Ana"));
}

#[test]
fn update_on_missing_record_is_not_found() {
    match after_update(update_outcome(None, &user("Bo", "bo@x.com", "h"))) {
        UpdateNext::Respond(r) => assert_eq!(r.status, 404),
        UpdateNext::Reread => panic!("a missing record must not count as updated"),
    }
    match after_update(Ok(user("Ana", "ana@x.com", "h"))) {
        UpdateNext::Respond(r) => assert_eq!(r.status, 404),
        UpdateNext::Reread => panic!("a record without identifier must not count as updated"),
    }
    match after_update(Err(RepoError::StoreError)) {
        UpdateNext::Respond(r) => assert_eq!(r.status, 500),
        UpdateNext::Reread => panic!("a failure must not count as updated"),
    }
    assert!(matches!(after_update(Ok(stored("Ana", "ana@x.com", "h"))), UpdateNext::Reread));
}

#[test]
fn delete_reply_confirms() {
    let r = delete_reply(Ok(stored("Ana", "ana@x.com", "h")));
    assert_eq!(r.status, 200);
    assert!(matches!(r.body, ReplyBody::Message(m) if m == "User deleted successfully."));
    assert_eq!(delete_reply(Ok(user("Ana", "ana@x.com", "h"))).status, 404);
    assert_eq!(delete_reply(Err(RepoError::NotFound)).status, 404);
    assert_eq!(delete_reply(Err(RepoError::StoreError)).status, 500);
}

#[test]
fn list_reply_failure_is_internal_error() {
    assert_eq!(list_reply(Err(RepoError::StoreError)).status, 500);
}

#[test]
fn create_get_delete_get_scenario() {
    let doc = prepare_create(&user("Ana", "ana@x.com", "secret")).unwrap();
    let id = check_identifier(SAMPLE_ID).unwrap();
    let created = create_reply(Ok(id));
    assert_eq!(created.status, 200);
    let mut saved = doc;
    saved.id = Some(id);
    let got = get_reply(found_outcome(Some(saved.duplicate())));
    assert_eq!(got.status, 200);
    match got.body {
        ReplyBody::Record(u) => {
            assert_eq!(u.name, "Ana");
            assert_ne!(u.password, "secret");
        }
        other => panic!("unexpected body {:?}", other),
    }
    let deleted = delete_reply(found_outcome(Some(saved)));
    assert_eq!(deleted.status, 200);
    assert!(matches!(deleted.body, ReplyBody::Message(m) if m == "User deleted successfully."));
    let again = get_reply(found_outcome(None));
    assert_eq!(again.status, 404);
}

#[test]
fn route_table_lists_the_five_routes() {
    let table = rocket();
    let got: Vec<(Method, &str, Operation)> =
        table.iter().map(|r| (r.method, r.path.as_str(), r.operation)).collect();
    assert_eq!(
        got,
        vec![
            (Method::Post, "/user", Operation::Create),
            (Method::Get, "/user/<id>", Operation::Read),
            (Method::Get, "/users", Operation::List),
            (Method::Put, "/user/<id>", Operation::Update),
            (Method::Delete, "/user/<id>", Operation::Remove),
        ]
    );
}

#[test]
fn update_reports_the_record_as_written() {
    let before = stored("Ana", "ana@x.com", "old-hash");
    let written = user("Bo", "bo@x.com", "new-hash");
    let u = update_outcome(Some(before), &written).unwrap();
    assert_eq!(u.id.unwrap().bytes, SAMPLE_BYTES);
    assert_eq!(u.name, "Bo");
    assert_eq!(u.email, "bo@x.com");
    assert_eq!(u.password, "new-hash");
    assert_eq!(update_outcome(None, &written).unwrap_err(), RepoError::NotFound);
}
