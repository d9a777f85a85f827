use mc_oauth::generators::{generate_code, generate_verify_token};
use mc_oauth::map::expiring_map::ExpiringMap;
use mc_oauth::map::init_map;
use mc_oauth::mojang::response::{MojangResponse, Properties};
use mc_oauth::mojang::server_hash;

#[test]
fn server_hash_known_values() {
    // the digests of the bare names, as published for the session protocol
    assert_eq!(server_hash("Notch", &[], &[]), "4ed1f46bbe04bc756bcb17c0c7ce3e4632f06a48");
    assert_eq!(server_hash("jeb_", &[], &[]), "-7c9d5b0044c130109a5d7b5fb5c317c02b4e28c1");
    assert_eq!(server_hash("simon", &[], &[]), "88e16a1019277b15d58faf0541e11910eb756f6");
}

#[test]
fn server_hash_covers_secret_and_key() {
    let a = server_hash("", b"Not", b"ch");
    assert_eq!(a, "4ed1f46bbe04bc756bcb17c0c7ce3e4632f06a48");
    assert_ne!(server_hash("", b"Notc", b"h"), server_hash("", b"Notch", b"x"));
}

#[test]
fn codes_are_digits() {
    for len in [0usize, 1, 6, 12] {
        let code = generate_code(len);
        assert_eq!(code.len(), len);
        assert!(code.chars().all(|c| c.is_ascii_digit()));
    }
}

#[test]
fn verify_token_has_four_bytes() {
    assert_eq!(generate_verify_token().len(), 4);
}

fn profile(name: &str) -> MojangResponse {
    MojangResponse {
        id: "1420c63cb1114453993fb3479ba1d4c6".to_string(),
        name: name.to_string(),
        properties: vec![Properties {
            name: "textures".to_string(),
            value: "v".to_string(),
            signature: "s".to_string(),
        }],
    }
}

#[test]
fn code_is_redeemed_once() {
    let mut store = init_map();
    store.insert("123456".to_string(), profile("AndcoolSystems"));
    let first = store.take("123456").unwrap();
    assert_eq!(first.name, "AndcoolSystems");
    assert_eq!(first.properties.len(), 1);
    assert_eq!(first.properties[0].name, "textures");
    assert!(store.take("123456").is_none());
}

#[test]
fn unknown_code_is_not_found() {
    let mut store = ExpiringMap::new();
    assert!(store.take("000000").is_none());
    assert!(store.get("000000").is_none());
}

#[test]
fn expired_code_is_gone() {
    let mut store = ExpiringMap::new();
    store.insert("111111".to_string(), profile("a"));
    store.insert("222222".to_string(), profile("b"));
    assert_eq!(store.get("111111").unwrap().name, "a");
    store.remove("111111");
    assert!(store.take("111111").is_none());
    assert_eq!(store.take("222222").unwrap().name, "b");
}

#[test]
fn inserting_again_replaces() {
    let mut store = ExpiringMap::new();
    store.insert("1".to_string(), profile("a"));
    store.insert("1".to_string(), profile("b"));
    assert_eq!(store.take("1").unwrap().name, "b");
}

#[test]
fn profile_clone_keeps_fields() {
    let p = profile("x");
    let q = p.clone();
    assert_eq!(q.id, p.id);
    assert_eq!(q.name, "x");
    assert_eq!(q.properties[0].signature, "s");
}
