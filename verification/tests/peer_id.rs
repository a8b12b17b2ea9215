use peer_connect::peer_id::{parse_peer, peer_id_from_key, registry_contains, PeerId};

// the secp256k1 generator point, compressed
const G_COMPRESSED: &str = "0279be667ef9dcbbac55a06295ce870b07029bfcdb2dce28d959f2815b16f81798";
// the same point, uncompressed
const G_UNCOMPRESSED: &str = "0479be667ef9dcbbac55a06295ce870b07029bfcdb2dce28d959f2815b16f81798483ada7726a3c4655da4fbfc0e1108a8fd17b448a68554199c47d08ffb10d4b8";
// twice the generator point, compressed
const TWO_G_COMPRESSED: &str = "02c6047f9441ed7d6d3045406e95c07cd85c778e4b8cef3ca7abac09b95c709ee5";

fn hex_bytes(s: &str) -> Vec<u8> {
    fn val(c: u8) -> u8 {
        match c {
            b'0'..=b'9' => c - b'0',
            b'a'..=b'f' => c - b'a' + 10,
            b'A'..=b'F' => c - b'A' + 10,
            _ => panic!("not hex"),
        }
    }
    s.as_bytes().chunks(2).map(|p| (val(p[0]) << 4) | val(p[1])).collect()
}

#[test]
fn valid_compressed_key_parses() {
    let (key, id) = parse_peer(G_COMPRESSED).expect("generator point must parse");
    assert_eq!(id.bytes.len(), 33);
    assert_eq!(id.bytes, hex_bytes(G_COMPRESSED));
    // deriving the identity again from the key gives the same bytes
    let again = peer_id_from_key(&key);
    assert_eq!(again.bytes, id.bytes);
}

#[test]
fn uppercase_hex_parses_to_same_identity() {
    let upper = G_COMPRESSED.to_uppercase();
    let (_, id) = parse_peer(&upper).expect("uppercase hex must parse");
    assert_eq!(id.bytes, hex_bytes(G_COMPRESSED));
}

#[test]
fn uncompressed_key_is_modelled_compressed() {
    let (_, id) = parse_peer(G_UNCOMPRESSED).expect("uncompressed form must parse");
    assert_eq!(id.bytes, hex_bytes(G_COMPRESSED));
}

#[test]
fn malformed_key_text_is_rejected() {
    assert!(parse_peer("").is_none());
    assert!(parse_peer("deadbeef").is_none());
    assert!(parse_peer("not hex at all").is_none());
    // right length, but no such curve point: bad prefix byte
    assert!(parse_peer(
        "05c6047f9441ed7d6d3045406e95c07cd85c778e4b8cef3ca7abac09b95c709ee5"
    )
    .is_none());
}

#[test]
fn registry_membership_found() {
    let (_, g) = parse_peer(G_COMPRESSED).unwrap();
    let (_, two_g) = parse_peer(TWO_G_COMPRESSED).unwrap();
    let target = PeerId { bytes: g.bytes.clone() };
    let ids = vec![two_g, g];
    assert!(registry_contains(&ids, &target));
}

#[test]
fn registry_membership_absent() {
    let (_, g) = parse_peer(G_COMPRESSED).unwrap();
    let (_, two_g) = parse_peer(TWO_G_COMPRESSED).unwrap();
    assert!(!registry_contains(&vec![g], &two_g));
    assert!(!registry_contains(&vec![], &two_g));
    let stranger = PeerId { bytes: vec![0u8; 33] };
    assert!(!registry_contains(&vec![two_g], &stranger));
}
