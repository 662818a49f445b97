use blind_tokens::keys::{key_pair_of, new_keys, SecretKey};
use blind_tokens::{Error, Randomness};
use rand::rngs::StdRng;
use rand::SeedableRng;

/// The order of the scalar field, least significant byte first.
const ORDER: [u8; 32] = [
    0x01, 0x00, 0x00, 0x00, 0xff, 0xff, 0xff, 0xff, 0xfe, 0x5b, 0xfe, 0xff, 0x02, 0xa4, 0xbd, 0x53,
    0x05, 0xd8, 0xa1, 0x09, 0x08, 0xd8, 0x39, 0x33, 0x48, 0x7d, 0x9d, 0x29, 0x53, 0xa7, 0xed, 0x73,
];

fn key_with_scalar_at(third: usize, scalar: &[u8; 32]) -> Vec<u8> {
    let mut bytes = vec![0u8; 96];
    bytes[0] = 1;
    bytes[32] = 2;
    bytes[64] = 3;
    bytes[third * 32..third * 32 + 32].copy_from_slice(scalar);
    bytes
}

#[test]
fn encoded_sizes_are_those_of_the_curve_library() {
    assert_eq!(SecretKey::BYTES, 96);
    assert_eq!(SecretKey::BYTES, oberon::SecretKey::BYTES);
    assert_eq!(blind_tokens::PublicKey::BYTES, 288);
    assert_eq!(blind_tokens::PublicKey::BYTES, oberon::PublicKey::BYTES);
    assert_eq!(blind_tokens::Blinding::BYTES, oberon::Blinding::BYTES);
    assert_eq!(blind_tokens::Token::BYTES, oberon::Token::BYTES);
    assert_eq!(blind_tokens::Proof::BYTES, oberon::Proof::BYTES);
}

#[test]
fn seeded_keys_are_deterministic() {
    let first = new_keys(Some(&[0x00]));
    let second = new_keys(Some(&[0x00]));
    assert_eq!(first.secret_key.to_bytes(), second.secret_key.to_bytes());
    assert_eq!(first.public_key.to_bytes(), second.public_key.to_bytes());
    assert_eq!(first, second);
}

#[test]
fn seeded_keys_are_those_of_the_curve_library() {
    let seed = b"my super secret key seed";
    let pair = new_keys(Some(seed));
    let expected = oberon::SecretKey::hash(seed);
    assert_eq!(pair.secret_key.to_bytes(), expected.to_bytes());
    assert_eq!(pair.public_key.to_bytes(), oberon::PublicKey::from(&expected).to_bytes());
    assert_ne!(&pair.secret_key.to_bytes()[..seed.len()], &seed[..]);
}

#[test]
fn an_empty_seed_is_a_seed() {
    let pair = new_keys(Some(&[]));
    assert_eq!(pair.secret_key.to_bytes(), oberon::SecretKey::hash(&[]).to_bytes());
    assert_eq!(pair, new_keys(Some(&[])));
}

#[test]
fn different_seeds_give_different_keys() {
    let first = new_keys(Some(&[0x00]));
    let second = new_keys(Some(&[0x01]));
    assert_ne!(first.secret_key.to_bytes(), second.secret_key.to_bytes());
    assert_ne!(first.public_key.to_bytes(), second.public_key.to_bytes());
}

#[test]
fn unseeded_keys_are_fresh_and_well_formed() {
    let first = new_keys(None);
    let second = new_keys(None);
    assert_ne!(first.secret_key.to_bytes(), second.secret_key.to_bytes());
    let decoded = oberon::SecretKey::from_bytes(&first.secret_key.to_bytes());
    assert!(bool::from(decoded.is_some()));
    assert_eq!(
        first.public_key.to_bytes(),
        oberon::PublicKey::from(&decoded.unwrap()).to_bytes()
    );
}

#[test]
fn public_key_belongs_to_the_secret_key() {
    let key = SecretKey::hash(b"issuer");
    let public_key = key.public_key();
    let expected = oberon::PublicKey::from(&oberon::SecretKey::hash(b"issuer"));
    assert_eq!(public_key.to_bytes(), expected.to_bytes());
    assert_ne!(&public_key.to_bytes()[..96], &key.to_bytes()[..]);
    assert_eq!(public_key, new_keys(Some(b"issuer")).public_key);
}

#[test]
fn random_secret_keys_differ() {
    let first = SecretKey::random(Randomness::from_system());
    let second = SecretKey::random(Randomness::from_system());
    assert_ne!(first, second);
    assert_eq!(SecretKey::from_bytes(&first.to_bytes()), Ok(first));
}

#[test]
fn secret_key_is_determined_by_the_randomness() {
    let first = SecretKey::random(Randomness::from_seed([7u8; 32]));
    let second = SecretKey::random(Randomness::from_seed([7u8; 32]));
    let other = SecretKey::random(Randomness::from_seed([8u8; 32]));
    assert_eq!(first, second);
    assert_ne!(first, other);
}

#[test]
fn secret_key_drawn_is_that_of_the_curve_library() {
    let mut seed = [0u8; 32];
    for (i, byte) in seed.iter_mut().enumerate() {
        *byte = i as u8;
    }
    let key = SecretKey::random(Randomness::from_seed(seed));
    let expected = oberon::SecretKey::new(StdRng::from_seed(seed));
    assert_eq!(key.to_bytes(), expected.to_bytes());
    assert_ne!(&key.to_bytes()[..32], &seed[..]);
    assert_ne!(key, SecretKey::hash(&seed));
}

#[test]
fn key_pair_of_a_secret_key() {
    let key = SecretKey::hash(b"issuer");
    let pair = key_pair_of(key.clone());
    assert_eq!(pair.secret_key, key);
    assert_eq!(pair.public_key, key.public_key());
    assert_eq!(pair, new_keys(Some(b"issuer")));
}

#[test]
fn randomness_is_the_bytes_it_was_made_of() {
    let mut seed = [0u8; 32];
    seed[0] = 1;
    seed[31] = 2;
    assert_eq!(Randomness::from_seed(seed).into_bytes(), seed);
    assert_eq!(Randomness::BYTES, 32);
}

#[test]
fn randomness_of_the_system_is_fresh() {
    let first = Randomness::from_system().into_bytes();
    let second = Randomness::from_system().into_bytes();
    assert_ne!(first, second);
    assert_ne!(first, [0u8; 32]);
}

#[test]
fn secret_key_round_trip() {
    let key = SecretKey::hash(b"round trip");
    let bytes = key.to_bytes();
    let decoded = SecretKey::from_bytes(&bytes).unwrap();
    assert_eq!(decoded, key);
    assert_eq!(decoded.to_bytes(), bytes);
}

#[test]
fn secret_key_clone_is_equal() {
    let pair = new_keys(Some(b"clone"));
    let copy = pair.clone();
    assert_eq!(copy, pair);
    assert_eq!(copy.secret_key.clone().to_bytes(), pair.secret_key.to_bytes());
}

#[test]
fn secret_key_of_wrong_length_is_refused() {
    let good = SecretKey::hash(b"length").to_bytes();
    assert_eq!(SecretKey::from_bytes(&[]), Err(Error::Validation));
    assert_eq!(SecretKey::from_bytes(&good[..95]), Err(Error::Validation));
    let mut long = good.to_vec();
    long.push(0);
    assert_eq!(SecretKey::from_bytes(&long), Err(Error::Validation));
    assert!(SecretKey::from_bytes(&good).is_ok());
}

#[test]
fn secret_key_scalars_must_lie_below_the_order() {
    let mut largest = ORDER;
    largest[0] = 0x00;
    let mut above = ORDER;
    above[0] = 0x02;
    for third in 0..3 {
        assert_eq!(
            SecretKey::from_bytes(&key_with_scalar_at(third, &ORDER)),
            Err(Error::Validation)
        );
        assert_eq!(
            SecretKey::from_bytes(&key_with_scalar_at(third, &above)),
            Err(Error::Validation)
        );
        assert_eq!(
            SecretKey::from_bytes(&key_with_scalar_at(third, &[0xff; 32])),
            Err(Error::Validation)
        );
        let bytes = key_with_scalar_at(third, &largest);
        assert_eq!(SecretKey::from_bytes(&bytes).unwrap().to_bytes().to_vec(), bytes);
    }
}

#[test]
fn secret_key_order_is_compared_from_the_most_significant_byte() {
    // One less in the top byte, all ones below: smaller than the order.
    let mut below = [0xff; 32];
    below[31] = 0x72;
    assert!(SecretKey::from_bytes(&key_with_scalar_at(1, &below)).is_ok());
    // One more in the top byte, zero below: larger than the order.
    let mut above = [0x00; 32];
    above[31] = 0x74;
    assert_eq!(SecretKey::from_bytes(&key_with_scalar_at(1, &above)), Err(Error::Validation));
}

#[test]
fn the_all_zero_secret_key_decodes() {
    let key = SecretKey::from_bytes(&[0u8; 96]).unwrap();
    assert_eq!(key.to_bytes(), [0u8; 96]);
}

#[test]
fn secret_key_decoding_agrees_with_the_curve_library() {
    let mut largest = ORDER;
    largest[0] = 0x00;
    let candidates = [ORDER, largest, [0u8; 32], [0xff; 32]];
    for scalar in candidates.iter() {
        for third in 0..3 {
            let bytes = key_with_scalar_at(third, scalar);
            let mut array = [0u8; 96];
            array.copy_from_slice(&bytes);
            let accepted = bool::from(oberon::SecretKey::from_bytes(&array).is_some());
            assert_eq!(SecretKey::from_bytes(&bytes).is_ok(), accepted);
        }
    }
}
