use keylime_common::errors::{ConfigDetail, Error};
use keylime_common::keys::{SymmKey, KEY_LEN};

#[test]
fn test_from_vec_keeps_bytes() {
    let mut v = vec![0u8; KEY_LEN];
    for (i, b) in v.iter_mut().enumerate() {
        *b = i as u8;
    }
    let k = SymmKey::from_vec(v.clone()).unwrap();
    assert_eq!(k.bytes.to_vec(), v);
    assert!(!k.is_empty());
}

#[test]
fn test_from_vec_all_zero_is_sentinel() {
    let k = SymmKey::from_vec(vec![0u8; KEY_LEN]).unwrap();
    assert!(k.is_empty());
}

#[test]
fn test_from_vec_one_nonzero_byte_is_not_sentinel() {
    let mut v = vec![0u8; KEY_LEN];
    v[KEY_LEN - 1] = 1;
    let k = SymmKey::from_vec(v).unwrap();
    assert!(!k.is_empty());
}

#[test]
fn test_from_vec_wrong_length_fails() {
    for n in [0usize, 1, 31, 33, 64] {
        let r = SymmKey::from_vec(vec![1u8; n]);
        match r {
            Err(Error::Configuration(ConfigDetail::BadKeyLength { expected, actual })) => {
                assert_eq!(expected, KEY_LEN);
                assert_eq!(actual, n);
            }
            other => panic!("expected a bad-key-length error, got {:?}", other),
        }
    }
}

#[test]
fn test_default_is_empty_sentinel() {
    let k = SymmKey::default();
    assert_eq!(k.bytes, [0u8; KEY_LEN]);
    assert!(k.is_empty());
}
