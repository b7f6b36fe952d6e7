use lora_mqtt_hub::bounded::{Bytes, SmallMap, Text};
use lora_mqtt_hub::decimal::parse;

#[test]
fn bytes_stop_at_their_capacity() {
    let mut bytes: Bytes<3> = Bytes::new();
    assert_eq!(bytes.push(1), Ok(()));
    assert_eq!(bytes.extend_from_slice(&[2, 3, 4]), Err(()));
    assert_eq!(bytes.as_slice(), &[1]);
    assert_eq!(bytes.extend_from_slice(&[2, 3]), Ok(()));
    assert_eq!(bytes.push(4), Err(4));
    assert_eq!(bytes.len(), 3);
    assert!(Bytes::<2>::from_slice(&[1, 2, 3]).is_err());
    assert!(bytes.clone() == bytes);
}

#[test]
fn texts_are_measured_in_bytes() {
    assert!(Text::<2>::try_from("\u{e9}").is_ok());
    assert!(Text::<2>::try_from("a\u{e9}").is_err());
    let mut text: Text<4> = Text::new();
    assert!(text.is_empty());
    assert_eq!(text.push_str("abc"), Ok(()));
    assert_eq!(text.push_str("de"), Err(()));
    assert_eq!(text.as_str(), "abc");
    assert!(text.clone() == text);
}

#[test]
fn small_maps_hold_a_few_entries() {
    let mut map: SmallMap<u32, 2> = SmallMap::new();
    assert_eq!(map.insert(1, 10), Ok(()));
    assert_eq!(map.insert(2, 20), Ok(()));
    assert_eq!(map.insert(3, 30), Err(()));
    assert_eq!(map.insert(2, 21), Ok(()));
    assert_eq!(map.len(), 2);
    if let Some(value) = map.get_mut(1) {
        *value += 1;
    }
    assert_eq!(map.remove(1), Some(11));
    assert_eq!(map.remove(1), None);
    assert!(map.contains_key(2) && !map.contains_key(1));
}

#[test]
fn numbers_are_parsed_up_to_a_limit() {
    assert_eq!(parse(b"18446744073709551615", u64::MAX), Some(u64::MAX));
    assert_eq!(parse(b"18446744073709551616", u64::MAX), None);
    assert_eq!(parse(b"+7", 9), Some(7));
    assert_eq!(parse(b"007", 9), Some(7));
    assert_eq!(parse(b"+", 9), None);
    assert_eq!(parse(b"12a", 99), None);
}
