use optional_field::codec::decode;
use optional_field::codec::encode;
use optional_field::field::Field::Missing;
use optional_field::field::Field::Present;

#[test]
fn decode_outer_absence_wins() {
    assert_eq!(decode(None::<Option<u8>>), Missing);
}

#[test]
fn decode_inner_null() {
    assert_eq!(decode(Some(None::<u8>)), Present(None));
}

#[test]
fn decode_concrete_value() {
    assert_eq!(decode(Some(Some(7u8))), Present(Some(7)));
}

#[test]
fn encode_each_state() {
    assert_eq!(encode(Missing::<u8>), None);
    assert_eq!(encode(Present::<u8>(None)), Some(None));
    assert_eq!(encode(Present(Some(2u8))), Some(Some(2)));
}

#[test]
fn round_trip_through_encode() {
    assert_eq!(decode(encode(Missing::<u8>)), Missing);
    assert_eq!(decode(encode(Present::<u8>(None))), Present(None));
    assert_eq!(decode(encode(Present(Some(9u8)))), Present(Some(9)));
}

#[test]
fn round_trip_through_decode() {
    assert_eq!(encode(decode(None::<Option<u8>>)), None);
    assert_eq!(encode(decode(Some(None::<u8>))), Some(None));
    assert_eq!(encode(decode(Some(Some(4u8)))), Some(Some(4)));
}
