use cms_client::id::{AddonInstanceUuid, MemberUuid, UuidValue, WebsiteUuid};
use cms_client::locator::UuidType;
use cms_client::{get_call_token, register_call_token, TokenStore};

#[test]
fn none_is_none() {
    assert!(UuidValue::none().is_none());
    assert!(WebsiteUuid::none().is_none());
    assert!(MemberUuid::none().is_none());
    assert!(AddonInstanceUuid::none().is_none());
}

#[test]
fn nonzero_is_not_none() {
    assert!(!UuidValue::from_value(1).is_none());
    assert!(!WebsiteUuid::from_value(0xdeadbeef).is_none());
    assert!(!MemberUuid::from_value(u128::MAX).is_none());
}

#[test]
fn render_zero() {
    assert_eq!(
        UuidValue::none().render(),
        "00000000-0000-0000-0000-000000000000"
    );
}

#[test]
fn render_known_value() {
    let v = UuidValue::from_value(0x00112233_4455_6677_8899_aabbccddeeff);
    assert_eq!(v.render(), "00112233-4455-6677-8899-aabbccddeeff");
}

#[test]
fn parse_render_roundtrip() {
    for value in [
        0u128,
        1,
        0x00112233_4455_6677_8899_aabbccddeeff,
        u128::MAX,
        0x8000_0000_0000_0000_0000_0000_0000_0000,
    ] {
        let v = UuidValue::from_value(value);
        let text = v.render();
        let back = UuidValue::parse(&text).expect("canonical text parses");
        assert_eq!(back, v);
    }
}

#[test]
fn parse_accepts_uppercase() {
    let v = UuidValue::parse("00112233-4455-6677-8899-AABBCCDDEEFF").unwrap();
    assert_eq!(v.render(), "00112233-4455-6677-8899-aabbccddeeff");
}

#[test]
fn parse_rejects_malformed() {
    assert!(UuidValue::parse("").is_err());
    assert!(UuidValue::parse("not an identifier").is_err());
    assert!(UuidValue::parse("00112233-4455-6677-8899-aabbccddeef").is_err());
    assert!(UuidValue::parse("00112233-4455-6677-8899-aabbccddeeffa").is_err());
    assert!(UuidValue::parse("00112233x4455-6677-8899-aabbccddeeff").is_err());
    assert!(UuidValue::parse("0011223g-4455-6677-8899-aabbccddeeff").is_err());
    assert!(WebsiteUuid::parse("----").is_err());
}

#[test]
fn kinds_parse_and_render() {
    let w = WebsiteUuid::from_value(7);
    let text = w.render();
    assert_eq!(text, "00000000-0000-0000-0000-000000000007");
    assert_eq!(WebsiteUuid::parse(&text).unwrap(), w);
    let m = MemberUuid::from_value(7);
    assert_eq!(MemberUuid::parse(&m.render()).unwrap(), m);
    let a = AddonInstanceUuid::from_value(7);
    assert_eq!(AddonInstanceUuid::parse(&a.render()).unwrap(), a);
}

#[test]
fn website_into_uuid_type_is_site() {
    let w = WebsiteUuid::from_value(42);
    assert_eq!(w.into_uuid_type(), UuidType::Site(w));
}

#[test]
fn token_store_registration() {
    let mut store = TokenStore::new();
    assert_eq!(get_call_token(&store), "");
    register_call_token(
        &mut store,
        UuidValue::from_value(0x00112233_4455_6677_8899_aabbccddeeff),
    );
    assert_eq!(
        get_call_token(&store),
        "Basic 00112233-4455-6677-8899-aabbccddeeff"
    );
    register_call_token(&mut store, UuidValue::from_value(1));
    assert_eq!(
        get_call_token(&store),
        "Basic 00000000-0000-0000-0000-000000000001"
    );
}
