use lights_tuya::{endpoint_uri, AccessToken, Credentials, Light, TuyaApi, TuyaEndpoint};

#[test]
fn token_is_stored_verbatim() {
    let token = AccessToken::new("tok123".to_string());
    let mut stored: Vec<u8> = vec![b'>'];
    token.write_to(&mut stored);
    assert_eq!(stored, b">tok123".to_vec());
}

#[test]
fn token_is_restored_verbatim() {
    let token = AccessToken::read_from(" tok 123\n".to_string());
    assert_eq!(token.as_str(), " tok 123\n");
    assert_eq!(token.into_string(), " tok 123\n");
}

#[test]
fn session_keeps_the_seeded_token() {
    let api = TuyaApi::from_token(AccessToken::new("tok123".to_string()));
    assert_eq!(api.dump_token().as_str(), "tok123");
    assert_eq!(api.dump_token().as_str(), "tok123");
}

#[test]
fn login_form_fields() {
    let credentials = Credentials::new("me@example.org".to_string(), "secret".to_string());
    let fields = credentials.form_fields();
    let expected: Vec<(String, String)> = vec![
        ("userName".to_string(), "me@example.org".to_string()),
        ("password".to_string(), "secret".to_string()),
        ("countryCode".to_string(), "1".to_string()),
        ("bizType".to_string(), "smart_life".to_string()),
        ("from".to_string(), "tuya".to_string()),
    ];
    assert_eq!(fields, expected);
}

#[test]
fn endpoint_addresses() {
    assert_eq!(endpoint_uri(TuyaEndpoint::Login), "https://px1.tuyaus.com/homeassistant/auth.do");
    assert_eq!(endpoint_uri(TuyaEndpoint::Skill), "https://px1.tuyaus.com/homeassistant/skill");
}

#[test]
fn light_handle_accessors() {
    let light = Light::from_parts("Lamp".to_string(), "dev1".to_string());
    assert_eq!(light.id(), "dev1");
    assert_eq!(light.name, "Lamp");
    assert_eq!(light.device_id().as_str(), "dev1");
    let renamed = Light::from_parts("Other".to_string(), "dev1".to_string());
    assert!(light.same_device(&renamed));
    let twin = Light::from_parts("Lamp".to_string(), "dev2".to_string());
    assert!(!light.same_device(&twin));
}
