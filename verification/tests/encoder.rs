use lights_tuya::{
    encode, AccessToken, DeviceId, HsbColor, Json, Light, State, TuyaApi, TuyaCommand, WireRequest,
};

fn token() -> AccessToken {
    AccessToken::new("tok123".to_string())
}

fn device() -> DeviceId {
    DeviceId::new("dev1".to_string())
}

fn text_of(request: &WireRequest, key: &str) -> Option<String> {
    match request.payload.get(key) {
        Some(Json::Str(s)) => Some(s.clone()),
        _ => None,
    }
}

fn int_of(json: &Json, key: &str) -> Option<i64> {
    match json.get(key) {
        Some(Json::Int(n)) => Some(*n),
        _ => None,
    }
}

fn member_count(json: &Json) -> usize {
    match json {
        Json::Object(fields) => fields.len(),
        _ => panic!("payload is no object"),
    }
}

#[test]
fn turn_on_request_fields() {
    let request = encode(&TuyaCommand::TurnOnOff { device_id: device(), state: State::On }, &token());
    assert_eq!(request.header.payload_version, 1);
    assert_eq!(request.header.namespace, "control");
    assert_eq!(request.header.name, "turnOnOff");
    assert_eq!(text_of(&request, "accessToken").unwrap(), "tok123");
    assert_eq!(text_of(&request, "devId").unwrap(), "dev1");
    assert_eq!(text_of(&request, "value").unwrap(), "1");
    assert_eq!(member_count(&request.payload), 3);
}

#[test]
fn turn_off_request_value() {
    let request = encode(&TuyaCommand::TurnOnOff { device_id: device(), state: State::Off }, &token());
    assert_eq!(text_of(&request, "value").unwrap(), "0");
}

#[test]
fn discovery_request_has_only_the_token() {
    let request = encode(&TuyaCommand::Discovery, &token());
    assert_eq!(request.header.namespace, "discovery");
    assert_eq!(request.header.name, "Discovery");
    assert_eq!(text_of(&request, "accessToken").unwrap(), "tok123");
    assert!(request.payload.get("devId").is_none());
    assert_eq!(member_count(&request.payload), 1);
}

#[test]
fn query_request_has_no_value() {
    let request = encode(&TuyaCommand::QueryDevice { device_id: device() }, &token());
    assert_eq!(request.header.namespace, "query");
    assert_eq!(request.header.name, "QueryDevice");
    assert_eq!(text_of(&request, "devId").unwrap(), "dev1");
    assert_eq!(member_count(&request.payload), 2);
}

#[test]
fn brightness_request_value_is_an_integer() {
    let request =
        encode(&TuyaCommand::SetBrightness { device_id: device(), brightness: 42 }, &token());
    assert_eq!(request.header.namespace, "control");
    assert_eq!(request.header.name, "brightnessSet");
    assert_eq!(int_of(&request.payload, "value"), Some(42));
}

#[test]
fn color_request_holds_a_color_object() {
    let color = HsbColor { brightness: 30, saturation: 20, hue: 10 };
    let request = encode(&TuyaCommand::SetColor { device_id: device(), color }, &token());
    assert_eq!(request.header.namespace, "control");
    assert_eq!(request.header.name, "colorSet");
    let object = request.payload.get("color").unwrap();
    assert_eq!(int_of(object, "hue"), Some(10));
    assert_eq!(int_of(object, "saturation"), Some(20));
    assert_eq!(int_of(object, "brightness"), Some(30));
    assert_eq!(member_count(object), 3);
    assert!(request.payload.get("value").is_none());
}

#[test]
fn color_temperature_request_value() {
    let request = encode(
        &TuyaCommand::SetColorTemperature { device_id: device(), temperature: 5500 },
        &token(),
    );
    assert_eq!(request.header.namespace, "control");
    assert_eq!(request.header.name, "colorTemperatureSet");
    assert_eq!(int_of(&request.payload, "value"), Some(5500));
}

#[test]
fn encoding_twice_gives_the_same_request() {
    let command = TuyaCommand::SetColor {
        device_id: device(),
        color: HsbColor { brightness: 1, saturation: 2, hue: 3 },
    };
    let first = encode(&command, &token());
    let second = encode(&command, &token());
    assert_eq!(first.header.payload_version, second.header.payload_version);
    assert_eq!(first.header.namespace, second.header.namespace);
    assert_eq!(first.header.name, second.header.name);
    assert_eq!(format!("{:?}", first.payload), format!("{:?}", second.payload));
}

#[test]
fn set_brightness_sends_a_percentage() {
    let api = TuyaApi::from_token(token());
    let light = Light::from_parts("Lamp".to_string(), "dev1".to_string());
    let request = api.set_brightness(&light, 128);
    assert_eq!(request.header.name, "brightnessSet");
    assert_eq!(text_of(&request, "accessToken").unwrap(), "tok123");
    assert_eq!(text_of(&request, "devId").unwrap(), "dev1");
    assert_eq!(int_of(&request.payload, "value"), Some(50));
}

#[test]
fn set_color_temperature_sends_vendor_units() {
    let api = TuyaApi::from_token(token());
    let light = Light::from_parts("Lamp".to_string(), "dev1".to_string());
    let request = api.set_color_temperature(&light, 4600);
    assert_eq!(request.header.name, "colorTemperatureSet");
    assert_eq!(int_of(&request.payload, "value"), Some(5500));
    let clamped = api.set_color_temperature(&light, 8000);
    assert_eq!(int_of(&clamped.payload, "value"), Some(10000));
}

#[test]
fn session_requests_name_the_light() {
    let api = TuyaApi::from_token(token());
    let light = Light::from_parts("Lamp".to_string(), "dev1".to_string());
    let on = api.set_state(&light, State::On);
    assert_eq!(on.header.name, "turnOnOff");
    assert_eq!(text_of(&on, "value").unwrap(), "1");
    let color = api.set_color(&light, HsbColor { brightness: 5, saturation: 6, hue: 7 });
    assert_eq!(int_of(color.payload.get("color").unwrap(), "hue"), Some(7));
    let query = api.query(&light);
    assert_eq!(query.header.namespace, "query");
    assert_eq!(text_of(&query, "devId").unwrap(), "dev1");
    let scan = api.scan();
    assert_eq!(scan.header.namespace, "discovery");
    assert_eq!(text_of(&scan, "accessToken").unwrap(), "tok123");
}
