//! Decoding of the service's responses: login, discovery and acknowledgement.
use crate::device::{AccessToken, Light, LightView};
use crate::json::{items_view, parse, parsed_document, Json, JsonView};
use vstd::prelude::*;
use vstd::string::StringExecFns;

verus! {

/// Why a call failed.
#[derive(Debug)]
pub enum Error {
    /// The transport failed.
    Http(String),
    /// The response body could not be read in its character set.
    Encoding(String),
    /// The response was not JSON, or not of the expected shape.
    Deserializing(String),
    /// The service answered with a failure of its own.
    Api(String),
}

impl Error {
    /// The text that describes the error.
    pub open spec fn spec_message(self) -> Seq<char> {
        match self {
            Error::Http(m) => "http error: "@ + m@,
            Error::Encoding(m) => "decoding API response failed: "@ + m@,
            Error::Deserializing(m) => "deserializing API response failed: "@ + m@,
            Error::Api(m) => "API error: "@ + m@,
        }
    }

    /// Describes the error in one line.
    pub fn message(&self) -> (r: String)
        ensures
            r@ == self.spec_message(),
    {
        match self {
            Error::Http(m) => "http error: ".to_owned().concat(m.as_str()),
            Error::Encoding(m) => "decoding API response failed: ".to_owned().concat(m.as_str()),
            Error::Deserializing(m) => "deserializing API response failed: ".to_owned().concat(
                m.as_str(),
            ),
            Error::Api(m) => "API error: ".to_owned().concat(m.as_str()),
        }
    }
}

/// What a response of the wrong shape is reported with.
pub open spec fn shape_message() -> Seq<char> {
    "data did not match any expected shape"@
}

fn shape_error() -> (e: Error)
    ensures
        e matches Error::Deserializing(m) && m@ == shape_message(),
{
    Error::Deserializing("data did not match any expected shape".to_owned())
}

/// The tokens of a session. Only the access token is ever used.
#[derive(Debug)]
pub struct TuyaApiTokens {
    pub access_token: String,
    pub refresh_token: Option<String>,
    pub token_type: Option<String>,
    pub expires_in: Option<i64>,
}

/// The mathematical value of [`TuyaApiTokens`].
pub struct TokensView {
    pub access_token: Seq<char>,
    pub refresh_token: Option<Seq<char>>,
    pub token_type: Option<Seq<char>>,
    pub expires_in: Option<int>,
}

/// The view of an optional string.
pub open spec fn text_view(text: Option<String>) -> Option<Seq<char>> {
    match text {
        Some(s) => Some(s@),
        None => None,
    }
}

impl View for TuyaApiTokens {
    type V = TokensView;

    open spec fn view(&self) -> TokensView {
        TokensView {
            access_token: self.access_token@,
            refresh_token: text_view(self.refresh_token),
            token_type: text_view(self.token_type),
            expires_in: match self.expires_in {
                Some(n) => Some(n as int),
                None => None,
            },
        }
    }
}

impl TuyaApiTokens {
    pub fn access_token(&self) -> (r: AccessToken)
        ensures
            r@ == self@.access_token,
    {
        AccessToken::new(self.access_token.clone())
    }
}

/// The member `key` where it is an integer.
pub open spec fn int_member(j: JsonView, key: Seq<char>) -> Option<int> {
    match j.member(key) {
        Some(JsonView::Int(n)) => Some(n),
        _ => None,
    }
}

/// The success shape of a login response: a string `access_token`, and each of
/// `refresh_token`, `token_type` (strings) and `expires_in` (an integer) either
/// of its type, `null` or missing.
pub open spec fn is_token_shape(j: JsonView) -> bool {
    &&& j.text_member("access_token"@) is Some
    &&& j.optional_text_member("refresh_token"@)
    &&& j.optional_text_member("token_type"@)
    &&& j.optional_int_member("expires_in"@)
}

/// The tokens that a response of the success shape holds.
pub open spec fn tokens_of(j: JsonView) -> TokensView {
    TokensView {
        access_token: j.text_member("access_token"@).unwrap(),
        refresh_token: j.text_member("refresh_token"@),
        token_type: j.text_member("token_type"@),
        expires_in: int_member(j, "expires_in"@),
    }
}

/// The error shape of a login response: strings `errorMsg` and `responseStatus`.
pub open spec fn is_error_shape(j: JsonView) -> bool {
    &&& j.text_member("errorMsg"@) is Some
    &&& j.text_member("responseStatus"@) is Some
}

/// A login response, told apart by its members alone.
#[derive(Debug)]
pub enum LoginResponse {
    Success(TuyaApiTokens),
    Error { error_msg: String, response_status: String },
}

/// The string member `key`, if the document has one.
fn text_of(j: &Json, key: &str) -> (r: Option<String>)
    ensures
        text_view(r) == j@.text_member(key@),
{
    match j.get(key) {
        Some(Json::Str(s)) => Some(s.clone()),
        _ => None,
    }
}

/// The string member `key`: `Some(None)` where it is missing or `null`, `None`
/// where it is of another type.
fn optional_text_of(j: &Json, key: &str) -> (r: Option<Option<String>>)
    ensures
        r is Some <==> j@.optional_text_member(key@),
        r matches Some(t) ==> text_view(t) == j@.text_member(key@),
{
    match j.get(key) {
        None => Some(None),
        Some(Json::Null) => Some(None),
        Some(Json::Str(s)) => Some(Some(s.clone())),
        _ => None,
    }
}

/// The integer member `key`, with the same three outcomes.
fn optional_int_of(j: &Json, key: &str) -> (r: Option<Option<i64>>)
    ensures
        r is Some <==> j@.optional_int_member(key@),
        r matches Some(n) ==> match n {
            Some(v) => int_member(j@, key@) == Some(v as int),
            None => int_member(j@, key@) is None,
        },
{
    match j.get(key) {
        None => Some(None),
        Some(Json::Null) => Some(None),
        Some(Json::Int(n)) => Some(Some(*n)),
        _ => None,
    }
}

fn tokens_from_json(j: &Json) -> (r: Option<TuyaApiTokens>)
    ensures
        r is Some <==> is_token_shape(j@),
        r matches Some(t) ==> t@ == tokens_of(j@),
{
    let access_token = match text_of(j, "access_token") {
        Some(s) => s,
        None => return None,
    };
    let refresh_token = match optional_text_of(j, "refresh_token") {
        Some(t) => t,
        None => return None,
    };
    let token_type = match optional_text_of(j, "token_type") {
        Some(t) => t,
        None => return None,
    };
    let expires_in = match optional_int_of(j, "expires_in") {
        Some(n) => n,
        None => return None,
    };
    Some(TuyaApiTokens { access_token, refresh_token, token_type, expires_in })
}

impl LoginResponse {
    /// Reads a login response: the success shape is tried first, then the error
    /// shape; a document of neither shape is no login response.
    pub fn from_json(j: &Json) -> (r: Option<LoginResponse>)
        ensures
            match r {
                Some(LoginResponse::Success(t)) => is_token_shape(j@) && t@ == tokens_of(j@),
                Some(LoginResponse::Error { error_msg, response_status }) => {
                    &&& !is_token_shape(j@)
                    &&& j@.text_member("errorMsg"@) == Some(error_msg@)
                    &&& j@.text_member("responseStatus"@) == Some(response_status@)
                },
                None => !is_token_shape(j@) && !is_error_shape(j@),
            },
    {
        if let Some(tokens) = tokens_from_json(j) {
            return Some(LoginResponse::Success(tokens));
        }
        let error_msg = match text_of(j, "errorMsg") {
            Some(s) => s,
            None => return None,
        };
        let response_status = match text_of(j, "responseStatus") {
            Some(s) => s,
            None => return None,
        };
        Some(LoginResponse::Error { error_msg, response_status })
    }

    /// The tokens of a successful login; the service's message, as an `Api`
    /// error, of a failed one.
    pub fn to_result(self) -> (r: Result<TuyaApiTokens, Error>)
        ensures
            match self {
                LoginResponse::Success(t) => r == Ok::<TuyaApiTokens, Error>(t),
                LoginResponse::Error { error_msg, .. } => r == Err::<TuyaApiTokens, Error>(
                    Error::Api(error_msg),
                ),
            },
    {
        match self {
            LoginResponse::Success(token) => Ok(token),
            LoginResponse::Error { error_msg, .. } => Err(Error::Api(error_msg)),
        }
    }
}

/// Whether `r` is the outcome that the login response `j` calls for: the tokens
/// of the success shape; else an `Api` error with the message of the error
/// shape; else a `Deserializing` error.
pub open spec fn is_login_result(j: JsonView, r: Result<TuyaApiTokens, Error>) -> bool {
    match r {
        Ok(t) => is_token_shape(j) && t@ == tokens_of(j),
        Err(Error::Api(m)) => {
            &&& !is_token_shape(j)
            &&& is_error_shape(j)
            &&& j.text_member("errorMsg"@) == Some(m@)
        },
        Err(Error::Deserializing(m)) => {
            &&& !is_token_shape(j)
            &&& !is_error_shape(j)
            &&& m@ == shape_message()
        },
        Err(_) => false,
    }
}

/// Decodes a login response.
pub fn decode_login(j: &Json) -> (r: Result<TuyaApiTokens, Error>)
    ensures
        is_login_result(j@, r),
{
    match LoginResponse::from_json(j) {
        Some(response) => response.to_result(),
        None => Err(shape_error()),
    }
}

/// Decodes the text of a login response. A text that is not JSON gives a
/// `Deserializing` error.
pub fn decode_login_text(text: &str) -> (r: Result<TuyaApiTokens, Error>)
    ensures
        match parsed_document(text@) {
            Some(j) => is_login_result(j, r),
            None => r matches Err(Error::Deserializing(_)),
        },
{
    match parse(text) {
        Ok(j) => decode_login(&j),
        Err(message) => Err(Error::Deserializing(message)),
    }
}

/// A login response of the error shape never decodes to a `Deserializing`
/// error, and one of the success shape always decodes to its tokens.
pub proof fn lemma_login_discrimination(j: JsonView, r: Result<TuyaApiTokens, Error>)
    requires
        is_login_result(j, r),
    ensures
        is_token_shape(j) ==> r is Ok,
        is_error_shape(j) ==> !(r matches Err(Error::Deserializing(_))),
        !is_token_shape(j) && is_error_shape(j) ==> (r matches Err(Error::Api(m))
            && j.text_member("errorMsg"@) == Some(m@)),
{
}

/// A record of a discovery response.
#[derive(Debug)]
pub enum ScanDevice {
    Light(Light),
    Unknown,
}

/// The mathematical value of a [`ScanDevice`].
pub enum ScanDeviceView {
    Light(LightView),
    Unknown,
}

impl View for ScanDevice {
    type V = ScanDeviceView;

    open spec fn view(&self) -> ScanDeviceView {
        match self {
            ScanDevice::Light(l) => ScanDeviceView::Light(l@),
            ScanDevice::Unknown => ScanDeviceView::Unknown,
        }
    }
}

/// Whether a record tagged as a light has what a light is built from: a
/// string `name` and a string `id`.
pub open spec fn is_light_record(j: JsonView) -> bool {
    &&& j.text_member("name"@) is Some
    &&& j.text_member("id"@) is Some
}

/// How a device record reads: a light, with its `id` and `name`, where the tag
/// `dev_type` is `light`; unknown under any other tag; `None` where the tag is
/// missing or a light record is incomplete.
pub open spec fn device_record(j: JsonView) -> Option<ScanDeviceView> {
    match j.text_member("dev_type"@) {
        None => None,
        Some(kind) => if kind == "light"@ {
            if is_light_record(j) {
                Some(
                    ScanDeviceView::Light(
                        LightView {
                            name: j.text_member("name"@).unwrap(),
                            id: j.text_member("id"@).unwrap(),
                        },
                    ),
                )
            } else {
                None
            }
        } else {
            Some(ScanDeviceView::Unknown)
        },
    }
}

/// The lights among the records, in their order; `None` where a record cannot
/// be read.
pub open spec fn lights_in(records: Seq<JsonView>) -> Option<Seq<LightView>>
    decreases records.len(),
{
    if records.len() == 0 {
        Some(Seq::empty())
    } else {
        match (lights_in(records.drop_last()), device_record(records.last())) {
            (Some(lights), Some(ScanDeviceView::Light(light))) => Some(lights.push(light)),
            (Some(lights), Some(ScanDeviceView::Unknown)) => Some(lights),
            _ => None,
        }
    }
}

/// The lights of a discovery response: those among the array `devices` of the
/// member `payload`.
pub open spec fn discovered_lights(j: JsonView) -> Option<Seq<LightView>> {
    match j.member("payload"@) {
        Some(payload) => match payload.member("devices"@) {
            Some(JsonView::Array(records)) => lights_in(records),
            _ => None,
        },
        None => None,
    }
}

/// The views of a list of lights.
pub open spec fn lights_view(lights: Seq<Light>) -> Seq<LightView> {
    Seq::new(lights.len(), |i: int| lights[i]@)
}

impl ScanDevice {
    /// Reads one device record.
    pub fn from_json(j: &Json) -> (r: Option<ScanDevice>)
        ensures
            match r {
                Some(d) => device_record(j@) == Some(d@),
                None => device_record(j@) is None,
            },
    {
        let kind = match text_of(j, "dev_type") {
            Some(kind) => kind,
            None => return None,
        };
        if kind != "light".to_owned() {
            return Some(ScanDevice::Unknown);
        }
        let name = match text_of(j, "name") {
            Some(s) => s,
            None => return None,
        };
        let id = match text_of(j, "id") {
            Some(s) => s,
            None => return None,
        };
        Some(ScanDevice::Light(Light::from_parts(name, id)))
    }
}

proof fn lemma_unreadable_prefix(records: Seq<JsonView>, n: int)
    requires
        0 <= n <= records.len(),
        lights_in(records.take(n)) is None,
    ensures
        lights_in(records) is None,
    decreases records.len() - n,
{
    if n < records.len() {
        assert(records.take(n + 1).drop_last() =~= records.take(n));
        lemma_unreadable_prefix(records, n + 1);
    } else {
        assert(records.take(n) =~= records);
    }
}

/// Keeps the lights among the records of a discovery response and drops every
/// record of another kind.
pub fn lights_from_records(records: &Vec<Json>) -> (r: Option<Vec<Light>>)
    ensures
        match r {
            Some(lights) => lights_in(items_view(records@)) == Some(lights_view(lights@)),
            None => lights_in(items_view(records@)) is None,
        },
{
    let ghost all = items_view(records@);
    let mut lights: Vec<Light> = Vec::new();
    let mut i: usize = 0;
    proof {
        assert(lights_view(lights@) =~= Seq::empty());
    }
    while i < records.len()
        invariant
            0 <= i <= records.len(),
            all == items_view(records@),
            lights_in(all.take(i as int)) == Some(lights_view(lights@)),
        decreases records.len() - i,
    {
        proof {
            assert(all.take(i as int + 1).drop_last() =~= all.take(i as int));
            assert(all.take(i as int + 1).last() == records@[i as int]@);
        }
        match ScanDevice::from_json(&records[i]) {
            Some(ScanDevice::Light(light)) => {
                let ghost before = lights@;
                lights.push(light);
                proof {
                    assert(lights_view(lights@) =~= lights_view(before).push(light@));
                }
            },
            Some(ScanDevice::Unknown) => {},
            None => {
                proof {
                    lemma_unreadable_prefix(all, i as int + 1);
                }
                return None;
            },
        }
        i += 1;
    }
    proof {
        assert(all.take(i as int) =~= all);
    }
    Some(lights)
}

/// Of a light record and a record of another kind, in either order, exactly the
/// light is kept, with its `id` and `name` unchanged.
pub proof fn lemma_one_light_among_two(light: JsonView, other: JsonView, found: LightView)
    requires
        device_record(light) == Some(ScanDeviceView::Light(found)),
        device_record(other) == Some(ScanDeviceView::Unknown),
    ensures
        lights_in(seq![light, other]) == Some(seq![found]),
        lights_in(seq![other, light]) == Some(seq![found]),
        found.id == light.text_member("id"@).unwrap(),
        found.name == light.text_member("name"@).unwrap(),
{
    reveal_with_fuel(lights_in, 3);
    let first = seq![light, other];
    assert(first.drop_last() =~= seq![light]);
    assert(first.drop_last().drop_last() =~= Seq::<JsonView>::empty());
    assert(Seq::<LightView>::empty().push(found) =~= seq![found]);
    let second = seq![other, light];
    assert(second.drop_last() =~= seq![other]);
    assert(second.drop_last().drop_last() =~= Seq::<JsonView>::empty());
}

/// Whether `r` is the outcome that the discovery response `j` calls for.
pub open spec fn is_discovery_result(j: JsonView, r: Result<Vec<Light>, Error>) -> bool {
    match r {
        Ok(lights) => discovered_lights(j) == Some(lights_view(lights@)),
        Err(Error::Deserializing(m)) => discovered_lights(j) is None && m@ == shape_message(),
        Err(_) => false,
    }
}

/// Decodes a discovery response into the lights it lists.
pub fn decode_discovery(j: &Json) -> (r: Result<Vec<Light>, Error>)
    ensures
        is_discovery_result(j@, r),
{
    let payload = match j.get("payload") {
        Some(payload) => payload,
        None => return Err(shape_error()),
    };
    let devices = match payload.get("devices") {
        Some(devices) => devices,
        None => return Err(shape_error()),
    };
    proof {
        devices.lemma_view_unfold();
    }
    match devices {
        Json::Array(records) => match lights_from_records(records) {
            Some(lights) => Ok(lights),
            None => Err(shape_error()),
        },
        _ => Err(shape_error()),
    }
}

/// Decodes the text of a discovery response.
pub fn decode_discovery_text(text: &str) -> (r: Result<Vec<Light>, Error>)
    ensures
        match parsed_document(text@) {
            Some(j) => is_discovery_result(j, r),
            None => r matches Err(Error::Deserializing(_)),
        },
{
    match parse(text) {
        Ok(j) => decode_discovery(&j),
        Err(message) => Err(Error::Deserializing(message)),
    }
}

/// The code of an acknowledgement: the string `code` of the member `header`.
pub open spec fn acknowledgement_code(j: JsonView) -> Option<Seq<char>> {
    match j.member("header"@) {
        Some(header) => header.text_member("code"@),
        None => None,
    }
}

/// Whether `r` is the outcome that the acknowledgement `j` calls for: `Ok` for
/// the code `SUCCESS`, an `Api` error that carries the code for any other.
pub open spec fn is_acknowledgement_result(j: JsonView, r: Result<(), Error>) -> bool {
    match r {
        Ok(_) => acknowledgement_code(j) == Some("SUCCESS"@),
        Err(Error::Api(m)) => acknowledgement_code(j) == Some(m@) && m@ != "SUCCESS"@,
        Err(Error::Deserializing(m)) => acknowledgement_code(j) is None && m@
            == shape_message(),
        Err(_) => false,
    }
}

/// Decodes the acknowledgement of a command.
pub fn decode_acknowledgement(j: &Json) -> (r: Result<(), Error>)
    ensures
        is_acknowledgement_result(j@, r),
{
    let header = match j.get("header") {
        Some(header) => header,
        None => return Err(shape_error()),
    };
    match text_of(header, "code") {
        Some(code) => {
            if code == "SUCCESS".to_owned() {
                Ok(())
            } else {
                Err(Error::Api(code))
            }
        },
        None => Err(shape_error()),
    }
}

/// Decodes the text of an acknowledgement.
pub fn decode_acknowledgement_text(text: &str) -> (r: Result<(), Error>)
    ensures
        match parsed_document(text@) {
            Some(j) => is_acknowledgement_result(j, r),
            None => r matches Err(Error::Deserializing(_)),
        },
{
    match parse(text) {
        Ok(j) => decode_acknowledgement(&j),
        Err(message) => Err(Error::Deserializing(message)),
    }
}

/// The description of the error that a failed acknowledgement gives ends with
/// the service's code.
pub proof fn lemma_acknowledgement_names_code(j: JsonView, r: Result<(), Error>)
    requires
        is_acknowledgement_result(j, r),
        acknowledgement_code(j) is Some,
    ensures
        acknowledgement_code(j) == Some("SUCCESS"@) <==> r is Ok,
        r matches Err(e) ==> (e is Api && e.spec_message() == "API error: "@
            + acknowledgement_code(j).unwrap()),
{
}

} // verus!
