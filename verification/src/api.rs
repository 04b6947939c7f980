//! The session: how it is opened, and the request that each operation sends.
use crate::command::{encode, CommandView, HsbColor, State, TuyaCommand, WireRequest, wire_request};
use crate::device::{AccessToken, Light};
use crate::json::parsed_document;
use crate::response::{
    decode_login_text, is_login_result, tokens_of, is_token_shape, Error, TokensView,
    TuyaApiTokens,
};
use crate::units::{to_vendor_percent, to_vendor_units, vendor_percent, vendor_units};
use encoding::all::ISO_8859_1;
use encoding::{DecoderTrap, Encoding};
use vstd::prelude::*;
use vstd::string::StringExecFns;

verus! {

/// What a login needs: the account's name and password. The service also
/// expects three fixed fields, which [`Credentials::form_fields`] adds.
pub struct Credentials {
    pub user_name: String,
    pub password: String,
}

/// The views of a list of form fields.
pub open spec fn form_view(fields: Seq<(String, String)>) -> Seq<(Seq<char>, Seq<char>)> {
    Seq::new(fields.len(), |i: int| (fields[i].0@, fields[i].1@))
}

/// The form of a login: the account, then country code 1, the business type
/// and the origin tag.
pub open spec fn login_form(user_name: Seq<char>, password: Seq<char>) -> Seq<
    (Seq<char>, Seq<char>),
> {
    seq![
        ("userName"@, user_name),
        ("password"@, password),
        ("countryCode"@, "1"@),
        ("bizType"@, "smart_life"@),
        ("from"@, "tuya"@),
    ]
}

impl Credentials {
    pub fn new(user_name: String, password: String) -> (r: Credentials)
        ensures
            r.user_name@ == user_name@,
            r.password@ == password@,
    {
        Credentials { user_name, password }
    }

    /// The fields of the login form, in order.
    pub fn form_fields(&self) -> (r: Vec<(String, String)>)
        ensures
            form_view(r@) == login_form(self.user_name@, self.password@),
    {
        let mut fields: Vec<(String, String)> = Vec::new();
        fields.push(("userName".to_owned(), self.user_name.clone()));
        fields.push(("password".to_owned(), self.password.clone()));
        fields.push(("countryCode".to_owned(), "1".to_owned()));
        fields.push(("bizType".to_owned(), "smart_life".to_owned()));
        fields.push(("from".to_owned(), "tuya".to_owned()));
        proof {
            assert(form_view(fields@) =~= login_form(self.user_name@, self.password@));
        }
        fields
    }
}

/// The two endpoints of the service.
#[derive(Debug, Clone, Copy, PartialEq, Eq, Structural)]
pub enum TuyaEndpoint {
    Login,
    Skill,
}

impl TuyaEndpoint {
    /// The last segment of the endpoint's address.
    pub open spec fn segment(self) -> Seq<char> {
        match self {
            TuyaEndpoint::Login => "auth.do"@,
            TuyaEndpoint::Skill => "skill"@,
        }
    }
}

/// The address of an endpoint.
pub fn endpoint_uri(endpoint: TuyaEndpoint) -> (r: String)
    ensures
        r@ == "https://px1.tuyaus.com/homeassistant/"@ + endpoint.segment(),
{
    let base = "https://px1.tuyaus.com/homeassistant/".to_owned();
    match endpoint {
        TuyaEndpoint::Login => base.concat("auth.do"),
        TuyaEndpoint::Skill => base.concat("skill"),
    }
}

/// The text of a body in ISO 8859-1: each byte is the character of that code.
pub open spec fn latin1_text(bytes: Seq<u8>) -> Seq<char> {
    Seq::new(bytes.len(), |i: int| bytes[i] as char)
}

/// `ISO_8859_1.decode` of the crate `encoding`, in strict mode, with the error
/// turned into an owned string. Trusted: the decoder maps every byte to the
/// character of the same code and rejects none, so the call succeeds with
/// exactly that text.
#[verifier::external_body]
fn decode_latin1(bytes: &[u8]) -> (r: Result<String, String>)
    ensures
        r is Ok,
        r matches Ok(text) ==> text@ == latin1_text(bytes@),
{
    ISO_8859_1.decode(bytes, DecoderTrap::Strict).map_err(|e| e.into_owned())
}

/// A session with the service. It holds its tokens unchanged for its lifetime.
pub struct TuyaApi {
    tokens: TuyaApiTokens,
}

impl View for TuyaApi {
    type V = TokensView;

    closed spec fn view(&self) -> TokensView {
        self.tokens@
    }
}

impl TuyaApi {
    /// Opens a session from the body of a login response: the body is read as
    /// ISO 8859-1, parsed, and decoded as a login response.
    pub fn new(login_body: &[u8]) -> (r: Result<TuyaApi, Error>)
        ensures
            match parsed_document(latin1_text(login_body@)) {
                Some(j) => match r {
                    Ok(api) => is_token_shape(j) && api@ == tokens_of(j),
                    Err(e) => is_login_result(j, Err(e)),
                },
                None => r matches Err(Error::Deserializing(_)),
            },
    {
        let text = match decode_latin1(login_body) {
            Ok(text) => text,
            Err(message) => return Err(Error::Encoding(message)),
        };
        match decode_login_text(text.as_str()) {
            Ok(tokens) => Ok(TuyaApi { tokens }),
            Err(e) => Err(e),
        }
    }

    /// The access token, for keeping between runs.
    pub fn dump_token(&self) -> (r: AccessToken)
        ensures
            r@ == self@.access_token,
    {
        self.tokens.access_token()
    }

    /// Opens a session on a token obtained earlier. The token is not checked:
    /// the service rejects a stale one at the first request.
    pub fn from_token(token: AccessToken) -> (r: TuyaApi)
        ensures
            r@ == (TokensView {
                access_token: token@,
                refresh_token: None,
                token_type: None,
                expires_in: None,
            }),
    {
        TuyaApi {
            tokens: TuyaApiTokens {
                access_token: token.into_string(),
                refresh_token: None,
                token_type: None,
                expires_in: None,
            },
        }
    }

    fn request(&self, command: TuyaCommand) -> (r: WireRequest)
        ensures
            r@ == wire_request(command@, self@.access_token),
    {
        encode(&command, &self.tokens.access_token())
    }

    /// The request that asks for the account's devices.
    pub fn scan(&self) -> (r: WireRequest)
        ensures
            r@ == wire_request(CommandView::Discovery, self@.access_token),
    {
        self.request(TuyaCommand::Discovery)
    }

    /// The request that switches a light on or off.
    pub fn set_state(&self, light: &Light, state: State) -> (r: WireRequest)
        ensures
            r@ == wire_request(
                CommandView::TurnOnOff { device: light@.id, state },
                self@.access_token,
            ),
    {
        self.request(TuyaCommand::TurnOnOff { device_id: light.device_id(), state })
    }

    /// The request that sets a light's brightness, given in 0..=255 and sent as
    /// a percentage.
    pub fn set_brightness(&self, light: &Light, brightness: u8) -> (r: WireRequest)
        ensures
            r@ == wire_request(
                CommandView::SetBrightness {
                    device: light@.id,
                    brightness: vendor_percent(brightness as int),
                },
                self@.access_token,
            ),
    {
        self.request(
            TuyaCommand::SetBrightness {
                device_id: light.device_id(),
                brightness: to_vendor_percent(brightness),
            },
        )
    }

    /// The request that sets a light's colour.
    pub fn set_color(&self, light: &Light, color: HsbColor) -> (r: WireRequest)
        ensures
            r@ == wire_request(
                CommandView::SetColor { device: light@.id, color },
                self@.access_token,
            ),
    {
        self.request(TuyaCommand::SetColor { device_id: light.device_id(), color })
    }

    /// The request that sets a light's colour temperature, given in Kelvin and
    /// sent in vendor units.
    pub fn set_color_temperature(&self, light: &Light, temperature: u32) -> (r: WireRequest)
        ensures
            r@ == wire_request(
                CommandView::SetColorTemperature {
                    device: light@.id,
                    temperature: vendor_units(temperature as int),
                },
                self@.access_token,
            ),
    {
        self.request(
            TuyaCommand::SetColorTemperature {
                device_id: light.device_id(),
                temperature: to_vendor_units(temperature),
            },
        )
    }

    /// The request that asks for a light's state.
    pub fn query(&self, light: &Light) -> (r: WireRequest)
        ensures
            r@ == wire_request(CommandView::QueryDevice { device: light@.id }, self@.access_token),
    {
        self.request(TuyaCommand::QueryDevice { device_id: light.device_id() })
    }
}

/// The brightness command that a session builds is in the service's range for
/// every brightness in 0..=255, and the temperature command for every
/// temperature of 2700 K and above.
pub proof fn lemma_converted_commands_in_range(device: Seq<char>, brightness: int, kelvin: int)
    requires
        0 <= brightness <= 255,
        kelvin >= 2700,
    ensures
        (CommandView::SetBrightness {
            device,
            brightness: vendor_percent(brightness),
        }).in_vendor_range(),
        (CommandView::SetColorTemperature {
            device,
            temperature: vendor_units(kelvin),
        }).in_vendor_range(),
{
}

} // verus!
