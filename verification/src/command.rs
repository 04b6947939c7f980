//! Commands and their encoding as wire requests.
use crate::device::{AccessToken, DeviceId};
use crate::json::{fields_view, Json, JsonView};
use vstd::prelude::*;

verus! {

/// Whether a light is to be on or off.
#[derive(Debug, Clone, Copy, PartialEq, Eq, Structural)]
pub enum State {
    On,
    Off,
}

/// A colour as hue, saturation and brightness, in the service's own scales.
#[derive(Debug, Clone, Copy, PartialEq, Eq, Structural)]
pub struct HsbColor {
    pub brightness: u16,
    pub saturation: u16,
    pub hue: u16,
}

/// What the service can be asked to do. Values are in vendor units.
pub enum TuyaCommand {
    Discovery,
    TurnOnOff { device_id: DeviceId, state: State },
    SetBrightness { device_id: DeviceId, brightness: u8 },
    QueryDevice { device_id: DeviceId },
    SetColor { device_id: DeviceId, color: HsbColor },
    SetColorTemperature { device_id: DeviceId, temperature: i64 },
}

/// The mathematical value of a [`TuyaCommand`].
pub enum CommandView {
    Discovery,
    TurnOnOff { device: Seq<char>, state: State },
    SetBrightness { device: Seq<char>, brightness: int },
    QueryDevice { device: Seq<char> },
    SetColor { device: Seq<char>, color: HsbColor },
    SetColorTemperature { device: Seq<char>, temperature: int },
}

impl View for TuyaCommand {
    type V = CommandView;

    open spec fn view(&self) -> CommandView {
        match *self {
            TuyaCommand::Discovery => CommandView::Discovery,
            TuyaCommand::TurnOnOff { device_id, state } => CommandView::TurnOnOff {
                device: device_id@,
                state,
            },
            TuyaCommand::SetBrightness { device_id, brightness } => CommandView::SetBrightness {
                device: device_id@,
                brightness: brightness as int,
            },
            TuyaCommand::QueryDevice { device_id } => CommandView::QueryDevice {
                device: device_id@,
            },
            TuyaCommand::SetColor { device_id, color } => CommandView::SetColor {
                device: device_id@,
                color,
            },
            TuyaCommand::SetColorTemperature {
                device_id,
                temperature,
            } => CommandView::SetColorTemperature {
                device: device_id@,
                temperature: temperature as int,
            },
        }
    }
}

/// The header of a wire request.
pub struct RawHeader {
    pub payload_version: i32,
    pub namespace: String,
    pub name: String,
}

/// A request as the service expects it: a header and a payload object.
pub struct WireRequest {
    pub header: RawHeader,
    pub payload: Json,
}

/// The mathematical value of a [`WireRequest`].
pub struct WireView {
    pub payload_version: int,
    pub namespace: Seq<char>,
    pub name: Seq<char>,
    pub payload: JsonView,
}

impl View for WireRequest {
    type V = WireView;

    open spec fn view(&self) -> WireView {
        WireView {
            payload_version: self.header.payload_version as int,
            namespace: self.header.namespace@,
            name: self.header.name@,
            payload: self.payload@,
        }
    }
}

/// The colour object of a `colorSet` request.
pub open spec fn color_object(color: HsbColor) -> JsonView {
    JsonView::Object(
        seq![
            ("hue"@, JsonView::Int(color.hue as int)),
            ("saturation"@, JsonView::Int(color.saturation as int)),
            ("brightness"@, JsonView::Int(color.brightness as int)),
        ],
    )
}

impl CommandView {
    /// Whether the command's values lie in the ranges that the service accepts:
    /// percentages in 0..=100, a temperature in 1000..=10000. The hue is passed
    /// on as given.
    pub open spec fn in_vendor_range(self) -> bool {
        match self {
            CommandView::SetBrightness { brightness, .. } => 0 <= brightness <= 100,
            CommandView::SetColor { color, .. } => color.saturation <= 100 && color.brightness
                <= 100,
            CommandView::SetColorTemperature { temperature, .. } => 1000 <= temperature <= 10000,
            _ => true,
        }
    }

    /// The namespace under which the service files the command.
    pub open spec fn namespace(self) -> Seq<char> {
        match self {
            CommandView::Discovery => "discovery"@,
            CommandView::QueryDevice { .. } => "query"@,
            _ => "control"@,
        }
    }

    /// The service's name for the command.
    pub open spec fn wire_name(self) -> Seq<char> {
        match self {
            CommandView::Discovery => "Discovery"@,
            CommandView::TurnOnOff { .. } => "turnOnOff"@,
            CommandView::SetBrightness { .. } => "brightnessSet"@,
            CommandView::QueryDevice { .. } => "QueryDevice"@,
            CommandView::SetColor { .. } => "colorSet"@,
            CommandView::SetColorTemperature { .. } => "colorTemperatureSet"@,
        }
    }

    /// The `devId` member, for the commands that address a device.
    pub open spec fn device_fields(self) -> Seq<(Seq<char>, JsonView)> {
        match self {
            CommandView::Discovery => seq![],
            CommandView::TurnOnOff { device, .. }
            | CommandView::SetBrightness { device, .. }
            | CommandView::QueryDevice { device }
            | CommandView::SetColor { device, .. }
            | CommandView::SetColorTemperature { device, .. } => seq![
                ("devId"@, JsonView::Str(device)),
            ],
        }
    }

    /// The member that carries the command's value, where it has one.
    pub open spec fn value_fields(self) -> Seq<(Seq<char>, JsonView)> {
        match self {
            CommandView::Discovery | CommandView::QueryDevice { .. } => seq![],
            CommandView::TurnOnOff { state, .. } => seq![
                (
                    "value"@,
                    JsonView::Str(
                        match state {
                            State::On => "1"@,
                            State::Off => "0"@,
                        },
                    ),
                ),
            ],
            CommandView::SetBrightness { brightness, .. } => seq![
                ("value"@, JsonView::Int(brightness)),
            ],
            CommandView::SetColor { color, .. } => seq![("color"@, color_object(color))],
            CommandView::SetColorTemperature { temperature, .. } => seq![
                ("value"@, JsonView::Int(temperature)),
            ],
        }
    }
}

/// The wire request for a command under a token: schema version 1, the command's
/// namespace and name, and a payload of `accessToken`, then `devId` and the
/// value member where the command has them.
pub open spec fn wire_request(command: CommandView, token: Seq<char>) -> WireView {
    WireView {
        payload_version: 1,
        namespace: command.namespace(),
        name: command.wire_name(),
        payload: JsonView::Object(
            seq![("accessToken"@, JsonView::Str(token))] + command.device_fields()
                + command.value_fields(),
        ),
    }
}

fn device_member(device_id: &DeviceId) -> (r: (String, Json))
    ensures
        r.0@ == "devId"@,
        r.1@ == JsonView::Str(device_id@),
{
    ("devId".to_owned(), Json::Str(device_id.as_str().to_owned()))
}

fn int_member(key: &str, value: i64) -> (r: (String, Json))
    ensures
        r.0@ == key@,
        r.1@ == JsonView::Int(value as int),
{
    (key.to_owned(), Json::Int(value))
}

fn color_member(color: &HsbColor) -> (r: (String, Json))
    ensures
        r.0@ == "color"@,
        r.1@ == color_object(*color),
{
    let mut parts: Vec<(String, Json)> = Vec::new();
    parts.push(int_member("hue", color.hue as i64));
    parts.push(int_member("saturation", color.saturation as i64));
    parts.push(int_member("brightness", color.brightness as i64));
    let object = Json::Object(parts);
    proof {
        object.lemma_view_unfold();
        assert(fields_view(parts@) =~= color_object(*color)->Object_0);
    }
    ("color".to_owned(), object)
}

/// Encodes a command for sending under the given token. Every command can be
/// encoded; the same command and token always give the same request.
pub fn encode(command: &TuyaCommand, access_token: &AccessToken) -> (r: WireRequest)
    ensures
        r@ == wire_request(command@, access_token@),
{
    let mut fields: Vec<(String, Json)> = Vec::new();
    fields.push(("accessToken".to_owned(), Json::Str(access_token.as_str().to_owned())));
    let (namespace, name) = match command {
        TuyaCommand::Discovery => ("discovery", "Discovery"),
        TuyaCommand::TurnOnOff { device_id, state } => {
            fields.push(device_member(device_id));
            let value = match state {
                State::On => "1",
                State::Off => "0",
            };
            fields.push(("value".to_owned(), Json::Str(value.to_owned())));
            ("control", "turnOnOff")
        },
        TuyaCommand::SetBrightness { device_id, brightness } => {
            fields.push(device_member(device_id));
            fields.push(int_member("value", *brightness as i64));
            ("control", "brightnessSet")
        },
        TuyaCommand::QueryDevice { device_id } => {
            fields.push(device_member(device_id));
            ("query", "QueryDevice")
        },
        TuyaCommand::SetColor { device_id, color } => {
            fields.push(device_member(device_id));
            fields.push(color_member(color));
            ("control", "colorSet")
        },
        TuyaCommand::SetColorTemperature { device_id, temperature } => {
            fields.push(device_member(device_id));
            fields.push(int_member("value", *temperature));
            ("control", "colorTemperatureSet")
        },
    };
    let payload = Json::Object(fields);
    proof {
        payload.lemma_view_unfold();
        assert(fields_view(fields@) =~= wire_request(command@, access_token@).payload->Object_0);
    }
    WireRequest {
        header: RawHeader {
            payload_version: 1,
            namespace: namespace.to_owned(),
            name: name.to_owned(),
        },
        payload,
    }
}

/// The JSON body of a request: the member `header`, which holds
/// `payloadVersion`, `namespace` and `name`, and the member `payload`.
pub open spec fn envelope(request: WireView) -> JsonView {
    JsonView::Object(
        seq![
            (
                "header"@,
                JsonView::Object(
                    seq![
                        ("payloadVersion"@, JsonView::Int(request.payload_version)),
                        ("namespace"@, JsonView::Str(request.namespace)),
                        ("name"@, JsonView::Str(request.name)),
                    ],
                ),
            ),
            ("payload"@, request.payload),
        ],
    )
}

impl WireRequest {
    /// The request as the JSON document that is sent.
    pub fn into_json(self) -> (r: Json)
        ensures
            r@ == envelope(self@),
    {
        let ghost view = self@;
        let mut header: Vec<(String, Json)> = Vec::new();
        header.push(int_member("payloadVersion", self.header.payload_version as i64));
        header.push(("namespace".to_owned(), Json::Str(self.header.namespace)));
        header.push(("name".to_owned(), Json::Str(self.header.name)));
        let header_object = Json::Object(header);
        let mut members: Vec<(String, Json)> = Vec::new();
        members.push(("header".to_owned(), header_object));
        members.push(("payload".to_owned(), self.payload));
        let document = Json::Object(members);
        proof {
            header_object.lemma_view_unfold();
            document.lemma_view_unfold();
            assert(fields_view(header@) =~= envelope(view)->Object_0[0].1->Object_0);
            assert(fields_view(members@) =~= envelope(view)->Object_0);
        }
        document
    }
}

/// Every request carries the token it was encoded under, as the member
/// `accessToken` of its payload.
pub proof fn lemma_request_carries_token(command: CommandView, token: Seq<char>)
    ensures
        wire_request(command, token).payload.member("accessToken"@) == Some(
            JsonView::Str(token),
        ),
{
    let fields = wire_request(command, token).payload->Object_0;
    assert(fields[0] == ("accessToken"@, JsonView::Str(token)));
}

/// Encoding has no hidden input: two requests encoded from the same command
/// and token are equal.
pub proof fn lemma_encode_deterministic(
    first: WireRequest,
    second: WireRequest,
    command: CommandView,
    token: Seq<char>,
)
    requires
        first@ == wire_request(command, token),
        second@ == wire_request(command, token),
    ensures
        first@ == second@,
{
}

/// A request to switch a device on is filed under `control` as `turnOnOff`, and
/// its payload holds the token as `accessToken`, the device as `devId` and the
/// string `"1"` as `value`.
pub proof fn lemma_turn_on_request(device: Seq<char>, token: Seq<char>)
    ensures
        ({
            let request = wire_request(
                CommandView::TurnOnOff { device, state: State::On },
                token,
            );
            &&& request.payload_version == 1
            &&& request.namespace == "control"@
            &&& request.name == "turnOnOff"@
            &&& request.payload.member("accessToken"@) == Some(JsonView::Str(token))
            &&& request.payload.member("devId"@) == Some(JsonView::Str(device))
            &&& request.payload.member("value"@) == Some(JsonView::Str("1"@))
        }),
{
    reveal_strlit("accessToken");
    reveal_strlit("devId");
    reveal_strlit("value");
    let command = CommandView::TurnOnOff { device, state: State::On };
    let fields = wire_request(command, token).payload->Object_0;
    assert(fields =~= seq![
        ("accessToken"@, JsonView::Str(token)),
        ("devId"@, JsonView::Str(device)),
        ("value"@, JsonView::Str("1"@)),
    ]);
    reveal_with_fuel(crate::json::first_value, 4);
    assert(fields.drop_first() =~= seq![
        ("devId"@, JsonView::Str(device)),
        ("value"@, JsonView::Str("1"@)),
    ]);
    assert(fields.drop_first().drop_first() =~= seq![("value"@, JsonView::Str("1"@))]);
    assert("accessToken"@ != "devId"@) by {
        assert("accessToken"@.len() == 11);
        assert("devId"@.len() == 5);
    }
    assert("accessToken"@ != "value"@) by {
        assert("accessToken"@.len() == 11);
        assert("value"@.len() == 5);
    }
    assert("devId"@ != "value"@) by {
        assert("devId"@[0] == 'd');
        assert("value"@[0] == 'v');
    }
}

} // verus!
