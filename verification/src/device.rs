//! Device handles and the session's access token.
use vstd::prelude::*;
use vstd::utf8::encode_utf8;

verus! {

/// The vendor-assigned identifier of a device.
#[derive(Debug, Clone)]
pub struct DeviceId(String);

impl View for DeviceId {
    type V = Seq<char>;

    closed spec fn view(&self) -> Seq<char> {
        self.0@
    }
}

impl DeviceId {
    /// Wraps an identifier that the service handed out.
    pub fn new(id: String) -> (r: DeviceId)
        ensures
            r@ == id@,
    {
        DeviceId(id)
    }

    pub fn as_str(&self) -> (r: &str)
        ensures
            r@ == self@,
    {
        self.0.as_str()
    }

    /// A copy with the same identifier.
    pub fn duplicate(&self) -> (r: DeviceId)
        ensures
            r@ == self@,
    {
        DeviceId(self.0.clone())
    }
}

/// The mathematical value of a [`Light`].
pub struct LightView {
    pub name: Seq<char>,
    pub id: Seq<char>,
}

/// A light known to the service: its identifier and its display name.
#[derive(Debug, Clone)]
pub struct Light {
    pub name: String,
    device_id: DeviceId,
}

impl View for Light {
    type V = LightView;

    closed spec fn view(&self) -> LightView {
        LightView { name: self.name@, id: self.device_id@ }
    }
}

impl Light {
    /// A light as a discovery response or a stored device list describes it.
    pub fn from_parts(name: String, id: String) -> (r: Light)
        ensures
            r@ == (LightView { name: name@, id: id@ }),
    {
        Light { name, device_id: DeviceId::new(id) }
    }

    /// The display name; it need not be unique.
    pub fn label(&self) -> (r: &str)
        ensures
            r@ == self@.name,
    {
        self.name.as_str()
    }

    pub fn id(&self) -> (r: &str)
        ensures
            r@ == self@.id,
    {
        self.device_id.as_str()
    }

    /// The identifier, for use in a command.
    pub fn device_id(&self) -> (r: DeviceId)
        ensures
            r@ == self@.id,
    {
        self.device_id.duplicate()
    }

    /// Two handles name the same device exactly when their identifiers are equal;
    /// names play no part.
    pub fn same_device(&self, other: &Light) -> (r: bool)
        ensures
            r == (self@.id == other@.id),
    {
        self.device_id.0 == other.device_id.0
    }
}

/// The token that authorises every request of a session.
pub struct AccessToken(String);

impl View for AccessToken {
    type V = Seq<char>;

    closed spec fn view(&self) -> Seq<char> {
        self.0@
    }
}

impl AccessToken {
    pub fn new(token: String) -> (r: AccessToken)
        ensures
            r@ == token@,
    {
        AccessToken(token)
    }

    pub fn as_str(&self) -> (r: &str)
        ensures
            r@ == self@,
    {
        self.0.as_str()
    }

    pub fn into_string(self) -> (r: String)
        ensures
            r@ == self@,
    {
        self.0
    }

    /// The bytes of the token as they are stored: its UTF-8 text, nothing added.
    pub open spec fn stored_bytes(&self) -> Seq<u8> {
        encode_utf8(self@)
    }

    /// Appends the token to `writer`, verbatim.
    pub fn write_to(&self, writer: &mut Vec<u8>)
        ensures
            final(writer)@ == old(writer)@ + self.stored_bytes(),
    {
        writer.extend_from_slice(self.0.as_str().as_bytes());
        proof {
            assert(final(writer)@ =~= old(writer)@ + self.stored_bytes());
        }
    }

    /// Takes what was read from a stored token as the token, verbatim.
    pub fn read_from(stored: String) -> (r: AccessToken)
        ensures
            r@ == stored@,
    {
        AccessToken(stored)
    }
}

} // verus!
