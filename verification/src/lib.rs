//! Client-side logic for a cloud smart-light service: unit conversion, request
//! encoding and response decoding, each with a proved contract.
pub mod api;
pub mod command;
pub mod device;
pub mod json;
pub mod response;
pub mod units;

pub use api::{endpoint_uri, Credentials, TuyaApi, TuyaEndpoint};
pub use command::{encode, HsbColor, RawHeader, State, TuyaCommand, WireRequest};
pub use device::{AccessToken, DeviceId, Light};
pub use json::Json;
pub use response::{Error, LoginResponse, ScanDevice, TuyaApiTokens};
