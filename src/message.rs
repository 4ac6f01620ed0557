use vstd::prelude::*;

use crate::error::Error;

verus! {

/// Identifier of a message within the recent history of a connection.
pub type MsgId = u64;

/// Identifier of a node, minted by the backend.
pub type NodeId = i32;

/// Identifier of a stored measurement, minted by the backend.
pub type MeasurementId = i32;

/// Identifier of a recorded firmware update attempt, minted by the backend.
pub type UpdateStatId = i32;

/// The largest value of a version component.
pub const VERSION_COMPONENT_MAX: u8 = 127;

/// A decimal number `mantissa / 10^scale`, as measured by a node.
#[derive(Clone, Copy, Debug, PartialEq, Eq, Structural)]
pub struct Decimal {
    pub mantissa: i64,
    pub scale: u32,
}

/// A firmware version `major.middle.minor`.
#[derive(Clone, Copy, Debug, PartialEq, Eq, Structural)]
pub struct Version {
    pub major: u8,
    pub middle: u8,
    pub minor: u8,
}

impl Version {
    /// Every component lies in `[0, 127]`.
    pub open spec fn valid(self) -> bool {
        &&& self.major <= VERSION_COMPONENT_MAX
        &&& self.middle <= VERSION_COMPONENT_MAX
        &&& self.minor <= VERSION_COMPONENT_MAX
    }

    /// Lexicographic order on `(major, middle, minor)`.
    pub open spec fn spec_lt(self, other: Version) -> bool {
        ||| self.major < other.major
        ||| (self.major == other.major && self.middle < other.middle)
        ||| (self.major == other.major && self.middle == other.middle && self.minor < other.minor)
    }

    /// The version with the given components, if each lies in `[0, 127]`.
    pub fn new(major: u8, middle: u8, minor: u8) -> (r: Option<Version>)
        ensures
            r == (if major <= VERSION_COMPONENT_MAX && middle <= VERSION_COMPONENT_MAX
                && minor <= VERSION_COMPONENT_MAX {
                Some(Version { major, middle, minor })
            } else {
                None::<Version>
            }),
    {
        if major <= VERSION_COMPONENT_MAX && middle <= VERSION_COMPONENT_MAX && minor
            <= VERSION_COMPONENT_MAX {
            Some(Version { major, middle, minor })
        } else {
            None
        }
    }

    /// Whether `self` comes strictly before `other` in lexicographic order.
    pub fn older_than(&self, other: &Version) -> (r: bool)
        ensures
            r == self.spec_lt(*other),
    {
        if self.major != other.major {
            self.major < other.major
        } else if self.middle != other.middle {
            self.middle < other.middle
        } else {
            self.minor < other.minor
        }
    }

    /// The components as the signed integers that a database column holds.
    pub fn to_signed_triple(&self) -> (r: (i16, i16, i16))
        ensures
            r.0 == self.major,
            r.1 == self.middle,
            r.2 == self.minor,
    {
        (self.major as i16, self.middle as i16, self.minor as i16)
    }

    /// The version whose components are the given signed integers; fails
    /// with `IntConversion` when one of them lies outside `[0, 127]`.
    pub fn from_signed_triple(major: i16, middle: i16, minor: i16) -> (r: Result<Version, Error>)
        ensures
            (0 <= major <= 127 && 0 <= middle <= 127 && 0 <= minor <= 127) ==> r == Ok::<
                Version,
                Error,
            >(Version { major: major as u8, middle: middle as u8, minor: minor as u8 }),
            !(0 <= major <= 127 && 0 <= middle <= 127 && 0 <= minor <= 127) ==> r == Err::<
                Version,
                Error,
            >(Error::IntConversion),
    {
        if 0 <= major && major <= 127 && 0 <= middle && middle <= 127 && 0 <= minor && minor
            <= 127 {
            Ok(Version { major: major as u8, middle: middle as u8, minor: minor as u8 })
        } else {
            Err(Error::IntConversion)
        }
    }
}

/// Per-node settings kept by the backend.
#[derive(Clone, Copy, Debug, PartialEq, Eq, Structural)]
pub struct NodeSettings {
    pub battery_ignore: bool,
    pub ota: bool,
    pub sleep_time: u16,
    pub sbop: bool,
    pub mute_notifications: bool,
}

impl NodeSettings {
    /// The settings of a database row; fails with `IntConversion` when the
    /// stored sleep time does not fit in 16 unsigned bits.
    pub fn from_row(
        battery_ignore: bool,
        ota: bool,
        sleep_time: i32,
        sbop: bool,
        mute_notifications: bool,
    ) -> (r: Result<NodeSettings, Error>)
        ensures
            0 <= sleep_time <= u16::MAX ==> r == Ok::<NodeSettings, Error>(
                NodeSettings {
                    battery_ignore,
                    ota,
                    sleep_time: sleep_time as u16,
                    sbop,
                    mute_notifications,
                },
            ),
            !(0 <= sleep_time <= u16::MAX) ==> r == Err::<NodeSettings, Error>(
                Error::IntConversion,
            ),
    {
        if 0 <= sleep_time && sleep_time <= u16::MAX as i32 {
            Ok(NodeSettings { battery_ignore, ota, sleep_time: sleep_time as u16, sbop, mute_notifications })
        } else {
            Err(Error::IntConversion)
        }
    }
}

/// A request sent by a node.
#[derive(Clone, Debug, PartialEq, Eq)]
pub enum Request {
    Handshake { mac: crate::mac::Mac },
    Ping,
    GetSettings,
    PostResults { temperature: Decimal, humidity: u8, air_pressure: Option<u16> },
    PostStats { battery: Decimal, wifi_ssid: String, wifi_rssi: i8 },
    SendNotification(String),
    UpdateCheck(Version),
    NextUpdateChunk(usize),
    ReportFirmwareUpdate(bool),
    Bye,
}

/// A response sent by the server.
#[derive(Clone, Debug, PartialEq, Eq)]
pub enum Response {
    Success,
    Reject,
    Pong,
    Settings(Option<NodeSettings>),
    UpdateAvailable(Version),
    FirmwareUpToDate,
    UpdatePart(Vec<u8>),
    UpdateEnd,
    Stalling,
    RateLimitExceeded,
    InvalidRequest,
    InternalServerError,
}

/// What a message carries.
#[derive(Clone, Debug, PartialEq, Eq)]
pub enum Payload {
    Request(Request),
    Response(Response),
}

/// A message: an id and a request or a response.
#[derive(Clone, Debug, PartialEq, Eq)]
pub struct Message {
    pub id: MsgId,
    pub payload: Payload,
}

impl Message {
    /// A response message with the given id.
    pub open spec fn new_response_spec(res: Response, id: MsgId) -> Message {
        Message { id, payload: Payload::Response(res) }
    }

    /// A response message with the given id.
    pub fn new_response(res: Response, id: MsgId) -> (r: Message)
        ensures
            r == Message::new_response_spec(res, id),
    {
        Message { id, payload: Payload::Response(res) }
    }

    /// A request message with the given id.
    pub fn new_request(req: Request, id: MsgId) -> (r: Message)
        ensures
            r == (Message { id, payload: Payload::Request(req) }),
    {
        Message { id, payload: Payload::Request(req) }
    }

    /// The request that the message carries, if it is one.
    pub fn take_request(self) -> (r: Option<Request>)
        ensures
            r == (match self.payload {
                Payload::Request(req) => Some(req),
                Payload::Response(_) => None::<Request>,
            }),
    {
        match self.payload {
            Payload::Request(req) => Some(req),
            Payload::Response(_) => None,
        }
    }
}

} // verus!
