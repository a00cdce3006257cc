//! The messages that clients and servers exchange.

use vstd::prelude::*;
use crate::crossy_ruleset::RulesState;
use crate::game::GameState;
use crate::game::Input;
use crate::player_id_map::PlayerId;
use crate::player_id_map::PlayerIdMap;
use crate::timeline::RemoteInput;
use crate::timeline::RemoteTickState;

verus! {

/// The four bytes with which a client greets a server: `helo`.
pub const INIT_MESSAGE: [u8; 4] = [104, 101, 108, 111];

/// The version of the protocol that this library speaks.
pub const CURRENT_VERSION: u8 = 1;

/// The greeting of a client.
#[derive(Clone, Copy, Debug)]
pub struct ClientHello {
    pub header: [u8; 4],
    pub version: u8,
}

/// The answer of a server to a client that may play.
#[derive(Clone, Copy, Debug, PartialEq, Eq, Structural)]
pub struct InitServerResponse {
    pub server_version: u8,
    pub player_count: u8,
    pub seed: u32,
    pub player_id: PlayerId,
}

/// What a server says of itself.
#[derive(Clone, Copy, Debug, PartialEq, Eq, Structural)]
pub struct ServerDescription {
    pub server_version: u8,
    pub seed: u32,
}

/// The input of a client for one frame.
#[derive(Clone, Copy, Debug, PartialEq, Eq, Structural)]
pub struct ClientTick {
    pub time_us: u32,
    pub frame_id: u32,
    pub input: Input,
    pub lobby_ready: bool,
}

/// The tick of the server: its newest snapshot in short, the last snapshot
/// that every client has acknowledged, and the inputs since.
#[derive(Debug)]
pub struct LindenServerTick {
    pub latest: RemoteTickState,
    pub lkg_state: GameState,
    pub delta_inputs: Vec<RemoteInput>,
    pub last_client_frame_id: PlayerIdMap<u32>,
    pub rules_state: RulesState,
}

/// The first of the four time stamps of a clock exchange.
#[derive(Clone, Copy, Debug, PartialEq, Eq, Structural)]
pub struct TimeRequestPacket {
    pub client_send_time_us: u32,
}

/// A time request on its way through the server, with the socket it came from.
#[derive(Clone, Copy, Debug, PartialEq, Eq, Structural)]
pub struct TimeRequestIntermediate {
    pub client_send_time_us: u32,
    pub server_receive_time_us: u32,
    pub socket_id: u32,
}

/// The answer to a time request.
#[derive(Clone, Copy, Debug, PartialEq, Eq, Structural)]
pub struct TimeResponsePacket {
    pub client_send_time_us: u32,
    pub server_receive_time_us: u32,
    pub server_send_time_us: u32,
}

/// All four time stamps of a clock exchange.
#[derive(Clone, Copy, Debug, PartialEq, Eq, Structural)]
pub struct TimeRequestEnd {
    pub client_send_time_us: u32,
    pub client_receive_time_us: u32,
    pub server_receive_time_us: u32,
    pub server_send_time_us: u32,
}

#[allow(non_camel_case_types)]
#[derive(Clone, Copy, Debug, PartialEq, Eq, Structural)]
pub struct Telemetry_ClientReceiveEvent {
    pub server_send_frame_id: u32,
    pub receive_frame_id: u32,
    pub delta_input_server_frame_times_min: Option<u32>,
    pub delta_input_server_frame_times_max: Option<u32>,
    pub delta_input_server_frame_times_count: u32,
}

#[allow(non_camel_case_types)]
#[derive(Clone, Copy, Debug, PartialEq, Eq, Structural)]
pub struct Telemetry_LatencyEstimate {
    pub estimated_latency_us: i32,
    pub estimated_frame_delta: i32,
    pub estimated_server_current_frame_id: u32,
}

/// One measurement that a client reports.
#[derive(Clone, Copy, Debug, PartialEq, Eq, Structural)]
pub enum TelemetryMessage {
    ClientReceiveEvent(Telemetry_ClientReceiveEvent),
    LatencyEstimate(Telemetry_LatencyEstimate),
}

/// Measurements that travel together.
#[derive(Debug)]
pub struct TelemetryMessagePackage {
    pub messages: Vec<TelemetryMessage>,
}

/// Every message of the protocol.
#[derive(Debug)]
pub enum CrossyMessage {
    Hello(ClientHello),
    HelloResponse(InitServerResponse),
    ServerDecription(ServerDescription),
    ClientTick(ClientTick),
    ClientDrop,
    LindenServerTick(LindenServerTick),
    TimeRequestPacket(TimeRequestPacket),
    TimeRequestIntermediate(TimeRequestIntermediate),
    TimeResponsePacket(TimeResponsePacket),
    TelemetryMessagePackage(TelemetryMessagePackage),
    GoodBye,
    EmptyMessage,
}

impl Default for ClientHello {
    /// The greeting of a client of this version.
    fn default() -> (r: Self)
        ensures
            r == ClientHello::spec_default(),
    {
        ClientHello { header: INIT_MESSAGE, version: CURRENT_VERSION }
    }
}

impl ClientHello {
    /// The greeting of a client of this version.
    pub open spec fn spec_default() -> ClientHello {
        ClientHello { header: INIT_MESSAGE, version: CURRENT_VERSION }
    }

    /// Whether the greeting is well formed and its version is new enough.
    pub open spec fn spec_check(self, required_version: u8) -> bool {
        self.header@ == INIT_MESSAGE@ && self.version >= required_version
    }

    pub fn check(&self, required_version: u8) -> (r: bool)
        ensures
            r == self.spec_check(required_version),
    {
        let mut i: usize = 0;
        while i < 4
            invariant
                i <= 4,
                forall|k: int| 0 <= k < i ==> self.header[k] == INIT_MESSAGE[k],
            decreases 4 - i,
        {
            if self.header[i] != INIT_MESSAGE[i] {
                assert(self.header@[i as int] != INIT_MESSAGE@[i as int]);
                return false;
            }
            i = i + 1;
        }
        assert(self.header@ =~= INIT_MESSAGE@);
        self.version >= required_version
    }
}

impl TimeRequestEnd {
    /// The exchange that a response completes when it is received at
    /// `client_receive_time_us`.
    pub fn from_response(response: &TimeResponsePacket, client_receive_time_us: u32) -> (r: Self)
        ensures
            r == (TimeRequestEnd {
                client_send_time_us: response.client_send_time_us,
                client_receive_time_us,
                server_receive_time_us: response.server_receive_time_us,
                server_send_time_us: response.server_send_time_us,
            }),
    {
        TimeRequestEnd {
            client_send_time_us: response.client_send_time_us,
            client_receive_time_us,
            server_receive_time_us: response.server_receive_time_us,
            server_send_time_us: response.server_send_time_us,
        }
    }
}

} // verus!
