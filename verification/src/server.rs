//! The decisions of the server: who is connected, what the messages of a
//! tick ask for, which snapshot every client has seen, and when an empty
//! game ends. Sockets, clocks and queues are the caller's.

use vstd::prelude::*;
use vstd::string::StringSliceAdditionalSpecFns;
use crate::crossy_ruleset::GameConfig;
use crate::game::GameState;
use crate::game::Input;
use crate::game::Pos;
use crate::game::CoordPos;
use crate::interop::ClientHello;
use crate::interop::ClientTick;
use crate::interop::CrossyMessage;
use crate::interop::InitServerResponse;
use crate::interop::LindenServerTick;
use crate::interop::ServerDescription;
use crate::interop::TimeRequestIntermediate;
use crate::interop::TimeRequestPacket;
use crate::interop::TimeResponsePacket;
use crate::player_id_map::PlayerId;
use crate::player_id_map::PlayerIdMap;
use crate::player_id_map::MAX_PLAYERS;
use crate::timeline::RemoteInput;
use crate::timeline::RemoteTickState;
use crate::timeline::Timeline;
use crate::timeline::TimelineView;

verus! {

/// The version that the server announces.
pub const SERVER_VERSION: u8 = 1;

/// After this many ticks in a row without a second listener the game ends.
pub const EMPTY_TICKS_SHUTDOWN: u32 = 1200;

/// The spawn zone of the lobby: seven columns and seven rows from (7, 7).
pub const SPAWN_X0: i32 = 7;

pub const SPAWN_Y0: i32 = 7;

pub const SPAWN_SIDE: i32 = 7;

/// Names one connection.
#[derive(Clone, Copy, Debug, PartialEq, Eq, Structural)]
pub struct SocketId(pub u32);

/// The player of a connection, and the last tick that came from it.
#[derive(Clone, Copy, Debug, PartialEq, Eq, Structural)]
pub struct PlayerClient {
    pub id: PlayerId,
    pub last_tick_us: u32,
    pub last_frame_id: u32,
}

/// One connection; it has a player once it plays.
#[derive(Clone, Copy, Debug, PartialEq, Eq, Structural)]
pub struct SocketClient {
    pub player_client: Option<PlayerClient>,
    pub socket_id: SocketId,
}

/// What the messages of one tick ask for.
#[derive(Debug)]
pub struct ReceivedUpdates {
    pub client_updates: Vec<RemoteInput>,
    pub dropped_players: Vec<PlayerId>,
    pub ready_players: Vec<(PlayerId, bool)>,
    pub forwards: Vec<TimeRequestIntermediate>,
}

/// `ReceivedUpdates` as the contracts see it.
pub struct ReceivedView {
    pub client_updates: Seq<RemoteInput>,
    pub dropped_players: Seq<PlayerId>,
    pub ready_players: Seq<(PlayerId, bool)>,
    pub forwards: Seq<TimeRequestIntermediate>,
}

impl View for ReceivedUpdates {
    type V = ReceivedView;

    open spec fn view(&self) -> ReceivedView {
        ReceivedView {
            client_updates: self.client_updates@,
            dropped_players: self.dropped_players@,
            ready_players: self.ready_players@,
            forwards: self.forwards@,
        }
    }
}

/// The state of one game on the server.
#[derive(Debug)]
pub struct ServerInner {
    pub empty_ticks: u32,
    pub new_players: Vec<PlayerId>,
    pub clients: Vec<SocketClient>,
    pub timeline: Timeline,
    pub next_socket_id: SocketId,
    pub ended: bool,
}

/// What a tick of the server sends: the tick itself, or the farewell of a
/// game that has ended.
#[derive(Debug)]
pub enum ServerTickOutcome {
    Tick(LindenServerTick),
    GoodBye,
}

/// The index of the first connection at or after `from` with the socket `id`.
pub open spec fn spec_client_index(clients: Seq<SocketClient>, id: SocketId, from: int) -> Option<
    int,
>
    decreases clients.len() - from,
{
    if from < 0 || from >= clients.len() {
        None
    } else if clients[from].socket_id == id {
        Some(from)
    } else {
        spec_client_index(clients, id, from + 1)
    }
}

/// The player of the connection with the socket `id`, if it has one.
pub open spec fn spec_player_of(clients: Seq<SocketClient>, id: SocketId) -> Option<PlayerClient> {
    match spec_client_index(clients, id, 0) {
        Some(i) => clients[i].player_client,
        None => None,
    }
}

/// The connections after the tick `t` has come from the socket `id`: the
/// player of that socket has been heard of at the time and frame of the tick.
pub open spec fn spec_heard(clients: Seq<SocketClient>, id: SocketId, t: ClientTick) -> Seq<
    SocketClient,
> {
    match spec_client_index(clients, id, 0) {
        Some(i) => match clients[i].player_client {
            Some(pc) => clients.update(
                i,
                SocketClient {
                    player_client: Some(
                        PlayerClient {
                            id: pc.id,
                            last_tick_us: t.time_us,
                            last_frame_id: t.frame_id,
                        },
                    ),
                    socket_id: id,
                },
            ),
            None => clients,
        },
        None => clients,
    }
}

/// What has been received after one more message from the socket `id`. A
/// tick of a client that plays says whether the player is ready and, unless
/// the player asks for nothing, gives an input; a drop takes the player of
/// the socket out; a time request on its way is forwarded. Messages from sockets that are not known, or do
/// not play, and all other messages, are ignored.
pub open spec fn spec_received_one(
    clients: Seq<SocketClient>,
    r: ReceivedView,
    message: CrossyMessage,
    id: SocketId,
) -> ReceivedView {
    match message {
        CrossyMessage::ClientTick(t) => match spec_player_of(clients, id) {
            Some(pc) => ReceivedView {
                client_updates: if t.input == Input::NoInput {
                    r.client_updates
                } else {
                    r.client_updates.push(
                        RemoteInput { frame_id: t.frame_id, player_id: pc.id, input: t.input },
                    )
                },
                ready_players: r.ready_players.push((pc.id, t.lobby_ready)),
                ..r
            },
            None => r,
        },
        CrossyMessage::ClientDrop => match spec_player_of(clients, id) {
            Some(pc) => ReceivedView { dropped_players: r.dropped_players.push(pc.id), ..r },
            None => r,
        },
        CrossyMessage::TimeRequestIntermediate(x) => ReceivedView {
            forwards: r.forwards.push(x),
            ..r
        },
        _ => r,
    }
}

/// The connections after one more message from the socket `id`.
pub open spec fn spec_clients_after_one(
    clients: Seq<SocketClient>,
    message: CrossyMessage,
    id: SocketId,
) -> Seq<SocketClient> {
    match message {
        CrossyMessage::ClientTick(t) => spec_heard(clients, id, t),
        _ => clients,
    }
}

/// The connections after the first `n` queued messages, in their order.
pub open spec fn spec_clients_after(
    clients: Seq<SocketClient>,
    queued: Seq<(CrossyMessage, SocketId)>,
    n: int,
) -> Seq<SocketClient>
    decreases n,
{
    if n <= 0 {
        clients
    } else {
        spec_clients_after_one(
            spec_clients_after(clients, queued, n - 1),
            queued[n - 1].0,
            queued[n - 1].1,
        )
    }
}

/// What has been received after the first `n` queued messages, in their order.
pub open spec fn spec_received(
    clients: Seq<SocketClient>,
    queued: Seq<(CrossyMessage, SocketId)>,
    n: int,
) -> ReceivedView
    decreases n,
{
    if n <= 0 {
        ReceivedView {
            client_updates: Seq::empty(),
            dropped_players: Seq::empty(),
            ready_players: Seq::empty(),
            forwards: Seq::empty(),
        }
    } else {
        spec_received_one(
            spec_clients_after(clients, queued, n - 1),
            spec_received(clients, queued, n - 1),
            queued[n - 1].0,
            queued[n - 1].1,
        )
    }
}

/// The `k`th tile of the spawn zone: column after column, each from the top.
pub open spec fn spec_spawn_cell(k: int) -> Pos {
    Pos::Coord(CoordPos { x: (SPAWN_X0 + k / 7) as i32, y: (SPAWN_Y0 + k % 7) as i32 })
}

/// The first tile of the spawn zone at or after the `k`th that no player
/// stands on or moves to.
pub open spec fn spec_spawn_from(game_state: GameState, k: int) -> Option<Pos>
    decreases 49 - k,
{
    if k < 0 || k >= 49 {
        None
    } else if !game_state.spec_space_occupied_with_player(spec_spawn_cell(k), None) {
        Some(spec_spawn_cell(k))
    } else {
        spec_spawn_from(game_state, k + 1)
    }
}

/// Where a new player appears: the first free tile of the spawn zone, or
/// `None` when every tile is taken.
pub fn find_spawn_pos(game_state: &GameState) -> (r: Option<Pos>)
    ensures
        r == spec_spawn_from(*game_state, 0),
{
    let mut k: i32 = 0;
    while k < 49
        invariant
            0 <= k <= 49,
            spec_spawn_from(*game_state, 0) == spec_spawn_from(*game_state, k as int),
        decreases 49 - k,
    {
        let pos = Pos::new_coord(SPAWN_X0 + k / 7, SPAWN_Y0 + k % 7);
        if !game_state.space_occupied_with_player(pos, None) {
            return Some(pos);
        }
        k = k + 1;
    }
    None
}

/// The oldest frame that the players of all connections have reported,
/// among the first `n` connections; `top` where none has a player, and
/// never more than `top`.
pub open spec fn spec_lkg_frame(clients: Seq<SocketClient>, top: u32, n: int) -> u32
    decreases n,
{
    if n <= 0 {
        top
    } else {
        let before = spec_lkg_frame(clients, top, n - 1);
        match clients[n - 1].player_client {
            Some(pc) => if pc.last_frame_id < before {
                pc.last_frame_id
            } else {
                before
            },
            None => before,
        }
    }
}

/// The snapshot that a tick names as last known good: that of the oldest
/// reported frame; the oldest that the timeline has where that frame is gone.
pub open spec fn spec_lkg_state(v: TimelineView, clients: Seq<SocketClient>) -> GameState {
    match v.spec_try_get_state(spec_lkg_frame(clients, v.top().frame_id, clients.len() as int)) {
        Some(s) => s,
        None => v.oldest(),
    }
}

/// The count of empty ticks after a tick with `listener_count` listeners:
/// one more with at most one listener, 0 with more.
pub open spec fn spec_empty_ticks(empty_ticks: u32, listener_count: usize) -> u32 {
    if listener_count <= 1 {
        if empty_ticks < u32::MAX {
            (empty_ticks + 1) as u32
        } else {
            u32::MAX
        }
    } else {
        0
    }
}

/// The timeline with the first `n` new players put on free spawn tiles; a
/// player for whom no tile is free is left out.
pub open spec fn spec_admitted(v: TimelineView, ids: Seq<PlayerId>, n: int) -> TimelineView
    decreases n,
{
    if n <= 0 {
        v
    } else {
        let before = spec_admitted(v, ids, n - 1);
        match spec_spawn_from(before.top(), 0) {
            Some(pos) => before.spec_with_top(before.top().spec_add_player(ids[n - 1], pos)),
            None => before,
        }
    }
}

/// The timeline without the first `n` dropped players.
pub open spec fn spec_without(v: TimelineView, ids: Seq<PlayerId>, n: int) -> TimelineView
    decreases n,
{
    if n <= 0 {
        v
    } else {
        let before = spec_without(v, ids, n - 1);
        before.spec_with_top(before.top().spec_remove_player(ids[n - 1]))
    }
}

/// The timeline with the first `n` reports of readiness recorded.
pub open spec fn spec_readied(v: TimelineView, ready: Seq<(PlayerId, bool)>, n: int)
    -> TimelineView
    decreases n,
{
    if n <= 0 {
        v
    } else {
        let before = spec_readied(v, ready, n - 1);
        before.spec_with_top(before.top().spec_set_player_ready(ready[n - 1].0, ready[n - 1].1))
    }
}

/// The timeline of the server after a tick: new players come in, dropped
/// players go, readiness is recorded, the inputs of the clients are
/// propagated, and the world advances by one tick.
pub open spec fn spec_server_timeline(
    v: TimelineView,
    new_players: Seq<PlayerId>,
    updates: ReceivedView,
    dt_us: u32,
) -> TimelineView {
    spec_readied(
        spec_without(
            spec_admitted(v, new_players, new_players.len() as int),
            updates.dropped_players,
            updates.dropped_players.len() as int,
        ),
        updates.ready_players,
        updates.ready_players.len() as int,
    ).spec_propagate_inputs(updates.client_updates).spec_tick(
        crate::game::PlayerInputs::spec_new(),
        dt_us,
    )
}

/// With the socket `player` a time request becomes a request on its way,
/// stamped with the time at which the server received it.
pub fn stamp_time_request(request: &TimeRequestPacket, player: SocketId, server_receive_time_us: u32)
    -> (r: TimeRequestIntermediate)
    ensures
        r == (TimeRequestIntermediate {
            client_send_time_us: request.client_send_time_us,
            server_receive_time_us,
            socket_id: player.0,
        }),
{
    TimeRequestIntermediate {
        client_send_time_us: request.client_send_time_us,
        server_receive_time_us,
        socket_id: player.0,
    }
}

/// The answer that goes to the socket `socket_id` for a time request on its
/// way: `None` where the request came from another socket.
pub fn answer_time_request(
    request: &TimeRequestIntermediate,
    socket_id: SocketId,
    server_send_time_us: u32,
) -> (r: Option<TimeResponsePacket>)
    ensures
        r == if request.socket_id == socket_id.0 {
            Some(
                TimeResponsePacket {
                    client_send_time_us: request.client_send_time_us,
                    server_receive_time_us: request.server_receive_time_us,
                    server_send_time_us,
                },
            )
        } else {
            None::<TimeResponsePacket>
        },
{
    if request.socket_id == socket_id.0 {
        Some(
            TimeResponsePacket {
                client_send_time_us: request.client_send_time_us,
                server_receive_time_us: request.server_receive_time_us,
                server_send_time_us,
            },
        )
    } else {
        None
    }
}

impl ServerInner {
    /// The timeline keeps its ring invariant.
    pub open spec fn wf(&self) -> bool {
        self.timeline.wf()
    }

    /// Tests `wf`. Every server that this module has made passes.
    pub fn is_well_formed(&self) -> (r: bool)
        ensures
            r == self.wf(),
    {
        self.timeline.is_well_formed()
    }

    /// The server of a new game.
    pub fn new(config: GameConfig, seed: &str) -> (r: Self)
        ensures
            r.wf(),
            r.empty_ticks == 0,
            r.new_players@.len() == 0,
            r.clients@.len() == 0,
            r.next_socket_id == SocketId(0),
            !r.ended,
            r.timeline@ == crate::timeline::spec_single(
                r.timeline@.map,
                GameState::spec_new(config),
            ),
            r.timeline@.map.seed == crate::map::spec_seed_of(seed.spec_bytes()),
    {
        ServerInner {
            empty_ticks: 0,
            new_players: Vec::new(),
            clients: Vec::new(),
            timeline: Timeline::from_seed(config, seed),
            next_socket_id: SocketId(0),
            ended: false,
        }
    }

    /// What the server says of itself.
    pub fn get_server_description(&self) -> (r: ServerDescription)
        ensures
            r == (ServerDescription {
                server_version: SERVER_VERSION,
                seed: self.timeline@.map.seed,
            }),
    {
        ServerDescription { server_version: SERVER_VERSION, seed: self.timeline.map().get_seed() }
    }

    /// Registers a connection and gives it the next socket id. Ids count up
    /// from 0; `None` when they have run out.
    pub fn add_client(&mut self) -> (r: Option<SocketId>)
        ensures
            match r {
                Some(id) => id == old(self).next_socket_id && id.0 < u32::MAX
                    && final(self).next_socket_id == SocketId((id.0 + 1) as u32)
                    && final(self).clients@ == old(self).clients@.push(
                    SocketClient { player_client: None, socket_id: id },
                ),
                None => old(self).next_socket_id.0 == u32::MAX && final(self).clients@ == old(
                    self,
                ).clients@ && final(self).next_socket_id == old(self).next_socket_id,
            },
            final(self).timeline == old(self).timeline,
            final(self).new_players == old(self).new_players,
            final(self).empty_ticks == old(self).empty_ticks,
            final(self).ended == old(self).ended,
    {
        let socket_id = self.next_socket_id;
        if socket_id.0 == u32::MAX {
            return None;
        }
        self.next_socket_id = SocketId(socket_id.0 + 1);
        self.clients.push(SocketClient { player_client: None, socket_id });
        Some(socket_id)
    }

    /// The index of the connection with the socket `id`.
    pub fn get_client_by_addr(&self, id: SocketId) -> (r: Option<usize>)
        ensures
            match r {
                Some(i) => spec_client_index(self.clients@, id, 0) == Some(i as int) && i
                    < self.clients@.len() && self.clients@[i as int].socket_id == id,
                None => spec_client_index(self.clients@, id, 0) is None,
            },
    {
        let mut i: usize = 0;
        while i < self.clients.len()
            invariant
                i <= self.clients.len(),
                spec_client_index(self.clients@, id, 0) == spec_client_index(
                    self.clients@,
                    id,
                    i as int,
                ),
            decreases self.clients.len() - i,
        {
            if self.clients[i].socket_id == id {
                return Some(i);
            }
            i = i + 1;
        }
        None
    }

    /// Lets the connection with the socket `socket_id` play: it gets the
    /// lowest player id that no connection and no snapshot holds, and the
    /// player joins the game with the next tick. `None`, and nothing
    /// changes, where the socket is not known, already plays, or the game
    /// is full.
    pub fn play(&mut self, hello: &ClientHello, socket_id: SocketId) -> (r: Option<
        InitServerResponse,
    >)
        requires
            old(self).wf(),
        ensures
            final(self).wf(),
            final(self).timeline == old(self).timeline,
            final(self).empty_ticks == old(self).empty_ticks,
            final(self).next_socket_id == old(self).next_socket_id,
            final(self).ended == old(self).ended,
            r is Some <==> spec_may_play(
                old(self).clients@,
                old(self).timeline@.top(),
                *hello,
                socket_id,
            ),
            match r {
                Some(response) => {
                    &&& spec_client_index(old(self).clients@, socket_id, 0) matches Some(i)
                    &&& response.server_version == SERVER_VERSION
                    &&& response.player_count == 0
                    &&& response.seed == old(self).timeline@.map.seed
                    &&& Some(response.player_id) == spec_free_id_from(
                        old(self).clients@,
                        old(self).timeline@.top(),
                        0,
                    )
                    &&& final(self).new_players@ == old(self).new_players@.push(
                        response.player_id,
                    )
                    &&& final(self).clients@ == old(self).clients@.update(
                        i,
                        SocketClient {
                            player_client: Some(
                                PlayerClient {
                                    id: response.player_id,
                                    last_tick_us: 0,
                                    last_frame_id: old(self).timeline@.top().frame_id,
                                },
                            ),
                            socket_id,
                        },
                    )
                },
                None => final(self).clients@ == old(self).clients@ && final(self).new_players@
                    == old(self).new_players@,
            },
    {
        if !hello.check(SERVER_VERSION) {
            return None;
        }
        let i = match self.get_client_by_addr(socket_id) {
            Some(i) => i,
            None => {
                return None;
            },
        };
        if self.clients[i].player_client.is_some() {
            return None;
        }
        let id = match self.next_player_id() {
            Some(id) => id,
            None => {
                return None;
            },
        };
        let top = self.timeline.top_state();
        self.new_players.push(id);
        self.clients.set(
            i,
            SocketClient {
                player_client: Some(
                    PlayerClient { id, last_tick_us: 0, last_frame_id: top.frame_id },
                ),
                socket_id,
            },
        );
        Some(
            InitServerResponse {
                server_version: SERVER_VERSION,
                player_count: 0,
                seed: self.timeline.map().get_seed(),
                player_id: id,
            },
        )
    }

    fn id_taken(&self, id: PlayerId) -> (r: bool)
        ensures
            r == spec_id_taken(self.clients@, id, self.clients@.len() as int),
    {
        let mut k: usize = 0;
        while k < self.clients.len()
            invariant
                k <= self.clients.len(),
                !spec_id_taken(self.clients@, id, k as int),
            decreases self.clients.len() - k,
        {
            match self.clients[k].player_client {
                Some(pc) => {
                    if pc.id == id {
                        return true;
                    }
                },
                None => {},
            }
            k = k + 1;
        }
        false
    }

    /// The lowest player id that no connection plays as and that the newest
    /// snapshot does not hold; `None` when all eight are taken.
    pub fn next_player_id(&self) -> (r: Option<PlayerId>)
        requires
            self.wf(),
        ensures
            r == spec_free_id_from(self.clients@, self.timeline@.top(), 0),
            r matches Some(id) ==> id.0 < MAX_PLAYERS,
    {
        let top = self.timeline.top_state();
        let mut i: u8 = 0;
        while i < MAX_PLAYERS as u8
            invariant
                i <= MAX_PLAYERS,
                top == self.timeline@.top(),
                spec_free_id_from(self.clients@, top, 0) == spec_free_id_from(
                    self.clients@,
                    top,
                    i as int,
                ),
            decreases MAX_PLAYERS - i,
        {
            let id = PlayerId(i);
            if !self.id_taken(id) && top.player_states.get(id).is_none() {
                return Some(id);
            }
            i = i + 1;
        }
        None
    }

    fn receive_one(&mut self, message: &CrossyMessage, id: SocketId, out: &mut ReceivedUpdates)
        ensures
            final(out)@ == spec_received_one(old(self).clients@, old(out)@, *message, id),
            final(self).clients@ == spec_clients_after_one(old(self).clients@, *message, id),
            final(self).timeline == old(self).timeline,
            final(self).new_players == old(self).new_players,
            final(self).empty_ticks == old(self).empty_ticks,
            final(self).next_socket_id == old(self).next_socket_id,
            final(self).ended == old(self).ended,
    {
        match message {
            CrossyMessage::ClientTick(t) => {
                match self.get_client_by_addr(id) {
                    Some(i) => {
                        match self.clients[i].player_client {
                            Some(pc) => {
                                self.clients.set(
                                    i,
                                    SocketClient {
                                        player_client: Some(
                                            PlayerClient {
                                                id: pc.id,
                                                last_tick_us: t.time_us,
                                                last_frame_id: t.frame_id,
                                            },
                                        ),
                                        socket_id: id,
                                    },
                                );
                                if t.input != Input::NoInput {
                                    out.client_updates.push(
                                        RemoteInput {
                                            frame_id: t.frame_id,
                                            player_id: pc.id,
                                            input: t.input,
                                        },
                                    );
                                }
                                out.ready_players.push((pc.id, t.lobby_ready));
                            },
                            None => {},
                        }
                    },
                    None => {},
                }
            },
            CrossyMessage::ClientDrop => {
                match self.get_client_by_addr(id) {
                    Some(i) => {
                        match self.clients[i].player_client {
                            Some(pc) => {
                                out.dropped_players.push(pc.id);
                            },
                            None => {},
                        }
                    },
                    None => {},
                }
            },
            CrossyMessage::TimeRequestIntermediate(x) => {
                out.forwards.push(*x);
            },
            _ => {},
        }
    }

    /// Reads the messages that were queued since the last tick, in the
    /// order in which they came.
    pub fn receive_updates(&mut self, queued: &Vec<(CrossyMessage, SocketId)>) -> (r:
        ReceivedUpdates)
        ensures
            r@ == spec_received(old(self).clients@, queued@, queued@.len() as int),
            final(self).clients@ == spec_clients_after(
                old(self).clients@,
                queued@,
                queued@.len() as int,
            ),
            final(self).timeline == old(self).timeline,
            final(self).new_players == old(self).new_players,
            final(self).empty_ticks == old(self).empty_ticks,
            final(self).next_socket_id == old(self).next_socket_id,
            final(self).ended == old(self).ended,
    {
        let mut out = ReceivedUpdates {
            client_updates: Vec::new(),
            dropped_players: Vec::new(),
            ready_players: Vec::new(),
            forwards: Vec::new(),
        };
        let mut n: usize = 0;
        while n < queued.len()
            invariant
                n <= queued.len(),
                out@ == spec_received(old(self).clients@, queued@, n as int),
                self.clients@ == spec_clients_after(old(self).clients@, queued@, n as int),
                self.timeline == old(self).timeline,
                self.new_players == old(self).new_players,
                self.empty_ticks == old(self).empty_ticks,
                self.next_socket_id == old(self).next_socket_id,
                self.ended == old(self).ended,
            decreases queued.len() - n,
        {
            self.receive_one(&queued[n].0, queued[n].1, &mut out);
            n = n + 1;
        }
        out
    }

    /// The oldest frame that the players of all connections have reported.
    pub fn lkg_frame(&self) -> (r: u32)
        requires
            self.wf(),
        ensures
            r == spec_lkg_frame(
                self.clients@,
                self.timeline@.top().frame_id,
                self.clients@.len() as int,
            ),
    {
        let mut frame = self.timeline.top_state().frame_id;
        let mut n: usize = 0;
        while n < self.clients.len()
            invariant
                n <= self.clients.len(),
                frame == spec_lkg_frame(
                    self.clients@,
                    self.timeline@.top().frame_id,
                    n as int,
                ),
            decreases self.clients.len() - n,
        {
            match self.clients[n].player_client {
                Some(pc) => {
                    if pc.last_frame_id < frame {
                        frame = pc.last_frame_id;
                    }
                },
                None => {},
            }
            n = n + 1;
        }
        frame
    }

    /// The snapshot that every client has seen.
    pub fn lkg_state(&self) -> (r: GameState)
        requires
            self.wf(),
        ensures
            r == spec_lkg_state(self.timeline@, self.clients@),
    {
        match self.timeline.try_get_state(self.lkg_frame()) {
            Some(s) => s,
            None => self.timeline.oldest_state(),
        }
    }

    fn admit_new_players(&mut self)
        requires
            old(self).wf(),
        ensures
            final(self).wf(),
            final(self).timeline@ == spec_admitted(
                old(self).timeline@,
                old(self).new_players@,
                old(self).new_players@.len() as int,
            ),
            final(self).new_players@.len() == 0,
            final(self).clients == old(self).clients,
            final(self).empty_ticks == old(self).empty_ticks,
            final(self).next_socket_id == old(self).next_socket_id,
            final(self).ended == old(self).ended,
    {
        let mut n: usize = 0;
        while n < self.new_players.len()
            invariant
                n <= self.new_players.len(),
                self.wf(),
                self.new_players == old(self).new_players,
                self.timeline@ == spec_admitted(
                    old(self).timeline@,
                    old(self).new_players@,
                    n as int,
                ),
                self.clients == old(self).clients,
                self.empty_ticks == old(self).empty_ticks,
                self.next_socket_id == old(self).next_socket_id,
                self.ended == old(self).ended,
            decreases self.new_players.len() - n,
        {
            let top = self.timeline.top_state();
            match find_spawn_pos(&top) {
                Some(pos) => {
                    self.timeline.add_player(self.new_players[n], pos);
                },
                None => {},
            }
            n = n + 1;
        }
        self.new_players.clear();
    }

    fn drop_players(&mut self, ids: &Vec<PlayerId>)
        requires
            old(self).wf(),
        ensures
            final(self).wf(),
            final(self).timeline@ == spec_without(old(self).timeline@, ids@, ids@.len() as int),
            final(self).new_players == old(self).new_players,
            final(self).clients == old(self).clients,
            final(self).empty_ticks == old(self).empty_ticks,
            final(self).next_socket_id == old(self).next_socket_id,
            final(self).ended == old(self).ended,
    {
        let mut n: usize = 0;
        while n < ids.len()
            invariant
                n <= ids.len(),
                self.wf(),
                self.timeline@ == spec_without(old(self).timeline@, ids@, n as int),
                self.new_players == old(self).new_players,
                self.clients == old(self).clients,
                self.empty_ticks == old(self).empty_ticks,
                self.next_socket_id == old(self).next_socket_id,
                self.ended == old(self).ended,
            decreases ids.len() - n,
        {
            self.timeline.remove_player(ids[n]);
            n = n + 1;
        }
    }

    fn mark_ready(&mut self, ready: &Vec<(PlayerId, bool)>)
        requires
            old(self).wf(),
        ensures
            final(self).wf(),
            final(self).timeline@ == spec_readied(
                old(self).timeline@,
                ready@,
                ready@.len() as int,
            ),
            final(self).new_players == old(self).new_players,
            final(self).clients == old(self).clients,
            final(self).empty_ticks == old(self).empty_ticks,
            final(self).next_socket_id == old(self).next_socket_id,
            final(self).ended == old(self).ended,
    {
        let mut n: usize = 0;
        while n < ready.len()
            invariant
                n <= ready.len(),
                self.wf(),
                self.timeline@ == spec_readied(old(self).timeline@, ready@, n as int),
                self.new_players == old(self).new_players,
                self.clients == old(self).clients,
                self.empty_ticks == old(self).empty_ticks,
                self.next_socket_id == old(self).next_socket_id,
                self.ended == old(self).ended,
            decreases ready.len() - n,
        {
            self.timeline.set_player_ready(ready[n].0, ready[n].1);
            n = n + 1;
        }
    }

    /// One tick of the server. The world takes in what the clients asked
    /// for and advances by `dt_us` microseconds. With at most one listener
    /// for more than `EMPTY_TICKS_SHUTDOWN` ticks in a row the game ends and
    /// the farewell is sent; else the tick that is sent names the newest
    /// snapshot, the snapshot that every client has seen, and the inputs
    /// for all frames after it.
    pub fn run_tick(&mut self, updates: &ReceivedUpdates, dt_us: u32, listener_count: usize) -> (r:
        ServerTickOutcome)
        requires
            old(self).wf(),
        ensures
            final(self).wf(),
            final(self).timeline@ == spec_server_timeline(
                old(self).timeline@,
                old(self).new_players@,
                updates@,
                dt_us,
            ),
            final(self).new_players@.len() == 0,
            final(self).clients == old(self).clients,
            final(self).next_socket_id == old(self).next_socket_id,
            final(self).empty_ticks == spec_empty_ticks(old(self).empty_ticks, listener_count),
            final(self).ended == (old(self).ended || final(self).empty_ticks
                > EMPTY_TICKS_SHUTDOWN),
            match r {
                ServerTickOutcome::GoodBye => final(self).empty_ticks > EMPTY_TICKS_SHUTDOWN,
                ServerTickOutcome::Tick(tick) => {
                    &&& final(self).empty_ticks <= EMPTY_TICKS_SHUTDOWN
                    &&& tick.latest.frame_id == final(self).timeline@.top().frame_id
                    &&& tick.latest.time_us == final(self).timeline@.top().time_us
                    &&& tick.latest.states@ == final(self).timeline@.top().spec_valid_player_states(
                        MAX_PLAYERS as int,
                    )
                    &&& tick.lkg_state == spec_lkg_state(final(self).timeline@, final(self).clients@)
                    &&& tick.delta_inputs@ == final(self).timeline@.spec_inputs_since(
                        tick.lkg_state.frame_id,
                        final(self).timeline@.states.len() as int,
                    )
                    &&& tick.rules_state == final(self).timeline@.top().rules_state
                    &&& forall|id: PlayerId|
                        tick.last_client_frame_id.spec_get(id) == spec_last_frames(
                            final(self).clients@,
                            final(self).clients@.len() as int,
                        ).spec_get(id)
                },
            },
    {
        self.admit_new_players();
        self.drop_players(&updates.dropped_players);
        self.mark_ready(&updates.ready_players);
        self.timeline.propagate_inputs(&updates.client_updates);
        self.timeline.tick(None, dt_us);

        self.empty_ticks = if listener_count <= 1 {
            if self.empty_ticks < u32::MAX {
                self.empty_ticks + 1
            } else {
                u32::MAX
            }
        } else {
            0
        };
        if self.empty_ticks > EMPTY_TICKS_SHUTDOWN {
            self.ended = true;
            return ServerTickOutcome::GoodBye;
        }
        let top = self.timeline.top_state();
        let lkg_state = self.lkg_state();
        ServerTickOutcome::Tick(
            LindenServerTick {
                latest: RemoteTickState {
                    frame_id: top.frame_id,
                    time_us: top.time_us,
                    states: top.get_valid_player_states(),
                },
                lkg_state,
                delta_inputs: self.timeline.inputs_since(lkg_state.frame_id),
                last_client_frame_id: self.last_frames(),
                rules_state: top.rules_state,
            },
        )
    }

    /// The last frame that each player has reported.
    pub fn last_frames(&self) -> (r: PlayerIdMap<u32>)
        ensures
            r == spec_last_frames(self.clients@, self.clients@.len() as int),
    {
        let mut frames: PlayerIdMap<u32> = PlayerIdMap { inner: [None;8] };
        proof {
            frames.lemma_ext_equal(spec_last_frames(self.clients@, 0));
        }
        let mut n: usize = 0;
        while n < self.clients.len()
            invariant
                n <= self.clients.len(),
                frames == spec_last_frames(self.clients@, n as int),
            decreases self.clients.len() - n,
        {
            match self.clients[n].player_client {
                Some(pc) => {
                    frames.set(pc.id, pc.last_frame_id);
                },
                None => {},
            }
            n = n + 1;
        }
        frames
    }
}

/// Whether one of the first `n` connections plays as `id`.
pub open spec fn spec_id_taken(clients: Seq<SocketClient>, id: PlayerId, n: int) -> bool {
    exists|k: int| 0 <= k < n && k < clients.len() && spec_plays_as(#[trigger] clients[k], id)
}

/// Whether no connection plays as `id` and the snapshot `top` has no such player.
pub open spec fn spec_id_free(clients: Seq<SocketClient>, top: GameState, id: PlayerId) -> bool {
    !spec_id_taken(clients, id, clients.len() as int) && top.player_states.spec_get(id) is None
}

/// The lowest free player id at or above `i`.
pub open spec fn spec_free_id_from(clients: Seq<SocketClient>, top: GameState, i: int) -> Option<
    PlayerId,
>
    decreases MAX_PLAYERS - i,
{
    if i < 0 || i >= MAX_PLAYERS {
        None
    } else if spec_id_free(clients, top, PlayerId(i as u8)) {
        Some(PlayerId(i as u8))
    } else {
        spec_free_id_from(clients, top, i + 1)
    }
}

/// Whether the connection with the socket `socket_id` may begin to play: its
/// greeting is in order, the socket is known and has no player yet, and a
/// player id is free.
pub open spec fn spec_may_play(
    clients: Seq<SocketClient>,
    top: GameState,
    hello: ClientHello,
    socket_id: SocketId,
) -> bool {
    &&& hello.spec_check(SERVER_VERSION)
    &&& match spec_client_index(clients, socket_id, 0) {
        Some(i) => clients[i].player_client is None,
        None => false,
    }
    &&& spec_free_id_from(clients, top, 0) is Some
}

/// Whether the connection plays as `id`.
pub open spec fn spec_plays_as(client: SocketClient, id: PlayerId) -> bool {
    match client.player_client {
        Some(pc) => pc.id == id,
        None => false,
    }
}

/// The last frame that each player of the first `n` connections has reported.
pub open spec fn spec_last_frames(clients: Seq<SocketClient>, n: int) -> PlayerIdMap<u32>
    decreases n,
{
    if n <= 0 {
        PlayerIdMap { inner: vstd::array::spec_array_fill_for_copy_type::<Option<u32>, 8>(None) }
    } else {
        match clients[n - 1].player_client {
            Some(pc) => spec_last_frames(clients, n - 1).spec_set(pc.id, pc.last_frame_id),
            None => spec_last_frames(clients, n - 1),
        }
    }
}

/// The frame of the snapshot that every client has seen is not after the
/// newest frame of the server, and not after the frame that any player has
/// reported.
pub proof fn lemma_lkg_frame_is_oldest(clients: Seq<SocketClient>, top: u32, n: int, k: int)
    requires
        0 <= k < n <= clients.len(),
    ensures
        spec_lkg_frame(clients, top, n) <= top,
        clients[k].player_client matches Some(pc) ==> spec_lkg_frame(clients, top, n)
            <= pc.last_frame_id,
    decreases n,
{
    lemma_lkg_frame_at_most_top(clients, top, n);
    if k < n - 1 {
        lemma_lkg_frame_is_oldest(clients, top, n - 1, k);
    }
}

/// The frame of the snapshot that every client has seen is not after the
/// newest frame of the server.
pub proof fn lemma_lkg_frame_at_most_top(clients: Seq<SocketClient>, top: u32, n: int)
    ensures
        spec_lkg_frame(clients, top, n) <= top,
    decreases n,
{
    if n > 0 {
        lemma_lkg_frame_at_most_top(clients, top, n - 1);
    }
}

} // verus!
