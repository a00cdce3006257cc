//! What a front end shares with the core without drawing anything: menu
//! inputs, the kinds of things on screen, and the transitions of the rules
//! that a front end reacts to.

use vstd::prelude::*;
use crate::crossy_ruleset::CrossyRulesetFST;
use crate::game::CoordPos;
use crate::game::Input;
use crate::game::PlayerInputs;
use crate::game::Pos;
use crate::player_id_map::PlayerId;
use crate::timeline::Timeline;
use crate::rng::spec_choose_index;
use crate::rng::FroggyRng;

verus! {

/// What a player asks of a menu.
#[derive(Clone, Copy, Debug, PartialEq, Eq, Structural)]
pub enum MenuInput {
    NoInput,
    Up,
    Down,
    Left,
    Right,
    Select,
    ReturnToGame,
}

/// The kinds of things that a front end keeps on screen.
#[derive(Clone, Copy, Debug, PartialEq, Eq, Structural)]
pub enum EntityType {
    Unknown,
    Prop,
    Spectator,
    Car,
    Lillipad,
    Player,
    Corpse,
    Bubble,
    Dust,
    Crown,
    Snowflake,
    OutfitSwitcher,
    RaftSail,
}

/// The looks that a player can have.
#[derive(Clone, Copy, Debug, PartialEq, Eq, Structural)]
pub enum PlayerSkin {
    Frog,
    Bird,
    Snake,
    Duck,
    Mouse,
    Wosh,
    FrogAlt,
    Frog3,
    Sausage,
}

/// How far the decoration of the map has been generated, and for which
/// round of which game.
#[derive(Clone, Copy, Debug, PartialEq, Eq, Structural)]
pub struct PropController {
    pub gen_to: i32,
    pub last_generated_round: i32,
    pub last_generated_game: i32,
    pub t: i32,
}

/// Which states the rules have entered with the last tick.
#[derive(Clone, Copy, Debug, PartialEq, Eq, Structural)]
pub struct StateTransition {
    pub into_lobby: bool,
    pub into_round_warmup: bool,
    pub into_round: bool,
    pub into_round_cooldown: bool,
    pub into_end: bool,
}

impl MenuInput {
    /// Whether the input changes the setting under the cursor.
    pub open spec fn spec_is_toggle(self) -> bool {
        self is Left || self is Right || self is Select
    }

    pub fn is_toggle(self) -> (r: bool)
        ensures
            r == self.spec_is_toggle(),
    {
        match self {
            MenuInput::Left | MenuInput::Right | MenuInput::Select => true,
            _ => false,
        }
    }

    /// The menu input of this frame from what the keyboard and the
    /// controllers report: the keyboard comes first; a controller input
    /// comes with the number of its controller.
    pub open spec fn spec_read(keyboard: MenuInput, controller: MenuInput, controller_id: Option<i32>)
        -> (MenuInput, Option<i32>, Option<u64>) {
        if keyboard != MenuInput::NoInput {
            (keyboard, None, None)
        } else {
            (controller, controller_id, None)
        }
    }

    pub fn read(keyboard: MenuInput, controller: MenuInput, controller_id: Option<i32>) -> (r: (
        MenuInput,
        Option<i32>,
        Option<u64>,
    ))
        ensures
            r == Self::spec_read(keyboard, controller, controller_id),
    {
        if keyboard != MenuInput::NoInput {
            (keyboard, None, None)
        } else {
            (controller, controller_id, None)
        }
    }
}

impl Default for EntityType {
    fn default() -> (r: Self)
        ensures
            r == EntityType::Unknown,
    {
        EntityType::Unknown
    }
}

impl Default for StateTransition {
    /// No state has been entered.
    fn default() -> (r: Self)
        ensures
            r == (StateTransition {
                into_lobby: false,
                into_round_warmup: false,
                into_round: false,
                into_round_cooldown: false,
                into_end: false,
            }),
    {
        StateTransition {
            into_lobby: false,
            into_round_warmup: false,
            into_round: false,
            into_round_cooldown: false,
            into_end: false,
        }
    }
}

impl PropController {
    /// A controller that has generated nothing yet, for a screen of 20 rows.
    pub fn new() -> (r: Self)
        ensures
            r.gen_to == 20,
            r.last_generated_round == -1,
            r.last_generated_game == -1,
            r.t == 0,
    {
        PropController { gen_to: 20, last_generated_game: -1, last_generated_round: -1, t: 0 }
    }
}

impl StateTransition {
    /// The transitions from the state `prev`, if there was one, to `current`:
    /// a kind of state is entered when `current` is of that kind and `prev`
    /// was not.
    pub open spec fn spec_new(current: CrossyRulesetFST, prev: Option<CrossyRulesetFST>)
        -> StateTransition {
        StateTransition {
            into_lobby: current is Lobby && !(prev matches Some(p) && p is Lobby),
            into_round_warmup: current is RoundWarmup && !(prev matches Some(p) && p
                is RoundWarmup),
            into_round: current is Round && !(prev matches Some(p) && p is Round),
            into_round_cooldown: current is RoundCooldown && !(prev matches Some(p) && p
                is RoundCooldown),
            into_end: current is EndWinner && !(prev matches Some(p) && p is EndWinner),
        }
    }

    pub fn new(current: &CrossyRulesetFST, prev: &Option<CrossyRulesetFST>) -> (r: Self)
        ensures
            r == Self::spec_new(*current, *prev),
    {
        let same = match prev {
            Some(p) => current.same_variant(p),
            None => false,
        };
        let mut t = StateTransition::default();
        if !same {
            match current {
                CrossyRulesetFST::Lobby(_) => {
                    t.into_lobby = true;
                },
                CrossyRulesetFST::RoundWarmup(_) => {
                    t.into_round_warmup = true;
                },
                CrossyRulesetFST::Round(_) => {
                    t.into_round = true;
                },
                CrossyRulesetFST::RoundCooldown(_) => {
                    t.into_round_cooldown = true;
                },
                CrossyRulesetFST::EndWinner(_) => {
                    t.into_end = true;
                },
            }
        }
        t
    }
}

/// The key under which the place of a new player in the lobby is drawn.
pub const LOBBY_SPAWN_KEY: i32 = 1;

/// The key under which the look of a new player is drawn.
pub const SKIN_KEY: i32 = 2;

/// The number of looks.
pub const SKIN_COUNT: u8 = 9;

/// The tiles on which a front end puts new players: five columns and five
/// rows from (7, 7).
pub const LOBBY_CELLS: u8 = 25;

/// The index of the first item at or after `from` that equals `x`.
pub open spec fn spec_first_index(s: Seq<u8>, x: u8, from: int) -> Option<int>
    decreases s.len() - from,
{
    if from < 0 || from >= s.len() {
        None
    } else if s[from] == x {
        Some(from)
    } else {
        spec_first_index(s, x, from + 1)
    }
}

/// `s` without the first of its items that equals `x`.
pub open spec fn spec_without_first(s: Seq<u8>, x: u8) -> Seq<u8> {
    match spec_first_index(s, x, 0) {
        Some(i) => s.remove(i),
        None => s,
    }
}

/// The options that are left when each of the first `n` of `taken` has
/// taken one option of its kind.
pub open spec fn spec_remaining(options: Seq<u8>, taken: Seq<u8>, n: int) -> Seq<u8>
    decreases n,
{
    if n <= 0 {
        options
    } else {
        spec_without_first(spec_remaining(options, taken, n - 1), taken[n - 1])
    }
}

/// The numbers from 0 up to `n`, `n` left out.
pub open spec fn spec_numbers(n: int) -> Seq<u8> {
    Seq::new(
        if n < 0 {
            0nat
        } else {
            n as nat
        },
        |k: int| k as u8,
    )
}

fn numbers(n: u8) -> (r: Vec<u8>)
    ensures
        r@ == spec_numbers(n as int),
{
    let mut out: Vec<u8> = Vec::new();
    let mut k: u8 = 0;
    while k < n
        invariant
            k <= n,
            out@ == spec_numbers(k as int),
        decreases n - k,
    {
        out.push(k);
        assert(out@ =~= spec_numbers(k + 1));
        k = k + 1;
    }
    out
}

fn remove_first(options: &mut Vec<u8>, x: u8)
    ensures
        final(options)@ == spec_without_first(old(options)@, x),
{
    let mut i: usize = 0;
    while i < options.len()
        invariant
            i <= options.len(),
            options@ == old(options)@,
            spec_first_index(options@, x, 0) == spec_first_index(options@, x, i as int),
        decreases options.len() - i,
    {
        if options[i] == x {
            options.remove(i);
            return ;
        }
        i = i + 1;
    }
}

fn remaining(options: Vec<u8>, taken: &Vec<u8>) -> (r: Vec<u8>)
    ensures
        r@ == spec_remaining(options@, taken@, taken@.len() as int),
{
    let mut left = options;
    let mut n: usize = 0;
    while n < taken.len()
        invariant
            n <= taken.len(),
            left@ == spec_remaining(options@, taken@, n as int),
        decreases taken.len() - n,
    {
        remove_first(&mut left, taken[n]);
        n = n + 1;
    }
    left
}

/// The number of a tile among the tiles for new players, column after
/// column; 255 for a tile that is none of them.
pub open spec fn spec_cell_index(pos: CoordPos) -> u8 {
    if 7 <= pos.x < 12 && 7 <= pos.y < 12 {
        ((pos.x - 7) * 5 + (pos.y - 7)) as u8
    } else {
        255
    }
}

/// The tile with the number `k`.
pub open spec fn spec_cell(k: u8) -> CoordPos {
    CoordPos { x: (7 + k / 5) as i32, y: (7 + k % 5) as i32 }
}

/// The numbers of the tiles on which the players stand.
pub open spec fn spec_cell_indices(existing: Seq<CoordPos>) -> Seq<u8> {
    Seq::new(existing.len(), |k: int| spec_cell_index(existing[k]))
}

/// Where a front end puts a new player in the lobby: a tile drawn from
/// those of the five by five tiles from (7, 7) that are left when every
/// player has taken the tile it stands on; `None` when none is left.
pub open spec fn spec_lobby_spawn_pos(seed: u64, existing: Seq<CoordPos>) -> Option<CoordPos> {
    let left = spec_remaining(
        spec_numbers(LOBBY_CELLS as int),
        spec_cell_indices(existing),
        existing.len() as int,
    );
    if left.len() == 0 || left.len() > usize::MAX {
        None
    } else {
        Some(spec_cell(left[spec_choose_index(seed, LOBBY_SPAWN_KEY, left.len() as usize)]))
    }
}

pub fn lobby_spawn_pos_no_overlapping(rand: &FroggyRng, existing: &Vec<CoordPos>) -> (r: Option<
    CoordPos,
>)
    ensures
        r == spec_lobby_spawn_pos(rand.seed, existing@),
{
    let mut taken: Vec<u8> = Vec::new();
    let mut n: usize = 0;
    while n < existing.len()
        invariant
            n <= existing.len(),
            taken@.len() == n,
            forall|k: int| 0 <= k < n ==> taken@[k] == spec_cell_index(#[trigger] existing@[k]),
        decreases existing.len() - n,
    {
        let pos = existing[n];
        let index: u8 = if 7 <= pos.x && pos.x < 12 && 7 <= pos.y && pos.y < 12 {
            ((pos.x - 7) * 5 + (pos.y - 7)) as u8
        } else {
            255
        };
        taken.push(index);
        n = n + 1;
    }
    assert(taken@ =~= spec_cell_indices(existing@));
    let left = remaining(numbers(LOBBY_CELLS), &taken);
    if left.len() == 0 {
        return None;
    }
    let k = left[rand.choose_index(LOBBY_SPAWN_KEY, left.len())];
    Some(CoordPos { x: 7 + (k / 5) as i32, y: 7 + (k % 5) as i32 })
}

impl PlayerSkin {
    /// The number of a look.
    pub open spec fn spec_index(self) -> u8 {
        match self {
            PlayerSkin::Frog => 0,
            PlayerSkin::Bird => 1,
            PlayerSkin::Snake => 2,
            PlayerSkin::Duck => 3,
            PlayerSkin::Mouse => 4,
            PlayerSkin::Wosh => 5,
            PlayerSkin::FrogAlt => 6,
            PlayerSkin::Frog3 => 7,
            PlayerSkin::Sausage => 8,
        }
    }

    /// The look with the number `k`; the frog for a number that no look has.
    pub open spec fn spec_from_index(k: u8) -> PlayerSkin {
        if k == 1 {
            PlayerSkin::Bird
        } else if k == 2 {
            PlayerSkin::Snake
        } else if k == 3 {
            PlayerSkin::Duck
        } else if k == 4 {
            PlayerSkin::Mouse
        } else if k == 5 {
            PlayerSkin::Wosh
        } else if k == 6 {
            PlayerSkin::FrogAlt
        } else if k == 7 {
            PlayerSkin::Frog3
        } else if k == 8 {
            PlayerSkin::Sausage
        } else {
            PlayerSkin::Frog
        }
    }

    pub fn index(self) -> (r: u8)
        ensures
            r == self.spec_index(),
            r < SKIN_COUNT,
    {
        match self {
            PlayerSkin::Frog => 0,
            PlayerSkin::Bird => 1,
            PlayerSkin::Snake => 2,
            PlayerSkin::Duck => 3,
            PlayerSkin::Mouse => 4,
            PlayerSkin::Wosh => 5,
            PlayerSkin::FrogAlt => 6,
            PlayerSkin::Frog3 => 7,
            PlayerSkin::Sausage => 8,
        }
    }

    pub fn from_index(k: u8) -> (r: PlayerSkin)
        ensures
            r == Self::spec_from_index(k),
    {
        match k {
            1 => PlayerSkin::Bird,
            2 => PlayerSkin::Snake,
            3 => PlayerSkin::Duck,
            4 => PlayerSkin::Mouse,
            5 => PlayerSkin::Wosh,
            6 => PlayerSkin::FrogAlt,
            7 => PlayerSkin::Frog3,
            8 => PlayerSkin::Sausage,
            _ => PlayerSkin::Frog,
        }
    }

    /// The numbers of the looks in `skins`.
    pub open spec fn spec_indices(skins: Seq<PlayerSkin>) -> Seq<u8> {
        Seq::new(skins.len(), |k: int| skins[k].spec_index())
    }

    /// The look of a new player: drawn from the looks that are left when
    /// every player and every outfit switcher has taken its own; the frog
    /// when none is left.
    pub open spec fn spec_rand_not_overlapping(
        seed: u64,
        existing: Seq<PlayerSkin>,
        switchers: Seq<PlayerSkin>,
    ) -> PlayerSkin {
        let left = spec_remaining(
            spec_remaining(
                spec_numbers(SKIN_COUNT as int),
                Self::spec_indices(existing),
                existing.len() as int,
            ),
            Self::spec_indices(switchers),
            switchers.len() as int,
        );
        if left.len() == 0 || left.len() > usize::MAX {
            PlayerSkin::Frog
        } else {
            Self::spec_from_index(left[spec_choose_index(seed, SKIN_KEY, left.len() as usize)])
        }
    }

    fn indices(skins: &Vec<PlayerSkin>) -> (r: Vec<u8>)
        ensures
            r@ == Self::spec_indices(skins@),
    {
        let mut out: Vec<u8> = Vec::new();
        let mut n: usize = 0;
        while n < skins.len()
            invariant
                n <= skins.len(),
                out@.len() == n,
                forall|k: int| 0 <= k < n ==> out@[k] == (#[trigger] skins@[k]).spec_index(),
            decreases skins.len() - n,
        {
            out.push(skins[n].index());
            n = n + 1;
        }
        assert(out@ =~= Self::spec_indices(skins@));
        out
    }

    pub fn rand_not_overlapping(
        rand: &FroggyRng,
        existing: &Vec<PlayerSkin>,
        switchers: &Vec<PlayerSkin>,
    ) -> (r: PlayerSkin)
        ensures
            r == Self::spec_rand_not_overlapping(rand.seed, existing@, switchers@),
    {
        let after_players = remaining(numbers(SKIN_COUNT), &Self::indices(existing));
        let left = remaining(after_players, &Self::indices(switchers));
        if left.len() == 0 {
            // every look is taken: two players will look alike
            return PlayerSkin::Frog;
        }
        Self::from_index(left[rand.choose_index(SKIN_KEY, left.len())])
    }
}

/// Which player each input device of a shared screen plays: the arrow
/// keys, the keys W, A, S and D, and both halves of four controllers.
#[derive(Clone, Copy, Debug)]
pub struct PlayerInputController {
    pub arrow_key_player: Option<PlayerId>,
    pub wasd_player: Option<PlayerId>,
    pub controller_a_players: [Option<PlayerId>; 4],
    pub controller_b_players: [Option<PlayerId>; 4],
}

/// What a front end keeps of the inputs of one player of a shared screen.
#[derive(Clone, Copy, Debug, PartialEq, Eq, Structural)]
pub struct PlayerLocalInput {
    pub player_id: PlayerId,
    pub buffered_input: Input,
    pub x_flip: bool,
}

/// The registration of a device after the player `id` has left: empty
/// where it was that player's.
pub open spec fn spec_unregistered(slot: Option<PlayerId>, id: PlayerId) -> Option<PlayerId> {
    if slot == Some(id) {
        None
    } else {
        slot
    }
}

fn unregistered(slot: Option<PlayerId>, id: PlayerId) -> (r: Option<PlayerId>)
    ensures
        r == spec_unregistered(slot, id),
{
    match slot {
        Some(pid) => if pid == id {
            None
        } else {
            slot
        },
        None => None,
    }
}

impl Default for PlayerInputController {
    /// No device plays anybody.
    fn default() -> (r: Self)
        ensures
            r.arrow_key_player is None,
            r.wasd_player is None,
            forall|i: int| 0 <= i < 4 ==> r.controller_a_players[i] is None,
            forall|i: int| 0 <= i < 4 ==> r.controller_b_players[i] is None,
    {
        PlayerInputController {
            arrow_key_player: None,
            wasd_player: None,
            controller_a_players: [None;4],
            controller_b_players: [None;4],
        }
    }
}

impl PlayerInputController {

    /// Frees every device that played `remove_player_id`.
    pub fn remove(&mut self, remove_player_id: PlayerId)
        ensures
            final(self).arrow_key_player == spec_unregistered(
                old(self).arrow_key_player,
                remove_player_id,
            ),
            final(self).wasd_player == spec_unregistered(old(self).wasd_player, remove_player_id),
            forall|i: int|
                0 <= i < 4 ==> final(self).controller_a_players[i] == spec_unregistered(
                    old(self).controller_a_players[i],
                    remove_player_id,
                ),
            forall|i: int|
                0 <= i < 4 ==> final(self).controller_b_players[i] == spec_unregistered(
                    old(self).controller_b_players[i],
                    remove_player_id,
                ),
    {
        self.arrow_key_player = unregistered(self.arrow_key_player, remove_player_id);
        self.wasd_player = unregistered(self.wasd_player, remove_player_id);
        let mut i: usize = 0;
        while i < 4
            invariant
                i <= 4,
                self.arrow_key_player == spec_unregistered(
                    old(self).arrow_key_player,
                    remove_player_id,
                ),
                self.wasd_player == spec_unregistered(old(self).wasd_player, remove_player_id),
                forall|k: int|
                    0 <= k < 4 ==> self.controller_a_players[k] == if k < i {
                        spec_unregistered(old(self).controller_a_players[k], remove_player_id)
                    } else {
                        old(self).controller_a_players[k]
                    },
                forall|k: int|
                    0 <= k < 4 ==> self.controller_b_players[k] == if k < i {
                        spec_unregistered(old(self).controller_b_players[k], remove_player_id)
                    } else {
                        old(self).controller_b_players[k]
                    },
            decreases 4 - i,
        {
            self.controller_a_players[i] = unregistered(
                self.controller_a_players[i],
                remove_player_id,
            );
            self.controller_b_players[i] = unregistered(
                self.controller_b_players[i],
                remove_player_id,
            );
            i = i + 1;
        }
    }

    /// Lets a device that plays nobody yet play a new player: the player
    /// gets the lowest free id and a free tile of the lobby, drawn with the
    /// number of snapshots as seed, and joins the newest snapshot. `None`,
    /// and nothing changes, when no id or no tile is free.
    pub fn create_player(
        id_registration: &mut Option<PlayerId>,
        timeline: &mut Timeline,
        existing: &Vec<CoordPos>,
    ) -> (r: Option<PlayerId>)
        requires
            old(timeline).wf(),
        ensures
            final(timeline).wf(),
            match (
                old(timeline)@.top().player_states.first_free_from(0),
                spec_lobby_spawn_pos(old(timeline)@.states.len() as u64, existing@),
            ) {
                (Some(id), Some(pos)) => r == Some(id) && *final(id_registration) == Some(id)
                    && final(timeline)@ == old(timeline)@.spec_with_top(
                    old(timeline)@.top().spec_add_player(id, Pos::Coord(pos)),
                ),
                _ => r is None && *final(id_registration) == *old(id_registration)
                    && final(timeline)@ == old(timeline)@,
            },
    {
        let top = timeline.top_state();
        let new_id = match top.player_states.next_free() {
            Some(id) => id,
            None => {
                return None;
            },
        };
        let rand = FroggyRng::new(timeline.len() as u64);
        let pos = match lobby_spawn_pos_no_overlapping(&rand, existing) {
            Some(pos) => pos,
            None => {
                return None;
            },
        };
        *id_registration = Some(new_id);
        timeline.add_player(new_id, Pos::Coord(pos));
        Some(new_id)
    }
}

impl PlayerLocalInput {
    /// What is kept after the device of the player has reported `input`:
    /// an input replaces the one that waits, and a step to the side turns
    /// the player that way. Where the player can move, the input that
    /// waits goes into the inputs of the tick and no longer waits.
    pub open spec fn spec_update_inputs(self, can_move: bool, input: Input) -> PlayerLocalInput {
        PlayerLocalInput {
            player_id: self.player_id,
            buffered_input: if can_move {
                Input::NoInput
            } else if input != Input::NoInput {
                input
            } else {
                self.buffered_input
            },
            x_flip: if input == Input::Left {
                true
            } else if input == Input::Right {
                false
            } else {
                self.x_flip
            },
        }
    }

    /// The input that goes into the tick, where the player can move.
    pub open spec fn spec_applied(self, input: Input) -> Input {
        if input != Input::NoInput {
            input
        } else {
            self.buffered_input
        }
    }

    pub fn update_inputs(&mut self, can_move: bool, player_inputs: &mut PlayerInputs, input: Input)
        ensures
            *final(self) == old(self).spec_update_inputs(can_move, input),
            *final(player_inputs) == if can_move {
                old(player_inputs).spec_set(old(self).player_id, old(self).spec_applied(input))
            } else {
                *old(player_inputs)
            },
    {
        if input != Input::NoInput {
            self.buffered_input = input;
        }
        if input == Input::Left {
            self.x_flip = true;
        }
        if input == Input::Right {
            self.x_flip = false;
        }
        if can_move {
            player_inputs.set(self.player_id, self.buffered_input);
            self.buffered_input = Input::NoInput;
        }
    }
}

} // verus!
