//! The game in which bombs are hidden: a player commits to the place of a
//! bomb by a hash, and reveals place and secret to set the bomb off.

use core::marker::PhantomData;
use vstd::prelude::*;
use vstd::laws_eq::obeys_concrete_eq;
use crate::hashing::{blake2_256, blake2_256_digest};
use crate::wire::format::Wire;
use crate::dot4gravity::board::{
    Board, Coordinates, Position, Seed, Side, INITIAL_SEED, NB_POINT_ENEMY_STONE_DESTROYED,
    adjacent_opponent_stones, blasted, cell_at,
};
use crate::dot4gravity::placement::{
    Placement, place_blocks, place_blocks_within, placement_completes, placement_done, placement_ends,
};
use crate::dot4gravity::state::{
    GameError, GamePhase, GameState, GameView, can_drop_stone, change_game_phase, check_winner_player, drop_stone,
    dropped_stone, scores_increased, stone_drop_check, winner_checked,
};
use crate::dot4gravity::game::starting_seed;

verus! {

/// What a player keeps secret until the bomb is set off.
pub type Secret = u64;

/// The hash that stands for the place of a bomb.
pub type BombHash = [u8; 32];

/// What has become of one bomb of a player.
#[derive(Clone, Copy, Debug, PartialEq, Eq)]
pub enum BombState {
    /// The bomb is still in the player's hand.
    NotPlaced,
    /// The bomb is hidden: the hash of its place and of the secret, and the secret.
    Placed(BombHash, Secret),
    /// The bomb has gone off.
    Detonated,
}

/// The three bombs of a player.
pub type BombSlots = [BombState; 3];

/// A bomb as contracts see it.
pub enum BombView {
    NotPlaced,
    Placed(Seq<u8>, Secret),
    Detonated,
}

impl DeepView for BombState {
    type V = BombView;

    open spec fn deep_view(&self) -> BombView {
        match *self {
            BombState::NotPlaced => BombView::NotPlaced,
            BombState::Placed(hash, secret) => BombView::Placed(hash@, secret),
            BombState::Detonated => BombView::Detonated,
        }
    }
}

/// A game with hidden bombs as contracts see it.
pub type SealedView<Player> = GameView<Player, Seq<BombView>>;

/// The bytes that are hashed for a bomb at `position`: those of the
/// coordinates, row first, and then those of the secret, its least
/// significant byte first.
pub open spec fn commitment_input(position: Coordinates, secret: Secret) -> Seq<u8> {
    position.wire() + secret.wire()
}

/// The hash that commits to a bomb at `position` under `secret`.
pub open spec fn commitment(position: Coordinates, secret: Secret) -> Seq<u8> {
    blake2_256_digest(commitment_input(position, secret))
}

impl Coordinates {
    /// The hash that commits to a bomb at these coordinates under `secret`.
    pub fn generate_hash(&self, secret: Secret) -> (hash: BombHash)
        ensures
            hash@ == commitment(*self, secret),
    {
        let mut input: Vec<u8> = Vec::new();
        self.encode_to(&mut input);
        secret.encode_to(&mut input);
        blake2_256(input.as_slice())
    }
}

/// Whether `bomb` is hidden at `position`, as its own secret shows.
pub open spec fn hidden_at(bomb: BombView, position: Coordinates) -> bool {
    match bomb {
        BombView::Placed(hash, secret) => hash == commitment(position, secret),
        _ => false,
    }
}

/// Whether `bomb` is hidden under the hash `digest` and the secret `secret`.
pub open spec fn placed_as(bomb: BombView, digest: Seq<u8>, secret: Secret) -> bool {
    match bomb {
        BombView::Placed(hash, own) => own == secret && hash == digest,
        _ => false,
    }
}

/// The first of the three `slots` that is hidden under `digest` and
/// `secret`, or the number of slots.
pub open spec fn first_placed_as(slots: Seq<BombView>, digest: Seq<u8>, secret: Secret) -> int {
    if placed_as(slots[0], digest, secret) {
        0
    } else if placed_as(slots[1], digest, secret) {
        1
    } else if placed_as(slots[2], digest, secret) {
        2
    } else {
        3
    }
}

/// Whether `position` and `secret` reveal `bomb`: the bomb is hidden
/// under the hash of the two, and under that secret.
pub open spec fn revealed_by(bomb: BombView, position: Coordinates, secret: Secret) -> bool {
    placed_as(bomb, commitment(position, secret), secret)
}

/// One for a bomb that is still in hand, nothing for another.
pub open spec fn held(bomb: BombView) -> nat {
    if bomb is NotPlaced {
        1
    } else {
        0
    }
}

/// The bombs among the three `slots` that are still in hand.
pub open spec fn in_hand(slots: Seq<BombView>) -> nat {
    held(slots[0]) + held(slots[1]) + held(slots[2])
}

/// The first of `slots` that is still in hand, or the number of slots.
pub open spec fn first_in_hand(slots: Seq<BombView>) -> int {
    if slots[0] is NotPlaced {
        0
    } else if slots[1] is NotPlaced {
        1
    } else if slots[2] is NotPlaced {
        2
    } else {
        3
    }
}

/// The first of `slots` that `position` and `secret` reveal, or the number of slots.
pub open spec fn first_revealed(slots: Seq<BombView>, position: Coordinates, secret: Secret) -> int {
    first_placed_as(slots, commitment(position, secret), secret)
}

/// Whether one of the three `slots` is hidden at `position`.
pub open spec fn any_hidden_at(slots: Seq<BombView>, position: Coordinates) -> bool {
    hidden_at(slots[0], position) || hidden_at(slots[1], position) || hidden_at(slots[2], position)
}

impl<Player> GameView<Player, Seq<BombView>> {
    /// Three bombs for each of two players that differ.
    pub open spec fn sealed_wf(self) -> bool {
        &&& self.wf()
        &&& self.bombs[0].1.len() == 3
        &&& self.bombs[1].1.len() == 3
    }

    /// The bombs of `player`, where `player` is in the game.
    pub open spec fn slots_of(self, player: Player) -> Option<Seq<BombView>> {
        if self.bombs[0].0 == player {
            Some(self.bombs[0].1)
        } else if self.bombs[1].0 == player {
            Some(self.bombs[1].1)
        } else {
            None
        }
    }

    /// The place of the bombs of `player` among the entries.
    pub open spec fn slots_index(self, player: Player) -> int {
        if self.bombs[0].0 == player {
            0
        } else {
            1
        }
    }

    /// The bombs that `player` may still hide.
    pub open spec fn bombs_left(self, player: Player) -> Option<u8> {
        match self.slots_of(player) {
            Some(slots) => Some(in_hand(slots) as u8),
            None => None,
        }
    }

    /// Whether no player has a bomb in hand.
    pub open spec fn all_bombs_dropped(self) -> bool {
        in_hand(self.bombs[0].1) == 0 && in_hand(self.bombs[1].1) == 0
    }

    /// The state with slot `slot` of `player` set to `bomb`.
    pub open spec fn with_bomb(self, player: Player, slot: int, bomb: BombView) -> Self {
        let entry = self.slots_index(player);
        GameView {
            bombs: self.bombs.update(entry, (self.bombs[entry].0, self.bombs[entry].1.update(slot, bomb))),
            ..self
        }
    }
}

fn count_held(bomb: &BombState) -> (count: u8)
    ensures
        count == held(bomb.deep_view()),
{
    if matches!(bomb, BombState::NotPlaced) {
        1
    } else {
        0
    }
}

fn count_in_hand(slots: &BombSlots) -> (count: u8)
    ensures
        count == in_hand(slots.deep_view()),
        count <= 3,
{
    count_held(&slots[0]) + count_held(&slots[1]) + count_held(&slots[2])
}

impl BombState {
    /// Tells whether the bomb is hidden under the hash `digest` and the
    /// secret `secret`.
    pub fn is_placed_as(&self, digest: &BombHash, secret: Secret) -> (placed: bool)
        ensures
            placed == placed_as(self.deep_view(), digest@, secret),
    {
        match self {
            BombState::Placed(hash, own) => *own == secret && same_hash(hash, digest),
            _ => false,
        }
    }
}

/// The first of `slots` that is hidden under the hash `digest` and the
/// secret `secret`, or the number of slots where none is.
pub fn matching_slot(slots: &BombSlots, digest: &BombHash, secret: Secret) -> (slot: usize)
    ensures
        slot == first_placed_as(slots.deep_view(), digest@, secret),
        slot <= 3,
{
    if slots[0].is_placed_as(digest, secret) {
        0
    } else if slots[1].is_placed_as(digest, secret) {
        1
    } else if slots[2].is_placed_as(digest, secret) {
        2
    } else {
        3
    }
}

/// Tells whether `bomb` is hidden at `position`.
fn is_hidden_at(bomb: &BombState, position: &Coordinates) -> (hidden: bool)
    ensures
        hidden == hidden_at(bomb.deep_view(), *position),
{
    match bomb {
        BombState::Placed(_, secret) => bomb.is_placed_as(&position.generate_hash(*secret), *secret),
        _ => false,
    }
}

/// Tells whether two hashes agree byte for byte.
pub fn same_hash(left: &BombHash, right: &BombHash) -> (same: bool)
    ensures
        same == (left@ == right@),
{
    let mut i: usize = 0;
    while i < 32
        invariant
            i <= 32,
            forall|k: int| 0 <= k < i ==> left@[k] == right@[k],
        decreases 32 - i,
    {
        if left[i] != right[i] {
            return false;
        }
        i += 1;
    }
    assert(left@ =~= right@);
    true
}

impl<Player: PartialEq + Copy> GameState<Player, BombSlots> {
    pub fn is_all_bomb_dropped(&self) -> (all: bool)
        ensures
            all == self@.all_bombs_dropped(),
    {
        count_in_hand(&self.bombs[0].1) == 0 && count_in_hand(&self.bombs[1].1) == 0
    }

    pub fn is_all_player_bomb_dropped(&self, player: &Player) -> (all: bool)
        requires
            obeys_concrete_eq::<Player>(),
        ensures
            all == (self@.bombs_left(*player) == Some(0u8)),
    {
        match self.get_player_bombs(player) {
            Some(available_bombs) => available_bombs == 0,
            None => false,
        }
    }

    /// The number of bombs that `player` may still hide.
    pub fn get_player_bombs(&self, player: &Player) -> (left: Option<u8>)
        requires
            obeys_concrete_eq::<Player>(),
        ensures
            left == self@.bombs_left(*player),
    {
        proof {
            reveal(obeys_concrete_eq);
        }
        if self.bombs[0].0 == *player {
            Some(count_in_hand(&self.bombs[0].1))
        } else if self.bombs[1].0 == *player {
            Some(count_in_hand(&self.bombs[1].1))
        } else {
            None
        }
    }

    /// Tells whether `player` has a bomb hidden at `position`.
    pub fn has_bomb_at(&self, player: &Player, position: &Coordinates) -> (hidden: bool)
        requires
            obeys_concrete_eq::<Player>(),
        ensures
            hidden == match self@.slots_of(*player) {
                Some(slots) => any_hidden_at(slots, *position),
                None => false,
            },
    {
        proof {
            reveal(obeys_concrete_eq);
        }
        let slots = if self.bombs[0].0 == *player {
            self.bombs[0].1
        } else if self.bombs[1].0 == *player {
            self.bombs[1].1
        } else {
            return false;
        };
        is_hidden_at(&slots[0], position) || is_hidden_at(&slots[1], position) || is_hidden_at(
            &slots[2],
            position,
        )
    }

    /// Sets slot `slot` of `player` to `bomb`.
    fn set_bomb(&mut self, player: &Player, slot: usize, bomb: BombState)
        requires
            obeys_concrete_eq::<Player>(),
            slot < 3,
        ensures
            final(self)@ == old(self)@.with_bomb(*player, slot as int, bomb.deep_view()),
    {
        proof {
            reveal(obeys_concrete_eq);
        }
        let entry: usize = if self.bombs[0].0 == *player {
            0
        } else {
            1
        };
        let (owner, slots) = self.bombs[entry];
        let mut slots = slots;
        slots[slot] = bomb;
        self.bombs[entry] = (owner, slots);
        proof {
            let expected = old(self)@.with_bomb(*player, slot as int, bomb.deep_view());
            assert(self@.bombs[entry as int].1 =~= expected.bombs[entry as int].1);
            assert(self@.bombs =~= expected.bombs);
        }
    }
}

/// Whether `player` may try to hide a bomb at `position`, and why not. A
/// game that has a winner takes no bomb, whatever else holds. A player
/// hides at most one bomb in a cell.
pub open spec fn sealed_bomb_check<Player>(state: SealedView<Player>, position: Coordinates, player: Player) -> Result<
    (),
    GameError,
> {
    if state.winner is Some {
        Err(GameError::GameAlreadyFinished)
    } else if state.phase != GamePhase::Bomb {
        Err(GameError::DroppedBombOutsideBombPhase)
    } else if state.bombs_left(player) == Some(0u8) {
        Err(GameError::NoMoreBombsAvailable)
    } else if !(position.inside_board() && (cell_at(state.board, position) is Empty || cell_at(
        state.board,
        position,
    ) is Bomb)) {
        Err(GameError::InvalidBombPosition)
    } else if state.slots_of(player) matches Some(slots) && any_hidden_at(slots, position) {
        Err(GameError::InvalidBombPosition)
    } else {
        Ok(())
    }
}

/// The state after `player` has hidden a bomb at `position` under
/// `secret`, or the reason why not. The first bomb in hand becomes
/// the hidden one; the board stays as it is. The last bomb of all starts
/// the play phase.
pub open spec fn hidden_bomb<Player>(
    state: SealedView<Player>,
    position: Coordinates,
    player: Player,
    secret: Secret,
) -> Result<SealedView<Player>, GameError> {
    match sealed_bomb_check(state, position, player) {
        Err(error) => Err(error),
        Ok(_) => {
            let slot = first_in_hand(state.bombs[state.slots_index(player)].1);
            let after = state.with_bomb(player, slot, BombView::Placed(commitment(position, secret), secret));
            Ok(
                GameView {
                    phase: if after.all_bombs_dropped() {
                        GamePhase::Play
                    } else {
                        state.phase
                    },
                    ..after
                },
            )
        },
    }
}

/// The first bomb of `player` that `position` and `secret` reveal, or the
/// number of bombs where they reveal none or `player` is not in the game.
pub open spec fn revealed_bomb<Player>(
    state: SealedView<Player>,
    player: Player,
    position: Coordinates,
    secret: Secret,
) -> int {
    match state.slots_of(player) {
        Some(slots) => first_revealed(slots, position, secret),
        None => 3,
    }
}

/// Whether `player` may set off a bomb at `position` with `secret`, and
/// why not. A game that has a winner takes no move. The bomb must lie on
/// the board and be one of the player's own, hidden at that place under
/// that secret: whoever has committed to a place and a secret may reveal
/// them, whoever is to move.
pub open spec fn detonation_check<Player>(
    state: SealedView<Player>,
    player: Player,
    position: Coordinates,
    secret: Secret,
) -> Result<(), GameError> {
    if state.winner is Some {
        Err(GameError::GameAlreadyFinished)
    } else if !position.inside_board() {
        Err(GameError::InvalidBombPosition)
    } else if revealed_bomb(state, player, position, secret) >= 3 {
        Err(GameError::InvalidBombPosition)
    } else {
        Ok(())
    }
}

/// The state after `player` has set off a bomb at `position`, or the
/// reason why not. The bomb is spent, the explosion clears the board
/// round it, and the player scores for each stone of the opponent that it
/// reaches. Where the player is the one to move in the play phase, the
/// turn passes on; otherwise it stays where it is.
pub open spec fn detonated<Player>(
    state: SealedView<Player>,
    player: Player,
    position: Coordinates,
    secret: Secret,
) -> Result<SealedView<Player>, GameError> {
    match detonation_check(state, player, position, secret) {
        Err(error) => Err(error),
        Ok(_) => {
            let slot = revealed_bomb(state, player, position, secret);
            let spent = state.with_bomb(player, slot, BombView::Detonated);
            Ok(
                GameView {
                    board: blasted(state.board, position),
                    scores: scores_increased(
                        state.scores,
                        player,
                        NB_POINT_ENEMY_STONE_DESTROYED * adjacent_opponent_stones(
                            state.board,
                            position,
                            state.index_of(player),
                        ),
                    ),
                    next_player: if state.phase == GamePhase::Play && state.next_player == player {
                        state.following_player()
                    } else {
                        state.next_player
                    },
                    ..spent
                },
            )
        },
    }
}

/// The state of a game that starts on the board of `placement`: the bomb
/// phase, with all bombs in hand, no score, and `player1` to move first.
pub open spec fn new_sealed_view<Player>(player1: Player, player2: Player, placement: Placement) -> SealedView<
    Player,
> {
    let in_hand = seq![BombView::NotPlaced, BombView::NotPlaced, BombView::NotPlaced];
    GameView {
        seed: placement.seed,
        board: placement.grid,
        phase: GamePhase::Bomb,
        winner: None,
        next_player: player1,
        players: seq![player1, player2],
        bombs: seq![(player1, in_hand), (player2, in_hand)],
        scores: seq![(player1, 0u8), (player2, 0u8)],
        last_move: None,
    }
}

pub struct SealedGame<Player>(PhantomData<Player>);

impl<Player: PartialEq + Copy> SealedGame<Player> {
    /// Create a new game.
    pub fn new_game(player1: Player, player2: Player, seed: Option<Seed>) -> (state: GameState<Player, BombSlots>)
        requires
            placement_ends(starting_seed(seed)),
        ensures
            state@ == new_sealed_view(player1, player2, placement_done(starting_seed(seed))),
            player1 != player2 ==> state@.sealed_wf(),
    {
        let seed = match seed {
            Some(seed) => seed,
            None => INITIAL_SEED,
        };
        let (board, seed) = place_blocks(seed);
        Self::start(player1, player2, board, seed)
    }

    /// Create a new game, if `max_draws` draws are enough to place the blocks.
    pub fn new_game_within(player1: Player, player2: Player, seed: Option<Seed>, max_draws: u32) -> (state: Option<
        GameState<Player, BombSlots>,
    >)
        ensures
            match state {
                Some(state) => placement_completes(starting_seed(seed), max_draws as nat) && state@
                    == new_sealed_view(player1, player2, placement_done(starting_seed(seed))) && (player1
                    != player2 ==> state@.sealed_wf()),
                None => !placement_completes(starting_seed(seed), max_draws as nat),
            },
    {
        let seed = match seed {
            Some(seed) => seed,
            None => INITIAL_SEED,
        };
        match place_blocks_within(seed, max_draws) {
            Some((board, seed)) => Some(Self::start(player1, player2, board, seed)),
            None => None,
        }
    }

    fn start(player1: Player, player2: Player, board: Board, seed: Seed) -> (state: GameState<Player, BombSlots>)
        ensures
            state@ == new_sealed_view(player1, player2, Placement { grid: board@, seed, placed: 10 }),
            player1 != player2 ==> state@.sealed_wf(),
    {
        let in_hand = [BombState::NotPlaced, BombState::NotPlaced, BombState::NotPlaced];
        let state = GameState {
            seed,
            board,
            phase: GamePhase::Bomb,
            winner: None,
            next_player: player1,
            players: [player1, player2],
            scores: [(player1, 0), (player2, 0)],
            bombs: [(player1, in_hand), (player2, in_hand)],
            last_move: None,
        };
        proof {
            let expected = new_sealed_view(player1, player2, Placement { grid: board@, seed, placed: 10 });
            assert(state@.bombs[1].1 =~= expected.bombs[1].1);
            assert(state@.bombs =~= expected.bombs);
        }
        state
    }

    pub fn can_drop_bomb(
        game_state: &GameState<Player, BombSlots>,
        position: &Coordinates,
        player: &Player,
    ) -> (allowed: Result<(), GameError>)
        requires
            obeys_concrete_eq::<Player>(),
        ensures
            allowed == sealed_bomb_check(game_state@, *position, *player),
    {
        if game_state.winner.is_some() {
            return Err(GameError::GameAlreadyFinished);
        }
        if game_state.phase != GamePhase::Bomb {
            return Err(GameError::DroppedBombOutsideBombPhase);
        }
        if game_state.is_all_player_bomb_dropped(player) {
            return Err(GameError::NoMoreBombsAvailable);
        }
        if !game_state.board.is_bomb_droppable(position) {
            return Err(GameError::InvalidBombPosition);
        }
        if game_state.has_bomb_at(player, position) {
            return Err(GameError::InvalidBombPosition);
        }
        Ok(())
    }

    /// Hide a bomb. Called during bomb phase.
    pub fn drop_bomb(
        game_state: GameState<Player, BombSlots>,
        position: Coordinates,
        player: Player,
        secret: Secret,
    ) -> (result: Result<GameState<Player, BombSlots>, GameError>)
        requires
            obeys_concrete_eq::<Player>(),
            game_state@.wf(),
            sealed_bomb_check(game_state@, position, player) is Ok ==> game_state@.has_player(player),
        ensures
            match hidden_bomb(game_state@, position, player, secret) {
                Ok(after) => result matches Ok(state) && state@ == after && state@.sealed_wf(),
                Err(error) => result == Err::<GameState<Player, BombSlots>, GameError>(error),
            },
    {
        let mut game_state = game_state;
        Self::can_drop_bomb(&game_state, &position, &player)?;
        proof {
            reveal(obeys_concrete_eq);
        }
        let slots = if game_state.bombs[0].0 == player {
            game_state.bombs[0].1
        } else {
            game_state.bombs[1].1
        };
        let slot: usize = if matches!(slots[0], BombState::NotPlaced) {
            0
        } else if matches!(slots[1], BombState::NotPlaced) {
            1
        } else {
            2
        };
        let hash = position.generate_hash(secret);
        game_state.set_bomb(&player, slot, BombState::Placed(hash, secret));
        if game_state.is_all_bomb_dropped() {
            game_state.change_game_phase(GamePhase::Play);
        }
        Ok(game_state)
    }

    pub fn can_detonate_bomb(
        game_state: &GameState<Player, BombSlots>,
        player: &Player,
        position: &Coordinates,
        secret: Secret,
    ) -> (allowed: Result<(), GameError>)
        requires
            obeys_concrete_eq::<Player>(),
        ensures
            allowed == detonation_check(game_state@, *player, *position, secret),
    {
        if game_state.winner.is_some() {
            return Err(GameError::GameAlreadyFinished);
        }
        if !position.is_inside_board() {
            return Err(GameError::InvalidBombPosition);
        }
        if Self::revealed_slot(game_state, player, position, secret) >= 3 {
            return Err(GameError::InvalidBombPosition);
        }
        Ok(())
    }

    /// The first bomb of `player` that `position` and `secret` reveal, or
    /// the number of bombs.
    pub fn revealed_slot(
        game_state: &GameState<Player, BombSlots>,
        player: &Player,
        position: &Coordinates,
        secret: Secret,
    ) -> (slot: usize)
        requires
            obeys_concrete_eq::<Player>(),
        ensures
            slot == revealed_bomb(game_state@, *player, *position, secret),
            slot <= 3,
    {
        proof {
            reveal(obeys_concrete_eq);
        }
        let slots = if game_state.bombs[0].0 == *player {
            game_state.bombs[0].1
        } else if game_state.bombs[1].0 == *player {
            game_state.bombs[1].1
        } else {
            return 3;
        };
        matching_slot(&slots, &position.generate_hash(secret), secret)
    }

    /// Set off a hidden bomb by revealing its place and its secret.
    pub fn detonate_bomb(
        game_state: GameState<Player, BombSlots>,
        player: Player,
        position: Coordinates,
        secret: Secret,
    ) -> (result: Result<GameState<Player, BombSlots>, GameError>)
        requires
            obeys_concrete_eq::<Player>(),
            game_state@.wf(),
        ensures
            match detonated(game_state@, player, position, secret) {
                Ok(after) => result matches Ok(state) && state@ == after && state@.sealed_wf(),
                Err(error) => result == Err::<GameState<Player, BombSlots>, GameError>(error),
            },
    {
        let mut game_state = game_state;
        Self::can_detonate_bomb(&game_state, &player, &position, secret)?;
        let slot = Self::revealed_slot(&game_state, &player, &position, secret);
        let destroyed = game_state.adjacent_opponent_stone(position, &player);
        let next_player = if game_state.phase == GamePhase::Play && game_state.is_player_turn(&player) {
            *game_state.next_player()
        } else {
            game_state.next_player
        };
        game_state.set_bomb(&player, slot, BombState::Detonated);
        game_state.increase_player_score(&player, NB_POINT_ENEMY_STONE_DESTROYED * destroyed);
        game_state.board.explode_bomb(position);
        game_state.next_player = next_player;
        Ok(game_state)
    }

    pub fn can_drop_stone(
        game_state: &GameState<Player, BombSlots>,
        side: &Side,
        position: Position,
        player: &Player,
    ) -> (allowed: Result<(), GameError>)
        requires
            obeys_concrete_eq::<Player>(),
        ensures
            allowed == stone_drop_check(game_state@, *side, position, *player),
    {
        can_drop_stone(game_state, side, position, player)
    }

    /// Change game phase.
    pub fn change_game_phase(game_state: GameState<Player, BombSlots>, phase: GamePhase) -> (state: GameState<
        Player,
        BombSlots,
    >)
        ensures
            state@ == (GameView { phase, ..game_state@ }),
    {
        change_game_phase(game_state, phase)
    }

    /// Drop stone. Called during play phase.
    pub fn drop_stone(
        game_state: GameState<Player, BombSlots>,
        player: Player,
        side: Side,
        position: Position,
    ) -> (result: Result<GameState<Player, BombSlots>, GameError>)
        requires
            obeys_concrete_eq::<Player>(),
            game_state@.wf(),
        ensures
            match dropped_stone(game_state@, player, side, position) {
                Ok(after) => result matches Ok(state) && state@ == after && state@.sealed_wf(),
                Err(error) => result == Err::<GameState<Player, BombSlots>, GameError>(error),
            },
    {
        drop_stone(game_state, player, side, position)
    }

    /// Enters the winner, if there is none yet and a player has three squares.
    pub fn check_winner_player(game_state: GameState<Player, BombSlots>) -> (state: GameState<Player, BombSlots>)
        ensures
            state@ == winner_checked(game_state@),
    {
        check_winner_player(game_state)
    }
}

} // verus!
