use vstd::prelude::*;

use crate::account::AccountId;

verus! {

/// The ways an operation on the game can be refused.
#[derive(Clone, Copy, Debug, PartialEq, Eq, Structural)]
pub enum HotPotatoError {
    /// An operation that needs a running game found none.
    GameNotActive,
    /// A start was attempted while a game is already running.
    GameAlreadyActive,
    /// A pass was attempted after the deadline window had elapsed.
    DeadlinePassed,
    /// A pass was attempted by someone other than the current holder.
    NotCurrentHolder,
    /// A manual end was attempted by someone other than the game's starter.
    NotGameStarter,
    /// The external token ledger refused the mint, transfer or burn that the
    /// operation needed; the wrapped code is the ledger's own.
    LedgerError(u32),
}

/// The mathematical state of one game engine, over unbounded integers.
pub struct GameView {
    /// Current possessor of the token; `None` iff no game is running.
    pub holder: Option<AccountId>,
    /// Tick at which the token was last acquired by its current holder.
    pub last_passed_block: int,
    /// Number of ticks a holder may keep the token; fixed at construction.
    pub deadline_blocks: int,
    /// Whether a game is in progress.
    pub active: bool,
    /// Identity that started the running game; `None` iff no game is running.
    pub starter: Option<AccountId>,
    /// Next fresh token identity to mint for a ledger-backed game.
    pub next_token_sequence: int,
    /// Identity of the live minted token, if the running game is ledger-backed.
    pub live_token: Option<int>,
}

impl GameView {
    /// Inactive states hold neither a holder, a starter nor a live token;
    /// active states always have a holder and a starter.
    pub open spec fn wf(self) -> bool {
        &&& self.active ==> self.holder is Some && self.starter is Some
        &&& !self.active ==> self.holder is None && self.starter is None && self.live_token is None
        &&& 0 <= self.last_passed_block <= u32::MAX
        &&& 0 <= self.deadline_blocks <= u32::MAX
        &&& 0 <= self.next_token_sequence <= u64::MAX
        &&& self.live_token matches Some(t) ==> 0 <= t <= u64::MAX
    }

    /// The last tick at which a pass is still allowed.
    pub open spec fn deadline_tick(self) -> int {
        self.last_passed_block + self.deadline_blocks
    }

    /// A running game whose holder has outstayed the deadline window.
    pub open spec fn expired_at(self, now: u32) -> bool {
        self.active && now > self.deadline_tick()
    }

    /// The state after the running game is torn down: no holder, no starter,
    /// no live token; the window and the tick of the last transfer remain.
    pub open spec fn after_reset(self) -> GameView {
        GameView { holder: None, active: false, starter: None, live_token: None, ..self }
    }
}

/// The freshly constructed engine: no game running, nothing held.
pub open spec fn initial_view(deadline_blocks: u32) -> GameView {
    GameView {
        holder: None,
        last_passed_block: 0,
        deadline_blocks: deadline_blocks as int,
        active: false,
        starter: None,
        next_token_sequence: 0,
        live_token: None,
    }
}

/// What `start_game` does to a state: refused while a game is running,
/// otherwise the recipient becomes holder, the initiator becomes starter, and
/// the clock of the deadline window starts at `now`.
pub open spec fn start_transition(
    g: GameView,
    caller: AccountId,
    to: AccountId,
    now: u32,
) -> (GameView, Result<(), HotPotatoError>) {
    if g.active {
        (g, Err(HotPotatoError::GameAlreadyActive))
    } else {
        (
            GameView {
                holder: Some(to),
                last_passed_block: now as int,
                active: true,
                starter: Some(caller),
                ..g
            },
            Ok(()),
        )
    }
}

/// What `pass_potato` does to a state: only the current holder may pass, only
/// while a game runs, and only up to and including the deadline tick; a valid
/// pass hands the token to `to` and restarts the window at `now`. The
/// recipient is deliberately unrestricted: passing to oneself is accepted.
pub open spec fn pass_transition(
    g: GameView,
    caller: AccountId,
    to: AccountId,
    now: u32,
) -> (GameView, Result<(), HotPotatoError>) {
    if !g.active {
        (g, Err(HotPotatoError::GameNotActive))
    } else if g.holder != Some(caller) {
        (g, Err(HotPotatoError::NotCurrentHolder))
    } else if now > g.deadline_tick() {
        (g, Err(HotPotatoError::DeadlinePassed))
    } else {
        (GameView { holder: Some(to), last_passed_block: now as int, ..g }, Ok(()))
    }
}

/// What `check_deadline` does to a state: a running game whose deadline has
/// passed is torn down and the resolution reported; anything else is left
/// untouched.
pub open spec fn deadline_transition(g: GameView, now: u32) -> (GameView, bool) {
    if g.expired_at(now) {
        (g.after_reset(), true)
    } else {
        (g, false)
    }
}

/// What `end_game` does to a state: only the starter may end the running game,
/// and may do so at any time, deadline or not.
pub open spec fn end_transition(g: GameView, caller: AccountId) -> (
    GameView,
    Result<(), HotPotatoError>,
) {
    if !g.active {
        (g, Err(HotPotatoError::GameNotActive))
    } else if g.starter != Some(caller) {
        (g, Err(HotPotatoError::NotGameStarter))
    } else {
        (g.after_reset(), Ok(()))
    }
}

/// What `start_game_minted` does to a state: as `start_game`, except that a
/// fresh token is first minted for the recipient on the external ledger. The
/// authorization check comes first; a failed mint is reported as
/// `LedgerError` and leaves the state untouched; a successful mint consumes
/// the next token identity and records it as the live token.
pub open spec fn start_minted_transition(
    g: GameView,
    caller: AccountId,
    to: AccountId,
    now: u32,
    mint: Result<(), u32>,
) -> (GameView, Result<(), HotPotatoError>) {
    if g.active {
        (g, Err(HotPotatoError::GameAlreadyActive))
    } else {
        match mint {
            Err(code) => (g, Err(HotPotatoError::LedgerError(code))),
            Ok(()) => (
                GameView {
                    holder: Some(to),
                    last_passed_block: now as int,
                    active: true,
                    starter: Some(caller),
                    next_token_sequence: g.next_token_sequence + 1,
                    live_token: Some(g.next_token_sequence),
                    ..g
                },
                Ok(()),
            ),
        }
    }
}

/// What `pass_potato_transferred` does to a state: as `pass_potato`, except
/// that custody is first moved on the external ledger. All authorization and
/// deadline checks come first; a failed transfer is reported as `LedgerError`
/// and leaves the state untouched; the live token keeps its identity.
pub open spec fn pass_transferred_transition(
    g: GameView,
    caller: AccountId,
    to: AccountId,
    now: u32,
    transfer: Result<(), u32>,
) -> (GameView, Result<(), HotPotatoError>) {
    if !g.active {
        (g, Err(HotPotatoError::GameNotActive))
    } else if g.holder != Some(caller) {
        (g, Err(HotPotatoError::NotCurrentHolder))
    } else if now > g.deadline_tick() {
        (g, Err(HotPotatoError::DeadlinePassed))
    } else {
        match transfer {
            Err(code) => (g, Err(HotPotatoError::LedgerError(code))),
            Ok(()) => (GameView { holder: Some(to), last_passed_block: now as int, ..g }, Ok(())),
        }
    }
}

/// What `check_deadline_burned` does to a state: as `check_deadline`, except
/// that the forfeited live token is first burned on the external ledger. A
/// failed burn is reported as `LedgerError` and the game is left standing, so
/// that resolution can be retried; only a successful burn tears it down.
pub open spec fn deadline_burned_transition(g: GameView, now: u32, burn: Result<(), u32>) -> (
    GameView,
    Result<bool, HotPotatoError>,
) {
    if !g.expired_at(now) {
        (g, Ok(false))
    } else {
        match burn {
            Err(code) => (g, Err(HotPotatoError::LedgerError(code))),
            Ok(()) => (g.after_reset(), Ok(true)),
        }
    }
}

/// The number of ticks the holder still has at `now` before forfeiture:
/// zero while no game runs, never negative.
pub open spec fn remaining_at(g: GameView, now: u32) -> int {
    if !g.active {
        0
    } else if now <= g.deadline_tick() {
        g.deadline_tick() - now
    } else {
        0
    }
}

/// The turn-passing game engine: who holds the token, who may act, and until
/// which tick. One value is one independent game instance.
pub struct Hotpotato {
    current_holder: Option<AccountId>,
    last_passed_block: u32,
    deadline_blocks: u32,
    active: bool,
    game_starter: Option<AccountId>,
    next_token_sequence: u64,
    live_token: Option<u64>,
}

impl View for Hotpotato {
    type V = GameView;

    closed spec fn view(&self) -> GameView {
        GameView {
            holder: self.current_holder,
            last_passed_block: self.last_passed_block as int,
            deadline_blocks: self.deadline_blocks as int,
            active: self.active,
            starter: self.game_starter,
            next_token_sequence: self.next_token_sequence as int,
            live_token: match self.live_token {
                Some(t) => Some(t as int),
                None => None,
            },
        }
    }
}

impl Hotpotato {
    /// Build an engine with the given deadline window; no game is running.
    pub fn new(deadline_blocks: u32) -> (r: Hotpotato)
        ensures
            r@ == initial_view(deadline_blocks),
            r@.wf(),
    {
        Hotpotato {
            current_holder: None,
            last_passed_block: 0,
            deadline_blocks,
            active: false,
            game_starter: None,
            next_token_sequence: 0,
            live_token: None,
        }
    }

    /// Current possessor of the token, or `None` while no game runs.
    pub fn get_holder(&self) -> (r: Option<AccountId>)
        ensures
            r == self@.holder,
    {
        self.current_holder
    }

    /// Whether a game is in progress.
    pub fn is_active(&self) -> (r: bool)
        ensures
            r == self@.active,
    {
        self.active
    }

    /// The deadline window fixed at construction.
    pub fn get_deadline_blocks(&self) -> (r: u32)
        ensures
            r as int == self@.deadline_blocks,
    {
        self.deadline_blocks
    }

    /// Tick at which the token last changed hands.
    pub fn get_last_passed_block(&self) -> (r: u32)
        ensures
            r as int == self@.last_passed_block,
    {
        self.last_passed_block
    }

    /// Identity that started the running game, or `None` while no game runs.
    pub fn get_game_starter(&self) -> (r: Option<AccountId>)
        ensures
            r == self@.starter,
    {
        self.game_starter
    }

    /// Ticks left before the running game's deadline; zero while inactive or
    /// once the deadline has passed, never negative.
    pub fn get_remaining_blocks(&self, now: u32) -> (r: u64)
        ensures
            r as int == remaining_at(self@, now),
    {
        if !self.active {
            return 0;
        }
        let deadline: u64 = self.last_passed_block as u64 + self.deadline_blocks as u64;
        if now as u64 <= deadline {
            deadline - now as u64
        } else {
            0
        }
    }

    /// Whether the running game's deadline has passed at `now`; `false` while
    /// no game runs. Reading this never mutates anything, so any party may
    /// poll it before resolving a forfeiture.
    pub fn is_expired(&self, now: u32) -> (r: bool)
        ensures
            r == self@.expired_at(now),
    {
        self.active && (now as u64) > self.last_passed_block as u64 + self.deadline_blocks as u64
    }

    /// Widen the host's 20-byte caller address to a 32-byte account identity
    /// by zero-padding its tail.
    pub fn caller_to_account_id(caller: &[u8; 20]) -> (r: AccountId)
        ensures
            forall|i: int| 0 <= i < 20 ==> r.bytes@[i] == caller@[i],
            forall|i: int| 20 <= i < 32 ==> r.bytes@[i] == 0,
    {
        let mut bytes: [u8; 32] = [0u8; 32];
        let mut i: usize = 0;
        while i < 20
            invariant
                0 <= i <= 20,
                forall|j: int| 0 <= j < i ==> bytes@[j] == caller@[j],
                forall|j: int| i <= j < 32 ==> bytes@[j] == 0,
            decreases 20 - i,
        {
            bytes[i] = caller[i];
            i += 1;
        }
        AccountId { bytes }
    }

    /// Start a new game: `caller` is the initiator, `to` receives the token,
    /// `now` is the current tick. Refused without effect while a game runs.
    pub fn start_game(&mut self, caller: AccountId, to: AccountId, now: u32) -> (r: Result<
        (),
        HotPotatoError,
    >)
        requires
            old(self)@.wf(),
        ensures
            final(self)@.wf(),
            (final(self)@, r) == start_transition(old(self)@, caller, to, now),
            final(self)@.deadline_blocks == old(self)@.deadline_blocks,
    {
        if self.active {
            return Err(HotPotatoError::GameAlreadyActive);
        }
        self.current_holder = Some(to);
        self.last_passed_block = now;
        self.active = true;
        self.game_starter = Some(caller);
        Ok(())
    }

    /// Pass the token: only the current holder may, only while the game runs,
    /// and only up to and including the deadline tick. A refused pass leaves
    /// the state untouched.
    pub fn pass_potato(&mut self, caller: AccountId, to: AccountId, now: u32) -> (r: Result<
        (),
        HotPotatoError,
    >)
        requires
            old(self)@.wf(),
        ensures
            final(self)@.wf(),
            (final(self)@, r) == pass_transition(old(self)@, caller, to, now),
            final(self)@.deadline_blocks == old(self)@.deadline_blocks,
    {
        if !self.active {
            return Err(HotPotatoError::GameNotActive);
        }
        let holder_is_caller = match &self.current_holder {
            Some(h) => *h == caller,
            None => false,
        };
        if !holder_is_caller {
            return Err(HotPotatoError::NotCurrentHolder);
        }
        if now as u64 > self.last_passed_block as u64 + self.deadline_blocks as u64 {
            return Err(HotPotatoError::DeadlinePassed);
        }
        self.current_holder = Some(to);
        self.last_passed_block = now;
        Ok(())
    }

    /// Resolve a forfeiture: if the running game's deadline has passed at
    /// `now`, tear the game down and report `true`; otherwise report `false`
    /// and change nothing. Callable by anyone, with no authorization.
    pub fn check_deadline(&mut self, now: u32) -> (r: bool)
        requires
            old(self)@.wf(),
        ensures
            final(self)@.wf(),
            (final(self)@, r) == deadline_transition(old(self)@, now),
            final(self)@.deadline_blocks == old(self)@.deadline_blocks,
    {
        if !self.active {
            return false;
        }
        if now as u64 > self.last_passed_block as u64 + self.deadline_blocks as u64 {
            self.reset_game();
            true
        } else {
            false
        }
    }

    /// End the running game manually: only its starter may, at any time,
    /// deadline or not. A refused end leaves the state untouched.
    pub fn end_game(&mut self, caller: AccountId) -> (r: Result<(), HotPotatoError>)
        requires
            old(self)@.wf(),
        ensures
            final(self)@.wf(),
            (final(self)@, r) == end_transition(old(self)@, caller),
            final(self)@.deadline_blocks == old(self)@.deadline_blocks,
    {
        if !self.active {
            return Err(HotPotatoError::GameNotActive);
        }
        let starter_is_caller = match &self.game_starter {
            Some(s) => *s == caller,
            None => false,
        };
        if !starter_is_caller {
            return Err(HotPotatoError::NotGameStarter);
        }
        self.reset_game();
        Ok(())
    }

    /// Token identity that a mint for the next game will use.
    pub fn get_next_token_id(&self) -> (r: u64)
        ensures
            r as int == self@.next_token_sequence,
    {
        self.next_token_sequence
    }

    /// Identity of the live minted token, if the running game is
    /// ledger-backed; the ledger's transfer and burn calls name it.
    pub fn get_live_token_id(&self) -> (r: Option<u64>)
        ensures
            r is Some <==> self@.live_token is Some,
            r matches Some(t) ==> self@.live_token == Some(t as int),
    {
        self.live_token
    }

    /// Start a new ledger-backed game. The host first mints token
    /// `get_next_token_id()` for `to` on the external ledger and hands the
    /// outcome in as `mint` (`Err` carries the ledger's own code); on a failed
    /// mint nothing changes and `LedgerError` is reported, so the operation is
    /// all-or-nothing.
    pub fn start_game_minted(
        &mut self,
        caller: AccountId,
        to: AccountId,
        now: u32,
        mint: Result<(), u32>,
    ) -> (r: Result<(), HotPotatoError>)
        requires
            old(self)@.wf(),
            old(self)@.next_token_sequence < u64::MAX,
        ensures
            final(self)@.wf(),
            (final(self)@, r) == start_minted_transition(old(self)@, caller, to, now, mint),
            final(self)@.deadline_blocks == old(self)@.deadline_blocks,
    {
        if self.active {
            return Err(HotPotatoError::GameAlreadyActive);
        }
        match mint {
            Err(code) => Err(HotPotatoError::LedgerError(code)),
            Ok(()) => {
                self.current_holder = Some(to);
                self.last_passed_block = now;
                self.active = true;
                self.game_starter = Some(caller);
                self.live_token = Some(self.next_token_sequence);
                self.next_token_sequence = self.next_token_sequence + 1;
                Ok(())
            },
        }
    }

    /// Pass the token in a ledger-backed game. The host first moves custody of
    /// `get_live_token_id()` from the holder to `to` on the external ledger
    /// and hands the outcome in as `transfer`; on a failed transfer nothing
    /// changes and `LedgerError` is reported, so the operation is
    /// all-or-nothing.
    pub fn pass_potato_transferred(
        &mut self,
        caller: AccountId,
        to: AccountId,
        now: u32,
        transfer: Result<(), u32>,
    ) -> (r: Result<(), HotPotatoError>)
        requires
            old(self)@.wf(),
        ensures
            final(self)@.wf(),
            (final(self)@, r) == pass_transferred_transition(old(self)@, caller, to, now, transfer),
            final(self)@.deadline_blocks == old(self)@.deadline_blocks,
    {
        if !self.active {
            return Err(HotPotatoError::GameNotActive);
        }
        let holder_is_caller = match &self.current_holder {
            Some(h) => *h == caller,
            None => false,
        };
        if !holder_is_caller {
            return Err(HotPotatoError::NotCurrentHolder);
        }
        if now as u64 > self.last_passed_block as u64 + self.deadline_blocks as u64 {
            return Err(HotPotatoError::DeadlinePassed);
        }
        match transfer {
            Err(code) => Err(HotPotatoError::LedgerError(code)),
            Ok(()) => {
                self.current_holder = Some(to);
                self.last_passed_block = now;
                Ok(())
            },
        }
    }

    /// Resolve a forfeiture in a ledger-backed game. If the deadline has
    /// passed at `now`, the host first burns `get_live_token_id()` from the
    /// holder on the external ledger and hands the outcome in as `burn`; on a
    /// failed burn nothing changes and `LedgerError` is reported, so the game
    /// stands and resolution can be retried. While the game is not expired,
    /// `burn` is ignored and `Ok(false)` is reported without effect.
    pub fn check_deadline_burned(&mut self, now: u32, burn: Result<(), u32>) -> (r: Result<
        bool,
        HotPotatoError,
    >)
        requires
            old(self)@.wf(),
        ensures
            final(self)@.wf(),
            (final(self)@, r) == deadline_burned_transition(old(self)@, now, burn),
            final(self)@.deadline_blocks == old(self)@.deadline_blocks,
    {
        if !self.active {
            return Ok(false);
        }
        if now as u64 > self.last_passed_block as u64 + self.deadline_blocks as u64 {
            match burn {
                Err(code) => Err(HotPotatoError::LedgerError(code)),
                Ok(()) => {
                    self.reset_game();
                    Ok(true)
                },
            }
        } else {
            Ok(false)
        }
    }

    /// Tear the game down to the inactive state: no holder, no starter, no
    /// live token. The deadline window and the last transfer tick remain.
    pub fn reset_game(&mut self)
        ensures
            final(self)@ == old(self)@.after_reset(),
            final(self)@.wf(),
    {
        self.current_holder = None;
        self.active = false;
        self.game_starter = None;
        self.live_token = None;
    }
}

} // verus!
