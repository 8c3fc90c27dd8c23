use vstd::prelude::*;

use crate::account::AccountId;
use crate::game::GameView;
use crate::game::HotPotatoError;
use crate::game::deadline_burned_transition;
use crate::game::deadline_transition;
use crate::game::end_transition;
use crate::game::pass_transferred_transition;
use crate::game::pass_transition;
use crate::game::remaining_at;
use crate::game::start_minted_transition;
use crate::game::start_transition;

verus! {

/// While a game is running, any start — plain or ledger-backed, whatever the
/// mint outcome — is refused as `GameAlreadyActive` and changes nothing.
pub proof fn lemma_start_refused_while_active(
    g: GameView,
    caller: AccountId,
    to: AccountId,
    now: u32,
    mint: Result<(), u32>,
)
    requires
        g.active,
    ensures
        start_transition(g, caller, to, now) == (g, Err::<(), HotPotatoError>(
            HotPotatoError::GameAlreadyActive,
        )),
        start_minted_transition(g, caller, to, now, mint) == (g, Err::<(), HotPotatoError>(
            HotPotatoError::GameAlreadyActive,
        )),
{
}

/// While a game is running, a pass by anyone but the current holder — plain
/// or ledger-backed — is refused as `NotCurrentHolder` and changes nothing,
/// at every tick.
pub proof fn lemma_pass_only_holder(
    g: GameView,
    caller: AccountId,
    to: AccountId,
    now: u32,
    transfer: Result<(), u32>,
)
    requires
        g.active,
        g.holder != Some(caller),
    ensures
        pass_transition(g, caller, to, now) == (g, Err::<(), HotPotatoError>(
            HotPotatoError::NotCurrentHolder,
        )),
        pass_transferred_transition(g, caller, to, now, transfer) == (g, Err::<(), HotPotatoError>(
            HotPotatoError::NotCurrentHolder,
        )),
{
}

/// The deadline window has no gap and no overhang: a pass by the current
/// holder succeeds at every tick up to and including the deadline tick, and
/// at every later tick is refused as `DeadlinePassed` with nothing changed.
pub proof fn lemma_pass_window(g: GameView, caller: AccountId, to: AccountId, t: u32)
    requires
        g.active,
        g.holder == Some(caller),
    ensures
        t <= g.deadline_tick() ==> pass_transition(g, caller, to, t) == (
            GameView { holder: Some(to), last_passed_block: t as int, ..g },
            Ok::<(), HotPotatoError>(()),
        ),
        t > g.deadline_tick() ==> pass_transition(g, caller, to, t) == (g, Err::<
            (),
            HotPotatoError,
        >(HotPotatoError::DeadlinePassed)),
{
}

/// Resolving a deadline is idempotent: once a resolution has torn the game
/// down, resolving again at any later tick reports `false` and changes
/// nothing — plain or ledger-backed.
pub proof fn lemma_deadline_resolution_idempotent(
    g: GameView,
    now1: u32,
    now2: u32,
    burn: Result<(), u32>,
)
    requires
        deadline_transition(g, now1).1,
    ensures
        deadline_transition(deadline_transition(g, now1).0, now2) == (
            deadline_transition(g, now1).0,
            false,
        ),
        deadline_burned_transition(deadline_transition(g, now1).0, now2, burn) == (
            deadline_transition(g, now1).0,
            Ok::<bool, HotPotatoError>(false),
        ),
{
}

/// Only the starter may end the running game: anyone else is refused as
/// `NotGameStarter` with nothing changed, while the starter tears the game
/// down unconditionally, deadline or not.
pub proof fn lemma_end_authorization(g: GameView, caller: AccountId)
    requires
        g.active,
    ensures
        g.starter != Some(caller) ==> end_transition(g, caller) == (g, Err::<(), HotPotatoError>(
            HotPotatoError::NotGameStarter,
        )),
        g.starter == Some(caller) ==> end_transition(g, caller) == (g.after_reset(), Ok::<
            (),
            HotPotatoError,
        >(())),
{
}

/// Ledger-backed operations are all-or-nothing: whenever the underlying mint,
/// transfer or burn fails, the state is left exactly as it was, and if the
/// operation's own authorization and deadline checks all pass, the failure is
/// reported as `LedgerError` with the ledger's code.
pub proof fn lemma_ledger_failure_atomic(
    g: GameView,
    caller: AccountId,
    to: AccountId,
    now: u32,
    code: u32,
)
    ensures
        start_minted_transition(g, caller, to, now, Err(code)).0 == g,
        pass_transferred_transition(g, caller, to, now, Err(code)).0 == g,
        deadline_burned_transition(g, now, Err(code)).0 == g,
        !g.active ==> start_minted_transition(g, caller, to, now, Err(code)).1 == Err::<
            (),
            HotPotatoError,
        >(HotPotatoError::LedgerError(code)),
        g.active && g.holder == Some(caller) && now <= g.deadline_tick()
            ==> pass_transferred_transition(g, caller, to, now, Err(code)).1 == Err::<
            (),
            HotPotatoError,
        >(HotPotatoError::LedgerError(code)),
        g.expired_at(now) ==> deadline_burned_transition(g, now, Err(code)).1 == Err::<
            bool,
            HotPotatoError,
        >(HotPotatoError::LedgerError(code)),
{
}

/// The remaining window is never negative: at every tick it is either the
/// ticks left until the deadline or zero, and it is zero whenever no game
/// runs or the deadline has passed.
pub proof fn lemma_remaining_never_negative(g: GameView, now: u32)
    ensures
        remaining_at(g, now) >= 0,
        !g.active ==> remaining_at(g, now) == 0,
        g.expired_at(now) ==> remaining_at(g, now) == 0,
{
}

} // verus!
