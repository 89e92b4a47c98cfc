//! The rotation of executors: once per epoch one address is drawn from the
//! stake roll and alone may execute requests until the epoch ends.
//!
//! The draw is seeded with the block height and with nothing else, so anyone
//! who knows the height at which an epoch starts knows the draw in advance.

use vstd::prelude::*;
use crate::msg::Env;
use crate::state::{State, StateView};

verus! {

/// The first number that the generator `oorandom::Rand64` gives when it is
/// seeded with `seed`.
pub uninterp spec fn first_draw(seed: u128) -> u64;

/// Seeds `oorandom::Rand64` with `seed` (`Rand64::new`) and takes its first
/// number (`Rand64::rand_u64`). The generator has no state but the seed, so
/// the number depends on the seed alone.
#[verifier::external_body]
fn seeded_draw(seed: u128) -> (draw: u64)
    ensures
        draw == first_draw(seed),
{
    oorandom::Rand64::new(seed).rand_u64()
}

/// The epoch of a height: the height of the epoch's first block.
pub open spec fn epoch_of(height: u64, blocks_in_epoch: u64) -> u64
    recommends
        blocks_in_epoch > 0,
{
    ((height / blocks_in_epoch) * blocks_in_epoch) as u64
}

/// The state after the rotation at `height`, where `draw` is the number drawn.
/// Within the epoch of the last draw nothing changes. In a new epoch the
/// executor is the entry of the stake roll at `draw` modulo the roll's length,
/// or nobody where the roll is empty, and the epoch is recorded.
pub open spec fn rotated(state: StateView, height: u64, blocks_in_epoch: u64, draw: u64) -> StateView
    recommends
        blocks_in_epoch > 0,
{
    let epoch = epoch_of(height, blocks_in_epoch);
    if epoch == state.last_epoch {
        state
    } else if state.stakes.len() == 0 {
        StateView { executor: Seq::empty(), last_epoch: epoch, ..state }
    } else {
        StateView {
            executor: state.stakes[draw as int % state.stakes.len() as int],
            last_epoch: epoch,
            ..state
        }
    }
}

/// Computes the epoch of a height.
pub fn epoch(height: u64, blocks_in_epoch: u64) -> (e: u64)
    requires
        blocks_in_epoch > 0,
    ensures
        e == epoch_of(height, blocks_in_epoch),
        e <= height,
{
    let periods = height / blocks_in_epoch;
    assert(periods * blocks_in_epoch <= height) by (nonlinear_arith)
        requires
            periods == height / blocks_in_epoch,
            blocks_in_epoch > 0,
    ;
    periods * blocks_in_epoch
}

/// Rotates the executor at `height` with the number `draw`.
pub fn elect_executor(state: &mut State, height: u64, blocks_in_epoch: u64, draw: u64)
    requires
        blocks_in_epoch > 0,
    ensures
        final(state)@ == rotated(old(state)@, height, blocks_in_epoch, draw),
{
    let epoch = epoch(height, blocks_in_epoch);
    if state.last_epoch != epoch {
        let len = state.stakes.len();
        if len > 0 {
            let index = (draw % (len as u64)) as usize;
            state.executor = state.stakes[index].clone();
        } else {
            state.executor = String::new();
        }
        state.last_epoch = epoch;
    }
}

/// Rotates the executor at the height of `env`, drawing with the height as
/// the seed.
pub fn _update_executor(state: &mut State, env: &Env, blocks_in_epoch: u64)
    requires
        blocks_in_epoch > 0,
    ensures
        final(state)@ == rotated(old(state)@, env.height, blocks_in_epoch, first_draw(env.height as u128)),
{
    let draw = seeded_draw(env.height as u128);
    elect_executor(state, env.height, blocks_in_epoch, draw);
}

/// Rotating twice at one height gives what rotating once gives, whatever is
/// drawn the second time.
pub proof fn rotation_is_idempotent(
    state: StateView,
    height: u64,
    blocks_in_epoch: u64,
    first: u64,
    second: u64,
)
    requires
        blocks_in_epoch > 0,
    ensures
        rotated(rotated(state, height, blocks_in_epoch, first), height, blocks_in_epoch, second)
            == rotated(state, height, blocks_in_epoch, first),
{
}

/// A rotation changes the executor and the recorded epoch and nothing else,
/// and the executor it draws holds a stake.
pub proof fn rotation_draws_a_staker(state: StateView, height: u64, blocks_in_epoch: u64, draw: u64)
    requires
        blocks_in_epoch > 0,
    ensures
        rotated(state, height, blocks_in_epoch, draw) == (StateView {
            executor: rotated(state, height, blocks_in_epoch, draw).executor,
            last_epoch: rotated(state, height, blocks_in_epoch, draw).last_epoch,
            ..state
        }),
        epoch_of(height, blocks_in_epoch) != state.last_epoch ==> rotated(
            state,
            height,
            blocks_in_epoch,
            draw,
        ).last_epoch == epoch_of(height, blocks_in_epoch),
        epoch_of(height, blocks_in_epoch) != state.last_epoch && state.stakes.len() > 0
            ==> state.stakes.contains(rotated(state, height, blocks_in_epoch, draw).executor),
{
    if epoch_of(height, blocks_in_epoch) != state.last_epoch && state.stakes.len() > 0 {
        let i = draw as int % state.stakes.len() as int;
        assert(0 <= i < state.stakes.len());
        assert(state.stakes[i] == rotated(state, height, blocks_in_epoch, draw).executor);
    }
}

} // verus!
