use rand::seq::SliceRandom;
use vstd::prelude::*;
use crate::action::{Actionable, Actions};
use crate::model::{
    lemma_moves_preserve_validity, lemma_solved_is_valid, lemma_turned_all_push, solved_view,
    turned_all, valid_state, CubeModel,
};

verus! {

/// Picks one of the moves at random: `SliceRandom::choose` of the `rand`
/// crate, on the thread-local generator. It gives `None` for an empty list
/// and otherwise one of the list's own items; which one is left to chance.
/// The generator panics if the system cannot seed it.
#[verifier::external_body]
fn choose_action(actions: &Vec<Actions>) -> (picked: Option<Actions>)
    ensures
        actions@.len() == 0 ==> picked is None,
        actions@.len() > 0 ==> picked is Some && actions@.contains(picked->0),
{
    actions.choose(&mut rand::thread_rng()).copied()
}

/// A puzzle scrambled by `moves` random moves from the solved state.
/// Whatever the moves were, the result is a state that `moves` moves reach
/// from the solved one, and it satisfies the puzzle-state invariant.
pub fn make_random_moves_model(moves: usize) -> (cube: CubeModel)
    ensures
        exists|taken: Seq<Actions>|
            taken.len() == moves && cube@ == #[trigger] turned_all(solved_view(), taken),
        valid_state(cube@),
{
    let actions = Actions::every();
    let mut cube = CubeModel::solved();
    let ghost mut taken: Seq<Actions> = Seq::empty();
    let mut done: usize = 0;
    while done < moves
        invariant
            done <= moves,
            actions@ == Actions::all(),
            taken.len() == done,
            cube@ == turned_all(solved_view(), taken),
        decreases moves - done,
    {
        let random_move = choose_action(&actions).unwrap();
        cube.apply_action(random_move);
        proof {
            lemma_turned_all_push(solved_view(), taken, random_move);
            taken = taken.push(random_move);
        }
        done += 1;
    }
    proof {
        lemma_solved_is_valid();
        lemma_moves_preserve_validity(solved_view(), taken);
    }
    cube
}

} // verus!
