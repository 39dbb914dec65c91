//! The outcome of a batch of files.
//!
//! Each file of a batch is identified on its own, and one file's failure does
//! not stop the others. When all are done, the outcomes are parted into the
//! files that were renamed and the errors of those that were not.

use vstd::prelude::*;

verus! {

/// The values of the successful outcomes, in the order of the outcomes.
pub open spec fn successes<T, E>(outcomes: Seq<Result<T, E>>) -> Seq<T>
    decreases outcomes.len(),
{
    if outcomes.len() == 0 {
        Seq::empty()
    } else {
        match outcomes.last() {
            Ok(value) => successes(outcomes.drop_last()).push(value),
            Err(_) => successes(outcomes.drop_last()),
        }
    }
}

/// The errors of the failed outcomes, in the order of the outcomes.
pub open spec fn failures<T, E>(outcomes: Seq<Result<T, E>>) -> Seq<E>
    decreases outcomes.len(),
{
    if outcomes.len() == 0 {
        Seq::empty()
    } else {
        match outcomes.last() {
            Ok(_) => failures(outcomes.drop_last()),
            Err(error) => failures(outcomes.drop_last()).push(error),
        }
    }
}

/// The items of `items`, last first.
fn reversed<T>(items: Vec<T>) -> (res: Vec<T>)
    ensures
        res@.len() == items@.len(),
        forall|i: int| 0 <= i < res@.len() ==> res@[i] == items@[items@.len() - 1 - i],
{
    let ghost all = items@;
    let mut rest = items;
    let mut res: Vec<T> = Vec::new();
    while rest.len() > 0
        invariant
            rest@.len() + res@.len() == all.len(),
            rest@ == all.take(rest@.len() as int),
            forall|i: int| 0 <= i < res@.len() ==> res@[i] == all[all.len() - 1 - i],
        decreases rest@.len(),
    {
        match rest.pop() {
            Some(item) => res.push(item),
            None => {},
        }
    }
    res
}

/// Parts the outcomes of a batch into the new names of the files that were
/// renamed and the errors of the files that were not, each in the order of
/// the outcomes.
pub fn as_title_artist<T, E>(outcomes: Vec<Result<T, E>>) -> (res: (Vec<T>, Vec<E>))
    ensures
        res.0@ == successes(outcomes@),
        res.1@ == failures(outcomes@),
{
    let ghost all = outcomes@;
    let mut rest = reversed(outcomes);
    let ghost turned = rest@;
    let mut newfiles: Vec<T> = Vec::new();
    let mut errors: Vec<E> = Vec::new();
    while rest.len() > 0
        invariant
            turned.len() == all.len(),
            forall|i: int| 0 <= i < turned.len() ==> turned[i] == all[all.len() - 1 - i],
            rest@.len() <= all.len(),
            rest@ == turned.take(rest@.len() as int),
            newfiles@ == successes(all.take(all.len() - rest@.len())),
            errors@ == failures(all.take(all.len() - rest@.len())),
        decreases rest@.len(),
    {
        let ghost done = all.len() - rest@.len();
        let outcome = rest.pop();
        proof {
            assert(all.take(done + 1).drop_last() =~= all.take(done));
            assert(all.take(done + 1).last() == all[done]);
            assert(outcome == Some(all[done]));
        }
        match outcome {
            Some(Ok(newfile)) => newfiles.push(newfile),
            Some(Err(error)) => errors.push(error),
            None => {},
        }
    }
    proof {
        assert(all.take(all.len() as int) =~= all);
    }
    (newfiles, errors)
}

} // verus!
