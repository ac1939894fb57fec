//! What the loader keeps of the plugins it tried: a plugin that failed to
//! load is skipped, and the others load as if it had not been there.

use vstd::prelude::*;
use crate::plugin_config::PluginLoadFailure;

verus! {

/// The managers of the plugins that loaded, in the order of the outcomes.
pub open spec fn loaded<R>(outcomes: Seq<Result<R, PluginLoadFailure>>) -> Seq<R>
    decreases outcomes.len(),
{
    if outcomes.len() == 0 {
        Seq::empty()
    } else {
        match outcomes[0] {
            Ok(manager) => seq![manager] + loaded(outcomes.drop_first()),
            Err(_) => loaded(outcomes.drop_first()),
        }
    }
}

/// The failures of the plugins that did not load, in the order of the
/// outcomes.
pub open spec fn skipped<R>(outcomes: Seq<Result<R, PluginLoadFailure>>) -> Seq<PluginLoadFailure>
    decreases outcomes.len(),
{
    if outcomes.len() == 0 {
        Seq::empty()
    } else {
        match outcomes[0] {
            Ok(_) => skipped(outcomes.drop_first()),
            Err(failure) => seq![failure] + skipped(outcomes.drop_first()),
        }
    }
}

/// What loads from one run of outcomes after another is what loads from
/// the first, followed by what loads from the second.
pub proof fn lemma_loaded_concat<R>(
    first: Seq<Result<R, PluginLoadFailure>>,
    second: Seq<Result<R, PluginLoadFailure>>,
)
    ensures
        loaded(first + second) == loaded(first) + loaded(second),
    decreases first.len(),
{
    if first.len() == 0 {
        assert(first + second =~= second);
        assert(loaded(first) + loaded(second) =~= loaded(second));
    } else {
        assert((first + second).drop_first() =~= first.drop_first() + second);
        lemma_loaded_concat(first.drop_first(), second);
        match first[0] {
            Ok(manager) => {
                assert(seq![manager] + (loaded(first.drop_first()) + loaded(second)) =~= (
                seq![manager] + loaded(first.drop_first())) + loaded(second));
            },
            Err(_) => {},
        }
    }
}

/// A plugin that fails to load changes nothing of the others: the plugins
/// tried before it and after it load as they do without it.
pub proof fn lemma_failure_is_skipped<R>(
    before: Seq<Result<R, PluginLoadFailure>>,
    failure: PluginLoadFailure,
    after: Seq<Result<R, PluginLoadFailure>>,
)
    ensures
        loaded(before + seq![Err::<R, PluginLoadFailure>(failure)] + after) == loaded(
            before + after,
        ),
{
    let failed = seq![Err::<R, PluginLoadFailure>(failure)];
    lemma_loaded_concat(before + failed, after);
    lemma_loaded_concat(before, failed);
    lemma_loaded_concat(before, after);
    assert(failed.drop_first() =~= Seq::<Result<R, PluginLoadFailure>>::empty());
    assert(failed.len() == 1 && failed[0] is Err);
    assert(loaded(failed.drop_first()) =~= Seq::<R>::empty());
    assert(loaded(failed) =~= Seq::<R>::empty());
    assert(loaded(before) + loaded(failed) =~= loaded(before));
}

/// Parts the outcomes of loading each plugin into the managers that loaded
/// and the failures of those that did not.
pub fn keep_loaded<R>(outcomes: Vec<Result<R, PluginLoadFailure>>) -> (kept: (
    Vec<R>,
    Vec<PluginLoadFailure>,
))
    ensures
        kept.0@ == loaded(outcomes@),
        kept.1@ == skipped(outcomes@),
{
    let mut outcomes = outcomes;
    let ghost all = outcomes@;
    let mut managers: Vec<R> = Vec::new();
    let mut failures: Vec<PluginLoadFailure> = Vec::new();
    assert(managers@ + loaded(outcomes@) =~= loaded(all));
    assert(failures@ + skipped(outcomes@) =~= skipped(all));
    while outcomes.len() > 0
        invariant
            managers@ + loaded(outcomes@) == loaded(all),
            failures@ + skipped(outcomes@) == skipped(all),
        decreases outcomes@.len(),
    {
        let ghost rest = outcomes@;
        let ghost held = managers@;
        let ghost failed = failures@;
        let outcome = outcomes.remove(0);
        assert(outcomes@ =~= rest.drop_first());
        assert(outcome == rest[0]);
        match outcome {
            Ok(manager) => {
                managers.push(manager);
                assert(managers@ + loaded(outcomes@) =~= held + loaded(rest));
            },
            Err(failure) => {
                failures.push(failure);
                assert(failures@ + skipped(outcomes@) =~= failed + skipped(rest));
            },
        }
    }
    assert(managers@ + loaded(outcomes@) =~= managers@);
    assert(failures@ + skipped(outcomes@) =~= failures@);
    (managers, failures)
}

} // verus!
