use vstd::prelude::*;

use crate::apply::{found_inputs, input_fits, step_outcome, steps_outcome, DemonQuery, StepInput};
use crate::demon::DatabasePlayer;
use crate::demon::Demon;
use crate::error::DemonlistError;
use crate::patch::{PatchDemon, PatchStep};

verus! {

/// The outcome of applying `steps` one after the other, `inputs[i]` being
/// the input of `steps[i]`, stopping at the first error.
pub open spec fn fed_outcome(d: Demon, steps: Seq<PatchStep>, inputs: Seq<StepInput>) -> Result<
    (Demon, Seq<DemonQuery>),
    DemonlistError,
>
    decreases steps.len(),
{
    if steps.len() == 0 {
        Ok((d, Seq::empty()))
    } else {
        match fed_outcome(d, steps.drop_last(), inputs.drop_last()) {
            Err(e) => Err(e),
            Ok((e, queries)) => match step_outcome(e, steps.last(), inputs.last()) {
                Err(err) => Err(err),
                Ok((next, more)) => Ok((next, queries + more)),
            },
        }
    }
}

/// Feeding each step the input that `lookup` gives for it is what
/// `steps_outcome` describes.
pub proof fn lemma_fed_by_lookup(
    d: Demon,
    steps: Seq<PatchStep>,
    inputs: Seq<StepInput>,
    lookup: spec_fn(PatchStep) -> StepInput,
)
    requires
        inputs.len() == steps.len(),
        forall|i: int| 0 <= i < steps.len() ==> inputs[i] == lookup(#[trigger] steps[i]),
    ensures
        fed_outcome(d, steps, inputs) == steps_outcome(d, steps, lookup),
    decreases steps.len(),
{
    if steps.len() > 0 {
        let n = steps.len() - 1;
        assert(steps.drop_last().len() == n);
        assert forall|i: int| 0 <= i < n implies inputs.drop_last()[i] == lookup(
            #[trigger] steps.drop_last()[i],
        ) by {
            assert(steps.drop_last()[i] == steps[i]);
        }
        lemma_fed_by_lookup(d, steps.drop_last(), inputs.drop_last(), lookup);
        assert(inputs.last() == lookup(steps[n]));
    }
}

/// A patch being applied to a demon step by step: the demon so far and the
/// steps still to come. Each step's input is looked up by the caller just
/// before the step is applied.
pub struct PatchRun {
    demon: Demon,
    steps: Vec<PatchStep>,
    applied: usize,
    start: Ghost<Demon>,
    inputs: Ghost<Seq<StepInput>>,
    queries: Ghost<Seq<DemonQuery>>,
}

impl PatchRun {
    /// The demon as the steps applied so far left it.
    pub closed spec fn current(self) -> Demon {
        self.demon
    }

    /// The demon before the first step.
    pub closed spec fn start(self) -> Demon {
        self.start@
    }

    /// All steps of the patch.
    pub closed spec fn all_steps(self) -> Seq<PatchStep> {
        self.steps@
    }

    /// How many steps have been applied.
    pub closed spec fn applied(self) -> nat {
        self.applied as nat
    }

    /// The inputs that the applied steps were given.
    pub closed spec fn inputs(self) -> Seq<StepInput> {
        self.inputs@
    }

    /// The queries that the applied steps asked for, in order.
    pub closed spec fn queries(self) -> Seq<DemonQuery> {
        self.queries@
    }

    /// The run is consistent: the applied steps, fed the recorded inputs,
    /// lead from the start to the current demon with the recorded queries.
    pub closed spec fn wf(self) -> bool {
        &&& self.applied <= self.steps@.len()
        &&& self.inputs@.len() == self.applied
        &&& fed_outcome(self.start@, self.steps@.take(self.applied as int), self.inputs@) == Ok::<
            (Demon, Seq<DemonQuery>),
            DemonlistError,
        >((self.demon, self.queries@))
    }

    /// Starts applying `patch` to `demon`.
    pub fn new(demon: Demon, patch: PatchDemon) -> (run: PatchRun)
        ensures
            run.wf(),
            run.start() == demon,
            run.current() == demon,
            run.all_steps() == patch.spec_steps(),
            run.applied() == 0,
            run.inputs() == Seq::<StepInput>::empty(),
            run.queries() == Seq::<DemonQuery>::empty(),
    {
        let steps = patch.steps();
        let run = PatchRun {
            demon,
            steps,
            applied: 0,
            start: Ghost(demon),
            inputs: Ghost(Seq::empty()),
            queries: Ghost(Seq::empty()),
        };
        assert(run.steps@.take(0) =~= Seq::<PatchStep>::empty());
        run
    }

    /// The next step to apply, if any is left.
    pub fn next_step(&self) -> (step: Option<&PatchStep>)
        requires
            self.wf(),
        ensures
            self.applied() < self.all_steps().len() ==> step == Some(
                &self.all_steps()[self.applied() as int],
            ),
            self.applied() >= self.all_steps().len() ==> step is None,
    {
        if self.applied < self.steps.len() {
            Some(&self.steps[self.applied])
        } else {
            None
        }
    }

    /// The demon as the steps applied so far left it.
    pub fn demon(&self) -> (d: &Demon)
        ensures
            *d == self.current(),
    {
        &self.demon
    }

    /// Applies the next step with `input`, which was looked up for it.
    /// Returns the queries that store the change; on an error the run is
    /// left as it was, and the patch as a whole fails with that error.
    pub fn advance(&mut self, input: StepInput) -> (r: Result<Vec<DemonQuery>, DemonlistError>)
        requires
            old(self).wf(),
            old(self).applied() < old(self).all_steps().len(),
            input_fits(old(self).all_steps()[old(self).applied() as int], input),
        ensures
            final(self).wf(),
            final(self).start() == old(self).start(),
            final(self).all_steps() == old(self).all_steps(),
            match r {
                Ok(queries) => {
                    &&& final(self).applied() == old(self).applied() + 1
                    &&& final(self).inputs() == old(self).inputs().push(input)
                    &&& final(self).queries() == old(self).queries() + queries@
                    &&& step_outcome(
                        old(self).current(),
                        old(self).all_steps()[old(self).applied() as int],
                        input,
                    ) == Ok::<(Demon, Seq<DemonQuery>), DemonlistError>(
                        (final(self).current(), queries@),
                    )
                },
                Err(e) => {
                    &&& *final(self) == *old(self)
                    &&& fed_outcome(
                        old(self).start(),
                        old(self).all_steps().take(old(self).applied() + 1 as int),
                        old(self).inputs().push(input),
                    ) == Err::<(Demon, Seq<DemonQuery>), DemonlistError>(e)
                },
            },
    {
        let ghost before = *self;
        let k = self.applied;
        let total = self.steps.len();
        assert(k < total);
        let ghost taken = before.steps@.take(k as int + 1);
        proof {
            assert(taken.drop_last() =~= before.steps@.take(k as int));
            assert(taken.last() == before.steps@[k as int]);
            assert(before.inputs@.push(input).drop_last() =~= before.inputs@);
        }
        match self.demon.apply_step(&self.steps[k], input) {
            Ok(queries) => {
                self.applied = k + 1;
                self.inputs = Ghost(before.inputs@.push(input));
                self.queries = Ghost(before.queries@ + queries@);
                Ok(queries)
            },
            Err(e) => Err(e),
        }
    }

    /// The demon once the run is over.
    pub fn into_demon(self) -> (d: Demon)
        ensures
            d == self.current(),
    {
        self.demon
    }
}

/// A run that applied every step of a patch, each fed the input looked up
/// for its kind (the highest list position, the validated video, the
/// verifier and the publisher), ends as `steps_outcome` says: the demon and
/// the queries it produced are those of `lemma_patch_outcome`.
pub proof fn lemma_completed_run(
    run: PatchRun,
    patch: PatchDemon,
    maximal_position: i16,
    video: String,
    verifier: DatabasePlayer,
    publisher: DatabasePlayer,
)
    requires
        run.wf(),
        run.all_steps() == patch.spec_steps(),
        run.applied() == run.all_steps().len(),
        forall|i: int|
            0 <= i < run.applied() ==> run.inputs()[i] == found_inputs(
                maximal_position,
                video,
                verifier,
                publisher,
            )(#[trigger] run.all_steps()[i]),
    ensures
        steps_outcome(
            run.start(),
            patch.spec_steps(),
            found_inputs(maximal_position, video, verifier, publisher),
        ) == Ok::<(Demon, Seq<DemonQuery>), DemonlistError>((run.current(), run.queries())),
{
    assert(run.steps@.take(run.applied as int) =~= run.steps@);
    lemma_fed_by_lookup(
        run.start(),
        run.all_steps(),
        run.inputs(),
        found_inputs(maximal_position, video, verifier, publisher),
    );
}

} // verus!
