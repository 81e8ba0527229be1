//! What the operations of the store have in common: each is resumed with
//! the reply to its last request and names the next one.

use vstd::prelude::*;
use crate::model::World;
use crate::step::Reply;
use crate::step::ReplyView;
use crate::step::Step;
use crate::step::StepView;

verus! {

/// An operation of the store, as a state machine.
pub trait Operation: Sized + View {
    /// What the operation ends with.
    type Output;

    /// The mathematical value of what the operation ends with.
    type OutputView;

    /// The mathematical value of a result.
    spec fn output_view(output: Self::Output) -> Self::OutputView;

    /// The state and the request that follow a state and the reply to its
    /// request.
    spec fn advance(state: Self::V, reply: ReplyView) -> (Self::V, StepView<Self::OutputView>);

    /// Resumes the operation with the reply to its last request.
    fn resume(self, reply: Reply) -> (r: (Self, Step<Self::Output>))
        ensures
            r.0@ == Self::advance(self@, reply@).0,
            r.1.view_with(|o: Self::Output| Self::output_view(o)) == Self::advance(
                self@,
                reply@,
            ).1,
    ;
}

/// The store and the result after an operation has run on its own, every
/// request carried out without failure, from a state and its request. The
/// result is absent where the operation has not ended after `fuel` requests.
pub open spec fn drive<O: Operation>(
    world: World,
    state: O::V,
    step: StepView<O::OutputView>,
    fuel: nat,
) -> (World, Option<O::OutputView>)
    decreases fuel,
{
    match step {
        StepView::Finish(result) => (world, Some(result)),
        _ => if fuel == 0 {
            (world, None)
        } else {
            let (next_world, reply) = world.perform(step);
            let (next_state, next_step) = O::advance(state, reply);
            drive::<O>(next_world, next_state, next_step, (fuel - 1) as nat)
        },
    }
}

/// One request of a run: the run from a request that does not end the
/// operation is the run from the state after it.
pub proof fn lemma_drive_unfold<O: Operation>(
    world: World,
    state: O::V,
    step: StepView<O::OutputView>,
    fuel: nat,
)
    requires
        fuel > 0,
        !(step is Finish),
    ensures
        drive::<O>(world, state, step, fuel) == drive::<O>(
            world.perform(step).0,
            O::advance(state, world.perform(step).1).0,
            O::advance(state, world.perform(step).1).1,
            (fuel - 1) as nat,
        ),
{
}

/// The end of a run: the store stays as it is and the result is handed out.
pub proof fn lemma_drive_finish<O: Operation>(
    world: World,
    state: O::V,
    result: O::OutputView,
    fuel: nat,
)
    ensures
        drive::<O>(world, state, StepView::Finish(result), fuel) == (world, Some(result)),
{
}

/// A run that has ended stays as it is when it is given more requests.
pub proof fn lemma_drive_more<O: Operation>(
    world: World,
    state: O::V,
    step: StepView<O::OutputView>,
    fuel: nat,
    more: nat,
)
    requires
        drive::<O>(world, state, step, fuel).1 is Some,
    ensures
        drive::<O>(world, state, step, fuel + more) == drive::<O>(world, state, step, fuel),
    decreases fuel,
{
    if !(step is Finish) && fuel > 0 {
        let (next_world, reply) = world.perform(step);
        let (next_state, next_step) = O::advance(state, reply);
        lemma_drive_more::<O>(next_world, next_state, next_step, (fuel - 1) as nat, more);
        assert(drive::<O>(world, state, step, fuel + more) == drive::<O>(
            next_world,
            next_state,
            next_step,
            (fuel + more - 1) as nat,
        ));
    }
}

/// The store and the result after an operation has run on its own to its
/// end; the result is absent where the operation does not end.
pub open spec fn run<O: Operation>(world: World, state: O::V, step: StepView<O::OutputView>) -> (
    World,
    Option<O::OutputView>,
) {
    drive::<O>(
        world,
        state,
        step,
        choose|fuel: nat| (#[trigger] drive::<O>(world, state, step, fuel)).1 is Some,
    )
}

/// A run that ends within a number of requests is the run to its end.
pub proof fn lemma_run_is<O: Operation>(
    world: World,
    state: O::V,
    step: StepView<O::OutputView>,
    fuel: nat,
)
    requires
        drive::<O>(world, state, step, fuel).1 is Some,
    ensures
        run::<O>(world, state, step) == drive::<O>(world, state, step, fuel),
{
    let chosen = choose|f: nat| (#[trigger] drive::<O>(world, state, step, f)).1 is Some;
    lemma_drive_more::<O>(world, state, step, fuel, chosen);
    lemma_drive_more::<O>(world, state, step, chosen, fuel);
    assert(fuel + chosen == chosen + fuel);
}

/// One request of a run to the end: where the run from the state after a
/// request ends, the run from the request is that run.
pub proof fn lemma_run_step<O: Operation>(
    world: World,
    state: O::V,
    step: StepView<O::OutputView>,
)
    requires
        !(step is Finish),
        run::<O>(
            world.perform(step).0,
            O::advance(state, world.perform(step).1).0,
            O::advance(state, world.perform(step).1).1,
        ).1 is Some,
    ensures
        run::<O>(world, state, step) == run::<O>(
            world.perform(step).0,
            O::advance(state, world.perform(step).1).0,
            O::advance(state, world.perform(step).1).1,
        ),
{
    let (next_world, reply) = world.perform(step);
    let (next_state, next_step) = O::advance(state, reply);
    let fuel = choose|f: nat| (#[trigger] drive::<O>(next_world, next_state, next_step, f)).1 is Some;
    lemma_drive_unfold::<O>(world, state, step, fuel + 1);
    lemma_run_is::<O>(world, state, step, fuel + 1);
}

/// The end of a run to the end.
pub proof fn lemma_run_finish<O: Operation>(world: World, state: O::V, result: O::OutputView)
    ensures
        run::<O>(world, state, StepView::Finish(result)) == (world, Some(result)),
{
    lemma_run_is::<O>(world, state, StepView::Finish(result), 0);
}

/// A request is carried out in the same way whatever the operation that
/// makes it ends with.
pub proof fn lemma_pass_performs<R, S>(world: World, step: StepView<R>)
    requires
        !(step is Finish),
    ensures
        world.perform(step.pass::<S>()) == world.perform(step),
        !(step.pass::<S>() is Finish),
{
}

/// An operation as a part of another, where the part ends within a number
/// of requests.
proof fn lemma_drive_part<O: Operation, I: Operation>(
    world: World,
    wrap: spec_fn(I::V) -> O::V,
    then: spec_fn(I::OutputView) -> (O::V, StepView<O::OutputView>),
    state: I::V,
    step: StepView<I::OutputView>,
    fuel: nat,
)
    requires
        !(step is Finish),
        forall|s: I::V, reply: ReplyView| #[trigger]
            O::advance(wrap(s), reply) == (match I::advance(s, reply).1 {
                StepView::Finish(r) => then(r),
                q => (wrap(I::advance(s, reply).0), q.pass()),
            }),
        drive::<I>(world, state, step, fuel).1 matches Some(r) && run::<O>(
            drive::<I>(world, state, step, fuel).0,
            then(r).0,
            then(r).1,
        ).1 is Some,
    ensures
        run::<O>(world, wrap(state), step.pass()) == run::<O>(
            drive::<I>(world, state, step, fuel).0,
            then(drive::<I>(world, state, step, fuel).1.unwrap()).0,
            then(drive::<I>(world, state, step, fuel).1.unwrap()).1,
        ),
    decreases fuel,
{
    if fuel > 0 {
        let (next_world, reply) = world.perform(step);
        let (next_state, next_step) = I::advance(state, reply);
        lemma_pass_performs::<I::OutputView, O::OutputView>(world, step);
        let outer = O::advance(wrap(state), reply);
        match next_step {
            StepView::Finish(r) => {
                assert(outer == then(r));
            },
            _ => {
                assert(outer == (wrap(next_state), next_step.pass::<O::OutputView>()));
                lemma_drive_part::<O, I>(
                    next_world,
                    wrap,
                    then,
                    next_state,
                    next_step,
                    (fuel - 1) as nat,
                );
            },
        }
        lemma_run_step::<O>(world, wrap(state), step.pass());
    }
}

/// An operation as a part of another. The whole keeps the state of the part
/// within a state of its own (`wrap`), makes the requests of the part, and
/// goes on from the result of the part (`then`). Where the part, run on its
/// own, ends, and the whole ends from there, the run of the whole through the
/// part is the run of the whole from the end of the part.
pub proof fn lemma_run_part<O: Operation, I: Operation>(
    world: World,
    wrap: spec_fn(I::V) -> O::V,
    then: spec_fn(I::OutputView) -> (O::V, StepView<O::OutputView>),
    state: I::V,
    step: StepView<I::OutputView>,
)
    requires
        !(step is Finish),
        forall|s: I::V, reply: ReplyView| #[trigger]
            O::advance(wrap(s), reply) == (match I::advance(s, reply).1 {
                StepView::Finish(r) => then(r),
                q => (wrap(I::advance(s, reply).0), q.pass()),
            }),
        run::<I>(world, state, step).1 matches Some(r) && run::<O>(
            run::<I>(world, state, step).0,
            then(r).0,
            then(r).1,
        ).1 is Some,
    ensures
        run::<O>(world, wrap(state), step.pass()) == run::<O>(
            run::<I>(world, state, step).0,
            then(run::<I>(world, state, step).1.unwrap()).0,
            then(run::<I>(world, state, step).1.unwrap()).1,
        ),
{
    let fuel = choose|fuel: nat| (#[trigger] drive::<I>(world, state, step, fuel)).1 is Some;
    lemma_drive_part::<O, I>(world, wrap, then, state, step, fuel);
}

} // verus!
