//! What holds of the bridge, whatever the host asks and reports.

use crate::config::EngineConfig;
use crate::entry::{accessor_text, CallStrategyView, RESULT_CHANNEL_CAPACITY, START_SIGNAL};
use crate::error::{execution_error, BridgeErrorView, ErrorKind, ExceptionView};
use crate::module_loader::{EmbeddedModuleLoaderView, LoadingView, ModuleSourceView, ResolutionView};
use crate::runtime::{ActionView, Awaiting, EventView, Lifecycle, PendingCallView, RuntimeView};
use vstd::prelude::*;

verus! {

/// One thing that the host can do to a runtime.
pub enum Input<V> {
    /// `boot`.
    Boot,
    /// `call`, for this function and this many arguments.
    Call { fn_name: Seq<char>, argc: usize },
    /// `step`, with this report.
    Report { event: EventView<V> },
}

/// The runtime and the answer after one input.
pub open spec fn apply<V>(runtime: RuntimeView<V>, input: Input<V>) -> (
    RuntimeView<V>,
    ActionView<V>,
) {
    match input {
        Input::Boot => runtime.boot(),
        Input::Call { fn_name, argc } => runtime.call(fn_name, argc),
        Input::Report { event } => runtime.step(event),
    }
}

/// The runtime after a sequence of inputs.
pub open spec fn after<V>(runtime: RuntimeView<V>, inputs: Seq<Input<V>>) -> RuntimeView<V>
    decreases inputs.len(),
{
    if inputs.len() == 0 {
        runtime
    } else {
        apply(after(runtime, inputs.drop_last()), inputs.last()).0
    }
}

/// The answer to the last of a sequence of inputs.
pub open spec fn answer<V>(runtime: RuntimeView<V>, inputs: Seq<Input<V>>) -> ActionView<V>
    recommends
        inputs.len() > 0,
{
    apply(after(runtime, inputs.drop_last()), inputs.last()).1
}

/// How often the host was told to execute the entry module.
pub open spec fn main_executions<V>(runtime: RuntimeView<V>, inputs: Seq<Input<V>>) -> nat
    decreases inputs.len(),
{
    if inputs.len() == 0 {
        0
    } else {
        main_executions(runtime, inputs.drop_last()) + if answer(runtime, inputs) is ExecuteMain {
            1nat
        } else {
            0nat
        }
    }
}

/// Running two sequences of inputs one after the other is running their
/// concatenation.
pub proof fn inputs_compose<V>(
    runtime: RuntimeView<V>,
    first: Seq<Input<V>>,
    second: Seq<Input<V>>,
)
    ensures
        after(runtime, first + second) == after(after(runtime, first), second),
        second.len() > 0 ==> answer(runtime, first + second) == answer(
            after(runtime, first),
            second,
        ),
    decreases second.len(),
{
    if second.len() > 0 {
        assert((first + second).drop_last() =~= first + second.drop_last());
        inputs_compose(runtime, first, second.drop_last());
    }
}

/// What `new` builds is well formed.
pub proof fn a_new_runtime_is_well_formed<V>(
    source_file: Seq<char>,
    strategy: CallStrategyView,
    main_module: Seq<char>,
    config: EngineConfig,
)
    ensures
        RuntimeView::<V>::constructed(source_file, strategy, main_module, config).well_formed(),
{
}

/// No input leads out of the well-formed records.
pub proof fn inputs_preserve_well_formedness<V>(runtime: RuntimeView<V>, input: Input<V>)
    requires
        runtime.well_formed(),
    ensures
        apply(runtime, input).0.well_formed(),
{
}

/// No input changes what the runtime was built with: the loader, the
/// configuration, the entry module and the strategy.
pub proof fn inputs_keep_the_setup<V>(runtime: RuntimeView<V>, input: Input<V>)
    ensures
        apply(runtime, input).0.loader == runtime.loader,
        apply(runtime, input).0.config == runtime.config,
        apply(runtime, input).0.main_module == runtime.main_module,
        apply(runtime, input).0.strategy == runtime.strategy,
{
}

/// The lifecycle never goes back: no input takes an engine to an earlier
/// state, and none leads out of `Failed`.
pub proof fn the_lifecycle_never_goes_back<V>(runtime: RuntimeView<V>, input: Input<V>)
    requires
        runtime.well_formed(),
    ensures
        runtime.lifecycle.stage() <= apply(runtime, input).0.lifecycle.stage(),
{
}

/// Once the engine is ready it stays ready, and the host is never again told
/// to bootstrap it or to execute the entry module.
pub proof fn a_ready_engine_stays_ready<V>(runtime: RuntimeView<V>, input: Input<V>)
    requires
        runtime.well_formed(),
        runtime.lifecycle == Lifecycle::Ready,
    ensures
        apply(runtime, input).0.lifecycle == Lifecycle::Ready,
        !(apply(runtime, input).1 is Bootstrap),
        !(apply(runtime, input).1 is ExecuteMain),
{
}

/// Whatever the host asks and reports, in whatever order, it is told to
/// execute the entry module at most once.
pub proof fn the_entry_module_runs_at_most_once<V>(
    runtime: RuntimeView<V>,
    inputs: Seq<Input<V>>,
)
    requires
        runtime.well_formed(),
    ensures
        main_executions(runtime, inputs) <= 1,
        after(runtime, inputs).well_formed(),
        runtime.lifecycle != Lifecycle::Constructed ==> main_executions(runtime, inputs) == 0
            && after(runtime, inputs).lifecycle != Lifecycle::Constructed,
        main_executions(runtime, inputs) == 1 ==> after(runtime, inputs).lifecycle
            != Lifecycle::Constructed,
    decreases inputs.len(),
{
    if inputs.len() > 0 {
        the_entry_module_runs_at_most_once(runtime, inputs.drop_last());
        inputs_preserve_well_formedness(after(runtime, inputs.drop_last()), inputs.last());
    }
}

/// Booting a constructed engine: the bootstrap, then the entry module under
/// its resolved identifier, then rest. Only the lifecycle has changed.
pub proof fn booting_makes_the_engine_ready<V>(runtime: RuntimeView<V>)
    requires
        runtime.well_formed(),
        runtime.lifecycle == Lifecycle::Constructed,
        !runtime.busy(),
        runtime.strategy is DirectInvocation,
    ensures
        ({
            let (bootstrapping, bootstrap) = runtime.boot();
            let (executing, execute) = bootstrapping.step(EventView::Done);
            let (ready, rest) = executing.step(EventView::Done);
            &&& bootstrap == ActionView::<V>::Bootstrap
            &&& execute == (ActionView::<V>::ExecuteMain { module: runtime.main_module })
            &&& executing.lifecycle == Lifecycle::ExecutingMain
            &&& rest == ActionView::<V>::Ready
            &&& ready == (RuntimeView { lifecycle: Lifecycle::Ready, ..runtime })
        }),
{
}

/// The first call on an engine that was not booted boots it on the way, and
/// goes on as a call on a ready engine does. Under message passing the host
/// functions are registered before the bootstrap.
pub proof fn the_first_call_boots_the_engine<V>(
    runtime: RuntimeView<V>,
    fn_name: Seq<char>,
    argc: usize,
)
    requires
        runtime.well_formed(),
        runtime.lifecycle == Lifecycle::Constructed,
        runtime.accepts(fn_name),
    ensures
        ({
            let serving = RuntimeView {
                lifecycle: Lifecycle::Ready,
                call: Some(PendingCallView { fn_name, argc }),
                ..runtime
            };
            let (first, begin) = runtime.call(fn_name, argc);
            let (bootstrapping, bootstrap) = if runtime.strategy is DirectInvocation {
                (first, begin)
            } else {
                first.step(EventView::Done)
            };
            let (executing, execute) = bootstrapping.step(EventView::Done);
            &&& !(runtime.strategy is DirectInvocation) ==> begin == ActionView::<V>::RegisterOps
            &&& bootstrap == ActionView::<V>::Bootstrap
            &&& execute == (ActionView::<V>::ExecuteMain { module: runtime.main_module })
            &&& executing.step(EventView::Done) == serving.enter_call()
        }),
{
}

/// The failure that a report of the entry module's execution stands for.
pub open spec fn boot_failure<V>(event: EventView<V>) -> Option<BridgeErrorView> {
    match event {
        EventView::Threw { exception } => Some(execution_error(exception)),
        EventView::Unresolved { message } => Some(BridgeErrorView::Resolution { message }),
        EventView::Unloadable { message } => Some(BridgeErrorView::Load { message }),
        _ => None,
    }
}

/// An entry module that throws, or whose modules cannot be resolved or
/// loaded, fails the boot with the matching failure and leaves an engine
/// that refuses every call.
pub proof fn a_failing_entry_module_disables_the_engine<V>(
    runtime: RuntimeView<V>,
    event: EventView<V>,
    fn_name: Seq<char>,
    argc: usize,
)
    requires
        runtime.awaiting == Awaiting::MainExecution,
        boot_failure(event) is Some,
    ensures
        runtime.step(event).1 == (ActionView::<V>::Fail { error: boot_failure(event).unwrap() }),
        runtime.step(event).0.lifecycle == Lifecycle::Failed,
        runtime.step(event).0.call(fn_name, argc) == (
            runtime.step(event).0,
            ActionView::<V>::Fail { error: BridgeErrorView::Protocol },
        ),
{
}

/// While a call or a boot is in flight, another call is refused with a
/// protocol failure, and what is in flight is not touched.
pub proof fn overlapping_calls_are_refused<V>(
    runtime: RuntimeView<V>,
    fn_name: Seq<char>,
    argc: usize,
)
    requires
        runtime.busy(),
    ensures
        runtime.call(fn_name, argc) == (
            runtime,
            ActionView::<V>::Fail { error: BridgeErrorView::Protocol },
        ),
{
}

/// When the answer to a report ends the operation, nothing is left in
/// flight and nothing is held: the runtime can take the next call.
pub proof fn final_answers_leave_the_runtime_idle<V>(runtime: RuntimeView<V>, event: EventView<V>)
    requires
        runtime.well_formed(),
        runtime.step(event).1.is_final(),
    ensures
        runtime.step(event).0 == runtime.step(event).0.at_rest(),
{
    assert(runtime.arguments.len() == 0 ==> runtime.arguments =~= Seq::empty());
}

/// A function that throws when it is invoked fails the call with an engine
/// execution failure at once: the call is over and nothing is waited for.
pub proof fn synchronous_throw_fails_the_call<V>(runtime: RuntimeView<V>, exception: ExceptionView)
    requires
        runtime.awaiting == Awaiting::Invocation,
    ensures
        runtime.step(EventView::Threw { exception }) == (
            runtime.at_rest(),
            ActionView::<V>::Fail { error: execution_error(exception) },
        ),
        execution_error(exception).kind() == ErrorKind::EngineExecution,
{
}

/// Under direct invocation, a promise that is rejected, at once or after any
/// number of ticks, fails the call with an engine execution failure.
pub proof fn rejected_promise_fails_the_call<V>(runtime: RuntimeView<V>, exception: ExceptionView)
    requires
        runtime.strategy is DirectInvocation,
        runtime.awaiting == Awaiting::Invocation || runtime.awaiting == Awaiting::Settlement,
    ensures
        runtime.step(EventView::Rejected { exception }) == (
            runtime.at_rest(),
            ActionView::<V>::Fail { error: execution_error(exception) },
        ),
        execution_error(exception).kind() == ErrorKind::EngineExecution,
{
}

/// A value that does not have the shape of the requested host type fails the
/// call with a deserialization failure, under either strategy.
pub proof fn shape_mismatch_fails_the_call<V>(runtime: RuntimeView<V>, message: Seq<char>)
    requires
        runtime.awaiting == Awaiting::Unmarshal,
    ensures
        runtime.step(EventView::Mismatch { message }) == (
            runtime.at_rest(),
            ActionView::<V>::Fail { error: BridgeErrorView::Deserialization { message } },
        ),
{
}

/// The value that the host is told to unmarshal is the one that the engine
/// handed back: the value returned, the value that the promise was fulfilled
/// with, or the value that the channel yielded.
pub proof fn the_value_handed_back_is_the_one_unmarshaled<V>(
    runtime: RuntimeView<V>,
    event: EventView<V>,
    value: V,
)
    requires
        runtime.well_formed(),
        runtime.step(event).1 == (ActionView::Unmarshal { value }),
    ensures
        event == (EventView::Value { value }) || event == (EventView::Fulfilled { value })
            || event == (EventView::Yielded { value }),
        runtime.step(event).0 == (RuntimeView { awaiting: Awaiting::Unmarshal, ..runtime }),
{
}

/// Within a call, the function is invoked only when every argument has been
/// marshaled, a value is unmarshaled only after the invocation, and the call
/// completes only after the value was unmarshaled.
pub proof fn a_call_keeps_its_order<V>(runtime: RuntimeView<V>, event: EventView<V>)
    requires
        runtime.well_formed(),
    ensures
        runtime.step(event).1 matches ActionView::Invoke { arguments, .. } ==> arguments.len()
            == runtime.call_argc() && (runtime.awaiting == Awaiting::FunctionResolution
            || runtime.awaiting == Awaiting::Argument),
        runtime.step(event).1 is Unmarshal ==> runtime.awaiting == Awaiting::Invocation
            || runtime.awaiting == Awaiting::Settlement,
        runtime.step(event).1 is Complete ==> runtime.awaiting == Awaiting::Unmarshal,
{
}

/// The reports that the first `values.len()` arguments were marshaled to `values`.
pub open spec fn marshaled<V>(values: Seq<V>) -> Seq<Input<V>> {
    Seq::new(
        values.len(),
        |i: int| Input::Report { event: EventView::Marshaled { value: values[i] } },
    )
}

/// Marshaling is positional and keeps the order: once the function value is
/// there, the host is asked for the arguments one by one, from the first
/// position to the last, and the function is invoked with exactly the values
/// that were reported, each in the position that it was asked for.
pub proof fn arguments_are_marshaled_in_order<V>(
    runtime: RuntimeView<V>,
    function: V,
    values: Seq<V>,
)
    requires
        runtime.well_formed(),
        runtime.awaiting == Awaiting::FunctionResolution,
        values.len() <= runtime.call_argc(),
    ensures
        ({
            let resolved = runtime.step(EventView::Resolved { function });
            let last = if values.len() == 0 {
                resolved.1
            } else {
                answer(resolved.0, marshaled(values))
            };
            if values.len() < runtime.call_argc() {
                &&& last == (ActionView::<V>::MarshalArgument { index: values.len() as usize })
                &&& after(resolved.0, marshaled(values)) == (RuntimeView {
                    awaiting: Awaiting::Argument,
                    function: Some(function),
                    arguments: values,
                    ..runtime
                })
            } else {
                &&& last == (ActionView::Invoke { function, arguments: values })
                &&& after(resolved.0, marshaled(values)) == (RuntimeView {
                    awaiting: Awaiting::Invocation,
                    ..runtime
                })
            }
        }),
    decreases values.len(),
{
    assert(runtime.arguments =~= Seq::empty());
    if values.len() == 0 {
        assert(values =~= Seq::empty());
    } else {
        let earlier = values.drop_last();
        arguments_are_marshaled_in_order(runtime, function, earlier);
        assert(marshaled(values).drop_last() =~= marshaled(earlier));
        assert(earlier.push(values.last()) =~= values);
    }
}

/// The inputs of a call under direct invocation, up to the last argument:
/// the call, the function value, and each argument's value in its position.
pub open spec fn direct_call<V>(fn_name: Seq<char>, function: V, values: Seq<V>) -> Seq<Input<V>>
    recommends
        values.len() <= usize::MAX,
{
    seq![
        Input::Call { fn_name, argc: values.len() as usize },
        Input::Report { event: EventView::Resolved { function } },
    ] + marshaled(values)
}

/// The runtime that awaits what the invocation of `fn_name` comes to.
pub open spec fn invoking<V>(
    runtime: RuntimeView<V>,
    fn_name: Seq<char>,
    argc: usize,
) -> RuntimeView<V> {
    RuntimeView {
        awaiting: Awaiting::Invocation,
        call: Some(PendingCallView { fn_name, argc }),
        ..runtime
    }
}

proof fn the_first_two_inputs<V>(runtime: RuntimeView<V>, first: Input<V>, second: Input<V>)
    ensures
        after(runtime, seq![first, second]) == apply(apply(runtime, first).0, second).0,
        answer(runtime, seq![first, second]) == apply(apply(runtime, first).0, second).1,
{
    let both = seq![first, second];
    assert(after(runtime, both.drop_last().drop_last()) == runtime);
}

/// A call on a ready engine under direct invocation: the host is told to
/// resolve the function, then to marshal each argument in its position, then
/// to invoke the function with exactly the values reported, in that order;
/// the runtime then awaits what the invocation comes to.
pub proof fn a_direct_call_reaches_the_invocation<V>(
    runtime: RuntimeView<V>,
    fn_name: Seq<char>,
    function: V,
    values: Seq<V>,
)
    requires
        runtime.well_formed(),
        runtime.lifecycle == Lifecycle::Ready,
        !runtime.busy(),
        runtime.strategy is DirectInvocation,
        values.len() <= usize::MAX,
    ensures
        runtime.call(fn_name, values.len() as usize).1 == (ActionView::<V>::ResolveFunction {
            script: accessor_text(fn_name),
        }),
        forall|index: int|
            0 <= index < values.len() ==> #[trigger] answer(
                runtime,
                direct_call(fn_name, function, values).take(index + 2),
            ) == (ActionView::<V>::MarshalArgument { index: index as usize }),
        answer(runtime, direct_call(fn_name, function, values)) == (ActionView::Invoke {
            function,
            arguments: values,
        }),
        after(runtime, direct_call(fn_name, function, values)) == invoking(
            runtime,
            fn_name,
            values.len() as usize,
        ),
{
    let argc = values.len() as usize;
    let call = Input::Call { fn_name, argc };
    let report = Input::Report { event: EventView::Resolved { function } };
    let resolving = runtime.call(fn_name, argc).0;
    the_first_two_inputs(runtime, call, report);
    assert forall|index: int| 0 <= index < values.len() implies #[trigger] answer(
        runtime,
        direct_call(fn_name, function, values).take(index + 2),
    ) == (ActionView::<V>::MarshalArgument { index: index as usize }) by {
        let earlier = values.take(index);
        assert(direct_call(fn_name, function, values).take(index + 2) =~= seq![call, report]
            + marshaled(earlier));
        arguments_are_marshaled_in_order(resolving, function, earlier);
        if index > 0 {
            inputs_compose(runtime, seq![call, report], marshaled(earlier));
        }
    }
    arguments_are_marshaled_in_order(resolving, function, values);
    inputs_compose(runtime, seq![call, report], marshaled(values));
}

/// A call of a function that throws when it is invoked: the answer to the
/// report of the invocation is an engine execution failure. Nothing is
/// waited for, and the runtime is as it was before the call.
pub proof fn a_throwing_function_fails_its_call<V>(
    runtime: RuntimeView<V>,
    fn_name: Seq<char>,
    function: V,
    values: Seq<V>,
    exception: ExceptionView,
)
    requires
        runtime.well_formed(),
        runtime.lifecycle == Lifecycle::Ready,
        !runtime.busy(),
        runtime.strategy is DirectInvocation,
        values.len() <= usize::MAX,
    ensures
        ({
            let inputs = direct_call(fn_name, function, values).push(
                Input::Report { event: EventView::Threw { exception } },
            );
            &&& answer(runtime, inputs) == (ActionView::<V>::Fail {
                error: execution_error(exception),
            })
            &&& after(runtime, inputs) == runtime
        }),
{
    let called = direct_call(fn_name, function, values);
    let report = Input::Report { event: EventView::Threw { exception } };
    a_direct_call_reaches_the_invocation(runtime, fn_name, function, values);
    assert(called.push(report).drop_last() =~= called);
}

/// A call of a function whose promise is rejected, at once or after any
/// number of ticks of the event loop: the answer to the report of the
/// rejection is an engine execution failure, never a result, and the runtime
/// is as it was before the call.
pub proof fn a_rejecting_function_fails_its_call<V>(
    runtime: RuntimeView<V>,
    fn_name: Seq<char>,
    function: V,
    values: Seq<V>,
    promise: V,
    ticks: nat,
    exception: ExceptionView,
)
    requires
        runtime.well_formed(),
        runtime.lifecycle == Lifecycle::Ready,
        !runtime.busy(),
        runtime.strategy is DirectInvocation,
        values.len() <= usize::MAX,
    ensures
        ({
            let inputs = (direct_call(fn_name, function, values) + pendings(promise, ticks)).push(
                Input::Report { event: EventView::Rejected { exception } },
            );
            &&& answer(runtime, inputs) == (ActionView::<V>::Fail {
                error: execution_error(exception),
            })
            &&& after(runtime, inputs) == runtime
        }),
{
    let called = direct_call(fn_name, function, values);
    let waited = called + pendings(promise, ticks);
    let report = Input::Report { event: EventView::Rejected { exception } };
    a_direct_call_reaches_the_invocation(runtime, fn_name, function, values);
    a_pending_promise_is_waited_for(
        invoking(runtime, fn_name, values.len() as usize),
        promise,
        ticks,
    );
    inputs_compose(runtime, called, pendings(promise, ticks));
    assert(waited.push(report).drop_last() =~= waited);
}

/// A call whose value does not have the shape of the requested host type:
/// the host is told to unmarshal the value that the function returned, and
/// the answer to the report of the mismatch is a deserialization failure.
pub proof fn a_mismatched_result_fails_its_call<V>(
    runtime: RuntimeView<V>,
    fn_name: Seq<char>,
    function: V,
    values: Seq<V>,
    value: V,
    message: Seq<char>,
)
    requires
        runtime.well_formed(),
        runtime.lifecycle == Lifecycle::Ready,
        !runtime.busy(),
        runtime.strategy is DirectInvocation,
        values.len() <= usize::MAX,
    ensures
        ({
            let returned = direct_call(fn_name, function, values).push(
                Input::Report { event: EventView::Value { value } },
            );
            let inputs = returned.push(Input::Report { event: EventView::Mismatch { message } });
            &&& answer(runtime, returned) == (ActionView::Unmarshal { value })
            &&& answer(runtime, inputs) == (ActionView::<V>::Fail {
                error: BridgeErrorView::Deserialization { message },
            })
            &&& after(runtime, inputs) == runtime
        }),
{
    let called = direct_call(fn_name, function, values);
    let returned = called.push(Input::Report { event: EventView::Value { value } });
    let inputs = returned.push(Input::Report { event: EventView::Mismatch { message } });
    a_direct_call_reaches_the_invocation(runtime, fn_name, function, values);
    assert(returned.drop_last() =~= called);
    assert(inputs.drop_last() =~= returned);
}

/// A call that goes well: the host is told to unmarshal the value that the
/// function returned, the call completes, and the runtime is as it was
/// before the call.
pub proof fn a_returning_function_completes_its_call<V>(
    runtime: RuntimeView<V>,
    fn_name: Seq<char>,
    function: V,
    values: Seq<V>,
    value: V,
)
    requires
        runtime.well_formed(),
        runtime.lifecycle == Lifecycle::Ready,
        !runtime.busy(),
        runtime.strategy is DirectInvocation,
        values.len() <= usize::MAX,
    ensures
        ({
            let returned = direct_call(fn_name, function, values).push(
                Input::Report { event: EventView::Value { value } },
            );
            let inputs = returned.push(Input::Report { event: EventView::Done });
            &&& answer(runtime, returned) == (ActionView::Unmarshal { value })
            &&& answer(runtime, inputs) == ActionView::<V>::Complete
            &&& after(runtime, inputs) == runtime
        }),
{
    let called = direct_call(fn_name, function, values);
    let returned = called.push(Input::Report { event: EventView::Value { value } });
    let inputs = returned.push(Input::Report { event: EventView::Done });
    a_direct_call_reaches_the_invocation(runtime, fn_name, function, values);
    assert(returned.drop_last() =~= called);
    assert(inputs.drop_last() =~= returned);
}

/// `count` reports that the value is not there yet, each handing back what
/// is awaited.
pub open spec fn pendings<V>(awaited: V, count: nat) -> Seq<Input<V>> {
    Seq::new(count, |i: int| Input::Report { event: EventView::Pending { awaited } })
}

/// No bound is set on the wait: as long as the host reports that the value
/// is not there, the bridge has the event loop pumped again, for the same
/// promise or channel.
pub proof fn an_unsettled_call_keeps_waiting<V>(runtime: RuntimeView<V>, awaited: V, ticks: nat)
    requires
        runtime.well_formed(),
        runtime.awaiting == Awaiting::Settlement,
    ensures
        after(runtime, pendings(awaited, ticks)) == runtime,
        ticks > 0 ==> answer(runtime, pendings(awaited, ticks)) == (ActionView::Pump { awaited }),
    decreases ticks,
{
    if ticks > 0 {
        assert(pendings(awaited, ticks).drop_last() =~= pendings(awaited, (ticks - 1) as nat));
        an_unsettled_call_keeps_waiting(runtime, awaited, (ticks - 1) as nat);
    }
}

/// A promise that is pending when the function returns is waited for in the
/// same way: after any number of reports that it is still pending, the
/// runtime awaits its settlement.
pub proof fn a_pending_promise_is_waited_for<V>(runtime: RuntimeView<V>, promise: V, ticks: nat)
    requires
        runtime.well_formed(),
        runtime.awaiting == Awaiting::Invocation,
    ensures
        after(runtime, pendings(promise, ticks)) == if ticks == 0 {
            runtime
        } else {
            RuntimeView { awaiting: Awaiting::Settlement, ..runtime }
        },
        ticks > 0 ==> answer(runtime, pendings(promise, ticks)) == (ActionView::Pump {
            awaited: promise,
        }),
    decreases ticks,
{
    if ticks > 0 {
        assert(pendings(promise, ticks).drop_last() =~= pendings(promise, (ticks - 1) as nat));
        a_pending_promise_is_waited_for(runtime, promise, (ticks - 1) as nat);
    }
}

/// A call on a ready engine under message passing, step by step: the host
/// functions are registered, the call's state is stored beside a channel of
/// the fixed capacity, the guest is signalled, the event loop is pumped for
/// that channel, and the value that the channel yields is unmarshaled. The
/// completed call leaves the runtime as it was.
pub proof fn a_message_passing_call_runs_its_course<V>(
    runtime: RuntimeView<V>,
    fn_name: Seq<char>,
    argc: usize,
    channel: V,
    value: V,
)
    requires
        runtime.well_formed(),
        runtime.lifecycle == Lifecycle::Ready,
        !runtime.busy(),
        runtime.strategy == (CallStrategyView::MessagePassing { export: fn_name }),
    ensures
        ({
            let (registering, register) = runtime.call(fn_name, argc);
            let (storing, store) = registering.step(EventView::Done);
            let (signaling, signal) = storing.step(EventView::Stored { channel });
            let (waiting, pump) = signaling.step(EventView::Done);
            let (unmarshaling, unmarshal) = waiting.step(EventView::Yielded { value });
            let (done, complete) = unmarshaling.step(EventView::Done);
            &&& register == ActionView::<V>::RegisterOps
            &&& store == (ActionView::<V>::StoreCallState {
                channel_capacity: RESULT_CHANNEL_CAPACITY,
            })
            &&& signal == (ActionView::<V>::Signal { event: START_SIGNAL@ })
            &&& pump == (ActionView::Pump { awaited: channel })
            &&& unmarshal == (ActionView::Unmarshal { value })
            &&& complete == ActionView::<V>::Complete
            &&& done == runtime
        }),
{
    assert(runtime.arguments =~= Seq::empty());
}

/// Under message passing a runtime serves the one export that its entry
/// module binds: a call of any other name is refused and changes nothing.
pub proof fn message_passing_serves_one_export<V>(
    runtime: RuntimeView<V>,
    fn_name: Seq<char>,
    argc: usize,
)
    requires
        runtime.strategy matches CallStrategyView::MessagePassing { export } && export != fn_name,
    ensures
        runtime.call(fn_name, argc) == (
            runtime,
            ActionView::<V>::Fail { error: BridgeErrorView::Protocol },
        ),
{
}

/// Whenever a ready runtime is at rest again, it is the runtime that it was
/// before: a finished call, whether it completed or failed, leaves nothing
/// behind, and the next call is answered as a first call would be.
pub proof fn a_finished_call_leaves_no_trace<V>(runtime: RuntimeView<V>, inputs: Seq<Input<V>>)
    requires
        runtime.well_formed(),
        runtime.lifecycle == Lifecycle::Ready,
        !runtime.busy(),
    ensures
        after(runtime, inputs).well_formed(),
        after(runtime, inputs).lifecycle == Lifecycle::Ready,
        after(runtime, inputs).loader == runtime.loader,
        after(runtime, inputs).config == runtime.config,
        after(runtime, inputs).main_module == runtime.main_module,
        after(runtime, inputs).strategy == runtime.strategy,
        !after(runtime, inputs).busy() ==> after(runtime, inputs) == runtime,
    decreases inputs.len(),
{
    if inputs.len() > 0 {
        let before = after(runtime, inputs.drop_last());
        a_finished_call_leaves_no_trace(runtime, inputs.drop_last());
        inputs_preserve_well_formedness(before, inputs.last());
        a_ready_engine_stays_ready(before, inputs.last());
        inputs_keep_the_setup(before, inputs.last());
    }
    assert(runtime.arguments =~= Seq::empty());
}

/// Two runs of calls, one after the other, on a ready runtime: where the
/// first leaves nothing in flight, the second is answered as if the first had
/// never been, whatever function and arguments either was for.
pub proof fn sequential_calls_are_independent<V>(
    runtime: RuntimeView<V>,
    first: Seq<Input<V>>,
    second: Seq<Input<V>>,
)
    requires
        runtime.well_formed(),
        runtime.lifecycle == Lifecycle::Ready,
        !runtime.busy(),
        !after(runtime, first).busy(),
        second.len() > 0,
    ensures
        answer(runtime, first + second) == answer(runtime, second),
        after(runtime, first + second) == after(runtime, second),
{
    inputs_compose(runtime, first, second);
    a_finished_call_leaves_no_trace(runtime, first);
}

/// The entry module is resolved and loaded from memory: where the entry
/// specifier is its own canonical text, resolving it gives the entry module,
/// and loading that gives the held source, verbatim, under that identifier.
pub proof fn the_entry_module_is_served_from_memory(
    loader: EmbeddedModuleLoaderView,
    referrer: Seq<char>,
    is_main: bool,
    maybe_referrer: Option<Seq<char>>,
    is_dynamic: bool,
)
    ensures
        loader.resolution(
            loader.entry_specifier,
            referrer,
            is_main,
            Some(loader.entry_specifier),
        ) == (ResolutionView::Entry { module: loader.entry_specifier }),
        loader.loading(loader.entry_specifier, maybe_referrer, is_dynamic) == (LoadingView::Entry {
            source: ModuleSourceView {
                code: loader.entry_source,
                module_url_specified: loader.entry_specifier,
                module_url_found: loader.entry_specifier,
            },
        }),
{
}

/// Every other module is left to the delegate, which gets the arguments
/// as they came.
pub proof fn other_modules_go_to_the_delegate(
    loader: EmbeddedModuleLoaderView,
    specifier: Seq<char>,
    referrer: Seq<char>,
    is_main: bool,
    parsed: Option<Seq<char>>,
    maybe_referrer: Option<Seq<char>>,
    is_dynamic: bool,
)
    requires
        specifier != loader.entry_specifier,
    ensures
        loader.resolution(specifier, referrer, is_main, parsed) == (ResolutionView::Delegate {
            specifier,
            referrer,
            is_main,
        }),
        loader.loading(specifier, maybe_referrer, is_dynamic) == (LoadingView::Delegate {
            module: specifier,
            referrer: maybe_referrer,
            is_dynamic,
        }),
{
}

} // verus!
