//! The bridge's record of one engine and of the call that it is serving.
//!
//! The engine itself lives with the host. The bridge decides: it tells the
//! host what to do with the engine next (an [`Action`]), the host does it and
//! reports what came of it (an [`Event`]), and the bridge decides again, until
//! the call is complete or has failed.
//!
//! What the engine hands out on the way (the function value, each marshaled
//! argument, a promise, a channel, the value to unmarshal) travels through
//! the bridge as a value of the host's choosing, `V`. The bridge never looks
//! into one: it keeps each until the action that needs it.

use crate::config::EngineConfig;
use crate::entry::{
    accessor_script, accessor_text, entry_source, entry_source_text, CallStrategy,
    CallStrategyView, ENTRY_SPECIFIER, RESULT_CHANNEL_CAPACITY, START_SIGNAL,
};
use crate::error::{execution_error, BridgeError, BridgeErrorView, Exception, ExceptionView};
use crate::module_loader::{
    same_text, text_of, EmbeddedModuleLoader, EmbeddedModuleLoaderView,
};
use crate::specifier::{absolute, parsed_url};
use vstd::prelude::*;

verus! {

/// How far an engine has come on its way to serving calls.
#[derive(Clone, Copy, Debug, PartialEq, Eq, Structural)]
pub enum Lifecycle {
    /// No engine exists yet: the state before `new`.
    Unbuilt,
    /// The engine exists, bound to its configuration and entry module.
    Constructed,
    /// Global objects and bridges are installed; the entry module has not
    /// started. The bridge asks for the entry module as soon as the bootstrap
    /// is reported, so no runtime is found at rest in this state.
    Bootstrapped,
    /// The entry module graph is being executed.
    ExecutingMain,
    /// The entry module has been executed; exports can be called.
    Ready,
    /// Bootstrapping or the entry module failed; the engine serves nothing.
    Failed,
}

impl Lifecycle {
    /// The place of a state on the way from `Unbuilt` to `Ready`; `Failed`
    /// comes last, since nothing leads out of it.
    pub open spec fn stage(self) -> nat {
        match self {
            Lifecycle::Unbuilt => 0,
            Lifecycle::Constructed => 1,
            Lifecycle::Bootstrapped => 2,
            Lifecycle::ExecutingMain => 3,
            Lifecycle::Ready => 4,
            Lifecycle::Failed => 5,
        }
    }
}

/// The report that the bridge is waiting for.
#[derive(Clone, Copy, Debug, PartialEq, Eq, Structural)]
pub enum Awaiting {
    /// No action is outstanding.
    Nothing,
    Bootstrap,
    MainExecution,
    OpsRegistration,
    CallStateStorage,
    Signal,
    FunctionResolution,
    /// The next argument is being marshaled.
    Argument,
    Invocation,
    Settlement,
    Unmarshal,
}

/// What the host has to do with the engine next.
#[derive(Clone, Debug, PartialEq, Eq)]
pub enum Action<V> {
    /// Install the global objects and bridges.
    Bootstrap,
    /// Execute the entry module graph, once.
    ExecuteMain { module: String },
    /// Register the two host functions through which the guest fetches the
    /// arguments and sends the result.
    RegisterOps,
    /// Open a fresh result channel of this capacity, put its sender and the
    /// marshaled arguments into the call slot, and report the receiving end.
    StoreCallState { channel_capacity: usize },
    /// Dispatch the event that starts the guest-side handler.
    Signal { event: String },
    /// Evaluate `script` to get the exported function value.
    ResolveFunction { script: String },
    /// Marshal the host argument at `index`.
    MarshalArgument { index: usize },
    /// Call `function` with `arguments`, in their order, under the undefined
    /// receiver.
    Invoke { function: V, arguments: Vec<V> },
    /// Advance the event loop by one tick and look at `awaited`, the promise
    /// or the channel that the value will come from.
    Pump { awaited: V },
    /// Convert `value` into the requested host type.
    Unmarshal { value: V },
    /// Nothing: the engine is ready for calls.
    Ready,
    /// Nothing: the call is complete and the unmarshaled value is its result.
    Complete,
    /// Nothing: the operation has failed with `error`.
    Fail { error: BridgeError },
}

/// An action, with its texts and arguments as sequences.
pub enum ActionView<V> {
    Bootstrap,
    ExecuteMain { module: Seq<char> },
    RegisterOps,
    StoreCallState { channel_capacity: usize },
    Signal { event: Seq<char> },
    ResolveFunction { script: Seq<char> },
    MarshalArgument { index: usize },
    Invoke { function: V, arguments: Seq<V> },
    Pump { awaited: V },
    Unmarshal { value: V },
    Ready,
    Complete,
    Fail { error: BridgeErrorView },
}

impl<V> View for Action<V> {
    type V = ActionView<V>;

    open spec fn view(&self) -> ActionView<V> {
        match self {
            Action::Bootstrap => ActionView::Bootstrap,
            Action::ExecuteMain { module } => ActionView::ExecuteMain { module: module@ },
            Action::RegisterOps => ActionView::RegisterOps,
            Action::StoreCallState { channel_capacity } => ActionView::StoreCallState {
                channel_capacity: *channel_capacity,
            },
            Action::Signal { event } => ActionView::Signal { event: event@ },
            Action::ResolveFunction { script } => ActionView::ResolveFunction { script: script@ },
            Action::MarshalArgument { index } => ActionView::MarshalArgument { index: *index },
            Action::Invoke { function, arguments } => ActionView::Invoke {
                function: *function,
                arguments: arguments@,
            },
            Action::Pump { awaited } => ActionView::Pump { awaited: *awaited },
            Action::Unmarshal { value } => ActionView::Unmarshal { value: *value },
            Action::Ready => ActionView::Ready,
            Action::Complete => ActionView::Complete,
            Action::Fail { error } => ActionView::Fail { error: error@ },
        }
    }
}

impl<V> ActionView<V> {
    /// Whether the action asks nothing more of the host: the operation is over.
    pub open spec fn is_final(self) -> bool {
        self is Ready || self is Complete || self is Fail
    }
}

/// What the host reports of the action it was given.
#[derive(Clone, Debug, PartialEq, Eq)]
pub enum Event<V> {
    /// The action was carried out and there is nothing more to say.
    Done,
    /// The call's state is stored; `channel` is the receiving end of its
    /// result channel.
    Stored { channel: V },
    /// The script evaluated to `function`, which can be called.
    Resolved { function: V },
    /// The argument was marshaled to `value`.
    Marshaled { value: V },
    /// The function returned `value`, which is not a promise.
    Value { value: V },
    /// The value is not there yet; `awaited` is the promise or the channel
    /// that it will come from.
    Pending { awaited: V },
    /// The promise is fulfilled with `value`.
    Fulfilled { value: V },
    /// The promise is rejected.
    Rejected { exception: Exception },
    /// The result channel has yielded `value`.
    Yielded { value: V },
    /// The engine raised an exception while carrying out the action.
    Threw { exception: Exception },
    /// The engine's value does not have the shape of the requested host type.
    Mismatch { message: String },
    /// The call slot still holds the state of an earlier call.
    SlotOccupied,
    /// A module specifier of the entry module graph could not be resolved.
    Unresolved { message: String },
    /// A module of the entry module graph could not be read or parsed.
    Unloadable { message: String },
}

/// A report, with its texts as sequences of characters.
pub enum EventView<V> {
    Done,
    Stored { channel: V },
    Resolved { function: V },
    Marshaled { value: V },
    Value { value: V },
    Pending { awaited: V },
    Fulfilled { value: V },
    Rejected { exception: ExceptionView },
    Yielded { value: V },
    Threw { exception: ExceptionView },
    Mismatch { message: Seq<char> },
    SlotOccupied,
    Unresolved { message: Seq<char> },
    Unloadable { message: Seq<char> },
}

impl<V> View for Event<V> {
    type V = EventView<V>;

    open spec fn view(&self) -> EventView<V> {
        match self {
            Event::Done => EventView::Done,
            Event::Stored { channel } => EventView::Stored { channel: *channel },
            Event::Resolved { function } => EventView::Resolved { function: *function },
            Event::Marshaled { value } => EventView::Marshaled { value: *value },
            Event::Value { value } => EventView::Value { value: *value },
            Event::Pending { awaited } => EventView::Pending { awaited: *awaited },
            Event::Fulfilled { value } => EventView::Fulfilled { value: *value },
            Event::Rejected { exception } => EventView::Rejected { exception: exception@ },
            Event::Yielded { value } => EventView::Yielded { value: *value },
            Event::Threw { exception } => EventView::Threw { exception: exception@ },
            Event::Mismatch { message } => EventView::Mismatch { message: message@ },
            Event::SlotOccupied => EventView::SlotOccupied,
            Event::Unresolved { message } => EventView::Unresolved { message: message@ },
            Event::Unloadable { message } => EventView::Unloadable { message: message@ },
        }
    }
}

/// The call that a runtime is serving.
#[derive(Clone, Debug, PartialEq, Eq)]
pub struct PendingCall {
    pub fn_name: String,
    pub argc: usize,
}

/// A call, with the function's name as a sequence of characters.
pub struct PendingCallView {
    pub fn_name: Seq<char>,
    pub argc: usize,
}

impl View for PendingCall {
    type V = PendingCallView;

    open spec fn view(&self) -> PendingCallView {
        PendingCallView { fn_name: self.fn_name@, argc: self.argc }
    }
}

/// The bridge's side of one engine instance, which serves one script file.
pub struct Runtime<V> {
    loader: EmbeddedModuleLoader,
    config: EngineConfig,
    main_module: String,
    strategy: CallStrategy,
    lifecycle: Lifecycle,
    awaiting: Awaiting,
    call: Option<PendingCall>,
    function: Option<V>,
    arguments: Vec<V>,
    channel: Option<V>,
}

/// What contracts say of a runtime: its setup, how far the engine has come,
/// and what is held of the call in flight.
pub struct RuntimeView<V> {
    pub loader: EmbeddedModuleLoaderView,
    pub config: EngineConfig,
    pub main_module: Seq<char>,
    pub strategy: CallStrategyView,
    pub lifecycle: Lifecycle,
    pub awaiting: Awaiting,
    pub call: Option<PendingCallView>,
    /// The function value, from its resolution to the invocation.
    pub function: Option<V>,
    /// The arguments marshaled so far, in their positions.
    pub arguments: Seq<V>,
    /// The result channel, from the storing of the call's state to the wait.
    pub channel: Option<V>,
}

impl<V> View for Runtime<V> {
    type V = RuntimeView<V>;

    closed spec fn view(&self) -> RuntimeView<V> {
        RuntimeView {
            loader: self.loader@,
            config: self.config,
            main_module: self.main_module@,
            strategy: self.strategy@,
            lifecycle: self.lifecycle,
            awaiting: self.awaiting,
            call: match self.call {
                Some(call) => Some(call@),
                None => None,
            },
            function: self.function,
            arguments: self.arguments@,
            channel: self.channel,
        }
    }
}

impl<V> RuntimeView<V> {
    /// The runtime that `new` builds for a script file, once the entry
    /// specifier has resolved to `main_module`.
    pub open spec fn constructed(
        source_file: Seq<char>,
        strategy: CallStrategyView,
        main_module: Seq<char>,
        config: EngineConfig,
    ) -> RuntimeView<V> {
        RuntimeView {
            loader: EmbeddedModuleLoaderView {
                entry_source: entry_source_text(source_file, strategy),
                entry_specifier: ENTRY_SPECIFIER@,
            },
            config,
            main_module,
            strategy,
            lifecycle: Lifecycle::Constructed,
            awaiting: Awaiting::Nothing,
            call: None,
            function: None,
            arguments: Seq::empty(),
            channel: None,
        }
    }

    /// Whether a call or a boot is in flight.
    pub open spec fn busy(self) -> bool {
        self.awaiting != Awaiting::Nothing
    }

    /// The name of the function being called; empty where no call is served.
    pub open spec fn call_name(self) -> Seq<char> {
        match self.call {
            Some(call) => call.fn_name,
            None => Seq::empty(),
        }
    }

    /// The number of arguments of the call being served.
    pub open spec fn call_argc(self) -> usize {
        match self.call {
            Some(call) => call.argc,
            None => 0,
        }
    }

    /// Whether the record is one that `new`, `boot`, `call` and `step` can lead to.
    pub open spec fn well_formed(self) -> bool {
        let ready = self.lifecycle == Lifecycle::Ready;
        let direct = self.strategy is DirectInvocation;
        &&& match self.awaiting {
            Awaiting::Nothing => self.call is None && (self.lifecycle == Lifecycle::Constructed
                || self.lifecycle == Lifecycle::Ready || self.lifecycle == Lifecycle::Failed),
            Awaiting::Bootstrap => self.lifecycle == Lifecycle::Constructed,
            Awaiting::MainExecution => self.lifecycle == Lifecycle::ExecutingMain,
            Awaiting::OpsRegistration => self.call is Some && !direct && (self.lifecycle
                == Lifecycle::Constructed || ready),
            Awaiting::CallStateStorage => self.call is Some && !direct && ready,
            Awaiting::Signal => self.call is Some && !direct && ready,
            Awaiting::FunctionResolution => self.call is Some && direct && ready,
            Awaiting::Argument => self.call is Some && direct && ready && self.arguments.len()
                < self.call_argc(),
            Awaiting::Invocation => self.call is Some && direct && ready,
            Awaiting::Settlement => self.call is Some && ready,
            Awaiting::Unmarshal => self.call is Some && ready,
        }
        &&& (self.strategy matches CallStrategyView::MessagePassing { export } ==> (self.call
            matches Some(call) ==> call.fn_name == export))
        &&& (self.function is Some <==> self.awaiting == Awaiting::Argument)
        &&& (self.arguments.len() > 0 ==> self.awaiting == Awaiting::Argument)
        &&& (self.channel is Some <==> self.awaiting == Awaiting::Signal)
    }

    /// The record with nothing of a call in it.
    pub open spec fn at_rest(self) -> RuntimeView<V> {
        RuntimeView {
            awaiting: Awaiting::Nothing,
            call: None,
            function: None,
            arguments: Seq::empty(),
            channel: None,
            ..self
        }
    }

    /// The operation in flight fails: the call and what was held for it are
    /// dropped, and an engine that was still booting is given up.
    pub open spec fn fail(self, error: BridgeErrorView) -> (RuntimeView<V>, ActionView<V>) {
        (
            RuntimeView {
                lifecycle: if self.awaiting == Awaiting::Bootstrap || self.awaiting
                    == Awaiting::MainExecution {
                    Lifecycle::Failed
                } else {
                    self.lifecycle
                },
                ..self.at_rest()
            },
            ActionView::Fail { error },
        )
    }

    /// A request that cannot be taken is refused and changes nothing.
    pub open spec fn refuse(self) -> (RuntimeView<V>, ActionView<V>) {
        (self, ActionView::Fail { error: BridgeErrorView::Protocol })
    }

    /// Booting starts with the bootstrap.
    pub open spec fn begin_boot(self) -> (RuntimeView<V>, ActionView<V>) {
        (RuntimeView { awaiting: Awaiting::Bootstrap, ..self }, ActionView::Bootstrap)
    }

    /// The first action of a call on an engine that is ready.
    pub open spec fn enter_call(self) -> (RuntimeView<V>, ActionView<V>) {
        match self.strategy {
            CallStrategyView::DirectInvocation => (
                RuntimeView { awaiting: Awaiting::FunctionResolution, ..self },
                ActionView::ResolveFunction { script: accessor_text(self.call_name()) },
            ),
            CallStrategyView::MessagePassing { .. } => (
                RuntimeView { awaiting: Awaiting::CallStateStorage, ..self },
                ActionView::StoreCallState { channel_capacity: RESULT_CHANNEL_CAPACITY },
            ),
        }
    }

    /// The function value is held: the argument whose position is the number
    /// of arguments marshaled so far is next, and the invocation with all of
    /// them, in their positions, follows the last.
    pub open spec fn next_argument(self) -> (RuntimeView<V>, ActionView<V>) {
        if self.arguments.len() < self.call_argc() {
            (
                RuntimeView { awaiting: Awaiting::Argument, ..self },
                ActionView::MarshalArgument { index: self.arguments.len() as usize },
            )
        } else {
            match self.function {
                Some(function) => (
                    RuntimeView {
                        awaiting: Awaiting::Invocation,
                        function: None,
                        arguments: Seq::empty(),
                        ..self
                    },
                    ActionView::Invoke { function, arguments: self.arguments },
                ),
                None => self.fail(BridgeErrorView::Protocol),
            }
        }
    }

    /// The engine holds the value to hand back: it is unmarshaled next.
    pub open spec fn unmarshal(self, value: V) -> (RuntimeView<V>, ActionView<V>) {
        (RuntimeView { awaiting: Awaiting::Unmarshal, ..self }, ActionView::Unmarshal { value })
    }

    /// The awaited value is not there yet: the event loop is pumped.
    pub open spec fn pump(self, awaited: V) -> (RuntimeView<V>, ActionView<V>) {
        (
            RuntimeView { awaiting: Awaiting::Settlement, channel: None, ..self },
            ActionView::Pump { awaited },
        )
    }

    /// The entry module has been executed: the pending call starts, or the
    /// engine rests, ready.
    pub open spec fn main_executed(self) -> (RuntimeView<V>, ActionView<V>) {
        let ready = RuntimeView { lifecycle: Lifecycle::Ready, ..self };
        if self.call is Some {
            ready.enter_call()
        } else {
            (RuntimeView { awaiting: Awaiting::Nothing, ..ready }, ActionView::Ready)
        }
    }

    /// What `boot` does.
    pub open spec fn boot(self) -> (RuntimeView<V>, ActionView<V>) {
        if self.busy() || !(self.strategy is DirectInvocation) {
            self.refuse()
        } else if self.lifecycle == Lifecycle::Constructed {
            self.begin_boot()
        } else if self.lifecycle == Lifecycle::Ready {
            (self, ActionView::Ready)
        } else {
            self.refuse()
        }
    }

    /// Whether a call of `fn_name` can be taken now.
    pub open spec fn accepts(self, fn_name: Seq<char>) -> bool {
        &&& !self.busy()
        &&& (self.lifecycle == Lifecycle::Constructed || self.lifecycle == Lifecycle::Ready)
        &&& (self.strategy matches CallStrategyView::MessagePassing { export } ==> fn_name
            == export)
    }

    /// What `call` does.
    pub open spec fn call(self, fn_name: Seq<char>, argc: usize) -> (
        RuntimeView<V>,
        ActionView<V>,
    ) {
        if !self.accepts(fn_name) {
            self.refuse()
        } else {
            let serving = RuntimeView { call: Some(PendingCallView { fn_name, argc }), ..self };
            match self.strategy {
                CallStrategyView::MessagePassing { .. } => (
                    RuntimeView { awaiting: Awaiting::OpsRegistration, ..serving },
                    ActionView::RegisterOps,
                ),
                CallStrategyView::DirectInvocation => if self.lifecycle == Lifecycle::Ready {
                    serving.enter_call()
                } else {
                    serving.begin_boot()
                },
            }
        }
    }

    /// What `step` does.
    pub open spec fn step(self, event: EventView<V>) -> (RuntimeView<V>, ActionView<V>) {
        match self.awaiting {
            Awaiting::Nothing => self.refuse(),
            Awaiting::Bootstrap => match event {
                // Bootstrapped; the entry module is asked for at once.
                EventView::Done => (
                    RuntimeView {
                        lifecycle: Lifecycle::ExecutingMain,
                        awaiting: Awaiting::MainExecution,
                        ..self
                    },
                    ActionView::ExecuteMain { module: self.main_module },
                ),
                EventView::Threw { exception } => self.fail(execution_error(exception)),
                _ => self.fail(BridgeErrorView::Protocol),
            },
            Awaiting::MainExecution => match event {
                EventView::Done => self.main_executed(),
                EventView::Threw { exception } => self.fail(execution_error(exception)),
                EventView::Unresolved { message } => self.fail(
                    BridgeErrorView::Resolution { message },
                ),
                EventView::Unloadable { message } => self.fail(BridgeErrorView::Load { message }),
                _ => self.fail(BridgeErrorView::Protocol),
            },
            Awaiting::OpsRegistration => match event {
                EventView::Done => if self.lifecycle == Lifecycle::Ready {
                    self.enter_call()
                } else if self.lifecycle == Lifecycle::Constructed {
                    self.begin_boot()
                } else {
                    self.fail(BridgeErrorView::Protocol)
                },
                _ => self.fail(BridgeErrorView::Protocol),
            },
            Awaiting::CallStateStorage => match event {
                EventView::Stored { channel } => (
                    RuntimeView { awaiting: Awaiting::Signal, channel: Some(channel), ..self },
                    ActionView::Signal { event: START_SIGNAL@ },
                ),
                EventView::SlotOccupied => self.fail(BridgeErrorView::Protocol),
                _ => self.fail(BridgeErrorView::Protocol),
            },
            Awaiting::Signal => match event {
                EventView::Done => match self.channel {
                    Some(channel) => self.pump(channel),
                    None => self.fail(BridgeErrorView::Protocol),
                },
                EventView::Threw { exception } => self.fail(execution_error(exception)),
                _ => self.fail(BridgeErrorView::Protocol),
            },
            Awaiting::FunctionResolution => match event {
                EventView::Resolved { function } => RuntimeView {
                    function: Some(function),
                    ..self
                }.next_argument(),
                EventView::Threw { exception } => self.fail(execution_error(exception)),
                _ => self.fail(BridgeErrorView::Protocol),
            },
            Awaiting::Argument => match event {
                EventView::Marshaled { value } => RuntimeView {
                    arguments: self.arguments.push(value),
                    ..self
                }.next_argument(),
                _ => self.fail(BridgeErrorView::Protocol),
            },
            Awaiting::Invocation => match event {
                EventView::Value { value } => self.unmarshal(value),
                EventView::Fulfilled { value } => self.unmarshal(value),
                EventView::Pending { awaited } => self.pump(awaited),
                EventView::Rejected { exception } => self.fail(execution_error(exception)),
                EventView::Threw { exception } => self.fail(execution_error(exception)),
                _ => self.fail(BridgeErrorView::Protocol),
            },
            Awaiting::Settlement => match event {
                EventView::Pending { awaited } => self.pump(awaited),
                EventView::Threw { exception } => self.fail(execution_error(exception)),
                EventView::Fulfilled { value } => if self.strategy is DirectInvocation {
                    self.unmarshal(value)
                } else {
                    self.fail(BridgeErrorView::Protocol)
                },
                EventView::Rejected { exception } => if self.strategy is DirectInvocation {
                    self.fail(execution_error(exception))
                } else {
                    self.fail(BridgeErrorView::Protocol)
                },
                EventView::Yielded { value } => if self.strategy is MessagePassing {
                    self.unmarshal(value)
                } else {
                    self.fail(BridgeErrorView::Protocol)
                },
                _ => self.fail(BridgeErrorView::Protocol),
            },
            Awaiting::Unmarshal => match event {
                EventView::Done => (self.at_rest(), ActionView::Complete),
                EventView::Mismatch { message } => self.fail(
                    BridgeErrorView::Deserialization { message },
                ),
                _ => self.fail(BridgeErrorView::Protocol),
            },
        }
    }
}

impl<V> Runtime<V> {
    /// Builds the bridge for `source_file`: composes the entry module, binds
    /// it to a loader, fixes the engine's configuration and resolves the entry
    /// specifier. Fails where the entry specifier does not resolve.
    pub fn new(source_file: &str, strategy: CallStrategy) -> (built: Result<
        Runtime<V>,
        BridgeError,
    >)
        ensures
            match parsed_url(ENTRY_SPECIFIER@) {
                Some(module) => built matches Ok(runtime) && runtime@ == RuntimeView::<
                    V,
                >::constructed(source_file@, strategy@, module, runtime@.config)
                    && runtime@.config.is_fixed(),
                None => built matches Err(error) && error@ == BridgeErrorView::Construction,
            },
            built matches Ok(runtime) ==> runtime@.well_formed(),
    {
        let main_module = absolute(ENTRY_SPECIFIER);
        Runtime::with_main_module(source_file, strategy, main_module)
    }

    /// Builds the bridge for `source_file`, given what the entry specifier
    /// resolved to: nothing is a construction failure.
    pub fn with_main_module(
        source_file: &str,
        strategy: CallStrategy,
        main_module: Option<String>,
    ) -> (built: Result<Runtime<V>, BridgeError>)
        ensures
            match text_of(main_module) {
                Some(module) => built matches Ok(runtime) && runtime@ == RuntimeView::<
                    V,
                >::constructed(source_file@, strategy@, module, runtime@.config)
                    && runtime@.config.is_fixed(),
                None => built matches Err(error) && error@ == BridgeErrorView::Construction,
            },
            built matches Ok(runtime) ==> runtime@.well_formed(),
    {
        match main_module {
            None => Err(BridgeError::Construction),
            Some(main_module) => {
                let source = entry_source(source_file, &strategy);
                let loader = EmbeddedModuleLoader::new(source, String::from_str(ENTRY_SPECIFIER));
                Ok(
                    Runtime {
                        loader,
                        config: EngineConfig::fixed(),
                        main_module,
                        strategy,
                        lifecycle: Lifecycle::Constructed,
                        awaiting: Awaiting::Nothing,
                        call: None,
                        function: None,
                        arguments: Vec::new(),
                        channel: None,
                    },
                )
            },
        }
    }

    /// The loader that serves the entry module.
    pub fn loader(&self) -> (loader: &EmbeddedModuleLoader)
        ensures
            loader@ == self@.loader,
    {
        &self.loader
    }

    /// The configuration that the engine is built with.
    pub fn config(&self) -> (config: &EngineConfig)
        ensures
            *config == self@.config,
    {
        &self.config
    }

    /// The canonical identifier of the entry module.
    pub fn main_module(&self) -> (module: &str)
        ensures
            module@ == self@.main_module,
    {
        self.main_module.as_str()
    }

    /// The strategy that calls are served under.
    pub fn strategy(&self) -> (strategy: &CallStrategy)
        ensures
            strategy@ == self@.strategy,
    {
        &self.strategy
    }

    /// How far the engine has come.
    pub fn lifecycle(&self) -> (lifecycle: Lifecycle)
        ensures
            lifecycle == self@.lifecycle,
    {
        self.lifecycle
    }

    /// The report that the bridge is waiting for.
    pub fn awaiting(&self) -> (awaiting: Awaiting)
        ensures
            awaiting == self@.awaiting,
    {
        self.awaiting
    }

    /// Whether a call or a boot is in flight.
    pub fn is_busy(&self) -> (busy: bool)
        ensures
            busy == self@.busy(),
    {
        self.awaiting != Awaiting::Nothing
    }

    fn argc(&self) -> (argc: usize)
        ensures
            argc == self@.call_argc(),
    {
        match &self.call {
            Some(call) => call.argc,
            None => 0,
        }
    }

    fn rest(&mut self)
        ensures
            final(self)@ == old(self)@.at_rest(),
    {
        self.awaiting = Awaiting::Nothing;
        self.call = None;
        self.function = None;
        self.arguments = Vec::new();
        self.channel = None;
    }

    fn fail(&mut self, error: BridgeError) -> (action: Action<V>)
        ensures
            (final(self)@, action@) == old(self)@.fail(error@),
    {
        if self.awaiting == Awaiting::Bootstrap || self.awaiting == Awaiting::MainExecution {
            self.lifecycle = Lifecycle::Failed;
        }
        self.rest();
        Action::Fail { error }
    }

    fn begin_boot(&mut self) -> (action: Action<V>)
        ensures
            (final(self)@, action@) == old(self)@.begin_boot(),
    {
        self.awaiting = Awaiting::Bootstrap;
        Action::Bootstrap
    }

    fn enter_call(&mut self) -> (action: Action<V>)
        ensures
            (final(self)@, action@) == old(self)@.enter_call(),
    {
        match &self.strategy {
            CallStrategy::DirectInvocation => {
                let script = match &self.call {
                    Some(call) => accessor_script(call.fn_name.as_str()),
                    None => accessor_script(""),
                };
                proof {
                    reveal_strlit("");
                    assert(""@ =~= Seq::<char>::empty());
                }
                self.awaiting = Awaiting::FunctionResolution;
                Action::ResolveFunction { script }
            },
            CallStrategy::MessagePassing { .. } => {
                self.awaiting = Awaiting::CallStateStorage;
                Action::StoreCallState { channel_capacity: RESULT_CHANNEL_CAPACITY }
            },
        }
    }

    fn next_argument(&mut self) -> (action: Action<V>)
        ensures
            (final(self)@, action@) == old(self)@.next_argument(),
    {
        let marshaled: usize = self.arguments.len();
        if marshaled < self.argc() {
            self.awaiting = Awaiting::Argument;
            return Action::MarshalArgument { index: marshaled };
        }
        match self.function.take() {
            Some(function) => {
                let mut arguments = Vec::new();
                core::mem::swap(&mut self.arguments, &mut arguments);
                self.awaiting = Awaiting::Invocation;
                Action::Invoke { function, arguments }
            },
            None => self.fail(BridgeError::Protocol),
        }
    }

    fn unmarshal(&mut self, value: V) -> (action: Action<V>)
        ensures
            (final(self)@, action@) == old(self)@.unmarshal(value),
    {
        self.awaiting = Awaiting::Unmarshal;
        Action::Unmarshal { value }
    }

    fn pump(&mut self, awaited: V) -> (action: Action<V>)
        ensures
            (final(self)@, action@) == old(self)@.pump(awaited),
    {
        self.awaiting = Awaiting::Settlement;
        self.channel = None;
        Action::Pump { awaited }
    }

    fn main_executed(&mut self) -> (action: Action<V>)
        ensures
            (final(self)@, action@) == old(self)@.main_executed(),
    {
        self.lifecycle = Lifecycle::Ready;
        if self.call.is_some() {
            self.enter_call()
        } else {
            self.awaiting = Awaiting::Nothing;
            Action::Ready
        }
    }

    fn is_direct(&self) -> (direct: bool)
        ensures
            direct == (self@.strategy is DirectInvocation),
    {
        match &self.strategy {
            CallStrategy::DirectInvocation => true,
            CallStrategy::MessagePassing { .. } => false,
        }
    }

    /// Whether a call of `fn_name` can be taken now: nothing is in flight,
    /// the engine has not failed, and the strategy can reach the function.
    pub fn accepts(&self, fn_name: &str) -> (accepted: bool)
        ensures
            accepted == self@.accepts(fn_name@),
    {
        if self.awaiting != Awaiting::Nothing {
            return false;
        }
        if self.lifecycle != Lifecycle::Constructed && self.lifecycle != Lifecycle::Ready {
            return false;
        }
        match &self.strategy {
            CallStrategy::DirectInvocation => true,
            CallStrategy::MessagePassing { export } => same_text(fn_name, export.as_str()),
        }
    }

    /// Brings a constructed engine to `Ready` ahead of the first call, as
    /// direct invocation has it: the answer is the bootstrap, and `step` leads
    /// on from there. On a ready engine there is nothing to do. A busy or
    /// failed runtime refuses, and so does one under message passing, where
    /// the engine is booted within the first call, after the host functions
    /// are registered.
    pub fn boot(&mut self) -> (action: Action<V>)
        ensures
            (final(self)@, action@) == old(self)@.boot(),
            old(self)@.well_formed() ==> final(self)@.well_formed(),
    {
        if self.awaiting != Awaiting::Nothing || !self.is_direct() {
            Action::Fail { error: BridgeError::Protocol }
        } else if self.lifecycle == Lifecycle::Constructed {
            self.begin_boot()
        } else if self.lifecycle == Lifecycle::Ready {
            Action::Ready
        } else {
            Action::Fail { error: BridgeError::Protocol }
        }
    }

    /// Starts a call of the export `fn_name` with `argc` positional
    /// arguments and answers with the first thing to do. While another call
    /// or a boot is in flight the call is refused with a protocol failure and
    /// what is in flight is left alone.
    pub fn call(&mut self, fn_name: &str, argc: usize) -> (action: Action<V>)
        ensures
            (final(self)@, action@) == old(self)@.call(fn_name@, argc),
            old(self)@.well_formed() ==> final(self)@.well_formed(),
    {
        if !self.accepts(fn_name) {
            return Action::Fail { error: BridgeError::Protocol };
        }
        self.call = Some(PendingCall { fn_name: String::from_str(fn_name), argc });
        if self.is_direct() {
            if self.lifecycle == Lifecycle::Ready {
                self.enter_call()
            } else {
                self.begin_boot()
            }
        } else {
            self.awaiting = Awaiting::OpsRegistration;
            Action::RegisterOps
        }
    }

    /// Takes the host's report of the outstanding action and answers with
    /// the next one. A report that does not fit what was asked ends the
    /// operation with a protocol failure.
    pub fn step(&mut self, event: Event<V>) -> (action: Action<V>)
        ensures
            (final(self)@, action@) == old(self)@.step(event@),
            old(self)@.well_formed() ==> final(self)@.well_formed(),
    {
        match self.awaiting {
            Awaiting::Nothing => Action::Fail { error: BridgeError::Protocol },
            Awaiting::Bootstrap => match event {
                Event::Done => {
                    self.lifecycle = Lifecycle::ExecutingMain;
                    self.awaiting = Awaiting::MainExecution;
                    Action::ExecuteMain { module: self.main_module.clone() }
                },
                Event::Threw { exception } => self.fail(BridgeError::from_exception(exception)),
                _ => self.fail(BridgeError::Protocol),
            },
            Awaiting::MainExecution => match event {
                Event::Done => self.main_executed(),
                Event::Threw { exception } => self.fail(BridgeError::from_exception(exception)),
                Event::Unresolved { message } => self.fail(BridgeError::Resolution { message }),
                Event::Unloadable { message } => self.fail(BridgeError::Load { message }),
                _ => self.fail(BridgeError::Protocol),
            },
            Awaiting::OpsRegistration => match event {
                Event::Done => {
                    if self.lifecycle == Lifecycle::Ready {
                        self.enter_call()
                    } else if self.lifecycle == Lifecycle::Constructed {
                        self.begin_boot()
                    } else {
                        self.fail(BridgeError::Protocol)
                    }
                },
                _ => self.fail(BridgeError::Protocol),
            },
            Awaiting::CallStateStorage => match event {
                Event::Stored { channel } => {
                    self.awaiting = Awaiting::Signal;
                    self.channel = Some(channel);
                    Action::Signal { event: String::from_str(START_SIGNAL) }
                },
                Event::SlotOccupied => self.fail(BridgeError::Protocol),
                _ => self.fail(BridgeError::Protocol),
            },
            Awaiting::Signal => match event {
                Event::Done => match self.channel.take() {
                    Some(channel) => self.pump(channel),
                    None => self.fail(BridgeError::Protocol),
                },
                Event::Threw { exception } => self.fail(BridgeError::from_exception(exception)),
                _ => self.fail(BridgeError::Protocol),
            },
            Awaiting::FunctionResolution => match event {
                Event::Resolved { function } => {
                    self.function = Some(function);
                    self.next_argument()
                },
                Event::Threw { exception } => self.fail(BridgeError::from_exception(exception)),
                _ => self.fail(BridgeError::Protocol),
            },
            Awaiting::Argument => match event {
                Event::Marshaled { value } => {
                    self.arguments.push(value);
                    self.next_argument()
                },
                _ => self.fail(BridgeError::Protocol),
            },
            Awaiting::Invocation => match event {
                Event::Value { value } => self.unmarshal(value),
                Event::Fulfilled { value } => self.unmarshal(value),
                Event::Pending { awaited } => self.pump(awaited),
                Event::Rejected { exception } => self.fail(BridgeError::from_exception(exception)),
                Event::Threw { exception } => self.fail(BridgeError::from_exception(exception)),
                _ => self.fail(BridgeError::Protocol),
            },
            Awaiting::Settlement => match event {
                Event::Pending { awaited } => self.pump(awaited),
                Event::Threw { exception } => self.fail(BridgeError::from_exception(exception)),
                Event::Fulfilled { value } => {
                    if self.is_direct() {
                        self.unmarshal(value)
                    } else {
                        self.fail(BridgeError::Protocol)
                    }
                },
                Event::Rejected { exception } => {
                    if self.is_direct() {
                        self.fail(BridgeError::from_exception(exception))
                    } else {
                        self.fail(BridgeError::Protocol)
                    }
                },
                Event::Yielded { value } => {
                    if self.is_direct() {
                        self.fail(BridgeError::Protocol)
                    } else {
                        self.unmarshal(value)
                    }
                },
                _ => self.fail(BridgeError::Protocol),
            },
            Awaiting::Unmarshal => match event {
                Event::Done => {
                    self.rest();
                    Action::Complete
                },
                Event::Mismatch { message } => self.fail(BridgeError::Deserialization { message }),
                _ => self.fail(BridgeError::Protocol),
            },
        }
    }
}

} // verus!
