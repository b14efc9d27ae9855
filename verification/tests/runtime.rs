use call_bridge::config::EngineConfig;
use call_bridge::entry::{CallStrategy, RESULT_CHANNEL_CAPACITY};
use call_bridge::error::{get_error_class_name, BridgeError, ErrorKind, Exception};
use call_bridge::runtime::{Action, Awaiting, Event, Lifecycle, Runtime};

/// The engine's values are stood for by their names.
type Named = Runtime<&'static str>;

fn direct(source_file: &str) -> Named {
    Runtime::new(source_file, CallStrategy::DirectInvocation).unwrap()
}

fn ready(source_file: &str) -> Named {
    let mut runtime = direct(source_file);
    assert_eq!(runtime.boot(), Action::Bootstrap);
    assert_eq!(
        runtime.step(Event::Done),
        Action::ExecuteMain { module: "file:///main.js".to_string() }
    );
    assert_eq!(runtime.step(Event::Done), Action::Ready);
    runtime
}

fn message_passing(export: &str) -> Named {
    let strategy = CallStrategy::MessagePassing { export: export.to_string() };
    Runtime::new("./user.js", strategy).unwrap()
}

/// A runtime under message passing that waits for the channel to yield.
fn waiting(export: &str) -> Named {
    let mut runtime = message_passing(export);
    assert_eq!(runtime.call(export, 2), Action::RegisterOps);
    assert_eq!(runtime.step(Event::Done), Action::Bootstrap);
    assert_eq!(
        runtime.step(Event::Done),
        Action::ExecuteMain { module: "file:///main.js".to_string() }
    );
    assert_eq!(runtime.step(Event::Done), Action::StoreCallState { channel_capacity: 16 });
    assert_eq!(
        runtime.step(Event::Stored { channel: "receiver" }),
        Action::Signal { event: "__start".to_string() }
    );
    assert_eq!(runtime.step(Event::Done), Action::Pump { awaited: "receiver" });
    runtime
}

fn exception(class: Option<&str>, message: &str) -> Exception {
    Exception { class: class.map(|name| name.to_string()), message: message.to_string() }
}

fn protocol() -> Action<&'static str> {
    Action::Fail { error: BridgeError::Protocol }
}

fn resolve(fn_name: &str) -> Action<&'static str> {
    Action::ResolveFunction { script: format!("mod.{}", fn_name) }
}

/// Drives a direct call up to the invocation, with every step going well.
fn invoke(runtime: &mut Named, fn_name: &str, arguments: &[&'static str]) {
    assert_eq!(runtime.call(fn_name, arguments.len()), resolve(fn_name));
    let mut answer = runtime.step(Event::Resolved { function: "the function" });
    for (index, argument) in arguments.iter().enumerate() {
        assert_eq!(answer, Action::MarshalArgument { index });
        answer = runtime.step(Event::Marshaled { value: *argument });
    }
    assert_eq!(
        answer,
        Action::Invoke { function: "the function", arguments: arguments.to_vec() }
    );
}

#[test]
fn new_builds_a_constructed_runtime() {
    let runtime = direct("/srv/examples/async.js");
    assert_eq!(runtime.lifecycle(), Lifecycle::Constructed);
    assert_eq!(runtime.awaiting(), Awaiting::Nothing);
    assert!(!runtime.is_busy());
    assert_eq!(runtime.main_module(), "file:///main.js");
    assert_eq!(runtime.strategy(), &CallStrategy::DirectInvocation);
    assert_eq!(runtime.loader().entry_specifier, "file:///main.js");
    assert_eq!(
        runtime.loader().entry_source,
        "import * as mod from '/srv/examples/async.js';\nglobalThis.mod = mod;\n"
    );
}

#[test]
fn the_engine_configuration_is_fixed() {
    let runtime = direct("a.js");
    let config = runtime.config();
    assert_eq!(config, &EngineConfig::fixed());
    assert!(!config.web_workers);
    assert!(!config.inspector);
    assert!(config.allow_all_permissions);
    assert!(!config.persisted_storage);
    assert_eq!(config.runtime_version, "x");
    assert_eq!(config.ts_version, "x");
    assert_eq!(config.user_agent, "hello_runtime");
    assert_eq!(config.cpu_count, 1);
    assert!(config.args.is_empty());
    assert_eq!(config.seed, None);
    assert!(!config.apply_source_maps);
    assert!(!config.debug_flag);
    assert!(!config.enable_testing_features);
    assert!(!config.no_color);
    assert!(!config.unstable);
    assert!(!config.should_break_on_first_statement);
}

#[test]
fn an_unresolved_entry_specifier_is_a_construction_failure() {
    let built: Result<Named, BridgeError> =
        Runtime::with_main_module("a.js", CallStrategy::DirectInvocation, None);
    assert_eq!(built.err(), Some(BridgeError::Construction));
    let built: Result<Named, BridgeError> = Runtime::with_main_module(
        "a.js",
        CallStrategy::DirectInvocation,
        Some("file:///elsewhere.js".to_string()),
    );
    assert_eq!(built.ok().unwrap().main_module(), "file:///elsewhere.js");
}

#[test]
fn booting_goes_through_bootstrap_and_the_entry_module() {
    let mut runtime = direct("a.js");
    assert_eq!(runtime.boot(), Action::Bootstrap);
    assert_eq!(runtime.lifecycle(), Lifecycle::Constructed);
    assert_eq!(runtime.awaiting(), Awaiting::Bootstrap);
    assert!(runtime.is_busy());
    assert_eq!(
        runtime.step(Event::Done),
        Action::ExecuteMain { module: "file:///main.js".to_string() }
    );
    assert_eq!(runtime.lifecycle(), Lifecycle::ExecutingMain);
    assert_eq!(runtime.step(Event::Done), Action::Ready);
    assert_eq!(runtime.lifecycle(), Lifecycle::Ready);
    assert!(!runtime.is_busy());
    // Nothing is executed a second time.
    assert_eq!(runtime.boot(), Action::Ready);
    assert_eq!(runtime.lifecycle(), Lifecycle::Ready);
    assert!(!runtime.is_busy());
}

#[test]
fn a_throwing_entry_module_fails_the_boot() {
    let mut runtime = direct("a.js");
    runtime.boot();
    runtime.step(Event::Done);
    let answer = runtime.step(Event::Threw {
        exception: exception(Some("SyntaxError"), "Unexpected token"),
    });
    assert_eq!(
        answer,
        Action::Fail {
            error: BridgeError::EngineExecution {
                class: "SyntaxError".to_string(),
                message: "Unexpected token".to_string(),
            }
        }
    );
    assert_eq!(runtime.lifecycle(), Lifecycle::Failed);
    assert!(!runtime.is_busy());
    assert_eq!(runtime.call("sum", 2), protocol());
    assert_eq!(runtime.boot(), protocol());
    assert_eq!(runtime.lifecycle(), Lifecycle::Failed);
}

#[test]
fn modules_that_cannot_be_resolved_or_loaded_fail_the_boot() {
    let mut runtime = direct("a.js");
    runtime.boot();
    runtime.step(Event::Done);
    let answer = runtime.step(Event::Unresolved { message: "no ./missing.js".to_string() });
    assert_eq!(
        answer,
        Action::Fail { error: BridgeError::Resolution { message: "no ./missing.js".to_string() } }
    );
    assert_eq!(runtime.lifecycle(), Lifecycle::Failed);

    let mut runtime = direct("a.js");
    runtime.boot();
    runtime.step(Event::Done);
    let answer = runtime.step(Event::Unloadable { message: "No such file".to_string() });
    let Action::Fail { error } = answer else { panic!("the boot did not fail") };
    assert_eq!(error.kind(), ErrorKind::Load);
    assert_eq!(error, BridgeError::Load { message: "No such file".to_string() });
    assert_eq!(runtime.lifecycle(), Lifecycle::Failed);
}

#[test]
fn a_failing_bootstrap_fails_the_boot() {
    let mut runtime = direct("a.js");
    runtime.boot();
    let answer = runtime.step(Event::Threw { exception: exception(None, "boom") });
    assert_eq!(
        answer,
        Action::Fail {
            error: BridgeError::EngineExecution {
                class: "Error".to_string(),
                message: "boom".to_string()
            }
        }
    );
    assert_eq!(runtime.lifecycle(), Lifecycle::Failed);
}

#[test]
fn hello_with_two_arguments_returns_once_its_promise_is_fulfilled() {
    let mut runtime = ready("/srv/examples/async.js");
    assert_eq!(
        runtime.call("hello", 2),
        Action::ResolveFunction { script: "mod.hello".to_string() }
    );
    assert!(runtime.is_busy());
    assert_eq!(
        runtime.step(Event::Resolved { function: "hello" }),
        Action::MarshalArgument { index: 0 }
    );
    assert_eq!(runtime.awaiting(), Awaiting::Argument);
    assert_eq!(runtime.step(Event::Marshaled { value: "5" }), Action::MarshalArgument { index: 1 });
    assert_eq!(
        runtime.step(Event::Marshaled { value: "4" }),
        Action::Invoke { function: "hello", arguments: vec!["5", "4"] }
    );
    assert_eq!(
        runtime.step(Event::Pending { awaited: "promise" }),
        Action::Pump { awaited: "promise" }
    );
    assert_eq!(
        runtime.step(Event::Pending { awaited: "promise" }),
        Action::Pump { awaited: "promise" }
    );
    assert_eq!(
        runtime.step(Event::Fulfilled { value: "two records" }),
        Action::Unmarshal { value: "two records" }
    );
    assert_eq!(runtime.step(Event::Done), Action::Complete);
    assert!(!runtime.is_busy());
    assert_eq!(runtime.lifecycle(), Lifecycle::Ready);
}

#[test]
fn handler_with_mixed_arguments_returns_its_value_at_once() {
    let mut runtime = ready("/srv/examples/multi_type.js");
    invoke(&mut runtime, "handler", &["\"Hello there\"", "100"]);
    assert_eq!(
        runtime.step(Event::Value { value: "[\"Hello there\", 100]" }),
        Action::Unmarshal { value: "[\"Hello there\", 100]" }
    );
    assert_eq!(runtime.step(Event::Done), Action::Complete);
    assert!(!runtime.is_busy());
}

#[test]
fn sum_and_product_are_called_one_after_the_other() {
    let mut runtime = ready("/srv/examples/multi_export.js");
    invoke(&mut runtime, "sum", &["4", "5"]);
    assert_eq!(runtime.step(Event::Value { value: "9" }), Action::Unmarshal { value: "9" });
    assert_eq!(runtime.step(Event::Done), Action::Complete);
    invoke(&mut runtime, "product", &["4", "5"]);
    assert_eq!(runtime.step(Event::Value { value: "20" }), Action::Unmarshal { value: "20" });
    assert_eq!(runtime.step(Event::Done), Action::Complete);
    assert_eq!(runtime.lifecycle(), Lifecycle::Ready);
    assert!(!runtime.is_busy());
}

#[test]
fn a_failed_call_does_not_touch_the_next() {
    let mut runtime = ready("a.js");
    assert_eq!(runtime.call("explode", 3), resolve("explode"));
    runtime.step(Event::Resolved { function: "explode" });
    runtime.step(Event::Marshaled { value: "first" });
    assert_eq!(
        runtime.step(Event::Marshaled { value: "second" }),
        Action::MarshalArgument { index: 2 }
    );
    // The host gives up in the middle of the arguments.
    assert_eq!(runtime.step(Event::Threw { exception: exception(None, "no") }), protocol());
    assert!(!runtime.is_busy());
    assert_eq!(runtime.lifecycle(), Lifecycle::Ready);
    // Nothing of the three arguments is left for the one of the next call.
    invoke(&mut runtime, "sum", &["only"]);
    assert_eq!(runtime.step(Event::Value { value: "1" }), Action::Unmarshal { value: "1" });
    assert_eq!(runtime.step(Event::Done), Action::Complete);
}

#[test]
fn a_call_without_arguments_is_invoked_right_after_resolution() {
    let mut runtime = ready("a.js");
    assert_eq!(runtime.call("bench", 0), resolve("bench"));
    assert_eq!(
        runtime.step(Event::Resolved { function: "bench" }),
        Action::Invoke { function: "bench", arguments: vec![] }
    );
    assert_eq!(runtime.awaiting(), Awaiting::Invocation);
    assert_eq!(
        runtime.step(Event::Fulfilled { value: "true" }),
        Action::Unmarshal { value: "true" }
    );
    assert_eq!(runtime.step(Event::Done), Action::Complete);
}

#[test]
fn a_synchronous_throw_is_an_engine_execution_failure() {
    let mut runtime = ready("a.js");
    invoke(&mut runtime, "explode", &["1"]);
    let answer = runtime.step(Event::Threw {
        exception: exception(Some("TypeError"), "x is not a function"),
    });
    assert_eq!(
        answer,
        Action::Fail {
            error: BridgeError::EngineExecution {
                class: "TypeError".to_string(),
                message: "x is not a function".to_string(),
            }
        }
    );
    assert!(!runtime.is_busy());
    assert_eq!(runtime.awaiting(), Awaiting::Nothing);
}

#[test]
fn an_unclassified_exception_is_reported_as_error() {
    let mut runtime = ready("a.js");
    invoke(&mut runtime, "explode", &[]);
    let answer = runtime.step(Event::Threw { exception: exception(None, "thrown: 42") });
    assert_eq!(
        answer,
        Action::Fail {
            error: BridgeError::EngineExecution {
                class: "Error".to_string(),
                message: "thrown: 42".to_string(),
            }
        }
    );
    assert_eq!(get_error_class_name(None), "Error");
    assert_eq!(get_error_class_name(Some("NotFound")), "NotFound");
    assert_eq!(
        BridgeError::from_exception(exception(None, "m")),
        BridgeError::EngineExecution { class: "Error".to_string(), message: "m".to_string() }
    );
    assert_eq!(
        BridgeError::from_exception(exception(Some(""), "m")),
        BridgeError::EngineExecution { class: "".to_string(), message: "m".to_string() }
    );
}

#[test]
fn a_function_that_cannot_be_resolved_fails_the_call() {
    let mut runtime = ready("a.js");
    assert_eq!(runtime.call("nope", 2), resolve("nope"));
    let answer = runtime.step(Event::Threw { exception: exception(None, "not a function") });
    let Action::Fail { error } = answer else { panic!("the call did not fail") };
    assert_eq!(error.kind(), ErrorKind::EngineExecution);
    assert!(!runtime.is_busy());
}

#[test]
fn a_promise_rejected_at_once_is_an_engine_execution_failure() {
    let mut runtime = ready("a.js");
    invoke(&mut runtime, "reject", &["1"]);
    let answer = runtime.step(Event::Rejected { exception: exception(Some("Error"), "denied") });
    assert_eq!(
        answer,
        Action::Fail {
            error: BridgeError::EngineExecution {
                class: "Error".to_string(),
                message: "denied".to_string()
            }
        }
    );
    assert!(!runtime.is_busy());
}

#[test]
fn a_promise_rejected_after_some_ticks_is_an_engine_execution_failure() {
    let mut runtime = ready("a.js");
    invoke(&mut runtime, "reject", &["1"]);
    for _ in 0..100 {
        assert_eq!(
            runtime.step(Event::Pending { awaited: "promise" }),
            Action::Pump { awaited: "promise" }
        );
        assert_eq!(runtime.awaiting(), Awaiting::Settlement);
    }
    let answer = runtime.step(Event::Rejected { exception: exception(None, "late") });
    let Action::Fail { error } = answer else { panic!("the call did not fail") };
    assert_eq!(error.kind(), ErrorKind::EngineExecution);
    assert_eq!(
        error,
        BridgeError::EngineExecution { class: "Error".to_string(), message: "late".to_string() }
    );
    assert!(!runtime.is_busy());
}

#[test]
fn an_event_loop_that_fails_while_waiting_fails_the_call() {
    let mut runtime = ready("a.js");
    invoke(&mut runtime, "wait", &[]);
    assert_eq!(runtime.step(Event::Pending { awaited: "p" }), Action::Pump { awaited: "p" });
    let answer = runtime.step(Event::Threw { exception: exception(Some("Error"), "uncaught") });
    let Action::Fail { error } = answer else { panic!("the call did not fail") };
    assert_eq!(error.kind(), ErrorKind::EngineExecution);
}

#[test]
fn a_value_of_the_wrong_shape_is_a_deserialization_failure() {
    let mut runtime = ready("a.js");
    invoke(&mut runtime, "scalar", &["1"]);
    assert_eq!(runtime.step(Event::Value { value: "7" }), Action::Unmarshal { value: "7" });
    let answer = runtime.step(Event::Mismatch {
        message: "invalid type: integer, expected a record".to_string(),
    });
    assert_eq!(
        answer,
        Action::Fail {
            error: BridgeError::Deserialization {
                message: "invalid type: integer, expected a record".to_string(),
            }
        }
    );
    let Action::Fail { error } = answer else { panic!("the call did not fail") };
    assert_eq!(error.kind(), ErrorKind::Deserialization);
    assert_ne!(error.kind(), ErrorKind::EngineExecution);
    assert!(!runtime.is_busy());
}

#[test]
fn an_overlapping_call_is_refused_and_the_first_goes_on() {
    let mut runtime = ready("a.js");
    assert_eq!(runtime.call("sum", 2), resolve("sum"));
    assert_eq!(
        runtime.step(Event::Resolved { function: "sum" }),
        Action::MarshalArgument { index: 0 }
    );
    assert_eq!(runtime.step(Event::Marshaled { value: "4" }), Action::MarshalArgument { index: 1 });
    let refused = runtime.call("product", 5);
    assert_eq!(refused, protocol());
    let Action::Fail { error } = refused else { panic!("the call was not refused") };
    assert_eq!(error.kind(), ErrorKind::Protocol);
    assert!(!runtime.accepts("product"));
    assert_eq!(runtime.boot(), protocol());
    assert_eq!(runtime.awaiting(), Awaiting::Argument);
    assert_eq!(
        runtime.step(Event::Marshaled { value: "5" }),
        Action::Invoke { function: "sum", arguments: vec!["4", "5"] }
    );
    assert_eq!(runtime.step(Event::Value { value: "9" }), Action::Unmarshal { value: "9" });
    assert_eq!(runtime.step(Event::Done), Action::Complete);
    assert!(runtime.accepts("product"));
}

#[test]
fn a_report_that_nothing_asked_for_is_refused() {
    let mut runtime = ready("a.js");
    assert_eq!(runtime.step(Event::Done), protocol());
    assert_eq!(runtime.step(Event::Fulfilled { value: "stray" }), protocol());
    assert_eq!(runtime.lifecycle(), Lifecycle::Ready);
    assert!(!runtime.is_busy());
    let mut fresh = direct("a.js");
    assert_eq!(fresh.step(Event::Done), protocol());
    assert_eq!(fresh.lifecycle(), Lifecycle::Constructed);
}

#[test]
fn a_report_that_does_not_fit_ends_the_call() {
    let mut runtime = ready("a.js");
    assert_eq!(runtime.call("sum", 2), resolve("sum"));
    assert_eq!(runtime.step(Event::Done), protocol());
    assert!(!runtime.is_busy());
    assert_eq!(runtime.lifecycle(), Lifecycle::Ready);

    invoke(&mut runtime, "sum", &["4", "5"]);
    assert_eq!(runtime.step(Event::Done), protocol());
    assert!(!runtime.is_busy());

    invoke(&mut runtime, "sum", &["4", "5"]);
    assert_eq!(runtime.step(Event::Pending { awaited: "p" }), Action::Pump { awaited: "p" });
    // A channel has nothing to yield under direct invocation.
    assert_eq!(runtime.step(Event::Yielded { value: "9" }), protocol());
    assert!(!runtime.is_busy());

    invoke(&mut runtime, "sum", &[]);
    assert_eq!(runtime.step(Event::Value { value: "0" }), Action::Unmarshal { value: "0" });
    assert_eq!(runtime.step(Event::Pending { awaited: "p" }), protocol());
    assert!(!runtime.is_busy());

    assert_eq!(runtime.call("sum", 1), resolve("sum"));
    assert_eq!(
        runtime.step(Event::Resolved { function: "sum" }),
        Action::MarshalArgument { index: 0 }
    );
    assert_eq!(runtime.step(Event::Resolved { function: "again" }), protocol());
    assert!(!runtime.is_busy());
}

#[test]
fn a_report_that_does_not_fit_fails_the_boot() {
    let mut runtime = direct("a.js");
    runtime.boot();
    assert_eq!(runtime.step(Event::Value { value: "?" }), protocol());
    assert_eq!(runtime.lifecycle(), Lifecycle::Failed);

    let mut runtime = direct("a.js");
    runtime.boot();
    runtime.step(Event::Done);
    assert_eq!(runtime.step(Event::Mismatch { message: "?".to_string() }), protocol());
    assert_eq!(runtime.lifecycle(), Lifecycle::Failed);
}

#[test]
fn the_first_direct_call_boots_the_engine_on_the_way() {
    let mut runtime = direct("a.js");
    assert_eq!(runtime.call("sum", 1), Action::Bootstrap);
    assert_eq!(
        runtime.step(Event::Done),
        Action::ExecuteMain { module: "file:///main.js".to_string() }
    );
    assert_eq!(runtime.step(Event::Done), resolve("sum"));
    assert_eq!(runtime.lifecycle(), Lifecycle::Ready);
    assert_eq!(
        runtime.step(Event::Resolved { function: "sum" }),
        Action::MarshalArgument { index: 0 }
    );
    assert_eq!(
        runtime.step(Event::Marshaled { value: "1" }),
        Action::Invoke { function: "sum", arguments: vec!["1"] }
    );
    assert_eq!(runtime.step(Event::Value { value: "1" }), Action::Unmarshal { value: "1" });
    assert_eq!(runtime.step(Event::Done), Action::Complete);
    // The second call finds the engine ready.
    assert_eq!(runtime.call("sum", 0), resolve("sum"));
}

#[test]
fn a_call_whose_boot_fails_is_over() {
    let mut runtime = direct("a.js");
    assert_eq!(runtime.call("sum", 1), Action::Bootstrap);
    runtime.step(Event::Done);
    let answer = runtime.step(Event::Threw { exception: exception(Some("Error"), "top level") });
    let Action::Fail { error } = answer else { panic!("the call did not fail") };
    assert_eq!(error.kind(), ErrorKind::EngineExecution);
    assert_eq!(runtime.lifecycle(), Lifecycle::Failed);
    assert!(!runtime.is_busy());
    assert_eq!(runtime.call("sum", 1), protocol());
}

#[test]
fn a_message_passing_call_runs_through_the_channel() {
    let mut runtime = message_passing("hello");
    assert_eq!(
        runtime.loader().entry_source.lines().next(),
        Some("import { hello as __fn } from './user.js';")
    );
    assert_eq!(runtime.call("hello", 2), Action::RegisterOps);
    assert_eq!(runtime.awaiting(), Awaiting::OpsRegistration);
    assert_eq!(runtime.step(Event::Done), Action::Bootstrap);
    assert_eq!(
        runtime.step(Event::Done),
        Action::ExecuteMain { module: "file:///main.js".to_string() }
    );
    assert_eq!(runtime.step(Event::Done), Action::StoreCallState { channel_capacity: 16 });
    assert_eq!(RESULT_CHANNEL_CAPACITY, 16);
    assert_eq!(runtime.lifecycle(), Lifecycle::Ready);
    assert_eq!(
        runtime.step(Event::Stored { channel: "receiver" }),
        Action::Signal { event: "__start".to_string() }
    );
    assert_eq!(runtime.step(Event::Done), Action::Pump { awaited: "receiver" });
    assert_eq!(
        runtime.step(Event::Pending { awaited: "receiver" }),
        Action::Pump { awaited: "receiver" }
    );
    assert_eq!(
        runtime.step(Event::Yielded { value: "records" }),
        Action::Unmarshal { value: "records" }
    );
    assert_eq!(runtime.step(Event::Done), Action::Complete);
    assert!(!runtime.is_busy());

    // The engine is booted once; the host functions are registered per call.
    assert_eq!(runtime.call("hello", 1), Action::RegisterOps);
    assert_eq!(runtime.step(Event::Done), Action::StoreCallState { channel_capacity: 16 });
    assert_eq!(
        runtime.step(Event::Stored { channel: "second receiver" }),
        Action::Signal { event: "__start".to_string() }
    );
    assert_eq!(runtime.step(Event::Done), Action::Pump { awaited: "second receiver" });
    assert_eq!(runtime.step(Event::Yielded { value: "7" }), Action::Unmarshal { value: "7" });
    assert_eq!(
        runtime.step(Event::Mismatch { message: "expected a sequence".to_string() }),
        Action::Fail {
            error: BridgeError::Deserialization { message: "expected a sequence".to_string() }
        }
    );
}

#[test]
fn message_passing_serves_only_the_bound_export() {
    let mut runtime = message_passing("sum");
    assert!(runtime.accepts("sum"));
    assert!(!runtime.accepts("product"));
    assert_eq!(runtime.call("product", 2), protocol());
    assert!(!runtime.is_busy());
    assert_eq!(runtime.lifecycle(), Lifecycle::Constructed);
    assert_eq!(runtime.call("sum", 2), Action::RegisterOps);
}

#[test]
fn message_passing_boots_only_within_a_call() {
    let mut runtime = message_passing("sum");
    assert_eq!(runtime.boot(), protocol());
    assert_eq!(runtime.lifecycle(), Lifecycle::Constructed);
    assert!(!runtime.is_busy());
}

#[test]
fn a_slot_left_occupied_is_a_protocol_failure() {
    let mut runtime = message_passing("sum");
    runtime.call("sum", 2);
    runtime.step(Event::Done);
    runtime.step(Event::Done);
    assert_eq!(runtime.step(Event::Done), Action::StoreCallState { channel_capacity: 16 });
    assert_eq!(runtime.step(Event::SlotOccupied), protocol());
    assert!(!runtime.is_busy());
    assert_eq!(runtime.lifecycle(), Lifecycle::Ready);
}

#[test]
fn a_signal_that_throws_fails_the_call() {
    let mut runtime = message_passing("sum");
    runtime.call("sum", 2);
    runtime.step(Event::Done);
    runtime.step(Event::Done);
    runtime.step(Event::Done);
    assert_eq!(
        runtime.step(Event::Stored { channel: "receiver" }),
        Action::Signal { event: "__start".to_string() }
    );
    let answer = runtime.step(Event::Threw {
        exception: exception(Some("ReferenceError"), "window is not defined"),
    });
    assert_eq!(
        answer,
        Action::Fail {
            error: BridgeError::EngineExecution {
                class: "ReferenceError".to_string(),
                message: "window is not defined".to_string(),
            }
        }
    );
    // The channel of the failed call is not the one that the next call waits on.
    runtime.call("sum", 2);
    runtime.step(Event::Done);
    runtime.step(Event::Stored { channel: "fresh" });
    assert_eq!(runtime.step(Event::Done), Action::Pump { awaited: "fresh" });
}

#[test]
fn a_promise_has_nothing_to_say_under_message_passing() {
    let mut runtime = waiting("sum");
    assert_eq!(runtime.awaiting(), Awaiting::Settlement);
    assert_eq!(runtime.step(Event::Fulfilled { value: "9" }), protocol());
    assert!(!runtime.is_busy());

    let mut runtime = waiting("sum");
    assert_eq!(
        runtime.step(Event::Rejected { exception: exception(None, "rejected") }),
        protocol()
    );
}

#[test]
fn a_guest_that_never_answers_keeps_the_host_pumping() {
    let mut runtime = waiting("sum");
    for _ in 0..1000 {
        assert_eq!(
            runtime.step(Event::Pending { awaited: "receiver" }),
            Action::Pump { awaited: "receiver" }
        );
    }
    assert!(runtime.is_busy());
    assert_eq!(runtime.awaiting(), Awaiting::Settlement);
}

#[test]
fn many_arguments_are_marshaled_in_their_positions() {
    let mut runtime: Runtime<usize> =
        Runtime::new("a.js", CallStrategy::DirectInvocation).unwrap();
    assert_eq!(runtime.call("wide", 40), Action::Bootstrap);
    runtime.step(Event::Done);
    assert_eq!(
        runtime.step(Event::Done),
        Action::ResolveFunction { script: "mod.wide".to_string() }
    );
    let mut asked = vec![];
    let mut answer = runtime.step(Event::Resolved { function: 1000 });
    while let Action::MarshalArgument { index } = answer {
        asked.push(index);
        answer = runtime.step(Event::Marshaled { value: 100 + index });
    }
    assert_eq!(asked, (0..40).collect::<Vec<usize>>());
    assert_eq!(
        answer,
        Action::Invoke { function: 1000, arguments: (100..140).collect::<Vec<usize>>() }
    );
}
