//! The synthetic entry module: the script that imports the user's module and
//! wires the boundary between host and guest.

use vstd::prelude::*;

verus! {

/// The identifier under which the entry module is known to the engine.
pub const ENTRY_SPECIFIER: &'static str = "file:///main.js";

/// The event that tells the guest-side handler to serve a call.
pub const START_SIGNAL: &'static str = "__start";

/// The host function through which the guest fetches a call's arguments.
pub const RECV_ARGS_OP: &'static str = "op_recv_args";

/// The host function through which the guest hands back a call's result.
pub const SEND_RESULT_OP: &'static str = "op_result";

/// How many results the channel from guest to host can hold.
pub const RESULT_CHANNEL_CAPACITY: usize = 16;

/// The two ways in which the host can have a script function called.
#[derive(Clone, Debug, PartialEq, Eq)]
pub enum CallStrategy {
    /// The guest fetches the arguments and sends the result through
    /// host-registered functions; the entry module binds one export.
    MessagePassing { export: String },
    /// The host calls the exported function value itself; the entry module
    /// publishes the whole module namespace.
    DirectInvocation,
}

/// A strategy, with the export's name as a sequence of characters.
pub enum CallStrategyView {
    MessagePassing { export: Seq<char> },
    DirectInvocation,
}

impl View for CallStrategy {
    type V = CallStrategyView;

    open spec fn view(&self) -> CallStrategyView {
        match self {
            CallStrategy::MessagePassing { export } => CallStrategyView::MessagePassing {
                export: export@,
            },
            CallStrategy::DirectInvocation => CallStrategyView::DirectInvocation,
        }
    }
}

/// The statements that publish the module namespace as a global.
pub const NAMESPACE_WIRING: &'static str = "\nglobalThis.mod = mod;\n";

/// The statements that register the guest-side handler: fetch the arguments,
/// call the bound function, await it, send the result.
pub const HANDLER_WIRING: &'static str = "\n\
window.addEventListener(\"__start\", async () => {\n    \
const argument = await Deno.core.opAsync(\"op_recv_args\");\n    \
const result = await __fn(argument);\n    \
Deno.core.opAsync(\"op_result\", result);\n\
});\n";

/// The text of the entry module for a script file under a strategy.
pub open spec fn entry_source_text(source_file: Seq<char>, strategy: CallStrategyView) -> Seq<
    char,
> {
    match strategy {
        CallStrategyView::DirectInvocation => "import * as mod from '"@ + source_file + "';"@
            + NAMESPACE_WIRING@,
        CallStrategyView::MessagePassing { export } => "import { "@ + export + " as __fn } from '"@
            + source_file + "';"@ + HANDLER_WIRING@,
    }
}

/// The script that evaluates to the export `fn_name` of the published namespace.
pub open spec fn accessor_text(fn_name: Seq<char>) -> Seq<char> {
    "mod."@ + fn_name
}

/// Composes the entry module for `source_file`: an import of the user's
/// module followed by the wiring that the strategy needs.
pub fn entry_source(source_file: &str, strategy: &CallStrategy) -> (source: String)
    ensures
        source@ == entry_source_text(source_file@, strategy@),
{
    match strategy {
        CallStrategy::DirectInvocation => {
            let mut source = String::from_str("import * as mod from '");
            source.append(source_file);
            source.append("';");
            source.append(NAMESPACE_WIRING);
            source
        },
        CallStrategy::MessagePassing { export } => {
            let mut source = String::from_str("import { ");
            source.append(export.as_str());
            source.append(" as __fn } from '");
            source.append(source_file);
            source.append("';");
            source.append(HANDLER_WIRING);
            source
        },
    }
}

/// Builds the script through which the host reaches the export `fn_name`.
pub fn accessor_script(fn_name: &str) -> (script: String)
    ensures
        script@ == accessor_text(fn_name@),
{
    let mut script = String::from_str("mod.");
    script.append(fn_name);
    script
}

} // verus!
