//! One-shot evaluation of a plugin script in a throwaway interpreter.

use crate::plugin::capability::{dispatch, Capability, HostEffect};
use crate::plugin::error::{outcome_view, ErrorView, PluginError};
use std::rc::Rc;
use vstd::prelude::*;

verus! {

/// `rquickjs::Runtime`, an interpreter runtime; opaque here.
#[verifier::external_type_specification]
#[verifier::external_body]
pub struct ExRuntime(rquickjs::Runtime);

/// `rquickjs::Context`, an execution context of a runtime; opaque here.
#[verifier::external_type_specification]
#[verifier::external_body]
pub struct ExContext(rquickjs::Context);

/// `rquickjs::Runtime::new`: a fresh interpreter runtime, or the text of the
/// error that kept it from being allocated. Nothing is claimed of either.
#[verifier::external_body]
fn new_runtime() -> (made: Result<rquickjs::Runtime, String>) {
    rquickjs::Runtime::new().map_err(|e| e.to_string())
}

/// `rquickjs::Context::full`: a fresh context on `runtime` with the
/// language's standard intrinsics, or the text of the error. Nothing is
/// claimed of either.
#[verifier::external_body]
fn new_context(runtime: &rquickjs::Runtime) -> (made: Result<rquickjs::Context, String>) {
    rquickjs::Context::full(runtime).map_err(|e| e.to_string())
}

/// `Rc::clone`: a second handle to the value that `host` points to.
#[verifier::external_body]
fn share<H>(host: &Rc<H>) -> (other: Rc<H>)
    ensures
        *other == **host,
{
    host.clone()
}

/// `rquickjs::Function::new` and `Object::set` on the context's globals:
/// binds the global `name` to a function that passes its one string argument
/// to [`dispatch`] for `capability`. Returns the text of the error if the
/// function could not be made or bound. Nothing is claimed of the result.
#[verifier::external_body]
fn install<H: Fn(HostEffect) + 'static>(
    context: &rquickjs::Context,
    name: &str,
    capability: Capability,
    host: Rc<H>,
) -> (bound: Result<(), String>)
    requires
        forall|effect: HostEffect| host.requires((effect,)),
{
    context.with(|scope| {
        let function = rquickjs::Function::new(
            scope.clone(),
            move |argument: String| dispatch(capability, argument, &*host),
        )?;
        scope.globals().set(name, function)
    }).map_err(|e| e.to_string())
}

/// `rquickjs::Ctx::eval`, with the value of the script's last expression
/// coerced to a string as the language's `String(..)` does, and a thrown
/// exception caught and rendered as text. The call lasts as long as the
/// script runs. What a script returns depends on more than its source (the
/// clock, the random source), so nothing is claimed of the result.
#[verifier::external_body]
fn eval_source(context: &rquickjs::Context, source: &str) -> (result: Result<String, String>) {
    context.with(|scope| {
        let value = scope.eval::<rquickjs::Coerced<String>, _>(source);
        match rquickjs::CatchResultExt::catch(value, &scope) {
            Ok(text) => Ok(text.0),
            Err(thrown) => Err(thrown.to_string()),
        }
    })
}

/// What the caller is told once the interpreter has run a script: the
/// script's value on success, an evaluation error carrying the
/// interpreter's diagnostic otherwise.
pub open spec fn eval_outcome_spec(result: Result<Seq<char>, Seq<char>>) -> Result<
    Seq<char>,
    ErrorView,
> {
    match result {
        Ok(text) => Ok(text),
        Err(diagnostic) => Err(ErrorView::Eval(diagnostic)),
    }
}

/// The mathematical content of what the interpreter hands back.
pub open spec fn raw_view(result: Result<String, String>) -> Result<Seq<char>, Seq<char>> {
    match result {
        Ok(text) => Ok(text@),
        Err(diagnostic) => Err(diagnostic@),
    }
}

/// Maps what the interpreter handed back to what the caller is told.
pub fn eval_outcome(result: Result<String, String>) -> (outcome: Result<String, PluginError>)
    ensures
        outcome_view(outcome) == eval_outcome_spec(raw_view(result)),
{
    match result {
        Ok(text) => Ok(text),
        Err(diagnostic) => Err(PluginError::Eval(diagnostic)),
    }
}

/// Runs `source` once in an interpreter made for this call alone.
///
/// Both capabilities are installed before any script code runs. Each call a
/// script makes to one of them reaches `host` as a [`HostEffect`]; the host
/// decides when to carry it out. The interpreter is gone when this returns,
/// whatever the outcome, so nothing a script leaves in its globals can be
/// seen by a later call.
pub fn evaluate<H: Fn(HostEffect) + 'static>(source: &str, host: H) -> (outcome: Result<
    String,
    PluginError,
>)
    requires
        forall|effect: HostEffect| host.requires((effect,)),
    ensures
        outcome matches Err(error) ==> error is Engine || error is Binding || error is Eval,
{
    let runtime = match new_runtime() {
        Ok(runtime) => runtime,
        Err(detail) => {
            return Err(PluginError::Engine(detail));
        },
    };
    let context = match new_context(&runtime) {
        Ok(context) => context,
        Err(detail) => {
            return Err(PluginError::Engine(detail));
        },
    };
    let host = Rc::new(host);
    let log_host = share(&host);
    if let Err(detail) = install(&context, Capability::Log.name(), Capability::Log, log_host) {
        return Err(PluginError::Binding(detail));
    }
    if let Err(detail) = install(&context, Capability::OpenUrl.name(), Capability::OpenUrl, host) {
        return Err(PluginError::Binding(detail));
    }
    eval_outcome(eval_source(&context, source))
}

} // verus!
