//! The per-request pipeline: `LOAD`, then `middleware`, the short-circuit
//! decision, `handler`, `response_hook`, and finalization.
//!
//! A fresh engine is created per request, the request and response tables
//! are marshalled into it, and the handler script is evaluated to a module
//! of up to three optional stage functions. Middleware and hook errors are
//! non-fatal; a handler error aborts the request. The report returned beside
//! the result records which stages were resolved and invoked, and the
//! contract ties the two together: it is the pipeline's control-flow law.

use vstd::prelude::*;
use vstd::string::StringExecFns;
use crate::engine::{
    call_stage, create_table, eval_module, get_function, get_i32_field, get_string_field,
    get_string_pairs, get_table_field, new_lua, set_global_table, table_set_i32, table_set_str,
    table_set_table,
};
use crate::headers::valid_header_pair;
use crate::request::RequestData;
use crate::response::{
    decide_status, finalize_response, should_run_handler, status_or_failure, ResponseData,
    OK_STATUS,
};

verus! {

/// A fatal pipeline error; each aborts the request and yields a 500 whose
/// body embeds the error's text.
#[derive(Debug, PartialEq, Eq)]
pub enum PipelineError {
    /// The per-request scripting environment could not be set up.
    Engine(String),
    /// The handler script failed to evaluate to a module table.
    ScriptLoad(String),
    /// The `handler` stage itself raised an error.
    HandlerStage(String),
    /// The response state could not be read back after the stages ran.
    ResponseRead(String),
}

/// The text a pipeline error carries.
pub open spec fn error_text(e: PipelineError) -> Seq<char> {
    match e {
        PipelineError::Engine(m) => m@,
        PipelineError::ScriptLoad(m) => m@,
        PipelineError::HandlerStage(m) => m@,
        PipelineError::ResponseRead(m) => m@,
    }
}

impl PipelineError {
    /// The error's text, for embedding into the error response body.
    pub fn into_text(self) -> (r: String)
        ensures
            r@ == error_text(self),
    {
        match self {
            PipelineError::Engine(m) => m,
            PipelineError::ScriptLoad(m) => m,
            PipelineError::HandlerStage(m) => m,
            PipelineError::ResponseRead(m) => m,
        }
    }
}

/// What one pipeline run did: which stages the module offered (as far as the
/// run looked), which were invoked, and what the short-circuit decision saw.
#[derive(Debug, Clone, Copy, PartialEq, Eq, Structural)]
pub struct StageReport {
    /// The script evaluated to a module table.
    pub loaded: bool,
    /// A `middleware` function was found.
    pub has_middleware: bool,
    /// A `handler` function was found (only looked up when not intercepted).
    pub has_handler: bool,
    /// A `response_hook` function was found.
    pub has_hook: bool,
    /// `middleware` was called.
    pub middleware_invoked: bool,
    /// `middleware` raised an error (non-fatal, execution continued).
    pub middleware_failed: bool,
    /// The status read after `middleware`, with the fresh default of 200.
    pub decide_status: i32,
    /// The status was not 200: the middleware already answered the request.
    pub intercepted: bool,
    /// `handler` was called.
    pub handler_invoked: bool,
    /// `response_hook` was called.
    pub hook_invoked: bool,
    /// `response_hook` raised an error (non-fatal).
    pub hook_failed: bool,
    /// The status read back at finalization, before the failure default.
    pub final_status_read: Option<i32>,
}

/// The pipeline's control-flow law, relating a run's report to its result:
/// stages are invoked exactly when present; the handler is skipped whenever
/// the middleware left a non-200 status; the hook runs on every loaded path
/// except a fatal handler error; and a delivered response holds only valid
/// headers.
pub open spec fn report_consistent(rep: StageReport, res: Result<ResponseData, PipelineError>)
    -> bool {
    &&& rep.middleware_invoked == (rep.loaded && rep.has_middleware)
    &&& rep.handler_invoked == (rep.loaded && rep.has_handler && !rep.intercepted)
    &&& (rep.loaded ==> (rep.intercepted == (rep.decide_status != OK_STATUS)))
    &&& rep.hook_invoked == (rep.loaded && rep.has_hook && !(res matches Err(
        PipelineError::HandlerStage(_),
    )))
    &&& (!rep.loaded ==> !rep.has_middleware && !rep.has_handler && !rep.has_hook
        && !rep.intercepted && res is Err)
    &&& ((res matches Err(PipelineError::HandlerStage(_))) ==> rep.handler_invoked)
    &&& ((res matches Err(PipelineError::ScriptLoad(_))) ==> !rep.loaded)
    &&& ((res matches Err(PipelineError::Engine(_))) ==> !rep.loaded)
    &&& ((res matches Err(PipelineError::ResponseRead(_))) ==> rep.loaded)
    &&& (res matches Ok(d) ==> rep.loaded && d.status == status_or_failure(rep.final_status_read)
        && (forall|i: int|
        0 <= i < d.headers@.len() ==> valid_header_pair(#[trigger] d.headers@[i])))
}

/// Marshals the request view and the fresh response state into the engine as
/// the global tables `request` and `response`; the response starts as
/// `{status: 200, body: "", headers: {}}`.
fn marshal_tables(lua: &mlua::Lua, req: &RequestData) -> Result<(mlua::Table, mlua::Table), String>
{
    let req_table = create_table(lua)?;
    table_set_str(&req_table, "method", req.method.as_str())?;
    table_set_str(&req_table, "path", req.path.as_str())?;
    table_set_str(&req_table, "body", req.body.as_str())?;
    let req_headers = create_table(lua)?;
    let n = req.headers.len();
    let mut i: usize = 0;
    while i < n
        invariant
            i <= n,
            n == req.headers@.len(),
        decreases n - i,
    {
        table_set_str(&req_headers, req.headers[i].0.as_str(), req.headers[i].1.as_str())?;
        i += 1;
    }
    table_set_table(&req_table, "headers", &req_headers)?;

    let res_table = create_table(lua)?;
    table_set_i32(&res_table, "status", OK_STATUS)?;
    table_set_str(&res_table, "body", "")?;
    let res_headers = create_table(lua)?;
    table_set_table(&res_table, "headers", &res_headers)?;

    set_global_table(lua, "request", &req_table)?;
    set_global_table(lua, "response", &res_table)?;
    Ok((req_table, res_table))
}

/// Runs one request through the three-stage pipeline in a fresh engine and
/// reads the response state back. The report and result together satisfy the
/// control-flow law `report_consistent`.
pub fn run_pipeline(script_code: &str, script_name: &str, req: &RequestData) -> (r: (
    StageReport,
    Result<ResponseData, PipelineError>,
))
    ensures
        report_consistent(r.0, r.1),
{
    let lua = new_lua();
    let mut rep = StageReport {
        loaded: false,
        has_middleware: false,
        has_handler: false,
        has_hook: false,
        middleware_invoked: false,
        middleware_failed: false,
        decide_status: OK_STATUS,
        intercepted: false,
        handler_invoked: false,
        hook_invoked: false,
        hook_failed: false,
        final_status_read: None,
    };

    let (req_table, res_table) = match marshal_tables(&lua, req) {
        Ok(p) => p,
        Err(m) => {
            return (rep, Err(PipelineError::Engine(m)));
        },
    };

    let module = match eval_module(&lua, script_code, script_name) {
        Ok(t) => t,
        Err(m) => {
            let mut text = "Handler script failed to return a table: ".to_owned();
            text.append(m.as_str());
            return (rep, Err(PipelineError::ScriptLoad(text)));
        },
    };
    rep.loaded = true;

    // BEFORE: middleware may mutate the response; its errors are non-fatal,
    // and whatever partial mutation it made stays.
    match get_function(&module, "middleware") {
        Some(f) => {
            rep.has_middleware = true;
            rep.middleware_invoked = true;
            match call_stage(&f, &req_table, &res_table) {
                Ok(_) => {},
                Err(_) => {
                    rep.middleware_failed = true;
                },
            }
        },
        None => {},
    }

    // DECIDE: the status code is the short-circuit signal; anything but 200
    // means the middleware already answered the request.
    rep.decide_status = decide_status(get_i32_field(&res_table, "status"));
    rep.intercepted = !should_run_handler(rep.decide_status);

    // MAIN: the handler runs only when not intercepted; its error is fatal.
    // An absent handler is not an error: the response goes out as-is.
    if !rep.intercepted {
        match get_function(&module, "handler") {
            Some(f) => {
                rep.has_handler = true;
                rep.handler_invoked = true;
                match call_stage(&f, &req_table, &res_table) {
                    Ok(_) => {},
                    Err(m) => {
                        return (rep, Err(PipelineError::HandlerStage(m)));
                    },
                }
            },
            None => {},
        }
    }

    // AFTER: the hook runs whether the handler ran, was skipped or was
    // absent, and whether the middleware failed; its errors are non-fatal.
    match get_function(&module, "response_hook") {
        Some(f) => {
            rep.has_hook = true;
            rep.hook_invoked = true;
            match call_stage(&f, &req_table, &res_table) {
                Ok(_) => {},
                Err(_) => {
                    rep.hook_failed = true;
                },
            }
        },
        None => {},
    }

    // FINALIZE: read the state back; an unreadable status now means failure.
    let status_read = get_i32_field(&res_table, "status");
    rep.final_status_read = status_read;
    let body = match get_string_field(&res_table, "body") {
        Ok(b) => b,
        Err(m) => {
            let mut text = "Failed to get body from response table: ".to_owned();
            text.append(m.as_str());
            return (rep, Err(PipelineError::ResponseRead(text)));
        },
    };
    let headers_table = match get_table_field(&res_table, "headers") {
        Ok(t) => t,
        Err(m) => {
            return (rep, Err(PipelineError::ResponseRead(m)));
        },
    };
    let raw_headers = match get_string_pairs(&headers_table) {
        Ok(v) => v,
        Err(m) => {
            return (rep, Err(PipelineError::ResponseRead(m)));
        },
    };
    (rep, Ok(finalize_response(status_read, body, &raw_headers)))
}

/// Law: when the middleware leaves a non-200 status, the main handler is
/// never invoked for that request — the status code is the whole
/// short-circuit signal.
pub proof fn lemma_short_circuit_skips_handler(
    rep: StageReport,
    res: Result<ResponseData, PipelineError>,
)
    requires
        report_consistent(rep, res),
        rep.decide_status != OK_STATUS,
    ensures
        !rep.handler_invoked,
{
}

/// Law: once the script is loaded, the response hook, when present, is
/// invoked — whether the handler ran, was skipped by interception, or was
/// absent, and whether the middleware failed. The one path without it is a
/// fatal handler error, which aborts the request before the hook.
pub proof fn lemma_hook_runs(rep: StageReport, res: Result<ResponseData, PipelineError>)
    requires
        report_consistent(rep, res),
        rep.loaded,
        !(res matches Err(PipelineError::HandlerStage(_))),
    ensures
        rep.hook_invoked == rep.has_hook,
{
}

} // verus!
