use fyre::pipeline::{run_pipeline, PipelineError};
use fyre::request::{build_request, RequestData};
use fyre::response::error_response;

fn get_request() -> RequestData {
    build_request(
        "GET".to_string(),
        "/test".to_string(),
        b"ping".to_vec(),
        vec![("Host".to_string(), "localhost".to_string())],
    )
}

fn header_value(headers: &[(String, String)], name: &str) -> Option<String> {
    headers
        .iter()
        .find(|(n, _)| n == name)
        .map(|(_, v)| v.clone())
}

#[test]
fn handler_sets_status_body_and_header() {
    let script = "return {\n\
                  handler = function(req, res)\n\
                  res.status = 201\n\
                  res.body = 'created'\n\
                  res.headers['X-Test'] = '1'\n\
                  end\n\
                  }";
    let (report, result) = run_pipeline(script, "scripts/t.lua", &get_request());
    let resp = result.unwrap();
    assert!(report.loaded);
    assert!(report.handler_invoked);
    assert_eq!(resp.status, 201);
    assert_eq!(resp.body, "created");
    assert_eq!(header_value(&resp.headers, "X-Test"), Some("1".to_string()));
}

#[test]
fn middleware_interception_skips_handler() {
    let script = "return {\n\
                  middleware = function(req, res)\n\
                  res.status = 403\n\
                  res.body = 'denied'\n\
                  end,\n\
                  handler = function(req, res)\n\
                  res.body = 'handled'\n\
                  end\n\
                  }";
    let (report, result) = run_pipeline(script, "scripts/t.lua", &get_request());
    let resp = result.unwrap();
    assert!(report.middleware_invoked);
    assert_eq!(report.decide_status, 403);
    assert!(report.intercepted);
    assert!(!report.handler_invoked);
    assert_eq!(resp.status, 403);
    assert_eq!(resp.body, "denied");
}

#[test]
fn middleware_keeping_200_lets_handler_run() {
    let script = "return {\n\
                  middleware = function(req, res)\n\
                  res.headers['X-MW'] = 'yes'\n\
                  end,\n\
                  handler = function(req, res)\n\
                  res.body = 'handled'\n\
                  end\n\
                  }";
    let (report, result) = run_pipeline(script, "scripts/t.lua", &get_request());
    let resp = result.unwrap();
    assert!(report.middleware_invoked);
    assert!(!report.intercepted);
    assert!(report.handler_invoked);
    assert_eq!(resp.status, 200);
    assert_eq!(resp.body, "handled");
    assert_eq!(header_value(&resp.headers, "X-MW"), Some("yes".to_string()));
}

#[test]
fn hook_runs_when_handler_is_absent() {
    let script = "return {\n\
                  response_hook = function(req, res)\n\
                  res.headers['X-Hook'] = 'ran'\n\
                  end\n\
                  }";
    let (report, result) = run_pipeline(script, "scripts/t.lua", &get_request());
    let resp = result.unwrap();
    assert!(report.loaded);
    assert!(!report.handler_invoked);
    assert!(report.hook_invoked);
    assert_eq!(resp.status, 200);
    assert_eq!(resp.body, "");
    assert_eq!(header_value(&resp.headers, "X-Hook"), Some("ran".to_string()));
}

#[test]
fn hook_runs_when_handler_is_skipped_by_interception() {
    let script = "return {\n\
                  middleware = function(req, res)\n\
                  res.status = 302\n\
                  end,\n\
                  handler = function(req, res)\n\
                  res.body = 'handled'\n\
                  end,\n\
                  response_hook = function(req, res)\n\
                  res.headers['X-Hook'] = 'ran'\n\
                  end\n\
                  }";
    let (report, result) = run_pipeline(script, "scripts/t.lua", &get_request());
    let resp = result.unwrap();
    assert!(report.intercepted);
    assert!(!report.handler_invoked);
    assert!(report.hook_invoked);
    assert_eq!(resp.status, 302);
    assert_eq!(header_value(&resp.headers, "X-Hook"), Some("ran".to_string()));
}

#[test]
fn hook_runs_after_middleware_error() {
    let script = "return {\n\
                  middleware = function(req, res)\n\
                  error('mw broke')\n\
                  end,\n\
                  handler = function(req, res)\n\
                  res.body = 'handled'\n\
                  end,\n\
                  response_hook = function(req, res)\n\
                  res.headers['X-Hook'] = 'ran'\n\
                  end\n\
                  }";
    let (report, result) = run_pipeline(script, "scripts/t.lua", &get_request());
    let resp = result.unwrap();
    assert!(report.middleware_invoked);
    assert!(report.middleware_failed);
    assert!(report.handler_invoked);
    assert!(report.hook_invoked);
    assert_eq!(resp.body, "handled");
}

#[test]
fn middleware_partial_mutation_survives_its_error() {
    let script = "return {\n\
                  middleware = function(req, res)\n\
                  res.headers['X-Partial'] = 'kept'\n\
                  error('mw broke')\n\
                  end\n\
                  }";
    let (report, result) = run_pipeline(script, "scripts/t.lua", &get_request());
    let resp = result.unwrap();
    assert!(report.middleware_failed);
    assert_eq!(
        header_value(&resp.headers, "X-Partial"),
        Some("kept".to_string())
    );
}

#[test]
fn handler_error_is_fatal_and_carries_its_text() {
    let script = "return {\n\
                  handler = function(req, res)\n\
                  error('boom')\n\
                  end,\n\
                  response_hook = function(req, res)\n\
                  res.headers['X-Hook'] = 'ran'\n\
                  end\n\
                  }";
    let (report, result) = run_pipeline(script, "scripts/t.lua", &get_request());
    assert!(report.handler_invoked);
    assert!(!report.hook_invoked);
    let err = match result {
        Err(PipelineError::HandlerStage(m)) => m,
        other => panic!("expected a handler stage error, got {:?}", other),
    };
    assert!(err.contains("boom"));

    let resp = error_response(&err);
    assert_eq!(resp.status, 500);
    assert!(resp.body.starts_with("Server Error: "));
    assert!(resp.body.contains("boom"));
}

#[test]
fn a_failed_request_does_not_affect_the_next_one() {
    let bad = "return { handler = function(req, res) error('boom') end }";
    let good = "return { handler = function(req, res) res.body = 'fine' end }";
    let (_, result) = run_pipeline(bad, "scripts/bad.lua", &get_request());
    assert!(result.is_err());
    let (_, result) = run_pipeline(good, "scripts/good.lua", &get_request());
    assert_eq!(result.unwrap().body, "fine");
}

#[test]
fn script_not_evaluating_to_a_table_is_a_load_error() {
    for script in ["return 5", "this is not lua", "return nil"] {
        let (report, result) = run_pipeline(script, "scripts/t.lua", &get_request());
        assert!(!report.loaded);
        assert!(!report.hook_invoked);
        let err = match result {
            Err(PipelineError::ScriptLoad(m)) => m,
            other => panic!("expected a script load error, got {:?}", other),
        };
        assert!(err.contains("Handler script failed to return a table"));
    }
}

#[test]
fn invalid_header_is_dropped_without_losing_the_rest() {
    let script = "return {\n\
                  handler = function(req, res)\n\
                  res.body = 'body kept'\n\
                  res.headers['X-Ok'] = '1'\n\
                  res.headers['X-B\u{e4}d'] = '2'\n\
                  res.headers['X-Val'] = 'bad\u{e4}value'\n\
                  res.headers['X-Also-Ok'] = '3'\n\
                  end\n\
                  }";
    let (_, result) = run_pipeline(script, "scripts/t.lua", &get_request());
    let resp = result.unwrap();
    assert_eq!(resp.body, "body kept");
    assert_eq!(header_value(&resp.headers, "X-Ok"), Some("1".to_string()));
    assert_eq!(
        header_value(&resp.headers, "X-Also-Ok"),
        Some("3".to_string())
    );
    assert_eq!(header_value(&resp.headers, "X-B\u{e4}d"), None);
    assert_eq!(header_value(&resp.headers, "X-Val"), None);
}

#[test]
fn unreadable_final_status_means_failure() {
    let script = "return {\n\
                  handler = function(req, res)\n\
                  res.status = nil\n\
                  res.body = 'x'\n\
                  end\n\
                  }";
    let (_, result) = run_pipeline(script, "scripts/t.lua", &get_request());
    let resp = result.unwrap();
    assert_eq!(resp.status, 500);
    assert_eq!(resp.body, "x");
}

#[test]
fn unreadable_body_is_a_response_read_error() {
    let script = "return {\n\
                  handler = function(req, res)\n\
                  res.body = nil\n\
                  end\n\
                  }";
    let (report, result) = run_pipeline(script, "scripts/t.lua", &get_request());
    assert!(report.handler_invoked);
    match result {
        Err(PipelineError::ResponseRead(m)) => {
            assert!(m.contains("Failed to get body from response table"));
        }
        other => panic!("expected a response read error, got {:?}", other),
    }
}

#[test]
fn scripts_see_the_request_view() {
    let script = "return {\n\
                  handler = function(req, res)\n\
                  res.body = request.method .. ' ' .. request.path .. ' ' ..\n\
                  request.body .. ' ' .. request.headers['Host']\n\
                  end\n\
                  }";
    let (_, result) = run_pipeline(script, "scripts/t.lua", &get_request());
    assert_eq!(result.unwrap().body, "GET /test ping localhost");
}

#[test]
fn duplicate_request_headers_are_last_write_wins() {
    let req = build_request(
        "GET".to_string(),
        "/".to_string(),
        Vec::new(),
        vec![
            ("X-Dup".to_string(), "first".to_string()),
            ("X-Dup".to_string(), "second".to_string()),
        ],
    );
    let script = "return {\n\
                  handler = function(req, res)\n\
                  res.body = request.headers['X-Dup']\n\
                  end\n\
                  }";
    let (_, result) = run_pipeline(script, "scripts/t.lua", &req);
    assert_eq!(result.unwrap().body, "second");
}

#[test]
fn two_requests_do_not_observe_each_others_response_state() {
    let leaky = "return {\n\
                 middleware = function(req, res)\n\
                 res.headers['X-Leak'] = 'one'\n\
                 res.status = 418\n\
                 end\n\
                 }";
    let plain = "return { handler = function(req, res) res.body = 'two' end }";

    let (_, first) = run_pipeline(leaky, "scripts/one.lua", &get_request());
    let (_, second) = run_pipeline(plain, "scripts/two.lua", &get_request());

    let first = first.unwrap();
    let second = second.unwrap();
    assert_eq!(first.status, 418);
    assert_eq!(second.status, 200);
    assert_eq!(second.body, "two");
    assert_eq!(header_value(&second.headers, "X-Leak"), None);
}
