use aria::afw::pipeline_executor::{
    failed_result, skip_result, with_step_output, AttemptNext, PipelineError, PipelineExecutor, PipelineRun,
    PipelineStatus, StepAttempts, StepResult,
};
use aria::aria::types::PipelineStep;
use aria::json::{JsonNumber, JsonValue};

fn make_step(name: &str, deps: &[&str]) -> PipelineStep {
    PipelineStep {
        name: name.into(),
        execute: "agent:test".into(),
        params: JsonValue::Object(vec![]),
        depends_on: deps.iter().map(|s| s.to_string()).collect(),
        condition: None,
        max_retries: None,
        timeout_secs: None,
    }
}

fn result(name: &str, status: &str) -> StepResult {
    StepResult {
        step_name: name.into(),
        status: status.into(),
        output: None,
        error: None,
        duration_ms: 0,
        retries_used: 0,
    }
}

#[test]
fn topological_sort_linear() {
    let steps = vec![make_step("a", &[]), make_step("b", &["a"]), make_step("c", &["b"])];
    let executor = PipelineExecutor::new();
    let order = executor.topological_sort(&steps).unwrap();
    assert_eq!(order, vec!["a", "b", "c"]);
}

#[test]
fn topological_sort_diamond() {
    let steps = vec![
        make_step("a", &[]),
        make_step("b", &["a"]),
        make_step("c", &["a"]),
        make_step("d", &["b", "c"]),
    ];
    let executor = PipelineExecutor::new();
    let order = executor.topological_sort(&steps).unwrap();
    assert_eq!(order[0], "a");
    assert_eq!(order[3], "d");
}

#[test]
fn topological_sort_cycle_detected() {
    let steps = vec![make_step("a", &["c"]), make_step("b", &["a"]), make_step("c", &["b"])];
    let executor = PipelineExecutor::new();
    let result = executor.topological_sort(&steps);
    assert!(result.is_err());
    match result {
        Err(PipelineError::InvalidConfig(m)) => assert_eq!(m, "cycle detected in pipeline steps"),
        _ => panic!("expected a cycle error"),
    }
}

#[test]
fn topological_sort_puts_every_dependency_first() {
    let steps = vec![
        make_step("report", &["fetch", "clean"]),
        make_step("clean", &["fetch"]),
        make_step("fetch", &[]),
    ];
    let executor = PipelineExecutor::new();
    let order = executor.topological_sort(&steps).unwrap();
    assert_eq!(order, vec!["fetch", "clean", "report"]);
}

#[test]
fn validate_dag_reports_unknown_dependency() {
    let steps = vec![make_step("a", &[]), make_step("b", &["missing"])];
    let executor = PipelineExecutor::new();
    match executor.validate_dag(&steps) {
        Err(PipelineError::InvalidConfig(m)) => {
            assert_eq!(m, "step 'b' depends on unknown step 'missing'")
        },
        _ => panic!("expected an unknown dependency"),
    }
    assert!(executor.validate_dag(&vec![make_step("a", &[])]).is_ok());
}

#[test]
fn condition_evaluation() {
    let executor = PipelineExecutor::new();
    let completed = vec![result("step_a", "completed")];
    assert!(executor.evaluate_condition("step_a.status == completed", &completed, &JsonValue::Object(vec![])));
    assert!(!executor.evaluate_condition("step_a.status == failed", &completed, &JsonValue::Object(vec![])));
}

#[test]
fn condition_uses_latest_result_and_defaults_to_true() {
    let executor = PipelineExecutor::new();
    let completed = vec![result("s", "failed"), result("s", "completed")];
    let vars = JsonValue::Object(vec![]);
    assert!(executor.evaluate_condition("s.status == completed", &completed, &vars));
    assert!(executor.evaluate_condition("unrelated expression", &completed, &vars));
    assert!(executor.evaluate_condition("other.status == completed", &completed, &vars));
    assert!(!executor.evaluate_condition("s.kind == completed", &completed, &vars));
    assert!(executor.evaluate_condition("s.status != failed", &completed, &vars));
}

#[test]
fn run_gates_on_failed_dependency_and_condition() {
    let executor = PipelineExecutor::new();
    let vars = JsonValue::Object(vec![]);
    let mut run = PipelineRun::new();
    run.record(failed_result("a", "boom".to_string()));
    let b = make_step("b", &["a"]);
    assert_eq!(run.gate(&executor, &b, &vars).unwrap(), true);
    assert_eq!(run.results().len(), 2);
    assert_eq!(run.results()[1].status, "skipped");
    assert_eq!(run.results()[1].error, Some("dependency 'a' failed".to_string()));

    let mut c = make_step("c", &[]);
    c.condition = Some("a.status == completed".to_string());
    assert_eq!(run.gate(&executor, &c, &vars).unwrap(), false);
    assert_eq!(run.results()[2].status, "skipped");
    assert_eq!(run.results()[2].error, None);

    let d = make_step("d", &["never"]);
    match run.gate(&executor, &d, &vars) {
        Err(PipelineError::DependencyFailed { step, dependency }) => {
            assert_eq!(step, "d");
            assert_eq!(dependency, "never");
        },
        _ => panic!("expected a missing dependency"),
    }
}

#[test]
fn outcome_is_partial_with_failures_and_successes() {
    let mut run = PipelineRun::new();
    let mut ok = result("a", "completed");
    ok.output = Some("done".to_string());
    run.record(ok);
    run.record(failed_result("b", "boom".to_string()));
    let o = run.outcome();
    assert_eq!(o.status, PipelineStatus::PartialSuccess);
    assert_eq!(o.status_str, "partial");
    assert_eq!(o.error, Some("one or more steps failed"));
    assert_eq!(o.final_output, None);

    let mut only_ok = PipelineRun::new();
    let mut r = result("a", "completed");
    r.output = Some("out".to_string());
    only_ok.record(r);
    let o2 = only_ok.outcome();
    assert_eq!(o2.status, PipelineStatus::Completed);
    assert_eq!(o2.final_output, Some("out".to_string()));
    assert_eq!(o2.error, None);

    let mut failed = PipelineRun::new();
    failed.record(failed_result("x", "e".to_string()));
    assert_eq!(failed.outcome().status, PipelineStatus::Failed);

    let mut skipped = PipelineRun::new();
    skipped.record(skip_result("s", None));
    assert_eq!(skipped.outcome().status, PipelineStatus::Completed);
}

#[test]
fn attempts_retry_until_success() {
    let mut step = make_step("a", &[]);
    step.max_retries = Some(2);
    let mut attempts = StepAttempts::new(&step);
    let e = PipelineError::StepFailed { step: "a".to_string(), reason: "x".to_string() };
    match attempts.after("a", Err(e)) {
        AttemptNext::Retry { attempt } => assert_eq!(attempt, 1),
        _ => panic!("expected a retry"),
    }
    match attempts.after("a", Ok(("out".to_string(), 12))) {
        AttemptNext::Finished(Ok(r)) => {
            assert_eq!(r.status, "completed");
            assert_eq!(r.output, Some("out".to_string()));
            assert_eq!(r.retries_used, 1);
            assert_eq!(r.duration_ms, 12);
        },
        _ => panic!("expected a result"),
    }
}

#[test]
fn attempts_without_policy_run_once() {
    let step = make_step("a", &[]);
    let mut attempts = StepAttempts::new(&step);
    let e = PipelineError::StepFailed { step: "a".to_string(), reason: "x".to_string() };
    match attempts.after("a", Err(e)) {
        AttemptNext::Finished(Err(PipelineError::StepFailed { reason, .. })) => assert_eq!(reason, "x"),
        _ => panic!("expected the error"),
    }
}

#[test]
fn step_output_is_stored_under_step_name() {
    let vars = JsonValue::Object(vec![("input".to_string(), JsonValue::String("hi".to_string()))]);
    let v = with_step_output(vars, "a", JsonValue::Number(JsonNumber::PosInt(3)));
    match &v {
        JsonValue::Object(m) => {
            assert_eq!(m.len(), 2);
            assert_eq!(m[1].0, "a");
        },
        _ => panic!("expected an object"),
    }
    assert_eq!(v.get("a").unwrap().as_u64(), Some(3));
    assert_eq!(v.get("input").unwrap().as_str(), Some("hi"));
    let v2 = with_step_output(v, "a", JsonValue::Bool(true));
    assert_eq!(v2.get("a").unwrap().as_bool(), Some(true));
    let not_object = with_step_output(JsonValue::Null, "a", JsonValue::Bool(true));
    assert!(matches!(not_object, JsonValue::Null));
}

#[test]
fn pipeline_without_steps_is_refused() {
    let executor = PipelineExecutor::new();
    match executor.require_steps(&vec![]) {
        Err(PipelineError::InvalidConfig(m)) => assert_eq!(m, "pipeline has no steps"),
        _ => panic!("expected a configuration error"),
    }
    assert!(executor.require_steps(&vec![make_step("a", &[])]).is_ok());
}

#[test]
fn topological_sort_takes_ready_steps_from_the_top_of_the_stack() {
    let executor = PipelineExecutor::new();
    let independent = vec![make_step("a", &[]), make_step("b", &[])];
    assert_eq!(executor.topological_sort(&independent).unwrap(), vec!["b", "a"]);
    let diamond = vec![
        make_step("a", &[]),
        make_step("b", &["a"]),
        make_step("c", &["a"]),
        make_step("d", &["b", "c"]),
    ];
    assert_eq!(executor.topological_sort(&diamond).unwrap(), vec!["a", "c", "b", "d"]);
}
