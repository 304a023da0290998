use std::cell::Cell;

use soroban_testkit::cli::args::{CliError, CoverageArgs, Format};
use soroban_testkit::cli::contract_spec::{classify, load_spec, spec_failure, SpecReadError, SpecTypeTag};
use soroban_testkit::cli::coverage::coverage_command_args;
use soroban_testkit::cli::limits::{
    find_ceiling, locate_function, locate_param, plan_args, ArgPlan, Numeric, ParamSpec, ParamType,
    RAMP_CAP,
};

#[test]
fn find_ceiling_finds_the_threshold_of_a_monotone_probe() {
    for t in [1u32, 2, 3, 7, 40, 1_000, 65_537] {
        let calls = Cell::new(0u32);
        let best = find_ceiling("execute_equal", "recipients", |v| {
            calls.set(calls.get() + 1);
            Ok(v <= t)
        }).0
        .unwrap();
        assert_eq!(best, t);
        assert!(calls.get() <= 50);
    }
}

#[test]
fn find_ceiling_stops_at_the_cap() {
    let best = find_ceiling("f", "n", |_| Ok(true)).0.unwrap();
    assert_eq!(best, RAMP_CAP);
}

#[test]
fn find_ceiling_reports_failure_at_the_smallest_value() {
    let err = find_ceiling("execute_equal", "recipients", |_| Ok(false)).0.unwrap_err();
    assert_eq!(
        err.0,
        "\"execute_equal\" failed even at the smallest ramp value (1) for parameter \"recipients\""
    );
}

#[test]
fn find_ceiling_passes_probe_errors_through() {
    let err = find_ceiling("f", "n", |v| {
        if v < 8 {
            Ok(true)
        } else {
            Err(CliError("failed to spawn probe".to_string()))
        }
    }).0
    .unwrap_err();
    assert_eq!(err.0, "failed to spawn probe");
}

#[test]
fn coverage_args_follow_the_options() {
    let text = coverage_command_args(&CoverageArgs { format: Format::Text, fail_under: None, open: false });
    assert_eq!(text, vec!["llvm-cov", "test"]);
    let lcov = coverage_command_args(&CoverageArgs {
        format: Format::Lcov,
        fail_under: Some("80".to_string()),
        open: false,
    });
    assert_eq!(
        lcov,
        vec!["llvm-cov", "test", "--lcov", "--output-path", "lcov.info", "--fail-under-lines", "80"]
    );
    let open_text = coverage_command_args(&CoverageArgs { format: Format::Text, fail_under: None, open: true });
    assert_eq!(open_text, vec!["llvm-cov", "test", "--html", "--open"]);
    let open_html = coverage_command_args(&CoverageArgs { format: Format::Html, fail_under: None, open: true });
    assert_eq!(open_html, vec!["llvm-cov", "test", "--html", "--open"]);
}

fn param(name: &str, kind: ParamType) -> ParamSpec {
    ParamSpec { name: name.to_string(), kind, type_text: format!("{kind:?}") }
}

#[test]
fn plan_args_fills_defaults_and_the_ramp() {
    let params = vec![
        param("funder", ParamType::Address),
        param("token", ParamType::Address),
        param("recipients", ParamType::Vec { of_address: true }),
        param("amount_each", ParamType::Number(Numeric::I128)),
        param("memo", ParamType::Symbol),
    ];
    let plans = plan_args(&params, 2).unwrap();
    assert_eq!(
        plans,
        vec![
            ArgPlan::Admin,
            ArgPlan::FundedToken,
            ArgPlan::RampAddresses,
            ArgPlan::One(Numeric::I128),
            ArgPlan::SymbolX,
        ]
    );
}

#[test]
fn plan_args_reports_the_first_unsupported_parameter() {
    let params = vec![
        param("a", ParamType::Other),
        param("n", ParamType::Bool),
    ];
    assert_eq!(
        plan_args(&params, 1).unwrap_err().0,
        "parameter \"a\" has type Other, which this command doesn't know how to default yet; only the --ramp parameter needs a type this command understands today, every other parameter needs a supported default type"
    );
    assert_eq!(
        plan_args(&params, 0).unwrap_err().0,
        "the ramp parameter's type (Other) isn't supported yet; supported ramp types are u32/i32/u64/i64/u128/i128 and Vec<Address>"
    );
}

#[test]
fn locating_functions_and_parameters() {
    let entries = vec![None, Some("init".to_string()), Some("pay".to_string())];
    assert_eq!(locate_function(&entries, "pay", "c.wasm").unwrap(), 2);
    assert_eq!(
        locate_function(&entries, "nope", "c.wasm").unwrap_err().0,
        "no function named \"nope\" in c.wasm's spec"
    );
    let params = vec![param("to", ParamType::Address), param("n", ParamType::Number(Numeric::U32))];
    assert_eq!(locate_param(&params, "pay", "n").unwrap(), 1);
    assert_eq!(
        locate_param(&params, "pay", "count").unwrap_err().0,
        "\"pay\" has no parameter named \"count\""
    );
}

#[test]
fn spec_types_classify_as_the_command_distinguishes_them() {
    assert_eq!(classify(SpecTypeTag::I128, None), ParamType::Number(Numeric::I128));
    assert_eq!(classify(SpecTypeTag::Str, None), ParamType::Str);
    assert_eq!(
        classify(SpecTypeTag::Vec, Some(SpecTypeTag::Address)),
        ParamType::Vec { of_address: true }
    );
    assert_eq!(
        classify(SpecTypeTag::Vec, Some(SpecTypeTag::U32)),
        ParamType::Vec { of_address: false }
    );
    assert_eq!(classify(SpecTypeTag::Other, None), ParamType::Other);
}

#[test]
fn spec_failures_name_what_went_wrong() {
    assert_eq!(spec_failure(SpecReadError::NotFound).0, "failed to read contract spec: contract spec not found");
    assert_eq!(spec_failure(SpecReadError::Read).0, "failed to read contract spec: reading wasm");
}

#[test]
fn load_spec_rejects_bytes_that_are_not_wasm() {
    let err = load_spec(b"not wasm", "f", "n", "c.wasm").unwrap_err();
    assert!(err.0.starts_with("failed to read contract spec: "), "{}", err.0);
}

#[test]
fn find_ceiling_stays_below_the_first_failing_power_of_two() {
    let best = find_ceiling("f", "n", |v| Ok(v != 8 && v <= 100)).0.unwrap();
    assert!((4..8).contains(&best));
    assert_eq!(best, 7);
}

#[test]
fn find_ceiling_spends_two_probes_per_power_of_two() {
    for (t, k) in [(1u32, 1u32), (2, 2), (3, 2), (7, 3), (40, 6), (65_537, 17)] {
        let calls = Cell::new(0u32);
        let best = find_ceiling("f", "n", |v| {
            calls.set(calls.get() + 1);
            Ok(v <= t)
        }).0
        .unwrap();
        assert_eq!(best, t);
        assert_eq!(calls.get(), 2 * k);
    }
    let calls = Cell::new(0u32);
    assert_eq!(find_ceiling("f", "n", |_| { calls.set(calls.get() + 1); Ok(true) }).0.unwrap(), RAMP_CAP);
    assert_eq!(calls.get(), 25);
    let calls = Cell::new(0u32);
    assert!(find_ceiling("f", "n", |_| { calls.set(calls.get() + 1); Ok(false) }).0.is_err());
    assert_eq!(calls.get(), 1);
}

#[test]
fn the_funded_token_holds_half_of_i128_max() {
    assert_eq!(soroban_testkit::cli::limits::FUNDING_AMOUNT, i128::MAX / 2);
}
