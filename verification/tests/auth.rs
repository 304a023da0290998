use soroban_testkit::auth::grid::{first_occurrences, grid_verdict, matrix_plan};
use soroban_testkit::base::env::TestEnv;

#[test]
fn known_callers_are_first_occurrences_in_order() {
    let keys: Vec<String> = ["a", "b", "a", "c", "b"].iter().map(|s| s.to_string()).collect();
    assert_eq!(first_occurrences(&keys), vec![0, 1, 3]);
}

#[test]
fn matrix_plan_knows_every_allowed_caller_once() {
    let env = TestEnv::new();
    let owner = env.address();
    let attacker = env.address();
    let plan = matrix_plan(&vec![vec![owner.clone(), attacker.clone()], vec![owner.clone()]]);
    assert_eq!(plan.known, vec![owner, attacker]);
    assert_eq!(plan.expected, vec![vec![true, true], vec![true, false]]);
}

#[test]
fn grid_verdict_names_each_violating_cell_and_shows_the_grid() {
    let names = vec!["deposit".to_string(), "withdraw".to_string()];
    let callers = vec!["owner".to_string(), "attacker".to_string()];
    let expected = vec![vec![true, true], vec![true, false]];
    grid_verdict(&names, &callers, &expected, &expected.clone()).unwrap();

    let actual = vec![vec![true, true], vec![true, true]];
    let message = grid_verdict(&names, &callers, &expected, &actual).unwrap_err().to_string();
    assert_eq!(
        message,
        "assertion failed: auth matrix violated (1 of 4 cells):\n\
         entry point \"withdraw\": caller attacker expected to be rejected but succeeded\n\
         full grid:\n  [deposit]\n    owner: expected=pass actual=pass\n    attacker: expected=pass actual=pass\n\
         \x20 [withdraw]\n    owner: expected=pass actual=pass\n    attacker: expected=reject actual=pass  <-- MISMATCH\n"
    );
}
