use resent::privacy::{
    AlwaysAllowRule, AlwaysDenyRule, EntPrivacyRule, PolicyEvaluation, PolicyKind, PolicyStep,
    PrivacyRuleOutcome,
};
use resent::query::loader::{CachedLoad, CachedLoadAction, EntLoader, LoadAction};
use resent::query::{first_result, only_result, EntLoadOnlyError};

use PrivacyRuleOutcome::{Allow, Deny, Skip};

/// Runs a policy of the given kind over `outcomes`, returning the final
/// step and the number of rules that were evaluated.
fn run_policy(kind: PolicyKind, outcomes: &[PrivacyRuleOutcome]) -> (PolicyStep, usize) {
    let (mut eval, mut step) = PolicyEvaluation::start(kind, outcomes.len());
    let mut evaluated = 0;
    while let PolicyStep::Evaluate(i) = step {
        assert_eq!(i, evaluated);
        evaluated += 1;
        step = eval.on_outcome(outcomes[i]);
    }
    (step, evaluated)
}

#[test]
fn query_policy_first_decisive_rule_wins() {
    assert!(run_policy(PolicyKind::Query, &[Skip, Allow, Deny]) == (PolicyStep::Allowed, 2));
    assert!(run_policy(PolicyKind::Query, &[Skip, Deny, Allow]) == (PolicyStep::Denied, 2));
    assert!(run_policy(PolicyKind::Query, &[Allow, Deny]) == (PolicyStep::Allowed, 1));
}

#[test]
fn query_policy_without_a_decision_denies() {
    assert!(run_policy(PolicyKind::Query, &[Skip, Skip, Skip]) == (PolicyStep::Denied, 3));
    assert!(run_policy(PolicyKind::Query, &[]) == (PolicyStep::Denied, 0));
}

#[test]
fn mutation_policy_is_refused_by_any_denial() {
    assert!(run_policy(PolicyKind::Mutation, &[Allow, Skip, Deny]) == (PolicyStep::Denied, 3));
    assert!(run_policy(PolicyKind::Mutation, &[Deny, Allow]) == (PolicyStep::Denied, 1));
}

#[test]
fn mutation_policy_allows_without_a_denial() {
    // an allowing rule does not stop the evaluation of a mutation policy
    assert!(run_policy(PolicyKind::Mutation, &[Allow, Allow]) == (PolicyStep::Allowed, 2));
    assert!(run_policy(PolicyKind::Mutation, &[Skip, Skip]) == (PolicyStep::Allowed, 2));
    assert!(run_policy(PolicyKind::Mutation, &[]) == (PolicyStep::Allowed, 0));
}

/// Loads from `pages` (each page a list of rows, each row the outcomes of its
/// rules), returning the rows kept (page, row) and the offsets fetched.
fn run_load(
    limit: Option<usize>,
    rule_count: usize,
    pages: &[Vec<Vec<PrivacyRuleOutcome>>],
) -> (Vec<(usize, usize)>, Vec<Option<u64>>, usize) {
    let (mut loader, mut action) = EntLoader::start(limit, rule_count);
    let mut kept = Vec::new();
    let mut fetched = Vec::new();
    let mut undecided = 0;
    let mut page = 0;
    loop {
        match action {
            LoadAction::Fetch(offset) => {
                fetched.push(offset);
                let rows = pages.get(page).cloned().unwrap_or_default();
                action = LoadAction::Finish;
                let mut finished = false;
                for (r, outcomes) in rows.iter().enumerate() {
                    let mut a = loader.on_row();
                    loop {
                        match a {
                            LoadAction::EvaluateRule(i) => a = loader.on_outcome(outcomes[i]),
                            LoadAction::Keep => {
                                kept.push((page, r));
                                break;
                            }
                            LoadAction::KeepAndFinish => {
                                kept.push((page, r));
                                finished = true;
                                break;
                            }
                            LoadAction::Discard => break,
                            LoadAction::DiscardUndecided => {
                                undecided += 1;
                                break;
                            }
                            _ => panic!("unexpected action while reading a row"),
                        }
                    }
                    if finished {
                        break;
                    }
                }
                if finished {
                    break;
                }
                action = loader.on_page_end();
                page += 1;
            }
            LoadAction::Finish => break,
            _ => panic!("unexpected action between pages"),
        }
    }
    (kept, fetched, undecided)
}

#[test]
fn load_pages_until_the_limit_is_reached() {
    let pages = vec![
        vec![vec![Deny], vec![Allow]],
        vec![vec![Skip], vec![Deny]],
        vec![vec![Allow], vec![Allow]],
    ];
    let (kept, fetched, undecided) = run_load(Some(2), 1, &pages);
    assert_eq!(kept, vec![(0, 1), (2, 0)]);
    assert_eq!(fetched, vec![None, Some(2), Some(4)]);
    assert_eq!(undecided, 1);
}

#[test]
fn load_stops_after_a_short_page() {
    let pages = vec![vec![vec![Allow]], vec![vec![Allow]]];
    let (kept, fetched, _) = run_load(Some(3), 1, &pages);
    assert_eq!(kept, vec![(0, 0)]);
    assert_eq!(fetched, vec![None]);
}

#[test]
fn load_without_limit_reads_one_statement() {
    let pages = vec![vec![vec![Allow], vec![Skip, Allow], vec![Skip, Deny]]];
    let (kept, fetched, _) = run_load(None, 2, &pages);
    assert_eq!(kept, vec![(0, 0), (0, 1)]);
    assert_eq!(fetched, vec![None]);
}

#[test]
fn load_without_rules_keeps_nothing() {
    let pages = vec![vec![vec![], vec![]]];
    let (kept, _, undecided) = run_load(None, 0, &pages);
    assert!(kept.is_empty());
    assert_eq!(undecided, 2);
}

#[test]
fn only_result_needs_exactly_one() {
    assert!(matches!(only_result(Vec::<i32>::new()), Err(EntLoadOnlyError::NoResults)));
    assert!(matches!(only_result(vec![7]), Ok(7)));
    assert!(matches!(only_result(vec![7, 8]), Err(EntLoadOnlyError::TooManyResults)));
}

#[test]
fn first_result_takes_the_loaded_entity() {
    assert_eq!(first_result(Vec::<i32>::new()), None);
    assert_eq!(first_result(vec![5]), Some(5));
}

#[test]
fn constant_rules_give_their_outcome() {
    assert!(EntPrivacyRule::<()>::evaluation(&AlwaysAllowRule, &()) == Allow);
    assert!(EntPrivacyRule::<()>::evaluation(&AlwaysDenyRule, &()) == Deny);
}

#[test]
fn load_with_limit_zero_fetches_nothing() {
    let pages = vec![vec![vec![Allow]]];
    let (kept, fetched, _) = run_load(Some(0), 1, &pages);
    assert!(kept.is_empty());
    assert!(fetched.is_empty());
    let (loader, action) = EntLoader::start(Some(0), 1);
    assert!(action == LoadAction::Finish);
    assert!(loader.done);
}

#[test]
fn cached_load_applies_the_query_policy() {
    let (_, action) = CachedLoad::start(false, 2);
    assert!(action == CachedLoadAction::RunQuery);
    let (_, action) = CachedLoad::start(true, 0);
    assert!(action == CachedLoadAction::NoResults);
    let (mut load, action) = CachedLoad::start(true, 2);
    assert!(action == CachedLoadAction::EvaluateRule(0));
    assert!(load.on_outcome(Skip) == CachedLoadAction::EvaluateRule(1));
    assert!(load.on_outcome(Allow) == CachedLoadAction::ReturnCached);
    let (mut load, _) = CachedLoad::start(true, 2);
    assert!(load.on_outcome(Skip) == CachedLoadAction::EvaluateRule(1));
    assert!(load.on_outcome(Skip) == CachedLoadAction::NoResults);
}
