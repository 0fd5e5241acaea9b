//! Loading the entities of a query: running it page by page and keeping the
//! rows that the entity's query policy allows, up to the query's limit.
//!
//! The database work is done by the caller; this machine decides what comes
//! next from what the caller reports.
use vstd::prelude::*;

use crate::privacy::{
    decided, PolicyEvaluation, PolicyKind, PolicyStep, PrivacyRuleOutcome,
};

verus! {

/// What the caller does next while loading.
#[derive(Clone, Copy, PartialEq, Eq, Structural)]
pub enum LoadAction {
    /// Run the statement, with this `OFFSET` (`None`: no `OFFSET` clause),
    /// then report each row it returns (`on_row`) and the end of its rows
    /// (`on_page_end`).
    Fetch(Option<u64>),
    /// Evaluate the query rule at this index on the current row, and report
    /// its outcome (`on_outcome`).
    EvaluateRule(usize),
    /// Keep the current row (the policy allowed it), then go on with the rows.
    Keep,
    /// Keep the current row; the results are complete.
    KeepAndFinish,
    /// Drop the current row (a rule denied it), then go on with the rows.
    Discard,
    /// Drop the current row: no rule allowed or denied it. Then go on with the rows.
    DiscardUndecided,
    /// The results are complete.
    Finish,
}

/// Whether `kept` rows reach the limit.
pub open spec fn limit_reached(limit: Option<usize>, kept: usize) -> bool {
    match limit {
        Some(l) => kept >= l,
        None => false,
    }
}

/// The state of a load.
pub struct EntLoader {
    /// The query's limit; `None` loads every row in one statement.
    pub limit: Option<usize>,
    /// The number of rules of the entity's query policy.
    pub rule_count: usize,
    /// The `OFFSET` of the statement being read.
    pub offset: u64,
    /// The rows read from the current statement so far.
    pub page_rows: usize,
    /// The rows kept so far.
    pub kept: usize,
    /// Whether a row's rules are being evaluated.
    pub evaluating: bool,
    /// The evaluation of the current row's rules.
    pub policy: PolicyEvaluation,
    /// Whether the load is complete.
    pub done: bool,
}

impl EntLoader {
    pub open spec fn wf(&self) -> bool {
        &&& self.policy.kind == PolicyKind::Query
        &&& self.policy.rule_count == self.rule_count
        &&& self.evaluating ==> self.policy.awaiting() && !self.done
        &&& self.limit matches Some(l) ==> (!self.done ==> self.kept < l)
        &&& self.limit matches Some(l) ==> self.kept <= l
    }

    /// Waiting for the next row of the current statement, or for its end.
    pub open spec fn awaiting_row(&self) -> bool {
        self.wf() && !self.evaluating && !self.done
    }

    /// Starts loading with the query's limit and a policy of `rule_count` rules.
    /// A limit of 0 loads nothing: the load is complete at once.
    pub fn start(limit: Option<usize>, rule_count: usize) -> (r: (EntLoader, LoadAction))
        ensures
            r.0.wf(),
            r.0.limit == limit,
            r.0.rule_count == rule_count,
            r.0.offset == 0,
            r.0.page_rows == 0,
            r.0.kept == 0,
            limit == Some(0usize) ==> r.1 == LoadAction::Finish && r.0.done,
            limit != Some(0usize) ==> r.1 == LoadAction::Fetch(None) && r.0.awaiting_row(),
    {
        let (policy, _) = PolicyEvaluation::start(PolicyKind::Query, rule_count);
        let nothing = match limit {
            Some(l) => l == 0,
            None => false,
        };
        (
            EntLoader {
                limit,
                rule_count,
                offset: 0,
                page_rows: 0,
                kept: 0,
                evaluating: false,
                policy,
                done: nothing,
            },
            if nothing {
                LoadAction::Finish
            } else {
                LoadAction::Fetch(None)
            },
        )
    }

    /// Reports that the statement returned one more row.
    pub fn on_row(&mut self) -> (r: LoadAction)
        requires
            old(self).awaiting_row(),
            old(self).page_rows < usize::MAX,
        ensures
            final(self).wf(),
            final(self).page_rows == old(self).page_rows + 1,
            final(self).kept == old(self).kept,
            final(self).offset == old(self).offset,
            final(self).limit == old(self).limit,
            final(self).rule_count == old(self).rule_count,
            !final(self).done,
            old(self).rule_count > 0 ==> r == LoadAction::EvaluateRule(0) && final(self).evaluating
                && final(self).policy.seen@.len() == 0,
            old(self).rule_count == 0 ==> r == LoadAction::DiscardUndecided
                && final(self).awaiting_row(),
    {
        self.page_rows = self.page_rows + 1;
        let (policy, step) = PolicyEvaluation::start(PolicyKind::Query, self.rule_count);
        self.policy = policy;
        match step {
            PolicyStep::Evaluate(i) => {
                self.evaluating = true;
                LoadAction::EvaluateRule(i)
            },
            _ => LoadAction::DiscardUndecided,
        }
    }

    /// Reports the outcome of the rule that the last action asked for.
    pub fn on_outcome(&mut self, outcome: PrivacyRuleOutcome) -> (r: LoadAction)
        requires
            old(self).wf(),
            old(self).evaluating,
            old(self).kept < usize::MAX,
        ensures
            final(self).wf(),
            final(self).page_rows == old(self).page_rows,
            final(self).offset == old(self).offset,
            final(self).limit == old(self).limit,
            final(self).rule_count == old(self).rule_count,
            final(self).policy.seen@ == old(self).policy.seen@.push(outcome),
            r matches LoadAction::EvaluateRule(i) ==> i == old(self).policy.next + 1
                && final(self).evaluating && final(self).kept == old(self).kept,
            r == LoadAction::Keep || r == LoadAction::KeepAndFinish ==> decided(
                PolicyKind::Query,
                old(self).rule_count as nat,
                final(self).policy.seen@,
                true,
            ) && final(self).kept == old(self).kept + 1,
            r == LoadAction::Discard || r == LoadAction::DiscardUndecided ==> decided(
                PolicyKind::Query,
                old(self).rule_count as nat,
                final(self).policy.seen@,
                false,
            ) && final(self).kept == old(self).kept,
            // a row is kept exactly when its first deciding rule allows it
            (r == LoadAction::Keep || r == LoadAction::KeepAndFinish) <==> outcome
                == PrivacyRuleOutcome::Allow,
            r == LoadAction::Discard <==> outcome == PrivacyRuleOutcome::Deny,
            // the load stops once the limit is reached
            r == LoadAction::KeepAndFinish <==> (r == LoadAction::Keep
                || r == LoadAction::KeepAndFinish) && limit_reached(old(self).limit, final(self).kept),
            r == LoadAction::KeepAndFinish ==> final(self).done,
            r != LoadAction::KeepAndFinish ==> !final(self).done,
            r is Fetch ==> false,
            r == LoadAction::Finish ==> false,
            !(r is EvaluateRule) ==> !final(self).evaluating,
    {
        let step = self.policy.on_outcome(outcome);
        match step {
            PolicyStep::Evaluate(i) => LoadAction::EvaluateRule(i),
            PolicyStep::Allowed => {
                self.evaluating = false;
                self.kept = self.kept + 1;
                match self.limit {
                    Some(l) => {
                        if self.kept >= l {
                            self.done = true;
                            LoadAction::KeepAndFinish
                        } else {
                            LoadAction::Keep
                        }
                    },
                    None => LoadAction::Keep,
                }
            },
            PolicyStep::Denied => {
                self.evaluating = false;
                match outcome {
                    PrivacyRuleOutcome::Deny => LoadAction::Discard,
                    _ => LoadAction::DiscardUndecided,
                }
            },
        }
    }

    /// Reports that the statement returned no more rows.
    pub fn on_page_end(&mut self) -> (r: LoadAction)
        requires
            old(self).awaiting_row(),
            old(self).limit matches Some(l) ==> old(self).offset + l <= u64::MAX,
        ensures
            final(self).wf(),
            final(self).kept == old(self).kept,
            final(self).limit == old(self).limit,
            final(self).rule_count == old(self).rule_count,
            // without a limit, one statement loads every row
            old(self).limit is None ==> r == LoadAction::Finish && final(self).done,
            // a statement that returned fewer rows than the limit was the last
            old(self).limit matches Some(l) ==> (old(self).page_rows < l ==> r == LoadAction::Finish
                && final(self).done),
            // otherwise the next page is loaded
            old(self).limit matches Some(l) ==> (old(self).page_rows >= l ==> r == LoadAction::Fetch(
                Some((old(self).offset + l) as u64),
            ) && final(self).offset == old(self).offset + l && final(self).page_rows == 0
                && final(self).awaiting_row()),
    {
        match self.limit {
            Some(l) => {
                if self.page_rows < l {
                    self.done = true;
                    LoadAction::Finish
                } else {
                    self.offset = self.offset + l as u64;
                    self.page_rows = 0;
                    LoadAction::Fetch(Some(self.offset))
                }
            },
            None => {
                self.done = true;
                LoadAction::Finish
            },
        }
    }
}

/// What loading one entity by primary key does next.
#[derive(Clone, Copy, PartialEq, Eq, Structural)]
pub enum CachedLoadAction {
    /// The cache does not hold the entity: run the primary-key query and
    /// load its only entity.
    RunQuery,
    /// Evaluate the query rule at this index on the cached entity, and report
    /// its outcome (`on_outcome`).
    EvaluateRule(usize),
    /// The policy allows the cached entity: it is the result.
    ReturnCached,
    /// The policy does not allow the cached entity: no result.
    NoResults,
}

/// Loading one entity by primary key: from the cache when it holds it, with
/// the entity's query policy applied, else by the primary-key query.
pub struct CachedLoad {
    pub policy: PolicyEvaluation,
}

impl CachedLoad {
    /// Waiting for the outcome of a rule on the cached entity.
    pub open spec fn awaiting(&self) -> bool {
        self.policy.kind == PolicyKind::Query && self.policy.awaiting()
    }

    /// Starts a load whose entity the cache holds (`cached`) or not, for a
    /// query policy of `rule_count` rules.
    pub fn start(cached: bool, rule_count: usize) -> (r: (CachedLoad, CachedLoadAction))
        ensures
            r.0.policy.kind == PolicyKind::Query,
            r.0.policy.rule_count == rule_count,
            r.0.policy.seen@ == Seq::<PrivacyRuleOutcome>::empty(),
            !cached ==> r.1 == CachedLoadAction::RunQuery,
            cached && rule_count > 0 ==> r.1 == CachedLoadAction::EvaluateRule(0) && r.0.awaiting(),
            // a policy without rules lets no entity through
            cached && rule_count == 0 ==> r.1 == CachedLoadAction::NoResults,
    {
        let (policy, step) = PolicyEvaluation::start(PolicyKind::Query, rule_count);
        let action = if !cached {
            CachedLoadAction::RunQuery
        } else {
            match step {
                PolicyStep::Evaluate(i) => CachedLoadAction::EvaluateRule(i),
                PolicyStep::Allowed => CachedLoadAction::ReturnCached,
                PolicyStep::Denied => CachedLoadAction::NoResults,
            }
        };
        (CachedLoad { policy }, action)
    }

    /// Reports the outcome of the rule that the last action asked for.
    pub fn on_outcome(&mut self, outcome: PrivacyRuleOutcome) -> (r: CachedLoadAction)
        requires
            old(self).awaiting(),
        ensures
            final(self).policy.kind == PolicyKind::Query,
            final(self).policy.rule_count == old(self).policy.rule_count,
            final(self).policy.seen@ == old(self).policy.seen@.push(outcome),
            r != CachedLoadAction::RunQuery,
            r matches CachedLoadAction::EvaluateRule(i) ==> i == old(self).policy.next + 1
                && final(self).awaiting(),
            // the cached entity is the result exactly when the first rule
            // that decides allows it
            r == CachedLoadAction::ReturnCached <==> outcome == PrivacyRuleOutcome::Allow,
            r == CachedLoadAction::ReturnCached ==> decided(
                PolicyKind::Query,
                old(self).policy.rule_count as nat,
                final(self).policy.seen@,
                true,
            ),
            r == CachedLoadAction::NoResults ==> decided(
                PolicyKind::Query,
                old(self).policy.rule_count as nat,
                final(self).policy.seen@,
                false,
            ),
    {
        match self.policy.on_outcome(outcome) {
            PolicyStep::Evaluate(i) => CachedLoadAction::EvaluateRule(i),
            PolicyStep::Allowed => CachedLoadAction::ReturnCached,
            PolicyStep::Denied => CachedLoadAction::NoResults,
        }
    }
}

} // verus!
