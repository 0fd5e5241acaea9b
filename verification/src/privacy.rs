//! Privacy rules and policies: which entities a viewer may load, and which
//! mutations a viewer may apply.
use vstd::prelude::*;

use crate::Ent;

verus! {

/// What one privacy rule says of an entity.
#[derive(Clone, Copy, PartialEq, Eq, Structural)]
pub enum PrivacyRuleOutcome {
    Allow,
    Deny,
    /// The rule does not decide; the next rule does.
    Skip,
}

/// A rule that decides whether an entity may be loaded.
pub trait EntQueryPrivacyRule<T, TCtx> {
    /// Whether the rule may give `outcome` for `ent` in the context `ctx`.
    spec fn may_decide_query(&self, ctx: &TCtx, ent: &T, outcome: PrivacyRuleOutcome) -> bool;

    fn evaluation(&self, ctx: &TCtx, ent: &T) -> (r: PrivacyRuleOutcome)
        ensures
            self.may_decide_query(ctx, ent, r),
    ;
}

/// A rule that decides whether an entity may be mutated.
pub trait EntMutationPrivacyRule<T, TCtx> {
    /// Whether the rule may give `outcome` for `ent` in the context `ctx`.
    spec fn may_decide_mutation(&self, ctx: &TCtx, ent: &T, outcome: PrivacyRuleOutcome) -> bool;

    fn evaluation(&self, ctx: &TCtx, ent: &T) -> (r: PrivacyRuleOutcome)
        ensures
            self.may_decide_mutation(ctx, ent, r),
    ;
}

/// A rule that decides on the context alone, whatever the entity; it serves
/// as a query rule and as a mutation rule.
pub trait EntPrivacyRule<TCtx> {
    /// Whether the rule may give `outcome` in the context `ctx`.
    spec fn may_decide(&self, ctx: &TCtx, outcome: PrivacyRuleOutcome) -> bool;

    fn evaluation(&self, ctx: &TCtx) -> (r: PrivacyRuleOutcome)
        ensures
            self.may_decide(ctx, r),
    ;
}

/// As a query rule, a context rule gives what it gives on the context.
impl<TEnt: Ent, T: EntPrivacyRule<TCtx>, TCtx> EntQueryPrivacyRule<TEnt, TCtx> for T {
    open spec fn may_decide_query(
        &self,
        ctx: &TCtx,
        ent: &TEnt,
        outcome: PrivacyRuleOutcome,
    ) -> bool {
        <T as EntPrivacyRule<TCtx>>::may_decide(self, ctx, outcome)
    }

    fn evaluation(&self, ctx: &TCtx, _ent: &TEnt) -> (r: PrivacyRuleOutcome) {
        EntPrivacyRule::evaluation(self, ctx)
    }
}

/// As a mutation rule, a context rule gives what it gives on the context.
impl<TEnt: Ent, T: EntPrivacyRule<TCtx>, TCtx> EntMutationPrivacyRule<TEnt, TCtx> for T {
    open spec fn may_decide_mutation(
        &self,
        ctx: &TCtx,
        ent: &TEnt,
        outcome: PrivacyRuleOutcome,
    ) -> bool {
        <T as EntPrivacyRule<TCtx>>::may_decide(self, ctx, outcome)
    }

    fn evaluation(&self, ctx: &TCtx, _ent: &TEnt) -> (r: PrivacyRuleOutcome) {
        EntPrivacyRule::evaluation(self, ctx)
    }
}

/// A rule that allows everything.
pub struct AlwaysAllowRule;

impl<TCtx> EntPrivacyRule<TCtx> for AlwaysAllowRule {
    open spec fn may_decide(&self, ctx: &TCtx, outcome: PrivacyRuleOutcome) -> bool {
        outcome == PrivacyRuleOutcome::Allow
    }

    fn evaluation(&self, _ctx: &TCtx) -> (r: PrivacyRuleOutcome) {
        PrivacyRuleOutcome::Allow
    }
}

/// A rule that denies everything.
pub struct AlwaysDenyRule;

impl<TCtx> EntPrivacyRule<TCtx> for AlwaysDenyRule {
    open spec fn may_decide(&self, ctx: &TCtx, outcome: PrivacyRuleOutcome) -> bool {
        outcome == PrivacyRuleOutcome::Deny
    }

    fn evaluation(&self, _ctx: &TCtx) -> (r: PrivacyRuleOutcome) {
        PrivacyRuleOutcome::Deny
    }
}

/// The privacy policy of an entity: its query rules and its mutation rules,
/// each list evaluated in order.
pub trait EntPrivacyPolicy<TCtx>: Sized {
    fn query_policy() -> Vec<Box<dyn EntQueryPrivacyRule<Self, TCtx>>>;

    fn mutation_policy() -> Vec<Box<dyn EntMutationPrivacyRule<Self, TCtx>>>;
}

/// Which of the two ways of combining rule outcomes applies.
#[derive(Clone, Copy, PartialEq, Eq, Structural)]
pub enum PolicyKind {
    /// Loading: the first rule that allows or denies decides; when every rule
    /// skips, the entity is not loaded.
    Query,
    /// Mutating: any rule that denies refuses the mutation; otherwise, also
    /// when every rule skips, the mutation goes ahead.
    Mutation,
}

/// The verdict of the first rule that allows or denies: `Some(true)` for
/// allow, `Some(false)` for deny, `None` when every outcome is `Skip`.
pub open spec fn first_verdict(outcomes: Seq<PrivacyRuleOutcome>) -> Option<bool>
    decreases outcomes.len(),
{
    if outcomes.len() == 0 {
        None
    } else {
        match outcomes[0] {
            PrivacyRuleOutcome::Allow => Some(true),
            PrivacyRuleOutcome::Deny => Some(false),
            PrivacyRuleOutcome::Skip => first_verdict(outcomes.drop_first()),
        }
    }
}

/// Whether a policy of kind `kind` allows, given the outcomes of all its
/// rules in order.
pub open spec fn policy_allows(kind: PolicyKind, outcomes: Seq<PrivacyRuleOutcome>) -> bool {
    match kind {
        PolicyKind::Query => first_verdict(outcomes) == Some(true),
        PolicyKind::Mutation => !outcomes.contains(PrivacyRuleOutcome::Deny),
    }
}

/// Whether `outcomes` are the outcomes of all `rule_count` rules of a policy
/// whose first rules had the outcomes `seen`.
pub open spec fn completes(
    seen: Seq<PrivacyRuleOutcome>,
    rule_count: nat,
    outcomes: Seq<PrivacyRuleOutcome>,
) -> bool {
    outcomes.len() == rule_count && seen.len() <= rule_count && outcomes.take(seen.len() as int)
        == seen
}

/// Whether, after the outcomes `seen`, the policy's verdict is `allowed`
/// whatever the outcomes of the rules not evaluated yet.
pub open spec fn decided(
    kind: PolicyKind,
    rule_count: nat,
    seen: Seq<PrivacyRuleOutcome>,
    allowed: bool,
) -> bool {
    forall|outcomes: Seq<PrivacyRuleOutcome>| #[trigger]
        completes(seen, rule_count, outcomes) ==> policy_allows(kind, outcomes) == allowed
}

/// What to do next while evaluating a policy.
#[derive(Clone, Copy, PartialEq, Eq, Structural)]
pub enum PolicyStep {
    /// Evaluate the rule at this index, and report its outcome.
    Evaluate(usize),
    Allowed,
    Denied,
}

/// The evaluation of a policy, one rule at a time, stopping as soon as the
/// verdict is known.
pub struct PolicyEvaluation {
    pub kind: PolicyKind,
    pub rule_count: usize,
    /// The index of the rule being evaluated.
    pub next: usize,
    /// The outcomes reported so far.
    pub seen: Ghost<Seq<PrivacyRuleOutcome>>,
}

impl PolicyEvaluation {
    /// Waiting for the outcome of rule `next`, with no verdict yet.
    pub open spec fn awaiting(&self) -> bool {
        &&& self.next < self.rule_count
        &&& self.seen@.len() == self.next
        &&& match self.kind {
            PolicyKind::Query => forall|i: int|
                0 <= i < self.seen@.len() ==> self.seen@[i] == PrivacyRuleOutcome::Skip,
            PolicyKind::Mutation => !self.seen@.contains(PrivacyRuleOutcome::Deny),
        }
    }

    /// Starts evaluating a policy of `rule_count` rules.
    pub fn start(kind: PolicyKind, rule_count: usize) -> (r: (PolicyEvaluation, PolicyStep))
        ensures
            r.0.kind == kind,
            r.0.rule_count == rule_count,
            r.0.seen@ == Seq::<PrivacyRuleOutcome>::empty(),
            rule_count > 0 ==> r.1 == PolicyStep::Evaluate(0) && r.0.awaiting(),
            rule_count == 0 && kind == PolicyKind::Query ==> r.1 == PolicyStep::Denied,
            rule_count == 0 && kind == PolicyKind::Mutation ==> r.1 == PolicyStep::Allowed,
            r.1 == PolicyStep::Allowed ==> decided(kind, rule_count as nat, r.0.seen@, true),
            r.1 == PolicyStep::Denied ==> decided(kind, rule_count as nat, r.0.seen@, false),
    {
        let ghost seen = Seq::<PrivacyRuleOutcome>::empty();
        let eval = PolicyEvaluation { kind, rule_count, next: 0, seen: Ghost(seen) };
        if rule_count > 0 {
            (eval, PolicyStep::Evaluate(0))
        } else {
            proof {
                assert forall|outcomes: Seq<PrivacyRuleOutcome>| #[trigger]
                    completes(seen, 0, outcomes) implies policy_allows(kind, outcomes) == (kind
                    == PolicyKind::Mutation) by {
                    assert(outcomes =~= Seq::<PrivacyRuleOutcome>::empty());
                }
            }
            match kind {
                PolicyKind::Query => (eval, PolicyStep::Denied),
                PolicyKind::Mutation => (eval, PolicyStep::Allowed),
            }
        }
    }

    /// Reports the outcome of the rule that the last step asked for.
    pub fn on_outcome(&mut self, outcome: PrivacyRuleOutcome) -> (r: PolicyStep)
        requires
            old(self).awaiting(),
        ensures
            final(self).kind == old(self).kind,
            final(self).rule_count == old(self).rule_count,
            final(self).seen@ == old(self).seen@.push(outcome),
            r matches PolicyStep::Evaluate(i) ==> i == old(self).next + 1 && final(self).next == i
                && final(self).awaiting(),
            r == PolicyStep::Allowed ==> decided(
                old(self).kind,
                old(self).rule_count as nat,
                final(self).seen@,
                true,
            ),
            r == PolicyStep::Denied ==> decided(
                old(self).kind,
                old(self).rule_count as nat,
                final(self).seen@,
                false,
            ),
            old(self).kind == PolicyKind::Query && r is Evaluate ==> outcome
                == PrivacyRuleOutcome::Skip,
            // the query verdict is the first decisive outcome
            old(self).kind == PolicyKind::Query ==> (r == PolicyStep::Allowed <==> outcome
                == PrivacyRuleOutcome::Allow),
            // a mutation is refused on the first denial
            old(self).kind == PolicyKind::Mutation ==> (r == PolicyStep::Denied <==> outcome
                == PrivacyRuleOutcome::Deny),
    {
        let ghost old_seen = self.seen@;
        let ghost seen = old_seen.push(outcome);
        self.seen = Ghost(seen);
        let last = self.next + 1 >= self.rule_count;
        let ghost n = self.rule_count as nat;
        let ghost kind = self.kind;
        match self.kind {
            PolicyKind::Query => match outcome {
                PrivacyRuleOutcome::Allow => {
                    proof {
                        lemma_query_prefix_decides(old_seen, outcome, n);
                    }
                    PolicyStep::Allowed
                },
                PrivacyRuleOutcome::Deny => {
                    proof {
                        lemma_query_prefix_decides(old_seen, outcome, n);
                    }
                    PolicyStep::Denied
                },
                PrivacyRuleOutcome::Skip => {
                    if last {
                        proof {
                            lemma_all_skip_denies(seen, n);
                        }
                        PolicyStep::Denied
                    } else {
                        self.next = self.next + 1;
                        PolicyStep::Evaluate(self.next)
                    }
                },
            },
            PolicyKind::Mutation => match outcome {
                PrivacyRuleOutcome::Deny => {
                    proof {
                        lemma_denial_refuses(seen, n);
                    }
                    PolicyStep::Denied
                },
                _ => {
                    if last {
                        proof {
                            assert(!seen.contains(PrivacyRuleOutcome::Deny)) by {
                                if seen.contains(PrivacyRuleOutcome::Deny) {
                                    let i = choose|i: int|
                                        0 <= i < seen.len() && seen[i]
                                            == PrivacyRuleOutcome::Deny;
                                    if i < old_seen.len() {
                                        assert(old_seen[i] == PrivacyRuleOutcome::Deny);
                                    }
                                }
                            }
                            assert forall|outcomes: Seq<PrivacyRuleOutcome>| #[trigger]
                                completes(seen, n, outcomes) implies policy_allows(
                                kind,
                                outcomes,
                            ) == true by {
                                assert(outcomes =~= seen);
                            }
                        }
                        PolicyStep::Allowed
                    } else {
                        proof {
                            assert(!seen.contains(PrivacyRuleOutcome::Deny)) by {
                                if seen.contains(PrivacyRuleOutcome::Deny) {
                                    let i = choose|i: int|
                                        0 <= i < seen.len() && seen[i]
                                            == PrivacyRuleOutcome::Deny;
                                    if i < old_seen.len() {
                                        assert(old_seen[i] == PrivacyRuleOutcome::Deny);
                                    }
                                }
                            }
                        }
                        self.next = self.next + 1;
                        PolicyStep::Evaluate(self.next)
                    }
                },
            },
        }
    }
}

/// Outcomes that all skip, followed by `outcomes`, have the verdict of
/// `outcomes`.
proof fn lemma_skips_then(skips: Seq<PrivacyRuleOutcome>, outcomes: Seq<PrivacyRuleOutcome>)
    requires
        forall|i: int| 0 <= i < skips.len() ==> skips[i] == PrivacyRuleOutcome::Skip,
    ensures
        first_verdict(skips + outcomes) == first_verdict(outcomes),
    decreases skips.len(),
{
    if skips.len() > 0 {
        assert((skips + outcomes).drop_first() =~= skips.drop_first() + outcomes);
        lemma_skips_then(skips.drop_first(), outcomes);
    } else {
        assert(skips + outcomes =~= outcomes);
    }
}

/// After skips, an `Allow` or a `Deny` decides the query verdict, whatever follows.
proof fn lemma_query_prefix_decides(
    skips: Seq<PrivacyRuleOutcome>,
    outcome: PrivacyRuleOutcome,
    n: nat,
)
    requires
        forall|i: int| 0 <= i < skips.len() ==> skips[i] == PrivacyRuleOutcome::Skip,
        outcome != PrivacyRuleOutcome::Skip,
        skips.len() < n,
    ensures
        decided(
            PolicyKind::Query,
            n,
            skips.push(outcome),
            outcome == PrivacyRuleOutcome::Allow,
        ),
{
    let seen = skips.push(outcome);
    assert forall|outcomes: Seq<PrivacyRuleOutcome>| #[trigger]
        completes(seen, n, outcomes) implies policy_allows(PolicyKind::Query, outcomes) == (
    outcome == PrivacyRuleOutcome::Allow) by {
        let rest = outcomes.skip(skips.len() as int);
        assert(outcomes =~= skips + rest) by {
            assert(outcomes.take(seen.len() as int).take(skips.len() as int) =~= skips);
        }
        lemma_skips_then(skips, rest);
        assert(rest[0] == outcome) by {
            assert(outcomes.take(seen.len() as int)[skips.len() as int] == outcome);
        }
    }
}

/// When all `n` rules skip, a query policy denies.
proof fn lemma_all_skip_denies(seen: Seq<PrivacyRuleOutcome>, n: nat)
    requires
        forall|i: int| 0 <= i < seen.len() ==> seen[i] == PrivacyRuleOutcome::Skip,
        seen.len() == n,
    ensures
        decided(PolicyKind::Query, n, seen, false),
{
    assert forall|outcomes: Seq<PrivacyRuleOutcome>| #[trigger]
        completes(seen, n, outcomes) implies policy_allows(PolicyKind::Query, outcomes)
        == false by {
        assert(outcomes =~= seen + Seq::<PrivacyRuleOutcome>::empty());
        lemma_skips_then(seen, Seq::<PrivacyRuleOutcome>::empty());
    }
}

/// Once a rule denies, a mutation policy refuses, whatever follows.
proof fn lemma_denial_refuses(seen: Seq<PrivacyRuleOutcome>, n: nat)
    requires
        seen.len() > 0,
        seen.last() == PrivacyRuleOutcome::Deny,
        seen.len() <= n,
    ensures
        decided(PolicyKind::Mutation, n, seen, false),
{
    assert forall|outcomes: Seq<PrivacyRuleOutcome>| #[trigger]
        completes(seen, n, outcomes) implies policy_allows(PolicyKind::Mutation, outcomes)
        == false by {
        let i = seen.len() - 1;
        assert(outcomes.take(seen.len() as int)[i] == outcomes[i]);
        assert(outcomes[i] == PrivacyRuleOutcome::Deny);
    }
}

} // verus!
