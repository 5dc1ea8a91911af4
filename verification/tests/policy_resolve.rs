//! Resolving policies from their layers.
use engine_core::policy::resolve::{merge_opt, resolve, Policy};

#[derive(Debug, Clone, Copy, PartialEq, Eq, Default)]
struct TestPolicy {
    retries: u32,
    verbose: bool,
}

#[derive(Debug, Clone, Default)]
struct PartialTestPolicy {
    retries: Option<u32>,
    verbose: Option<bool>,
}

impl Policy for TestPolicy {
    type Partial = PartialTestPolicy;

    fn applied(self, over: PartialTestPolicy) -> Self {
        self.apply(&over)
    }

    fn apply(self, over: &Self::Partial) -> Self {
        Self {
            retries: merge_opt(self.retries, over.retries),
            verbose: merge_opt(self.verbose, over.verbose),
        }
    }
}

#[test]
fn resolve_resolve_with_no_overrides_returns_builtin() {
    let resolved = resolve(TestPolicy::default(), None, None, None);
    assert_eq!(resolved, TestPolicy::default());
}

#[test]
fn resolve_precedence_event_beats_profile_beats_harness_beats_builtin() {
    let harness = PartialTestPolicy {
        retries: Some(1),
        verbose: Some(true),
    };
    let profile = PartialTestPolicy {
        retries: Some(2),
        verbose: None,
    };
    let event = PartialTestPolicy {
        retries: Some(3),
        verbose: None,
    };
    let resolved = resolve(
        TestPolicy::default(),
        Some(&harness),
        Some(&profile),
        Some(&event),
    );
    assert_eq!(resolved.retries, 3);
    assert!(resolved.verbose);
}

#[test]
fn merge_opt_falls_through_on_none() {
    assert_eq!(merge_opt(5, None), 5);
    assert_eq!(merge_opt(5, Some(9)), 9);
}
