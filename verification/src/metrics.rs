//! Aggregated error statistics: a process-scoped counter keyed by category
//! and by severity.  Counts only grow for the aggregator's lifetime; reads
//! go through an immutable snapshot.

use vstd::prelude::*;

use crate::error::AppError;
use crate::error::ErrorCategory;
use crate::error::ErrorSeverity;

verus! {

/// One counter per error category.
#[derive(Debug, Clone, Copy, PartialEq, Eq, Structural)]
pub struct CategoryCounts {
    pub network: usize,
    pub validation: usize,
    pub file_system: usize,
    pub database: usize,
    pub system: usize,
    pub cache: usize,
    pub processing: usize,
    pub unknown: usize,
}

impl CategoryCounts {
    /// The count recorded for a category.
    pub open spec fn spec_count(self, c: ErrorCategory) -> usize {
        match c {
            ErrorCategory::Network => self.network,
            ErrorCategory::Validation => self.validation,
            ErrorCategory::FileSystem => self.file_system,
            ErrorCategory::Database => self.database,
            ErrorCategory::System => self.system,
            ErrorCategory::Cache => self.cache,
            ErrorCategory::Processing => self.processing,
            ErrorCategory::Unknown => self.unknown,
        }
    }

    /// The count recorded for a category.
    pub fn count(&self, c: &ErrorCategory) -> (r: usize)
        ensures
            r == self.spec_count(*c),
    {
        match c {
            ErrorCategory::Network => self.network,
            ErrorCategory::Validation => self.validation,
            ErrorCategory::FileSystem => self.file_system,
            ErrorCategory::Database => self.database,
            ErrorCategory::System => self.system,
            ErrorCategory::Cache => self.cache,
            ErrorCategory::Processing => self.processing,
            ErrorCategory::Unknown => self.unknown,
        }
    }

    /// Grows the counter for one category by one and leaves the rest.
    fn bump(&mut self, c: &ErrorCategory)
        requires
            old(self).spec_count(*c) < usize::MAX,
        ensures
            forall|cc: ErrorCategory|
                final(self).spec_count(cc) == old(self).spec_count(cc) + if cc == *c {
                    1int
                } else {
                    0int
                },
    {
        match c {
            ErrorCategory::Network => {
                self.network = self.network + 1;
            },
            ErrorCategory::Validation => {
                self.validation = self.validation + 1;
            },
            ErrorCategory::FileSystem => {
                self.file_system = self.file_system + 1;
            },
            ErrorCategory::Database => {
                self.database = self.database + 1;
            },
            ErrorCategory::System => {
                self.system = self.system + 1;
            },
            ErrorCategory::Cache => {
                self.cache = self.cache + 1;
            },
            ErrorCategory::Processing => {
                self.processing = self.processing + 1;
            },
            ErrorCategory::Unknown => {
                self.unknown = self.unknown + 1;
            },
        }
    }
}

/// One counter per error severity.
#[derive(Debug, Clone, Copy, PartialEq, Eq, Structural)]
pub struct SeverityCounts {
    pub debug: usize,
    pub info: usize,
    pub warning: usize,
    pub error: usize,
    pub critical: usize,
}

impl SeverityCounts {
    /// The count recorded for a severity.
    pub open spec fn spec_count(self, s: ErrorSeverity) -> usize {
        match s {
            ErrorSeverity::Debug => self.debug,
            ErrorSeverity::Info => self.info,
            ErrorSeverity::Warning => self.warning,
            ErrorSeverity::Error => self.error,
            ErrorSeverity::Critical => self.critical,
        }
    }

    /// The count recorded for a severity.
    pub fn count(&self, s: &ErrorSeverity) -> (r: usize)
        ensures
            r == self.spec_count(*s),
    {
        match s {
            ErrorSeverity::Debug => self.debug,
            ErrorSeverity::Info => self.info,
            ErrorSeverity::Warning => self.warning,
            ErrorSeverity::Error => self.error,
            ErrorSeverity::Critical => self.critical,
        }
    }

    /// Grows the counter for one severity by one and leaves the rest.
    fn bump(&mut self, s: &ErrorSeverity)
        requires
            old(self).spec_count(*s) < usize::MAX,
        ensures
            forall|ss: ErrorSeverity|
                final(self).spec_count(ss) == old(self).spec_count(ss) + if ss == *s {
                    1int
                } else {
                    0int
                },
    {
        match s {
            ErrorSeverity::Debug => {
                self.debug = self.debug + 1;
            },
            ErrorSeverity::Info => {
                self.info = self.info + 1;
            },
            ErrorSeverity::Warning => {
                self.warning = self.warning + 1;
            },
            ErrorSeverity::Error => {
                self.error = self.error + 1;
            },
            ErrorSeverity::Critical => {
                self.critical = self.critical + 1;
            },
        }
    }
}

/// The error counters of one process or logical scope.  Counts never shrink
/// and no entry is ever removed.
pub struct ErrorMetrics {
    total_errors: usize,
    errors_by_category: CategoryCounts,
    errors_by_severity: SeverityCounts,
}

/// An immutable snapshot of the counters at one point in time.
#[derive(Debug, Clone, Copy, PartialEq, Eq, Structural)]
pub struct ErrorStats {
    pub total_errors: usize,
    pub errors_by_category: CategoryCounts,
    pub errors_by_severity: SeverityCounts,
}

/// One recording step: the total and the matching category and severity
/// counters each grow by one, and every other counter is unchanged.
pub open spec fn is_record_step(
    m0: ErrorMetrics,
    m1: ErrorMetrics,
    c: ErrorCategory,
    s: ErrorSeverity,
) -> bool {
    &&& m1.spec_total() == m0.spec_total() + 1
    &&& forall|cc: ErrorCategory|
        m1.spec_category_count(cc) == m0.spec_category_count(cc) + if cc == c {
            1int
        } else {
            0int
        }
    &&& forall|ss: ErrorSeverity|
        m1.spec_severity_count(ss) == m0.spec_severity_count(ss) + if ss == s {
            1int
        } else {
            0int
        }
}

impl ErrorMetrics {
    /// Total number of errors recorded.
    pub closed spec fn spec_total(&self) -> int {
        self.total_errors as int
    }

    /// Number of recorded errors of a category.
    pub closed spec fn spec_category_count(&self, c: ErrorCategory) -> int {
        self.errors_by_category.spec_count(c) as int
    }

    /// Number of recorded errors of a severity.
    pub closed spec fn spec_severity_count(&self, s: ErrorSeverity) -> int {
        self.errors_by_severity.spec_count(s) as int
    }

    /// No single counter can exceed the total.
    pub open spec fn wf(&self) -> bool {
        &&& forall|c: ErrorCategory| 0 <= #[trigger] self.spec_category_count(c) <= self.spec_total()
        &&& forall|s: ErrorSeverity| 0 <= #[trigger] self.spec_severity_count(s) <= self.spec_total()
    }

    /// The snapshot that describes the current counters.
    pub closed spec fn spec_stats(&self) -> ErrorStats {
        ErrorStats {
            total_errors: self.total_errors,
            errors_by_category: self.errors_by_category,
            errors_by_severity: self.errors_by_severity,
        }
    }

    /// A fresh aggregator: every counter at zero.
    pub fn new() -> (r: ErrorMetrics)
        ensures
            r.wf(),
            r.spec_total() == 0,
            forall|c: ErrorCategory| r.spec_category_count(c) == 0,
            forall|s: ErrorSeverity| r.spec_severity_count(s) == 0,
    {
        ErrorMetrics {
            total_errors: 0,
            errors_by_category: CategoryCounts {
                network: 0,
                validation: 0,
                file_system: 0,
                database: 0,
                system: 0,
                cache: 0,
                processing: 0,
                unknown: 0,
            },
            errors_by_severity: SeverityCounts {
                debug: 0,
                info: 0,
                warning: 0,
                error: 0,
                critical: 0,
            },
        }
    }

    /// Counts one observed error: the total and the counters for the
    /// error's category and severity each grow by one.  The recorded error
    /// itself is not touched.
    pub fn record_error(&mut self, error: &AppError)
        requires
            old(self).wf(),
            old(self).spec_total() < usize::MAX,
        ensures
            final(self).wf(),
            is_record_step(*old(self), *final(self), error.spec_category(), error.spec_severity()),
    {
        proof {
            assert(old(self).spec_category_count(error.spec_category()) <= old(
                self,
            ).spec_total());
            assert(old(self).spec_severity_count(error.spec_severity()) <= old(
                self,
            ).spec_total());
        }
        self.total_errors = self.total_errors + 1;
        self.errors_by_category.bump(error.category());
        self.errors_by_severity.bump(error.severity());
        proof {
            assert forall|cc: ErrorCategory|
                0 <= #[trigger] self.spec_category_count(cc) <= self.spec_total() by {
                assert(old(self).spec_category_count(cc) <= old(self).spec_total());
            }
            assert forall|ss: ErrorSeverity|
                0 <= #[trigger] self.spec_severity_count(ss) <= self.spec_total() by {
                assert(old(self).spec_severity_count(ss) <= old(self).spec_total());
            }
        }
    }

    /// Copies the current counters into a snapshot.  The snapshot is a
    /// value of its own: later recording leaves it as it is.
    pub fn get_stats(&self) -> (r: ErrorStats)
        ensures
            r == self.spec_stats(),
            r.total_errors == self.spec_total(),
            forall|c: ErrorCategory| #[trigger] r.errors_by_category.spec_count(c)
                == self.spec_category_count(c),
            forall|s: ErrorSeverity| #[trigger] r.errors_by_severity.spec_count(s)
                == self.spec_severity_count(s),
    {
        ErrorStats {
            total_errors: self.total_errors,
            errors_by_category: self.errors_by_category,
            errors_by_severity: self.errors_by_severity,
        }
    }
}

/// How many of a sequence of recorded (category, severity) pairs carry a
/// given category.
pub open spec fn count_category(errs: Seq<(ErrorCategory, ErrorSeverity)>, c: ErrorCategory) -> int
    decreases errs.len(),
{
    if errs.len() == 0 {
        0
    } else {
        count_category(errs.drop_last(), c) + if errs.last().0 == c {
            1int
        } else {
            0int
        }
    }
}

/// How many of a sequence of recorded (category, severity) pairs carry a
/// given severity.
pub open spec fn count_severity(errs: Seq<(ErrorCategory, ErrorSeverity)>, s: ErrorSeverity) -> int
    decreases errs.len(),
{
    if errs.len() == 0 {
        0
    } else {
        count_severity(errs.drop_last(), s) + if errs.last().1 == s {
            1int
        } else {
            0int
        }
    }
}

/// Recording a sequence of errors grows each category counter by exactly
/// the number of recorded errors of that category, and the total by exactly
/// the number of recorded errors, however the categories and severities are
/// interleaved.  `states` are the aggregator's states along the way;
/// `errs[i]` is the category and severity recorded between `states[i]` and
/// `states[i + 1]`.
pub proof fn lemma_record_sequence(
    states: Seq<ErrorMetrics>,
    errs: Seq<(ErrorCategory, ErrorSeverity)>,
    c: ErrorCategory,
    s: ErrorSeverity,
)
    requires
        states.len() == errs.len() + 1,
        forall|i: int|
            0 <= i < errs.len() ==> is_record_step(
                states[i],
                states[i + 1],
                errs[i].0,
                errs[i].1,
            ),
    ensures
        states.last().spec_total() == states.first().spec_total() + errs.len(),
        states.last().spec_category_count(c) == states.first().spec_category_count(c)
            + count_category(errs, c),
        states.last().spec_severity_count(s) == states.first().spec_severity_count(s)
            + count_severity(errs, s),
    decreases errs.len(),
{
    if errs.len() > 0 {
        let n = errs.len() as int;
        lemma_record_sequence(states.drop_last(), errs.drop_last(), c, s);
        assert(is_record_step(states[n - 1], states[n], errs[n - 1].0, errs[n - 1].1));
        assert(states.drop_last().last() == states[n - 1]);
        assert(states.drop_last().first() == states.first());
    }
}

/// A snapshot taken before a recording step keeps the counts from before
/// the step: the aggregator moves on, the snapshot does not.
pub proof fn lemma_snapshot_stable(
    m0: ErrorMetrics,
    m1: ErrorMetrics,
    c: ErrorCategory,
    s: ErrorSeverity,
    snap: ErrorStats,
)
    requires
        snap == m0.spec_stats(),
        is_record_step(m0, m1, c, s),
    ensures
        snap.total_errors + 1 == m1.spec_total(),
        snap.errors_by_category.spec_count(c) + 1 == m1.spec_category_count(c),
        snap.errors_by_severity.spec_count(s) + 1 == m1.spec_severity_count(s),
        forall|cc: ErrorCategory|
            cc != c ==> #[trigger] snap.errors_by_category.spec_count(cc)
                == m1.spec_category_count(cc),
        forall|ss: ErrorSeverity|
            ss != s ==> #[trigger] snap.errors_by_severity.spec_count(ss)
                == m1.spec_severity_count(ss),
{
}

} // verus!
