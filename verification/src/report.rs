//! The failure report: one record per failed package, rendered once at the
//! end of a batch pass.
//!
//! Only infrastructure errors and build exhaustion count as failures. A
//! produced artifact and a version with no matching tag contribute no record:
//! a legitimately absent tag is an expected gap, not a fault.

use crate::orchestrator::Completion;
use crate::orchestrator::CompletionView;
use crate::orchestrator::PackageVersion;
use vstd::prelude::*;
use vstd::string::StringExecFns;

verus! {

/// One failed package with its terminal error text. Append-only: records are
/// never mutated after insertion.
pub struct FailureRecord {
    pub name: String,
    pub version: String,
    pub error: String,
}

/// The mathematical content of a failure record.
pub struct FailureRecordView {
    pub name: Seq<char>,
    pub version: Seq<char>,
    pub error: Seq<char>,
}

impl View for FailureRecord {
    type V = FailureRecordView;

    open spec fn view(&self) -> FailureRecordView {
        FailureRecordView { name: self.name@, version: self.version@, error: self.error@ }
    }
}

impl DeepView for FailureRecord {
    type V = FailureRecordView;

    open spec fn deep_view(&self) -> FailureRecordView {
        self.view()
    }
}

/// The error text a completion contributes to the failure report, if any:
/// exactly the infrastructure and build-exhaustion errors.
pub open spec fn failure_error_of(completion: CompletionView) -> Option<Seq<char>> {
    match completion {
        CompletionView::Artifact => None,
        CompletionView::NoTagFound => None,
        CompletionView::InfrastructureError { error } => Some(error),
        CompletionView::BuildExhausted { error } => Some(error),
    }
}

/// The report line of one failure record, with its trailing line break.
pub open spec fn failure_line_of(r: FailureRecordView) -> Seq<char> {
    "*** "@ + r.name + " - "@ + r.version + " failed:\n"@ + r.error + "\n"@
}

/// The whole failure report: the lines of the records, in order.
pub open spec fn report_of(rs: Seq<FailureRecordView>) -> Seq<char>
    decreases rs.len(),
{
    if rs.len() == 0 {
        Seq::empty()
    } else {
        failure_line_of(rs[0]) + report_of(rs.subrange(1, rs.len() as int))
    }
}

/// Appending a record on the right appends its line to the report.
pub proof fn lemma_report_push(rs: Seq<FailureRecordView>, x: FailureRecordView)
    ensures
        report_of(rs.push(x)) == report_of(rs) + failure_line_of(x),
    decreases rs.len(),
{
    if rs.len() == 0 {
        assert(rs.push(x)[0] == x);
        assert(rs.push(x).subrange(1, 1) =~= Seq::<FailureRecordView>::empty());
        assert(report_of(Seq::<FailureRecordView>::empty()) == Seq::<char>::empty());
        assert(failure_line_of(x) + Seq::<char>::empty() =~= failure_line_of(x));
        assert(report_of(rs.push(x)) =~= failure_line_of(x));
        assert(report_of(rs) + failure_line_of(x) =~= failure_line_of(x));
    } else {
        assert(rs.push(x)[0] == rs[0]);
        assert(rs.push(x).subrange(1, rs.len() + 1 as int) =~= rs.subrange(
            1,
            rs.len() as int,
        ).push(x));
        lemma_report_push(rs.subrange(1, rs.len() as int), x);
        assert(failure_line_of(rs[0]) + (report_of(rs.subrange(1, rs.len() as int))
            + failure_line_of(x)) =~= (failure_line_of(rs[0]) + report_of(
            rs.subrange(1, rs.len() as int),
        )) + failure_line_of(x));
    }
}

/// The failure record of one completed package, if its completion is a
/// failure: infrastructure errors and build exhaustion yield exactly one
/// record carrying the package name, version and terminal error text; a
/// produced artifact and a missing tag yield none.
pub fn completion_failure(package: &PackageVersion, completion: &Completion) -> (r: Option<
    FailureRecord,
>)
    ensures
        match r {
            Some(rec) => {
                &&& failure_error_of(completion@) == Some(rec@.error)
                &&& rec@.name == package@.name
                &&& rec@.version == package@.version
            },
            None => failure_error_of(completion@) is None,
        },
{
    match completion {
        Completion::InfrastructureError { error } => Some(
            FailureRecord {
                name: package.name.clone(),
                version: package.version.clone(),
                error: error.clone(),
            },
        ),
        Completion::BuildExhausted { error } => Some(
            FailureRecord {
                name: package.name.clone(),
                version: package.version.clone(),
                error: error.clone(),
            },
        ),
        Completion::Artifact => None,
        Completion::NoTagFound => None,
    }
}

/// Renders the report line of one failure record.
pub fn failure_line(r: &FailureRecord) -> (out: String)
    ensures
        out@ == failure_line_of(r@),
{
    let mut out = String::from_str("*** ");
    out.append(r.name.as_str());
    out.append(" - ");
    out.append(r.version.as_str());
    out.append(" failed:\n");
    out.append(r.error.as_str());
    out.append("\n");
    out
}

/// Renders the whole failure report, one line per record, in order.
pub fn render_failure_report(rs: &Vec<FailureRecord>) -> (out: String)
    ensures
        out@ == report_of(rs.deep_view()),
{
    let mut out = String::new();
    let mut i: usize = 0;
    assert(rs.deep_view().subrange(0, 0) =~= Seq::<FailureRecordView>::empty());
    while i < rs.len()
        invariant
            0 <= i <= rs@.len(),
            rs.deep_view().len() == rs@.len(),
            out@ == report_of(rs.deep_view().subrange(0, i as int)),
        decreases rs@.len() - i,
    {
        let line = failure_line(&rs[i]);
        proof {
            let rv = rs.deep_view();
            assert(rv[i as int] == rs@[i as int]@);
            assert(rv.subrange(0, i + 1 as int) =~= rv.subrange(0, i as int).push(rv[i as int]));
            lemma_report_push(rv.subrange(0, i as int), rv[i as int]);
        }
        out.append(line.as_str());
        i = i + 1;
    }
    assert(rs.deep_view().subrange(0, rs@.len() as int) =~= rs.deep_view());
    out
}

} // verus!
