//! Laws of the build pipeline, proved over the model of
//! [`Pipeline`](crate::pipeline::Pipeline).

use vstd::prelude::*;
use crate::backend::BackendFlagSet;
use crate::error::ErrorView;
use crate::header::{fully_expanded, stored};
use crate::orchestrator::BuildProfile;
use crate::pipeline::{
    position, rejection, stage_at, step_count, ActionView, PipelineView, ReportView, Stage,
};

verus! {

/// Whether report number `i` is accepted by the step it is about. The steps
/// come in a fixed order, so as long as nothing fails, report `i` is about
/// step `i`.
pub open spec fn accepted(i: int, report: ReportView) -> bool {
    rejection(stage_at(i as nat), report) is None
}

/// The reports before index `n` are all accepted.
pub open spec fn succeeded_before(reports: Seq<ReportView>, n: int) -> bool {
    forall|i: int| 0 <= i < n && i < reports.len() ==> accepted(i, #[trigger] reports[i])
}

/// Report `k` is the first that is not accepted, and it arrives while the
/// pipeline still has steps to take.
pub open spec fn first_failure(reports: Seq<ReportView>, k: int) -> bool {
    &&& 0 <= k < reports.len()
    &&& k < step_count()
    &&& !accepted(k, reports[k])
    &&& succeeded_before(reports, k)
}

/// The smaller of the number of reports and the number of steps.
pub open spec fn steps_taken(reports: Seq<ReportView>) -> nat {
    if reports.len() < step_count() {
        reports.len()
    } else {
        step_count()
    }
}

/// A report keeps a well-formed pipeline well-formed and never touches the
/// selection, the profile or the job count.
pub proof fn report_preserves_plan(v: PipelineView, report: ReportView)
    requires
        v.wf(),
    ensures
        v.after(report).wf(),
        v.after(report).flags == v.flags,
        v.after(report).profile == v.profile,
        v.after(report).jobs == v.jobs,
{
}

/// A non-zero exit code is fatal at every stage: the pipeline fails, with a
/// build-time error that carries the captured output unchanged.
pub proof fn nonzero_exit_is_fatal(v: PipelineView, report: ReportView)
    requires
        !v.halted(),
        report.exit_code != 0,
    ensures
        v.after(report).stage is Failed,
        v.after(report).failure is Some,
        v.after(report).failure->Some_0.is_build_time(),
        v.after(report).failure->Some_0.detail() == report.output,
        v.verdict(report) == v.after(report).failure,
        v.after(report).action() == ActionView::Abort,
{
}

/// Once failed, always failed: whatever is reported afterwards, the pipeline
/// stays as it is, keeps its error, and tells the caller to abort. No tool is
/// run and no bindings are generated after a failure.
pub proof fn failure_is_final(v: PipelineView, later: Seq<ReportView>)
    requires
        v.stage is Failed,
    ensures
        v.run(later) == v,
        v.run(later).action() == ActionView::Abort,
    decreases later.len(),
{
    if later.len() > 0 {
        failure_is_final(v, later.drop_last());
    }
}

/// A finished pipeline stays finished and asks for nothing more.
pub proof fn done_is_final(v: PipelineView, later: Seq<ReportView>)
    requires
        v.stage is Done,
    ensures
        v.run(later) == v,
        v.run(later).action() == ActionView::Finish,
    decreases later.len(),
{
    if later.len() > 0 {
        done_is_final(v, later.drop_last());
    }
}

/// Where a pipeline stands after any sequence of reports.
///
/// If it has not failed, it has taken one step per report (up to the last
/// step), every one of those reports was accepted, and the source root is
/// what the first report said. If it has failed, some report was the first
/// not to be accepted, and the error is the one that belongs to the step
/// that report was about.
pub proof fn progress_is_earned(
    flags: BackendFlagSet,
    profile: BuildProfile,
    jobs: nat,
    reports: Seq<ReportView>,
)
    ensures
        ({
            let v = PipelineView::start(flags, profile, jobs).run(reports);
            &&& v.wf()
            &&& v.flags == flags
            &&& v.profile == profile
            &&& v.jobs == jobs
            &&& !(v.stage is Failed) ==> {
                &&& v.stage == stage_at(steps_taken(reports))
                &&& position(v.stage) == steps_taken(reports)
                &&& succeeded_before(reports, steps_taken(reports) as int)
                &&& reports.len() >= 1 ==> v.source_root == reports[0].output
            }
            &&& v.stage is Failed ==> exists|k: int|
                #![trigger reports[k]]
                first_failure(reports, k) && v.failure == rejection(stage_at(k as nat), reports[k])
        }),
    decreases reports.len(),
{
    let start = PipelineView::start(flags, profile, jobs);
    if reports.len() > 0 {
        let earlier = reports.drop_last();
        let last = reports.last();
        let before = start.run(earlier);
        let v = start.run(reports);
        progress_is_earned(flags, profile, jobs, earlier);
        report_preserves_plan(before, last);
        assert(v == before.after(last));
        assert forall|i: int| 0 <= i < earlier.len() implies earlier[i] == reports[i] by {}
        if before.stage is Failed {
            let k = choose|k: int|
                #![trigger earlier[k]]
                first_failure(earlier, k) && before.failure == rejection(
                    stage_at(k as nat),
                    earlier[k],
                );
            assert(reports[k] == earlier[k]);
            assert(first_failure(reports, k));
        } else if before.stage is Done {
            assert(steps_taken(earlier) == step_count());
        } else if rejection(before.stage, last) is Some {
            let k = earlier.len() as int;
            assert(reports[k] == last);
            assert(stage_at(k as nat) == before.stage);
            assert(first_failure(reports, k));
            assert(v.failure == rejection(stage_at(k as nat), reports[k]));
        } else {
            assert(steps_taken(reports) == steps_taken(earlier) + 1);
            assert(succeeded_before(reports, steps_taken(reports) as int)) by {
                assert forall|i: int|
                    0 <= i < steps_taken(reports) && i < reports.len() implies accepted(
                    i,
                    #[trigger] reports[i],
                ) by {
                    if i < earlier.len() {
                        assert(accepted(i, earlier[i]));
                    }
                }
            }
            if earlier.len() >= 1 {
                assert(earlier[0] == reports[0]);
            }
        }
    }
}

/// As long as every report is accepted, the pipeline takes the steps in
/// their fixed order and finishes after the last one.
pub proof fn clean_run_advances(
    flags: BackendFlagSet,
    profile: BuildProfile,
    jobs: nat,
    reports: Seq<ReportView>,
)
    requires
        succeeded_before(reports, reports.len() as int),
    ensures
        PipelineView::start(flags, profile, jobs).run(reports).stage == stage_at(
            steps_taken(reports),
        ),
        PipelineView::start(flags, profile, jobs).run(reports).failure is None,
        reports.len() >= step_count() ==> PipelineView::start(flags, profile, jobs).run(
            reports,
        ).stage is Done,
{
    progress_is_earned(flags, profile, jobs, reports);
    let v = PipelineView::start(flags, profile, jobs).run(reports);
    if v.stage is Failed {
        let k = choose|k: int|
            #![trigger reports[k]]
            first_failure(reports, k) && v.failure == rejection(stage_at(k as nat), reports[k]);
        assert(accepted(k, reports[k]));
    }
}

/// The first report that is not accepted decides the outcome. Whatever is
/// reported after it, the pipeline has failed with the error of that step
/// and tells the caller to abort.
pub proof fn first_failure_decides(
    flags: BackendFlagSet,
    profile: BuildProfile,
    jobs: nat,
    reports: Seq<ReportView>,
    k: int,
)
    requires
        first_failure(reports, k),
    ensures
        PipelineView::start(flags, profile, jobs).run(reports).stage is Failed,
        PipelineView::start(flags, profile, jobs).run(reports).failure == rejection(
            stage_at(k as nat),
            reports[k],
        ),
        PipelineView::start(flags, profile, jobs).run(reports).action() == ActionView::Abort,
{
    progress_is_earned(flags, profile, jobs, reports);
    let v = PipelineView::start(flags, profile, jobs).run(reports);
    if v.stage is Failed {
        let j = choose|j: int|
            #![trigger reports[j]]
            first_failure(reports, j) && v.failure == rejection(stage_at(j as nat), reports[j]);
        if j < k {
            assert(accepted(j, reports[j]));
        }
        if k < j {
            assert(accepted(k, reports[k]));
        }
    } else {
        assert(accepted(k, reports[k]));
    }
}

/// Header expansion and binding generation are asked for only after
/// everything before them has succeeded. Expansion needs the source root to
/// have been found and the configure, compile, header staging and directive
/// steps to have ended with exit code zero. Binding generation needs, on top
/// of that, an expanded header that was read back and holds no
/// conditional-compilation directive.
pub proof fn later_steps_need_a_built_engine(
    flags: BackendFlagSet,
    profile: BuildProfile,
    jobs: nat,
    reports: Seq<ReportView>,
)
    ensures
        ({
            let v = PipelineView::start(flags, profile, jobs).run(reports);
            &&& v.stage is Preprocess ==> {
                &&& reports.len() == 5
                &&& forall|i: int| 0 <= i < 5 ==> (#[trigger] reports[i]).exit_code == 0
            }
            &&& v.stage is Bind ==> {
                &&& reports.len() == 7
                &&& forall|i: int| 0 <= i < 7 ==> (#[trigger] reports[i]).exit_code == 0
                &&& fully_expanded(stored(reports[6].output))
            }
            &&& v.stage is Done ==> {
                &&& reports.len() >= 8
                &&& forall|i: int| 0 <= i < 8 ==> (#[trigger] reports[i]).exit_code == 0
                &&& fully_expanded(stored(reports[6].output))
            }
        }),
{
    progress_is_earned(flags, profile, jobs, reports);
    let v = PipelineView::start(flags, profile, jobs).run(reports);
    if !(v.stage is Failed) {
        assert forall|i: int| 0 <= i < position(v.stage) implies (#[trigger] reports[i]).exit_code
            == 0 by {
            assert(accepted(i, reports[i]));
        }
        if position(v.stage) >= 7 {
            assert(accepted(6, reports[6]));
        }
    }
}

/// If the source root cannot be found, the pipeline fails with a build
/// error that carries the diagnostics, and nothing else is ever attempted:
/// from then on the only action is to abort.
pub proof fn missing_source_root_halts(
    flags: BackendFlagSet,
    profile: BuildProfile,
    jobs: nat,
    report: ReportView,
    later: Seq<ReportView>,
)
    requires
        report.exit_code != 0,
    ensures
        ({
            let failed = PipelineView::start(flags, profile, jobs).after(report);
            &&& PipelineView::start(flags, profile, jobs).action() == ActionView::Locate
            &&& failed.stage is Failed
            &&& failed.failure == Some(ErrorView::Build(report.output))
            &&& failed.run(later) == failed
            &&& failed.run(later).action() == ActionView::Abort
        }),
{
    failure_is_final(PipelineView::start(flags, profile, jobs).after(report), later);
}

} // verus!
