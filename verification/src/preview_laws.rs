//! What holds of the previews of a paste's files.
use vstd::prelude::*;

use crate::markup::{markdown, sanitized};
use crate::previews::{
    job_for, jobs_for, notices_of, previews_of, shown, Answer, JobView, OutputFile, SettingView,
    Shown, WorkView,
};
use crate::reply::FileId;

verus! {

/// Whether no two files have the same identifier.
pub open spec fn distinct_files(files: Seq<OutputFile>) -> bool {
    forall|i: int, j: int|
        0 <= i < j < files.len() ==> (#[trigger] files[i]).id != (#[trigger] files[j]).id
}

/// Whether no two jobs are for the same file.
pub open spec fn distinct_jobs(jobs: Seq<JobView>) -> bool {
    forall|i: int, j: int|
        0 <= i < j < jobs.len() ==> (#[trigger] jobs[i]).file != (#[trigger] jobs[j]).file
}

/// Every job is the job of one of the files.
pub proof fn jobs_are_of_files(files: Seq<OutputFile>, setting: SettingView, k: int)
    requires
        0 <= k < jobs_for(files, setting).len(),
    ensures
        exists|i: int|
            0 <= i < files.len() && job_for(#[trigger] files[i], setting) == Some(
                jobs_for(files, setting)[k],
            ),
    decreases files.len(),
{
    let before = jobs_for(files.drop_last(), setting);
    if k < before.len() {
        jobs_are_of_files(files.drop_last(), setting, k);
        let i = choose|i: int|
            0 <= i < files.drop_last().len() && job_for(
                #[trigger] files.drop_last()[i],
                setting,
            ) == Some(before[k]);
        assert(files[i] == files.drop_last()[i]);
    } else {
        assert(files[files.len() - 1] == files.last());
    }
}

/// Every file that has a preview gets its job.
pub proof fn files_have_their_jobs(files: Seq<OutputFile>, setting: SettingView, i: int)
    requires
        0 <= i < files.len(),
        job_for(files[i], setting) is Some,
    ensures
        exists|k: int|
            0 <= k < jobs_for(files, setting).len() && Some(
                #[trigger] jobs_for(files, setting)[k],
            ) == job_for(files[i], setting),
    decreases files.len(),
{
    let before = jobs_for(files.drop_last(), setting);
    let jobs = jobs_for(files, setting);
    if i < files.len() - 1 {
        files_have_their_jobs(files.drop_last(), setting, i);
        let k = choose|k: int|
            0 <= k < before.len() && Some(#[trigger] before[k]) == job_for(
                files.drop_last()[i],
                setting,
            );
        assert(jobs[k] == before[k]);
    } else {
        assert(Some(jobs[jobs.len() - 1]) == job_for(files[i], setting));
    }
}

/// Different files have different jobs.
proof fn distinct_files_have_distinct_jobs(files: Seq<OutputFile>, setting: SettingView)
    requires
        distinct_files(files),
    ensures
        distinct_jobs(jobs_for(files, setting)),
    decreases files.len(),
{
    if files.len() > 0 {
        let before = jobs_for(files.drop_last(), setting);
        let jobs = jobs_for(files, setting);
        distinct_files_have_distinct_jobs(files.drop_last(), setting);
        assert forall|i: int, j: int| 0 <= i < j < jobs.len() implies (#[trigger] jobs[i]).file != (
        #[trigger] jobs[j]).file by {
            assert(jobs[i] == before[i]);
            if j < before.len() {
                assert(jobs[j] == before[j]);
            } else {
                jobs_are_of_files(files.drop_last(), setting, i);
                let f = choose|f: int|
                    0 <= f < files.drop_last().len() && job_for(
                        #[trigger] files.drop_last()[f],
                        setting,
                    ) == Some(before[i]);
                assert(files[f].id == before[i].file);
                assert(files[files.len() - 1].id == jobs[j].file);
            }
        }
    }
}

/// HTML that is handed on for post-processing is Markdown that passed the sanitizer.
pub proof fn post_processed_is_sanitized(
    files: Seq<OutputFile>,
    setting: SettingView,
    k: int,
    html: Seq<char>,
)
    requires
        0 <= k < jobs_for(files, setting).len(),
        jobs_for(files, setting)[k].work == (WorkView::PostProcess { html }),
    ensures
        exists|text: Seq<char>| html == #[trigger] sanitized(markdown(text)),
{
    jobs_are_of_files(files, setting, k);
}

/// A preview comes of a job that was answered with one.
pub proof fn previews_come_of_jobs(
    jobs: Seq<JobView>,
    answers: Seq<Answer>,
    n: nat,
    file: FileId,
)
    requires
        n <= jobs.len(),
        previews_of(jobs, answers, n).contains_key(file),
    ensures
        exists|k: int|
            0 <= k < n && (#[trigger] jobs[k]).file == file && shown(jobs[k].work, answers[k])
                is Preview,
    decreases n,
{
    if n > 0 {
        let last = n - 1;
        if jobs[last].file == file && shown(jobs[last].work, answers[last]) is Preview {
        } else {
            previews_come_of_jobs(jobs, answers, last as nat, file);
        }
    }
}

/// A notice comes of a job that was answered with one.
pub proof fn notices_come_of_jobs(
    jobs: Seq<JobView>,
    answers: Seq<Answer>,
    n: nat,
    file: FileId,
)
    requires
        n <= jobs.len(),
        notices_of(jobs, answers, n).contains_key(file),
    ensures
        exists|k: int|
            0 <= k < n && (#[trigger] jobs[k]).file == file && shown(jobs[k].work, answers[k])
                is Notice,
    decreases n,
{
    if n > 0 {
        let last = n - 1;
        if jobs[last].file == file && shown(jobs[last].work, answers[last]) is Notice {
        } else {
            notices_come_of_jobs(jobs, answers, last as nat, file);
        }
    }
}

/// What is shown of a job stays shown when more jobs are answered, if no two are for one file.
proof fn shown_stays(jobs: Seq<JobView>, answers: Seq<Answer>, n: nat, k: int)
    requires
        distinct_jobs(jobs),
        0 <= k < n <= jobs.len(),
    ensures
        shown(jobs[k].work, answers[k]) matches Shown::Preview(html) ==> previews_of(
            jobs,
            answers,
            n,
        ).contains_key(jobs[k].file) && previews_of(jobs, answers, n)[jobs[k].file] == html,
        shown(jobs[k].work, answers[k]) matches Shown::Notice(text) ==> notices_of(
            jobs,
            answers,
            n,
        ).contains_key(jobs[k].file) && notices_of(jobs, answers, n)[jobs[k].file] == text,
    decreases n,
{
    if k < n - 1 {
        shown_stays(jobs, answers, (n - 1) as nat, k);
        assert(jobs[k].file != jobs[n - 1].file);
    }
}

/// Where no two files have the same identifier, each file is shown what came of its own job: the
/// preview if there is one, the notice if there is one.
pub proof fn files_show_what_came_of_them(
    files: Seq<OutputFile>,
    setting: SettingView,
    answers: Seq<Answer>,
    n: nat,
    k: int,
)
    requires
        distinct_files(files),
        0 <= k < n <= jobs_for(files, setting).len(),
    ensures
        ({
            let jobs = jobs_for(files, setting);
            let previews = previews_of(jobs, answers, n);
            let notices = notices_of(jobs, answers, n);
            match shown(jobs[k].work, answers[k]) {
                Shown::Preview(html) => previews.contains_key(jobs[k].file)
                    && previews[jobs[k].file] == html,
                Shown::Notice(text) => notices.contains_key(jobs[k].file) && notices[jobs[k].file]
                    == text,
                Shown::Nothing => !previews.contains_key(jobs[k].file) && !notices.contains_key(
                    jobs[k].file,
                ),
            }
        }),
{
    let jobs = jobs_for(files, setting);
    distinct_files_have_distinct_jobs(files, setting);
    shown_stays(jobs, answers, n, k);
    if previews_of(jobs, answers, n).contains_key(jobs[k].file) {
        previews_come_of_jobs(jobs, answers, n, jobs[k].file);
    }
    if notices_of(jobs, answers, n).contains_key(jobs[k].file) {
        notices_come_of_jobs(jobs, answers, n, jobs[k].file);
    }
}

/// Where no two files have the same identifier, no file has both a preview and a notice.
pub proof fn preview_or_notice(
    files: Seq<OutputFile>,
    setting: SettingView,
    answers: Seq<Answer>,
    n: nat,
    file: FileId,
)
    requires
        distinct_files(files),
        n <= jobs_for(files, setting).len(),
    ensures
        !(previews_of(jobs_for(files, setting), answers, n).contains_key(file)
            && notices_of(jobs_for(files, setting), answers, n).contains_key(file)),
{
    let jobs = jobs_for(files, setting);
    distinct_files_have_distinct_jobs(files, setting);
    let previews = previews_of(jobs, answers, n);
    let notices = notices_of(jobs, answers, n);
    if previews.contains_key(file) && notices.contains_key(file) {
        previews_come_of_jobs(jobs, answers, n, file);
        notices_come_of_jobs(jobs, answers, n, file);
    }
}

/// Only files of the paste have previews, and of them only those that have a job: files with a
/// name, with text and of a kind that is previewed.
pub proof fn previews_are_of_files(
    files: Seq<OutputFile>,
    setting: SettingView,
    answers: Seq<Answer>,
    n: nat,
    file: FileId,
)
    requires
        n <= jobs_for(files, setting).len(),
        previews_of(jobs_for(files, setting), answers, n).contains_key(file),
    ensures
        exists|i: int|
            0 <= i < files.len() && (#[trigger] files[i]).id == file && job_for(
                files[i],
                setting,
            ) is Some,
{
    let jobs = jobs_for(files, setting);
    previews_come_of_jobs(jobs, answers, n, file);
    let k = choose|k: int|
        0 <= k < n && (#[trigger] jobs[k]).file == file && shown(jobs[k].work, answers[k])
            is Preview;
    jobs_are_of_files(files, setting, k);
}

} // verus!
