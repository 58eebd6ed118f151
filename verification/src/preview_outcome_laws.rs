//! What comes of each file: which files are previewed as what, and what is shown of them.
use vstd::prelude::*;

use crate::file_map::entries;
use crate::markup::{markdown, sanitized, svg_preview};
use crate::previews::{
    answered, assembled_of, job_for, job_views, jobs_for, lowercase, notices_of, optional_previews,
    optional_text, previews_of, Answer, Content, Job, JobView, OutputFile, Previews, PreviewsView,
    Setting, SettingView, Work, WorkView,
};
use crate::reply::{FileId, RawAddressView};

verus! {

/// Different endings exclude each other, but for those that end in the same letter.
proof fn endings_exclude_each_other(lower: Seq<char>)
    ensures
        ".csv"@.is_suffix_of(lower) ==> lower.len() > 0 && lower.last() == 'v',
        ".svg"@.is_suffix_of(lower) ==> lower.len() > 0 && lower.last() == 'g',
        ".md"@.is_suffix_of(lower) ==> lower.len() > 0 && lower.last() == 'd',
        ".mdown"@.is_suffix_of(lower) ==> lower.len() > 0 && lower.last() == 'n',
        ".markdown"@.is_suffix_of(lower) ==> lower.len() > 0 && lower.last() == 'n',
{
    reveal_strlit(".csv");
    reveal_strlit(".svg");
    reveal_strlit(".md");
    reveal_strlit(".mdown");
    reveal_strlit(".markdown");
    assert(".csv"@.is_suffix_of(lower) ==> ".csv"@.last() == lower.last());
    assert(".svg"@.is_suffix_of(lower) ==> ".svg"@.last() == lower.last());
    assert(".md"@.is_suffix_of(lower) ==> ".md"@.last() == lower.last());
    assert(".mdown"@.is_suffix_of(lower) ==> ".mdown"@.last() == lower.last());
    assert(".markdown"@.is_suffix_of(lower) ==> ".markdown"@.last() == lower.last());
}

/// Whatever a named text file is called, if its highlighting was set to Markdown then its text
/// is rendered and sanitized as Markdown.
pub proof fn marked_files_are_markdown(
    file: OutputFile,
    setting: SettingView,
    name: String,
    language: String,
    text: String,
)
    requires
        file.name == Some(name),
        file.content == Some(Content::Text(text)),
        file.highlight_language == Some(language),
        language@ == setting.markdown_language,
    ensures
        job_for(file, setting) == Some(
            JobView {
                file: file.id,
                work: WorkView::PostProcess { html: sanitized(markdown(text@)) },
            },
        ),
{
}

/// Whatever its highlighting was set to, a text file whose name ends in `.mdown` or `.markdown`,
/// in upper or lower case, is Markdown; one whose name ends in `.md` is where no highlighting was
/// set.
pub proof fn markdown_goes_by_name(
    file: OutputFile,
    setting: SettingView,
    name: String,
    text: String,
)
    requires
        file.name == Some(name),
        file.content == Some(Content::Text(text)),
        ".mdown"@.is_suffix_of(lowercase(name@)) || ".markdown"@.is_suffix_of(lowercase(name@))
            || ".md"@.is_suffix_of(lowercase(name@)) && file.highlight_language is None,
    ensures
        job_for(file, setting) == Some(
            JobView {
                file: file.id,
                work: WorkView::PostProcess { html: sanitized(markdown(text@)) },
            },
        ),
{
}

/// A text file whose name ends in `.csv` is made a table of, with its whole text, where no
/// highlighting was set.
pub proof fn csv_goes_by_name(file: OutputFile, setting: SettingView, name: String, text: String)
    requires
        file.name == Some(name),
        file.content == Some(Content::Text(text)),
        file.highlight_language is None,
        ".csv"@.is_suffix_of(lowercase(name@)),
    ensures
        job_for(file, setting) == Some(
            JobView { file: file.id, work: WorkView::MakeTable { csv: text@ } },
        ),
{
    endings_exclude_each_other(lowercase(name@));
}

/// A text file whose name ends in `.svg` is shown as an image, under its name as it is and from
/// its address as a preview, unless its highlighting was set to Markdown.
pub proof fn svg_goes_by_name(file: OutputFile, setting: SettingView, name: String, text: String)
    requires
        file.name == Some(name),
        file.content == Some(Content::Text(text)),
        ".svg"@.is_suffix_of(lowercase(name@)),
        file.highlight_language matches Some(language) ==> language@ != setting.markdown_language,
    ensures
        job_for(file, setting) == Some(
            JobView {
                file: file.id,
                work: WorkView::MakeAddress {
                    name: name@,
                    address: RawAddressView {
                        username: setting.username,
                        paste: setting.paste,
                        file: file.id,
                        preview: Some(true),
                    },
                },
            },
        ),
{
    endings_exclude_each_other(lowercase(name@));
}

/// No other file is previewed: neither one with another name, be it for the highlighting that
/// was set, nor one without a name, nor one without text.
pub proof fn other_files_are_not_previewed(file: OutputFile, setting: SettingView)
    requires
        file.name matches Some(name) ==> ({
            let lower = lowercase(name@);
            let text = file.content is Some && file.content->0 is Text;
            text ==> !".mdown"@.is_suffix_of(lower) && !".markdown"@.is_suffix_of(lower)
                && !".svg"@.is_suffix_of(lower) && (match file.highlight_language {
                Some(language) => language@ != setting.markdown_language,
                None => !".md"@.is_suffix_of(lower) && !".csv"@.is_suffix_of(lower),
            })
        }),
    ensures
        job_for(file, setting) is None,
{
}

/// The jobs are those of the files, one after the other: a file has its own job, or none, and
/// what stands before or after it changes nothing.
pub proof fn jobs_go_file_by_file(
    files: Seq<OutputFile>,
    more: Seq<OutputFile>,
    file: OutputFile,
    setting: SettingView,
)
    ensures
        jobs_for(files + more, setting) == jobs_for(files, setting) + jobs_for(more, setting),
        jobs_for(Seq::<OutputFile>::empty(), setting) == Seq::<JobView>::empty(),
        job_for(file, setting) is None ==> jobs_for(seq![file], setting) == Seq::<JobView>::empty(),
        job_for(file, setting) matches Some(job) ==> jobs_for(seq![file], setting) == seq![job],
    decreases more.len(),
{
    let one = seq![file];
    assert(one.drop_last() =~= Seq::<OutputFile>::empty());
    assert(jobs_for(one.drop_last(), setting) =~= Seq::<JobView>::empty());
    assert(one.last() == file);
    if let Some(job) = job_for(file, setting) {
        assert(jobs_for(one, setting) =~= seq![job]);
    }
    if more.len() == 0 {
        assert(files + more =~= files);
        assert(jobs_for(files, setting) + jobs_for(more, setting) =~= jobs_for(files, setting));
    } else {
        jobs_go_file_by_file(files, more.drop_last(), file, setting);
        assert((files + more).drop_last() =~= files + more.drop_last());
        assert(jobs_for(files + more, setting) =~= jobs_for(files, setting) + jobs_for(
            more,
            setting,
        ));
    }
}

/// There are no previews if and only if a table was to be made and could not, with nothing to
/// tell of it.
pub proof fn failed_table_leaves_nothing(jobs: Seq<JobView>, answers: Seq<Answer>)
    ensures
        assembled_of(jobs, answers) is None <==> exists|k: int|
            0 <= k < jobs.len() && k < answers.len() && (#[trigger] jobs[k]).work is MakeTable
                && answers[k] is Failed,
{
    if exists|k: int|
        0 <= k < jobs.len() && k < answers.len() && (#[trigger] jobs[k]).work is MakeTable
            && answers[k] is Failed {
        let k = choose|k: int|
            0 <= k < jobs.len() && k < answers.len() && (#[trigger] jobs[k]).work is MakeTable
                && answers[k] is Failed;
        assert(0 <= k < answered(jobs.len(), answers.len()));
    }
}

/// Whether `answer` is one to `work`, and makes `html` the preview.
pub open spec fn makes_preview(work: WorkView, answer: Answer, html: Seq<char>) -> bool {
    ||| work is PostProcess && answer is PostProcessed && html == answer->PostProcessed_0@
    ||| work is MakeTable && answer is Table && answer->Table_0 is Ok && html
        == answer->Table_0->Ok_0@
    ||| work is MakeAddress && answer is Address && html == svg_preview(
        answer->Address_0@,
        work->MakeAddress_name,
    )
}

/// Whether `answer` is one to `work`, and makes `text` the notice.
pub open spec fn makes_notice(work: WorkView, answer: Answer, text: Seq<char>) -> bool {
    work is MakeTable && answer is Table && answer->Table_0 is Err && text
        == answer->Table_0->Err_0@
}

proof fn maps_hold_what_came(
    jobs: Seq<JobView>,
    answers: Seq<Answer>,
    n: nat,
    k: int,
    text: Seq<char>,
)
    requires
        0 <= k < n <= jobs.len(),
        forall|j: int| k < j < jobs.len() ==> (#[trigger] jobs[j]).file != jobs[k].file,
    ensures
        makes_preview(jobs[k].work, answers[k], text) ==> previews_of(
            jobs,
            answers,
            n,
        ).contains_key(jobs[k].file) && previews_of(jobs, answers, n)[jobs[k].file] == text,
        makes_notice(jobs[k].work, answers[k], text) ==> notices_of(jobs, answers, n).contains_key(
            jobs[k].file,
        ) && notices_of(jobs, answers, n)[jobs[k].file] == text,
    decreases n,
{
    if k < n - 1 {
        maps_hold_what_came(jobs, answers, (n - 1) as nat, k, text);
        assert(jobs[n - 1].file != jobs[k].file);
    }
}

/// What comes of a file's last job is shown of the file: the HTML that was post-processed or the
/// table as it was made, the image from its address as it was written out, or the notice that was
/// given instead of a table.
pub proof fn what_came_is_shown(
    jobs: Seq<JobView>,
    answers: Seq<Answer>,
    previews: PreviewsView,
    k: int,
    text: Seq<char>,
)
    requires
        assembled_of(jobs, answers) == Some(previews),
        0 <= k < jobs.len(),
        k < answers.len(),
        forall|j: int| k < j < jobs.len() ==> (#[trigger] jobs[j]).file != jobs[k].file,
    ensures
        makes_preview(jobs[k].work, answers[k], text) ==> previews.rendered.contains_key(
            jobs[k].file,
        ) && previews.rendered[jobs[k].file] == text,
        makes_notice(jobs[k].work, answers[k], text) ==> previews.notices.contains_key(
            jobs[k].file,
        ) && previews.notices[jobs[k].file] == text,
{
    maps_hold_what_came(jobs, answers, answered(jobs.len(), answers.len()), k, text);
}

proof fn maps_hold_nothing_else(
    jobs: Seq<JobView>,
    answers: Seq<Answer>,
    n: nat,
    file: FileId,
)
    requires
        n <= jobs.len(),
        n <= answers.len(),
    ensures
        previews_of(jobs, answers, n).contains_key(file) ==> exists|k: int|
            0 <= k < n && (#[trigger] jobs[k]).file == file && makes_preview(
                jobs[k].work,
                answers[k],
                previews_of(jobs, answers, n)[file],
            ),
        notices_of(jobs, answers, n).contains_key(file) ==> exists|k: int|
            0 <= k < n && (#[trigger] jobs[k]).file == file && makes_notice(
                jobs[k].work,
                answers[k],
                notices_of(jobs, answers, n)[file],
            ),
    decreases n,
{
    if n > 0 {
        let last = n - 1;
        maps_hold_nothing_else(jobs, answers, last as nat, file);
        assert(jobs[last].file == jobs[last].file);
    }
}

/// Nothing else is shown of any file: a preview or a notice came of a job of the file's own.
pub proof fn nothing_else_is_shown(
    jobs: Seq<JobView>,
    answers: Seq<Answer>,
    previews: PreviewsView,
    file: FileId,
)
    requires
        assembled_of(jobs, answers) == Some(previews),
    ensures
        previews.rendered.contains_key(file) ==> exists|k: int|
            0 <= k < jobs.len() && k < answers.len() && (#[trigger] jobs[k]).file == file
                && makes_preview(jobs[k].work, answers[k], previews.rendered[file]),
        previews.notices.contains_key(file) ==> exists|k: int|
            0 <= k < jobs.len() && k < answers.len() && (#[trigger] jobs[k]).file == file
                && makes_notice(jobs[k].work, answers[k], previews.notices[file]),
{
    maps_hold_nothing_else(jobs, answers, answered(jobs.len(), answers.len()), file);
}

/// The view of jobs holds all of each, in their order.
pub proof fn jobs_are_viewed_whole(jobs: Seq<Job>, i: int)
    requires
        0 <= i < jobs.len(),
    ensures
        job_views(jobs).len() == jobs.len(),
        job_views(jobs)[i].file == jobs[i].file,
        jobs[i].work matches Work::PostProcess { html } ==> job_views(jobs)[i].work == (
        WorkView::PostProcess { html: html@ }),
        jobs[i].work matches Work::MakeTable { csv } ==> job_views(jobs)[i].work == (
        WorkView::MakeTable { csv: csv@ }),
        jobs[i].work matches Work::MakeAddress { name, address } ==> job_views(jobs)[i].work == (
        WorkView::MakeAddress {
            name: name@,
            address: RawAddressView {
                username: address.username@,
                paste: address.paste,
                file: address.file,
                preview: address.preview,
            },
        }),
{
}

/// The views of previews, of their setting and of what may be missing hold all of it.
pub proof fn previews_are_viewed_whole(previews: Previews, setting: Setting, text: String)
    ensures
        previews@.rendered == entries(previews.rendered),
        previews@.notices == entries(previews.notices),
        optional_previews(Some(previews)) == Some(previews@),
        optional_previews(None) is None,
        optional_text(Some(text)) == Some(text@),
        optional_text(None) is None,
        setting@ == (SettingView {
            username: setting.username@,
            paste: setting.paste,
            markdown_language: setting.markdown_language@,
        }),
{
}

} // verus!
