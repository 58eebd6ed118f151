use webserver::previews::{
    assemble, job, jobs, kind, Answer, Content, Job, Kind, OutputFile, Setting, Work,
};
use webserver::reply::RawAddress;

fn setting() -> Setting {
    Setting { username: "ann".to_string(), paste: 5, markdown_language: "markdown".to_string() }
}

fn image(file: u128, name: &str) -> Job {
    let address =
        RawAddress { username: "ann".to_string(), paste: 5, file, preview: Some(true) };
    Job { file, work: Work::MakeAddress { name: name.to_string(), address } }
}

fn file(id: u128, name: &str, language: Option<&str>, text: &str) -> OutputFile {
    OutputFile {
        id,
        name: Some(name.to_string()),
        highlight_language: language.map(|language| language.to_string()),
        content: Some(Content::Text(text.to_string())),
    }
}

fn kind_of(lower: &str, language: Option<&str>) -> Option<Kind> {
    kind(lower, &language.map(|language| language.to_string()), &"markdown".to_string())
}

#[test]
fn kinds_follow_name_and_language() {
    assert_eq!(kind_of("readme.md", None), Some(Kind::Markdown));
    assert_eq!(kind_of("readme.mdown", None), Some(Kind::Markdown));
    assert_eq!(kind_of("readme.markdown", None), Some(Kind::Markdown));
    assert_eq!(kind_of("table.csv", None), Some(Kind::Csv));
    assert_eq!(kind_of("image.svg", None), Some(Kind::Svg));
    assert_eq!(kind_of("main.rs", None), None);
    assert_eq!(kind_of("md", None), None);
}

#[test]
fn a_language_overrides_some_names() {
    assert_eq!(kind_of("readme.md", Some("rust")), None);
    assert_eq!(kind_of("readme.mdown", Some("rust")), Some(Kind::Markdown));
    assert_eq!(kind_of("readme.markdown", Some("rust")), Some(Kind::Markdown));
    assert_eq!(kind_of("table.csv", Some("rust")), None);
    assert_eq!(kind_of("image.svg", Some("xml")), Some(Kind::Svg));
    assert_eq!(kind_of("main.rs", Some("markdown")), Some(Kind::Markdown));
    assert_eq!(kind_of("image.svg", Some("markdown")), Some(Kind::Markdown));
    assert_eq!(kind_of("table.csv", Some("markdown")), Some(Kind::Markdown));
}

#[test]
fn names_are_matched_in_lower_case() {
    let upper = file(1, "README.MD", None, "*a*");
    assert_eq!(
        job(&upper, &setting()),
        Some(Job { file: 1, work: Work::PostProcess { html: "<p><em>a</em></p>\n".to_string() } }),
    );
    let svg = file(2, "Image.SVG", None, "<svg/>");
    assert_eq!(
        job(&svg, &setting()),
        Some(image(2, "Image.SVG")),
    );
}

#[test]
fn files_without_name_or_text_have_no_job() {
    let nameless = OutputFile {
        id: 1,
        name: None,
        highlight_language: Some("markdown".to_string()),
        content: Some(Content::Text("a".to_string())),
    };
    assert_eq!(job(&nameless, &setting()), None);
    let mut empty = file(2, "a.md", None, "");
    empty.content = None;
    assert_eq!(job(&empty, &setting()), None);
    let mut binary = file(3, "a.svg", None, "");
    binary.content = Some(Content::Binary);
    assert_eq!(job(&binary, &setting()), None);
}

#[test]
fn jobs_keep_the_order_of_files() {
    let files = vec![
        file(1, "a.csv", None, "x,y"),
        file(2, "main.rs", None, "fn main() {}"),
        file(3, "b.svg", None, "<svg/>"),
        file(4, "c.md", None, "c"),
    ];
    let jobs = jobs(&files, &setting());
    assert_eq!(
        jobs,
        vec![
            Job { file: 1, work: Work::MakeTable { csv: "x,y".to_string() } },
            image(3, "b.svg"),
            Job { file: 4, work: Work::PostProcess { html: "<p>c</p>\n".to_string() } },
        ],
    );
}

fn table(file: u128) -> Job {
    Job { file, work: Work::MakeTable { csv: String::new() } }
}

#[test]
fn answers_become_previews_and_notices() {
    let jobs = vec![
        table(1),
        table(2),
        image(3, "b.svg"),
        Job { file: 4, work: Work::PostProcess { html: String::new() } },
    ];
    let answers = vec![
        Answer::Table(Ok("<table></table>".to_string())),
        Answer::Table(Err("too long".to_string())),
        Answer::Address("raw".to_string()),
        Answer::PostProcessed("<p>c</p>".to_string()),
    ];
    let previews = assemble(jobs, answers).unwrap();
    assert_eq!(previews.rendered.len(), 3);
    assert_eq!(previews.rendered[&1], "<table></table>");
    assert_eq!(previews.rendered[&3], "<img src=\"raw\" alt=\"b.svg SVG preview\"/>");
    assert_eq!(previews.rendered[&4], "<p>c</p>");
    assert_eq!(previews.notices.len(), 1);
    assert_eq!(previews.notices[&2], "too long");
}

#[test]
fn the_later_of_two_answers_wins() {
    let previews = assemble(
        vec![table(1), table(1)],
        vec![Answer::Table(Ok("a".to_string())), Answer::Table(Ok("b".to_string()))],
    )
    .unwrap();
    assert_eq!(previews.rendered.len(), 1);
    assert_eq!(previews.rendered[&1], "b");
}

#[test]
fn answers_that_do_not_fit_show_nothing() {
    let previews = assemble(
        vec![table(1), table(2)],
        vec![Answer::Address("a".to_string())],
    )
    .unwrap();
    assert!(previews.rendered.is_empty());
    assert!(previews.notices.is_empty());
}

#[test]
fn no_file_has_both_preview_and_notice() {
    let files = vec![file(1, "a.csv", None, "x"), file(2, "b.csv", None, "y")];
    let jobs = jobs(&files, &setting());
    let previews = assemble(
        jobs,
        vec![Answer::Table(Ok("t".to_string())), Answer::Table(Err("n".to_string()))],
    )
    .unwrap();
    for id in [1u128, 2] {
        assert!(previews.rendered.contains_key(&id) != previews.notices.contains_key(&id));
    }
}

#[test]
fn a_failed_table_leaves_no_previews() {
    let answers = vec![Answer::Table(Ok("a".to_string())), Answer::Failed];
    assert!(assemble(vec![table(1), table(2)], answers).is_none());
    let markdown = Job { file: 3, work: Work::PostProcess { html: String::new() } };
    let previews = assemble(vec![markdown], vec![Answer::Failed]).unwrap();
    assert!(previews.rendered.is_empty());
    assert!(assemble(vec![], vec![Answer::Failed]).is_some());
}
