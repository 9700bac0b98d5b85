use maplibre_gl_js::book::{child_number, example_page, ExampleSources};
use maplibre_gl_js::tasks::invoked_as_pre_commit;

fn sources(readme: &str) -> ExampleSources {
    ExampleSources {
        id: "display-a-map".to_string(),
        readme: readme.to_string(),
        index_html: "<html></html>\n".to_string(),
        main_rs: "fn main() {}\n".to_string(),
        scss: "body {}\n".to_string(),
    }
}

#[test]
fn page_is_composed_from_the_sources() {
    let page = example_page(&sources("# Display a map\nInitialize a map in an HTML element.\n"), "http://localhost:3000")
        .expect("the README has a title and a description");
    let repo = "https://github.com/RabadanDotDev/maplibre-gl-js-rs/tree/main/examples/display-a-map";
    assert_eq!(page.title, "Display a map");
    assert_eq!(page.url, "examples/display-a-map-overview");
    assert_eq!(
        page.content,
        format!(
            "# Display a map [\u{1f517}]({repo})\nInitialize a map in an HTML element.\n\n\
             <iframe src='http://localhost:3000/examples/display-a-map/index.html', width=100%, height=300px></iframe>\n\n\
             ```rust\n// src/main.rs \n\nfn main() {{}}\n```\n\
             ```html\n<!-- index.html -->\n\n<html></html>\n```\n\
             ```css\n/* scss/style.scss */\n\nbody {{}}\n```"
        )
    );
    assert_eq!(
        page.snippet,
        format!(
            "## Display a map [\u{1f310}](examples/display-a-map-overview.html) [\u{1f517}]({repo})\n\
             <a href=examples/display-a-map-overview.html><img style='opacity: 0.5' src=examples/display-a-map/preview.png></a>\n\
             Initialize a map in an HTML element.\n"
        )
    );
}

#[test]
fn carriage_return_is_not_part_of_the_title() {
    let page = example_page(&sources("# Title\r\nText"), "base").expect("title and description");
    assert_eq!(page.title, "Title");
    assert!(page.content.contains("\n\nText\n"));
}

#[test]
fn readme_without_title_or_description_gives_no_page() {
    assert_eq!(example_page(&sources(""), "base"), None);
    assert_eq!(example_page(&sources("#"), "base"), None);
    assert_eq!(example_page(&sources("# Only a title"), "base"), None);
}

#[test]
fn examples_are_numbered_under_their_chapter() {
    assert_eq!(child_number(&vec![3], 1), vec![3, 1]);
    assert_eq!(child_number(&vec![], 2), vec![2]);
}

#[test]
fn pre_commit_hook_is_recognized_by_name() {
    assert!(invoked_as_pre_commit(".git/hooks/pre-commit"));
    assert!(invoked_as_pre_commit("pre-commit"));
    assert!(!invoked_as_pre_commit("target/debug/xtask"));
    assert!(!invoked_as_pre_commit("pre-comm"));
    assert!(!invoked_as_pre_commit(""));
}

