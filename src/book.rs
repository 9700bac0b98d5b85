//! The documentation book's examples preprocessor.

use vstd::prelude::*;
use vstd::string::{StrSliceExecFns, StringExecFns};

verus! {

/// Whether the examples preprocessor supports the renderer of this name:
/// every renderer but `not-supported`.
pub open spec fn renderer_supported(renderer: Seq<char>) -> bool {
    renderer != "not-supported"@
}

/// The preprocessor that adds a page for each example to the book's
/// `Examples` chapter.
#[derive(Debug, Clone, PartialEq, Eq)]
pub struct ExamplesPreprocessor {
    /// The directory that holds one directory per example
    pub examples_dir: String,
}

impl ExamplesPreprocessor {
    /// The preprocessor's name.
    pub fn name(&self) -> (r: &'static str)
        ensures
            r@ == "examples-preprocessor"@,
    {
        "examples-preprocessor"
    }

    /// Whether the preprocessor supports the renderer of this name.
    pub fn supports(renderer: &String) -> (r: bool)
        ensures
            r == renderer_supported(renderer@),
    {
        let unsupported = "not-supported".to_owned();
        !(*renderer == unsupported)
    }

    /// Whether this preprocessor supports the renderer of this name.
    pub fn supports_renderer(&self, renderer: &String) -> (r: bool)
        ensures
            r == renderer_supported(renderer@),
    {
        ExamplesPreprocessor::supports(renderer)
    }
}

/// Where the repository's sources are browsed.
pub const REPOSITORY_URL: &'static str = "https://github.com/RabadanDotDev/maplibre-gl-js-rs/tree/main";

/// Whether `text` holds no line break.
pub open spec fn single_line(text: Seq<char>) -> bool {
    forall|k: int| 0 <= k < text.len() ==> text[k] != '\n'
}

/// Where the first line of `text` ends: at its first line break, or at its
/// end when it has none.
pub open spec fn is_first_line_end(text: Seq<char>, end: int) -> bool {
    &&& 0 <= end <= text.len()
    &&& single_line(text.subrange(0, end))
    &&& (end == text.len() || text[end] == '\n')
}

/// The first line of `text`, without its line break and without a carriage
/// return before it.
pub open spec fn first_line(text: Seq<char>) -> Seq<char> {
    let end = choose|end: int| is_first_line_end(text, end);
    let line = text.subrange(0, end);
    if line.len() > 0 && line.last() == '\r' {
        line.drop_last()
    } else {
        line
    }
}

/// An example's title and description, read from its README: the title is
/// the first line after its two leading characters (`# `), the description
/// is what follows the title's line break. `None` for a README too short to
/// hold either.
pub open spec fn title_and_description(readme: Seq<char>) -> Option<(Seq<char>, Seq<char>)> {
    let line = first_line(readme);
    if readme.len() == 0 || line.len() < 2 || line.len() + 1 > readme.len() {
        None
    } else {
        Some((line.subrange(2, line.len() as int), readme.subrange((line.len() + 1) as int, readme.len() as int)))
    }
}

/// The sources that an example's page shows.
#[derive(Debug, Clone, PartialEq, Eq)]
pub struct ExampleSources {
    /// The example's directory name
    pub id: String,
    /// Its `README.md`: a `# title` line, then the description
    pub readme: String,
    /// Its `index.html`
    pub index_html: String,
    /// Its `src/main.rs`
    pub main_rs: String,
    /// Its `scss/style.scss`
    pub scss: String,
}

/// An example's page in the book, and the entry that points to it from the
/// `Examples` chapter.
#[derive(Debug, Clone, PartialEq, Eq)]
pub struct ExamplePage {
    /// The page's title
    pub title: String,
    /// The page's path in the book, without extension
    pub url: String,
    /// The page's Markdown
    pub content: String,
    /// The entry appended to the `Examples` chapter
    pub snippet: String,
}

/// The path of an example's page.
pub open spec fn page_url(id: Seq<char>) -> Seq<char> {
    "examples/"@ + id + "-overview"@
}

/// Where an example's sources are browsed.
pub open spec fn repository_url(id: Seq<char>) -> Seq<char> {
    REPOSITORY_URL@ + "/examples/"@ + id
}

/// The page's Markdown: title and link to the sources, description, the
/// running example in a frame, then its three sources.
pub open spec fn page_content(
    src: (Seq<char>, Seq<char>, Seq<char>, Seq<char>, Seq<char>),
    base_dir: Seq<char>,
    title: Seq<char>,
    description: Seq<char>,
) -> Seq<char> {
    let (id, _, index_html, main_rs, scss) = src;
    "# "@ + title + " [\u{1f517}]("@ + repository_url(id) + ")\n"@ + description + "\n"@
        + "<iframe src='"@ + base_dir + "/examples/"@ + id
        + "/index.html', width=100%, height=300px></iframe>\n"@ + "\n"@
        + "```rust\n// src/main.rs \n\n"@ + main_rs + "```"@ + "\n"@
        + "```html\n<!-- index.html -->\n\n"@ + index_html + "```"@ + "\n"@
        + "```css\n/* scss/style.scss */\n\n"@ + scss + "```"@
}

/// The chapter's entry: title with links to the page and to the sources,
/// a dimmed preview linking to the page, and the description.
pub open spec fn page_snippet(id: Seq<char>, title: Seq<char>, description: Seq<char>) -> Seq<char> {
    "## "@ + title + " [\u{1f310}]("@ + page_url(id) + ".html) [\u{1f517}]("@ + repository_url(id) + ")\n"@
        + "<a href="@ + page_url(id) + ".html><img style='opacity: 0.5' src=examples/"@ + id
        + "/preview.png></a>"@ + "\n"@ + description
}

impl ExampleSources {
    /// The sources as a tuple of views.
    pub open spec fn views(&self) -> (Seq<char>, Seq<char>, Seq<char>, Seq<char>, Seq<char>) {
        (self.id@, self.readme@, self.index_html@, self.main_rs@, self.scss@)
    }
}

/// Find where the first line of `text` ends.
fn first_line_end(text: &str) -> (end: usize)
    ensures
        is_first_line_end(text@, end as int),
{
    let n = text.unicode_len();
    let mut i: usize = 0;
    while i < n
        invariant
            n == text@.len(),
            i <= n,
            single_line(text@.subrange(0, i as int)),
        decreases n - i,
    {
        if text.get_char(i) == '\n' {
            return i;
        }
        assert(text@.subrange(0, i + 1) =~= text@.subrange(0, i as int).push(text@[i as int]));
        i = i + 1;
    }
    assert(text@.subrange(0, i as int) =~= text@);
    i
}

proof fn lemma_first_line_end_unique(text: Seq<char>, a: int, b: int)
    requires
        is_first_line_end(text, a),
        is_first_line_end(text, b),
    ensures
        a == b,
{
    if a < b {
        assert(text.subrange(0, b)[a] == text[a]);
    } else if b < a {
        assert(text.subrange(0, a)[b] == text[b]);
    }
}

/// Build an example's page from its sources; `base_dir` is where the book is
/// served. `None` when the README holds no title and description (see
/// `title_and_description`).
pub fn example_page(sources: &ExampleSources, base_dir: &str) -> (r: Option<ExamplePage>)
    ensures
        match title_and_description(sources.readme@) {
            None => r is None,
            Some((title, description)) => r matches Some(page) && page.title@ == title
                && page.url@ == page_url(sources.id@)
                && page.content@ == page_content(sources.views(), base_dir@, title, description)
                && page.snippet@ == page_snippet(sources.id@, title, description),
        },
{
    let readme = sources.readme.as_str();
    let n = readme.unicode_len();
    let end = first_line_end(readme);
    let mut line_len = end;
    if end > 0 && readme.get_char(end - 1) == '\r' {
        line_len = end - 1;
    }
    proof {
        let chosen = choose|e: int| is_first_line_end(readme@, e);
        lemma_first_line_end_unique(readme@, chosen, end as int);
        assert(first_line(readme@) =~= readme@.subrange(0, line_len as int));
    }
    if n == 0 || line_len < 2 || line_len >= n {
        return None;
    }
    let title = readme.substring_char(2, line_len);
    let description = readme.substring_char(line_len + 1, n);
    assert(title@ =~= first_line(readme@).subrange(2, line_len as int));
    let id = sources.id.as_str();

    let mut url = "examples/".to_owned();
    url.append(id);
    url.append("-overview");

    let mut repo_url = REPOSITORY_URL.to_owned();
    repo_url.append("/examples/");
    repo_url.append(id);

    let mut content = "# ".to_owned();
    content.append(title);
    content.append(" [\u{1f517}](");
    content.append(repo_url.as_str());
    content.append(")\n");
    content.append(description);
    content.append("\n");
    content.append("<iframe src='");
    content.append(base_dir);
    content.append("/examples/");
    content.append(id);
    content.append("/index.html', width=100%, height=300px></iframe>\n");
    content.append("\n");
    content.append("```rust\n// src/main.rs \n\n");
    content.append(sources.main_rs.as_str());
    content.append("```");
    content.append("\n");
    content.append("```html\n<!-- index.html -->\n\n");
    content.append(sources.index_html.as_str());
    content.append("```");
    content.append("\n");
    content.append("```css\n/* scss/style.scss */\n\n");
    content.append(sources.scss.as_str());
    content.append("```");

    let mut snippet = "## ".to_owned();
    snippet.append(title);
    snippet.append(" [\u{1f310}](");
    snippet.append(url.as_str());
    snippet.append(".html) [\u{1f517}](");
    snippet.append(repo_url.as_str());
    snippet.append(")\n");
    snippet.append("<a href=");
    snippet.append(url.as_str());
    snippet.append(".html><img style='opacity: 0.5' src=examples/");
    snippet.append(id);
    snippet.append("/preview.png></a>");
    snippet.append("\n");
    snippet.append(description);

    Some(ExamplePage { title: title.to_owned(), url, content, snippet })
}

/// The section number of the `index`-th example under a chapter numbered
/// `parent`.
pub fn child_number(parent: &Vec<u32>, index: u32) -> (r: Vec<u32>)
    ensures
        r@ == parent@.push(index),
{
    let mut r = parent.clone();
    r.push(index);
    r
}

} // verus!
