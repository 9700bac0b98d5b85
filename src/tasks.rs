//! The repository's developer tasks: each command of the task runner is
//! planned here as the steps that carry it out, and the runner performs
//! them in order, stopping at the first that fails.

use vstd::prelude::*;
use vstd::string::StrSliceExecFns;

use crate::book::{renderer_supported, ExamplesPreprocessor};

verus! {

/// The directory that a process runs in.
#[derive(Debug, Clone, Copy, PartialEq, Eq, Structural)]
pub enum WorkDir {
    /// The root of the repository
    ProjectRoot,
    /// The documentation book, `doc` under the root
    Book,
}

/// A process to run: a program, its arguments and its directory.
#[derive(Debug, Clone, PartialEq, Eq)]
pub struct ProcessCall {
    /// The program
    pub program: String,
    /// Its arguments, in order
    pub args: Vec<String>,
    /// Where it runs
    pub dir: WorkDir,
}

/// What a `ProcessCall` holds.
pub struct CallView {
    pub program: Seq<char>,
    pub args: Seq<Seq<char>>,
    pub dir: WorkDir,
}

impl View for ProcessCall {
    type V = CallView;

    open spec fn view(&self) -> CallView {
        CallView { program: self.program@, args: self.args@.map_values(|a: String| a@), dir: self.dir }
    }
}

/// One step of a task.
#[derive(Debug, Clone, PartialEq, Eq)]
pub enum Step {
    /// Install the runner as the repository's pre-commit hook
    InstallPreCommitHook,
    /// Run a process; a failure ends the task
    Run(ProcessCall),
    /// Answer whether the examples preprocessor supports a renderer: the
    /// task succeeds when it does
    ReportSupport(bool),
    /// Read a book on standard input, add the examples chapter's pages, and
    /// write the book to standard output
    PreprocessBook,
}

/// What a `Step` holds.
pub enum StepView {
    InstallPreCommitHook,
    Run(CallView),
    ReportSupport(bool),
    PreprocessBook,
}

impl View for Step {
    type V = StepView;

    open spec fn view(&self) -> StepView {
        match self {
            Step::InstallPreCommitHook => StepView::InstallPreCommitHook,
            Step::Run(c) => StepView::Run(c@),
            Step::ReportSupport(b) => StepView::ReportSupport(*b),
            Step::PreprocessBook => StepView::PreprocessBook,
        }
    }
}

/// Options of `Command::Format`.
#[derive(Debug, Clone, Copy, PartialEq, Eq, Structural)]
pub struct FormatOpts {
    /// Only check the formatting, change no file
    pub check_only: bool,
}

/// The browsers that the WebAssembly tests run in.
#[derive(Debug, Clone, Copy, PartialEq, Eq, Structural)]
pub enum WasmTestMode {
    /// Headless Chrome and Firefox
    HeadlessChromeAndFirefox,
    /// Headless Chrome
    HeadlessChrome,
    /// Headless Firefox
    HeadlessFirefox,
    /// Chrome, with its window
    Chrome,
    /// Firefox, with its window
    Firefox,
}

/// Options of `Command::WasmTest`.
#[derive(Debug, Clone, Copy, PartialEq, Eq, Structural)]
pub struct WasmTestOpts {
    /// The browsers; both headless ones when absent
    pub mode: Option<WasmTestMode>,
}

/// The question that `Command::BookGenerateExamples` may be asked.
#[derive(Debug, Clone, PartialEq, Eq)]
pub enum BookGenerateExamplesSupports {
    /// Whether the preprocessor supports the renderer of this name
    Supports {
        /// The renderer's name
        renderer: String,
    },
}

/// Options of `Command::BookGenerateExamples`.
#[derive(Debug, Clone, PartialEq, Eq)]
pub struct BookGenerateExamples {
    /// A question about renderers; without one, the book is preprocessed
    pub supports: Option<BookGenerateExamplesSupports>,
}

/// A command of the task runner.
#[derive(Debug, Clone, PartialEq, Eq)]
pub enum Command {
    /// Install the runner as the pre-commit hook
    InstallPreCommitHook,
    /// Install the tools that the other commands use
    InstallDependencies,
    /// Format the sources, or check their formatting
    Format(FormatOpts),
    /// Lint every target
    Clippy,
    /// Run the native tests
    RegularTest,
    /// Run the WebAssembly tests in browsers
    WasmTest(WasmTestOpts),
    /// Run every check: formatting, lints, native and WebAssembly tests
    Checks,
    /// Serve the documentation book
    ServeBook,
    /// Act as the book's examples preprocessor
    BookGenerateExamples(BookGenerateExamples),
}

/// The task runner's command line.
#[derive(Debug, Clone, PartialEq, Eq)]
pub struct Cli {
    /// The command given
    pub command: Command,
}

/// A process run in the repository's root.
pub open spec fn at_root(program: Seq<char>, args: Seq<Seq<char>>) -> CallView {
    CallView { program, args, dir: WorkDir::ProjectRoot }
}

/// The plan of `Command::Format`.
pub open spec fn format_call(opts: FormatOpts) -> CallView {
    if opts.check_only {
        at_root("cargo"@, seq!["fmt"@, "--check"@])
    } else {
        at_root("cargo"@, seq!["fmt"@])
    }
}

/// The plan of `Command::Clippy`.
pub open spec fn clippy_call() -> CallView {
    at_root("cargo"@, seq!["clippy"@, "--all-targets"@])
}

/// The plan of `Command::RegularTest`.
pub open spec fn regular_test_call() -> CallView {
    at_root("cargo"@, seq!["test"@])
}

/// The plan of `Command::WasmTest`.
pub open spec fn wasm_test_call(opts: WasmTestOpts) -> CallView {
    let mode = match opts.mode {
        Some(m) => m,
        None => WasmTestMode::HeadlessChromeAndFirefox,
    };
    at_root("wasm-pack"@, match mode {
        WasmTestMode::HeadlessChromeAndFirefox => seq!["test"@, "--headless"@, "--chrome"@, "--firefox"@],
        WasmTestMode::HeadlessChrome => seq!["test"@, "--headless"@, "--chrome"@],
        WasmTestMode::HeadlessFirefox => seq!["test"@, "--headless"@, "--firefox"@],
        WasmTestMode::Chrome => seq!["test"@, "--chrome"@],
        WasmTestMode::Firefox => seq!["test"@, "--firefox"@],
    })
}

/// The plan of `Command::InstallDependencies`.
pub open spec fn install_dependencies_calls() -> Seq<CallView> {
    seq![
        at_root("cargo"@, seq!["install"@, "wasm-pack"@, "--version"@, "^0.13"@]),
        at_root("cargo"@, seq!["install"@, "trunk"@, "--version"@, "^0.21"@]),
        at_root("cargo"@, seq!["install"@, "mdbook"@, "--version"@, "^0.4"@]),
    ]
}

/// The plan of `Command::Checks`: formatting checked, lints, native tests,
/// and WebAssembly tests in both headless browsers.
pub open spec fn checks_calls() -> Seq<CallView> {
    seq![
        format_call(FormatOpts { check_only: true }),
        clippy_call(),
        regular_test_call(),
        wasm_test_call(WasmTestOpts { mode: Some(WasmTestMode::HeadlessChromeAndFirefox) }),
    ]
}

/// The plan of `Command::ServeBook`.
pub open spec fn serve_book_call() -> CallView {
    CallView { program: "mdbook"@, args: seq!["serve"@], dir: WorkDir::Book }
}

/// Each process call as a step.
pub open spec fn run_steps(calls: Seq<CallView>) -> Seq<StepView> {
    calls.map_values(|c: CallView| StepView::Run(c))
}

/// The steps that carry out a command.
pub open spec fn plan_of(command: Command) -> Seq<StepView> {
    match command {
        Command::InstallPreCommitHook => seq![StepView::InstallPreCommitHook],
        Command::InstallDependencies => run_steps(install_dependencies_calls()),
        Command::Format(opts) => seq![StepView::Run(format_call(opts))],
        Command::Clippy => seq![StepView::Run(clippy_call())],
        Command::RegularTest => seq![StepView::Run(regular_test_call())],
        Command::WasmTest(opts) => seq![StepView::Run(wasm_test_call(opts))],
        Command::Checks => run_steps(checks_calls()),
        Command::ServeBook => seq![StepView::Run(serve_book_call())],
        Command::BookGenerateExamples(b) => match b.supports {
            Some(BookGenerateExamplesSupports::Supports { renderer }) => seq![
                StepView::ReportSupport(renderer_supported(renderer@)),
            ],
            None => seq![StepView::PreprocessBook],
        },
    }
}

/// Own copies of the given strings.
fn owned_strings(items: Vec<&str>) -> (r: Vec<String>)
    ensures
        r@.map_values(|s: String| s@) == items@.map_values(|s: &str| s@),
{
    let mut r: Vec<String> = Vec::new();
    let mut i: usize = 0;
    while i < items.len()
        invariant
            i <= items.len(),
            r@.len() == i,
            r@.map_values(|s: String| s@) == items@.subrange(0, i as int).map_values(|s: &str| s@),
        decreases items.len() - i,
    {
        let ghost before = r@;
        let item = items[i].to_owned();
        r.push(item);
        proof {
            let done = items@.subrange(0, i + 1);
            assert forall|j: int| 0 <= j < r@.len() implies #[trigger] r@[j]@ == done[j]@ by {
                if j < i {
                    assert(r@[j] == before[j]);
                    assert(items@.subrange(0, i as int)[j] == done[j]);
                    assert(before.map_values(|s: String| s@)[j] == items@.subrange(0, i as int).map_values(|s: &str| s@)[j]);
                }
            }
            assert(r@.map_values(|s: String| s@) =~= done.map_values(|s: &str| s@));
        }
        i = i + 1;
    }
    assert(items@.subrange(0, i as int) =~= items@);
    r
}

/// A process call, from literals.
fn call(program: &str, args: Vec<&str>, dir: WorkDir) -> (r: ProcessCall)
    ensures
        r@ == (CallView { program: program@, args: args@.map_values(|s: &str| s@), dir }),
{
    ProcessCall { program: program.to_owned(), args: owned_strings(args), dir }
}

/// The view of each call of a plan.
pub open spec fn calls_view(calls: Seq<ProcessCall>) -> Seq<CallView> {
    calls.map_values(|c: ProcessCall| c@)
}

/// The view of each step of a plan.
pub open spec fn steps_view(steps: Seq<Step>) -> Seq<StepView> {
    steps.map_values(|s: Step| s@)
}

/// Each process call as a step.
fn runs(calls: Vec<ProcessCall>) -> (r: Vec<Step>)
    ensures
        steps_view(r@) == run_steps(calls_view(calls@)),
{
    let ghost all = calls@;
    let mut rest = calls;
    let mut r: Vec<Step> = Vec::new();
    while rest.len() > 0
        invariant
            r@.len() + rest@.len() == all.len(),
            rest@ == all.subrange(r@.len() as int, all.len() as int),
            forall|j: int| 0 <= j < r@.len() ==> #[trigger] r@[j]@ == StepView::Run(all[j]@),
        decreases rest.len(),
    {
        let ghost k = r@.len();
        let c = rest.remove(0);
        assert(c == all[k as int]);
        r.push(Step::Run(c));
        assert(rest@ =~= all.subrange(r@.len() as int, all.len() as int));
    }
    assert(steps_view(r@) =~= run_steps(calls_view(all)));
    r
}

/// Install the tools that the other tasks use: `wasm-pack`, `trunk` and
/// `mdbook`, each within a compatible version.
pub fn run_install_dependencies() -> (r: Vec<ProcessCall>)
    ensures
        calls_view(r@) == install_dependencies_calls(),
{
    let a = vec!["install", "wasm-pack", "--version", "^0.13"];
    let b = vec!["install", "trunk", "--version", "^0.21"];
    let c = vec!["install", "mdbook", "--version", "^0.4"];
    assert(a@.map_values(|s: &str| s@) =~= seq!["install"@, "wasm-pack"@, "--version"@, "^0.13"@]);
    assert(b@.map_values(|s: &str| s@) =~= seq!["install"@, "trunk"@, "--version"@, "^0.21"@]);
    assert(c@.map_values(|s: &str| s@) =~= seq!["install"@, "mdbook"@, "--version"@, "^0.4"@]);
    let r = vec![
        call("cargo", a, WorkDir::ProjectRoot),
        call("cargo", b, WorkDir::ProjectRoot),
        call("cargo", c, WorkDir::ProjectRoot),
    ];
    assert(calls_view(r@) =~= install_dependencies_calls());
    r
}

/// Format the sources, or only check their formatting.
pub fn run_format(opts: FormatOpts) -> (r: ProcessCall)
    ensures
        r@ == format_call(opts),
{
    if opts.check_only {
        let args = vec!["fmt", "--check"];
        assert(args@.map_values(|s: &str| s@) =~= seq!["fmt"@, "--check"@]);
        call("cargo", args, WorkDir::ProjectRoot)
    } else {
        let args = vec!["fmt"];
        assert(args@.map_values(|s: &str| s@) =~= seq!["fmt"@]);
        call("cargo", args, WorkDir::ProjectRoot)
    }
}

/// Lint every target.
pub fn run_clippy() -> (r: ProcessCall)
    ensures
        r@ == clippy_call(),
{
    let args = vec!["clippy", "--all-targets"];
    assert(args@.map_values(|s: &str| s@) =~= seq!["clippy"@, "--all-targets"@]);
    call("cargo", args, WorkDir::ProjectRoot)
}

/// Run the native tests.
pub fn run_regular_tests() -> (r: ProcessCall)
    ensures
        r@ == regular_test_call(),
{
    let args = vec!["test"];
    assert(args@.map_values(|s: &str| s@) =~= seq!["test"@]);
    call("cargo", args, WorkDir::ProjectRoot)
}

/// Run the WebAssembly tests in the chosen browsers.
pub fn run_wasm_tests(opts: WasmTestOpts) -> (r: ProcessCall)
    ensures
        r@ == wasm_test_call(opts),
{
    let mode = match opts.mode {
        Some(m) => m,
        None => WasmTestMode::HeadlessChromeAndFirefox,
    };
    let args = match mode {
        WasmTestMode::HeadlessChromeAndFirefox => vec!["test", "--headless", "--chrome", "--firefox"],
        WasmTestMode::HeadlessChrome => vec!["test", "--headless", "--chrome"],
        WasmTestMode::HeadlessFirefox => vec!["test", "--headless", "--firefox"],
        WasmTestMode::Chrome => vec!["test", "--chrome"],
        WasmTestMode::Firefox => vec!["test", "--firefox"],
    };
    assert(args@.map_values(|s: &str| s@) =~= match mode {
        WasmTestMode::HeadlessChromeAndFirefox => seq!["test"@, "--headless"@, "--chrome"@, "--firefox"@],
        WasmTestMode::HeadlessChrome => seq!["test"@, "--headless"@, "--chrome"@],
        WasmTestMode::HeadlessFirefox => seq!["test"@, "--headless"@, "--firefox"@],
        WasmTestMode::Chrome => seq!["test"@, "--chrome"@],
        WasmTestMode::Firefox => seq!["test"@, "--firefox"@],
    });
    call("wasm-pack", args, WorkDir::ProjectRoot)
}

/// Every check, in order: formatting checked, lints, native tests, and
/// WebAssembly tests in both headless browsers.
pub fn run_checks() -> (r: Vec<ProcessCall>)
    ensures
        calls_view(r@) == checks_calls(),
{
    let r = vec![
        run_format(FormatOpts { check_only: true }),
        run_clippy(),
        run_regular_tests(),
        run_wasm_tests(WasmTestOpts { mode: Some(WasmTestMode::HeadlessChromeAndFirefox) }),
    ];
    assert(calls_view(r@) =~= checks_calls());
    r
}

/// Serve the documentation book.
pub fn run_serve_book() -> (r: ProcessCall)
    ensures
        r@ == serve_book_call(),
{
    let args = vec!["serve"];
    assert(args@.map_values(|s: &str| s@) =~= seq!["serve"@]);
    call("mdbook", args, WorkDir::Book)
}

/// The steps of the book's examples preprocessor: an answer about a
/// renderer, or the preprocessing of a book.
pub fn run_book_generate_examples(cmd: BookGenerateExamples) -> (r: Vec<Step>)
    ensures
        steps_view(r@) == plan_of(Command::BookGenerateExamples(cmd)),
{
    let r = match cmd.supports {
        Some(BookGenerateExamplesSupports::Supports { renderer }) => {
            vec![Step::ReportSupport(ExamplesPreprocessor::supports(&renderer))]
        },
        None => vec![Step::PreprocessBook],
    };
    assert(steps_view(r@) =~= plan_of(Command::BookGenerateExamples(cmd)));
    r
}

impl Cli {
    /// The steps that carry out the command given.
    pub fn eval(self) -> (r: Vec<Step>)
        ensures
            steps_view(r@) == plan_of(self.command),
    {
        let ghost command = self.command;
        let r = match self.command {
            Command::InstallPreCommitHook => vec![Step::InstallPreCommitHook],
            Command::InstallDependencies => runs(run_install_dependencies()),
            Command::Format(opts) => vec![Step::Run(run_format(opts))],
            Command::Clippy => vec![Step::Run(run_clippy())],
            Command::RegularTest => vec![Step::Run(run_regular_tests())],
            Command::WasmTest(opts) => vec![Step::Run(run_wasm_tests(opts))],
            Command::Checks => runs(run_checks()),
            Command::ServeBook => vec![Step::Run(run_serve_book())],
            Command::BookGenerateExamples(b) => run_book_generate_examples(b),
        };
        assert(steps_view(r@) =~= plan_of(command));
        r
    }
}

/// Whether the program was started by the name of the pre-commit hook:
/// its name holds `pre-commit`.
pub open spec fn is_pre_commit_name(program: Seq<char>) -> bool {
    exists|i: int|
        0 <= i && i + "pre-commit"@.len() <= program.len()
            && #[trigger] program.subrange(i, i + "pre-commit"@.len()) == "pre-commit"@
}

/// Whether the program was started by the name of the pre-commit hook.
pub fn invoked_as_pre_commit(program: &str) -> (r: bool)
    ensures
        r == is_pre_commit_name(program@),
{
    proof {
        reveal_strlit("pre-commit");
    }
    let needle = "pre-commit".to_owned();
    let k = needle.as_str().unicode_len();
    let n = program.unicode_len();
    if n < k {
        return false;
    }
    let mut i: usize = 0;
    while i <= n - k
        invariant
            k == "pre-commit"@.len(),
            k == 10,
            needle@ == "pre-commit"@,
            n == program@.len(),
            k <= n,
            i <= n - k + 1,
            forall|j: int| 0 <= j < i ==> #[trigger] program@.subrange(j, j + k) != "pre-commit"@,
        decreases n - i,
    {
        let window = program.substring_char(i, i + k).to_owned();
        if window == needle {
            return true;
        }
        i = i + 1;
    }
    assert forall|j: int| 0 <= j && j + k <= n implies #[trigger] program@.subrange(j, j + k) != "pre-commit"@ by {
        assert(j < i);
    }
    false
}

} // verus!
