use maplibre_gl_js::book::ExamplesPreprocessor;
use maplibre_gl_js::tasks::{
    run_checks, BookGenerateExamples, BookGenerateExamplesSupports, Cli, Command, FormatOpts, ProcessCall, Step,
    WasmTestMode, WasmTestOpts, WorkDir,
};

fn at_root(program: &str, args: &[&str]) -> ProcessCall {
    ProcessCall {
        program: program.to_string(),
        args: args.iter().map(|a| a.to_string()).collect(),
        dir: WorkDir::ProjectRoot,
    }
}

fn eval(command: Command) -> Vec<Step> {
    Cli { command }.eval()
}

#[test]
fn checks_run_format_clippy_and_both_test_suites() {
    let expected = vec![
        at_root("cargo", &["fmt", "--check"]),
        at_root("cargo", &["clippy", "--all-targets"]),
        at_root("cargo", &["test"]),
        at_root("wasm-pack", &["test", "--headless", "--chrome", "--firefox"]),
    ];
    assert_eq!(run_checks(), expected);
    assert_eq!(eval(Command::Checks), expected.into_iter().map(Step::Run).collect::<Vec<_>>());
}

#[test]
fn format_checks_only_when_asked() {
    assert_eq!(
        eval(Command::Format(FormatOpts { check_only: false })),
        vec![Step::Run(at_root("cargo", &["fmt"]))]
    );
    assert_eq!(
        eval(Command::Format(FormatOpts { check_only: true })),
        vec![Step::Run(at_root("cargo", &["fmt", "--check"]))]
    );
}

#[test]
fn wasm_tests_default_to_both_headless_browsers() {
    assert_eq!(
        eval(Command::WasmTest(WasmTestOpts { mode: None })),
        vec![Step::Run(at_root("wasm-pack", &["test", "--headless", "--chrome", "--firefox"]))]
    );
    assert_eq!(
        eval(Command::WasmTest(WasmTestOpts { mode: Some(WasmTestMode::Firefox) })),
        vec![Step::Run(at_root("wasm-pack", &["test", "--firefox"]))]
    );
    assert_eq!(
        eval(Command::WasmTest(WasmTestOpts { mode: Some(WasmTestMode::HeadlessChrome) })),
        vec![Step::Run(at_root("wasm-pack", &["test", "--headless", "--chrome"]))]
    );
}

#[test]
fn dependencies_are_installed_with_cargo() {
    assert_eq!(
        eval(Command::InstallDependencies),
        vec![
            Step::Run(at_root("cargo", &["install", "wasm-pack", "--version", "^0.13"])),
            Step::Run(at_root("cargo", &["install", "trunk", "--version", "^0.21"])),
            Step::Run(at_root("cargo", &["install", "mdbook", "--version", "^0.4"])),
        ]
    );
}

#[test]
fn book_is_served_from_its_directory() {
    let serve = ProcessCall { program: "mdbook".to_string(), args: vec!["serve".to_string()], dir: WorkDir::Book };
    assert_eq!(eval(Command::ServeBook), vec![Step::Run(serve)]);
    assert_eq!(eval(Command::Clippy), vec![Step::Run(at_root("cargo", &["clippy", "--all-targets"]))]);
    assert_eq!(eval(Command::RegularTest), vec![Step::Run(at_root("cargo", &["test"]))]);
    assert_eq!(eval(Command::InstallPreCommitHook), vec![Step::InstallPreCommitHook]);
}

#[test]
fn examples_preprocessor_answers_about_renderers() {
    let ask = |renderer: &str| {
        eval(Command::BookGenerateExamples(BookGenerateExamples {
            supports: Some(BookGenerateExamplesSupports::Supports { renderer: renderer.to_string() }),
        }))
    };
    assert_eq!(ask("html"), vec![Step::ReportSupport(true)]);
    assert_eq!(ask("not-supported"), vec![Step::ReportSupport(false)]);
    assert_eq!(
        eval(Command::BookGenerateExamples(BookGenerateExamples { supports: None })),
        vec![Step::PreprocessBook]
    );
    let pre = ExamplesPreprocessor { examples_dir: "examples".to_string() };
    assert_eq!(pre.name(), "examples-preprocessor");
    assert!(pre.supports_renderer(&"markdown".to_string()));
    assert!(!pre.supports_renderer(&"not-supported".to_string()));
}
