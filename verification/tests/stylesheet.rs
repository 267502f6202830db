use sitegen::error::ErrorKind;
use sitegen::stylesheet::{stylesheet_job, stylesheet_output, CompileJob, OutputStyle};

fn compile(job: &CompileJob) -> Result<String, String> {
    let style = match job.style {
        OutputStyle::Expanded => grass::OutputStyle::Expanded,
        OutputStyle::Compressed => grass::OutputStyle::Compressed,
    };
    grass::from_string(job.source.clone(), &grass::Options::default().style(style))
        .map_err(|e| e.to_string())
}

#[test]
fn stylesheet_job_asks_for_compressed_css_of_the_source() {
    let job = stylesheet_job("main", "a { color: red; }".to_string());
    assert_eq!(job.source, "a { color: red; }");
    assert_eq!(job.style, OutputStyle::Compressed);
    assert_eq!(job.path, "main.css");
}

#[test]
fn stylesheet_output_names_the_css_file() {
    let job = stylesheet_job("main", String::new());
    let file = stylesheet_output(&job, Ok("a{color:red}".to_string())).unwrap();
    assert_eq!(file.path, "main.css");
    assert_eq!(file.content, "a{color:red}");
}

#[test]
fn stylesheet_output_reports_the_compiler_error() {
    let job = stylesheet_job("main", String::new());
    let error = stylesheet_output(&job, Err("expected \"{\".".to_string())).unwrap_err();
    assert_eq!(error.kind, ErrorKind::StylesheetCompileError);
    assert_eq!(error.to_string(), "Stylesheet: expected \"{\".");
}

#[test]
fn stylesheet_job_compiles_to_compressed_css() {
    let source = "$c: red;\na {\n  b {\n    color: $c;\n  }\n}\n".to_string();
    let job = stylesheet_job("site", source);
    let file = stylesheet_output(&job, compile(&job)).unwrap();
    assert_eq!(file.path, "site.css");
    assert_eq!(file.content, "a b{color:red}");
}

#[test]
fn stylesheet_that_does_not_compile_is_an_error() {
    let job = stylesheet_job("site", "a { color: ".to_string());
    let compiled = compile(&job);
    let cause = compiled.clone().unwrap_err();
    let error = stylesheet_output(&job, compiled).unwrap_err();
    assert_eq!(error.kind, ErrorKind::StylesheetCompileError);
    assert_eq!(error.to_string(), format!("Stylesheet: {}", cause));
}
