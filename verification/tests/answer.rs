use jarvis::answer::answer_from_response;
use jarvis::answer::command_result_text;
use jarvis::answer::query_result_text;
use jarvis::answer::transform_answer;
use jarvis::answer::ProcOutcome;

const PARSE_ERROR: &str = "Erro ao interpretar resposta da API.";

fn transform(s: &str) -> String {
    let chars: Vec<char> = s.chars().collect();
    transform_answer(&chars).iter().collect()
}

#[test]
fn a_well_formed_response_is_extracted_and_transformed() {
    let raw = r#"{"candidates":{"content":{"content":{"parts":[{"text":"**Hello** * World"}]}}}}"#;
    assert_eq!(answer_from_response(raw), "Hello \n📝World");
}

#[test]
fn only_the_first_part_is_consulted() {
    let raw = r#"{"candidates":{"content":{"content":{"parts":[{"text":"first"},{"text":"second"}]}}}}"#;
    assert_eq!(answer_from_response(raw), "first");
}

#[test]
fn a_response_missing_candidates_degrades_to_the_parse_error() {
    let raw = r#"{"answers":{"content":{"content":{"parts":[{"text":"hi"}]}}}}"#;
    assert_eq!(answer_from_response(raw), PARSE_ERROR);
}

#[test]
fn a_response_that_is_not_json_degrades_to_the_parse_error() {
    assert_eq!(answer_from_response("not json at all"), PARSE_ERROR);
}

#[test]
fn a_response_with_no_parts_degrades_to_the_parse_error() {
    let raw = r#"{"candidates":{"content":{"content":{"parts":[]}}}}"#;
    assert_eq!(answer_from_response(raw), PARSE_ERROR);
}

#[test]
fn a_response_whose_text_is_not_a_string_degrades_to_the_parse_error() {
    let raw = r#"{"candidates":{"content":{"content":{"parts":[{"text":7}]}}}}"#;
    assert_eq!(answer_from_response(raw), PARSE_ERROR);
}

#[test]
fn plain_text_passes_through_the_transform_unchanged() {
    assert_eq!(transform("nothing to change"), "nothing to change");
}

#[test]
fn double_stars_are_deleted_left_to_right() {
    assert_eq!(transform("**bold**"), "bold");
    assert_eq!(transform("***"), "*");
    assert_eq!(transform("****"), "");
}

#[test]
fn star_space_becomes_a_line_break_with_the_icon() {
    assert_eq!(transform("* item"), "\n📝item");
    assert_eq!(transform("a * b * c"), "a \n📝b \n📝c");
}

#[test]
fn stars_are_deleted_before_bullets_are_replaced() {
    assert_eq!(transform("** x"), " x");
}

#[test]
fn command_success_shows_standard_output() {
    let o = ProcOutcome::Finished {
        success: true,
        out_text: "file1\nfile2\n".to_string(),
        err_text: String::new(),
    };
    assert_eq!(command_result_text(&o), "file1\nfile2\n");
}

#[test]
fn command_failure_embeds_standard_error() {
    let o = ProcOutcome::Finished {
        success: false,
        out_text: String::new(),
        err_text: "no such file".to_string(),
    };
    assert_eq!(command_result_text(&o), "Erro: no such file");
}

#[test]
fn command_launch_failure_embeds_the_description() {
    let o = ProcOutcome::LaunchFailed { reason: "program not found".to_string() };
    assert_eq!(command_result_text(&o), "Falha ao executar: program not found");
}

#[test]
fn query_success_goes_through_extraction_and_transform() {
    let raw = r#"{"candidates":{"content":{"content":{"parts":[{"text":"**Hi**"}]}}}}"#;
    let o = ProcOutcome::Finished {
        success: true,
        out_text: raw.to_string(),
        err_text: String::new(),
    };
    assert_eq!(query_result_text(&o), "Hi");
}

#[test]
fn query_failure_embeds_standard_error() {
    let o = ProcOutcome::Finished {
        success: false,
        out_text: String::new(),
        err_text: "curl: (6) could not resolve host".to_string(),
    };
    assert_eq!(
        query_result_text(&o),
        "Erro ao obter resposta da API: curl: (6) could not resolve host"
    );
}

#[test]
fn query_launch_failure_embeds_the_description() {
    let o = ProcOutcome::LaunchFailed { reason: "permission denied".to_string() };
    assert_eq!(query_result_text(&o), "Falha ao executar: permission denied");
}
