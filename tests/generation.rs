use imagen3_mcp::backend::{
    backend_base_url, first_payload, image_bytes, request_body_of_quoted, plan_request, predict_url, request_body, GenerationError,
    Prediction,
};
use imagen3_mcp::listing::{image_names, images_json, DirEntryInfo};
use imagen3_mcp::naming::{image_filename, new_image_filename};
use imagen3_mcp::supervisor::{Action, Event, Phase, Supervisor};
use imagen3_mcp::tool::tool_response;

const PNG_HEADER: [u8; 10] = [0x89, 0x50, 0x4e, 0x47, 0x0d, 0x0a, 0x1a, 0x0a, 0x00, 0x00];

fn prediction(payload: &str) -> Prediction {
    Prediction {
        mime_type: "image/png".to_string(),
        bytes_base64_encoded: payload.to_string(),
    }
}

fn is_url_safe(c: char) -> bool {
    c == '_' || c == '-' || c.is_ascii_alphanumeric()
}

#[test]
fn filename_joins_id_timestamp_and_extension() {
    assert_eq!(image_filename("abcdefghij", "20250102030405"), "abcdefghij_20250102030405.png");
}

#[test]
fn new_filename_has_id_timestamp_and_extension() {
    let name = new_image_filename();
    assert!(name.ends_with(".png"));
    let chars: Vec<char> = name.chars().collect();
    assert_eq!(chars[10], '_');
    assert!(chars[..10].iter().all(|c| is_url_safe(*c)));
    let stamp = &name[11..name.len() - 4];
    assert_eq!(stamp.len(), 14);
    assert!(stamp.chars().all(|c| c.is_ascii_digit()));
}

#[test]
fn thousand_filenames_are_distinct() {
    let mut names: Vec<String> = (0..1000).map(|_| new_image_filename()).collect();
    names.sort();
    names.dedup();
    assert_eq!(names.len(), 1000);
}

#[test]
fn base_url_defaults_to_production() {
    assert_eq!(backend_base_url(None), "https://generativelanguage.googleapis.com");
    assert_eq!(backend_base_url(Some("http://localhost:1".to_string())), "http://localhost:1");
}

#[test]
fn predict_url_carries_key() {
    assert_eq!(
        predict_url("http://h", "k1"),
        "http://h/v1beta/models/imagen-3.0-generate-002:predict?key=k1"
    );
}

#[test]
fn request_body_has_one_instance_and_one_sample() {
    assert_eq!(
        request_body("a \"red\" cube"),
        "{\"instances\":[{\"prompt\":\"a \\\"red\\\" cube\"}],\"parameters\":{\"sampleCount\":1}}"
    );
}

#[test]
fn missing_credential_is_config_error() {
    let r = plan_request("x", None, None);
    assert!(matches!(r, Err(GenerationError::Config)));
}

#[test]
fn plan_uses_key_and_override() {
    let call = plan_request("p", Some("KEY".to_string()), Some("http://stub".to_string())).ok().unwrap();
    assert_eq!(call.url, "http://stub/v1beta/models/imagen-3.0-generate-002:predict?key=KEY");
    assert_eq!(call.body, "{\"instances\":[{\"prompt\":\"p\"}],\"parameters\":{\"sampleCount\":1}}");
}

#[test]
fn well_formed_prediction_gives_bytes() {
    let r = image_bytes(Ok(vec![prediction("iVBORw0KGgoAAA==")]), String::new());
    assert_eq!(r.ok().unwrap(), PNG_HEADER.to_vec());
}

#[test]
fn only_first_prediction_counts() {
    let r = image_bytes(Ok(vec![prediction("AQI="), prediction("not base64!")]), String::new());
    assert_eq!(r.ok().unwrap(), vec![1u8, 2]);
}

#[test]
fn zero_predictions_is_empty_result() {
    let r = image_bytes(Ok(vec![]), "{\"predictions\":[]}".to_string());
    let e = r.err().unwrap();
    assert!(matches!(e, GenerationError::EmptyResult));
    let text = tool_response(&Err(e));
    assert_eq!(text, "Error generating image: No images were generated");
}

#[test]
fn malformed_base64_is_decode_error() {
    let r = image_bytes(Ok(vec![prediction("@@@")]), String::new());
    let e = r.err().unwrap();
    assert!(matches!(e, GenerationError::Decode(_)));
    assert!(tool_response(&Err(e)).starts_with("Error generating image: "));
}

#[test]
fn unparsable_body_keeps_raw_text() {
    let r = image_bytes(Err("expected value".to_string()), "oops".to_string());
    let e = r.err().unwrap();
    assert_eq!(
        e.describe(),
        "Failed to parse Gemini response: expected value\nThe response was: oops"
    );
}

#[test]
fn other_error_texts() {
    assert_eq!(
        tool_response(&Err(GenerationError::Config)),
        "Error generating image: GEMINI_API_KEY environment variable not set"
    );
    assert_eq!(
        tool_response(&Err(GenerationError::BackendHttp("refused".to_string()))),
        "Error generating image: refused"
    );
    assert_eq!(
        tool_response(&Err(GenerationError::BackendTimeout)),
        "Error generating image: The image backend did not answer in time"
    );
    assert_eq!(
        tool_response(&Err(GenerationError::StoreIo("disk full".to_string()))),
        "Error generating image: disk full"
    );
}

#[test]
fn success_is_local_image_url() {
    assert_eq!(
        tool_response(&Ok("abc_20250101000000.png".to_string())),
        "http://127.0.0.1:9981/images/abc_20250101000000.png"
    );
}

#[test]
fn red_cube_scenario() {
    let call = plan_request("a red cube on white background", Some("k".to_string()), None)
        .ok()
        .unwrap();
    assert_eq!(
        call.body,
        "{\"instances\":[{\"prompt\":\"a red cube on white background\"}],\"parameters\":{\"sampleCount\":1}}"
    );
    let name = image_filename("V1StGXR8_Z", "20250101120000");
    let bytes = image_bytes(Ok(vec![prediction("iVBORw0KGgoAAA==")]), String::new()).ok().unwrap();
    assert_eq!(bytes.len(), 10);
    assert_eq!(bytes, PNG_HEADER.to_vec());
    let url = tool_response(&Ok(name.clone()));
    assert_eq!(url, "http://127.0.0.1:9981/images/V1StGXR8_Z_20250101120000.png");
    let listed = image_names(&vec![DirEntryInfo { name: Some(name.clone()), is_file: true }]);
    assert_eq!(listed, vec![name]);
    assert_eq!(images_json(&listed), "[\"V1StGXR8_Z_20250101120000.png\"]");
}

#[test]
fn listing_keeps_regular_files_only() {
    let entries = vec![
        DirEntryInfo { name: Some("a.png".to_string()), is_file: true },
        DirEntryInfo { name: Some("sub".to_string()), is_file: false },
        DirEntryInfo { name: None, is_file: true },
        DirEntryInfo { name: Some("b.png".to_string()), is_file: true },
    ];
    assert_eq!(image_names(&entries), vec!["a.png".to_string(), "b.png".to_string()]);
}

#[test]
fn empty_listing_is_empty_array() {
    assert_eq!(image_names(&vec![]), Vec::<String>::new());
    assert_eq!(images_json(&vec![]), "[]");
}

#[test]
fn listing_json_escapes_and_separates() {
    let names = vec!["a.png".to_string(), "q\"x.png".to_string()];
    assert_eq!(images_json(&names), "[\"a.png\",\"q\\\"x.png\"]");
}

#[test]
fn supervisor_runs_full_lifecycle() {
    let mut s = Supervisor::new();
    assert_eq!(s.step(Event::StoreEnsured(true)), Action::CheckCredential);
    assert_eq!(s.step(Event::CredentialChecked(true)), Action::StartAssets);
    assert_eq!(s.step(Event::AssetsStarted), Action::ServeSession);
    assert_eq!(s.exit_code(), None);
    assert_eq!(s.step(Event::SessionEnded(true)), Action::CancelAssetsAndExit(0));
    assert_eq!(s.exit_code(), Some(0));
}

#[test]
fn supervisor_missing_credential_exits_nonzero() {
    let mut s = Supervisor::new();
    assert_eq!(s.step(Event::StoreEnsured(true)), Action::CheckCredential);
    assert_eq!(s.step(Event::CredentialChecked(false)), Action::Exit(1));
    assert_eq!(s.step(Event::AssetsStarted), Action::Ignore);
    assert_eq!(s.phase, Phase::Exited(1));
}

#[test]
fn supervisor_store_failure_exits_nonzero() {
    let mut s = Supervisor::new();
    assert_eq!(s.step(Event::StoreEnsured(false)), Action::Exit(1));
    assert_eq!(s.exit_code(), Some(1));
}

#[test]
fn supervisor_session_error_cancels_assets() {
    let mut s = Supervisor::new();
    s.step(Event::StoreEnsured(true));
    s.step(Event::CredentialChecked(true));
    s.step(Event::AssetsStarted);
    assert_eq!(s.step(Event::SessionEnded(false)), Action::CancelAssetsAndExit(1));
}

#[test]
fn first_payload_picks_first_prediction() {
    let r = first_payload(Ok(vec![prediction("AAA="), prediction("BBB=")]), String::new());
    assert_eq!(r.ok().unwrap(), "AAA=");
    assert!(matches!(first_payload(Ok(vec![]), String::new()), Err(GenerationError::EmptyResult)));
}

#[test]
fn body_frames_quoted_prompt() {
    assert_eq!(
        request_body_of_quoted("\"x\""),
        "{\"instances\":[{\"prompt\":\"x\"}],\"parameters\":{\"sampleCount\":1}}"
    );
}
