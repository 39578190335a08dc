use oauth_callback::page::RESPONSE_DOCUMENT;
use oauth_callback::script::{
    PageState, COPIED_MESSAGE, COPY_FAILED_MESSAGE, FAILURE_ICON, FAILURE_STATUS, NO_TOKEN_MESSAGE,
    SUCCESS_ICON, SUCCESS_STATUS, TOKEN_PARAMETER,
};

#[test]
fn document_is_an_html_page_with_a_script() {
    assert!(RESPONSE_DOCUMENT.starts_with("\n<!DOCTYPE html>\n<html>\n"));
    assert!(RESPONSE_DOCUMENT.contains("<script>"));
    assert!(RESPONSE_DOCUMENT.contains("</script>\n</body>\n</html>\n"));
    assert_eq!(RESPONSE_DOCUMENT.len(), 2455);
    assert_eq!(RESPONSE_DOCUMENT.chars().count(), 2451);
}

#[test]
fn document_script_looks_for_the_token_in_the_hash() {
    assert!(RESPONSE_DOCUMENT.contains("const hash = window.location.hash;"));
    assert!(RESPONSE_DOCUMENT.contains(&format!("hash.includes('{}')", TOKEN_PARAMETER)));
}

#[test]
fn document_script_copies_the_full_url() {
    assert!(RESPONSE_DOCUMENT.contains("const fullUrl = window.location.href;"));
    assert!(RESPONSE_DOCUMENT.contains("navigator.clipboard.writeText(fullUrl)"));
}

#[test]
fn document_starts_in_the_connected_state() {
    let shown = PageState::Connected.display();
    assert!(RESPONSE_DOCUMENT.contains(&format!("<div class=\"success-icon\">{}</div>", shown.icon)));
    assert!(RESPONSE_DOCUMENT.contains(&format!("<h1 id=\"status\">{}</h1>", shown.status)));
    assert!(RESPONSE_DOCUMENT.contains(&format!("<p id=\"message\">{}</p>", shown.message)));
}

#[test]
fn document_script_holds_the_texts_of_every_state() {
    for text in [
        SUCCESS_ICON,
        FAILURE_ICON,
        SUCCESS_STATUS,
        FAILURE_STATUS,
        COPIED_MESSAGE,
        COPY_FAILED_MESSAGE,
        NO_TOKEN_MESSAGE,
    ] {
        assert!(RESPONSE_DOCUMENT.contains(text), "{}", text);
    }
}

#[test]
fn document_script_hides_the_call_to_action_on_failure() {
    assert!(RESPONSE_DOCUMENT.contains("document.querySelector('.highlight').style.display = 'none';"));
    assert!(!PageState::Failed.display().call_to_action_visible);
}
