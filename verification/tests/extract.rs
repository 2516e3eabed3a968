use htu_toolbox::extract::extract_redirect_url;
use htu_toolbox::Error;

#[test]
fn extracts_the_embedded_url() {
    let page: &[u8] =
        b"<html><script>self.location=\"http://10.3.8.211/eportal/index.jsp?wlanuserip=1.2.3.4&url=\";</script></html>";
    let got = extract_redirect_url(page).unwrap();
    assert_eq!(got, b"http://10.3.8.211/eportal/index.jsp?wlanuserip=1.2.3.4".to_vec());
}

#[test]
fn capture_runs_to_the_last_marker_on_the_line() {
    let page: &[u8] = b"x\"http://a?u=1&url=-middle-&url=\"tail";
    let got = extract_redirect_url(page).unwrap();
    assert_eq!(got, b"http://a?u=1&url=-middle-".to_vec());
}

#[test]
fn leftmost_quoted_url_wins() {
    let page: &[u8] = b"\"http://first&url=\" and \"http://second&url=\"";
    let got = extract_redirect_url(page).unwrap();
    assert_eq!(got, b"http://first&url=\" and \"http://second".to_vec());
}

#[test]
fn line_break_stops_the_capture() {
    let page: &[u8] = b"\"http://a\n&url=\"";
    let err = extract_redirect_url(page).unwrap_err();
    assert_eq!(err, Error::InvalidIndexContent(page.to_vec()));
}

#[test]
fn quotes_are_trimmed_off_the_capture() {
    let page: &[u8] = b"\"http://a\"&url=\"";
    let got = extract_redirect_url(page).unwrap();
    assert_eq!(got, b"http://a".to_vec());
}

#[test]
fn a_page_without_the_pattern_is_rejected_with_its_content() {
    let page: &[u8] = b"<html>plain page, no redirect here</html>";
    let err = extract_redirect_url(page).unwrap_err();
    assert_eq!(err, Error::InvalidIndexContent(page.to_vec()));
}

#[test]
fn an_empty_page_is_rejected() {
    let err = extract_redirect_url(b"").unwrap_err();
    assert_eq!(err, Error::InvalidIndexContent(Vec::new()));
}

#[test]
fn a_quoted_url_without_marker_is_no_match() {
    let page: &[u8] = b"\"http://a.example/\" but the marker is missing";
    let err = extract_redirect_url(page).unwrap_err();
    assert_eq!(err, Error::InvalidIndexContent(page.to_vec()));
}
