use sidero::api_client::ApiClient;
use sidero::api_client::HttpOutcome;
use sidero::api_client::HttpRequest;
use sidero::json::Json;

fn answered(success: bool, status: &str, body: Option<&str>) -> HttpOutcome {
    HttpOutcome::Answered {
        success,
        status: status.to_string(),
        body: body.map(|b| b.to_string()),
    }
}

#[test]
fn the_deployments_request() {
    assert_eq!(
        ApiClient::list_deployments("tok"),
        HttpRequest {
            url: "https://semgrep.dev/api/v1/deployments".to_string(),
            bearer: Some("tok".to_string()),
            accept: Some("application/json".to_string()),
            query: vec![],
        }
    );
}

#[test]
fn the_slug_is_that_of_the_first_deployment() {
    assert_eq!(
        ApiClient::get_deployment_slug(&answered(
            true,
            "200 OK",
            Some(r#"{"deployments":[{"slug":"first","name":"A"},{"slug":"second"}]}"#)
        )),
        Ok("first".to_string())
    );
}

#[test]
fn no_deployment_is_a_failure() {
    assert_eq!(
        ApiClient::get_deployment_slug(&answered(true, "200 OK", Some(r#"{"deployments":[]}"#))),
        Err("No deployments found for this token".to_string())
    );
}

#[test]
fn a_deployments_answer_of_another_shape_is_a_failure() {
    for body in [
        "",
        "[]",
        "{}",
        r#"{"deployments":null}"#,
        r#"{"deployments":{"slug":"a"}}"#,
        r#"{"deployments":[{"name":"a"}]}"#,
        r#"{"deployments":[{"slug":"a"},{"slug":5}]}"#,
        r#"{"deployments":["a"]}"#,
    ] {
        assert_eq!(
            ApiClient::get_deployment_slug(&answered(true, "200 OK", Some(body))),
            Err("Failed to parse deployments response".to_string()),
            "{}",
            body
        );
    }
    assert_eq!(
        ApiClient::get_deployment_slug(&answered(true, "200 OK", None)),
        Err("Failed to parse deployments response".to_string())
    );
}

#[test]
fn a_deployments_request_that_failed() {
    assert_eq!(
        ApiClient::get_deployment_slug(&HttpOutcome::NotSent),
        Err("Failed to fetch deployments".to_string())
    );
    assert_eq!(
        ApiClient::get_deployment_slug(&answered(
            false,
            "403 Forbidden",
            Some(r#"{"deployments":[{"slug":"a"}]}"#)
        )),
        Err("Failed to fetch deployments: 403 Forbidden".to_string())
    );
}

#[test]
fn the_slug_given_what_the_body_reads_as() {
    let outcome = answered(true, "200 OK", Some("ignored"));
    let body = Json::Object(vec![(
        "deployments".to_string(),
        Json::Array(vec![Json::Object(vec![("slug".to_string(), Json::String("s".to_string()))])]),
    )]);
    assert_eq!(ApiClient::first_slug(&outcome, Some(body)), Ok("s".to_string()));
    assert_eq!(
        ApiClient::first_slug(&outcome, None),
        Err("Failed to parse deployments response".to_string())
    );
}

#[test]
fn the_findings_request() {
    let query = vec![
        ("repos".to_string(), Json::String("a,b".to_string())),
        ("page".to_string(), Json::Integer(2)),
    ];
    assert_eq!(
        ApiClient::get_findings("tok", "acme", query.clone()),
        HttpRequest {
            url: "https://semgrep.dev/api/v1/deployments/acme/findings".to_string(),
            bearer: Some("tok".to_string()),
            accept: Some("application/json".to_string()),
            query,
        }
    );
    assert_eq!(
        ApiClient::get_findings("", "", vec![]).url,
        "https://semgrep.dev/api/v1/deployments//findings"
    );
}

#[test]
fn the_findings_are_what_the_body_holds() {
    assert_eq!(
        ApiClient::read_findings(&answered(true, "200 OK", Some(r#"{"findings":[{"id":1}]}"#))),
        Ok(Json::Object(vec![(
            "findings".to_string(),
            Json::Array(vec![Json::Object(vec![("id".to_string(), Json::Integer(1))])])
        )]))
    );
    assert_eq!(
        ApiClient::read_findings(&answered(true, "200 OK", Some("<html>"))),
        Err("Failed to parse filings API response".to_string())
    );
    assert_eq!(
        ApiClient::read_findings(&answered(true, "200 OK", None)),
        Err("Failed to parse filings API response".to_string())
    );
    assert_eq!(
        ApiClient::read_findings(&answered(false, "500 Internal Server Error", Some("down"))),
        Err("API request failed with status 500 Internal Server Error: down".to_string())
    );
    assert_eq!(
        ApiClient::read_findings(&answered(false, "500 Internal Server Error", None)),
        Err("API request failed with status 500 Internal Server Error: ".to_string())
    );
    assert_eq!(
        ApiClient::read_findings(&HttpOutcome::NotSent),
        Err("Failed to send request to Semgrep Findings API".to_string())
    );
    assert_eq!(
        ApiClient::findings(&answered(true, "200 OK", Some("ignored")), Some(Json::Null)),
        Ok(Json::Null)
    );
}

#[test]
fn a_document_is_fetched_without_token() {
    assert_eq!(
        ApiClient::fetch_url("https://semgrep.dev/c/r/x"),
        HttpRequest {
            url: "https://semgrep.dev/c/r/x".to_string(),
            bearer: None,
            accept: None,
            query: vec![],
        }
    );
}

#[test]
fn the_document_is_the_body() {
    assert_eq!(
        ApiClient::read_text("u", &answered(true, "200 OK", Some("rules:\n"))),
        Ok("rules:\n".to_string())
    );
    assert_eq!(ApiClient::read_text("u", &answered(true, "200 OK", Some(""))), Ok("".to_string()));
    assert_eq!(
        ApiClient::read_text("u", &answered(true, "200 OK", None)),
        Err("Failed to get response text".to_string())
    );
    assert_eq!(
        ApiClient::read_text("u", &answered(false, "404 Not Found", Some("x"))),
        Err("Request failed: 404 Not Found".to_string())
    );
    assert_eq!(
        ApiClient::read_text("https://x/y", &HttpOutcome::NotSent),
        Err("Failed to fetch URL: https://x/y".to_string())
    );
}
