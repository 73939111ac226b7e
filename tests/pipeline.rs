use hum::{api_json, api_url, extract_build, ApiError, Build, Method, RawResponse, Stage, Webhook};

fn ok(body: &str) -> Result<RawResponse, ApiError> {
    Ok(RawResponse { status: 200, body: body.to_string() })
}

#[test]
fn without_cancel_only_trigger_is_sent() {
    let mut call = Webhook::new("http://ci", "org", "repo", false);
    let req = call.start();
    assert_eq!(req.method, Method::Post);
    assert_eq!(req.url, "http://ci/api/repos/org/repo/builds");
    assert_eq!(call.stage, Stage::AwaitTrigger);
    let out = call.on_triggered(api_json(ok("{\"number\":5}")));
    assert_eq!(out.unwrap(), serde_json::from_str::<serde_json::Value>("{\"number\":5}").unwrap());
    assert_eq!(call.stage, Stage::Done);
}

#[test]
fn running_build_is_cancelled_before_trigger() {
    let mut call = Webhook::new("http://ci", "testing", "webhook", true);
    let get = call.start();
    assert_eq!(get.method, Method::Get);
    assert_eq!(get.url, "http://ci/api/repos/testing/webhook/builds/latest");

    let latest = api_json(ok("{\"status\":\"running\",\"number\":\"123\"}")).unwrap();
    let del = call.on_latest(&extract_build(&latest));
    assert_eq!(del.method, Method::Delete);
    assert_eq!(del.url, api_url("http://ci", "testing", "webhook", "123"));
    assert_eq!(del.url, "http://ci/api/repos/testing/webhook/builds/123");
    assert_eq!(call.stage, Stage::AwaitCancel);

    let post = call.on_cancelled();
    assert_eq!(post.method, Method::Post);
    assert_eq!(post.url, "http://ci/api/repos/testing/webhook/builds");

    let body = "{\"status\":\"pending\",\"number\":\"124\"}";
    let out = call.on_triggered(api_json(ok(body)));
    assert_eq!(out.unwrap(), serde_json::from_str::<serde_json::Value>(body).unwrap());
}

#[test]
fn finished_build_is_not_cancelled() {
    let mut call = Webhook::new("http://ci", "o", "r", true);
    call.start();
    let latest = Ok(Some(Build { status: "\"success\"".to_string(), number: "\"3\"".to_string() }));
    let req = call.on_latest(&latest);
    assert_eq!(req.method, Method::Post);
    assert_eq!(req.url, "http://ci/api/repos/o/r/builds");
    assert_eq!(call.stage, Stage::AwaitTrigger);
}

#[test]
fn no_build_or_failed_lookup_goes_straight_to_trigger() {
    let mut call = Webhook::new("http://ci", "o", "r", true);
    call.start();
    let latest = api_json(ok("{\"message\":\"no builds\"}")).unwrap();
    let req = call.on_latest(&extract_build(&latest));
    assert_eq!(req.method, Method::Post);

    let mut call = Webhook::new("http://ci", "o", "r", true);
    call.start();
    let req = call.on_latest(&Err(ApiError::UpstreamStatus { code: 502 }));
    assert_eq!(req.method, Method::Post);
    assert_eq!(req.url, "http://ci/api/repos/o/r/builds");
}

#[test]
fn failed_trigger_is_the_answer() {
    let mut call = Webhook::new("http://ci", "o", "r", false);
    call.start();
    let res = api_json(Ok(RawResponse { status: 500, body: "oops".to_string() }));
    let out = call.on_triggered(res);
    assert_eq!(out.err(), Some(ApiError::UpstreamStatus { code: 500 }));
}
