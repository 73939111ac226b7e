use hum::{api_json, api_url, get_latest_build, Method, RawResponse, Webhook, RUNNING};

#[test]
fn e2e_reqwest_get_latest_item() {
    let base: String = "http://127.0.0.1:3030".to_string();
    let org: String = "testing".to_string();
    let repo: String = "webhook".to_string();

    let mut call = Webhook::new(&base, &org, &repo, true);
    let req = call.start();
    assert_eq!(req.method, Method::Get);
    assert_eq!(req.url, api_url(&base, &org, &repo, "latest"));

    let latest_arb = Ok(RawResponse { status: 200, body: "{\"status\":\"running\",\"number\":\"123\"}".to_string() });
    let latest_res = api_json(latest_arb).unwrap();
    let latest_build = get_latest_build(&latest_res).unwrap();

    assert!(!latest_build.is_empty());
    assert_eq!(latest_build[0], RUNNING);
    assert_eq!(latest_build[1], "\"123\"");
}

#[test]
fn e2e_reqwest_webhook_post() {
    let base: String = "http://127.0.0.1:3030".to_string();
    let org: String = "testing".to_string();
    let repo: String = "webhook".to_string();

    let mut call = Webhook::new(&base, &org, &repo, false);
    let req = call.start();
    assert_eq!(req.method, Method::Post);
    assert_eq!(req.url, api_url(&base, &org, &repo, ""));

    let post_arb = Ok(RawResponse { status: 200, body: "{\"status\":\"running\",\"number\":\"123\"}".to_string() });
    let post_res = api_json(post_arb);
    let post_build = get_latest_build(post_res.as_ref().unwrap()).unwrap();

    assert!(!post_build.is_empty());
    assert_eq!(post_build[0], RUNNING);
    assert_eq!(post_build[1], "\"123\"");
}
