use uuid::Uuid;
use worker::client::{accept, Body, Error, Method};
use worker::{Status, WorkerClient};

const ID: u128 = 0xa1a2a3a4_b1b2_c1c2_d1d2_d3d4d5d6d7d8;

#[test]
fn new_client_knows_the_default_endpoints() {
    let client = WorkerClient::new();
    assert_eq!(client.base_url, "https://localhost:8000");
    assert_eq!(
        client.endpoints,
        vec![
            ("login".to_string(), "/auth/login".to_string()),
            ("jobs".to_string(), "/v1/jobs".to_string())
        ]
    );
    assert_eq!(
        client.endpoint("login"),
        Some("https://localhost:8000/auth/login".to_string())
    );
    assert_eq!(
        client.endpoint("jobs"),
        Some("https://localhost:8000/v1/jobs".to_string())
    );
    assert_eq!(client.endpoint("job"), None);
    assert_eq!(client.endpoint(""), None);
}

#[test]
fn endpoint_is_the_first_with_the_name() {
    let client = WorkerClient {
        base_url: "http://example.test".to_string(),
        endpoints: vec![
            ("a".to_string(), "/first".to_string()),
            ("b".to_string(), "/other".to_string()),
            ("a".to_string(), "/second".to_string()),
        ],
    };
    assert_eq!(client.endpoint("a"), Some("http://example.test/first".to_string()));
    assert_eq!(client.endpoint("b"), Some("http://example.test/other".to_string()));
    assert_eq!(client.job_url(ID), None);
    assert!(matches!(client.status("t", ID), Err(Error::InternalError)));
    assert!(matches!(client.login("u", "p"), Err(Error::InternalError)));
}

#[test]
fn job_url_writes_the_identifier_as_a_uuid() {
    let client = WorkerClient::new();
    assert_eq!(
        client.job_url(ID),
        Some("https://localhost:8000/v1/jobs/a1a2a3a4-b1b2-c1c2-d1d2-d3d4d5d6d7d8".to_string())
    );
    let id = Uuid::new_v4();
    assert_eq!(
        client.job_url(id.as_u128()),
        Some(format!("https://localhost:8000/v1/jobs/{}", id))
    );
}

#[test]
fn login_posts_the_credentials() {
    let request = WorkerClient::new().login("jorge", "hunter2").unwrap();
    assert_eq!(request.method, Method::Post);
    assert_eq!(request.url, "https://localhost:8000/auth/login");
    assert_eq!(request.token, None);
    assert!(matches!(
        request.body,
        Body::Login { name, password } if name == "jorge" && password == "hunter2"
    ));
}

#[test]
fn start_posts_the_new_job() {
    let request = WorkerClient::new().start("tok", ID, "sleep 2").unwrap();
    assert_eq!(request.method, Method::Post);
    assert_eq!(request.url, "https://localhost:8000/v1/jobs");
    assert_eq!(request.token, Some("tok".to_string()));
    assert!(matches!(
        request.body,
        Body::NewJob { id, command_line } if id == ID && command_line == "sleep 2"
    ));
}

#[test]
fn status_output_and_stop_address_the_job() {
    let client = WorkerClient::new();
    let job = "https://localhost:8000/v1/jobs/a1a2a3a4-b1b2-c1c2-d1d2-d3d4d5d6d7d8";

    let status = client.status("tok", ID).unwrap();
    assert_eq!(status.method, Method::Get);
    assert_eq!(status.url, job);
    assert_eq!(status.token, Some("tok".to_string()));
    assert!(matches!(status.body, Body::Empty));

    let output = client.output("tok", ID).unwrap();
    assert_eq!(output.method, Method::Get);
    assert_eq!(output.url, format!("{}/output", job));
    assert!(matches!(output.body, Body::Empty));

    let stop = client.stop("", ID).unwrap();
    assert_eq!(stop.method, Method::Delete);
    assert_eq!(stop.url, job);
    assert_eq!(stop.token, Some(String::new()));
}

#[test]
fn only_statuses_of_success_are_accepted() {
    assert!(accept(200).is_ok());
    assert!(accept(201).is_ok());
    assert!(accept(299).is_ok());
    assert!(matches!(accept(199), Err(Error::ApiError(199))));
    assert!(matches!(accept(300), Err(Error::ApiError(300))));
    assert!(matches!(accept(403), Err(Error::ApiError(403))));
    assert!(matches!(accept(404), Err(Error::ApiError(404))));
    assert!(matches!(accept(0), Err(Error::ApiError(0))));
}

#[test]
fn status_line_shows_the_exit_code_or_a_blank() {
    let done = Status { status: "DONE(exit status: 3)".to_string(), exit_status: Some(3) };
    assert_eq!(done.line(), "DONE(exit status: 3) (3)");
    let running = Status { status: "IN_PROGRESS".to_string(), exit_status: None };
    assert_eq!(running.line(), "IN_PROGRESS (_)");
    let odd = Status { status: "DONE(exit status: -127)".to_string(), exit_status: Some(-127) };
    assert_eq!(odd.line(), "DONE(exit status: -127) (-127)");
    let zero = Status { status: String::new(), exit_status: Some(0) };
    assert_eq!(zero.line(), " (0)");
}
