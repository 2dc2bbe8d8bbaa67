use rust_tmpl::routes::{HealthResponse, SystemApi};

#[test]
fn healthz_reports_server_online() {
    let answer = SystemApi.healthz();
    assert_eq!(answer.status_code(), 200);
    match answer {
        HealthResponse::Healthy(h) => assert_eq!(h.message, "server online"),
    }
}
