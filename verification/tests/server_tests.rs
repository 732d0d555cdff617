use http_server::http::method::Method;
use http_server::http::request::Request;
use http_server::http::response::StatusCode;
use http_server::website_handler::bad_request_response;
use http_server::website_handler::RequestPlan;
use http_server::Config;
use http_server::Server;
use http_server::WebsiteHandler;

#[test]
fn server_address_joins_ip_and_port() {
    let server = Server::new(Config::new("127.0.0.1".to_string(), 8080));
    assert_eq!(server.address(), "127.0.0.1:8080");
    let server = Server::new(Config::new("0.0.0.0".to_string(), 80));
    assert_eq!(server.address(), "0.0.0.0:80");
    let server = Server::new(Config::new("localhost".to_string(), 65535));
    assert_eq!(server.address(), "localhost:65535");
}

#[test]
fn existing_file_content_becomes_the_body() {
    let response = WebsiteHandler::finish_read(Some("<h1>hi</h1>\n".to_string()));
    assert_eq!(response.status, StatusCode::Okay);
    assert_eq!(response.body, Some("<h1>hi</h1>\n".to_string()));
    assert_eq!(response.serialize(), "HTTP/1.1 200 OK\r\n\r\n<h1>hi</h1>\n");
}

#[test]
fn unreadable_file_answers_not_found() {
    let response = WebsiteHandler::finish_read(None);
    assert_eq!(response.status, StatusCode::NotFound);
    assert_eq!(response.body, Some("File not found".to_string()));
}

#[test]
fn post_to_static_handler_is_not_supported() {
    let buffer = b"POST /form HTTP/1.1\r\n\r\n";
    let request = Request::try_from(&buffer[..]).unwrap();
    assert_eq!(request.method, Method::POST);
    let handler = WebsiteHandler::new("/tmp".to_string());
    match handler.plan_request(&request) {
        RequestPlan::Respond(response) => {
            assert_eq!(response.status, StatusCode::NotFound);
            assert_eq!(response.body, Some("Method not supported".to_string()));
        }
        RequestPlan::ReadFile(_) => panic!("a POST must not read a file"),
    }
}

#[test]
fn rejected_path_answers_invalid_path() {
    let buffer = b"GET /../../etc/passwd HTTP/1.1\r\n\r\n";
    let request = Request::try_from(&buffer[..]).unwrap();
    let handler = WebsiteHandler::new("/tmp".to_string());
    match handler.plan_request(&request) {
        RequestPlan::Respond(response) => {
            assert_eq!(response.status, StatusCode::NotFound);
            assert_eq!(response.body, Some("Invalid path".to_string()));
        }
        RequestPlan::ReadFile(path) => panic!("escape accepted: {path}"),
    }
}

#[test]
fn malformed_bytes_answer_bad_request() {
    let buffer = [0xC3u8, 0x28];
    assert!(Request::try_from(&buffer[..]).is_err());
    let response = bad_request_response();
    assert_eq!(response.status, StatusCode::BadRequest);
    assert_eq!(
        response.serialize(),
        "HTTP/1.1 400 Bad Request\r\n\r\nBad Request"
    );
}
