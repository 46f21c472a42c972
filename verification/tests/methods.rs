//! Method names, and reading them back.

use wininet_client::request::RequestType;

const ALL: [RequestType; 9] = [
    RequestType::GET,
    RequestType::POST,
    RequestType::DELETE,
    RequestType::PUT,
    RequestType::HEAD,
    RequestType::PATCH,
    RequestType::OPTIONS,
    RequestType::CONNECT,
    RequestType::TRACE,
];

#[test]
fn every_method_has_its_upper_case_name() {
    assert_eq!(RequestType::to_str(RequestType::GET), "GET");
    assert_eq!(RequestType::to_str(RequestType::POST), "POST");
    assert_eq!(RequestType::to_str(RequestType::DELETE), "DELETE");
    assert_eq!(RequestType::to_str(RequestType::PUT), "PUT");
    assert_eq!(RequestType::to_str(RequestType::HEAD), "HEAD");
    assert_eq!(RequestType::to_str(RequestType::PATCH), "PATCH");
    assert_eq!(RequestType::to_str(RequestType::OPTIONS), "OPTIONS");
    assert_eq!(RequestType::to_str(RequestType::CONNECT), "CONNECT");
    assert_eq!(RequestType::to_str(RequestType::TRACE), "TRACE");
}

#[test]
fn every_name_is_read_back_as_its_method() {
    assert_eq!(RequestType::to_res_type("GET"), RequestType::GET);
    assert_eq!(RequestType::to_res_type("POST"), RequestType::POST);
    assert_eq!(RequestType::to_res_type("DELETE"), RequestType::DELETE);
    assert_eq!(RequestType::to_res_type("PUT"), RequestType::PUT);
    assert_eq!(RequestType::to_res_type("HEAD"), RequestType::HEAD);
    assert_eq!(RequestType::to_res_type("PATCH"), RequestType::PATCH);
    assert_eq!(RequestType::to_res_type("OPTIONS"), RequestType::OPTIONS);
    assert_eq!(RequestType::to_res_type("CONNECT"), RequestType::CONNECT);
    assert_eq!(RequestType::to_res_type("TRACE"), RequestType::TRACE);
}

#[test]
fn name_round_trips_for_every_method() {
    for method in ALL {
        assert_eq!(RequestType::to_res_type(RequestType::to_str(method)), method);
    }
}

#[test]
fn names_are_pairwise_distinct() {
    for (i, a) in ALL.iter().enumerate() {
        for (j, b) in ALL.iter().enumerate() {
            assert_eq!(RequestType::to_str(*a) == RequestType::to_str(*b), i == j);
        }
    }
}

#[test]
fn unknown_names_are_read_as_get() {
    assert_eq!(RequestType::to_res_type(""), RequestType::GET);
    assert_eq!(RequestType::to_res_type("get"), RequestType::GET);
    assert_eq!(RequestType::to_res_type("post"), RequestType::GET);
    assert_eq!(RequestType::to_res_type("Post"), RequestType::GET);
    assert_eq!(RequestType::to_res_type("POST "), RequestType::GET);
    assert_eq!(RequestType::to_res_type(" POST"), RequestType::GET);
    assert_eq!(RequestType::to_res_type("POS"), RequestType::GET);
    assert_eq!(RequestType::to_res_type("POSTS"), RequestType::GET);
    assert_eq!(RequestType::to_res_type("FETCH"), RequestType::GET);
    assert_eq!(RequestType::to_res_type("DÉLETE"), RequestType::GET);
}

#[test]
fn reading_an_unknown_name_twice_stays_get() {
    let first = RequestType::to_res_type("nothing");
    let second = RequestType::to_res_type(RequestType::to_str(first));
    assert_eq!(first, RequestType::GET);
    assert_eq!(second, RequestType::GET);
}
