use spa_server::config::{get_bind_address, get_web_root, startup_banner, Config};
use spa_server::cors::get_cors_factory;
use spa_server::delay::parse_delay;
use spa_server::paths::{fallback_target, primary_target, resolve_target};
use spa_server::plan::{plan_request, RequestPlan};
use spa_server::route::{match_route, Route};

#[test]
fn defaults_when_unset() {
    assert_eq!(get_bind_address(None), "0.0.0.0:5000");
    assert_eq!(get_web_root(None), "./");
}

#[test]
fn defaults_when_empty() {
    assert_eq!(get_bind_address(Some(String::new())), "0.0.0.0:5000");
    assert_eq!(get_web_root(Some(String::new())), "./");
}

#[test]
fn configured_values_win() {
    assert_eq!(
        get_bind_address(Some("127.0.0.1:8080".to_string())),
        "127.0.0.1:8080"
    );
    assert_eq!(get_web_root(Some("/srv".to_string())), "/srv");
}

#[test]
fn config_snapshot() {
    let c = Config::new(None, Some("/srv".to_string()));
    assert_eq!(c.bind_address, "0.0.0.0:5000");
    assert_eq!(c.web_root, "/srv");
}

#[test]
fn banner_names_address_and_root() {
    assert_eq!(
        startup_banner("0.0.0.0:5000", "./"),
        "Starting server at http://0.0.0.0:5000/, static files root at ./"
    );
}

#[test]
fn empty_filename_is_index() {
    assert_eq!(primary_target("/srv", ""), "/srv/index.html");
    assert_eq!(fallback_target("/srv"), "/srv/index.html");
}

#[test]
fn join_is_literal() {
    assert_eq!(primary_target("/srv", "app.js"), "/srv/app.js");
    assert_eq!(primary_target("/srv/", "app.js"), "/srv//app.js");
    assert_eq!(primary_target("./", "a/b.css"), ".//a/b.css");
}

#[test]
fn existing_primary_is_served() {
    let t = resolve_target("/srv", "app.js", true);
    assert!(t.existed);
    assert_eq!(t.path, "/srv/app.js");
}

#[test]
fn missing_primary_falls_back_to_index() {
    let t = resolve_target("/srv", "does/not/exist", false);
    assert!(!t.existed);
    assert_eq!(t.path, "/srv/index.html");
}

#[test]
fn missing_index_still_resolves_to_index() {
    let t = resolve_target("/srv", "", false);
    assert!(!t.existed);
    assert_eq!(t.path, "/srv/index.html");
}

#[test]
fn parse_delay_exact_values() {
    assert_eq!(parse_delay("0"), Some(0));
    assert_eq!(parse_delay("250"), Some(250));
    assert_eq!(parse_delay("007"), Some(7));
    assert_eq!(parse_delay("+42"), Some(42));
    assert_eq!(parse_delay("18446744073709551615"), Some(u64::MAX));
}

#[test]
fn parse_delay_rejects_garbage() {
    assert_eq!(parse_delay("abc"), None);
    assert_eq!(parse_delay(""), None);
    assert_eq!(parse_delay("+"), None);
    assert_eq!(parse_delay("12a"), None);
    assert_eq!(parse_delay("-1"), None);
    assert_eq!(parse_delay("2 50"), None);
}

#[test]
fn parse_delay_rejects_overflow() {
    assert_eq!(parse_delay("18446744073709551616"), None);
    assert_eq!(parse_delay("99999999999999999999999"), None);
}

#[test]
fn route_plain_path() {
    assert_eq!(
        match_route("GET", "/app.js"),
        Route::Index {
            filename: "app.js".to_string()
        }
    );
}

#[test]
fn route_empty_path() {
    assert_eq!(
        match_route("GET", "/"),
        Route::Index {
            filename: String::new()
        }
    );
}

#[test]
fn route_delay_path() {
    assert_eq!(
        match_route("GET", "/delay/250/app.js"),
        Route::Delayed {
            delay: "250".to_string(),
            filename: "app.js".to_string()
        }
    );
}

#[test]
fn route_delay_captures_greedily() {
    assert_eq!(
        match_route("GET", "/delay/a/b/c"),
        Route::Delayed {
            delay: "a/b".to_string(),
            filename: "c".to_string()
        }
    );
    assert_eq!(
        match_route("GET", "/delay/250/"),
        Route::Delayed {
            delay: "250".to_string(),
            filename: String::new()
        }
    );
}

#[test]
fn route_delay_without_second_slash_is_plain() {
    assert_eq!(
        match_route("GET", "/delay/xyz"),
        Route::Index {
            filename: "delay/xyz".to_string()
        }
    );
    assert_eq!(
        match_route("GET", "/delay/"),
        Route::Index {
            filename: "delay/".to_string()
        }
    );
}

#[test]
fn route_other_methods_fall_through() {
    assert_eq!(match_route("POST", "/app.js"), Route::NotFound);
    assert_eq!(match_route("PUT", "/delay/250/app.js"), Route::NotFound);
}

#[test]
fn plan_serves_index_at_root() {
    assert_eq!(
        plan_request("GET", "/"),
        RequestPlan::Serve {
            delay_ms: 0,
            filename: String::new()
        }
    );
}

#[test]
fn plan_serves_plain_file_without_delay() {
    assert_eq!(
        plan_request("GET", "/app.js"),
        RequestPlan::Serve {
            delay_ms: 0,
            filename: "app.js".to_string()
        }
    );
}

#[test]
fn plan_parses_delay() {
    assert_eq!(
        plan_request("GET", "/delay/250/app.js"),
        RequestPlan::Serve {
            delay_ms: 250,
            filename: "app.js".to_string()
        }
    );
}

#[test]
fn plan_rejects_bad_delay() {
    assert_eq!(plan_request("GET", "/delay/abc/app.js"), RequestPlan::BadRequest);
    assert_eq!(
        plan_request("GET", "/delay/18446744073709551616/x"),
        RequestPlan::BadRequest
    );
}

#[test]
fn plan_other_method_is_not_found() {
    assert_eq!(plan_request("POST", "/app.js"), RequestPlan::NotFound);
}

#[test]
fn delayed_and_plain_serve_the_same_name() {
    let plain = plan_request("GET", "/app.js");
    let delayed = plan_request("GET", "/delay/250/app.js");
    match (plain, delayed) {
        (
            RequestPlan::Serve {
                delay_ms: d0,
                filename: f0,
            },
            RequestPlan::Serve {
                delay_ms: d1,
                filename: f1,
            },
        ) => {
            assert_eq!(f0, f1);
            assert_eq!(d0, 0);
            assert_eq!(d1, 250);
        }
        _ => panic!("both requests should be served"),
    }
}

#[test]
fn cors_policy_constants() {
    let p = get_cors_factory();
    assert_eq!(p.allowed_methods, vec!["GET".to_string(), "POST".to_string()]);
    assert_eq!(
        p.allowed_headers,
        vec!["Content-Type".to_string(), "Accept".to_string()]
    );
    assert_eq!(p.max_age_seconds, 36000);
}
