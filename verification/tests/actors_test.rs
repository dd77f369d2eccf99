use amp_client::actors::ActorSpec;
use amp_client::actors::EventKinds;
use amp_client::actors::Path;
use amp_client::actors::Synchronization;
use amp_client::client::Client;
use amp_client::http::accept_payload;
use amp_client::http::accept_status;
use amp_client::http::Method;
use amp_client::http::RequestBody;
use amp_client::Pagination;
use amp_client::Wrapper;

fn actor(name: &str) -> ActorSpec {
    ActorSpec {
        name: name.to_string(),
        description: "A simple Golang example app".to_string(),
        image: "ghcr.io/amphitheatre-app/amp-example-go:latest".to_string(),
    }
}

#[test]
fn list_actors_test() {
    let pid = "1";
    let client = Client::new("https://cloud.amphitheatre.app/v1", Some("some-token".to_string())).unwrap();

    let req = client.actors().list(pid, None);
    assert_eq!(Method::Get, req.method);
    assert_eq!("/playbooks/1/actors", req.path);
    assert!(req.query.is_none());

    let decoded: Result<Wrapper<Vec<ActorSpec>>, String> = Ok(Wrapper {
        data: vec![actor("amp-example-go")],
        pagination: Some(Pagination { current_page: 1, per_page: 30, total_entries: 1, total_pages: 1 }),
    });
    let actors = accept_payload(decoded).unwrap();

    assert_eq!(1, actors.len());

    let actor = actors.first().unwrap();

    assert_eq!("amp-example-go", actor.name);
}

#[test]
fn get_actor_test() {
    let client = Client::new("https://cloud.amphitheatre.app/v1", Some("some-token".to_string())).unwrap();
    let pid = "1";
    let name = "hello";

    let req = client.actors().get(pid, name);
    assert_eq!(Method::Get, req.method);
    assert_eq!("/actors/1/hello", req.path);

    let decoded: Result<Wrapper<ActorSpec>, String> = Ok(Wrapper {
        data: actor("amp-example-go"),
        pagination: None,
    });
    let actor = accept_payload(decoded).unwrap();

    assert_eq!("amp-example-go", actor.name);
}

#[test]
fn get_actor_logs() {
    let client = Client::new("https://cloud.amphitheatre.app/v1", Some("some-token".to_string())).unwrap();
    let pid = "1";
    let name = "hello";

    let req = client.actors().logs(pid, name);
    assert_eq!(Method::Get, req.method);
    assert_eq!("/actors/1/hello/logs", req.path);
    assert!(matches!(req.body, RequestBody::Empty));
}

#[test]
fn get_actor_info_test() {
    let client = Client::new("https://cloud.amphitheatre.app/v1", Some("some-token".to_string())).unwrap();
    let pid = "1";
    let name = "hello";

    let req = client.actors().info(pid, name);
    assert_eq!(Method::Get, req.method);
    assert_eq!("/actors/1/hello/info", req.path);

    let body = r#"{"environments":{"K3S_TOKEN":"RdqNLMXRiRsHJhmxKurR"},"mounts":{"/VAR/LOG":"/var/lib/docker/volumes/f64c2f2cf81cfde89879f2a17924b31bd2f2e6a6a738f7df949bf6bd57102d25/_data"},"port":{"6443/tcp":"0.0.0.0:42397"}}"#;
    assert_eq!(Ok(200), accept_status(200, body));
    let json: serde_json::Value = serde_json::from_str(body).unwrap();

    assert_eq!("RdqNLMXRiRsHJhmxKurR", json["environments"]["K3S_TOKEN"]);
    assert_eq!(
        "/var/lib/docker/volumes/f64c2f2cf81cfde89879f2a17924b31bd2f2e6a6a738f7df949bf6bd57102d25/_data",
        json["mounts"]["/VAR/LOG"]
    );
    assert_eq!("0.0.0.0:42397", json["port"]["6443/tcp"]);
}

#[test]
fn get_actor_stats_test() {
    let client = Client::new("https://cloud.amphitheatre.app/v1", Some("some-token".to_string())).unwrap();
    let pid = "1";
    let name = "hello";

    let req = client.actors().stats(pid, name);
    assert_eq!(Method::Get, req.method);
    assert_eq!("/actors/1/hello/stats", req.path);

    let body = r#"{"CPU USAGE":"1.98%","DISK READ/WRITE":"5.3MB / 43.7 MB","MEMORY USAGE":"65.8MB","NETWORK I/O":"5.7 kB / 3 kB"}"#;
    assert_eq!(Ok(200), accept_status(200, body));
    let json: serde_json::Value = serde_json::from_str(body).unwrap();

    assert_eq!("1.98%", json["CPU USAGE"]);
    assert_eq!("5.3MB / 43.7 MB", json["DISK READ/WRITE"]);
    assert_eq!("65.8MB", json["MEMORY USAGE"]);
    assert_eq!("5.7 kB / 3 kB", json["NETWORK I/O"]);
}

#[test]
fn sync_actor_test() {
    let client = Client::new("https://cloud.amphitheatre.app/v1", Some("some-token".to_string())).unwrap();
    let pid = "1";
    let name = "hello";

    let payload = Synchronization {
        kind: EventKinds::Create,
        paths: vec![Path::File(String::from("a.txt"))],
        attributes: None,
        payload: None,
    };

    let req = client.actors().sync(pid, name, payload);
    assert_eq!(Method::Post, req.method);
    assert_eq!("/actors/1/hello/sync", req.path);
    match &req.body {
        RequestBody::Sync(s) => {
            assert!(matches!(s.kind, EventKinds::Create));
            assert_eq!(1, s.paths.len());
            assert!(matches!(&s.paths[0], Path::File(p) if p == "a.txt"));
        }
        _ => panic!("the sync request must carry its synchronization payload"),
    }

    let response = accept_status(202, "");
    println!("{:?}", response);
    assert!(response.is_ok());
    assert_eq!(202, response.unwrap());
}
