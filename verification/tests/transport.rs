use soulgraph::entity::Entity;
use soulgraph::json::Json;
use soulgraph::memories::{CorruptMemory, Memory};
use soulgraph::personality::traits::TraitBuilder;
use soulgraph::personality::{CorruptPersonality, Personality};
use soulgraph::soul::{CorruptSoul, Soul};
use soulgraph::transport::{is_successful, Method, Outcome, Request};
use soulgraph::wire::Record;
use soulgraph::{resource_path, Soulgraph};

fn client() -> Soulgraph {
    Soulgraph::new("test-key", "http://test.com")
}

fn luna() -> Personality {
    Personality::builder()
        .name("Dr. Luna")
        .add_trait(TraitBuilder::new("sarcastic").build())
        .build_on("2025-01-11", "2025-01-11")
        .unwrap()
}

#[test]
fn not_found_and_an_unreadable_body_are_the_same_failure() {
    let not_found = Outcome::Answered { status: 404, body: None };
    let unreadable = Outcome::Answered {
        status: 200,
        body: Some(Json::Object(vec![("name".to_string(), Json::Integer(1))])),
    };
    let first = Personality::receive(&not_found);
    let second = Personality::receive(&unreadable);
    assert_eq!(first, Err(CorruptPersonality));
    assert_eq!(second, Err(CorruptPersonality));
    assert_eq!(first, second);
}

#[test]
fn every_way_to_fail_is_the_one_failure() {
    let failures = [
        Outcome::Unreachable,
        Outcome::Answered { status: 404, body: None },
        Outcome::Answered { status: 500, body: Some(luna().encode()) },
        Outcome::Answered { status: 199, body: Some(luna().encode()) },
        Outcome::Answered { status: 300, body: Some(luna().encode()) },
        Outcome::Answered { status: 200, body: None },
        Outcome::Answered { status: 200, body: Some(Json::Null) },
        Outcome::Answered { status: 200, body: Some(Json::Text("{}".to_string())) },
    ];
    for outcome in failures.iter() {
        assert_eq!(Personality::receive(outcome), Err(CorruptPersonality));
        assert_eq!(Soul::receive(outcome), Err(CorruptSoul));
        assert_eq!(Memory::receive(outcome), Err(CorruptMemory));
    }
}

#[test]
fn a_successful_answer_delivers_the_record() {
    let outcome = Outcome::Answered { status: 200, body: Some(luna().encode()) };
    assert_eq!(Personality::receive(&outcome), Ok(luna()));

    let soul = Soul::builder().personality(luna()).build();
    let outcome = Outcome::Answered { status: 200, body: Some(soul.encode()) };
    assert_eq!(Soul::receive(&outcome), Ok(soul));

    let memory = Memory::baseline_at(1_700_000_000_000);
    let outcome = Outcome::Answered { status: 200, body: Some(memory.encode()) };
    assert_eq!(Memory::receive(&outcome), Ok(memory));
}

#[test]
fn the_statuses_of_success_are_200_to_299() {
    for status in [200u16, 201, 204, 250, 299] {
        assert!(is_successful(status));
    }
    for status in [0u16, 100, 199, 300, 301, 404, 500, u16::MAX] {
        assert!(!is_successful(status));
    }
}

#[test]
fn every_status_of_success_delivers() {
    for status in [200u16, 201, 299] {
        let outcome = Outcome::Answered { status, body: Some(luna().encode()) };
        assert_eq!(Personality::receive(&outcome), Ok(luna()));
    }
}

#[test]
fn a_record_of_another_kind_is_a_failure() {
    let outcome = Outcome::Answered { status: 200, body: Some(Entity::default().encode()) };
    assert_eq!(Personality::receive(&outcome), Err(CorruptPersonality));
    assert_eq!(outcome.deliver::<Entity>(), Some(Entity::default()));
}

#[test]
fn delete_is_confirmed_by_the_status_alone() {
    let done = Outcome::Answered { status: 200, body: None };
    let done_with_body = Outcome::Answered { status: 200, body: Some(Json::Null) };
    assert_eq!(Soul::confirm(&done), Ok(()));
    assert_eq!(Soul::confirm(&done_with_body), Ok(()));
    assert_eq!(Memory::confirm(&done), Ok(()));
    assert!(done.is_confirmed());

    for status in [201u16, 204, 299] {
        let done = Outcome::Answered { status, body: None };
        assert_eq!(Soul::confirm(&done), Ok(()));
        assert_eq!(Memory::confirm(&done), Ok(()));
    }

    for outcome in [
        Outcome::Unreachable,
        Outcome::Answered { status: 404, body: None },
        Outcome::Answered { status: 199, body: None },
        Outcome::Answered { status: 300, body: None },
    ] {
        assert_eq!(Soul::confirm(&outcome), Err(CorruptSoul));
        assert_eq!(Memory::confirm(&outcome), Err(CorruptMemory));
        assert!(!outcome.is_confirmed());
    }
}

#[test]
fn get_asks_for_the_record_under_its_identifier() {
    let expected = Request {
        method: Method::Get,
        url: "http://test.com/personality/abc".to_string(),
        body: None,
    };
    assert_eq!(Personality::get("abc", client()), expected);
    assert_eq!(Soul::get("abc", client()), expected);
    assert_eq!(Memory::get("abc", client()), expected);
    assert_eq!(resource_path("abc"), "/personality/abc");
}

#[test]
fn create_posts_the_record_to_the_collection() {
    let request = Personality::create(&luna(), client());
    assert_eq!(request.method, Method::Post);
    assert_eq!(request.url, "http://test.com/personality");
    assert_eq!(request.body, Some(luna().encode()));

    let soul = Soul::builder().personality(luna()).build();
    let request = Soul::create(&soul, client());
    assert_eq!(request.method, Method::Post);
    assert_eq!(request.url, "http://test.com/personality");
    assert_eq!(request.body, Some(soul.encode()));

    let memory = Memory::baseline_at(3);
    let request = Memory::create(&memory, client());
    assert_eq!(request.method, Method::Post);
    assert_eq!(request.url, "http://test.com/personality");
    assert_eq!(request.body, Some(memory.encode()));
}

#[test]
fn update_patches_the_record_under_its_identifier() {
    let request = Personality::update("abc", &luna(), client());
    assert_eq!(request.method, Method::Patch);
    assert_eq!(request.url, "http://test.com/personality/abc");
    assert_eq!(request.body, Some(luna().encode()));
}

#[test]
fn delete_asks_to_drop_the_record_under_its_identifier() {
    let expected = Request {
        method: Method::Delete,
        url: "http://test.com/personality/abc".to_string(),
        body: None,
    };
    assert_eq!(Soul::delete("abc", client()), expected);
    assert_eq!(Memory::delete("abc", client()), expected);
}

#[test]
fn the_five_verbs_of_the_client() {
    let body = Json::Object(vec![]);
    assert_eq!(client().get("/x").method, Method::Get);
    assert_eq!(client().get("/x").url, "http://test.com/x");
    assert_eq!(client().get("/x").body, None);
    assert_eq!(client().post("/x", body.clone()).method, Method::Post);
    assert_eq!(client().post("/x", body.clone()).body, Some(body.clone()));
    assert_eq!(client().put("/x", body.clone()).method, Method::Put);
    assert_eq!(client().put("/x", body.clone()).url, "http://test.com/x");
    assert_eq!(client().patch("/x", body.clone()).method, Method::Patch);
    assert_eq!(client().patch("/x", body.clone()).body, Some(body));
    assert_eq!(client().delete("/x").method, Method::Delete);
    assert_eq!(client().delete("/x").body, None);
}

#[test]
fn every_request_carries_the_credential_and_json_headers() {
    assert_eq!(
        client().headers(),
        vec![
            ("X-API-KEY".to_string(), "test-key".to_string()),
            ("content-type".to_string(), "application/json".to_string()),
            ("accept".to_string(), "application/json".to_string()),
        ]
    );
    let built = Soulgraph::builder().api_key("k").base_url("u").build();
    assert_eq!(built, Soulgraph::new("k", "u"));
}
