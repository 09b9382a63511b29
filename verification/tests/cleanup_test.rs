use neuma::cleanup::{
    cloud_call, cloud_reply, generate_body, ollama_answer, ollama_prompt, ollama_reply, ping_url,
    worker_accepted, Check, CleanupClient, CleanupError, Detection, Search, OLLAMA_SYSTEM_PROMPT,
};
use serde_json::Value;

fn parse(bytes: &[u8]) -> Value {
    serde_json::from_slice(bytes).unwrap()
}

#[test]
fn settings_choose_the_backend() {
    assert!(CleanupClient::from_settings("cloud", "", "").unwrap().is_cloud());
    let local = CleanupClient::from_settings("local", "http://host:1/", "llama3").unwrap();
    assert!(!local.is_cloud());
    assert!(!local.needs_detection());
    assert!(CleanupClient::from_settings("disabled", "", "").is_none());
    assert!(CleanupClient::from_settings("Cloud", "", "").is_none());
    assert!(CleanupClient::default().is_cloud());
}

#[test]
fn requests_have_their_time() {
    assert_eq!(CleanupClient::cloud().timeout_ms(), 15_000);
    assert_eq!(CleanupClient::local("", "m").timeout_ms(), 30_000);
}

fn tags_of(setting: &str) -> Option<String> {
    match CleanupClient::local(setting, "m").check(None) {
        Check::Tags(url) => Some(url),
        _ => None,
    }
}

#[test]
fn addresses_are_tidied() {
    assert_eq!(tags_of(" http://host:1// ").unwrap(), "http://host:1/api/tags");
    assert_eq!(tags_of("http://host:1").unwrap(), "http://host:1/api/tags");
    assert!(tags_of("").is_none());
    assert!(tags_of("  ").is_none());
    assert!(tags_of(" auto ").is_none());
    assert!(CleanupClient::local("auto", "m").needs_detection());
    // A lone slash leaves nothing, and the address has to be found out.
    assert!(CleanupClient::local("/", "m").needs_detection());
}

#[test]
fn backends_are_checked() {
    assert!(matches!(
        CleanupClient::cloud().check(None),
        Check::Head(url) if url == "https://neuma-cleanup.emarjay921.workers.dev"
    ));
    assert!(matches!(
        CleanupClient::local("", "m").check(Some("http://localhost:11435".to_string())),
        Check::Tags(url) if url == "http://localhost:11435/api/tags"
    ));
    assert!(matches!(CleanupClient::local("", "m").check(None), Check::Unavailable));
}

#[test]
fn any_reply_makes_the_worker_available() {
    assert!(CleanupClient::cloud().is_available(Some(500)));
    assert!(!CleanupClient::cloud().is_available(None));
    let local = CleanupClient::local("", "m");
    assert!(local.is_available(Some(200)));
    assert!(local.is_available(Some(299)));
    assert!(!local.is_available(Some(300)));
    assert!(!local.is_available(Some(199)));
    assert!(!local.is_available(None));
}

#[test]
fn the_first_port_that_answers_is_taken() {
    let mut search = Detection::new();
    assert_eq!(search.probe(), "http://localhost:11434/api/tags");
    assert!(matches!(search.report(None), Search::Next));
    assert_eq!(search.probe(), "http://localhost:11435/api/tags");
    assert!(matches!(search.report(Some(200)), Search::Found(url) if url == "http://localhost:11435"));
}

#[test]
fn a_search_can_be_in_vain() {
    let mut search = Detection::new();
    assert!(matches!(search.report(Some(404)), Search::Next));
    assert!(matches!(search.report(None), Search::Next));
    assert_eq!(search.address(), "http://localhost:11436");
    assert!(matches!(search.report(Some(503)), Search::NotFound));
}

#[test]
fn keys_are_tried() {
    let client = CleanupClient::cloud();
    assert_eq!(ping_url(), "https://neuma-cleanup.emarjay921.workers.dev/ping");
    assert!(client.test_connection(Some(204)).is_ok());
    for (reply, words) in [
        (None, "failed to reach cleanup worker"),
        (Some(401), "invalid API key"),
        (Some(403), "invalid API key"),
        (Some(500), "worker returned 500"),
    ] {
        match client.test_connection(reply) {
            Err(e) => assert_eq!(e.message(), words),
            Ok(()) => panic!("accepted"),
        }
    }
}

#[test]
fn worker_gets_text_and_context() {
    let call = cloud_call("um \"hi\"", Some("Dear Ada"));
    assert_eq!(call.url, "https://neuma-cleanup.emarjay921.workers.dev/cleanup");
    let body = parse(&call.body);
    assert_eq!(body["text"], Value::from("um \"hi\""));
    assert_eq!(body["context"], Value::from("Dear Ada"));
    let bare = parse(&cloud_call("x", None).body);
    assert_eq!(bare.as_object().unwrap().len(), 1);
    assert_eq!(bare["text"], Value::from("x"));
}

fn words(r: Result<String, CleanupError>) -> String {
    match r {
        Ok(text) => format!("ok: {}", text),
        Err(e) => e.message(),
    }
}

#[test]
fn worker_replies_are_read() {
    assert!(worker_accepted(200));
    assert!(!worker_accepted(302));
    assert_eq!(
        words(cloud_reply(Some(200), String::new(), Some("clean".to_string()))),
        "ok: clean"
    );
    assert_eq!(
        words(cloud_reply(Some(200), String::new(), None)),
        "failed to parse cleanup worker response"
    );
    assert_eq!(
        words(cloud_reply(Some(429), "slow down".to_string(), None)),
        "cleanup worker returned 429 Too Many Requests: slow down"
    );
    assert_eq!(
        words(cloud_reply(None, String::new(), None)),
        "failed to POST to cleanup worker at https://neuma-cleanup.emarjay921.workers.dev/cleanup"
    );
}

#[test]
fn ollama_prompt_holds_text_and_context() {
    assert_eq!(
        ollama_prompt("um hi", None),
        format!("{}\n\nTranscript: um hi", OLLAMA_SYSTEM_PROMPT)
    );
    assert_eq!(ollama_prompt("um hi", Some("  ")), ollama_prompt("um hi", None));
    assert_eq!(
        ollama_prompt("um hi", Some(" Dear Ada ")),
        format!(
            "{}\n- If any names or terms in the following document context match phonetically \
             with words in the transcript, use their exact spelling:\nDocument context (text \
             before cursor):\nDear Ada\n\n\nTranscript: um hi",
            OLLAMA_SYSTEM_PROMPT
        )
    );
    assert!(OLLAMA_SYSTEM_PROMPT.starts_with("You are a voice dictation cleanup engine."));
    assert!(OLLAMA_SYSTEM_PROMPT.ends_with("\n- Output only the cleaned text, nothing else"));
}

#[test]
fn ollama_gets_its_request() {
    let body = parse(&generate_body("llama3", "p".to_string()));
    assert_eq!(body["model"], Value::from("llama3"));
    assert_eq!(body["prompt"], Value::from("p"));
    assert_eq!(body["stream"], Value::from(false));
    assert_eq!(body.as_object().unwrap().len(), 3);

    let call = match CleanupClient::local("http://h:1/", "m").ollama_call("um hi", None, None) {
        Ok(call) => call,
        Err(_) => panic!("no call"),
    };
    assert_eq!(call.url, "http://h:1/api/generate");
    assert_eq!(parse(&call.body)["prompt"], Value::from(ollama_prompt("um hi", None)));

    let found = Some("http://localhost:11434".to_string());
    match CleanupClient::local("auto", "m").ollama_call("um hi", None, found) {
        Ok(call) => assert_eq!(call.url, "http://localhost:11434/api/generate"),
        Err(_) => panic!("no call"),
    }
    match CleanupClient::local("auto", "m").ollama_call("um hi", None, None) {
        Err(e) => assert_eq!(e.message(), "Ollama not found on ports [11434, 11435, 11436]"),
        Ok(_) => panic!("a call"),
    }
}

#[test]
fn only_the_worker_gets_the_key() {
    match CleanupClient::cloud().clean_call("um hi", "secret", None, None) {
        Ok((call, key)) => {
            assert_eq!(call.url, "https://neuma-cleanup.emarjay921.workers.dev/cleanup");
            assert_eq!(parse(&call.body)["text"], Value::from("um hi"));
            assert_eq!(key, Some("secret".to_string()));
        }
        Err(_) => panic!("no call"),
    }
    let local = CleanupClient::local("http://h:1", "m");
    let sent = |api_key: &str| match local.clean_call("um hi", api_key, None, None) {
        Ok((call, key)) => {
            assert_eq!(key, None);
            (call.url, call.body)
        }
        Err(_) => panic!("no call"),
    };
    assert_eq!(sent("secret"), sent("other"));
    assert_eq!(sent("secret").0, "http://h:1/api/generate");
    match CleanupClient::local("auto", "m").clean_call("um hi", "secret", None, None) {
        Err(e) => assert_eq!(e.message(), "Ollama not found on ports [11434, 11435, 11436]"),
        Ok(_) => panic!("a call"),
    }
}

fn reply(status: u16, body: &str) -> String {
    words(ollama_reply(Some(status), Some(body.as_bytes().to_vec())))
}

#[test]
fn ollama_replies_are_read() {
    assert_eq!(reply(200, "{\"response\": \"  Hello.\\n\", \"done\": true}"), "ok: Hello.");
    assert_eq!(reply(200, "{\"done\": true}"), "no 'response' field in Ollama output");
    assert_eq!(reply(200, "{\"response\": 5}"), "no 'response' field in Ollama output");
    assert_eq!(reply(200, "[1]"), "no 'response' field in Ollama output");
    assert_eq!(reply(200, "{\"response\""), "invalid JSON from Ollama");
    assert_eq!(words(ollama_reply(Some(200), None)), "invalid JSON from Ollama");
    assert_eq!(reply(500, "{}"), "Ollama returned HTTP 500 Internal Server Error");
    assert_eq!(reply(599, "{}"), "Ollama returned HTTP 599 <unknown status code>");
    assert_eq!(
        words(ollama_reply(None, None)),
        "failed to reach Ollama — is it running? (`brew install ollama && ollama serve`)"
    );
    assert_eq!(words(ollama_answer(Some(" x ".to_string()))), "ok: x");
}
