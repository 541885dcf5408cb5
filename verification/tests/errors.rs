use power_pizza_bot::bot::error::{BotError, InteractionError, SearchError};
use power_pizza_bot::transcript::error::JobManagerError;

fn io() -> std::io::Error {
    std::io::Error::new(std::io::ErrorKind::Other, "disk full")
}

fn json() -> serde_json::Error {
    serde_json::from_str::<serde_json::Value>("{").unwrap_err()
}

fn http() -> reqwest::Error {
    reqwest::Client::new().get("not a url").build().unwrap_err()
}

fn mongo() -> mongodb::error::Error {
    mongodb::error::Error::custom("no primary".to_string())
}

fn join() -> tokio::task::JoinError {
    let runtime = tokio::runtime::Builder::new_current_thread().build().unwrap();
    runtime.block_on(async {
        let handle = tokio::spawn(std::future::pending::<()>());
        handle.abort();
        handle.await.unwrap_err()
    })
}

#[test]
fn an_io_error_is_shown_with_its_cause() {
    let error = JobManagerError::from(io());
    assert!(matches!(error, JobManagerError::Io(_)));
    assert_eq!(error.message(), "IO error: disk full");
}

#[test]
fn a_json_error_is_shown_with_its_cause() {
    let cause = json().to_string();
    let error = JobManagerError::from(json());
    assert!(matches!(error, JobManagerError::Serde(_)));
    assert_eq!(error.message(), format!("Serde error: {}", cause));
}

#[test]
fn a_request_error_is_shown_with_its_cause() {
    let cause = http().to_string();
    let error = JobManagerError::from(http());
    assert!(matches!(error, JobManagerError::Reqwest(_)));
    assert_eq!(error.message(), format!("Reqwest error: {}", cause));
}

#[test]
fn a_datastore_error_is_shown_with_its_cause() {
    let cause = mongo().to_string();
    let error = JobManagerError::from(mongo());
    assert!(matches!(error, JobManagerError::Mongo(_)));
    assert_eq!(error.message(), format!("MongoDB error: {}", cause));
}

#[test]
fn a_join_error_is_shown_with_its_cause() {
    let cause = join();
    let text = cause.to_string();
    let error = JobManagerError::from(cause);
    assert!(matches!(error, JobManagerError::Tokio(_)));
    assert_eq!(error.message(), format!("Tokio error: {}", text));
    assert!(error.message().ends_with("was cancelled"));
}

#[test]
fn a_poisoned_lock_is_a_mutex_error() {
    let poisoned = std::sync::PoisonError::new(0u8);
    let error = JobManagerError::from(poisoned);
    assert!(matches!(error, JobManagerError::Mutex));
    assert_eq!(error.message(), "Mutex error");
}

#[test]
fn the_pipeline_s_own_errors_name_the_episode() {
    assert_eq!(JobManagerError::NotFound(99).message(), "Episode not found: 99");
    assert_eq!(
        JobManagerError::Process(7, 1).message(),
        "Normalizer failed for episode 7 with exit code 1"
    );
    assert_eq!(
        JobManagerError::Process(7, -11).message(),
        "Normalizer failed for episode 7 with exit code -11"
    );
}

#[test]
fn an_interaction_error_is_shown_with_its_cause() {
    let cause = mongo().to_string();
    let error = InteractionError::from(mongo());
    assert!(matches!(error, InteractionError::Mongo(_)));
    assert_eq!(error.message(), format!("MongoDB error: {}", cause));

    let request = teloxide::RequestError::Io(io());
    let cause = request.to_string();
    let error = InteractionError::from(request);
    assert!(matches!(error, InteractionError::Teloxide(_)));
    assert_eq!(error.message(), format!("Teloxide error: {}", cause));
}

#[test]
fn the_user_is_told_the_kind_of_error() {
    let opening = "c'è stato un problema nel generare la risposta: ";
    assert_eq!(BotError::from(mongo()).respond_client(), format!("{}errore database", opening));
    assert_eq!(
        BotError::from(json()).respond_client(),
        format!("{}errore di serializzazione", opening)
    );
    assert_eq!(
        BotError::from(teloxide::RequestError::Io(io())).respond_client(),
        format!("{}errore telegram", opening)
    );
    assert_eq!(
        BotError::NotImplemented.respond_client(),
        format!("{}questa funzionalità non è implementata", opening)
    );
    assert_eq!(BotError::MalformedQuery.respond_client(), format!("{}query malformata", opening));
    assert_eq!(
        BotError::from(InteractionError::from(mongo())).respond_client(),
        format!("{}errore interazione", opening)
    );
}

#[test]
fn a_failed_search_speaks_for_itself() {
    let search = SearchError { response: "episodio non trovato".to_string() };
    assert_eq!(search.respond_client(), "episodio non trovato");
    let error = BotError::from(search);
    assert!(matches!(error, BotError::SearchError(_)));
    assert_eq!(error.respond_client(), "episodio non trovato");
}

#[test]
fn a_bot_error_is_logged_under_its_name() {
    assert_eq!(BotError::MalformedQuery.message(), "BotError");
    assert_eq!(BotError::from(json()).message(), "BotError");
}
