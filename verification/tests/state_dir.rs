use infer_dispatch::error::{ConfigError, HandlerError};
use infer_dispatch::queue::RequestHandler;
use infer_dispatch::state::{HandlerFactory, ServerState};
use infer_dispatch::task::{TaskRequest, TaskResponse};

#[derive(Debug, Clone, Copy, PartialEq, Eq)]
pub struct Ask(pub u64);
impl TaskRequest for Ask {}

/// Carries the tag of the request it answers and the flavor of the handler
/// that answered, so a test can tell the models apart.
#[derive(Debug, Clone, Copy, PartialEq, Eq)]
pub struct Answer(pub u64, pub u64);
impl TaskResponse for Answer {}

/// Stand-in compute device: the directory only passes it through.
struct Cpu;

struct FlavoredHandler {
    flavor: u64,
}

impl RequestHandler<Ask, Answer> for FlavoredHandler {
    fn new() -> Result<Self, HandlerError> {
        Ok(FlavoredHandler { flavor: 0 })
    }

    fn handle(&mut self, request: Ask) -> Result<Answer, HandlerError> {
        Ok(Answer(request.0, self.flavor))
    }
}

impl HandlerFactory<Cpu> for FlavoredHandler {
    fn from_repo_string(repo: &str, _device: &Cpu) -> Result<Self, HandlerError> {
        if repo.contains("bad") {
            return Err(HandlerError::new(format!("cannot load {repo}")));
        }
        // the flavor is the last byte of the identifier, which the tests
        // below pick to differ between models
        let flavor = *repo.as_bytes().last().unwrap() as u64;
        Ok(FlavoredHandler { flavor })
    }
}

#[test]
fn empty_model_list_is_refused() {
    let built = ServerState::<Ask, Answer, FlavoredHandler>::new(vec![], &Cpu);
    assert!(matches!(built, Err(ConfigError::NoModelsProvided)));
}

#[test]
fn two_loaded_models_serve_independently() {
    let repos = vec!["org/modelA".to_string(), "org/modelB".to_string()];
    let state = ServerState::<Ask, Answer, FlavoredHandler>::new(repos, &Cpu).unwrap();
    assert_eq!(state.default_model, "org/modelA");
    assert_eq!(state.model_map.len(), 2);
    assert!(state.get("org/modelC").is_none());

    let a = state.get("org/modelA").expect("modelA is filed");
    let b = state.get("org/modelB").expect("modelB is filed");
    assert_eq!(a.submit(Ask(1)), Ok(Answer(1, 'A' as u64)));
    assert_eq!(b.submit(Ask(2)), Ok(Answer(2, 'B' as u64)));

    let d = state.get_default().expect("the default model is filed");
    assert_eq!(d.submit(Ask(3)), Ok(Answer(3, 'A' as u64)));
}

#[test]
fn unparsable_default_stays_but_lookup_fails_gracefully() {
    let repos = vec!["standalone".to_string()];
    let state = ServerState::<Ask, Answer, FlavoredHandler>::new(repos, &Cpu).unwrap();
    assert_eq!(state.default_model, "standalone");
    assert!(state.model_map.is_empty());
    assert!(state.get_default().is_none());
    assert!(state.get("standalone").is_none());
}

#[test]
fn failing_load_is_skipped_not_fatal() {
    let repos = vec!["org/bad".to_string(), "org/good".to_string()];
    let state = ServerState::<Ask, Answer, FlavoredHandler>::new(repos, &Cpu).unwrap();
    assert_eq!(state.default_model, "org/bad");
    assert_eq!(state.model_map.len(), 1);
    assert!(state.get("org/bad").is_none());
    assert!(state.get_default().is_none());
    let good = state.get("org/good").expect("the good model is filed");
    assert_eq!(good.submit(Ask(4)), Ok(Answer(4, 'd' as u64)));
}

#[test]
fn revision_suffix_is_not_part_of_the_logical_name() {
    let repos = vec!["org/modelA:v2".to_string()];
    let state = ServerState::<Ask, Answer, FlavoredHandler>::new(repos, &Cpu).unwrap();
    assert_eq!(state.default_model, "org/modelA:v2");
    assert!(state.get("org/modelA").is_some());
    assert!(state.get("org/modelA:v2").is_none());
    // the default name keeps the revision suffix, so it is not a key: the
    // lookup comes up empty instead of panicking
    assert!(state.get_default().is_none());
}

#[test]
fn latest_successful_load_wins_a_name_clash() {
    let repos = vec!["org/modelA".to_string(), "org/modelA:v2".to_string()];
    let state = ServerState::<Ask, Answer, FlavoredHandler>::new(repos, &Cpu).unwrap();
    // the second load replaces the first under the shared name
    assert_eq!(state.model_map.len(), 1);
    let c = state.get("org/modelA").expect("the clashing name is filed");
    assert_eq!(c.submit(Ask(9)), Ok(Answer(9, '2' as u64)));
}
