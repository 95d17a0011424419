use kiro_acp::session::{AgentState, SessionInfo};

#[test]
fn a_new_state_remembers_nothing() {
    let state = AgentState::new();
    assert!(!state.initialized);
    assert!(state.sessions.is_empty());
    assert_eq!(state.session_cwd("any"), None);
}

#[test]
fn a_session_is_found_under_its_token() {
    let mut state = AgentState::new();
    state.insert_session("a".to_string(), "/one".to_string());
    state.insert_session("b".to_string(), "/two".to_string());
    assert_eq!(state.session_cwd("a"), Some("/one"));
    assert_eq!(state.session_cwd("b"), Some("/two"));
    assert_eq!(state.session_cwd("c"), None);
    assert_eq!(state.session_cwd(""), None);
    assert_eq!(
        state.sessions,
        vec![
            SessionInfo { id: "a".to_string(), cwd: "/one".to_string() },
            SessionInfo { id: "b".to_string(), cwd: "/two".to_string() },
        ]
    );
}

#[test]
fn a_later_session_takes_the_place_of_an_earlier_one_with_its_token() {
    let mut state = AgentState::new();
    state.insert_session("a".to_string(), "/one".to_string());
    state.insert_session("a".to_string(), "/other".to_string());
    assert_eq!(state.session_cwd("a"), Some("/other"));
}

#[test]
fn remembering_a_session_leaves_initialized_alone() {
    let mut state = AgentState::new();
    state.initialized = true;
    state.insert_session("a".to_string(), ".".to_string());
    assert!(state.initialized);
}
