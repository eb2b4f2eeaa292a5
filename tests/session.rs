use todr::command::{classify, Command};
use todr::completer::CustomCompletion;
use todr::repl::{Effect, InputEvent, SessionState, Todr};

fn complete(line: &str, pos: usize) -> (usize, Vec<String>) {
    CustomCompletion::new().complete(line, pos)
}

#[test]
fn completion_of_single_letters() {
    assert_eq!(complete("i", 1), (1, vec!["items".to_string()]));
    assert_eq!(complete("p", 1), (1, vec!["projs".to_string()]));
    assert_eq!(complete("x", 1), (1, Vec::<String>::new()));
}

#[test]
fn completion_of_longer_prefixes() {
    assert_eq!(complete("ite", 3), (3, vec!["items".to_string()]));
    assert_eq!(complete("qui", 3), (3, vec!["quit".to_string()]));
    assert_eq!(complete("he", 2), (2, vec!["help".to_string()]));
    assert_eq!(complete("pro", 3), (3, vec!["projs".to_string()]));
    assert_eq!(complete("items!", 6), (6, Vec::<String>::new()));
    assert_eq!(complete("I", 1), (1, Vec::<String>::new()));
}

#[test]
fn completion_uses_text_before_cursor() {
    let all: Vec<String> = vec!["help".to_string(), "items".to_string(), "projs".to_string(), "quit".to_string()];
    assert_eq!(complete("", 0), (0, all.clone()));
    assert_eq!(complete("qx", 1), (1, vec!["quit".to_string()]));
    assert_eq!(complete("hz", 0), (0, all));
}

#[test]
fn completer_lists_the_known_commands() {
    let c = CustomCompletion::new();
    assert_eq!(c.commands, vec!["help".to_string(), "items".to_string(), "projs".to_string(), "quit".to_string()]);
}

#[test]
fn classify_names_and_aliases() {
    assert_eq!(classify("help"), Command::Help);
    assert_eq!(classify("h"), Command::Help);
    assert_eq!(classify("items"), Command::Items);
    assert_eq!(classify("i"), Command::Items);
    assert_eq!(classify("projs"), Command::Projects);
    assert_eq!(classify("p"), Command::Projects);
    assert_eq!(classify("quit"), Command::Quit);
    assert_eq!(classify("q"), Command::Quit);
}

#[test]
fn classify_is_exact() {
    assert_eq!(classify("Help"), Command::Unknown);
    assert_eq!(classify("ite"), Command::Unknown);
    assert_eq!(classify("quit "), Command::Unknown);
    assert_eq!(classify(""), Command::Unknown);
    assert_eq!(classify("projects"), Command::Unknown);
}

#[test]
fn quit_saves_history_once_and_ends() {
    let mut s = Todr::new();
    assert!(s.is_running());
    let effects = s.process_event(InputEvent::Line("quit".to_string()));
    assert_eq!(effects, vec![Effect::RecordHistory("quit".to_string()), Effect::SaveHistory]);
    assert_eq!(effects.iter().filter(|e| **e == Effect::SaveHistory).count(), 1);
    assert!(!s.is_running());
    assert_eq!(s.state, SessionState::Terminated);
    assert!(s.process_event(InputEvent::Line("help".to_string())).is_empty());
    assert!(s.process_event(InputEvent::Eof).is_empty());
}

#[test]
fn unknown_input_is_echoed_and_session_continues() {
    let mut s = Todr::new();
    let effects = s.process_event(InputEvent::Line("foo".to_string()));
    assert_eq!(effects.len(), 2);
    assert_eq!(effects[0], Effect::RecordHistory("foo".to_string()));
    match &effects[1] {
        Effect::Print(m) => {
            assert!(m.contains("foo"));
            assert_eq!(m, "Unknown Command: foo");
        }
        other => panic!("unexpected effect {:?}", other),
    }
    assert_eq!(s.state, SessionState::Running);
}

#[test]
fn commands_dispatch_and_keep_running() {
    let mut s = Todr::new();
    assert_eq!(s.process_event(InputEvent::Line("h".to_string()))[1], Effect::ShowHelp);
    assert_eq!(s.process_event(InputEvent::Line("items".to_string()))[1], Effect::FetchItems);
    assert_eq!(s.process_event(InputEvent::Line("p".to_string()))[1], Effect::FetchProjects);
    assert!(s.is_running());
    let effects = s.process_line("q".to_string());
    assert_eq!(effects, vec![Effect::RecordHistory("q".to_string()), Effect::SaveHistory]);
    assert!(!s.is_running());
}

#[test]
fn end_of_input_and_interrupt_end_the_session() {
    let mut s = Todr::new();
    assert_eq!(s.process_event(InputEvent::Eof), vec![Effect::Print("CTRL-D".to_string()), Effect::SaveHistory]);
    assert!(!s.is_running());
    let mut s = Todr::new();
    assert_eq!(s.process_event(InputEvent::Interrupted), vec![Effect::Print("CTRL-C".to_string()), Effect::SaveHistory]);
    assert!(!s.is_running());
}

#[test]
fn read_failure_is_reported_and_ends_the_session() {
    let mut s = Todr::new();
    assert_eq!(
        s.process_event(InputEvent::Failed("Io(broken pipe)".to_string())),
        vec![Effect::Print("Error: Io(broken pipe)".to_string()), Effect::SaveHistory]
    );
    assert_eq!(s.state, SessionState::Terminated);
}
