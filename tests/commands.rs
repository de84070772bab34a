use devops::command::{dispatch, opening_lines, parse_command, Command, Dispatch};
use devops::process::{
    after_backend, after_frontend, backend_install, build_opening, frontend_build, start_lines,
    stop_closing, stop_invocations, stop_opening, RunOutcome,
};

fn args(v: &[&str]) -> Vec<String> {
    v.iter().map(|s| s.to_string()).collect()
}

const USAGE: [&str; 8] = [
    "",
    "Usage: cargo run -- <command>",
    "Commands:",
    "  health  - Check health of backend API",
    "  build   - Build both frontend and backend",
    "  start   - Start all services",
    "  stop    - Stop all services",
    "  test    - Run API tests",
];

#[test]
fn known_commands_are_recognised() {
    assert_eq!(parse_command(&"health".to_string()), Some(Command::Health));
    assert_eq!(parse_command(&"build".to_string()), Some(Command::Build));
    assert_eq!(parse_command(&"start".to_string()), Some(Command::Start));
    assert_eq!(parse_command(&"stop".to_string()), Some(Command::Stop));
    assert_eq!(parse_command(&"test".to_string()), Some(Command::Test));
}

#[test]
fn tokens_are_matched_case_sensitively() {
    assert_eq!(parse_command(&"Health".to_string()), None);
    assert_eq!(parse_command(&" test".to_string()), None);
    assert_eq!(parse_command(&"".to_string()), None);
}

#[test]
fn short_argument_lists_print_usage_only() {
    assert_eq!(dispatch(&args(&[])), Dispatch::Usage);
    assert_eq!(dispatch(&args(&["devops"])), Dispatch::Usage);
    let mut expected = vec!["AI Test Application DevOps Tools", "=================================="];
    expected.extend_from_slice(&USAGE);
    assert_eq!(opening_lines(&args(&["devops"])), expected);
    assert_eq!(opening_lines(&args(&[])), expected);
}

#[test]
fn unknown_token_prints_message_and_usage() {
    let a = args(&["devops", "deploy", "now"]);
    assert_eq!(dispatch(&a), Dispatch::Unknown);
    let mut expected = vec![
        "AI Test Application DevOps Tools",
        "==================================",
        "Unknown command: deploy",
    ];
    expected.extend_from_slice(&USAGE);
    assert_eq!(opening_lines(&a), expected);
}

#[test]
fn known_token_prints_title_only() {
    let a = args(&["devops", "stop"]);
    assert_eq!(dispatch(&a), Dispatch::Run(Command::Stop));
    assert_eq!(
        opening_lines(&a),
        vec!["AI Test Application DevOps Tools", "=================================="]
    );
}

#[test]
fn build_invocations() {
    let b = backend_install();
    assert_eq!(b.program, "npm");
    assert_eq!(b.args, vec!["install"]);
    assert_eq!(b.dir.as_deref(), Some("../backend"));
    let f = frontend_build();
    assert_eq!(f.program, "npm");
    assert_eq!(f.args, vec!["run", "build"]);
    assert_eq!(f.dir.as_deref(), Some("../frontend"));
    assert_eq!(
        build_opening(),
        vec!["🔨 Building all components...", "📦 Checking backend dependencies..."]
    );
}

#[test]
fn backend_failure_skips_frontend() {
    let (lines, next) = after_backend(&RunOutcome::Failed);
    assert_eq!(lines, vec!["❌ Backend build failed"]);
    assert!(next.is_none());
}

#[test]
fn backend_spawn_error_skips_frontend() {
    let (lines, next) = after_backend(&RunOutcome::SpawnError("No such file or directory (os error 2)".to_string()));
    assert_eq!(
        lines,
        vec!["❌ Failed to run backend build: No such file or directory (os error 2)"]
    );
    assert!(next.is_none());
}

#[test]
fn backend_success_leads_to_frontend() {
    let (lines, next) = after_backend(&RunOutcome::Succeeded);
    assert_eq!(lines, vec!["✅ Backend dependencies OK", "🎨 Building frontend..."]);
    let f = next.expect("frontend step");
    assert_eq!(f.program, "npm");
    assert_eq!(f.args, vec!["run", "build"]);
    assert_eq!(f.dir.as_deref(), Some("../frontend"));
}

#[test]
fn frontend_outcomes_end_with_completion() {
    assert_eq!(
        after_frontend(&RunOutcome::Succeeded),
        vec!["✅ Frontend build successful", "🎉 Build process completed!"]
    );
    assert_eq!(
        after_frontend(&RunOutcome::Failed),
        vec!["❌ Frontend build failed", "🎉 Build process completed!"]
    );
    assert_eq!(
        after_frontend(&RunOutcome::SpawnError("denied".to_string())),
        vec!["❌ Failed to run frontend build: denied", "🎉 Build process completed!"]
    );
}

#[test]
fn stop_kills_two_patterns() {
    let v = stop_invocations();
    assert_eq!(v.len(), 2);
    assert_eq!(v[0].program, "pkill");
    assert_eq!(v[0].args, vec!["-f", "node.*3001"]);
    assert!(v[0].dir.is_none());
    assert_eq!(v[1].program, "pkill");
    assert_eq!(v[1].args, vec!["-f", "next-server"]);
    assert!(v[1].dir.is_none());
    assert_eq!(stop_opening(), "🛑 Stopping services...");
    assert_eq!(stop_closing(), "✅ Services stopped");
}

#[test]
fn start_only_prints_instructions() {
    assert_eq!(
        start_lines(),
        vec![
            "🚀 Starting all services...",
            "💡 To start services manually:",
            "   Backend:  cd backend && npm start",
            "   Frontend: cd frontend && npm run dev",
            "   DevOps:   cd devops && cargo run -- health",
        ]
    );
}
