//! External processes: which ones the build and stop commands run, and what
//! the build command makes of each outcome.

use vstd::prelude::*;
use crate::lines::{views, push_line, push_joined};

verus! {

/// A process to run: the program, its arguments, and the directory it runs in
/// (`None`: the tool's own).
pub struct Invocation {
    pub program: String,
    pub args: Vec<String>,
    pub dir: Option<String>,
}

/// How a process ended.
pub enum RunOutcome {
    /// It exited with status zero.
    Succeeded,
    /// It exited with another status, or was ended by a signal.
    Failed,
    /// It could not be started; the text of the system's error.
    SpawnError(String),
}

/// The text of each part of an invocation.
pub open spec fn invocation_view(i: Invocation) -> (Seq<char>, Seq<Seq<char>>, Option<Seq<char>>) {
    (
        i.program@,
        views(i.args@),
        match i.dir {
            Some(d) => Some(d@),
            None => None,
        },
    )
}

fn strings(parts: &[&str]) -> (r: Vec<String>)
    ensures
        r@.len() == parts@.len(),
        forall|k: int| 0 <= k < parts@.len() ==> #[trigger] r@[k]@ == parts@[k]@,
{
    let mut out: Vec<String> = Vec::new();
    let mut i: usize = 0;
    while i < parts.len()
        invariant
            i <= parts@.len(),
            out@.len() == i,
            forall|k: int| 0 <= k < i ==> #[trigger] out@[k]@ == parts@[k]@,
        decreases parts@.len() - i,
    {
        out.push(String::from_str(parts[i]));
        i = i + 1;
    }
    out
}

/// The dependency install of the backend: `npm install` in `../backend`.
pub open spec fn backend_install_spec() -> (Seq<char>, Seq<Seq<char>>, Option<Seq<char>>) {
    ("npm"@, seq!["install"@], Some("../backend"@))
}

/// The build of the frontend: `npm run build` in `../frontend`.
pub open spec fn frontend_build_spec() -> (Seq<char>, Seq<Seq<char>>, Option<Seq<char>>) {
    ("npm"@, seq!["run"@, "build"@], Some("../frontend"@))
}

/// The two process-kill commands of the stop command: `pkill -f` on the
/// backend server's pattern and on the frontend server's.
pub open spec fn stop_spec() -> Seq<(Seq<char>, Seq<Seq<char>>, Option<Seq<char>>)> {
    seq![
        ("pkill"@, seq!["-f"@, "node.*3001"@], None),
        ("pkill"@, seq!["-f"@, "next-server"@], None),
    ]
}

/// The dependency install of the backend.
pub fn backend_install() -> (r: Invocation)
    ensures
        invocation_view(r) == backend_install_spec(),
{
    let args = strings(&["install"]);
    let r = Invocation {
        program: String::from_str("npm"),
        args,
        dir: Some(String::from_str("../backend")),
    };
    assert(views(r.args@) =~= seq!["install"@]);
    r
}

/// The build of the frontend.
pub fn frontend_build() -> (r: Invocation)
    ensures
        invocation_view(r) == frontend_build_spec(),
{
    let args = strings(&["run", "build"]);
    let r = Invocation {
        program: String::from_str("npm"),
        args,
        dir: Some(String::from_str("../frontend")),
    };
    assert(views(r.args@) =~= seq!["run"@, "build"@]);
    r
}

fn pkill(pattern: &str) -> (r: Invocation)
    ensures
        invocation_view(r) == ("pkill"@, seq!["-f"@, pattern@], None::<Seq<char>>),
{
    let args = strings(&["-f", pattern]);
    let r = Invocation { program: String::from_str("pkill"), args, dir: None };
    assert(views(r.args@) =~= seq!["-f"@, pattern@]);
    r
}

/// The processes that the stop command runs, in order; their outcomes are
/// not looked at.
pub fn stop_invocations() -> (r: Vec<Invocation>)
    ensures
        r@.map_values(|i: Invocation| invocation_view(i)) == stop_spec(),
{
    let mut r: Vec<Invocation> = Vec::new();
    r.push(pkill("node.*3001"));
    r.push(pkill("next-server"));
    assert(r@.map_values(|i: Invocation| invocation_view(i)) =~= stop_spec());
    r
}

// ---- the build command ----

/// The lines printed before the backend step runs.
pub open spec fn build_opening_of() -> Seq<Seq<char>> {
    seq!["🔨 Building all components..."@, "📦 Checking backend dependencies..."@]
}

/// The lines printed once the backend step has ended.
pub open spec fn after_backend_of(o: RunOutcome) -> Seq<Seq<char>> {
    match o {
        RunOutcome::Succeeded => seq!["✅ Backend dependencies OK"@, "🎨 Building frontend..."@],
        RunOutcome::Failed => seq!["❌ Backend build failed"@],
        RunOutcome::SpawnError(e) => seq!["❌ Failed to run backend build: "@ + e@],
    }
}

/// The lines printed once the frontend step has ended; the closing line
/// comes whatever the outcome.
pub open spec fn after_frontend_of(o: RunOutcome) -> Seq<Seq<char>> {
    let verdict = match o {
        RunOutcome::Succeeded => seq!["✅ Frontend build successful"@],
        RunOutcome::Failed => seq!["❌ Frontend build failed"@],
        RunOutcome::SpawnError(e) => seq!["❌ Failed to run frontend build: "@ + e@],
    };
    verdict + seq!["🎉 Build process completed!"@]
}

/// The lines printed before the backend step runs.
pub fn build_opening() -> (r: Vec<String>)
    ensures
        views(r@) == build_opening_of(),
{
    let mut out: Vec<String> = Vec::new();
    push_line(&mut out, "🔨 Building all components...");
    push_line(&mut out, "📦 Checking backend dependencies...");
    assert(views(out@) =~= build_opening_of());
    out
}

/// The lines printed once the backend step has ended, and the frontend
/// step, which runs only where the backend step succeeded.
pub fn after_backend(o: &RunOutcome) -> (r: (Vec<String>, Option<Invocation>))
    ensures
        views(r.0@) == after_backend_of(*o),
        r.1 is Some <==> o is Succeeded,
        r.1 matches Some(i) ==> invocation_view(i) == frontend_build_spec(),
{
    let mut out: Vec<String> = Vec::new();
    match o {
        RunOutcome::Succeeded => {
            push_line(&mut out, "✅ Backend dependencies OK");
            push_line(&mut out, "🎨 Building frontend...");
            assert(views(out@) =~= after_backend_of(*o));
            (out, Some(frontend_build()))
        },
        RunOutcome::Failed => {
            push_line(&mut out, "❌ Backend build failed");
            assert(views(out@) =~= after_backend_of(*o));
            (out, None)
        },
        RunOutcome::SpawnError(e) => {
            push_joined(&mut out, "❌ Failed to run backend build: ", e.as_str());
            assert(views(out@) =~= after_backend_of(*o));
            (out, None)
        },
    }
}

/// The lines printed once the frontend step has ended.
pub fn after_frontend(o: &RunOutcome) -> (r: Vec<String>)
    ensures
        views(r@) == after_frontend_of(*o),
{
    let mut out: Vec<String> = Vec::new();
    match o {
        RunOutcome::Succeeded => {
            push_line(&mut out, "✅ Frontend build successful");
        },
        RunOutcome::Failed => {
            push_line(&mut out, "❌ Frontend build failed");
        },
        RunOutcome::SpawnError(e) => {
            push_joined(&mut out, "❌ Failed to run frontend build: ", e.as_str());
        },
    }
    push_line(&mut out, "🎉 Build process completed!");
    assert(views(out@) =~= after_frontend_of(*o));
    out
}

// ---- the start and stop commands ----

/// What the start command prints: it starts nothing, and says how to.
pub open spec fn start_lines_of() -> Seq<Seq<char>> {
    seq![
        "🚀 Starting all services..."@,
        "💡 To start services manually:"@,
        "   Backend:  cd backend && npm start"@,
        "   Frontend: cd frontend && npm run dev"@,
        "   DevOps:   cd devops && cargo run -- health"@,
    ]
}

/// The lines of the start command.
pub fn start_lines() -> (r: Vec<String>)
    ensures
        views(r@) == start_lines_of(),
{
    let mut out: Vec<String> = Vec::new();
    push_line(&mut out, "🚀 Starting all services...");
    push_line(&mut out, "💡 To start services manually:");
    push_line(&mut out, "   Backend:  cd backend && npm start");
    push_line(&mut out, "   Frontend: cd frontend && npm run dev");
    push_line(&mut out, "   DevOps:   cd devops && cargo run -- health");
    assert(views(out@) =~= start_lines_of());
    out
}

/// The line printed before the stop command's processes run.
pub fn stop_opening() -> (r: String)
    ensures
        r@ == "🛑 Stopping services..."@,
{
    String::from_str("🛑 Stopping services...")
}

/// The line printed after them, whatever they did.
pub fn stop_closing() -> (r: String)
    ensures
        r@ == "✅ Services stopped"@,
{
    String::from_str("✅ Services stopped")
}

} // verus!
