//! The project generator's rules: which names it accepts, which files it
//! writes for a server stub, a client stub or a whole project, from which
//! template each one comes, and how a template is filled in.

use vstd::prelude::*;
use crate::constants::CRATE_VERSION;
use crate::error::GeneratorError;
use crate::text::{chars_of, concat2, concat3, owned, replace_str, replace_all, str_eq};
use crate::templates::{template_spec, template_text, scripts, sse, stdio, SERVER_MAIN_TEMPLATE, SERVER_CARGO_TEMPLATE, SERVER_README_TEMPLATE, CLIENT_MAIN_TEMPLATE, CLIENT_CARGO_TEMPLATE, CLIENT_README_TEMPLATE, PROJECT_README_SSE_TEMPLATE, PROJECT_README_STDIO_TEMPLATE};

verus! {

/// Whether a character is an ASCII letter.
pub open spec fn is_ascii_letter(c: char) -> bool {
    ('a' <= c && c <= 'z') || ('A' <= c && c <= 'Z')
}

/// Whether a character may stand in a crate name: an ASCII letter or digit,
/// `_` or `-`.
pub open spec fn is_name_char(c: char) -> bool {
    is_ascii_letter(c) || ('0' <= c && c <= '9') || c == '_' || c == '-'
}

/// A valid crate name: not empty, starting with an ASCII letter, and made of
/// ASCII letters, digits, `_` and `-`.
pub open spec fn valid_name(s: Seq<char>) -> bool {
    &&& s.len() > 0
    &&& is_ascii_letter(s[0])
    &&& forall|i: int| 0 <= i < s.len() ==> #[trigger] is_name_char(s[i])
}

/// Whether `name` is a valid crate name (see [`valid_name`]).
pub fn is_valid_name(name: &str) -> (res: bool)
    ensures
        res == valid_name(name@),
{
    let cs = chars_of(name);
    if cs.len() == 0 {
        return false;
    }
    let first = cs[0];
    if !(('a' <= first && first <= 'z') || ('A' <= first && first <= 'Z')) {
        return false;
    }
    let mut i: usize = 0;
    while i < cs.len()
        invariant
            cs@ == name@,
            i <= cs.len(),
            forall|j: int| 0 <= j < i ==> #[trigger] is_name_char(cs@[j]),
        decreases cs.len() - i,
    {
        let c = cs[i];
        if !(('a' <= c && c <= 'z') || ('A' <= c && c <= 'Z') || ('0' <= c && c <= '9') || c == '_'
            || c == '-') {
            assert(!is_name_char(name@[i as int]));
            return false;
        }
        i = i + 1;
    }
    true
}

/// The transports a whole project can be made for.
#[derive(Clone, Copy, PartialEq, Eq, Debug)]
pub enum ProjectTransport {
    Stdio,
    Sse,
}

/// The templates files are made from.
#[derive(Clone, Copy, PartialEq, Eq, Debug)]
pub enum Template {
    /// `main.rs` of a server stub.
    ServerMain,
    /// `Cargo.toml` of a server stub.
    ServerCargo,
    /// `README.md` of a server stub.
    ServerReadme,
    /// `main.rs` of a client stub.
    ClientMain,
    /// `Cargo.toml` of a client stub.
    ClientCargo,
    /// `README.md` of a client stub.
    ClientReadme,
    /// `main.rs` of a project's server.
    ProjectServer(ProjectTransport),
    /// `Cargo.toml` of a project's server.
    ProjectServerCargo(ProjectTransport),
    /// `main.rs` of a project's client.
    ProjectClient(ProjectTransport),
    /// `Cargo.toml` of a project's client.
    ProjectClientCargo(ProjectTransport),
    /// `README.md` of a project.
    ProjectReadme(ProjectTransport),
    /// `test.sh` of a project: builds both parts and runs them together.
    ProjectTestScript(ProjectTransport),
    /// `test_server.sh` of a project: builds and checks the server alone.
    ProjectServerTestScript(ProjectTransport),
    /// `test_client.sh` of a project: builds and checks the client against
    /// the server.
    ProjectClientTestScript(ProjectTransport),
    /// `run_tests.sh` of a project: runs the other three scripts.
    ProjectRunTests(ProjectTransport),
}

/// The views of a sequence of strings.
pub open spec fn strings(v: Seq<String>) -> Seq<Seq<char>> {
    v.map_values(|s: String| s@)
}

/// A file to write: its path below the output directory, one segment per
/// element, the template it is made from, whether it is made executable, and
/// what it holds.
#[derive(Debug)]
pub struct PlannedFile {
    pub path: Vec<String>,
    pub template: Template,
    pub executable: bool,
    pub content: String,
}

/// The mathematical form of a [`PlannedFile`].
pub struct FileView {
    pub path: Seq<Seq<char>>,
    pub template: Template,
    pub executable: bool,
    pub content: Seq<char>,
}

impl View for PlannedFile {
    type V = FileView;

    open spec fn view(&self) -> FileView {
        FileView {
            path: strings(self.path@),
            template: self.template,
            executable: self.executable,
            content: self.content@,
        }
    }
}

/// The directories to create and the files to write, below the output
/// directory, in that order.
#[derive(Debug)]
pub struct Plan {
    pub dirs: Vec<Vec<String>>,
    pub files: Vec<PlannedFile>,
}

/// The mathematical form of a [`Plan`].
pub struct PlanView {
    pub dirs: Seq<Seq<Seq<char>>>,
    pub files: Seq<FileView>,
}

impl View for Plan {
    type V = PlanView;

    open spec fn view(&self) -> PlanView {
        PlanView {
            dirs: self.dirs@.map_values(|d: Vec<String>| strings(d@)),
            files: self.files@.map_values(|f: PlannedFile| f@),
        }
    }
}

/// A file of the plan for the name `name`: it holds its template filled in
/// for that name (see [`rendered`]).
pub open spec fn file(path: Seq<Seq<char>>, template: Template, executable: bool, name: Seq<char>) -> FileView {
    FileView { path, template, executable, content: rendered(template_spec(template), name) }
}

/// A file of the plan for the name `name` (see [`file`]).
fn planned(path: Vec<String>, template: Template, executable: bool, name: &str) -> (res: PlannedFile)
    ensures
        res@ == file(strings(path@), template, executable, name@),
{
    let content = render(template_text(template), name);
    PlannedFile { path, template, executable, content }
}

/// The stub of a server or client called `name`: the directory `name` with
/// `src/main.rs`, `Cargo.toml` and `README.md`, each its template filled in
/// for the name.
pub open spec fn stub_plan(
    name: Seq<char>,
    main: Template,
    cargo: Template,
    readme: Template,
) -> PlanView {
    PlanView {
        dirs: seq![seq![name], seq![name, "src"@]],
        files: seq![
            file(seq![name, "src"@, "main.rs"@], main, false, name),
            file(seq![name, "Cargo.toml"@], cargo, false, name),
            file(seq![name, "README.md"@], readme, false, name),
        ],
    }
}

/// What making a stub asks for: the plan when `name` is a valid crate name,
/// else an invalid-name error whose message is `prefix` and the name.
pub open spec fn stub_outcome(
    name: Seq<char>,
    prefix: Seq<char>,
    res: Result<Plan, GeneratorError>,
    plan: PlanView,
) -> bool {
    if valid_name(name) {
        res matches Ok(p) && p@ == plan
    } else {
        res matches Err(GeneratorError::InvalidName(m)) && m@ == prefix + name
    }
}

/// A path of two segments.
fn path2(a: &str, b: &str) -> (res: Vec<String>)
    ensures
        strings(res@) == seq![a@, b@],
{
    let v = vec![owned(a), owned(b)];
    assert(strings(v@) =~= seq![a@, b@]);
    v
}

/// A path of three segments.
fn path3(a: &str, b: &str, c: &str) -> (res: Vec<String>)
    ensures
        strings(res@) == seq![a@, b@, c@],
{
    let v = vec![owned(a), owned(b), owned(c)];
    assert(strings(v@) =~= seq![a@, b@, c@]);
    v
}

/// A path of four segments.
fn path4(a: &str, b: &str, c: &str, d: &str) -> (res: Vec<String>)
    ensures
        strings(res@) == seq![a@, b@, c@, d@],
{
    let v = vec![owned(a), owned(b), owned(c), owned(d)];
    assert(strings(v@) =~= seq![a@, b@, c@, d@]);
    v
}

/// The plan of a stub (see [`stub_plan`]).
fn stub(name: &str, main: Template, cargo: Template, readme: Template) -> (res: Plan)
    ensures
        res@ == stub_plan(name@, main, cargo, readme),
{
    let d1 = vec![owned(name)];
    assert(strings(d1@) =~= seq![name@]);
    let dirs = vec![d1, path2(name, "src")];
    let files = vec![
        planned(path3(name, "src", "main.rs"), main, false, name),
        planned(path2(name, "Cargo.toml"), cargo, false, name),
        planned(path2(name, "README.md"), readme, false, name),
    ];
    let p = Plan { dirs, files };
    assert(p@.dirs =~= stub_plan(name@, main, cargo, readme).dirs);
    assert(p@.files =~= stub_plan(name@, main, cargo, readme).files);
    p
}

/// What `generate_server` writes for a server stub called `name`; fails
/// when the name is not a valid crate name.
pub fn generate_server(name: &str) -> (res: Result<Plan, GeneratorError>)
    ensures
        stub_outcome(
            name@,
            "Invalid server name: "@,
            res,
            stub_plan(name@, Template::ServerMain, Template::ServerCargo, Template::ServerReadme),
        ),
{
    if !is_valid_name(name) {
        return Err(GeneratorError::InvalidName(concat2("Invalid server name: ", name)));
    }
    Ok(stub(name, Template::ServerMain, Template::ServerCargo, Template::ServerReadme))
}

/// What `generate_client` writes for a client stub called `name`; fails
/// when the name is not a valid crate name.
pub fn generate_client(name: &str) -> (res: Result<Plan, GeneratorError>)
    ensures
        stub_outcome(
            name@,
            "Invalid client name: "@,
            res,
            stub_plan(name@, Template::ClientMain, Template::ClientCargo, Template::ClientReadme),
        ),
{
    if !is_valid_name(name) {
        return Err(GeneratorError::InvalidName(concat2("Invalid client name: ", name)));
    }
    Ok(stub(name, Template::ClientMain, Template::ClientCargo, Template::ClientReadme))
}

/// The transport a project is made for: `stdio` or `sse`.
pub open spec fn project_transport_spec(t: Seq<char>) -> Option<ProjectTransport> {
    if t == "stdio"@ {
        Some(ProjectTransport::Stdio)
    } else if t == "sse"@ {
        Some(ProjectTransport::Sse)
    } else {
        None
    }
}

/// The message of the error for a transport no project can be made for.
pub open spec fn unsupported_transport_message(t: Seq<char>) -> Seq<char> {
    "Unsupported transport type: "@ + t
        + ". Supported types are 'stdio' and 'sse'. WebSocket transport is planned but not yet implemented."@
}

/// The transport a project is made for; fails with a template error for
/// any other than `stdio` and `sse`.
pub fn project_transport(transport_type: &str) -> (res: Result<ProjectTransport, GeneratorError>)
    ensures
        match project_transport_spec(transport_type@) {
            Some(t) => res == Ok::<ProjectTransport, GeneratorError>(t),
            None => res matches Err(GeneratorError::Template(m)) && m@
                == unsupported_transport_message(transport_type@),
        },
{
    if str_eq(transport_type, "stdio") {
        Ok(ProjectTransport::Stdio)
    } else if str_eq(transport_type, "sse") {
        Ok(ProjectTransport::Sse)
    } else {
        Err(
            GeneratorError::Template(
                concat3(
                    "Unsupported transport type: ",
                    transport_type,
                    ". Supported types are 'stdio' and 'sse'. WebSocket transport is planned but not yet implemented.",
                ),
            ),
        )
    }
}

/// The directories a project called `name` gets before its transport is
/// looked at: the project, its `server` and `client`, and `server/src`.
pub open spec fn project_base_dirs_spec(name: Seq<char>) -> Seq<Seq<Seq<char>>> {
    seq![seq![name], seq![name, "server"@], seq![name, "client"@], seq![name, "server"@, "src"@]]
}

/// What a project called `name` gets once its transport `t` is known: the
/// client's `src` directory; the server's and the client's `main.rs` and
/// `Cargo.toml`, the project's `README.md`, and the executable test
/// scripts `test.sh`, `test_server.sh`, `test_client.sh` and `run_tests.sh`.
pub open spec fn project_plan_spec(name: Seq<char>, t: ProjectTransport) -> PlanView {
    PlanView {
        dirs: seq![seq![name, "client"@, "src"@]],
        files: seq![
            file(seq![name, "server"@, "src"@, "main.rs"@], Template::ProjectServer(t), false, name),
            file(seq![name, "server"@, "Cargo.toml"@], Template::ProjectServerCargo(t), false, name),
            file(seq![name, "client"@, "src"@, "main.rs"@], Template::ProjectClient(t), false, name),
            file(seq![name, "client"@, "Cargo.toml"@], Template::ProjectClientCargo(t), false, name),
            file(seq![name, "README.md"@], Template::ProjectReadme(t), false, name),
            file(seq![name, "test.sh"@], Template::ProjectTestScript(t), true, name),
            file(seq![name, "test_server.sh"@], Template::ProjectServerTestScript(t), true, name),
            file(seq![name, "test_client.sh"@], Template::ProjectClientTestScript(t), true, name),
            file(seq![name, "run_tests.sh"@], Template::ProjectRunTests(t), true, name),
        ],
    }
}

/// The directories a project called `name` gets whatever its transport.
pub fn project_base_dirs(name: &str) -> (res: Vec<Vec<String>>)
    ensures
        res@.map_values(|d: Vec<String>| strings(d@)) == project_base_dirs_spec(name@),
{
    let d1 = vec![owned(name)];
    assert(strings(d1@) =~= seq![name@]);
    let res = vec![d1, path2(name, "server"), path2(name, "client"), path3(name, "server", "src")];
    assert(res@.map_values(|d: Vec<String>| strings(d@)) =~= project_base_dirs_spec(name@));
    res
}

/// What `generate_project` writes for a project called `name` with the
/// transport `transport_type`, beyond [`project_base_dirs`]; fails with a
/// template error for a transport other than `stdio` and `sse`. The name is
/// not checked.
pub fn generate_project(name: &str, transport_type: &str) -> (res: Result<Plan, GeneratorError>)
    ensures
        match project_transport_spec(transport_type@) {
            Some(t) => res matches Ok(p) && p@ == project_plan_spec(name@, t),
            None => res matches Err(GeneratorError::Template(m)) && m@
                == unsupported_transport_message(transport_type@),
        },
{
    let t = match project_transport(transport_type) {
        Ok(t) => t,
        Err(e) => return Err(e),
    };
    let dirs = vec![path3(name, "client", "src")];
    let files = vec![
        planned(path4(name, "server", "src", "main.rs"), Template::ProjectServer(t), false, name),
        planned(path3(name, "server", "Cargo.toml"), Template::ProjectServerCargo(t), false, name),
        planned(path4(name, "client", "src", "main.rs"), Template::ProjectClient(t), false, name),
        planned(path3(name, "client", "Cargo.toml"), Template::ProjectClientCargo(t), false, name),
        planned(path2(name, "README.md"), Template::ProjectReadme(t), false, name),
        planned(path2(name, "test.sh"), Template::ProjectTestScript(t), true, name),
        planned(path2(name, "test_server.sh"), Template::ProjectServerTestScript(t), true, name),
        planned(path2(name, "test_client.sh"), Template::ProjectClientTestScript(t), true, name),
        planned(path2(name, "run_tests.sh"), Template::ProjectRunTests(t), true, name),
    ];
    let p = Plan { dirs, files };
    assert(p@.dirs =~= project_plan_spec(name@, t).dirs);
    assert(p@.files =~= project_plan_spec(name@, t).files);
    Ok(p)
}

/// The placeholder that templates hold for the name.
pub open spec fn name_placeholder() -> Seq<char> {
    "{{name}}"@
}

/// The placeholder that templates hold for the crate version.
pub open spec fn version_placeholder() -> Seq<char> {
    "{{version}}"@
}

/// A template filled in: every `{{version}}` in it replaced by the crate
/// version, then every `{{name}}` by `name`.
pub open spec fn rendered(template: Seq<char>, name: Seq<char>) -> Seq<char> {
    replace_all(replace_all(template, version_placeholder(), CRATE_VERSION@), name_placeholder(), name)
}

/// A template filled in (see [`rendered`]): the files it makes depend on
/// this crate's version and carry the name they are made for.
pub fn render(template: &str, name: &str) -> (res: String)
    ensures
        res@ == rendered(template@, name@),
{
    let with_version = replace_str(template, "{{version}}", CRATE_VERSION);
    replace_str(with_version.as_str(), "{{name}}", name)
}

/// The texts a project's files are made from, by position in the plan, for
/// the transport `t`: the server's and client's `main.rs` and `Cargo.toml`,
/// the README and the test script of that transport, the two single-part
/// test scripts of that transport, and the script that runs them all.
pub open spec fn project_texts(t: ProjectTransport) -> Seq<Seq<char>> {
    match t {
        ProjectTransport::Sse => seq![
            sse::PROJECT_SERVER_TEMPLATE@,
            sse::PROJECT_SERVER_CARGO_TEMPLATE@,
            sse::PROJECT_CLIENT_TEMPLATE@,
            sse::PROJECT_CLIENT_CARGO_TEMPLATE@,
            PROJECT_README_SSE_TEMPLATE@,
            sse::PROJECT_TEST_SCRIPT_TEMPLATE@,
            scripts::SSE_SERVER_TEST_TEMPLATE@,
            scripts::SSE_CLIENT_TEST_TEMPLATE@,
            scripts::RUN_TESTS_TEMPLATE@,
        ],
        ProjectTransport::Stdio => seq![
            stdio::PROJECT_SERVER_TEMPLATE@,
            stdio::PROJECT_SERVER_CARGO_TEMPLATE@,
            stdio::PROJECT_CLIENT_TEMPLATE@,
            stdio::PROJECT_CLIENT_CARGO_TEMPLATE@,
            PROJECT_README_STDIO_TEMPLATE@,
            stdio::PROJECT_TEST_SCRIPT_TEMPLATE@,
            scripts::STDIO_SERVER_TEST_TEMPLATE@,
            scripts::STDIO_CLIENT_TEST_TEMPLATE@,
            scripts::RUN_TESTS_TEMPLATE@,
        ],
    }
}

/// A project is made from the templates of its own transport: for `sse`
/// the server and client talk over SSE, for `stdio` over stdio. Each file of
/// the plan for a project called `name` with transport `t` holds the
/// matching text of [`project_texts`] filled in for the name.
pub proof fn lemma_project_files_follow_transport(name: Seq<char>, t: ProjectTransport)
    ensures
        project_plan_spec(name, t).files.len() == project_texts(t).len(),
        forall|i: int|
            0 <= i < project_texts(t).len() ==> (#[trigger] project_plan_spec(name, t).files[i]).content
                == rendered(project_texts(t)[i], name),
{
}

/// A server stub is made from the server templates and a client stub from
/// the client templates: `src/main.rs`, `Cargo.toml` and `README.md`, each
/// filled in for the name.
pub proof fn lemma_stub_files_follow_kind(name: Seq<char>)
    ensures
        ({
            let s = stub_plan(name, Template::ServerMain, Template::ServerCargo, Template::ServerReadme);
            &&& s.files.len() == 3
            &&& s.files[0].content == rendered(SERVER_MAIN_TEMPLATE@, name)
            &&& s.files[1].content == rendered(SERVER_CARGO_TEMPLATE@, name)
            &&& s.files[2].content == rendered(SERVER_README_TEMPLATE@, name)
        }),
        ({
            let c = stub_plan(name, Template::ClientMain, Template::ClientCargo, Template::ClientReadme);
            &&& c.files.len() == 3
            &&& c.files[0].content == rendered(CLIENT_MAIN_TEMPLATE@, name)
            &&& c.files[1].content == rendered(CLIENT_CARGO_TEMPLATE@, name)
            &&& c.files[2].content == rendered(CLIENT_README_TEMPLATE@, name)
        }),
{
}

} // verus!
