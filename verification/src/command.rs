use vstd::prelude::*;

verus! {

/// What the child inherits for standard output and error.
#[derive(Clone, Copy, PartialEq, Eq, Structural, Debug)]
pub enum StreamDisposition {
    /// Share the shell's own streams, so backend logs stay visible.
    Inherit,
    /// Silence the child entirely.
    Discard,
}

/// A fully materialized launch specification: executable, arguments,
/// working directory, environment overrides and stream disposition.
/// Built fresh for every spawn attempt and immutable once constructed;
/// the host turns it into one operating-system process-creation call.
pub struct RuntimeCommand {
    pub program: String,
    pub args: Vec<String>,
    pub working_dir: Option<String>,
    pub env: Vec<(String, String)>,
    pub streams: StreamDisposition,
}

/// The launch specification for the backend server itself: the given
/// interpreter runs the server module bound to the local loopback port,
/// from the backend directory, with the module search path pointed at
/// that same directory, and with its streams shared with the shell.
pub fn backend_command(interpreter: String, backend_dir: &str) -> (c: RuntimeCommand)
    ensures
        c.program == interpreter,
        c.args@.len() == 7,
        c.args@[0]@ == "-m"@,
        c.args@[1]@ == "uvicorn"@,
        c.args@[2]@ == "app.main:app"@,
        c.args@[3]@ == "--host"@,
        c.args@[4]@ == "127.0.0.1"@,
        c.args@[5]@ == "--port"@,
        c.args@[6]@ == "8000"@,
        (c.working_dir matches Some(d) && d@ == backend_dir@),
        c.env@.len() == 1,
        c.env@[0].0@ == "PYTHONPATH"@,
        c.env@[0].1@ == backend_dir@,
        c.streams == StreamDisposition::Inherit,
{
    let mut args: Vec<String> = Vec::new();
    args.push(String::from_str("-m"));
    args.push(String::from_str("uvicorn"));
    args.push(String::from_str("app.main:app"));
    args.push(String::from_str("--host"));
    args.push(String::from_str("127.0.0.1"));
    args.push(String::from_str("--port"));
    args.push(String::from_str("8000"));
    let mut env: Vec<(String, String)> = Vec::new();
    env.push((String::from_str("PYTHONPATH"), String::from_str(backend_dir)));
    RuntimeCommand {
        program: interpreter,
        args,
        working_dir: Some(String::from_str(backend_dir)),
        env,
        streams: StreamDisposition::Inherit,
    }
}

/// The one-time extraction step for a packaged template: the archive at
/// `archive` is unpacked into the parent directory `dest_parent`, which
/// the host creates beforehand.  Plain decompression, nothing else: no
/// working directory and no environment overrides.
pub fn extraction_command(archive: String, dest_parent: String) -> (c: RuntimeCommand)
    ensures
        c.program@ == "tar"@,
        c.args@.len() == 4,
        c.args@[0]@ == "-xzf"@,
        c.args@[1] == archive,
        c.args@[2]@ == "-C"@,
        c.args@[3] == dest_parent,
        c.working_dir is None,
        c.env@.len() == 0,
        c.streams == StreamDisposition::Inherit,
{
    let mut args: Vec<String> = Vec::new();
    args.push(String::from_str("-xzf"));
    args.push(archive);
    args.push(String::from_str("-C"));
    args.push(dest_parent);
    RuntimeCommand {
        program: String::from_str("tar"),
        args,
        working_dir: None,
        env: Vec::new(),
        streams: StreamDisposition::Inherit,
    }
}

} // verus!
