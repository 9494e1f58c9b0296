//! Client of the background daemon: reading its process ID from the
//! output of `launchctl list`.
use vstd::prelude::*;
use crate::text::{
    chars_of, contains_seq, contains_str, find_char, first_index_of, lines_of, lines_seq,
    parse_u32, parse_u32_spec, sub_chars, trim_chars, trim_seq, views,
};

verus! {

/// Client of the daemon service.
pub struct DaemonClient {}

impl DaemonClient {
    /// A daemon client.
    pub fn new() -> Self {
        DaemonClient {}
    }
}

#[verifier::opaque]
/// The PID on one line of `launchctl list` output: on a line naming
/// `"PID"`, the number between the first `=` and the first `;`.
pub open spec fn pid_of_line(line: Seq<char>) -> Option<u32> {
    if contains_seq(line, "\"PID\""@) {
        match (first_index_of(line, '='), first_index_of(line, ';')) {
            (Some(s), Some(e)) => parse_u32_spec(trim_seq(line.subrange(s + 1, e))),
            _ => None,
        }
    } else {
        None
    }
}

#[verifier::opaque]
/// The line can be read: a line naming `"PID"` that holds both an `=` and a
/// `;` has the `;` after the `=`.
pub open spec fn pid_line_readable(line: Seq<char>) -> bool {
    contains_seq(line, "\"PID\""@) ==> match (first_index_of(line, '='), first_index_of(line, ';')) {
        (Some(s), Some(e)) => s + 1 <= e,
        _ => true,
    }
}

/// The PID of the first line that gives one.
pub open spec fn pid_of_lines(lines: Seq<Seq<char>>) -> Option<u32>
    decreases lines.len(),
{
    if lines.len() == 0 {
        None
    } else {
        match pid_of_line(lines[0]) {
            Some(p) => Some(p),
            None => pid_of_lines(lines.drop_first()),
        }
    }
}

/// The lines up to the one that gives a PID can all be read.
pub open spec fn pid_lines_readable(lines: Seq<Seq<char>>) -> bool
    decreases lines.len(),
{
    lines.len() == 0 || (pid_line_readable(lines[0]) && (pid_of_line(lines[0]) is Some
        || pid_lines_readable(lines.drop_first())))
}

fn pid_of_line_exec(line: &[char]) -> (r: Option<u32>)
    requires
        pid_line_readable(line@),
    ensures
        r == pid_of_line(line@),
{
    reveal(pid_of_line);
    reveal(pid_line_readable);
    if !contains_str(line, "\"PID\"") {
        return None;
    }
    match (find_char(line, '='), find_char(line, ';')) {
        (Some(s), Some(e)) => {
            let inner = sub_chars(line, s + 1, e);
            let t = trim_chars(&inner);
            parse_u32(&t)
        },
        _ => None,
    }
}

/// The PID in the output of `launchctl list <label>`, if the daemon runs:
/// the number after `"PID" =` on the first line that has one.
pub fn extract_pid_from_launchctl_output(output: &str) -> (r: Option<u32>)
    requires
        pid_lines_readable(lines_seq(output@)),
    ensures
        r == pid_of_lines(lines_seq(output@)),
{
    let chars = chars_of(output);
    let lines = lines_of(&chars);
    let mut i: usize = 0;
    assert(views(lines@).skip(0) =~= views(lines@));
    while i < lines.len()
        invariant
            i <= lines.len(),
            views(lines@) == lines_seq(output@),
            pid_of_lines(views(lines@)) == pid_of_lines(views(lines@).skip(i as int)),
            pid_lines_readable(views(lines@).skip(i as int)),
        decreases lines.len() - i,
    {
        let ghost rest = views(lines@).skip(i as int);
        assert(rest[0] == lines@[i as int]@);
        assert(rest.drop_first() =~= views(lines@).skip(i + 1));
        match pid_of_line_exec(lines[i].as_slice()) {
            Some(p) => {
                return Some(p);
            },
            None => {},
        }
        i += 1;
    }
    None
}

} // verus!

verus! {

/// Label of the daemon's launch agent.
pub const LAUNCH_AGENT_LABEL: &'static str = "com.auxin.agent";

/// Status of the daemon: whether it runs and its process ID. The counts,
/// version and uptime that a connection to the daemon would give are not
/// known here.
#[derive(Debug, Clone, PartialEq, Eq, Structural)]
pub struct DaemonStatus {
    pub is_running: bool,
    pub pid: Option<u32>,
}

fn line_readable(line: &[char]) -> (r: bool)
    ensures
        r == pid_line_readable(line@),
{
    reveal(pid_line_readable);
    if !contains_str(line, "\"PID\"") {
        return true;
    }
    match (find_char(line, '='), find_char(line, ';')) {
        (Some(s), Some(e)) => s + 1 <= e,
        _ => true,
    }
}

/// Whether the PID can be read from `launchctl list` output without
/// tripping on a line whose `;` comes before its `=`.
pub fn launchctl_output_readable(output: &str) -> (r: bool)
    ensures
        r == pid_lines_readable(lines_seq(output@)),
{
    let chars = chars_of(output);
    let lines = lines_of(&chars);
    let mut i: usize = lines.len();
    let mut ok = true;
    assert(views(lines@).skip(i as int) =~= Seq::<Seq<char>>::empty());
    while i > 0
        invariant
            i <= lines.len(),
            views(lines@) == lines_seq(output@),
            ok == pid_lines_readable(views(lines@).skip(i as int)),
        decreases i,
    {
        let j = i - 1;
        let ghost rest = views(lines@).skip(j as int);
        assert(rest[0] == lines@[j as int]@);
        assert(rest.drop_first() =~= views(lines@).skip(i as int));
        let readable = line_readable(lines[j].as_slice());
        if readable {
            let gives = match pid_of_line_exec(lines[j].as_slice()) {
                Some(_) => true,
                None => false,
            };
            ok = gives || ok;
        } else {
            ok = false;
        }
        i = j;
    }
    assert(views(lines@).skip(0) =~= views(lines@));
    ok
}

/// The launch agent's plist: `<home>/Library/LaunchAgents/com.auxin.agent.plist`.
pub open spec fn plist_path_spec(home: Seq<char>) -> Seq<char> {
    home + "/Library/LaunchAgents/"@ + LAUNCH_AGENT_LABEL@ + ".plist"@
}

/// The daemon's log file: `<home>/Library/Logs/Auxin/daemon.log`.
pub open spec fn log_path_spec(home: Seq<char>) -> Seq<char> {
    home + "/Library/Logs/Auxin/daemon.log"@
}

fn concat2(a: &str, b: &str) -> (s: String)
    ensures
        s@ == a@ + b@,
{
    let mut v: Vec<char> = Vec::new();
    crate::text::extend_str(&mut v, a);
    crate::text::extend_str(&mut v, b);
    assert(v@ =~= a@ + b@);
    crate::text::string_from_chars(&v)
}

fn concat3(a: &str, b: &str, c: &str) -> (s: String)
    ensures
        s@ == a@ + b@ + c@,
{
    let mut v: Vec<char> = Vec::new();
    crate::text::extend_str(&mut v, a);
    crate::text::extend_str(&mut v, b);
    crate::text::extend_str(&mut v, c);
    assert(v@ =~= a@ + b@ + c@);
    crate::text::string_from_chars(&v)
}

impl DaemonClient {
    /// The status read from `launchctl list <label>`: not running when the
    /// command failed, else running exactly when its output gives a PID.
    pub fn status_from_launchctl(&self, success: bool, output: &str) -> (s: DaemonStatus)
        requires
            success ==> pid_lines_readable(lines_seq(output@)),
        ensures
            !success ==> s == (DaemonStatus { is_running: false, pid: None }),
            success ==> s.pid == pid_of_lines(lines_seq(output@)) && s.is_running == s.pid is Some,
    {
        if !success {
            return DaemonStatus { is_running: false, pid: None };
        }
        let pid = extract_pid_from_launchctl_output(output);
        DaemonStatus { is_running: pid.is_some(), pid }
    }

    /// The launch agent's plist under the home directory, or the error when
    /// `HOME` is not set.
    pub fn plist_path(&self, home: Option<&str>) -> (r: Result<String, String>)
        ensures
            match home {
                Some(h) => r matches Ok(p) && p@ == plist_path_spec(h@),
                None => r matches Err(e) && e@ == "HOME environment variable not set"@,
            },
    {
        match home {
            Some(h) => {
                let mut v: Vec<char> = Vec::new();
                crate::text::extend_str(&mut v, h);
                crate::text::extend_str(&mut v, "/Library/LaunchAgents/");
                crate::text::extend_str(&mut v, LAUNCH_AGENT_LABEL);
                crate::text::extend_str(&mut v, ".plist");
                assert(v@ =~= plist_path_spec(h@));
                Ok(crate::text::string_from_chars(&v))
            },
            None => Err("HOME environment variable not set".to_owned()),
        }
    }

    /// The daemon's log file under the home directory, or the error when
    /// `HOME` is not set.
    pub fn log_path(&self, home: Option<&str>) -> (r: Result<String, String>)
        ensures
            match home {
                Some(h) => r matches Ok(p) && p@ == log_path_spec(h@),
                None => r matches Err(e) && e@ == "HOME environment variable not set"@,
            },
    {
        match home {
            Some(h) => Ok(concat2(h, "/Library/Logs/Auxin/daemon.log")),
            None => Err("HOME environment variable not set".to_owned()),
        }
    }

    /// Starting needs the plist: the error when it is missing.
    pub fn check_plist(&self, plist_path: &str, exists: bool) -> (r: Result<(), String>)
        ensures
            exists ==> r is Ok,
            !exists ==> (r matches Err(e) && e@ == "LaunchAgent plist not found at: "@ + plist_path@
                + "\nPlease run the installer first."@),
    {
        if exists {
            Ok(())
        } else {
            Err(concat3("LaunchAgent plist not found at: ", plist_path, "\nPlease run the installer first."))
        }
    }

    /// The outcome of `launchctl load`: the error with its standard error
    /// output when it failed.
    pub fn load_outcome(&self, success: bool, stderr: &str) -> (r: Result<(), String>)
        ensures
            success ==> r is Ok,
            !success ==> (r matches Err(e) && e@ == "Failed to start daemon: "@ + stderr@),
    {
        if success {
            Ok(())
        } else {
            Err(concat2("Failed to start daemon: ", stderr))
        }
    }

    /// After loading, the daemon must run.
    pub fn started_outcome(&self, status: &DaemonStatus) -> (r: Result<(), String>)
        ensures
            status.is_running ==> r is Ok,
            !status.is_running ==> (r matches Err(e) && e@
                == "Daemon loaded but not running. Check system logs for errors."@),
    {
        if status.is_running {
            Ok(())
        } else {
            Err("Daemon loaded but not running. Check system logs for errors.".to_owned())
        }
    }

    /// The outcome of `launchctl unload`: a service it cannot find is
    /// already stopped; any other failure is an error with its standard
    /// error output.
    pub fn stop_outcome(&self, success: bool, stderr: &str) -> (r: Result<(), String>)
        ensures
            (success || contains_seq(stderr@, "Could not find"@)) ==> r is Ok,
            !(success || contains_seq(stderr@, "Could not find"@)) ==> (r matches Err(e) && e@
                == "Failed to stop daemon: "@ + stderr@),
    {
        if success {
            return Ok(());
        }
        let c = chars_of(stderr);
        if contains_str(&c, "Could not find") {
            Ok(())
        } else {
            Err(concat2("Failed to stop daemon: ", stderr))
        }
    }
}

} // verus!
