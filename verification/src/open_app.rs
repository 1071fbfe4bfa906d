//! Opening an installed application from its `.desktop` entry.
use vstd::prelude::*;
use vstd::string::*;

use crate::text::{contains, contains_str, lowercase, split, split_str, to_lowercase, views};

verus! {

/// Among the first `n` lines, the position of the first that contains `pat`.
pub open spec fn first_containing(lines: Seq<String>, pat: Seq<char>, n: int) -> Option<int>
    decreases n,
{
    if n <= 0 {
        None
    } else {
        match first_containing(lines, pat, n - 1) {
            Some(j) => Some(j),
            None => if contains(lines[n - 1]@, pat) {
                Some(n - 1)
            } else {
                None
            },
        }
    }
}

proof fn lemma_first_containing_stays(lines: Seq<String>, pat: Seq<char>, n: int, m: int)
    requires
        n <= m,
        first_containing(lines, pat, n) is Some,
    ensures
        first_containing(lines, pat, m) == first_containing(lines, pat, n),
    decreases m - n,
{
    if n < m {
        lemma_first_containing_stays(lines, pat, n, m - 1);
    }
}

/// The first line that contains `pat`.
pub open spec fn first_line_with(lines: Seq<String>, pat: Seq<char>) -> Option<int> {
    first_containing(lines, pat, lines.len() as int)
}

/// The value of a `Key=value` line: the text between its first and second `=`.
pub open spec fn line_value(line: Seq<char>) -> Seq<char> {
    split(line, '=')[1]
}

/// The line found for a pattern is the first line that contains it: it
/// contains the pattern and no earlier line does; when none is found, no
/// line contains it.
pub proof fn lemma_first_line_with_is_first(lines: Seq<String>, pat: Seq<char>, n: int)
    requires
        0 <= n <= lines.len(),
    ensures
        match first_containing(lines, pat, n) {
            Some(i) => 0 <= i < n && contains(lines[i]@, pat) && forall|k: int|
                0 <= k < i ==> !contains(#[trigger] lines[k]@, pat),
            None => forall|k: int| 0 <= k < n ==> !contains(#[trigger] lines[k]@, pat),
        },
    decreases n,
{
    if n > 0 {
        lemma_first_line_with_is_first(lines, pat, n - 1);
    }
}

/// The line holds a `=`, so that it has a value.
pub open spec fn has_value(line: Seq<char>) -> bool {
    split(line, '=').len() >= 2
}

/// Parsing an entry that has an `Exec` line and a `Name=` line reads a
/// value from its first `Exec` line and, when it has one, from its first
/// `Terminal` line; both must then hold a `=`.
pub open spec fn desktop_file_parsable(lines: Seq<String>) -> bool {
    lines.len() > 0 ==> match first_line_with(lines, "Exec"@) {
        None => true,
        Some(e) => first_line_with(lines, "Name="@) is Some ==> (has_value(lines[e]@) && match first_line_with(
            lines,
            "Terminal"@,
        ) {
            None => true,
            Some(t) => has_value(lines[t]@),
        }),
    }
}

/// Whether the application runs in a terminal: the value of the first
/// `Terminal` line is `true`; without such a line it does not.
pub open spec fn runs_in_terminal(lines: Seq<String>) -> bool {
    match first_line_with(lines, "Terminal"@) {
        None => false,
        Some(t) => line_value(lines[t]@) == "true"@,
    }
}

fn first_line_containing(lines: &Vec<String>, pat: &str) -> (r: Option<usize>)
    ensures
        match r {
            Some(j) => first_line_with(lines@, pat@) == Some(j as int) && j < lines@.len(),
            None => first_line_with(lines@, pat@) is None,
        },
{
    let mut j: usize = 0;
    while j < lines.len()
        invariant
            j <= lines@.len(),
            first_containing(lines@, pat@, j as int) is None,
        decreases lines.len() - j,
    {
        if contains_str(lines[j].as_str(), pat) {
            proof {
                lemma_first_containing_stays(lines@, pat@, j + 1, lines@.len() as int);
            }
            return Some(j);
        }
        j = j + 1;
    }
    None
}

/// Whether `parse_desktop_file` can read the entry.
pub fn desktop_file_is_parsable(desktop_file: &Vec<String>) -> (r: bool)
    ensures
        r == desktop_file_parsable(desktop_file@),
{
    if desktop_file.len() == 0 {
        return true;
    }
    match first_line_containing(desktop_file, "Exec") {
        None => true,
        Some(e) => {
            if first_line_containing(desktop_file, "Name=").is_none() {
                return true;
            }
            let parts = split_str(desktop_file[e].as_str(), '=');
            assert(views(parts@).len() == parts@.len());
            if parts.len() < 2 {
                return false;
            }
            match first_line_containing(desktop_file, "Terminal") {
                None => true,
                Some(t) => {
                    let parts = split_str(desktop_file[t].as_str(), '=');
                    assert(views(parts@).len() == parts@.len());
                    parts.len() >= 2
                },
            }
        },
    }
}

/// Returns the Terminal and Exec parameters of a `.desktop` entry given as
/// its lines.
///
/// Fails when there are no lines, when there is no `Exec` line, or when no
/// `Name` is provided (no `Name=` line). Without a `Terminal` line the
/// application does not run in a terminal.
pub fn parse_desktop_file(desktop_file: Vec<String>) -> (r: Result<(bool, String), String>)
    requires
        desktop_file_parsable(desktop_file@),
    ensures
        desktop_file@.len() == 0 ==> (r matches Err(e) && e@ == "App not found"@),
        desktop_file@.len() > 0 ==> match first_line_with(desktop_file@, "Exec"@) {
            None => r matches Err(e) && e@ == "App's EXEC parameter not provided"@,
            Some(i) => if first_line_with(desktop_file@, "Name="@) is None {
                r matches Err(e) && e@ == "App's NAME parameter not provided"@
            } else {
                r matches Ok((is_terminal, exec)) && exec@ == line_value(desktop_file@[i]@) && is_terminal
                    == runs_in_terminal(desktop_file@)
            },
        },
{
    if desktop_file.len() > 0 {
        let exec = match first_line_containing(&desktop_file, "Exec") {
            None => {
                return Err("App's EXEC parameter not provided".to_owned());
            },
            Some(e) => {
                if first_line_containing(&desktop_file, "Name=").is_none() {
                    return Err("App's NAME parameter not provided".to_owned());
                }
                let parts = split_str(desktop_file[e].as_str(), '=');
                assert(views(parts@).len() == parts@.len());
                let value = parts[1].clone();
                assert(value@ == views(parts@)[1]);
                value
            },
        };
        let is_terminal = match first_line_containing(&desktop_file, "Terminal") {
            None => false,
            Some(t) => {
                let parts = split_str(desktop_file[t].as_str(), '=');
                assert(views(parts@).len() == parts@.len());
                assert(parts@[1]@ == views(parts@)[1]);
                crate::text::eq_str(parts[1].as_str(), "true")
            },
        };
        Ok((is_terminal, exec))
    } else {
        Err("App not found".to_owned())
    }
}

/// A line names the application: it is a `Name=` line whose lower-cased
/// text contains the lower-cased application name.
pub open spec fn line_names_app(line: Seq<char>, app: Seq<char>) -> bool {
    contains(line, "Name="@) && contains(lowercase(line), lowercase(app))
}

/// Some line of the file names the application.
pub open spec fn file_names_app(content: Seq<char>, app: Seq<char>) -> bool {
    exists|i: int|
        0 <= i < split(content, '\n').len() && #[trigger] line_names_app(split(content, '\n')[i], app)
}

/// Among the first `n` files, the position of the first that names the
/// application.
pub open spec fn first_naming(contents: Seq<String>, app: Seq<char>, n: int) -> Option<int>
    decreases n,
{
    if n <= 0 {
        None
    } else {
        match first_naming(contents, app, n - 1) {
            Some(j) => Some(j),
            None => if file_names_app(contents[n - 1]@, app) {
                Some(n - 1)
            } else {
                None
            },
        }
    }
}

proof fn lemma_first_naming_stays(contents: Seq<String>, app: Seq<char>, n: int, m: int)
    requires
        n <= m,
        first_naming(contents, app, n) is Some,
    ensures
        first_naming(contents, app, m) == first_naming(contents, app, n),
    decreases m - n,
{
    if n < m {
        lemma_first_naming_stays(contents, app, n, m - 1);
    }
}

fn names_app(content: &str, app_lower: &str, Ghost(app): Ghost<Seq<char>>) -> (r: (bool, Vec<String>))
    requires
        app_lower@ == lowercase(app),
    ensures
        r.0 == file_names_app(content@, app),
        views(r.1@) == split(content@, '\n'),
{
    let lines = split_str(content, '\n');
    let mut i: usize = 0;
    while i < lines.len()
        invariant
            i <= lines@.len(),
            views(lines@) == split(content@, '\n'),
            app_lower@ == lowercase(app),
            forall|j: int| 0 <= j < i ==> !line_names_app(#[trigger] split(content@, '\n')[j], app),
        decreases lines.len() - i,
    {
        assert(lines@[i as int]@ == split(content@, '\n')[i as int]);
        let line = lines[i].as_str();
        if contains_str(line, "Name=") {
            let lower = to_lowercase(line);
            if contains_str(lower.as_str(), app_lower) {
                assert(line_names_app(split(content@, '\n')[i as int], app));
                return (true, lines);
            }
        }
        i = i + 1;
    }
    (false, lines)
}

/// Finds the `.desktop` entry, among the contents of the entry files, whose
/// name contains the application's (case ignored), and returns its lines.
pub fn find_desktop_file(contents: Vec<String>, app: String) -> (r: Option<Vec<String>>)
    ensures
        match first_naming(contents@, app@, contents@.len() as int) {
            Some(i) => r matches Some(lines) && views(lines@) == split(contents@[i]@, '\n'),
            None => r is None,
        },
{
    let app_lower = to_lowercase(app.as_str());
    let mut i: usize = 0;
    while i < contents.len()
        invariant
            i <= contents@.len(),
            app_lower@ == lowercase(app@),
            first_naming(contents@, app@, i as int) is None,
        decreases contents.len() - i,
    {
        let (found, lines) = names_app(contents[i].as_str(), app_lower.as_str(), Ghost(app@));
        if found {
            proof {
                lemma_first_naming_stays(contents@, app@, i + 1, contents@.len() as int);
            }
            return Some(lines);
        }
        i = i + 1;
    }
    None
}

/// How to start an application.
#[derive(Debug)]
pub enum SpawnPlan {
    /// Run `script` with `/bin/sh -c` and wait for it.
    Direct { script: String },
    /// Run `detached` with `/bin/sh -c` without looking at the outcome, then
    /// run `script` likewise and wait for it.
    Terminal { detached: String, script: String },
    /// Run each script with `/bin/sh -c` in turn until one starts; opening
    /// then fails with "Terminal not found!".
    FallbackTerminals { scripts: Vec<String> },
}

/// The terminals tried in turn.
pub open spec fn fallback_terminals() -> Seq<Seq<char>> {
    seq!["kitty"@, "alacritty"@, "xfce4-terminal"@, "konsole"@, "gnome-terminal"@]
}

/// The scripts that try the fallback terminals for `exec`.
pub open spec fn fallback_scripts(exec: Seq<char>) -> Seq<Seq<char>> {
    Seq::new(5, |i: int| fallback_terminals()[i] + " -e"@ + exec + " &"@)
}

/// With a terminal configured, a terminal application is tried in kitty,
/// alacritty, xfce4-terminal, konsole and gnome-terminal, in that order,
/// each running the command in the background.
pub proof fn lemma_fallback_order(exec: Seq<char>)
    ensures
        fallback_scripts(exec) == seq![
            "kitty"@ + " -e"@ + exec + " &"@,
            "alacritty"@ + " -e"@ + exec + " &"@,
            "xfce4-terminal"@ + " -e"@ + exec + " &"@,
            "konsole"@ + " -e"@ + exec + " &"@,
            "gnome-terminal"@ + " -e"@ + exec + " &"@,
        ],
{
    assert(fallback_scripts(exec) =~= seq![
        "kitty"@ + " -e"@ + exec + " &"@,
        "alacritty"@ + " -e"@ + exec + " &"@,
        "xfce4-terminal"@ + " -e"@ + exec + " &"@,
        "konsole"@ + " -e"@ + exec + " &"@,
        "gnome-terminal"@ + " -e"@ + exec + " &"@,
    ]);
}

/// How an application whose `Exec` is `exec` is started. It runs in the
/// background (`exec` followed by ` &`). A terminal application runs in
/// `TERM` (or kitty) when no terminal is configured; with a configured
/// terminal, the usual terminals are tried instead.
pub fn plan_spawn(exec: &str, is_terminal: bool, config_terminal: &str, term_env: Option<String>) -> (r: SpawnPlan)
    ensures
        !is_terminal ==> (r matches SpawnPlan::Direct { script } && script@ == exec@ + " &"@),
        is_terminal && config_terminal@.len() == 0 ==> (r matches SpawnPlan::Terminal { detached, script }
            && detached@ == " -e"@ + exec@ + " &"@ && script@ == match term_env {
            Some(t) => t@,
            None => "kitty"@,
        } + " -e"@ + exec@ + " &"@),
        is_terminal && config_terminal@.len() > 0 ==> (r matches SpawnPlan::FallbackTerminals { scripts }
            && views(scripts@) == fallback_scripts(exec@)),
{
    let mut exec_bg = exec.to_owned();
    exec_bg.append(" &");
    if !is_terminal {
        return SpawnPlan::Direct { script: exec_bg };
    }
    if config_terminal.is_empty() {
        let mut detached = config_terminal.to_owned();
        detached.append(" -e");
        detached.append(exec_bg.as_str());
        let mut script = match term_env {
            Some(t) => t,
            None => "kitty".to_owned(),
        };
        script.append(" -e");
        script.append(exec_bg.as_str());
        assert(detached@ =~= " -e"@ + exec@ + " &"@);
        assert(script@ =~= match term_env {
            Some(t) => t@,
            None => "kitty"@,
        } + " -e"@ + exec@ + " &"@);
        SpawnPlan::Terminal { detached, script }
    } else {
        let terminals = ["kitty", "alacritty", "xfce4-terminal", "konsole", "gnome-terminal"];
        let mut scripts: Vec<String> = Vec::new();
        let mut i: usize = 0;
        assert(terminals@[0]@ == fallback_terminals()[0]);
        assert(terminals@[1]@ == fallback_terminals()[1]);
        assert(terminals@[2]@ == fallback_terminals()[2]);
        assert(terminals@[3]@ == fallback_terminals()[3]);
        assert(terminals@[4]@ == fallback_terminals()[4]);
        while i < 5
            invariant
                i <= 5,
                exec_bg@ == exec@ + " &"@,
                terminals@.len() == 5,
                forall|j: int| 0 <= j < 5 ==> #[trigger] terminals@[j]@ == fallback_terminals()[j],
                views(scripts@).len() == i,
                forall|j: int| 0 <= j < i ==> #[trigger] views(scripts@)[j] == fallback_scripts(exec@)[j],
            decreases 5 - i,
        {
            let mut terminal = terminals[i].to_owned();
            terminal.append(" -e");
            terminal.append(exec_bg.as_str());
            let ghost before = views(scripts@);
            scripts.push(terminal);
            assert(views(scripts@) =~= before.push(terminal@));
            assert(terminal@ =~= fallback_scripts(exec@)[i as int]);
            i = i + 1;
        }
        assert(views(scripts@) =~= fallback_scripts(exec@));
        SpawnPlan::FallbackTerminals { scripts }
    }
}

/// An application runs in a terminal exactly when the value (the text
/// after the first `=`) of the first line that mentions `Terminal` is
/// `true`: a `Terminal=false` line, any other value, and an entry without
/// such a line all mean it does not.
pub proof fn lemma_terminal_only_when_true(lines: Seq<String>)
    ensures
        runs_in_terminal(lines) <==> (first_line_with(lines, "Terminal"@) is Some && split(
            lines[first_line_with(lines, "Terminal"@)->0]@,
            '=',
        )[1] == "true"@),
        first_line_with(lines, "Terminal"@) is Some && split(lines[first_line_with(lines, "Terminal"@)->0]@, '=')[1]
            == "false"@ ==> !runs_in_terminal(lines),
{
    reveal_strlit("true");
    reveal_strlit("false");
    assert("false"@[0] != "true"@[0]);
}

/// The entry found for an application is the first whose text has a line
/// that holds `Name=` and, lower-cased, holds the lower-cased application
/// name: no earlier entry has such a line. When no entry has one, nothing
/// is found. Lines that only mention the name elsewhere (`Exec=`,
/// `Terminal=`) do not count.
pub proof fn lemma_found_entry_names_app(contents: Seq<String>, app: Seq<char>, n: int)
    requires
        0 <= n <= contents.len(),
    ensures
        match first_naming(contents, app, n) {
            Some(i) => 0 <= i < n && (exists|j: int|
                0 <= j < split(contents[i]@, '\n').len() && contains(
                    #[trigger] split(contents[i]@, '\n')[j],
                    "Name="@,
                ) && contains(lowercase(split(contents[i]@, '\n')[j]), lowercase(app))) && forall|k: int, j: int|
                0 <= k < i && 0 <= j < split(contents[k]@, '\n').len() ==> !(contains(
                    #[trigger] split(contents[k]@, '\n')[j],
                    "Name="@,
                ) && contains(lowercase(split(contents[k]@, '\n')[j]), lowercase(app))),
            None => forall|k: int, j: int|
                0 <= k < n && 0 <= j < split(contents[k]@, '\n').len() ==> !(contains(
                    #[trigger] split(contents[k]@, '\n')[j],
                    "Name="@,
                ) && contains(lowercase(split(contents[k]@, '\n')[j]), lowercase(app))),
        },
    decreases n,
{
    if n > 0 {
        lemma_found_entry_names_app(contents, app, n - 1);
        match first_naming(contents, app, n - 1) {
            Some(i) => {},
            None => {
                let lines = split(contents[n - 1]@, '\n');
                if file_names_app(contents[n - 1]@, app) {
                    let j = choose|j: int| 0 <= j < lines.len() && #[trigger] line_names_app(lines[j], app);
                    assert(contains(lines[j], "Name="@) && contains(lowercase(lines[j]), lowercase(app)));
                } else {
                    assert forall|k: int, j: int|
                        0 <= k < n && 0 <= j < split(contents[k]@, '\n').len() implies !(contains(
                            #[trigger] split(contents[k]@, '\n')[j],
                            "Name="@,
                        ) && contains(lowercase(split(contents[k]@, '\n')[j]), lowercase(app))) by {
                        if k == n - 1 {
                            assert(!line_names_app(lines[j], app));
                        }
                    }
                }
            },
        }
    }
}

/// The search for an application's entry ignores case: two names that
/// lower-case alike find the same entry.
pub proof fn lemma_find_desktop_file_ignores_case(contents: Seq<String>, a: Seq<char>, b: Seq<char>, n: int)
    requires
        lowercase(a) == lowercase(b),
    ensures
        first_naming(contents, a, n) == first_naming(contents, b, n),
    decreases n,
{
    if n > 0 {
        lemma_find_desktop_file_ignores_case(contents, a, b, n - 1);
        let c = contents[n - 1]@;
        assert(file_names_app(c, a) == file_names_app(c, b)) by {
            if file_names_app(c, a) {
                let i = choose|i: int| 0 <= i < split(c, '\n').len() && #[trigger] line_names_app(split(c, '\n')[i], a);
                assert(line_names_app(split(c, '\n')[i], b));
            }
            if file_names_app(c, b) {
                let i = choose|i: int| 0 <= i < split(c, '\n').len() && #[trigger] line_names_app(split(c, '\n')[i], b);
                assert(line_names_app(split(c, '\n')[i], a));
            }
        }
    }
}

} // verus!
