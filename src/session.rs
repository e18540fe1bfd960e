use vstd::prelude::*;
use vstd::string::*;

use crate::error::GatewayError;
use crate::text::{has_prefix, is_space, joined, same_text, trim, trim_start, trimmed};

verus! {

/// The input asks the host to shut down.
pub open spec fn is_exit(command: Seq<char>) -> bool {
    trim(command) == "exit"@
}

/// The input is a directory change: `cd` alone, or `cd` and a space and an argument.
pub open spec fn is_cd(command: Seq<char>) -> bool {
    !is_exit(command) && (trim(command) == "cd"@ || "cd "@.is_prefix_of(trim(command)))
}

/// The argument of a directory change, without surrounding white space.
pub open spec fn cd_argument(command: Seq<char>) -> Seq<char> {
    if trim(command) == "cd"@ {
        Seq::empty()
    } else {
        trim(trim(command).subrange(3, trim(command).len() as int))
    }
}

/// The argument names the home directory.
pub open spec fn names_home(argument: Seq<char>) -> bool {
    argument.len() == 0 || argument == "~"@
}

/// `name` resolved against directory `dir`, as a path push does it.
pub open spec fn join_path(dir: Seq<char>, name: Seq<char>) -> Seq<char> {
    if dir.len() == 0 || dir.last() == '/' {
        dir + name
    } else {
        dir + seq!['/'] + name
    }
}

/// The directory that an argument names, from `dir`.
pub open spec fn cd_target(dir: Seq<char>, home: Seq<char>, argument: Seq<char>) -> Seq<char> {
    if names_home(argument) {
        home
    } else if "~/"@.is_prefix_of(argument) {
        home + seq!['/'] + argument.subrange(2, argument.len() as int)
    } else if "/"@.is_prefix_of(argument) {
        argument
    } else {
        join_path(dir, argument)
    }
}

pub open spec fn home_message(home: Seq<char>) -> Seq<char> {
    "changed directory to "@ + home
}

pub open spec fn missing_message(argument: Seq<char>) -> Seq<char> {
    "cd: no such directory: "@ + argument
}

pub open spec fn unresolved_message(cause: Seq<char>) -> Seq<char> {
    "Failed to resolve path: "@ + cause
}

pub open spec fn exit_acknowledgement() -> Seq<char> {
    "Exiting..."@
}

/// The state of a shell session: where commands run, and the user's home.
pub struct Session {
    dir: String,
    home: String,
}

/// The mathematical state of a session.
pub struct SessionState {
    pub dir: Seq<char>,
    pub home: Seq<char>,
}

impl View for Session {
    type V = SessionState;

    closed spec fn view(&self) -> SessionState {
        SessionState { dir: self.dir@, home: self.home@ }
    }
}

/// What the host does next for a command.
pub enum Action {
    /// Hand this acknowledgement to the caller, then terminate the host.
    Shutdown(String),
    /// Check that `target` is an existing directory and resolve it, then report
    /// through `Session::finish_cd` with the argument the user typed.
    ProbeDirectory { argument: String, target: String },
    /// Run `command` under the shell in `directory`, then map its end with
    /// `command_result`.
    Spawn { command: String, directory: String },
}

/// What the host found when it looked at a directory-change target.
pub enum DirProbe {
    /// The target is not an existing directory.
    Missing,
    /// The target is a directory but could not be canonicalized; carries the cause.
    Unresolvable(String),
    /// The canonical form of the target.
    Resolved(String),
}

impl Session {
    /// A session that starts in the home directory.
    pub fn new(home: String) -> (r: Session)
        ensures
            r@.dir == home@,
            r@.home == home@,
    {
        Session { dir: home.clone(), home }
    }

    /// The user's home directory.
    pub fn home(&self) -> (r: String)
        ensures
            r@ == self@.home,
    {
        self.home.clone()
    }

    /// Move the session's idea of the home directory, keeping its directory.
    pub fn set_home(&mut self, home: String)
        ensures
            final(self)@.home == home@,
            final(self)@.dir == old(self)@.dir,
    {
        self.home = home;
    }

    /// Decide what to do with a command line. Deciding changes nothing: only
    /// `finish_cd` moves the session.
    pub fn execute(&self, command: &str) -> (r: Action)
        ensures
            is_exit(command@) ==> r is Shutdown && r->Shutdown_0@ == exit_acknowledgement(),
            is_cd(command@) ==> r is ProbeDirectory && r->ProbeDirectory_argument@
                == cd_argument(command@) && r->ProbeDirectory_target@ == cd_target(
                self@.dir,
                self@.home,
                cd_argument(command@),
            ),
            !is_exit(command@) && !is_cd(command@) ==> r is Spawn && r->Spawn_command@
                == command@ && r->Spawn_directory@ == self@.dir,
    {
        let t = trimmed(command);
        if same_text(t, "exit") {
            return Action::Shutdown(String::from_str("Exiting..."));
        }
        let bare = same_text(t, "cd");
        if bare || has_prefix(t, "cd ") {
            proof {
                reveal_strlit("cd ");
                reveal_strlit("cd");
                reveal_strlit("");
            }
            let argument = if bare {
                ""
            } else {
                trimmed(t.substring_char(3, t.unicode_len()))
            };
            let target = self.target_of(argument);
            return Action::ProbeDirectory { argument: String::from_str(argument), target };
        }
        Action::Spawn { command: String::from_str(command), directory: self.dir.clone() }
    }

    /// Whether an argument names the home directory.
    fn is_home_argument(argument: &str) -> (r: bool)
        ensures
            r == names_home(argument@),
    {
        argument.unicode_len() == 0 || same_text(argument, "~")
    }

    /// The directory that an argument names from this session.
    fn target_of(&self, argument: &str) -> (r: String)
        ensures
            r@ == cd_target(self@.dir, self@.home, argument@),
    {
        if Self::is_home_argument(argument) {
            self.home.clone()
        } else if has_prefix(argument, "~/") {
            proof {
                reveal_strlit("~/");
            }
            let mut r = joined(self.home.as_str(), "/");
            r.append(argument.substring_char(2, argument.unicode_len()));
            proof {
                reveal_strlit("/");
            }
            r
        } else if has_prefix(argument, "/") {
            String::from_str(argument)
        } else {
            let n = self.dir.as_str().unicode_len();
            let mut r = String::from_str(self.dir.as_str());
            if n > 0 && self.dir.as_str().get_char(n - 1) != '/' {
                r.append("/");
                proof {
                    reveal_strlit("/");
                }
            }
            r.append(argument);
            r
        }
    }

    /// Complete a directory change with what the host found at its target. The
    /// session moves to the canonical target on success, and stays where it was
    /// otherwise. A change to the home directory says where it went; any other
    /// change answers with nothing.
    pub fn finish_cd(&mut self, argument: &str, probe: DirProbe) -> (r: Result<
        String,
        GatewayError,
    >)
        ensures
            final(self)@.home == old(self)@.home,
            match probe {
                DirProbe::Missing => final(self)@ == old(self)@ && r is Err && r->Err_0 is Validation
                    && r->Err_0.text() == missing_message(argument@),
                DirProbe::Unresolvable(cause) => final(self)@ == old(self)@ && r is Err
                    && r->Err_0 is Validation && r->Err_0.text() == unresolved_message(cause@),
                DirProbe::Resolved(canonical) => final(self)@.dir == canonical@ && r is Ok && (
                if names_home(argument@) {
                    r->Ok_0@ == home_message(old(self)@.home) && r->Ok_0@.len() > 0
                } else {
                    r->Ok_0@.len() == 0
                }),
            },
    {
        match probe {
            DirProbe::Missing => Err(
                GatewayError::Validation(joined("cd: no such directory: ", argument)),
            ),
            DirProbe::Unresolvable(cause) => Err(
                GatewayError::Validation(joined("Failed to resolve path: ", cause.as_str())),
            ),
            DirProbe::Resolved(canonical) => {
                self.dir = canonical;
                if Self::is_home_argument(argument) {
                    proof {
                        reveal_strlit("changed directory to ");
                    }
                    Ok(joined("changed directory to ", self.home.as_str()))
                } else {
                    Ok(String::new())
                }
            },
        }
    }
}

/// The directory where the session's commands run, as display text.
pub fn get_current_directory(session: &Session) -> (r: String)
    ensures
        r@ == session@.dir,
{
    session.dir.clone()
}

/// A text with no white space at either end is its own trimmed form.
proof fn lemma_trim_unchanged(s: Seq<char>)
    requires
        s.len() > 0,
        !is_space(s[0]),
        !is_space(s.last()),
    ensures
        trim(s) == s,
{
    assert(trim_start(s) == s);
}

/// `cd` followed by a relative name is a directory change to exactly that name,
/// and the host is asked to probe the name joined to the session's directory.
pub proof fn lemma_cd_relative(dir: Seq<char>, home: Seq<char>, argument: Seq<char>)
    requires
        argument.len() > 0,
        !is_space(argument[0]),
        !is_space(argument.last()),
        argument != "~"@,
        !"~/"@.is_prefix_of(argument),
        !"/"@.is_prefix_of(argument),
    ensures
        is_cd("cd "@ + argument),
        cd_argument("cd "@ + argument) == argument,
        !names_home(cd_argument("cd "@ + argument)),
        cd_target(dir, home, argument) == join_path(dir, argument),
{
    reveal_strlit("cd ");
    reveal_strlit("cd");
    reveal_strlit("exit");
    let c = "cd "@ + argument;
    assert(c[0] == 'c');
    assert(c.last() == argument.last());
    lemma_trim_unchanged(c);
    assert(c != "exit"@) by {
        assert(c[0] != "exit"@[0]);
    };
    assert(c != "cd"@) by {
        assert(c.len() != 2);
    };
    assert("cd "@.is_prefix_of(c)) by {
        assert(c.subrange(0, 3) =~= "cd "@);
    };
    assert(c.subrange(3, c.len() as int) =~= argument);
    lemma_trim_unchanged(argument);
}

/// The error for a missing directory ends with the argument as the user typed it.
pub proof fn lemma_missing_names_argument(argument: Seq<char>)
    ensures
        argument.is_suffix_of(missing_message(argument)),
{
    let m = missing_message(argument);
    assert(m.subrange(m.len() - argument.len(), m.len() as int) =~= argument);
}

/// `cd` alone and `cd ~` are both changes to the home directory, from wherever
/// the session is.
pub proof fn lemma_cd_home_forms(dir: Seq<char>, home: Seq<char>)
    ensures
        is_cd("cd"@),
        is_cd("cd ~"@),
        names_home(cd_argument("cd"@)),
        names_home(cd_argument("cd ~"@)),
        cd_target(dir, home, cd_argument("cd"@)) == home,
        cd_target(dir, home, cd_argument("cd ~"@)) == home,
{
    reveal_strlit("cd");
    reveal_strlit("cd ~");
    reveal_strlit("cd ");
    reveal_strlit("exit");
    reveal_strlit("~");
    let a = "cd"@;
    let b = "cd ~"@;
    lemma_trim_unchanged(a);
    lemma_trim_unchanged(b);
    assert(a != "exit"@) by {
        assert(a.len() != 4);
    };
    assert(b != "exit"@) by {
        assert(b[0] != "exit"@[0]);
    };
    assert(b != "cd"@) by {
        assert(b.len() != 2);
    };
    assert(b.subrange(0, 3) =~= "cd "@);
    assert(b.subrange(3, 4) =~= "~"@);
    lemma_trim_unchanged("~"@);
}

} // verus!
