//! The shell that the user works in, and the init file that it reads.

use vstd::prelude::*;
use crate::text::ends_with;

verus! {

/// A shell that the library knows.
#[derive(Clone, Copy, Debug, PartialEq, Eq, Structural)]
pub enum Shell {
    Bash,
    Zsh,
}

/// What is known of the system: the shell in use, and its init file.
/// There is an init file exactly where there is a shell.
#[derive(Clone, Debug, PartialEq, Eq)]
pub struct SystemInfo {
    pub shell: Option<Shell>,
    pub shell_init_file: Option<String>,
}

/// The shell that the program at `path` is: zsh where the path ends in
/// `/zsh`, bash where it ends in `/bash`, none that is known otherwise.
pub open spec fn shell_at(path: Seq<char>) -> Option<Shell> {
    if "/zsh"@.is_suffix_of(path) {
        Some(Shell::Zsh)
    } else if "/bash"@.is_suffix_of(path) {
        Some(Shell::Bash)
    } else {
        None
    }
}

/// The shell that the variable `SHELL` names, where it is set.
pub open spec fn shell_named(shell_var: Option<Seq<char>>) -> Option<Shell> {
    match shell_var {
        Some(path) => shell_at(path),
        None => None,
    }
}

/// The init file of a shell, as the shell's documentation writes it: with
/// `~` for the home directory.
pub open spec fn init_file_from_home(shell: Shell) -> Seq<char> {
    match shell {
        Shell::Bash => "~/.bashrc"@,
        Shell::Zsh => "~/.zshrc"@,
    }
}

/// A text with the home directory in the place of a leading `~`.
///
/// The `~` is replaced where it stands alone or a `/` follows it, and where
/// there is a home directory. Every other text stays as it is.
pub open spec fn tilde_expanded(input: Seq<char>, home_dir: Option<Seq<char>>) -> Seq<char> {
    if input.len() > 0 && input[0] == '~' && (input.len() == 1 || input[1] == '/') {
        match home_dir {
            Some(home) => home + input.skip(1),
            None => input,
        }
    } else {
        input
    }
}

/// The init file of a shell for a user whose home directory is `home_dir`.
pub open spec fn init_file_in(shell: Shell, home_dir: Option<Seq<char>>) -> Seq<char> {
    tilde_expanded(init_file_from_home(shell), home_dir)
}

impl View for SystemInfo {
    type V = (Option<Shell>, Option<Seq<char>>);

    open spec fn view(&self) -> (Option<Shell>, Option<Seq<char>>) {
        (
            self.shell,
            match self.shell_init_file {
                Some(path) => Some(path@),
                None => None,
            },
        )
    }
}

/// What is known of a system whose variable `SHELL` is `shell_var` and
/// whose user has the home directory `home_dir`: the shell that the
/// variable names, and with a shell its init file.
pub open spec fn system_info_of(shell_var: Option<Seq<char>>, home_dir: Option<Seq<char>>) -> (
    Option<Shell>,
    Option<Seq<char>>,
) {
    match shell_named(shell_var) {
        Some(shell) => (Some(shell), Some(init_file_in(shell, home_dir))),
        None => (None, None),
    }
}

/// Calls `shellexpand::tilde_with_context`, with `home_dir` as the home
/// directory that it asks for.
///
/// The crate replaces a leading `~` that stands alone or is followed by
/// `/`, if there is a home directory, and leaves every other text as it
/// is. On one platform it also replaces a `~` that `\\` follows: of such a
/// text the contract claims nothing.
#[verifier::external_body]
pub(crate) fn expand_tilde(input: &str, home_dir: Option<&str>) -> (expanded: String)
    ensures
        input@.len() < 2 || input@[0] != '~' || input@[1] != '\\' ==> expanded@ == tilde_expanded(
            input@,
            match home_dir {
                Some(home) => Some(home@),
                None => None,
            },
        ),
{
    shellexpand::tilde_with_context(input, || home_dir).into_owned()
}

/// Tells the shell from the value of the variable `SHELL`, `None` where the
/// variable is not set.
pub fn get_shell(shell_var: Option<&str>) -> (shell: Option<Shell>)
    ensures
        shell == shell_named(
            match shell_var {
                Some(path) => Some(path@),
                None => None,
            },
        ),
{
    if let Some(path) = shell_var {
        if ends_with(path, "/zsh") {
            return Some(Shell::Zsh);
        }
        if ends_with(path, "/bash") {
            return Some(Shell::Bash);
        }
    }
    None
}

/// Says where the init file of a shell is, with the user's home directory
/// in the place of `~`. `home_dir` is that directory, `None` where the user
/// has none; the `~` then stays.
///
/// The file is not looked for.
pub fn get_shell_init_file(shell: &Shell, home_dir: Option<&str>) -> (path: String)
    ensures
        path@ == init_file_in(
            *shell,
            match home_dir {
                Some(home) => Some(home@),
                None => None,
            },
        ),
{
    let relative_file = match shell {
        Shell::Bash => "~/.bashrc",
        Shell::Zsh => "~/.zshrc",
    };
    proof {
        reveal_strlit("~/.bashrc");
        reveal_strlit("~/.zshrc");
    }
    expand_tilde(relative_file, home_dir)
}

/// Collects what is known of the system from the value of the variable
/// `SHELL` and the user's home directory, each `None` where there is none.
pub fn get_system_info(shell_var: Option<&str>, home_dir: Option<&str>) -> (info: SystemInfo)
    ensures
        info@ == system_info_of(
            match shell_var {
                Some(path) => Some(path@),
                None => None,
            },
            match home_dir {
                Some(home) => Some(home@),
                None => None,
            },
        ),
{
    let shell = get_shell(shell_var);
    let shell_init_file = match &shell {
        Some(shell) => Some(get_shell_init_file(shell, home_dir)),
        None => None,
    };
    SystemInfo { shell, shell_init_file }
}

/// A program named `zsh` is zsh and one named `bash` is bash, in whatever
/// directory it lies.
pub proof fn lemma_shell_is_told_by_name(dir: Seq<char>)
    ensures
        shell_at(dir + "/zsh"@) == Some(Shell::Zsh),
        shell_at(dir + "/bash"@) == Some(Shell::Bash),
{
    reveal_strlit("/zsh");
    reveal_strlit("/bash");
    let zsh = dir + "/zsh"@;
    let bash = dir + "/bash"@;
    assert("/zsh"@ =~= zsh.subrange(zsh.len() - 4, zsh.len() as int));
    assert("/bash"@ =~= bash.subrange(bash.len() - 5, bash.len() as int));
    assert(!"/zsh"@.is_suffix_of(bash)) by {
        let tail = bash.subrange(bash.len() - 4, bash.len() as int);
        assert(tail[0] == 'b');
        assert("/zsh"@[0] == '/');
    }
}

/// The init file lies in the home directory: it is `.zshrc` for zsh and
/// `.bashrc` for bash, behind the home directory and a `/`. It is an
/// absolute path where the home directory is one. Without a home directory
/// the `~` stays in its place.
pub proof fn lemma_init_file_lies_in_home(shell: Shell, home_dir: Option<Seq<char>>)
    ensures
        home_dir matches Some(home) ==> init_file_in(shell, home_dir) == home + (match shell {
            Shell::Zsh => "/.zshrc"@,
            Shell::Bash => "/.bashrc"@,
        }),
        home_dir matches Some(home) ==> home.len() > 0 && home[0] == '/' ==> init_file_in(
            shell,
            home_dir,
        )[0] == '/',
        home_dir is None ==> init_file_in(shell, home_dir) == init_file_from_home(shell),
        (match shell {
            Shell::Zsh => "/.zshrc"@,
            Shell::Bash => "/.bashrc"@,
        }).is_suffix_of(init_file_in(shell, home_dir)),
{
    reveal_strlit("~/.bashrc");
    reveal_strlit("~/.zshrc");
    reveal_strlit("/.bashrc");
    reveal_strlit("/.zshrc");
    assert("~/.zshrc"@.skip(1) =~= "/.zshrc"@);
    assert("~/.bashrc"@.skip(1) =~= "/.bashrc"@);
    let below = init_file_from_home(shell).skip(1);
    let path = init_file_in(shell, home_dir);
    assert(below =~= path.subrange(path.len() - below.len(), path.len() as int));
}

/// What `SHELL` means for the two fields: a path that ends in `/zsh` gives
/// zsh and its init file, one that ends in `/bash` gives bash and its init
/// file, and where the variable is not set or names another program both
/// fields are empty.
pub proof fn lemma_system_info_by_shell(
    dir: Seq<char>,
    other: Option<Seq<char>>,
    home_dir: Option<Seq<char>>,
)
    requires
        other matches Some(path) ==> !"/zsh"@.is_suffix_of(path) && !"/bash"@.is_suffix_of(path),
    ensures
        system_info_of(Some(dir + "/zsh"@), home_dir) == (
            Some(Shell::Zsh),
            Some(init_file_in(Shell::Zsh, home_dir)),
        ),
        system_info_of(Some(dir + "/bash"@), home_dir) == (
            Some(Shell::Bash),
            Some(init_file_in(Shell::Bash, home_dir)),
        ),
        system_info_of(other, home_dir) == (None::<Shell>, None::<Seq<char>>),
{
    lemma_shell_is_told_by_name(dir);
}

/// What is known of the system hangs on `SHELL` and the home directory
/// alone: two looks at the same two see the same shell and the same init
/// file.
pub proof fn lemma_system_info_is_repeatable(
    first: SystemInfo,
    second: SystemInfo,
    shell_var: Option<Seq<char>>,
    home_dir: Option<Seq<char>>,
)
    requires
        first@ == system_info_of(shell_var, home_dir),
        second@ == system_info_of(shell_var, home_dir),
    ensures
        first.shell == second.shell,
        first.shell == shell_named(shell_var),
        first.shell_init_file is Some <==> second.shell_init_file is Some,
        first.shell_init_file is Some <==> first.shell is Some,
        first.shell_init_file matches Some(path) ==> path@ == second.shell_init_file->0@,
{
}

} // verus!
