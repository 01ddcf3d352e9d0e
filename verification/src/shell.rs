//! Startup commands for history-less interactive shells.
//!
//! A [`ShellProfile`] is one supported shell dialect. Each profile knows the
//! lines that keep its history off disk, the lines that set the session
//! prompt in the dialect's own notation, and the line that re-executes the
//! shell interactively without the user's startup files. The startup command is those lines, laid out one per
//! row, and [`get_shell_cmd`] is the lookup from a shell's name to it.

use crate::text::{
    contains, enclose, escapes_only_dollars, escapes_only_dollars_from, join, joined,
    lemma_contains_in_middle, lemma_escapes_checked, lemma_escapes_concat, lemma_no_other_escape,
    line, occurs_at, push_line, str_eq, texts, views,
};
use vstd::prelude::*;
use vstd::string::*;

verus! {

/// The token that every session prompt carries.
pub const MARKER: &'static str = "incogt";

/// What every session prompt begins with: the marker in brackets.
pub const PROMPT_TAG: &'static str = "(incogt) ";

/// User, host and working directory as bash writes them in a prompt, with
/// bash's sign for the end of a prompt.
pub const BASH_PLACEHOLDERS: &'static str = "\\u@\\h:\\w\\$";

/// User, host and working directory as zsh writes them in a prompt, with
/// zsh's sign for the end of a prompt.
pub const ZSH_PLACEHOLDERS: &'static str = "%n@%m:%~%#";

/// User, host and working directory as fish gives them: a variable and two
/// commands, each between the quoted pieces of the text that is echoed.
pub const FISH_PLACEHOLDERS: &'static str = "'$USER'@'(hostname)':'(prompt_pwd)'$";

/// User, host and working directory for a plain POSIX shell, which knows
/// no prompt escapes: user and host are filled in when the prompt is set,
/// and the directory is left as a parameter for the shell to expand each
/// time it shows the prompt.
pub const POSIX_PLACEHOLDERS: &'static str = "$USER@$(hostname):\\$PWD\\$";

/// Bash's prompt escapes for the user and the host, as they stand in its
/// placeholders.
pub const BASH_USER_AT_HOST: &'static str = "\\u@\\h";

/// Bash's prompt escape for the working directory.
pub const BASH_DIRECTORY: &'static str = "\\w";

/// The prompt of a bash session: the tag, then bash's placeholders.
pub const PROMPT: &'static str = "(incogt) \\u@\\h:\\w\\$";

/// The whitespace that precedes every row of a startup command.
pub const INDENT: &'static str = "            ";

/// What separates one row of a startup command from the next.
pub const ROW_BREAK: &'static str = "\n";

pub const HISTFILE_TO_NULL: &'static str = "export HISTFILE=/dev/null";

pub const HISTSIZE_SMALL: &'static str = "export HISTSIZE=1000";

pub const HISTSIZE_ZERO: &'static str = "export HISTSIZE=0";

pub const HISTFILESIZE_ZERO: &'static str = "export HISTFILESIZE=0";

pub const SAVEHIST_ZERO: &'static str = "export SAVEHIST=0";

pub const UNSET_HISTFILE: &'static str = "unset HISTFILE";

pub const FISH_ERASE_HISTORY: &'static str = "set -e fish_history";

pub const FISH_EMPTY_HISTORY: &'static str = "set -U fish_history ''";

pub const PS1_OPEN: &'static str = "export PS1=\"";

pub const PS1_CLOSE: &'static str = " \"";

pub const FISH_PROMPT_OPEN: &'static str = "function fish_prompt";

pub const FISH_ECHO_OPEN: &'static str = "    echo '";

pub const FISH_ECHO_CLOSE: &'static str = " '";

pub const FISH_PROMPT_CLOSE: &'static str = "end";

pub const EXEC: &'static str = "exec ";

pub const INTERACTIVE: &'static str = " -i";

pub const BASH_NO_STARTUP: &'static str = " --norc --noprofile";

pub const ZSH_NO_STARTUP: &'static str = " --no-rcs";

pub const FISH_NO_STARTUP: &'static str = " --no-config";

pub const PLAIN_NO_STARTUP: &'static str = "";

pub const NAME_BASH: &'static str = "bash";

pub const NAME_ZSH: &'static str = "zsh";

pub const NAME_FISH: &'static str = "fish";

pub const NAME_SH: &'static str = "sh";

pub const NAME_DASH: &'static str = "dash";

/// A supported shell dialect.
#[derive(Clone, Copy, Debug, PartialEq, Eq, Structural)]
pub enum ShellProfile {
    Bash,
    Zsh,
    Fish,
    Sh,
    Dash,
}

/// The names of the supported shells, in the order in which they are listed
/// to the user.
pub open spec fn supported_names() -> Seq<Seq<char>> {
    seq![NAME_BASH@, NAME_ZSH@, NAME_FISH@, NAME_SH@, NAME_DASH@]
}

/// The profile that a shell name selects, if the shell is supported.
pub open spec fn profile_of(name: Seq<char>) -> Option<ShellProfile> {
    if name == NAME_BASH@ {
        Some(ShellProfile::Bash)
    } else if name == NAME_ZSH@ {
        Some(ShellProfile::Zsh)
    } else if name == NAME_FISH@ {
        Some(ShellProfile::Fish)
    } else if name == NAME_SH@ {
        Some(ShellProfile::Sh)
    } else if name == NAME_DASH@ {
        Some(ShellProfile::Dash)
    } else {
        None
    }
}

/// Whether a shell name is one of the supported names.
pub open spec fn is_supported(name: Seq<char>) -> bool {
    supported_names().contains(name)
}

impl ShellProfile {
    /// The name by which this profile is selected.
    pub open spec fn name_text(self) -> Seq<char> {
        match self {
            ShellProfile::Bash => NAME_BASH@,
            ShellProfile::Zsh => NAME_ZSH@,
            ShellProfile::Fish => NAME_FISH@,
            ShellProfile::Sh => NAME_SH@,
            ShellProfile::Dash => NAME_DASH@,
        }
    }

    /// Looks a profile up by the base name of the shell's executable.
    /// Unknown names select nothing: there is no fallback dialect.
    pub fn from_name(name: &str) -> (profile: Option<ShellProfile>)
        ensures
            profile == profile_of(name@),
            profile is Some <==> is_supported(name@),
            profile matches Some(p) ==> p.name_text() == name@,
    {
        proof {
            lemma_supported_iff_profile(name@);
        }
        if str_eq(name, NAME_BASH) {
            Some(ShellProfile::Bash)
        } else if str_eq(name, NAME_ZSH) {
            Some(ShellProfile::Zsh)
        } else if str_eq(name, NAME_FISH) {
            Some(ShellProfile::Fish)
        } else if str_eq(name, NAME_SH) {
            Some(ShellProfile::Sh)
        } else if str_eq(name, NAME_DASH) {
            Some(ShellProfile::Dash)
        } else {
            None
        }
    }

    /// The name by which this profile is selected.
    pub fn name(self) -> (name: &'static str)
        ensures
            name@ == self.name_text(),
    {
        match self {
            ShellProfile::Bash => NAME_BASH,
            ShellProfile::Zsh => NAME_ZSH,
            ShellProfile::Fish => NAME_FISH,
            ShellProfile::Sh => NAME_SH,
            ShellProfile::Dash => NAME_DASH,
        }
    }
}

/// A name selects a profile exactly when it is in the supported list.
pub proof fn lemma_supported_iff_profile(name: Seq<char>)
    ensures
        is_supported(name) <==> profile_of(name) is Some,
        profile_of(name) matches Some(p) ==> p.name_text() == name,
{
    let names = supported_names();
    assert(names[0] == NAME_BASH@);
    assert(names[1] == NAME_ZSH@);
    assert(names[2] == NAME_FISH@);
    assert(names[3] == NAME_SH@);
    assert(names[4] == NAME_DASH@);
}

/// Every profile is selected by its own name, and by no other profile's.
pub proof fn lemma_name_selects_profile(profile: ShellProfile)
    ensures
        profile_of(profile.name_text()) == Some(profile),
        is_supported(profile.name_text()),
{
    reveal_strlit("bash");
    reveal_strlit("zsh");
    reveal_strlit("fish");
    reveal_strlit("sh");
    reveal_strlit("dash");
    assert(NAME_BASH@.len() == 4 && NAME_BASH@[0] == 'b');
    assert(NAME_ZSH@.len() == 3);
    assert(NAME_FISH@.len() == 4 && NAME_FISH@[0] == 'f');
    assert(NAME_SH@.len() == 2);
    assert(NAME_DASH@.len() == 4 && NAME_DASH@[0] == 'd');
    lemma_supported_iff_profile(profile.name_text());
}

/// The rows of a startup command laid out as text: each row on a line of its
/// own behind the indent, after a leading line break and before a closing
/// line break and indent.
pub open spec fn layout(rows: Seq<Seq<char>>) -> Seq<char> {
    rows_text(rows) + ROW_BREAK@ + INDENT@
}

/// The rows one after another, each behind a line break and the indent.
pub open spec fn rows_text(rows: Seq<Seq<char>>) -> Seq<char>
    decreases rows.len(),
{
    if rows.len() == 0 {
        Seq::empty()
    } else {
        rows_text(rows.drop_last()) + ROW_BREAK@ + INDENT@ + rows.last()
    }
}

impl ShellProfile {
    /// The rows that keep command history off persistent storage.
    pub open spec fn history_rows(self) -> Seq<Seq<char>> {
        match self {
            ShellProfile::Bash => seq![HISTFILE_TO_NULL@, HISTSIZE_SMALL@, HISTFILESIZE_ZERO@],
            ShellProfile::Zsh => seq![HISTFILE_TO_NULL@, HISTSIZE_SMALL@, SAVEHIST_ZERO@],
            ShellProfile::Fish => seq![FISH_ERASE_HISTORY@, FISH_EMPTY_HISTORY@],
            ShellProfile::Sh => seq![HISTFILE_TO_NULL@, HISTSIZE_ZERO@],
            ShellProfile::Dash => seq![HISTFILE_TO_NULL@, HISTSIZE_ZERO@],
        }
    }

    /// User, host and working directory in the dialect's own prompt
    /// notation.
    pub open spec fn placeholders(self) -> Seq<char> {
        match self {
            ShellProfile::Bash => BASH_PLACEHOLDERS@,
            ShellProfile::Zsh => ZSH_PLACEHOLDERS@,
            ShellProfile::Fish => FISH_PLACEHOLDERS@,
            ShellProfile::Sh => POSIX_PLACEHOLDERS@,
            ShellProfile::Dash => POSIX_PLACEHOLDERS@,
        }
    }

    /// The session prompt: the tag, then the dialect's placeholders.
    pub open spec fn prompt_text(self) -> Seq<char> {
        PROMPT_TAG@ + self.placeholders()
    }

    /// The rows that set the session prompt: a prompt function in fish, the
    /// prompt variable everywhere else.
    pub open spec fn prompt_rows(self) -> Seq<Seq<char>> {
        match self {
            ShellProfile::Fish => seq![
                FISH_PROMPT_OPEN@,
                FISH_ECHO_OPEN@ + self.prompt_text() + FISH_ECHO_CLOSE@,
                FISH_PROMPT_CLOSE@,
            ],
            _ => seq![PS1_OPEN@ + self.prompt_text() + PS1_CLOSE@],
        }
    }

    /// The rows that drop the history-file variable once the prompt is set.
    /// Fish has no such variable.
    pub open spec fn release_rows(self) -> Seq<Seq<char>> {
        match self {
            ShellProfile::Fish => Seq::empty(),
            _ => seq![UNSET_HISTFILE@],
        }
    }

    /// The flags that keep the shell from loading the user's startup files.
    pub open spec fn no_startup_flags(self) -> Seq<char> {
        match self {
            ShellProfile::Bash => BASH_NO_STARTUP@,
            ShellProfile::Zsh => ZSH_NO_STARTUP@,
            ShellProfile::Fish => FISH_NO_STARTUP@,
            ShellProfile::Sh => PLAIN_NO_STARTUP@,
            ShellProfile::Dash => PLAIN_NO_STARTUP@,
        }
    }

    /// The row that replaces the running shell by an interactive one that
    /// loads no startup files.
    pub open spec fn launch_row(self) -> Seq<char> {
        EXEC@ + self.name_text() + self.no_startup_flags() + INTERACTIVE@
    }

    /// All rows of the startup command, in order.
    pub open spec fn rows(self) -> Seq<Seq<char>> {
        self.history_rows() + self.prompt_rows() + self.release_rows() + seq![self.launch_row()]
    }

    /// The startup command as text.
    pub open spec fn command_text(self) -> Seq<char> {
        layout(self.rows())
    }

    fn add_history_rows(self, rows: &mut Vec<String>)
        ensures
            texts(final(rows)@) == texts(old(rows)@) + self.history_rows(),
    {
        match self {
            ShellProfile::Bash => {
                push_line(rows, HISTFILE_TO_NULL);
                push_line(rows, HISTSIZE_SMALL);
                push_line(rows, HISTFILESIZE_ZERO);
            },
            ShellProfile::Zsh => {
                push_line(rows, HISTFILE_TO_NULL);
                push_line(rows, HISTSIZE_SMALL);
                push_line(rows, SAVEHIST_ZERO);
            },
            ShellProfile::Fish => {
                push_line(rows, FISH_ERASE_HISTORY);
                push_line(rows, FISH_EMPTY_HISTORY);
            },
            ShellProfile::Sh => {
                push_line(rows, HISTFILE_TO_NULL);
                push_line(rows, HISTSIZE_ZERO);
            },
            ShellProfile::Dash => {
                push_line(rows, HISTFILE_TO_NULL);
                push_line(rows, HISTSIZE_ZERO);
            },
        }
        assert(texts(rows@) =~= texts(old(rows)@) + self.history_rows());
    }

    /// User, host and working directory in the dialect's own prompt
    /// notation.
    pub fn prompt_placeholders(self) -> (notation: &'static str)
        ensures
            notation@ == self.placeholders(),
    {
        match self {
            ShellProfile::Bash => BASH_PLACEHOLDERS,
            ShellProfile::Zsh => ZSH_PLACEHOLDERS,
            ShellProfile::Fish => FISH_PLACEHOLDERS,
            ShellProfile::Sh => POSIX_PLACEHOLDERS,
            ShellProfile::Dash => POSIX_PLACEHOLDERS,
        }
    }

    /// The session prompt: the tag, then the dialect's placeholders.
    pub fn prompt(self) -> (prompt: String)
        ensures
            prompt@ == self.prompt_text(),
            contains(prompt@, MARKER@),
    {
        proof {
            lemma_prompt_carries_marker(self);
        }
        let mut prompt = line(PROMPT_TAG);
        prompt.append(self.prompt_placeholders());
        prompt
    }

    fn add_prompt_rows(self, rows: &mut Vec<String>)
        ensures
            texts(final(rows)@) == texts(old(rows)@) + self.prompt_rows(),
    {
        let prompt = self.prompt();
        match self {
            ShellProfile::Fish => {
                push_line(rows, FISH_PROMPT_OPEN);
                let echo = enclose(FISH_ECHO_OPEN, prompt.as_str(), FISH_ECHO_CLOSE);
                push_line(rows, echo.as_str());
                push_line(rows, FISH_PROMPT_CLOSE);
            },
            _ => {
                let export = enclose(PS1_OPEN, prompt.as_str(), PS1_CLOSE);
                push_line(rows, export.as_str());
            },
        }
        assert(texts(rows@) =~= texts(old(rows)@) + self.prompt_rows());
    }

    fn add_release_rows(self, rows: &mut Vec<String>)
        ensures
            texts(final(rows)@) == texts(old(rows)@) + self.release_rows(),
    {
        match self {
            ShellProfile::Fish => {},
            _ => {
                push_line(rows, UNSET_HISTFILE);
            },
        }
        assert(texts(rows@) =~= texts(old(rows)@) + self.release_rows());
    }

    /// The flags that keep the shell from loading the user's startup files.
    pub fn startup_suppression(self) -> (flags: &'static str)
        ensures
            flags@ == self.no_startup_flags(),
    {
        match self {
            ShellProfile::Bash => BASH_NO_STARTUP,
            ShellProfile::Zsh => ZSH_NO_STARTUP,
            ShellProfile::Fish => FISH_NO_STARTUP,
            ShellProfile::Sh => PLAIN_NO_STARTUP,
            ShellProfile::Dash => PLAIN_NO_STARTUP,
        }
    }

    /// The row that replaces the running shell by an interactive one that
    /// loads no startup files.
    pub fn launch_line(self) -> (row: String)
        ensures
            row@ == self.launch_row(),
    {
        let mut row = enclose(EXEC, self.name(), self.startup_suppression());
        row.append(INTERACTIVE);
        row
    }

    /// All rows of the startup command, in order.
    pub fn script(self) -> (rows: Vec<String>)
        ensures
            texts(rows@) == self.rows(),
    {
        let mut rows: Vec<String> = Vec::new();
        self.add_history_rows(&mut rows);
        self.add_prompt_rows(&mut rows);
        self.add_release_rows(&mut rows);
        let launch = self.launch_line();
        push_line(&mut rows, launch.as_str());
        assert(texts(rows@) =~= self.rows());
        rows
    }

    /// The startup command: what is handed to the shell's execute-string
    /// flag.
    pub fn command(self) -> (command: String)
        ensures
            command@ == self.command_text(),
            contains(command@, MARKER@),
            self != ShellProfile::Bash ==> !contains(command@, BASH_USER_AT_HOST@) && !contains(
                command@,
                BASH_DIRECTORY@,
            ),
    {
        proof {
            lemma_command_carries_marker(self);
            if self != ShellProfile::Bash {
                lemma_bash_escapes_are_for_bash_alone(self);
            }
        }
        let rows = self.script();
        render(&rows)
    }
}

/// Lays rows out as the text of a startup command.
pub fn render(rows: &Vec<String>) -> (text: String)
    ensures
        text@ == layout(texts(rows@)),
{
    let mut text = String::new();
    let mut i: usize = 0;
    while i < rows.len()
        invariant
            i <= rows.len(),
            text@ == rows_text(texts(rows@).take(i as int)),
        decreases rows.len() - i,
    {
        proof {
            let next = texts(rows@).take(i + 1);
            assert(next.drop_last() =~= texts(rows@).take(i as int));
            assert(next.last() == rows@[i as int]@);
        }
        text.append(ROW_BREAK);
        text.append(INDENT);
        text.append(rows[i].as_str());
        i = i + 1;
    }
    proof {
        assert(texts(rows@).take(rows@.len() as int) =~= texts(rows@));
    }
    text.append(ROW_BREAK);
    text.append(INDENT);
    text
}

/// The prompt of every dialect carries the marker: it is in the tag.
pub proof fn lemma_prompt_carries_marker(profile: ShellProfile)
    ensures
        contains(profile.prompt_text(), MARKER@),
{
    reveal_strlit("incogt");
    reveal_strlit("(incogt) ");
    assert(PROMPT_TAG@.subrange(1, 7) =~= MARKER@);
    assert(occurs_at(PROMPT_TAG@, MARKER@, 1));
    lemma_contains_in_middle(Seq::empty(), PROMPT_TAG@, profile.placeholders(), MARKER@);
    assert(Seq::<char>::empty() + PROMPT_TAG@ + profile.placeholders() =~= profile.prompt_text());
}

/// The prompt of a bash session is the tag and bash's placeholders.
pub proof fn lemma_bash_prompt()
    ensures
        PROMPT@ == ShellProfile::Bash.prompt_text(),
{
    reveal_strlit("(incogt) \\u@\\h:\\w\\$");
    reveal_strlit("(incogt) ");
    reveal_strlit("\\u@\\h:\\w\\$");
    assert(PROMPT@ =~= PROMPT_TAG@ + BASH_PLACEHOLDERS@);
}

/// Text that occurs in one row occurs in the rows written out.
pub proof fn lemma_rows_text_contains(rows: Seq<Seq<char>>, k: int, needle: Seq<char>)
    requires
        0 <= k < rows.len(),
        contains(rows[k], needle),
    ensures
        contains(rows_text(rows), needle),
    decreases rows.len(),
{
    let head = rows_text(rows.drop_last());
    let lead = ROW_BREAK@ + INDENT@;
    if k == rows.len() - 1 {
        lemma_contains_in_middle(head + lead, rows.last(), Seq::empty(), needle);
        assert(head + lead + rows.last() + Seq::<char>::empty() =~= rows_text(rows));
    } else {
        lemma_rows_text_contains(rows.drop_last(), k, needle);
        lemma_contains_in_middle(Seq::empty(), head, lead + rows.last(), needle);
        assert(Seq::<char>::empty() + head + (lead + rows.last()) =~= rows_text(rows));
    }
}

/// For every supported shell, the startup command carries the marker: it is
/// part of the prompt that the command sets.
pub proof fn lemma_command_carries_marker(profile: ShellProfile)
    ensures
        contains(profile.command_text(), MARKER@),
{
    lemma_prompt_carries_marker(profile);
    let prompt = profile.prompt_text();
    let rows = profile.rows();
    let k: int = profile.history_rows().len() + (if profile == ShellProfile::Fish {
        1int
    } else {
        0int
    });
    if profile == ShellProfile::Fish {
        lemma_contains_in_middle(FISH_ECHO_OPEN@, prompt, FISH_ECHO_CLOSE@, MARKER@);
        assert(rows[k] == FISH_ECHO_OPEN@ + prompt + FISH_ECHO_CLOSE@);
    } else {
        lemma_contains_in_middle(PS1_OPEN@, prompt, PS1_CLOSE@, MARKER@);
        assert(rows[k] == PS1_OPEN@ + prompt + PS1_CLOSE@);
    }
    lemma_rows_text_contains(rows, k, MARKER@);
    lemma_contains_in_middle(Seq::empty(), rows_text(rows), ROW_BREAK@ + INDENT@, MARKER@);
    assert(Seq::<char>::empty() + rows_text(rows) + (ROW_BREAK@ + INDENT@)
        =~= profile.command_text());
}

/// The pieces of the history rows, the indent and the line break hold no
/// backslash.
proof fn lemma_history_pieces_escape_nothing()
    ensures
        escapes_only_dollars(INDENT@),
        escapes_only_dollars(ROW_BREAK@),
        escapes_only_dollars(HISTFILE_TO_NULL@),
        escapes_only_dollars(HISTSIZE_SMALL@),
        escapes_only_dollars(HISTSIZE_ZERO@),
        escapes_only_dollars(SAVEHIST_ZERO@),
        escapes_only_dollars(UNSET_HISTFILE@),
        escapes_only_dollars(FISH_ERASE_HISTORY@),
        escapes_only_dollars(FISH_EMPTY_HISTORY@),
{
    assert(escapes_only_dollars(INDENT@)) by {
        reveal_strlit("            ");
        reveal_with_fuel(escapes_only_dollars_from, 14);
        lemma_escapes_checked(INDENT@, 0);
    }
    assert(escapes_only_dollars(ROW_BREAK@)) by {
        reveal_strlit("\n");
        reveal_with_fuel(escapes_only_dollars_from, 3);
        lemma_escapes_checked(ROW_BREAK@, 0);
    }
    assert(escapes_only_dollars(HISTFILE_TO_NULL@)) by {
        reveal_strlit("export HISTFILE=/dev/null");
        reveal_with_fuel(escapes_only_dollars_from, 27);
        lemma_escapes_checked(HISTFILE_TO_NULL@, 0);
    }
    assert(escapes_only_dollars(HISTSIZE_SMALL@)) by {
        reveal_strlit("export HISTSIZE=1000");
        reveal_with_fuel(escapes_only_dollars_from, 22);
        lemma_escapes_checked(HISTSIZE_SMALL@, 0);
    }
    assert(escapes_only_dollars(HISTSIZE_ZERO@)) by {
        reveal_strlit("export HISTSIZE=0");
        reveal_with_fuel(escapes_only_dollars_from, 19);
        lemma_escapes_checked(HISTSIZE_ZERO@, 0);
    }
    assert(escapes_only_dollars(SAVEHIST_ZERO@)) by {
        reveal_strlit("export SAVEHIST=0");
        reveal_with_fuel(escapes_only_dollars_from, 19);
        lemma_escapes_checked(SAVEHIST_ZERO@, 0);
    }
    assert(escapes_only_dollars(UNSET_HISTFILE@)) by {
        reveal_strlit("unset HISTFILE");
        reveal_with_fuel(escapes_only_dollars_from, 16);
        lemma_escapes_checked(UNSET_HISTFILE@, 0);
    }
    assert(escapes_only_dollars(FISH_ERASE_HISTORY@)) by {
        reveal_strlit("set -e fish_history");
        reveal_with_fuel(escapes_only_dollars_from, 21);
        lemma_escapes_checked(FISH_ERASE_HISTORY@, 0);
    }
    assert(escapes_only_dollars(FISH_EMPTY_HISTORY@)) by {
        reveal_strlit("set -U fish_history ''");
        reveal_with_fuel(escapes_only_dollars_from, 24);
        lemma_escapes_checked(FISH_EMPTY_HISTORY@, 0);
    }
}

/// The pieces that frame a prompt and a launch row hold no backslash.
proof fn lemma_frame_pieces_escape_nothing()
    ensures
        escapes_only_dollars(PS1_OPEN@),
        escapes_only_dollars(PS1_CLOSE@),
        escapes_only_dollars(FISH_PROMPT_OPEN@),
        escapes_only_dollars(FISH_ECHO_OPEN@),
        escapes_only_dollars(FISH_ECHO_CLOSE@),
        escapes_only_dollars(FISH_PROMPT_CLOSE@),
        escapes_only_dollars(EXEC@),
        escapes_only_dollars(INTERACTIVE@),
        escapes_only_dollars(ZSH_NO_STARTUP@),
        escapes_only_dollars(FISH_NO_STARTUP@),
{
    assert(escapes_only_dollars(PS1_OPEN@)) by {
        reveal_strlit("export PS1=\"");
        reveal_with_fuel(escapes_only_dollars_from, 14);
        lemma_escapes_checked(PS1_OPEN@, 0);
    }
    assert(escapes_only_dollars(PS1_CLOSE@)) by {
        reveal_strlit(" \"");
        reveal_with_fuel(escapes_only_dollars_from, 4);
        lemma_escapes_checked(PS1_CLOSE@, 0);
    }
    assert(escapes_only_dollars(FISH_PROMPT_OPEN@)) by {
        reveal_strlit("function fish_prompt");
        reveal_with_fuel(escapes_only_dollars_from, 22);
        lemma_escapes_checked(FISH_PROMPT_OPEN@, 0);
    }
    assert(escapes_only_dollars(FISH_ECHO_OPEN@)) by {
        reveal_strlit("    echo '");
        reveal_with_fuel(escapes_only_dollars_from, 12);
        lemma_escapes_checked(FISH_ECHO_OPEN@, 0);
    }
    assert(escapes_only_dollars(FISH_ECHO_CLOSE@)) by {
        reveal_strlit(" '");
        reveal_with_fuel(escapes_only_dollars_from, 4);
        lemma_escapes_checked(FISH_ECHO_CLOSE@, 0);
    }
    assert(escapes_only_dollars(FISH_PROMPT_CLOSE@)) by {
        reveal_strlit("end");
        reveal_with_fuel(escapes_only_dollars_from, 5);
        lemma_escapes_checked(FISH_PROMPT_CLOSE@, 0);
    }
    assert(escapes_only_dollars(EXEC@)) by {
        reveal_strlit("exec ");
        reveal_with_fuel(escapes_only_dollars_from, 7);
        lemma_escapes_checked(EXEC@, 0);
    }
    assert(escapes_only_dollars(INTERACTIVE@)) by {
        reveal_strlit(" -i");
        reveal_with_fuel(escapes_only_dollars_from, 5);
        lemma_escapes_checked(INTERACTIVE@, 0);
    }
    assert(escapes_only_dollars(ZSH_NO_STARTUP@)) by {
        reveal_strlit(" --no-rcs");
        reveal_with_fuel(escapes_only_dollars_from, 11);
        lemma_escapes_checked(ZSH_NO_STARTUP@, 0);
    }
    assert(escapes_only_dollars(FISH_NO_STARTUP@)) by {
        reveal_strlit(" --no-config");
        reveal_with_fuel(escapes_only_dollars_from, 14);
        lemma_escapes_checked(FISH_NO_STARTUP@, 0);
    }
}

/// The names, the tag and the placeholders of every dialect but bash escape
/// nothing but dollar signs.
proof fn lemma_prompt_pieces_escape_only_dollars()
    ensures
        escapes_only_dollars(PLAIN_NO_STARTUP@),
        escapes_only_dollars(NAME_ZSH@),
        escapes_only_dollars(NAME_FISH@),
        escapes_only_dollars(NAME_SH@),
        escapes_only_dollars(NAME_DASH@),
        escapes_only_dollars(PROMPT_TAG@),
        escapes_only_dollars(ZSH_PLACEHOLDERS@),
        escapes_only_dollars(FISH_PLACEHOLDERS@),
        escapes_only_dollars(POSIX_PLACEHOLDERS@),
{
    assert(escapes_only_dollars(PLAIN_NO_STARTUP@)) by {
        reveal_strlit("");
        reveal_with_fuel(escapes_only_dollars_from, 2);
        lemma_escapes_checked(PLAIN_NO_STARTUP@, 0);
    }
    assert(escapes_only_dollars(NAME_ZSH@)) by {
        reveal_strlit("zsh");
        reveal_with_fuel(escapes_only_dollars_from, 5);
        lemma_escapes_checked(NAME_ZSH@, 0);
    }
    assert(escapes_only_dollars(NAME_FISH@)) by {
        reveal_strlit("fish");
        reveal_with_fuel(escapes_only_dollars_from, 6);
        lemma_escapes_checked(NAME_FISH@, 0);
    }
    assert(escapes_only_dollars(NAME_SH@)) by {
        reveal_strlit("sh");
        reveal_with_fuel(escapes_only_dollars_from, 4);
        lemma_escapes_checked(NAME_SH@, 0);
    }
    assert(escapes_only_dollars(NAME_DASH@)) by {
        reveal_strlit("dash");
        reveal_with_fuel(escapes_only_dollars_from, 6);
        lemma_escapes_checked(NAME_DASH@, 0);
    }
    assert(escapes_only_dollars(PROMPT_TAG@)) by {
        reveal_strlit("(incogt) ");
        reveal_with_fuel(escapes_only_dollars_from, 11);
        lemma_escapes_checked(PROMPT_TAG@, 0);
    }
    assert(escapes_only_dollars(ZSH_PLACEHOLDERS@)) by {
        reveal_strlit("%n@%m:%~%#");
        reveal_with_fuel(escapes_only_dollars_from, 12);
        lemma_escapes_checked(ZSH_PLACEHOLDERS@, 0);
    }
    assert(escapes_only_dollars(FISH_PLACEHOLDERS@)) by {
        reveal_strlit("'$USER'@'(hostname)':'(prompt_pwd)'$");
        reveal_with_fuel(escapes_only_dollars_from, 38);
        lemma_escapes_checked(FISH_PLACEHOLDERS@, 0);
    }
    assert(escapes_only_dollars(POSIX_PLACEHOLDERS@)) by {
        reveal_strlit("$USER@$(hostname):\\$PWD\\$");
        reveal_with_fuel(escapes_only_dollars_from, 27);
        lemma_escapes_checked(POSIX_PLACEHOLDERS@, 0);
    }
}

/// Rows that escape nothing but dollar signs give a text that escapes
/// nothing else.
pub proof fn lemma_rows_text_escapes(rows: Seq<Seq<char>>)
    requires
        forall|k: int| 0 <= k < rows.len() ==> escapes_only_dollars(#[trigger] rows[k]),
    ensures
        escapes_only_dollars(rows_text(rows)),
    decreases rows.len(),
{
    if rows.len() > 0 {
        lemma_history_pieces_escape_nothing();
        let head = rows_text(rows.drop_last());
        assert forall|k: int| 0 <= k < rows.drop_last().len() implies escapes_only_dollars(
            #[trigger] rows.drop_last()[k],
        ) by {
            assert(rows.drop_last()[k] == rows[k]);
        }
        lemma_rows_text_escapes(rows.drop_last());
        lemma_escapes_concat(head, ROW_BREAK@);
        lemma_escapes_concat(head + ROW_BREAK@, INDENT@);
        lemma_escapes_concat(head + ROW_BREAK@ + INDENT@, rows.last());
    }
}

/// The prompt row and the launch row of every dialect but bash escape
/// nothing but dollar signs.
proof fn lemma_built_rows_escape(profile: ShellProfile)
    requires
        profile != ShellProfile::Bash,
    ensures
        escapes_only_dollars(profile.prompt_text()),
        escapes_only_dollars(PS1_OPEN@ + profile.prompt_text() + PS1_CLOSE@),
        escapes_only_dollars(FISH_ECHO_OPEN@ + profile.prompt_text() + FISH_ECHO_CLOSE@),
        escapes_only_dollars(profile.launch_row()),
{
    lemma_frame_pieces_escape_nothing();
    lemma_prompt_pieces_escape_only_dollars();
    let prompt = profile.prompt_text();
    lemma_escapes_concat(PROMPT_TAG@, profile.placeholders());
    lemma_escapes_concat(PS1_OPEN@, prompt);
    lemma_escapes_concat(PS1_OPEN@ + prompt, PS1_CLOSE@);
    lemma_escapes_concat(FISH_ECHO_OPEN@, prompt);
    lemma_escapes_concat(FISH_ECHO_OPEN@ + prompt, FISH_ECHO_CLOSE@);
    lemma_escapes_concat(EXEC@, profile.name_text());
    lemma_escapes_concat(EXEC@ + profile.name_text(), profile.no_startup_flags());
    lemma_escapes_concat(
        EXEC@ + profile.name_text() + profile.no_startup_flags(),
        INTERACTIVE@,
    );
}

/// Bash's prompt escapes are for bash alone. The startup command of every
/// other dialect puts a backslash before nothing but a dollar sign, so
/// that none of bash's escapes for user, host and working directory occurs
/// in it, nor any other text that begins with a backslash and another
/// character.
pub proof fn lemma_bash_escapes_are_for_bash_alone(profile: ShellProfile)
    requires
        profile != ShellProfile::Bash,
    ensures
        escapes_only_dollars(profile.command_text()),
        !contains(profile.command_text(), BASH_USER_AT_HOST@),
        !contains(profile.command_text(), BASH_DIRECTORY@),
        forall|needle: Seq<char>|
            needle.len() >= 2 && needle[0] == '\\' && needle[1] != '$' ==> !contains(
                profile.command_text(),
                needle,
            ),
{
    lemma_history_pieces_escape_nothing();
    lemma_frame_pieces_escape_nothing();
    lemma_built_rows_escape(profile);
    let rows = profile.rows();
    assert forall|k: int| 0 <= k < rows.len() implies escapes_only_dollars(#[trigger] rows[k]) by {
        let history = profile.history_rows();
        let prompt = profile.prompt_rows();
        let release = profile.release_rows();
        if k < history.len() {
            assert(rows[k] == history[k]);
        } else if k < history.len() + prompt.len() {
            assert(rows[k] == prompt[k - history.len()]);
        } else if k < history.len() + prompt.len() + release.len() {
            assert(rows[k] == release[k - history.len() - prompt.len()]);
        } else {
            assert(rows[k] == profile.launch_row());
        }
    }
    lemma_rows_text_escapes(rows);
    let text = profile.command_text();
    lemma_escapes_concat(rows_text(rows), ROW_BREAK@);
    lemma_escapes_concat(rows_text(rows) + ROW_BREAK@, INDENT@);
    assert forall|needle: Seq<char>|
        needle.len() >= 2 && needle[0] == '\\' && needle[1] != '$' implies !contains(
        text,
        needle,
    ) by {
        lemma_no_other_escape(text, needle);
    }
    reveal_strlit("\\u@\\h");
    reveal_strlit("\\w");
    lemma_no_other_escape(text, BASH_USER_AT_HOST@);
    lemma_no_other_escape(text, BASH_DIRECTORY@);
}

/// Every supported name selects a profile, and the startup command of that
/// profile carries the marker.
pub proof fn lemma_supported_command_carries_marker(name: Seq<char>)
    requires
        is_supported(name),
    ensures
        profile_of(name) matches Some(profile) && contains(profile.command_text(), MARKER@),
{
    lemma_supported_iff_profile(name);
    lemma_command_carries_marker(profile_of(name)->0);
}

/// A name outside the supported list selects no profile, whatever it is.
pub proof fn lemma_unsupported_selects_nothing(name: Seq<char>)
    requires
        !is_supported(name),
    ensures
        profile_of(name) is None,
{
    lemma_supported_iff_profile(name);
}

/// The refusal of a shell name that selects no profile.
#[derive(Debug)]
pub struct UnsupportedShell {
    /// The name that was asked for.
    pub name: String,
    /// The names that would have been accepted.
    pub supported: &'static [&'static str],
}

/// What separates the names in a listing of the supported shells.
pub const LIST_SEPARATOR: &'static str = ", ";

pub const UNSUPPORTED_OPEN: &'static str = "Unsupported shell: '";

pub const UNSUPPORTED_CLOSE: &'static str = "'. Supported shells: ";

/// The text that tells a user that `name` is not supported and which names
/// are.
pub open spec fn unsupported_message(name: Seq<char>, supported: Seq<Seq<char>>) -> Seq<char> {
    UNSUPPORTED_OPEN@ + name + UNSUPPORTED_CLOSE@ + joined(supported, LIST_SEPARATOR@)
}

impl UnsupportedShell {
    /// The refusal as a line for the user.
    pub fn message(&self) -> (message: String)
        ensures
            message@ == unsupported_message(self.name@, views(self.supported@)),
    {
        let mut message = enclose(UNSUPPORTED_OPEN, self.name.as_str(), UNSUPPORTED_CLOSE);
        let listing = join(self.supported, LIST_SEPARATOR);
        message.append(listing.as_str());
        message
    }
}

/// The supported names as one listing.
pub fn supported_listing() -> (listing: String)
    ensures
        listing@ == joined(supported_names(), LIST_SEPARATOR@),
{
    join(supported_shells(), LIST_SEPARATOR)
}

/// The startup command for the shell of the given name, or the refusal of
/// a name that is not supported. The name is the base name of the shell's
/// executable, not a path.
pub fn get_shell_cmd(shell_name: &str) -> (result: Result<String, UnsupportedShell>)
    ensures
        result is Ok <==> is_supported(shell_name@),
        match result {
            Ok(command) => {
                &&& profile_of(shell_name@) matches Some(profile)
                &&& command@ == profile.command_text()
                &&& contains(command@, MARKER@)
                &&& profile != ShellProfile::Bash ==> !contains(command@, BASH_USER_AT_HOST@)
                    && !contains(command@, BASH_DIRECTORY@)
            },
            Err(refusal) => {
                &&& profile_of(shell_name@) is None
                &&& refusal.name@ == shell_name@
                &&& views(refusal.supported@) == supported_names()
            },
        },
{
    match ShellProfile::from_name(shell_name) {
        Some(profile) => Ok(profile.command()),
        None => Err(UnsupportedShell { name: line(shell_name), supported: supported_shells() }),
    }
}

/// The prompt of a bash session, the shell that is run where the user
/// names none. Other dialects have their own: see [`ShellProfile::prompt`].
pub fn get_prompt() -> (prompt: &'static str)
    ensures
        prompt@ == PROMPT@,
        prompt@ == ShellProfile::Bash.prompt_text(),
{
    proof {
        lemma_bash_prompt();
    }
    PROMPT
}

/// The names of the supported shells.
pub fn supported_shells() -> (names: &'static [&'static str])
    ensures
        views(names@) == supported_names(),
{
    let names: &'static [&'static str] = &[NAME_BASH, NAME_ZSH, NAME_FISH, NAME_SH, NAME_DASH];
    assert(views(names@) =~= supported_names());
    names
}

} // verus!
