//! The color theme: renders the prompt with shell color escape sequences.

use vstd::prelude::*;

use crate::ilsore_format::opt_text;
use crate::structs::{
    GitBranchAheadBehind, GitFileStatus, GitHeadInfo, GitOutputOptions, ThemeData, ThemeSymbols,
};
use crate::util;

verus! {

/// The escape sequence that resets color and weight.
pub open spec fn reset_seq() -> Seq<char> {
    "%{\u{1b}[0m%}"@
}

/// The shell escape that switches to the given foreground color.
pub open spec fn spec_color(color: Seq<char>) -> Seq<char> {
    "%{%F{"@ + color + "}%}"@
}

/// The shell escape that switches to bold in the given foreground color.
pub open spec fn spec_color_bold(color: Seq<char>) -> Seq<char> {
    "%{%B%F{"@ + color + "}%}"@
}

/// The text of an optional segment, the empty text when it is absent.
pub open spec fn opt_seq(segment: Option<Seq<char>>) -> Seq<char> {
    match segment {
        Some(s) => s,
        None => Seq::empty(),
    }
}

/// A bold colored symbol when its condition holds, nothing otherwise.
pub open spec fn spec_symbol_bold(present: bool, symbol: Seq<char>, color: Seq<char>) -> Option<
    Seq<char>,
> {
    if present {
        Some(spec_color_bold(color) + symbol)
    } else {
        None
    }
}

/// A colored symbol when its condition holds, nothing otherwise.
pub open spec fn spec_symbol_plain(present: bool, symbol: Seq<char>, color: Seq<char>) -> Option<
    Seq<char>,
> {
    if present {
        Some(spec_color(color) + symbol)
    } else {
        None
    }
}

/// The concatenation of the present segments, in order.
pub open spec fn join_some(parts: Seq<Option<String>>) -> Seq<char>
    decreases parts.len(),
{
    if parts.len() == 0 {
        Seq::empty()
    } else {
        join_some(parts.drop_last()) + opt_text(parts.last())
    }
}

pub trait Joiner {
    fn i_join(&self) -> String;
}

impl Joiner for Vec<Option<String>> {
    /// Concatenates the present parts, in order.
    fn i_join(&self) -> (r: String)
        ensures
            r@ == join_some(self@),
    {
        let mut r = String::new();
        let mut i: usize = 0;
        while i < self.len()
            invariant
                i <= self@.len(),
                r@ == join_some(self@.take(i as int)),
            decreases self@.len() - i,
        {
            proof {
                assert(self@.take(i + 1).drop_last() =~= self@.take(i as int));
                assert(self@.take(i + 1).last() == self@[i as int]);
            }
            match &self[i] {
                Some(part) => r.append(part.as_str()),
                None => (),
            }
            i = i + 1;
        }
        proof {
            assert(self@.take(self@.len() as int) =~= self@);
        }
        r
    }
}

/// The escape that switches to the given foreground color.
pub fn format_color(color: &str) -> (r: String)
    ensures
        r@ == spec_color(color@),
{
    let mut r = String::from_str("%{%F{");
    r.append(color);
    r.append("}%}");
    proof {
        assert(r@ =~= spec_color(color@));
    }
    r
}

/// The escape that switches to bold in the given foreground color.
pub fn format_color_bold(color: &str) -> (r: String)
    ensures
        r@ == spec_color_bold(color@),
{
    let mut r = String::from_str("%{%B%F{");
    r.append(color);
    r.append("}%}");
    proof {
        assert(r@ =~= spec_color_bold(color@));
    }
    r
}

/// A bold colored symbol when its condition holds.
pub fn symbol_bold(present: bool, symbol_text: &'static str, color: &'static str) -> (r: Option<
    String,
>)
    ensures
        match spec_symbol_bold(present, symbol_text@, color@) {
            Some(s) => r matches Some(v) && v@ == s,
            None => r is None,
        },
{
    match present {
        true => {
            let mut text = format_color_bold(color);
            text.append(symbol_text);
            Some(text)
        },
        false => None,
    }
}

/// A colored symbol when its condition holds.
pub fn symbol(present: bool, symbol_text: &'static str, color: &'static str) -> (r: Option<String>)
    ensures
        match spec_symbol_plain(present, symbol_text@, color@) {
            Some(s) => r matches Some(v) && v@ == s,
            None => r is None,
        },
{
    match present {
        true => {
            let mut text = format_color(color);
            text.append(symbol_text);
            Some(text)
        },
        false => None,
    }
}

/// The branch segment: nothing when neither name nor id is known; the bold
/// short id when the name is missing or HEAD is detached; otherwise the
/// bold branch symbol and short name.
pub open spec fn spec_git_branch(head_info: GitHeadInfo, symbols: ThemeSymbols) -> Option<
    Seq<char>,
> {
    if head_info.reference_short is None && head_info.oid_short is None {
        None
    } else if head_info.reference_short is None || head_info.detached {
        Some(spec_color_bold("201"@) + opt_text(head_info.oid_short) + reset_seq())
    } else {
        Some(
            spec_color_bold("226"@) + symbols.git_branch@ + " "@ + opt_text(
                head_info.reference_short,
            ) + reset_seq(),
        )
    }
}

/// Renders the branch segment.
pub fn format_ilsore_git_branch(head_info: &GitHeadInfo, symbols: &ThemeSymbols) -> (r: Option<
    String,
>)
    ensures
        match spec_git_branch(*head_info, *symbols) {
            Some(s) => r matches Some(v) && v@ == s,
            None => r is None,
        },
{
    if head_info.reference_short.is_none() && head_info.oid_short.is_none() {
        return None;
    }
    if head_info.reference_short.is_none() || head_info.detached {
        let mut text = format_color_bold("201");
        match &head_info.oid_short {
            Some(oid) => text.append(oid.as_str()),
            None => (),
        }
        text.append("%{\u{1b}[0m%}");
        proof {
            assert(text@ =~= spec_color_bold("201"@) + opt_text(head_info.oid_short)
                + reset_seq());
        }
        Some(text)
    } else {
        let mut text = format_color_bold("226");
        text.append(symbols.git_branch);
        text.append(" ");
        match &head_info.reference_short {
            Some(name) => text.append(name.as_str()),
            None => (),
        }
        text.append("%{\u{1b}[0m%}");
        proof {
            assert(text@ =~= spec_color_bold("226"@) + symbols.git_branch@ + " "@ + opt_text(
                head_info.reference_short,
            ) + reset_seq());
        }
        Some(text)
    }
}

/// The status-symbol segment: the detached symbol, or the no-upstream
/// symbol, or the ahead/behind pair; then the five file flags; `None` when
/// all of it is empty.
pub open spec fn spec_git_symbols_color(
    head_info: Option<GitHeadInfo>,
    file_status: Option<GitFileStatus>,
    branch_ahead_behind: Option<GitBranchAheadBehind>,
    symbols: ThemeSymbols,
) -> Option<Seq<char>> {
    let detached = head_info matches Some(h) && h.detached;
    let no_upstream = branch_ahead_behind is None;
    let is_ahead = branch_ahead_behind matches Some(b) && b.ahead > 0;
    let is_behind = branch_ahead_behind matches Some(b) && b.behind > 0;
    let has_staged = file_status matches Some(f) && f.staged;
    let has_unstaged = file_status matches Some(f) && f.unstaged;
    let has_typechange = file_status matches Some(f) && f.typechange;
    let has_conflict = file_status matches Some(f) && f.conflict;
    let has_untracked = file_status matches Some(f) && f.untracked;
    let detached_branch = if detached {
        opt_seq(spec_symbol_bold(true, symbols.git_branch_detached@, "26"@))
    } else if no_upstream {
        opt_seq(spec_symbol_bold(true, symbols.git_has_no_upstream@, "red"@))
    } else {
        opt_seq(spec_symbol_bold(is_ahead, symbols.git_is_ahead@, "magenta"@)) + opt_seq(
            spec_symbol_bold(is_behind, symbols.git_is_behind@, "green"@),
        )
    };
    let file_flags = opt_seq(spec_symbol_bold(has_staged, symbols.git_has_staged@, "green"@))
        + opt_seq(spec_symbol_bold(has_unstaged, symbols.git_has_unstaged@, "red"@)) + opt_seq(
        spec_symbol_bold(has_typechange, symbols.git_has_typechange@, "magenta"@),
    ) + opt_seq(spec_symbol_bold(has_conflict, symbols.git_has_conflict@, "red"@)) + opt_seq(
        spec_symbol_plain(has_untracked, symbols.git_has_untracked@, "magenta"@),
    );
    let joined = detached_branch + " "@ + file_flags;
    if joined.len() != 0 {
        Some(joined + reset_seq())
    } else {
        None
    }
}

/// Renders the status-symbol segment.
#[verifier::rlimit(50)]
pub fn format_ilsore_git_symbols(
    head_info: &Option<GitHeadInfo>,
    file_status: &Option<GitFileStatus>,
    branch_ahead_behind: &Option<GitBranchAheadBehind>,
    symbols: &ThemeSymbols,
) -> (r: Option<String>)
    ensures
        match spec_git_symbols_color(*head_info, *file_status, *branch_ahead_behind, *symbols) {
            Some(s) => r matches Some(v) && v@ == s,
            None => r is None,
        },
{
    let detached = match head_info {
        Some(h) => h.detached,
        None => false,
    };
    let no_upstream = branch_ahead_behind.is_none();
    let is_ahead = match branch_ahead_behind {
        Some(b) => b.ahead > 0,
        None => false,
    };
    let is_behind = match branch_ahead_behind {
        Some(b) => b.behind > 0,
        None => false,
    };
    let has_staged = match file_status {
        Some(f) => f.staged,
        None => false,
    };
    let has_unstaged = match file_status {
        Some(f) => f.unstaged,
        None => false,
    };
    let has_typechange = match file_status {
        Some(f) => f.typechange,
        None => false,
    };
    let has_conflict = match file_status {
        Some(f) => f.conflict,
        None => false,
    };
    let has_untracked = match file_status {
        Some(f) => f.untracked,
        None => false,
    };

    let detached_branch_symbols: Vec<Option<String>> = vec![
        match (detached, no_upstream) {
            (true, _) => symbol_bold(true, symbols.git_branch_detached, "26"),
            (false, true) => symbol_bold(true, symbols.git_has_no_upstream, "red"),
            (false, false) => Some(
                (vec![
                    symbol_bold(is_ahead, symbols.git_is_ahead, "magenta"),
                    symbol_bold(is_behind, symbols.git_is_behind, "green"),
                ]).i_join(),
            ),
        },
    ];

    let file_status_symbols: Vec<Option<String>> = vec![
        symbol_bold(has_staged, symbols.git_has_staged, "green"),
        symbol_bold(has_unstaged, symbols.git_has_unstaged, "red"),
        symbol_bold(has_typechange, symbols.git_has_typechange, "magenta"),
        symbol_bold(has_conflict, symbols.git_has_conflict, "red"),
        symbol(has_untracked, symbols.git_has_untracked, "magenta"),
    ];

    let mut result = detached_branch_symbols.i_join();
    result.append(" ");
    let file_flags_text = file_status_symbols.i_join();
    result.append(file_flags_text.as_str());

    proof {
        reveal_with_fuel(join_some, 7);
    }
    if !result.as_str().is_empty() {
        result.append("%{\u{1b}[0m%}");
        Some(result)
    } else {
        None
    }
}

/// The whole git segment: empty without head information, otherwise the
/// branch and status segments joined inside colored parentheses.
pub open spec fn spec_git_color(data: GitOutputOptions, symbols: ThemeSymbols) -> Seq<char> {
    if data.head_info is None {
        Seq::empty()
    } else {
        let branch = match data.head_info {
            Some(h) => opt_seq(spec_git_branch(h, symbols)),
            None => Seq::empty(),
        };
        let status_symbols = opt_seq(
            spec_git_symbols_color(
                data.head_info,
                data.file_status,
                data.branch_ahead_behind,
                symbols,
            ),
        );
        "("@ + spec_color("magenta"@) + "Git: "@ + branch + " "@ + status_symbols + reset_seq()
            + ")"@
    }
}

/// Renders the whole git segment of the color prompt.
#[verifier::rlimit(50)]
pub fn format_ilsore_git(data: &GitOutputOptions, symbols: &ThemeSymbols) -> (r: String)
    ensures
        r@ == spec_git_color(*data, *symbols),
{
    if data.head_info.is_none() {
        proof {
            reveal_strlit("");
        }
        return String::from_str("");
    }

    let git_info: Vec<Option<String>> = vec![
        Some(
            match match &data.head_info {
                Some(h) => format_ilsore_git_branch(h, symbols),
                None => None,
            } {
                Some(branch) => branch,
                None => String::new(),
            },
        ),
        Some(
            match format_ilsore_git_symbols(
                &data.head_info,
                &data.file_status,
                &data.branch_ahead_behind,
                symbols,
            ) {
                Some(status_symbols) => status_symbols,
                None => String::new(),
            },
        ),
    ];

    let mut r = String::from_str("(");
    let magenta = format_color("magenta");
    r.append(magenta.as_str());
    r.append("Git: ");
    match &git_info[0] {
        Some(branch) => r.append(branch.as_str()),
        None => (),
    }
    r.append(" ");
    match &git_info[1] {
        Some(status_symbols) => r.append(status_symbols.as_str()),
        None => (),
    }
    r.append("%{\u{1b}[0m%}");
    r.append(")");
    proof {
        assert(r@ =~= spec_git_color(*data, *symbols));
    }
    r
}

/// The date-and-time segment of the color prompt.
pub open spec fn spec_date_time(data: ThemeData) -> Seq<char> {
    "["@ + spec_color("165"@) + data.datetime.date@ + reset_seq() + " "@ + spec_color("226"@)
        + data.datetime.time@ + reset_seq() + "]"@
}

/// The user-and-host segment of the color prompt.
pub open spec fn spec_user_host(data: ThemeData) -> Seq<char> {
    spec_color("214"@) + opt_text(data.username) + reset_seq() + "@"@ + spec_color("46"@)
        + opt_text(data.hostname) + reset_seq()
}

/// The exit-status segment: the code in bold red brackets when not zero.
pub open spec fn spec_last_status_color(status: u8) -> Seq<char> {
    if status != 0 {
        "["@ + spec_color_bold("196"@) + util::dec_digits(status as int) + reset_seq() + "]"@
    } else {
        Seq::empty()
    }
}

/// The virtual-environment segment: the marker in bold brackets.
pub open spec fn spec_python_color(python: Option<String>) -> Seq<char> {
    match python {
        Some(v) => "["@ + spec_color_bold("42"@) + v@ + reset_seq() + "]"@,
        None => Seq::empty(),
    }
}

/// The whole color prompt.
pub open spec fn spec_color_prompt(data: ThemeData, symbols: ThemeSymbols) -> Seq<char> {
    spec_date_time(data) + spec_user_host(data) + spec_last_status_color(data.last_exit_status)
        + spec_python_color(data.python) + (match data.git {
        Some(g) => spec_git_color(g, symbols),
        None => Seq::empty(),
    }) + "\n"@ + spec_color("87"@) + "%~"@ + reset_seq() + ">"@
}

/// Renders the whole color prompt.
#[verifier::rlimit(100)]
pub fn format_ilsore_color(data: &ThemeData, symbols: &ThemeSymbols) -> (r: String)
    ensures
        r@ == spec_color_prompt(*data, *symbols),
{
    let mut r = String::from_str("[");
    let date_color = format_color("165");
    r.append(date_color.as_str());
    r.append(data.datetime.date.as_str());
    r.append("%{\u{1b}[0m%}");
    r.append(" ");
    let time_color = format_color("226");
    r.append(time_color.as_str());
    r.append(data.datetime.time.as_str());
    r.append("%{\u{1b}[0m%}");
    r.append("]");
    proof {
        assert(r@ =~= spec_date_time(*data));
    }

    let user_color = format_color("214");
    r.append(user_color.as_str());
    match &data.username {
        Some(u) => r.append(u.as_str()),
        None => (),
    }
    r.append("%{\u{1b}[0m%}");
    r.append("@");
    let host_color = format_color("46");
    r.append(host_color.as_str());
    match &data.hostname {
        Some(h) => r.append(h.as_str()),
        None => (),
    }
    r.append("%{\u{1b}[0m%}");
    proof {
        assert(r@ =~= spec_date_time(*data) + spec_user_host(*data));
    }

    if data.last_exit_status != 0 {
        r.append("[");
        let status_color = format_color_bold("196");
        r.append(status_color.as_str());
        let code = util::u8_to_dec(data.last_exit_status);
        r.append(code.as_str());
        r.append("%{\u{1b}[0m%}");
        r.append("]");
    }
    proof {
        assert(r@ =~= spec_date_time(*data) + spec_user_host(*data) + spec_last_status_color(
            data.last_exit_status,
        ));
    }

    match &data.python {
        Some(p) => {
            r.append("[");
            let python_color = format_color_bold("42");
            r.append(python_color.as_str());
            r.append(p.as_str());
            r.append("%{\u{1b}[0m%}");
            r.append("]");
        },
        None => (),
    }
    proof {
        assert(r@ =~= spec_date_time(*data) + spec_user_host(*data) + spec_last_status_color(
            data.last_exit_status,
        ) + spec_python_color(data.python));
    }

    match &data.git {
        Some(g) => {
            let git_text = format_ilsore_git(g, symbols);
            r.append(git_text.as_str());
        },
        None => (),
    }
    proof {
        assert(r@ =~= spec_date_time(*data) + spec_user_host(*data) + spec_last_status_color(
            data.last_exit_status,
        ) + spec_python_color(data.python) + (match data.git {
            Some(g) => spec_git_color(g, *symbols),
            None => Seq::empty(),
        }));
    }

    r.append("\n");
    let prompt_color = format_color("87");
    r.append(prompt_color.as_str());
    r.append("%~");
    r.append("%{\u{1b}[0m%}");
    r.append(">");
    proof {
        assert(r@ =~= spec_color_prompt(*data, *symbols));
    }
    r
}

} // verus!
