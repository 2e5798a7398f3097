//! The plain theme: renders the prompt without color escape sequences.

use vstd::prelude::*;

use crate::structs::{
    GitBranchAheadBehind, GitFileStatus, GitHeadInfo, GitOutputOptions, ThemeData, ThemeSymbols,
};
use crate::util;

verus! {

/// The text of an optional string, the empty text when it is absent.
pub open spec fn opt_text(s: Option<String>) -> Seq<char> {
    match s {
        Some(v) => v@,
        None => Seq::empty(),
    }
}

/// A symbol when its condition holds, nothing otherwise.
pub open spec fn spec_symbol(present: bool, symbol: Seq<char>) -> Seq<char> {
    if present {
        symbol
    } else {
        Seq::empty()
    }
}

/// The nine status symbols in their fixed order: detached, no upstream,
/// ahead, behind, conflict, untracked, typechange, unstaged, staged.
pub open spec fn spec_git_symbols(
    head_info: Option<GitHeadInfo>,
    file_status: Option<GitFileStatus>,
    branch_ahead_behind: Option<GitBranchAheadBehind>,
    symbols: ThemeSymbols,
) -> Seq<char> {
    spec_symbol(
        head_info matches Some(h) && h.detached,
        symbols.git_branch_detached@,
    ) + spec_symbol(branch_ahead_behind is None, symbols.git_has_no_upstream@) + spec_symbol(
        branch_ahead_behind matches Some(b) && b.ahead > 0,
        symbols.git_is_ahead@,
    ) + spec_symbol(
        branch_ahead_behind matches Some(b) && b.behind > 0,
        symbols.git_is_behind@,
    ) + spec_symbol(
        file_status matches Some(f) && f.conflict,
        symbols.git_has_conflict@,
    ) + spec_symbol(
        file_status matches Some(f) && f.untracked,
        symbols.git_has_untracked@,
    ) + spec_symbol(
        file_status matches Some(f) && f.typechange,
        symbols.git_has_typechange@,
    ) + spec_symbol(
        file_status matches Some(f) && f.unstaged,
        symbols.git_has_unstaged@,
    ) + spec_symbol(file_status matches Some(f) && f.staged, symbols.git_has_staged@)
}

/// The head description: the branch symbol and the short reference when one
/// is present, else the short object id when one is present, else nothing.
pub open spec fn spec_git_head_info(head_info: Option<GitHeadInfo>, symbols: ThemeSymbols) -> Option<
    Seq<char>,
> {
    match head_info {
        None => None,
        Some(h) => match h.reference_short {
            Some(v) => Some(symbols.git_branch@ + " "@ + v@),
            None => match h.oid_short {
                Some(o) => Some(o@),
                None => None,
            },
        },
    }
}

/// The whole git segment: empty without head information, otherwise the
/// head description and the status symbols in parentheses.
pub open spec fn spec_git(data: GitOutputOptions, symbols: ThemeSymbols) -> Seq<char> {
    if data.head_info is None {
        Seq::empty()
    } else {
        "(Git: "@ + (match spec_git_head_info(data.head_info, symbols) {
            Some(s) => s,
            None => Seq::empty(),
        }) + " "@ + spec_git_symbols(
            data.head_info,
            data.file_status,
            data.branch_ahead_behind,
            symbols,
        ) + ")"@
    }
}

/// The exit-status segment: the code in brackets when it is not zero.
pub open spec fn spec_last_status(status: u8) -> Seq<char> {
    if status != 0 {
        "["@ + util::dec_digits(status as int) + "]"@
    } else {
        Seq::empty()
    }
}

/// The virtual-environment segment: the marker in brackets when present.
pub open spec fn spec_python(python: Option<String>) -> Seq<char> {
    match python {
        Some(v) => "["@ + v@ + "]"@,
        None => Seq::empty(),
    }
}

/// The whole plain prompt: date and time, user and host, exit status,
/// virtual environment and git segment, then the prompt arrow on its own
/// line.
pub open spec fn spec_no_color(data: ThemeData, symbols: ThemeSymbols) -> Seq<char> {
    "["@ + data.datetime.date@ + " "@ + data.datetime.time@ + "]"@ + opt_text(data.username)
        + "@"@ + opt_text(data.hostname) + spec_last_status(data.last_exit_status) + spec_python(
        data.python,
    ) + (match data.git {
        Some(g) => spec_git(g, symbols),
        None => Seq::empty(),
    }) + "\n%~>"@
}

/// The symbol when its condition holds, the empty string otherwise.
pub fn symbol(present: bool, symbol_text: &'static str) -> (r: &'static str)
    ensures
        r@ == spec_symbol(present, symbol_text@),
{
    proof {
        reveal_strlit("");
    }
    match present {
        true => symbol_text,
        false => "",
    }
}

/// Renders the nine status symbols in their fixed order.
pub fn format_ilsore_git_symbols(
    head_info: &Option<GitHeadInfo>,
    file_status: &Option<GitFileStatus>,
    branch_ahead_behind: &Option<GitBranchAheadBehind>,
    symbols: &ThemeSymbols,
) -> (r: String)
    ensures
        r@ == spec_git_symbols(*head_info, *file_status, *branch_ahead_behind, *symbols),
{
    let detached = match head_info {
        Some(h) => h.detached,
        None => false,
    };
    let no_upstream = branch_ahead_behind.is_none();
    let is_ahead = match branch_ahead_behind {
        Some(b) => b.ahead > 0,
        None => false,
    };
    let is_behind = match branch_ahead_behind {
        Some(b) => b.behind > 0,
        None => false,
    };
    let has_conflict = match file_status {
        Some(f) => f.conflict,
        None => false,
    };
    let has_untracked = match file_status {
        Some(f) => f.untracked,
        None => false,
    };
    let has_typechange = match file_status {
        Some(f) => f.typechange,
        None => false,
    };
    let has_unstaged = match file_status {
        Some(f) => f.unstaged,
        None => false,
    };
    let has_staged = match file_status {
        Some(f) => f.staged,
        None => false,
    };

    let mut r = String::new();
    r.append(symbol(detached, symbols.git_branch_detached));
    r.append(symbol(no_upstream, symbols.git_has_no_upstream));
    r.append(symbol(is_ahead, symbols.git_is_ahead));
    r.append(symbol(is_behind, symbols.git_is_behind));
    r.append(symbol(has_conflict, symbols.git_has_conflict));
    r.append(symbol(has_untracked, symbols.git_has_untracked));
    r.append(symbol(has_typechange, symbols.git_has_typechange));
    r.append(symbol(has_unstaged, symbols.git_has_unstaged));
    r.append(symbol(has_staged, symbols.git_has_staged));
    proof {
        assert(r@ =~= spec_git_symbols(*head_info, *file_status, *branch_ahead_behind, *symbols));
    }
    r
}

/// Renders the head description, `None` when there is nothing to show.
pub fn format_ilsore_git_head_info(head_info: &Option<GitHeadInfo>, symbols: &ThemeSymbols) -> (r:
    Option<String>)
    ensures
        match spec_git_head_info(*head_info, *symbols) {
            Some(s) => r matches Some(v) && v@ == s,
            None => r is None,
        },
{
    match head_info {
        None => None,
        Some(h) => match &h.reference_short {
            Some(v) => {
                let mut text = String::from_str(symbols.git_branch);
                text.append(" ");
                text.append(v.as_str());
                Some(text)
            },
            None => match &h.oid_short {
                Some(o) => Some(o.clone()),
                None => None,
            },
        },
    }
}

/// Renders the whole git segment of the plain prompt.
pub fn format_ilsore_git(data: &GitOutputOptions, symbols: &ThemeSymbols) -> (r: String)
    ensures
        r@ == spec_git(*data, *symbols),
{
    if data.head_info.is_none() {
        proof {
            reveal_strlit("");
        }
        return String::from_str("");
    }

    let mut r = String::from_str("(Git: ");
    match format_ilsore_git_head_info(&data.head_info, symbols) {
        Some(head_text) => r.append(head_text.as_str()),
        None => (),
    }
    r.append(" ");
    let symbols_text = format_ilsore_git_symbols(
        &data.head_info,
        &data.file_status,
        &data.branch_ahead_behind,
        symbols,
    );
    r.append(symbols_text.as_str());
    r.append(")");
    proof {
        assert(r@ =~= spec_git(*data, *symbols));
    }
    r
}

/// Renders the whole plain prompt.
#[verifier::rlimit(50)]
pub fn format_ilsore_no_color(data: &ThemeData, symbols: &ThemeSymbols) -> (r: String)
    ensures
        r@ == spec_no_color(*data, *symbols),
{
    let mut r = String::from_str("[");
    r.append(data.datetime.date.as_str());
    r.append(" ");
    r.append(data.datetime.time.as_str());
    r.append("]");
    match &data.username {
        Some(u) => r.append(u.as_str()),
        None => (),
    }
    r.append("@");
    match &data.hostname {
        Some(h) => r.append(h.as_str()),
        None => (),
    }
    if data.last_exit_status != 0 {
        r.append("[");
        let code = util::u8_to_dec(data.last_exit_status);
        r.append(code.as_str());
        r.append("]");
    }
    match &data.python {
        Some(p) => {
            r.append("[");
            r.append(p.as_str());
            r.append("]");
        },
        None => (),
    }
    match &data.git {
        Some(g) => {
            let git_text = format_ilsore_git(g, symbols);
            r.append(git_text.as_str());
        },
        None => (),
    }
    r.append("\n%~>");
    proof {
        assert(r@ =~= spec_no_color(*data, *symbols));
    }
    r
}

} // verus!
