//! The command-line surface as plain data, and the theme dispatch.
//!
//! Flag parsing itself is left to the outer driver; the library receives
//! the parsed values in `Cli` and decides everything from there.

use vstd::prelude::*;

use crate::ilsore_format;
use crate::ilsore_format_color;
use crate::structs::{GetGitInfoOptions, ThemeData, ThemeSymbols};

verus! {

/// The available symbol sets.
#[derive(Clone, Copy, Debug)]
pub enum ThemeSymbolsNames {
    Utf8Power,
    Utf8,
    Ascii,
}

/// The available renderers.
#[derive(Clone, Copy, Debug)]
pub enum ThemeNames {
    IlsoreColor,
    IlsoreNoColor,
}

/// The parsed command-line options, immutable for the invocation.
pub struct Cli {
    /// Use this hostname and skip the lookup.
    pub static_hostname: Option<String>,
    /// Skip the repository inspection entirely.
    pub disable_git: bool,
    /// Reference to resolve; `None` stands for `HEAD`.
    pub git_reference: Option<String>,
    /// Directory to start the repository search from.
    pub git_start_folder: Option<String>,
    /// Include submodule status.
    pub git_include_submodules: bool,
    /// Leave untracked files out of the status.
    pub git_exclude_untracked: bool,
    /// Allow a soft index refresh.
    pub git_refresh_status: bool,
    /// Skip the upstream comparison.
    pub git_exclude_ahead_behind: bool,
    /// Query the index only, not the working directory.
    pub git_exclude_stats_workdir: bool,
    /// The last command's exit code.
    pub last_exit_status: u8,
    /// The symbol set to draw with.
    pub theme_symbols: ThemeSymbolsNames,
    /// The renderer to use.
    pub theme_name: ThemeNames,
}

/// Whether `symbols` is exactly the symbol set that `name` selects.
pub open spec fn symbol_set_of(name: ThemeSymbolsNames, symbols: ThemeSymbols) -> bool {
    match name {
        ThemeSymbolsNames::Utf8Power => symbols.git_branch@ == "\u{e0a0}"@
            && symbols.git_has_no_upstream@ == "\u{25B2}"@ && symbols.git_branch_detached@
            == "\u{2630}"@ && symbols.git_is_ahead@ == "\u{2191}"@ && symbols.git_is_behind@
            == "\u{2193}"@ && symbols.git_has_conflict@ == "\u{2718}"@
            && symbols.git_has_untracked@ == "?"@ && symbols.git_has_typechange@ == "\u{2021}"@
            && symbols.git_has_unstaged@ == "\u{25cf}"@ && symbols.git_has_staged@ == "\u{25cf}"@,
        ThemeSymbolsNames::Utf8 => symbols.git_branch@ == "\u{16a0}"@
            && symbols.git_has_no_upstream@ == "\u{16d8}"@ && symbols.git_branch_detached@
            == "\u{2630}"@ && symbols.git_is_ahead@ == "\u{2191}"@ && symbols.git_is_behind@
            == "\u{2193}"@ && symbols.git_has_conflict@ == "\u{2718}"@
            && symbols.git_has_untracked@ == "?"@ && symbols.git_has_typechange@ == "\u{2021}"@
            && symbols.git_has_unstaged@ == "\u{25cf}"@ && symbols.git_has_staged@ == "\u{25cf}"@,
        ThemeSymbolsNames::Ascii => symbols.git_branch@ == ""@ && symbols.git_has_no_upstream@
            == "&"@ && symbols.git_branch_detached@ == "||"@ && symbols.git_is_ahead@ == "^"@
            && symbols.git_is_behind@ == "v"@ && symbols.git_has_conflict@ == "x"@
            && symbols.git_has_untracked@ == "?"@ && symbols.git_has_typechange@ == "T"@
            && symbols.git_has_unstaged@ == "*"@ && symbols.git_has_staged@ == "*"@,
    }
}

impl Cli {
    /// The symbol set the options select.
    pub fn symbols(&self) -> (r: ThemeSymbols)
        ensures
            symbol_set_of(self.theme_symbols, r),
    {
        match self.theme_symbols {
            ThemeSymbolsNames::Utf8Power => ThemeSymbols::utf8_power(),
            ThemeSymbolsNames::Utf8 => ThemeSymbols::utf8(),
            ThemeSymbolsNames::Ascii => ThemeSymbols::ascii(),
        }
    }

    /// Renders the prompt with the renderer the options select.
    pub fn theme(&self, data: &ThemeData, symbols: &ThemeSymbols) -> (r: String)
        ensures
            self.theme_name matches ThemeNames::IlsoreColor ==> r@
                == ilsore_format_color::spec_color_prompt(*data, *symbols),
            self.theme_name matches ThemeNames::IlsoreNoColor ==> r@ == ilsore_format::spec_no_color(
                *data,
                *symbols,
            ),
    {
        match self.theme_name {
            ThemeNames::IlsoreColor => ilsore_format_color::format_ilsore_color(data, symbols),
            ThemeNames::IlsoreNoColor => ilsore_format::format_ilsore_no_color(data, symbols),
        }
    }

    /// The repository-inspection options the flags select: untracked files,
    /// the upstream comparison and the working-directory query are included
    /// unless excluded, and the reference falls back to `HEAD`.
    pub fn git_options(&self) -> (r: GetGitInfoOptions)
        ensures
            r.start_folder == self.git_start_folder,
            self.git_reference matches Some(name) ==> r.reference_name@ == name@,
            self.git_reference is None ==> r.reference_name@ == "HEAD"@,
            r.include_submodules == self.git_include_submodules,
            r.include_untracked == !self.git_exclude_untracked,
            r.refresh_status == self.git_refresh_status,
            r.include_ahead_behind == !self.git_exclude_ahead_behind,
            r.include_workdir_stats == !self.git_exclude_stats_workdir,
    {
        GetGitInfoOptions {
            start_folder: match &self.git_start_folder {
                Some(folder) => Some(folder.clone()),
                None => None,
            },
            reference_name: match &self.git_reference {
                Some(name) => name.clone(),
                None => String::from_str("HEAD"),
            },
            include_submodules: self.git_include_submodules,
            include_untracked: !self.git_exclude_untracked,
            refresh_status: self.git_refresh_status,
            include_ahead_behind: !self.git_exclude_ahead_behind,
            include_workdir_stats: !self.git_exclude_stats_workdir,
        }
    }
}

} // verus!
