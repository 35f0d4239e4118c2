//! Syntax highlighting of code blocks for a terminal.
//!
//! The highlighting is the work of the `syntect` crate. This module decides
//! which syntax a language tag selects, feeds the code line by line, and
//! falls back to the plain line wherever `syntect` has no answer, so that no
//! line of code is ever lost.

use vstd::prelude::*;
use crate::text::{chars_of, lines_of, split_lines, string_of, string_views, vec_views};

verus! {

/// The syntaxes that `syntect` knows.
#[verifier::external_type_specification]
#[verifier::external_body]
pub struct ExSyntaxSet(syntect::parsing::SyntaxSet);

/// One syntax of a syntax set.
#[verifier::external_type_specification]
#[verifier::external_body]
pub struct ExSyntaxReference(syntect::parsing::SyntaxReference);

/// The colour themes that `syntect` knows.
#[verifier::external_type_specification]
#[verifier::external_body]
pub struct ExThemeSet(syntect::highlighting::ThemeSet);

/// One colour theme.
#[verifier::external_type_specification]
#[verifier::external_body]
pub struct ExTheme(syntect::highlighting::Theme);

/// The colours and font style of a piece of a line.
#[verifier::external_type_specification]
#[verifier::external_body]
pub struct ExStyle(syntect::highlighting::Style);

/// The state of `syntect` between the lines of one block.
#[verifier::external_type_specification]
#[verifier::external_body]
pub struct ExHighlightLines<'a>(syntect::easy::HighlightLines<'a>);

/// The names of the syntaxes of a set.
pub uninterp spec fn syntax_names(set: syntect::parsing::SyntaxSet) -> Set<Seq<char>>;

/// The names under which a set keeps its themes: the keys of the public map
/// `ThemeSet::themes`.
pub uninterp spec fn theme_names(set: syntect::highlighting::ThemeSet) -> Set<Seq<char>>;

/// The name of the theme that code is coloured with.
pub open spec fn theme_in_use() -> Seq<char> {
    "base16-ocean.dark"@
}

/// The name of the syntax that is taken where a language has none.
pub open spec fn plain_text() -> Seq<char> {
    "Plain Text"@
}

/// `SyntaxSet::load_defaults_newlines`: the syntaxes that ship with `syntect`.
#[verifier::external_body]
fn load_syntaxes() -> syntect::parsing::SyntaxSet {
    syntect::parsing::SyntaxSet::load_defaults_newlines()
}

/// `ThemeSet::load_defaults`: the themes that ship with `syntect`. Its
/// documentation lists their keys; the theme in use is the first of them.
#[verifier::external_body]
fn load_themes() -> (set: syntect::highlighting::ThemeSet)
    ensures
        theme_names(set).contains(theme_in_use()),
{
    syntect::highlighting::ThemeSet::load_defaults()
}

/// `SyntaxSet::find_syntax_by_name`: the syntax with exactly this name, if
/// the set has one.
#[verifier::external_body]
fn syntax_by_name<'a>(set: &'a syntect::parsing::SyntaxSet, name: &str) -> (found: Option<
    &'a syntect::parsing::SyntaxReference,
>)
    ensures
        found is Some <==> syntax_names(*set).contains(name@),
{
    set.find_syntax_by_name(name)
}

/// `SyntaxSet::find_syntax_by_extension`: a syntax for files with this
/// extension, if the set has one.
#[verifier::external_body]
fn syntax_by_extension<'a>(set: &'a syntect::parsing::SyntaxSet, extension: &str) -> Option<
    &'a syntect::parsing::SyntaxReference,
> {
    set.find_syntax_by_extension(extension)
}

/// The theme that the set keeps under `name`, if there is one: a lookup in
/// the public map `ThemeSet::themes`.
#[verifier::external_body]
fn theme_by_name<'a>(set: &'a syntect::highlighting::ThemeSet, name: &str) -> (found: Option<
    &'a syntect::highlighting::Theme,
>)
    ensures
        found is Some <==> theme_names(*set).contains(name@),
{
    set.themes.get(name)
}

/// `HighlightLines::new`: a fresh state for one block.
#[verifier::external_body]
fn start_block<'a>(
    syntax: &syntect::parsing::SyntaxReference,
    theme: &'a syntect::highlighting::Theme,
) -> syntect::easy::HighlightLines<'a> {
    syntect::easy::HighlightLines::new(syntax, theme)
}

/// `HighlightLines::highlight_line`: the styled pieces of the next line of
/// the block, or `None` where `syntect` reports an error.
#[verifier::external_body]
fn styled_pieces<'b>(
    state: &mut syntect::easy::HighlightLines<'_>,
    line: &'b str,
    set: &syntect::parsing::SyntaxSet,
) -> Option<Vec<(syntect::highlighting::Style, &'b str)>> {
    state.highlight_line(line, set).ok()
}

/// `syntect::util::as_24_bit_terminal_escaped` without background: the
/// pieces as one string with an escape sequence for the colour in front of
/// each.
#[verifier::external_body]
fn escaped(pieces: &Vec<(syntect::highlighting::Style, &str)>) -> String {
    syntect::util::as_24_bit_terminal_escaped(&pieces[..], false)
}

/// A code block ready to be printed.
pub struct HighlightedCode {
    /// The language tag of the block.
    pub language: String,
    /// One string for each line of the code, in order.
    pub lines: Vec<String>,
    /// Whether a syntax and a theme were found. When not, the lines are the
    /// lines of the code as they are.
    pub highlighted: bool,
}

/// Colours code for a terminal.
pub struct Highlighter {
    syntax_set: syntect::parsing::SyntaxSet,
    theme_set: syntect::highlighting::ThemeSet,
}

impl Highlighter {
    /// Whether the highlighter has the theme that code is coloured with.
    /// Without it nothing is coloured.
    pub closed spec fn has_theme(&self) -> bool {
        theme_names(self.theme_set).contains(theme_in_use())
    }

    /// Whether the highlighter has a syntax of this name.
    pub closed spec fn has_syntax(&self, name: Seq<char>) -> bool {
        syntax_names(self.syntax_set).contains(name)
    }

    /// A highlighter with the syntaxes and themes that ship with `syntect`,
    /// among them the theme that code is coloured with.
    pub fn new() -> (highlighter: Self)
        ensures
            highlighter.has_theme(),
    {
        Highlighter { syntax_set: load_syntaxes(), theme_set: load_themes() }
    }

    fn plain(language: &str, lines: &Vec<Vec<char>>) -> (block: HighlightedCode)
        ensures
            block.language@ == language@,
            !block.highlighted,
            string_views(block.lines@) == vec_views(lines@),
    {
        let mut out: Vec<String> = Vec::new();
        let mut i: usize = 0;
        while i < lines.len()
            invariant
                i <= lines.len(),
                string_views(out@) == vec_views(lines@).take(i as int),
            decreases lines.len() - i,
        {
            let s = string_of(&lines[i]);
            proof {
                let views = vec_views(lines@);
                assert(views.take(i + 1) =~= views.take(i as int).push(lines@[i as int]@));
                assert(string_views(out@.push(s)) =~= string_views(out@).push(s@));
            }
            out.push(s);
            i += 1;
        }
        proof {
            assert(vec_views(lines@).take(lines.len() as int) =~= vec_views(lines@));
        }
        HighlightedCode { language: language.to_owned(), lines: out, highlighted: false }
    }

    /// Colours a code block. The syntax is looked up by the language tag as a
    /// name, then as a file extension, then plain text is taken. Whatever
    /// happens, the result has one string for each line of the code; where
    /// no syntax or theme is found, or a line cannot be highlighted, the line
    /// is handed out as it is.
    pub fn highlight_code(&self, language: &str, code: &str) -> (block: HighlightedCode)
        ensures
            block.language@ == language@,
            block.lines@.len() == lines_of(code@).len(),
            !block.highlighted ==> string_views(block.lines@) == lines_of(code@),
            block.highlighted ==> self.has_theme(),
            self.has_theme() && (self.has_syntax(language@) || self.has_syntax(plain_text()))
                ==> block.highlighted,
    {
        let chars = chars_of(code);
        let lines = split_lines(&chars);
        let by_name = syntax_by_name(&self.syntax_set, language);
        let syntax = match by_name {
            Some(s) => Some(s),
            None => match syntax_by_extension(&self.syntax_set, language) {
                Some(s) => Some(s),
                None => syntax_by_name(&self.syntax_set, "Plain Text"),
            },
        };
        let theme = theme_by_name(&self.theme_set, "base16-ocean.dark");
        match (syntax, theme) {
            (Some(syntax), Some(theme)) => {
                let mut state = start_block(syntax, theme);
                let mut out: Vec<String> = Vec::new();
                let mut i: usize = 0;
                while i < lines.len()
                    invariant
                        i <= lines.len(),
                        out@.len() == i,
                    decreases lines.len() - i,
                {
                    let line = string_of(&lines[i]);
                    let shown = match styled_pieces(&mut state, line.as_str(), &self.syntax_set) {
                        Some(pieces) => escaped(&pieces),
                        None => line.clone(),
                    };
                    out.push(shown);
                    i += 1;
                }
                HighlightedCode { language: language.to_owned(), lines: out, highlighted: true }
            },
            _ => Highlighter::plain(language, &lines),
        }
    }
}

} // verus!
