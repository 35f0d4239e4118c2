//! The title that greets the user.

use vstd::prelude::*;

verus! {

/// What `figlet_rs` draws for a message in its standard font; `None` where
/// the font cannot be had or the message cannot be drawn.
pub uninterp spec fn banner_text(message: Seq<char>) -> Option<Seq<char>>;

/// `FIGlet::standard()` and `FIGlet::convert`: the message in large letters,
/// as the string form of the figure.
#[verifier::external_body]
fn figlet_banner(message: &str) -> (banner: Option<String>)
    ensures
        match banner {
            Some(b) => banner_text(message@) == Some(b@),
            None => banner_text(message@) is None,
        },
{
    match figlet_rs::FIGlet::standard() {
        Ok(font) => match font.convert(message) {
            Some(figure) => Some(figure.to_string()),
            None => None,
        },
        Err(_) => None,
    }
}

/// The name that the splash screen shows.
pub open spec fn title() -> Seq<char> {
    "RICCI CLI"@
}

/// The title of the splash screen in large letters, if it can be drawn.
pub fn display_splash() -> (banner: Option<String>)
    ensures
        match banner {
            Some(b) => banner_text(title()) == Some(b@),
            None => banner_text(title()) is None,
        },
{
    figlet_banner("RICCI CLI")
}

/// The line that stands for the splash screen where the screen was just
/// cleared.
pub open spec fn mini_splash() -> Seq<char> {
    "RICCI CLI - AI Development Assistant"@
}

/// The line that stands for the splash screen where the screen was just
/// cleared.
pub fn display_mini_splash() -> (line: &'static str)
    ensures
        line@ == mini_splash(),
{
    "RICCI CLI - AI Development Assistant"
}

} // verus!
