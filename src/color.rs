//! The color policy, and the decisions that follow from it.
use vstd::prelude::*;
use crate::text::text_eq;

verus! {

/// Whether output is colored: always, never, or when a terminal receives it.
#[derive(Clone, Copy, Debug, PartialEq, Eq, Structural)]
pub enum Coloring {
    Auto,
    Always,
    Never,
}

/// The name of each policy, as the command line and the configuration write it.
pub open spec fn coloring_name(c: Coloring) -> Seq<char> {
    match c {
        Coloring::Auto => "auto"@,
        Coloring::Always => "always"@,
        Coloring::Never => "never"@,
    }
}

/// The policy a name stands for, if any.
pub open spec fn coloring_named(s: Seq<char>) -> Option<Coloring> {
    if s == "auto"@ {
        Some(Coloring::Auto)
    } else if s == "always"@ {
        Some(Coloring::Always)
    } else if s == "never"@ {
        Some(Coloring::Never)
    } else {
        None
    }
}

/// The policy in force: an explicit choice, else a valid configured one, else
/// `Auto`.
pub open spec fn resolved_coloring(explicit: Option<Coloring>, configured: Option<Seq<char>>) -> Coloring {
    match explicit {
        Some(c) => c,
        None => match configured {
            Some(s) => match coloring_named(s) {
                Some(c) => c,
                None => Coloring::Auto,
            },
            None => Coloring::Auto,
        },
    }
}

/// The theme that turns highlighting off.
pub open spec fn no_theme() -> Seq<char> {
    "none"@
}

/// Whether output is highlighted: always under `Always`, never under `Never`,
/// and under `Auto` when the theme is not the one that turns it off and
/// standard output is a terminal.
pub open spec fn colors_output(color: Coloring, theme: Option<Seq<char>>, stdout_is_terminal: bool) -> bool {
    match color {
        Coloring::Always => true,
        Coloring::Never => false,
        Coloring::Auto => theme != Some(no_theme()) && stdout_is_terminal,
    }
}

impl Coloring {
    /// The name of this policy.
    pub fn as_str(&self) -> (r: &'static str)
        ensures
            r@ == coloring_name(*self),
    {
        match self {
            Coloring::Auto => "auto",
            Coloring::Always => "always",
            Coloring::Never => "never",
        }
    }

    /// The policy that `s` names, or `None` where it names none.
    pub fn parse(s: &str) -> (r: Option<Coloring>)
        ensures
            r == coloring_named(s@),
    {
        if text_eq(s, "auto") {
            Some(Coloring::Auto)
        } else if text_eq(s, "always") {
            Some(Coloring::Always)
        } else if text_eq(s, "never") {
            Some(Coloring::Never)
        } else {
            None
        }
    }
}

/// The color policy of a run, from the command line's choice and the
/// configured value; the flag is set when the configured value named no
/// policy and was passed over.
pub fn get_color(explicit: Option<Coloring>, configured: Option<&str>) -> (r: (Coloring, bool))
    ensures
        r.0 == resolved_coloring(explicit, match configured {
            Some(s) => Some(s@),
            None => None,
        }),
        r.1 == (explicit is None && configured is Some && coloring_named(configured->0@) is None),
{
    if let Some(c) = explicit {
        return (c, false);
    }
    if let Some(s) = configured {
        match Coloring::parse(s) {
            Some(c) => return (c, false),
            None => return (Coloring::Auto, true),
        }
    }
    (Coloring::Auto, false)
}

/// Whether the text is shown through the highlighter rather than as it is.
pub fn use_color(color: Coloring, theme: Option<&str>, stdout_is_terminal: bool) -> (r: bool)
    ensures
        r == colors_output(color, match theme {
            Some(t) => Some(t@),
            None => None,
        }, stdout_is_terminal),
{
    match color {
        Coloring::Always => true,
        Coloring::Never => false,
        Coloring::Auto => {
            let none_theme = match theme {
                Some(t) => text_eq(t, "none"),
                None => false,
            };
            !none_theme && stdout_is_terminal
        },
    }
}

/// The theme in force: the command line's, else the configured one.
pub fn resolve_theme(explicit: Option<String>, configured: Option<String>) -> (r: Option<String>)
    ensures
        r == (if explicit is Some { explicit } else { configured }),
{
    match explicit {
        Some(t) => Some(t),
        None => configured,
    }
}

} // verus!
