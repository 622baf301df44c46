//! Preferences: the colours the renderer uses and the operating options, and
//! how a user's partial settings override the defaults.

use vstd::prelude::*;

use crate::app::Mode;
use ratatui::style::Color;

verus! {

/// ratatui's terminal colour, carried through unchanged for the renderer.
#[verifier::external_type_specification]
#[verifier::external_body]
pub struct ExColor(Color);

/// The operating options.
#[derive(Clone, Copy, Debug)]
pub struct Operation {
    pub starting_mode: Mode,
    pub allow_colon_in_search: bool,
}

/// Operating options as a user's file may give them, each one optional.
#[derive(Clone, Copy, Debug)]
pub struct OperationUser {
    pub starting_mode: Option<Mode>,
    pub allow_colon_in_search: Option<bool>,
}

/// The colour of each mode and of plain text.
#[derive(Debug)]
pub struct Colours {
    pub normal: Color,
    pub info: Color,
    pub search: Color,
    pub command: Color,
    pub display: Color,
    pub text: Color,
}

/// Colours as a user's file may give them, each one optional.
#[derive(Debug)]
pub struct ColoursUser {
    pub normal: Option<Color>,
    pub info: Option<Color>,
    pub search: Option<Color>,
    pub command: Option<Color>,
    pub display: Option<Color>,
    pub text: Option<Color>,
}

/// The complete configuration.
#[derive(Debug)]
pub struct ConfigToml {
    pub colours: Colours,
    pub operation: Operation,
}

/// A user's partial configuration.
#[derive(Debug)]
pub struct ConfigTomlUser {
    pub colours: Option<ColoursUser>,
    pub operation: Option<OperationUser>,
}

/// `given` where the user gave a value, else `default`.
pub open spec fn overridden<T>(default: T, given: Option<T>) -> T {
    match given {
        Some(v) => v,
        None => default,
    }
}

fn pick<T>(default: T, given: Option<T>) -> (r: T)
    ensures
        r == overridden(default, given),
{
    match given {
        Some(v) => v,
        None => default,
    }
}

impl Operation {
    /// These options with each one that `user` gives put in its place.
    pub fn with_user(self, user: OperationUser) -> (r: Operation)
        ensures
            r.starting_mode == overridden(self.starting_mode, user.starting_mode),
            r.allow_colon_in_search == overridden(
                self.allow_colon_in_search,
                user.allow_colon_in_search,
            ),
    {
        Operation {
            starting_mode: pick(self.starting_mode, user.starting_mode),
            allow_colon_in_search: pick(self.allow_colon_in_search, user.allow_colon_in_search),
        }
    }
}

impl Colours {
    /// These colours with each one that `user` gives put in its place.
    pub fn with_user(self, user: ColoursUser) -> (r: Colours)
        ensures
            r.normal == overridden(self.normal, user.normal),
            r.info == overridden(self.info, user.info),
            r.search == overridden(self.search, user.search),
            r.command == overridden(self.command, user.command),
            r.display == overridden(self.display, user.display),
            r.text == overridden(self.text, user.text),
    {
        Colours {
            normal: pick(self.normal, user.normal),
            info: pick(self.info, user.info),
            search: pick(self.search, user.search),
            command: pick(self.command, user.command),
            display: pick(self.display, user.display),
            text: pick(self.text, user.text),
        }
    }
}

impl ConfigToml {
    /// This configuration with every setting that `user` gives put in place of
    /// the default; settings the user left out keep their default.
    pub fn with_user(self, user: ConfigTomlUser) -> (r: ConfigToml)
        ensures
            user.colours is None ==> r.colours == self.colours,
            user.colours matches Some(c) ==> (r.colours == Colours {
                normal: overridden(self.colours.normal, c.normal),
                info: overridden(self.colours.info, c.info),
                search: overridden(self.colours.search, c.search),
                command: overridden(self.colours.command, c.command),
                display: overridden(self.colours.display, c.display),
                text: overridden(self.colours.text, c.text),
            }),
            user.operation is None ==> r.operation == self.operation,
            user.operation matches Some(o) ==> (r.operation == Operation {
                starting_mode: overridden(self.operation.starting_mode, o.starting_mode),
                allow_colon_in_search: overridden(
                    self.operation.allow_colon_in_search,
                    o.allow_colon_in_search,
                ),
            }),
    {
        let colours = match user.colours {
            Some(c) => self.colours.with_user(c),
            None => self.colours,
        };
        let operation = match user.operation {
            Some(o) => self.operation.with_user(o),
            None => self.operation,
        };
        ConfigToml { colours, operation }
    }
}

} // verus!
