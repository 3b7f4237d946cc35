//! The Godot filesystem URL schemes served to the browser.

use vstd::prelude::*;

verus! {

/// Represents the Godot filesystem scheme type.
#[derive(Clone, Copy, Debug, PartialEq, Eq, Structural)]
pub enum GodotScheme {
    /// Access resources from Godot's packed resource system (`res://`)
    Res,
    /// Access files from Godot's user data directory (`user://`)
    User,
}

pub open spec fn scheme_prefix(s: GodotScheme) -> Seq<char> {
    match s {
        GodotScheme::Res => "res://"@,
        GodotScheme::User => "user://"@,
    }
}

pub open spec fn scheme_short_prefix(s: GodotScheme) -> Seq<char> {
    match s {
        GodotScheme::Res => "res:"@,
        GodotScheme::User => "user:"@,
    }
}

pub open spec fn scheme_name(s: GodotScheme) -> Seq<char> {
    match s {
        GodotScheme::Res => "res"@,
        GodotScheme::User => "user"@,
    }
}

impl GodotScheme {
    /// The full URL prefix, `res://` or `user://`.
    pub fn prefix(&self) -> (r: &'static str)
        ensures
            r@ == scheme_prefix(*self),
    {
        match self {
            GodotScheme::Res => "res://",
            GodotScheme::User => "user://",
        }
    }

    /// The prefix without slashes, `res:` or `user:`.
    pub fn short_prefix(&self) -> (r: &'static str)
        ensures
            r@ == scheme_short_prefix(*self),
    {
        match self {
            GodotScheme::Res => "res:",
            GodotScheme::User => "user:",
        }
    }

    /// The scheme name under which the handler is registered.
    pub fn name(&self) -> (r: &'static str)
        ensures
            r@ == scheme_name(*self),
    {
        match self {
            GodotScheme::Res => "res",
            GodotScheme::User => "user",
        }
    }
}

} // verus!
