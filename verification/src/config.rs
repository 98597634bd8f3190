//! What the program is started with.

use vstd::prelude::*;

verus! {

/// The settings of one run.
#[derive(Clone, PartialEq, Eq, Debug)]
pub struct Config {
    /// Identity of the watcher to send to; 0 to be a watcher.
    pub steam_id: u64,
    /// Path of the holder's own cursor picture; empty for none.
    pub cursor_path: String,
    /// Path of the holder's own tracks; empty for none.
    pub animation_json_path: String,
}

/// A path in which shell expansion finds nothing to do: it holds no `$` and
/// does not begin with `~`.
pub open spec fn is_plain(path: Seq<char>) -> bool {
    &&& !path.contains('$')
    &&& path.len() == 0 || path[0] != '~'
}

/// Calls `shellexpand::full`, which replaces a leading `~` by the home
/// directory and `$NAME` by the variable of that name, and fails on a
/// variable that cannot be looked up. The outcome depends on the environment;
/// the contract claims only that a string without `$` does not fail, and that
/// one that does not begin with `~` either comes back as it is.
#[verifier::external_body]
fn expand(path: &str) -> (expanded: Option<String>)
    ensures
        !path@.contains('$') ==> expanded is Some,
        is_plain(path@) ==> expanded is Some && expanded->0@ == path@,
{
    match shellexpand::full(path) {
        Ok(text) => Some(text.into_owned()),
        Err(_) => None,
    }
}

impl Config {
    /// The settings with both paths as expanded, or `None` where an
    /// expansion failed.
    pub fn from_expanded(
        steam_id: u64,
        cursor_path: Option<String>,
        animation_json_path: Option<String>,
    ) -> (config: Option<Config>)
        ensures
            config is Some <==> cursor_path is Some && animation_json_path is Some,
            config matches Some(c) ==> c.steam_id == steam_id && Some(c.cursor_path) == cursor_path
                && Some(c.animation_json_path) == animation_json_path,
    {
        match (cursor_path, animation_json_path) {
            (Some(cursor_path), Some(animation_json_path)) => Some(
                Config { steam_id, cursor_path, animation_json_path },
            ),
            _ => None,
        }
    }

    /// The settings with both paths expanded as a shell would, or `None`
    /// where a path names a variable that cannot be looked up. Paths without
    /// `$` never fail, and of those the ones that do not begin with `~` are
    /// kept as they are.
    pub fn new(steam_id: u64, cursor_path: &str, animation_json_path: &str) -> (config: Option<Config>)
        ensures
            !cursor_path@.contains('$') && !animation_json_path@.contains('$') ==> config is Some,
            config matches Some(c) ==> {
                &&& c.steam_id == steam_id
                &&& is_plain(cursor_path@) ==> c.cursor_path@ == cursor_path@
                &&& is_plain(animation_json_path@) ==> c.animation_json_path@ == animation_json_path@
            },
    {
        Config::from_expanded(steam_id, expand(cursor_path), expand(animation_json_path))
    }

    /// Whether this run is a watcher.
    pub fn is_server(&self) -> (watcher: bool)
        ensures
            watcher <==> self.steam_id == 0,
    {
        self.steam_id == 0
    }

    /// Whether the holder brings a cursor picture of its own.
    pub fn has_cursor(&self) -> (given: bool)
        ensures
            given <==> self.cursor_path@.len() > 0,
    {
        !self.cursor_path.as_str().is_empty()
    }

    /// Whether the holder brings tracks of its own.
    pub fn has_animations(&self) -> (given: bool)
        ensures
            given <==> self.animation_json_path@.len() > 0,
    {
        !self.animation_json_path.as_str().is_empty()
    }
}

} // verus!
