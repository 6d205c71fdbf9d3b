//! The values and decisions that the host's loading and update loop works with.
use vstd::prelude::*;
use crate::scope::ScopeData;
use crate::value::Literal;

verus! {

/// Asks for the components of the script with this identifier.
pub struct ScriptBundle(pub String);

impl ScriptBundle {
    pub fn new(id: &str) -> (r: Self)
        ensures
            r.0@ == id@,
    {
        ScriptBundle(id.to_owned())
    }
}

/// A request to load the script file at a path.
pub struct LoadScript {
    path: String,
}

impl LoadScript {
    /// The requested path.
    pub closed spec fn location(&self) -> Seq<char> {
        self.path@
    }

    pub fn new(path: &str) -> (r: Self)
        ensures
            r.location() == path@,
    {
        LoadScript { path: path.to_owned() }
    }

    pub fn path(&self) -> (r: &String)
        ensures
            r@ == self.location(),
    {
        &self.path
    }
}

/// Announces that every requested script has been loaded and handed out.
pub struct ScriptsReady;

/// Whether script files are still being loaded.
#[derive(Clone, Copy, Debug, PartialEq, Eq, Hash, Structural)]
pub enum ScriptState {
    Loading,
    Ready,
}

impl ScriptState {
    /// The state after a pass that hands loaded scripts out, where
    /// `all_loaded` says that no waiting script still lacks its data; the
    /// flag says whether to announce `ScriptsReady`.
    pub fn after_spawn(self, all_loaded: bool) -> (r: (ScriptState, bool))
        ensures
            r == (if all_loaded && self == ScriptState::Loading {
                (ScriptState::Ready, true)
            } else {
                (self, false)
            }),
    {
        if all_loaded && self == ScriptState::Loading {
            (ScriptState::Ready, true)
        } else {
            (self, false)
        }
    }
}

impl ScopeData {
    /// The value to write into a derived quantity whose current value is
    /// `current` (`None` when it has none): the scope's numeric result when it
    /// has one that differs from `current`, else nothing.
    pub fn value_update(&self, current: Option<i64>) -> (r: Option<i64>)
        requires
            self.wf(),
        ensures
            r == (match self.outcome() {
                Some(Ok(Literal::Number(n))) => if current == Some(n) {
                    None
                } else {
                    Some(n)
                },
                _ => None,
            }),
    {
        match self.run() {
            Some(Ok(crate::value::StaticExpr::Number(n))) => {
                if current == Some(n) {
                    None
                } else {
                    Some(n)
                }
            },
            _ => None,
        }
    }
}

} // verus!
