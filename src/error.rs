use vstd::prelude::*;

verus! {

/// Failures reported by the session's command surface.
///
/// Each carries the textual description of the underlying cause.
/// The first three arise while a session is being created, the last two
/// while it is in use.
#[derive(Debug, PartialEq, Eq)]
pub enum PtyError {
    /// The system could not allocate a pseudo-terminal pair.
    PtyOpen(String),
    /// The shell could not be launched on the terminal's slave side.
    Spawn(String),
    /// A read or write handle could not be obtained from the master side.
    Handle(String),
    /// Writing to the terminal failed.
    Write(String),
    /// Resizing the terminal failed.
    Resize(String),
}

impl PtyError {
    /// The description carried by an error.
    pub open spec fn description(&self) -> Seq<char> {
        match self {
            PtyError::PtyOpen(m) => m@,
            PtyError::Spawn(m) => m@,
            PtyError::Handle(m) => m@,
            PtyError::Write(m) => m@,
            PtyError::Resize(m) => m@,
        }
    }

    /// Whether the error belongs to session creation.
    pub open spec fn is_creation_error(&self) -> bool {
        self is PtyOpen || self is Spawn || self is Handle
    }

    /// The textual description returned to the caller.
    pub fn message(&self) -> (r: String)
        ensures
            r@ == self.description(),
    {
        match self {
            PtyError::PtyOpen(m) => m.clone(),
            PtyError::Spawn(m) => m.clone(),
            PtyError::Handle(m) => m.clone(),
            PtyError::Write(m) => m.clone(),
            PtyError::Resize(m) => m.clone(),
        }
    }
}

} // verus!
