use vstd::prelude::*;
use crate::geometry::TermSize;

verus! {

/// The master side of an open pseudo-terminal, as far as a live session
/// uses it after creation.
pub trait PtyMaster {
    /// Asks the system to change the terminal's geometry; pixel
    /// dimensions are passed as zero. The error is the system's description.
    fn resize(&mut self, size: TermSize) -> Result<(), String>;
}

/// The write endpoint into a pseudo-terminal's master side.
pub trait PtyWriter {
    /// Writes the bytes of `data` verbatim. The error is the system's
    /// description.
    fn write_text(&mut self, data: &str) -> Result<(), String>;
}

/// What the system offers to bring a session up: a pseudo-terminal pair,
/// a shell attached to its slave side, and the two handles taken from its
/// master side.
pub trait PtyBackend {
    type Master: PtyMaster;
    type Slave;
    type Reader;
    type Writer: PtyWriter;

    /// Opens a master/slave pair at the given geometry.
    fn open_pair(&self, size: TermSize) -> Result<(Self::Master, Self::Slave), String>;

    /// Launches `program` attached to the slave side. The child is not
    /// retained.
    fn spawn_shell(&self, slave: &Self::Slave, program: &str) -> Result<(), String>;

    /// Obtains an independent read handle on the master side's output.
    fn clone_reader(&self, master: &Self::Master) -> Result<Self::Reader, String>;

    /// Obtains the write handle of the master side.
    fn take_writer(&self, master: &Self::Master) -> Result<Self::Writer, String>;
}

} // verus!
