use vstd::prelude::*;
use crate::error::PtyError;
use crate::geometry::{default_shell, initial_size, shell_for, TermSize};
use crate::session::{SessionMaster, SessionWriter};
use crate::transport::PtyBackend;

verus! {

/// One request made of the backend while a session is brought up, with
/// the backend's answer.
pub enum LaunchCall {
    /// A pseudo-terminal pair was asked for at this geometry.
    OpenPair(TermSize, Result<(), String>),
    /// This program was asked to start on the pair's slave side.
    SpawnShell(String, Result<(), String>),
    /// A read handle was asked of the master side.
    CloneReader(Result<(), String>),
    /// The write handle was asked of the master side.
    TakeWriter(Result<(), String>),
}

/// The backend's answer to a call, without what it handed back.
pub open spec fn answer<T>(r: Result<T, String>) -> Result<(), String> {
    match r {
        Ok(_) => Ok(()),
        Err(m) => Err(m),
    }
}

/// The answer recorded for a call.
pub open spec fn answer_of(c: LaunchCall) -> Result<(), String> {
    match c {
        LaunchCall::OpenPair(_, a) => a,
        LaunchCall::SpawnShell(_, a) => a,
        LaunchCall::CloneReader(a) => a,
        LaunchCall::TakeWriter(a) => a,
    }
}

/// Whether `calls` records one creation: the pair opened at 24 by 80, then
/// the platform's shell started, then the read handle and the write handle
/// taken; each step made only when all before it succeeded, and the record
/// ends at the first failure.
pub open spec fn is_creation_record(calls: Seq<LaunchCall>, windows: bool) -> bool {
    &&& 1 <= calls.len() <= 4
    &&& calls[0] is OpenPair
    &&& calls[0]->OpenPair_0.rows == 24
    &&& calls[0]->OpenPair_0.cols == 80
    &&& calls.len() > 1 ==> calls[1] is SpawnShell && calls[1]->SpawnShell_0@ == shell_for(windows)
    &&& calls.len() > 2 ==> calls[2] is CloneReader
    &&& calls.len() > 3 ==> calls[3] is TakeWriter
    &&& forall|i: int| 0 <= i < calls.len() - 1 ==> answer_of(#[trigger] calls[i]) is Ok
    &&& calls.len() < 4 ==> answer_of(calls.last()) is Err
}

/// The error a creation record ends in, if it ends in one: the failure of
/// the pair is `PtyOpen`, of the shell `Spawn`, of either handle `Handle`,
/// each with the backend's description.
pub open spec fn creation_error(calls: Seq<LaunchCall>) -> Option<PtyError> {
    match answer_of(calls.last()) {
        Ok(()) => None,
        Err(m) => Some(
            match calls.last() {
                LaunchCall::OpenPair(_, _) => PtyError::PtyOpen(m),
                LaunchCall::SpawnShell(_, _) => PtyError::Spawn(m),
                _ => PtyError::Handle(m),
            },
        ),
    }
}

/// The handles of a session that has just been brought up.
pub struct OpenedSession<M, W, R> {
    /// The master side, kept for resizing.
    pub master: SessionMaster<M>,
    /// The write endpoint.
    pub writer: SessionWriter<W>,
    /// The read handle that drains the session's output.
    pub reader: R,
}

/// Brings sessions up through a backend, keeping the record of every
/// request made of it.
pub struct Launcher<B> {
    backend: B,
    calls: Ghost<Seq<LaunchCall>>,
}

impl<B: PtyBackend> Launcher<B> {
    /// The requests made of the backend, oldest first.
    pub closed spec fn calls(&self) -> Seq<LaunchCall> {
        self.calls@
    }

    /// Takes charge of a backend of which nothing has been requested yet.
    pub fn new(backend: B) -> (r: Self)
        ensures
            r.calls() == Seq::<LaunchCall>::empty(),
    {
        Launcher { backend, calls: Ghost(Seq::empty()) }
    }

    /// The backend itself.
    pub fn backend(&self) -> &B {
        &self.backend
    }

    /// Brings a session up: opens a pseudo-terminal pair at the initial
    /// geometry, starts the platform's default shell on its slave side, and
    /// takes a read handle and the write handle from its master side.
    ///
    /// Each step runs only if the previous ones succeeded, and the first that
    /// fails decides the error. The new requests form one creation record;
    /// the session is returned exactly when every step succeeded, with
    /// nothing yet written to or requested of it. Whatever was opened before
    /// a failure is released on return.
    pub fn open_session(&mut self, windows: bool) -> (r: Result<
        OpenedSession<B::Master, B::Writer, B::Reader>,
        PtyError,
    >)
        ensures
            final(self).calls().take(old(self).calls().len() as int) == old(self).calls(),
            is_creation_record(final(self).calls().skip(old(self).calls().len() as int), windows),
            r is Ok <==> creation_error(
                final(self).calls().skip(old(self).calls().len() as int),
            ) is None,
            r is Err ==> creation_error(
                final(self).calls().skip(old(self).calls().len() as int),
            ) == Some(r->Err_0),
            r is Ok ==> r->Ok_0.master.requests() == Seq::<(TermSize, Result<(), String>)>::empty(),
            r is Ok ==> r->Ok_0.writer.attempts() == Seq::<(Seq<char>, Result<(), String>)>::empty(),
    {
        let ghost before = self.calls@;
        let size = initial_size();
        let opened = self.backend.open_pair(size);
        self.calls = Ghost(self.calls@.push(LaunchCall::OpenPair(size, answer(opened))));
        assert(self.calls@.skip(before.len() as int) =~= seq![LaunchCall::OpenPair(size, answer(opened))]);
        let (master, slave) = match opened {
            Ok(pair) => pair,
            Err(m) => return Err(PtyError::PtyOpen(m)),
        };
        let shell = default_shell(windows);
        let spawned = self.backend.spawn_shell(&slave, shell.as_str());
        let ghost c1 = LaunchCall::SpawnShell(shell, spawned);
        self.calls = Ghost(self.calls@.push(c1));
        assert(self.calls@.skip(before.len() as int) =~= seq![LaunchCall::OpenPair(size, Ok(())), c1]);
        match spawned {
            Ok(()) => {},
            Err(m) => return Err(PtyError::Spawn(m)),
        }
        let reader = self.backend.clone_reader(&master);
        let ghost c2 = LaunchCall::CloneReader(answer(reader));
        self.calls = Ghost(self.calls@.push(c2));
        assert(self.calls@.skip(before.len() as int) =~= seq![LaunchCall::OpenPair(size, Ok(())), c1, c2]);
        let reader = match reader {
            Ok(h) => h,
            Err(m) => return Err(PtyError::Handle(m)),
        };
        let writer = self.backend.take_writer(&master);
        let ghost c3 = LaunchCall::TakeWriter(answer(writer));
        self.calls = Ghost(self.calls@.push(c3));
        assert(self.calls@.skip(before.len() as int) =~= seq![LaunchCall::OpenPair(size, Ok(())), c1, c2, c3]);
        let writer = match writer {
            Ok(h) => h,
            Err(m) => return Err(PtyError::Handle(m)),
        };
        Ok(OpenedSession {
            master: SessionMaster::new(master),
            writer: SessionWriter::new(writer),
            reader,
        })
    }
}

} // verus!
