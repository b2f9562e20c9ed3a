use vstd::prelude::*;
use crate::error::PtyError;
use crate::geometry::TermSize;
use crate::transport::{PtyMaster, PtyWriter};

verus! {

/// What happened to a command issued against the session slots.
#[derive(Clone, Copy, Debug, PartialEq, Eq, Structural)]
pub enum Delivery {
    /// No session was installed: nothing was handed to the system.
    NoSession,
    /// The command was handed to the installed session and succeeded.
    Delivered,
}

/// The result a write reports, given the system's answer to it.
pub open spec fn write_result(answer: Result<(), String>) -> Result<Delivery, PtyError> {
    match answer {
        Ok(()) => Ok(Delivery::Delivered),
        Err(m) => Err(PtyError::Write(m)),
    }
}

/// The result a resize reports, given the system's answer to it.
pub open spec fn resize_result(answer: Result<(), String>) -> Result<Delivery, PtyError> {
    match answer {
        Ok(()) => Ok(Delivery::Delivered),
        Err(m) => Err(PtyError::Resize(m)),
    }
}

/// The result of a write once the system has answered.
pub fn write_outcome(os: Result<(), String>) -> (r: Result<Delivery, PtyError>)
    ensures
        r == write_result(os),
{
    match os {
        Ok(()) => Ok(Delivery::Delivered),
        Err(m) => Err(PtyError::Write(m)),
    }
}

/// The result of a resize once the system has answered.
pub fn resize_outcome(os: Result<(), String>) -> (r: Result<Delivery, PtyError>)
    ensures
        r == resize_result(os),
{
    match os {
        Ok(()) => Ok(Delivery::Delivered),
        Err(m) => Err(PtyError::Resize(m)),
    }
}

/// A session's write endpoint, together with the record of every payload
/// handed to it and the system's answer to each.
pub struct SessionWriter<W> {
    handle: W,
    attempts: Ghost<Seq<(Seq<char>, Result<(), String>)>>,
}

impl<W: PtyWriter> SessionWriter<W> {
    /// The payloads handed to the endpoint, oldest first, each with the
    /// system's answer.
    pub closed spec fn attempts(&self) -> Seq<(Seq<char>, Result<(), String>)> {
        self.attempts@
    }

    /// Takes charge of a write endpoint to which nothing has been handed yet.
    pub fn new(handle: W) -> (r: Self)
        ensures
            r.attempts() == Seq::<(Seq<char>, Result<(), String>)>::empty(),
    {
        SessionWriter { handle, attempts: Ghost(Seq::empty()) }
    }

    /// The endpoint itself.
    pub fn handle(&self) -> &W {
        &self.handle
    }

    /// Hands `data` to the endpoint once, unchanged, and reports the
    /// system's answer: `Delivered` when it succeeded, a `Write` error with
    /// the system's description when it failed. Nothing is retried.
    pub fn write(&mut self, data: &str) -> (r: Result<Delivery, PtyError>)
        ensures
            final(self).attempts() == old(self).attempts().push(
                (data@, final(self).attempts().last().1),
            ),
            r == write_result(final(self).attempts().last().1),
    {
        let answer = self.handle.write_text(data);
        self.attempts = Ghost(self.attempts@.push((data@, answer)));
        write_outcome(answer)
    }
}

/// A session's master side, together with the record of every geometry
/// requested of it and the system's answer to each.
pub struct SessionMaster<M> {
    handle: M,
    requests: Ghost<Seq<(TermSize, Result<(), String>)>>,
}

impl<M: PtyMaster> SessionMaster<M> {
    /// The geometries requested of the master side, oldest first, each with
    /// the system's answer.
    pub closed spec fn requests(&self) -> Seq<(TermSize, Result<(), String>)> {
        self.requests@
    }

    /// Takes charge of a master side of which nothing has been requested yet.
    pub fn new(handle: M) -> (r: Self)
        ensures
            r.requests() == Seq::<(TermSize, Result<(), String>)>::empty(),
    {
        SessionMaster { handle, requests: Ghost(Seq::empty()) }
    }

    /// The master side itself.
    pub fn handle(&self) -> &M {
        &self.handle
    }

    /// Requests `rows` by `cols` of the master side once and reports the
    /// system's answer: `Delivered` when it succeeded, a `Resize` error with
    /// the system's description when it failed. Nothing is retried.
    pub fn resize(&mut self, rows: u16, cols: u16) -> (r: Result<Delivery, PtyError>)
        ensures
            final(self).requests() == old(self).requests().push(
                (TermSize { rows, cols }, final(self).requests().last().1),
            ),
            r == resize_result(final(self).requests().last().1),
    {
        let size = TermSize { rows, cols };
        let answer = self.handle.resize(size);
        self.requests = Ghost(self.requests@.push((size, answer)));
        resize_outcome(answer)
    }
}

/// Writes `data` into the installed session, if there is one.
///
/// With no writer installed the write is dropped and nothing is handed to
/// the system. Otherwise the installed writer receives `data` once,
/// unchanged, the result follows its answer, and it stays installed.
pub fn write_to_pty<W: PtyWriter>(writer: &mut Option<SessionWriter<W>>, data: &str) -> (r: Result<
    Delivery,
    PtyError,
>)
    ensures
        *old(writer) is None <==> r == Ok::<Delivery, PtyError>(Delivery::NoSession),
        *old(writer) is None ==> *final(writer) == *old(writer),
        *old(writer) is Some ==> *final(writer) is Some,
        *old(writer) is Some ==> (*final(writer))->Some_0.attempts() == (
        *old(writer))->Some_0.attempts().push(
            (data@, (*final(writer))->Some_0.attempts().last().1),
        ),
        *old(writer) is Some ==> r == write_result(
            (*final(writer))->Some_0.attempts().last().1,
        ),
{
    match writer {
        None => Ok(Delivery::NoSession),
        Some(w) => w.write(data),
    }
}

/// Resizes the installed session to `rows` by `cols`, if there is one.
///
/// With no master installed nothing is handed to the system. Otherwise the
/// installed master receives one request for `rows` by `cols`, the result
/// follows its answer, and it stays installed.
pub fn resize_pty<M: PtyMaster>(master: &mut Option<SessionMaster<M>>, rows: u16, cols: u16) -> (r:
    Result<Delivery, PtyError>)
    ensures
        *old(master) is None <==> r == Ok::<Delivery, PtyError>(Delivery::NoSession),
        *old(master) is None ==> *final(master) == *old(master),
        *old(master) is Some ==> *final(master) is Some,
        *old(master) is Some ==> (*final(master))->Some_0.requests() == (
        *old(master))->Some_0.requests().push(
            (TermSize { rows, cols }, (*final(master))->Some_0.requests().last().1),
        ),
        *old(master) is Some ==> r == resize_result(
            (*final(master))->Some_0.requests().last().1,
        ),
{
    match master {
        None => Ok(Delivery::NoSession),
        Some(m) => m.resize(rows, cols),
    }
}

/// Installs a new session's master and writer together, replacing
/// whatever session was installed before. Both slots are filled by the same
/// call, so they are either both set or left as they were.
pub fn install<M, W>(master: &mut Option<M>, writer: &mut Option<W>, new_master: M, new_writer: W)
    ensures
        *final(master) == Some(new_master),
        *final(writer) == Some(new_writer),
{
    *master = Some(new_master);
    *writer = Some(new_writer);
}

} // verus!
