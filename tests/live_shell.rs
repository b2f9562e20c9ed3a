use portable_pty::{CommandBuilder, MasterPty, NativePtySystem, PtySize, PtySystem, SlavePty};
use pty_session::{
    after_read, install, resize_pty, write_to_pty, Delivery, PtyBackend, PtyMaster,
    PtyWriter, ReadStep, TermSize, Launcher, READ_CHUNK_LEN,
};
use std::io::{Read, Write};

struct Master(Box<dyn MasterPty + Send>);
struct Writer(Box<dyn Write + Send>);

impl PtyMaster for Master {
    fn resize(&mut self, size: TermSize) -> Result<(), String> {
        let size = PtySize { rows: size.rows, cols: size.cols, pixel_width: 0, pixel_height: 0 };
        self.0.resize(size).map_err(|e| e.to_string())
    }
}

impl PtyWriter for Writer {
    fn write_text(&mut self, data: &str) -> Result<(), String> {
        self.0.write_all(data.as_bytes()).and_then(|_| self.0.flush()).map_err(|e| e.to_string())
    }
}

struct Native;

impl PtyBackend for Native {
    type Master = Master;
    type Slave = Box<dyn SlavePty + Send>;
    type Reader = Box<dyn Read + Send>;
    type Writer = Writer;

    fn open_pair(&self, size: TermSize) -> Result<(Master, Self::Slave), String> {
        let size = PtySize { rows: size.rows, cols: size.cols, pixel_width: 0, pixel_height: 0 };
        let pair = NativePtySystem::default().openpty(size).map_err(|e| e.to_string())?;
        Ok((Master(pair.master), pair.slave))
    }

    fn spawn_shell(&self, slave: &Self::Slave, program: &str) -> Result<(), String> {
        slave.spawn_command(CommandBuilder::new(program)).map(|_| ()).map_err(|e| e.to_string())
    }

    fn clone_reader(&self, master: &Master) -> Result<Self::Reader, String> {
        master.0.try_clone_reader().map_err(|e| e.to_string())
    }

    fn take_writer(&self, master: &Master) -> Result<Writer, String> {
        master.0.take_writer().map(Writer).map_err(|e| e.to_string())
    }
}

#[test]
fn echo_through_a_live_shell_comes_back() {
    let opened = Launcher::new(Native).open_session(false).ok().unwrap();
    let mut reader = opened.reader;
    let mut master = None;
    let mut writer = None;
    install(&mut master, &mut writer, opened.master, opened.writer);
    assert_eq!(resize_pty(&mut master, 30, 100), Ok(Delivery::Delivered));
    assert_eq!(write_to_pty(&mut writer, "echo hi\n"), Ok(Delivery::Delivered));
    let mut seen = String::new();
    let mut buf = [0u8; READ_CHUNK_LEN];
    while !seen.contains("hi") {
        let read = reader.read(&mut buf).ok();
        match after_read(&buf, read) {
            ReadStep::Emit(text) => seen.push_str(&text),
            ReadStep::Stop => break,
        }
    }
    assert!(seen.contains("hi"));
}
