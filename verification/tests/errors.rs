use term_sessions::terminal::cwd::{cwd_answer, cwd_link, LinkRead};
use term_sessions::terminal::error::{Fault, FaultClass, TerminalError};
use term_sessions::terminal::open::{initial_size, Acquisition};

fn error(fault: Fault, detail: &str) -> TerminalError {
    TerminalError::new(fault, detail.to_string())
}

#[test]
fn every_fault_has_its_message() {
    assert_eq!(error(Fault::Lock, "").message(), "failed to lock terminal sessions");
    assert_eq!(error(Fault::Lock, "ignored").message(), "failed to lock terminal sessions");
    assert_eq!(TerminalError::lock().message(), "failed to lock terminal sessions");
    assert_eq!(error(Fault::OpenPty, "no ptys").message(), "failed to open pty: no ptys");
    assert_eq!(error(Fault::SpawnShell, "enoent").message(), "failed to spawn shell: enoent");
    assert_eq!(error(Fault::CloneReader, "dup").message(), "failed to clone pty reader: dup");
    assert_eq!(error(Fault::TakeWriter, "taken").message(), "failed to get pty writer: taken");
    assert_eq!(error(Fault::SessionNotFound, "t1").message(), "session not found: t1");
    assert_eq!(error(Fault::Write, "epipe").message(), "failed to write to pty: epipe");
    assert_eq!(error(Fault::Flush, "eio").message(), "failed to flush pty writer: eio");
    assert_eq!(error(Fault::Resize, "ebadf").message(), "failed to resize pty: ebadf");
    assert_eq!(error(Fault::ReadCwdLink, "eacces").message(), "failed to read cwd link: eacces");
}

#[test]
fn every_fault_has_its_class() {
    assert_eq!(Fault::Lock.class(), FaultClass::Lock);
    assert_eq!(Fault::OpenPty.class(), FaultClass::Acquisition);
    assert_eq!(Fault::SpawnShell.class(), FaultClass::Acquisition);
    assert_eq!(Fault::CloneReader.class(), FaultClass::Acquisition);
    assert_eq!(Fault::TakeWriter.class(), FaultClass::Acquisition);
    assert_eq!(Fault::SessionNotFound.class(), FaultClass::NotFound);
    assert_eq!(Fault::Write.class(), FaultClass::Io);
    assert_eq!(Fault::Flush.class(), FaultClass::Io);
    assert_eq!(Fault::Resize.class(), FaultClass::Io);
    assert_eq!(Fault::ReadCwdLink.class(), FaultClass::Io);
}

#[test]
fn a_new_terminal_has_eighty_columns_and_twenty_four_rows() {
    let size = initial_size();
    assert_eq!((size.cols, size.rows, size.pixel_width, size.pixel_height), (80, 24, 0, 0));
}

#[test]
fn a_session_acquires_terminal_shell_reader_and_writer_in_turn() {
    let mut step = Acquisition::first();
    let mut order = vec![step];
    while let Ok(Some(next)) = step.advance(None) {
        order.push(next);
        step = next;
    }
    assert_eq!(
        order,
        vec![Acquisition::Pty, Acquisition::Shell, Acquisition::Reader, Acquisition::Writer]
    );
    assert_eq!(Acquisition::Writer.advance(None), Ok(None));
}

#[test]
fn a_failed_acquisition_is_reported_with_its_fault() {
    let why = || Some("boom".to_string());
    assert_eq!(Acquisition::Pty.advance(why()), Err(error(Fault::OpenPty, "boom")));
    assert_eq!(Acquisition::Shell.advance(why()), Err(error(Fault::SpawnShell, "boom")));
    assert_eq!(Acquisition::Reader.advance(why()), Err(error(Fault::CloneReader, "boom")));
    assert_eq!(Acquisition::Writer.advance(why()), Err(error(Fault::TakeWriter, "boom")));
    assert_eq!(
        Acquisition::Shell.advance(why()).unwrap_err().message(),
        "failed to spawn shell: boom"
    );
}

#[test]
fn the_working_directory_is_a_link_under_proc() {
    assert_eq!(cwd_link(Some(4242)), Some("/proc/4242/cwd".to_string()));
    assert_eq!(cwd_link(Some(0)), Some("/proc/0/cwd".to_string()));
    assert_eq!(cwd_link(Some(u32::MAX)), Some("/proc/4294967295/cwd".to_string()));
    assert_eq!(cwd_link(None), None);
}

#[test]
fn the_target_of_the_link_is_the_working_directory() {
    assert_eq!(
        cwd_answer(LinkRead::Target("/home/me".to_string())),
        Ok(Some("/home/me".to_string()))
    );
    assert_eq!(cwd_answer(LinkRead::Target(String::new())), Ok(Some(String::new())));
}

#[test]
fn a_link_that_does_not_resolve_has_no_directory() {
    assert_eq!(cwd_answer(LinkRead::Broken), Ok(None));
}

#[test]
fn a_read_that_failed_is_reported() {
    assert_eq!(
        cwd_answer(LinkRead::Failed("permission denied".to_string())),
        Err(error(Fault::ReadCwdLink, "permission denied"))
    );
    assert_eq!(
        cwd_answer(LinkRead::Failed("gone".to_string())).unwrap_err().message(),
        "failed to read cwd link: gone"
    );
}
