use binggpt::input::{Command, Input};
use binggpt::reader::{
    CliAction, CliReader, EditorReader, Notice, Outcome, ReadEvent, StdinReader,
};
use std::str::FromStr;

fn line(s: &str) -> ReadEvent {
    ReadEvent::Line(s.to_string())
}

#[test]
fn parse_commands() {
    assert!(matches!(Input::parse(":q"), Input::Command(Command::Exit)));
    assert!(matches!(Input::parse("  :quit \n"), Input::Command(Command::Exit)));
    assert!(matches!(Input::parse(":exit"), Input::Command(Command::Exit)));
    assert!(matches!(Input::parse(":h"), Input::Command(Command::Help)));
    assert!(matches!(Input::parse(":help"), Input::Command(Command::Help)));
    assert!(matches!(Input::parse(":reset"), Input::Command(Command::Reset)));
    assert!(matches!(Input::parse("\t:more"), Input::Command(Command::More)));
    assert!(matches!(Input::parse(":end\u{3000}"), Input::Command(Command::End)));
}

#[test]
fn parse_text_keeps_the_line() {
    match Input::parse("  hello :q ") {
        Input::Text(t) => assert_eq!(t, "  hello :q "),
        _ => panic!("expected text"),
    }
    match Input::parse(":Q") {
        Input::Text(t) => assert_eq!(t, ":Q"),
        _ => panic!("expected text"),
    }
    match Input::from_str("") {
        Ok(Input::Text(t)) => assert_eq!(t, ""),
        _ => panic!("expected text"),
    }
}

#[test]
fn cli_reader_gathers_lines_until_blank() {
    let mut r = CliReader::new();
    assert!(matches!(r.feed(line("hello")), CliAction::Read));
    assert!(matches!(r.feed(line(" world")), CliAction::Read));
    match r.feed(line("")) {
        CliAction::Finish(Input::Text(t)) => assert_eq!(t, "hello world"),
        a => panic!("unexpected {:?}", a),
    }
}

#[test]
fn cli_reader_skips_blank_start() {
    let mut r = CliReader::new();
    assert!(matches!(r.feed(line("")), CliAction::Read));
    assert!(matches!(r.feed(ReadEvent::Failed), CliAction::Read));
    assert!(matches!(r.feed(line("   ")), CliAction::Read));
    // only whitespace gathered: still nothing to send
    assert!(matches!(r.feed(line("")), CliAction::Read));
}

#[test]
fn cli_reader_multi_line() {
    let mut r = CliReader::new();
    assert!(matches!(r.feed(line(":more")), CliAction::MultiLineOn));
    assert!(matches!(r.feed(line("a")), CliAction::Read));
    assert!(matches!(r.feed(line("")), CliAction::Read));
    assert!(matches!(r.feed(line("b")), CliAction::Read));
    match r.feed(line(":end")) {
        CliAction::Finish(Input::Text(t)) => assert_eq!(t, "ab"),
        a => panic!("unexpected {:?}", a),
    }
}

#[test]
fn cli_reader_commands_and_interrupt() {
    let mut r = CliReader::new();
    assert!(matches!(r.feed(line("text")), CliAction::Read));
    assert!(matches!(r.feed(line(":reset")), CliAction::Finish(Input::Command(Command::Reset))));
    let mut r = CliReader::new();
    assert!(matches!(r.feed(ReadEvent::Interrupted), CliAction::Finish(Input::Command(Command::Exit))));
    let mut r = CliReader::new();
    assert!(matches!(r.feed(line(" :h ")), CliAction::Finish(Input::Command(Command::Help))));
}

#[test]
fn stdin_reader_gathers_raw_lines() {
    let mut r = StdinReader::new();
    let a = r.feed(line("hi\n"));
    assert_eq!(a.notice, Notice::Quiet);
    assert!(matches!(a.outcome, Outcome::Read));
    let a = r.feed(line(":help\n"));
    assert!(matches!(a.outcome, Outcome::Read));
    let a = r.feed(line("\n"));
    match a.outcome {
        Outcome::Submit(t) => assert_eq!(t, "hi\n:help\n"),
        o => panic!("unexpected {:?}", o),
    }
}

#[test]
fn stdin_reader_modes_and_exit() {
    let mut r = StdinReader::new();
    let a = r.feed(ReadEvent::Failed);
    assert_eq!(a.notice, Notice::ReadFailed);
    let a = r.feed(line(":more\n"));
    assert_eq!(a.notice, Notice::MultiLineOn);
    assert!(matches!(a.outcome, Outcome::Read));
    r.feed(line("x\n"));
    let a = r.feed(line("\n"));
    assert!(matches!(a.outcome, Outcome::Read));
    let a = r.feed(line(":end\n"));
    assert_eq!(a.notice, Notice::MultiLineOff);
    match a.outcome {
        Outcome::Submit(t) => assert_eq!(t, "x\n"),
        o => panic!("unexpected {:?}", o),
    }
    let mut r = StdinReader::new();
    assert!(matches!(r.feed(line(":q\n")).outcome, Outcome::Exit));
}

#[test]
fn editor_reader_help_reset_and_exit() {
    let mut r = EditorReader::new();
    let a = r.feed(line(":help"));
    assert_eq!(a.notice, Notice::Help);
    assert!(matches!(a.outcome, Outcome::Read));
    r.feed(line("question"));
    let a = r.feed(line(":reset"));
    assert_eq!(a.notice, Notice::Reset);
    match a.outcome {
        Outcome::Submit(t) => assert_eq!(t, "question"),
        o => panic!("unexpected {:?}", o),
    }
    let mut r = EditorReader::new();
    assert!(matches!(r.feed(ReadEvent::Interrupted).outcome, Outcome::Exit));
    let mut r = EditorReader::new();
    assert!(matches!(r.feed(line(" :exit ")).outcome, Outcome::Exit));
}

#[test]
fn editor_reader_failed_read_is_empty_line() {
    let mut r = EditorReader::new();
    r.feed(line("a "));
    match r.feed(ReadEvent::Failed).outcome {
        Outcome::Submit(t) => assert_eq!(t, "a "),
        o => panic!("unexpected {:?}", o),
    }
}
