use std::sync::mpsc::channel;

use boardcheck::utils::Exiter;
use boardcheck::utils::InController;

#[test]
fn exiter_open_channel_is_not_signaled() {
    let (tx, rx) = channel::<()>();
    let exiter = Exiter::from_receiver(rx);
    assert!(!exiter.check());
    assert!(!exiter.check());
    drop(tx);
}

#[test]
fn exiter_any_message_signals_exit() {
    let (tx, rx) = channel::<()>();
    let exiter = Exiter::from_receiver(rx);
    tx.send(()).unwrap();
    assert!(exiter.check());
    drop(tx);
    assert!(exiter.check());
    assert!(exiter.check());
}

#[test]
fn exiter_sticky_after_reader_done() {
    let (tx, rx) = channel::<()>();
    let exiter = Exiter::from_receiver(rx);
    assert!(!exiter.check());
    drop(tx);
    assert!(exiter.check());
    assert!(exiter.check());
    assert!(exiter.check());
}

#[test]
fn incontroller_poll_empty_is_none() {
    let (tx, rx) = channel::<char>();
    let inc = InController::from_receiver(rx);
    assert_eq!(inc.try_get(), None);
    assert_eq!(inc.try_get(), None);
    drop(tx);
}

#[test]
fn incontroller_poll_returns_queued_commands_in_order() {
    let (tx, rx) = channel::<char>();
    let inc = InController::from_receiver(rx);
    tx.send('a').unwrap();
    tx.send('b').unwrap();
    assert_eq!(inc.try_get(), Some('a'));
    assert_eq!(inc.try_get(), Some('b'));
    assert_eq!(inc.try_get(), None);
    drop(tx);
}

#[test]
fn incontroller_poll_sticky_quit_after_quit_line() {
    let (tx, rx) = channel::<char>();
    let inc = InController::from_receiver(rx);
    tx.send('q').unwrap();
    drop(tx);
    assert_eq!(inc.try_get(), Some('q'));
    assert_eq!(inc.try_get(), Some('q'));
    assert_eq!(inc.try_get(), Some('q'));
}

#[test]
fn incontroller_poll_sticky_quit_after_disconnect() {
    let (tx, rx) = channel::<char>();
    let inc = InController::from_receiver(rx);
    drop(tx);
    assert_eq!(inc.try_get(), Some('q'));
    assert_eq!(inc.try_get(), Some('q'));
}

#[test]
fn incontroller_get_returns_available_command() {
    let (tx, rx) = channel::<char>();
    let inc = InController::from_receiver(rx);
    tx.send('z').unwrap();
    assert_eq!(inc.get(), 'z');
    drop(tx);
}

#[test]
fn incontroller_get_quit_immediately_once_disconnected() {
    let (tx, rx) = channel::<char>();
    let inc = InController::from_receiver(rx);
    tx.send('c').unwrap();
    drop(tx);
    assert_eq!(inc.get(), 'c');
    assert_eq!(inc.get(), 'q');
    assert_eq!(inc.get(), 'q');
}

#[test]
fn line_command_is_the_first_character() {
    assert_eq!(boardcheck::utils::line_command("quit now\n"), 'q');
    assert_eq!(boardcheck::utils::line_command("a\n"), 'a');
    assert_eq!(boardcheck::utils::line_command("\n"), '\n');
}

#[test]
fn line_command_handles_an_empty_line() {
    assert_eq!(boardcheck::utils::line_command(""), '\n');
}

#[test]
fn quit_command_is_q() {
    assert_eq!(boardcheck::utils::QUIT_COMMAND, 'q');
}
