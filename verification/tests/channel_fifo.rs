//! FIFO discipline of the command queue and the worker's reaction to each
//! command.

use bmo::channel::worker_step;
use bmo::channel::CommandQueue;
use bmo::channel::WorkerStep;
use bmo::mood::Command;
use bmo::mood::Sound;

#[test]
fn dequeue_returns_commands_in_enqueue_order() {
    let mut q = CommandQueue::new();
    assert!(q.is_empty());
    q.enqueue(Command::Play(Sound::Happy));
    q.enqueue(Command::Stop);
    q.enqueue(Command::Play(Sound::Sad));
    assert_eq!(q.len(), 3);
    assert_eq!(q.dequeue(), Some(Command::Play(Sound::Happy)));
    assert_eq!(q.dequeue(), Some(Command::Stop));
    assert_eq!(q.dequeue(), Some(Command::Play(Sound::Sad)));
    assert_eq!(q.dequeue(), None);
    assert!(q.is_empty());
}

#[test]
fn drain_preserves_order() {
    let sent = vec![
        Command::Play(Sound::Calm),
        Command::Play(Sound::Happy),
        Command::Stop,
        Command::Play(Sound::Panic),
        Command::Play(Sound::Sad),
    ];
    let mut q = CommandQueue::new();
    for c in &sent {
        q.enqueue(*c);
    }
    assert_eq!(q.drain(), sent);
    assert!(q.is_empty());
}

#[test]
fn worker_plays_effects_in_received_order() {
    // Play(Panic) enqueued before Play(Sad): the effects come out in that
    // order, never the reverse.
    let mut q = CommandQueue::new();
    q.enqueue(Command::Play(Sound::Panic));
    q.enqueue(Command::Play(Sound::Sad));
    let mut played = Vec::new();
    while let Some(c) = q.dequeue() {
        match worker_step(Some(c)) {
            WorkerStep::PlayEffect(s) => played.push(s),
            WorkerStep::Idle => {}
            WorkerStep::Shutdown => break,
        }
    }
    assert_eq!(played, vec![Sound::Panic, Sound::Sad]);
}

#[test]
fn worker_ignores_stop() {
    assert_eq!(worker_step(Some(Command::Stop)), WorkerStep::Idle);
}

#[test]
fn worker_shuts_down_on_closed_channel() {
    assert_eq!(worker_step(None), WorkerStep::Shutdown);
}

#[test]
fn worker_plays_the_commanded_sound() {
    assert_eq!(
        worker_step(Some(Command::Play(Sound::Calm))),
        WorkerStep::PlayEffect(Sound::Calm)
    );
}
