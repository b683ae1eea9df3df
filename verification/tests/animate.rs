use install_nothing::probe::{CancelAfter, NeverCancel};
use install_nothing::progress::{ProgressBar, ProgressStyle};
use install_nothing::script::Event;
use install_nothing::spinner::Spinner;
use install_nothing::InstallError;

#[test]
fn animate_completes_with_all_steps_when_never_cancelled() {
    let bar = ProgressBar::new(ProgressStyle::Hash);
    let mut probe = NeverCancel::new();
    let mut out: Vec<Event> = Vec::new();
    let r = bar.animate("Linking:", 1000, &mut probe, &mut out);
    assert!(r.is_ok());
    assert_eq!(out.len(), 51);
    match &out[0] {
        Event::Frame(s) => assert_eq!(s, "Linking: [....................]   0%"),
        other => panic!("expected a frame, got {:?}", other),
    }
    match &out[50] {
        Event::Frame(s) => assert_eq!(s, "Linking: [####################] 100%"),
        other => panic!("expected a frame, got {:?}", other),
    }
}

#[test]
fn animate_interrupted_on_first_check_draws_nothing() {
    let bar = ProgressBar::new(ProgressStyle::Block);
    let mut probe = CancelAfter::new(0);
    let mut out: Vec<Event> = Vec::new();
    let r = bar.animate("Flashing:", 2000, &mut probe, &mut out);
    assert_eq!(r, Err(InstallError::Interrupted));
    assert_eq!(out.len(), 0);
}

#[test]
fn animate_interrupted_midway_stops_early() {
    let bar = ProgressBar::new(ProgressStyle::Hash);
    let mut probe = CancelAfter::new(10);
    let mut out: Vec<Event> = Vec::new();
    let r = bar.animate("Writing:", 2000, &mut probe, &mut out);
    assert_eq!(r, Err(InstallError::Interrupted));
    assert_eq!(out.len(), 10);
}

#[test]
fn spinner_completes_one_frame_per_tick() {
    let spinner = Spinner::new();
    let mut probe = NeverCancel::new();
    let mut out: Vec<Event> = Vec::new();
    let r = spinner.animate("Probing...", 400, &mut probe, &mut out);
    assert!(r.is_ok());
    assert_eq!(out.len(), 5);
    match &out[0] {
        Event::Frame(s) => assert_eq!(s, "Probing... |"),
        other => panic!("expected a frame, got {:?}", other),
    }
    match &out[1] {
        Event::Frame(s) => assert_eq!(s, "Probing... /"),
        other => panic!("expected a frame, got {:?}", other),
    }
}

#[test]
fn spinner_interrupted_on_first_check_draws_nothing() {
    let spinner = Spinner::new();
    let mut probe = CancelAfter::new(0);
    let mut out: Vec<Event> = Vec::new();
    let r = spinner.animate("Probing...", 400, &mut probe, &mut out);
    assert_eq!(r, Err(InstallError::Interrupted));
    assert_eq!(out.len(), 0);
}

#[test]
fn error_kind_distinguishes_interruption() {
    assert!(InstallError::Interrupted.is_interrupted());
    assert!(!InstallError::Output.is_interrupted());
}
