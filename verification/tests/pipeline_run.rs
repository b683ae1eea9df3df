use install_nothing::pipeline::{Pipeline, StagePlan};
use install_nothing::probe::{CancelAfter, NeverCancel};
use install_nothing::script::{Action, Event};
use install_nothing::InstallError;

fn line(text: &str) -> Action {
    Action::Line { text: text.to_string(), delay_ms: 10 }
}

fn plan(name: &str, lines: &[&str]) -> StagePlan {
    StagePlan {
        name: name.to_string(),
        script: lines.iter().map(|l| line(l)).collect(),
        prompt_retry: false,
    }
}

fn headers(out: &[Event]) -> Vec<String> {
    out.iter()
        .filter_map(|e| match e {
            Event::Header(n) => Some(n.clone()),
            _ => None,
        })
        .collect()
}

fn lines(out: &[Event]) -> Vec<String> {
    out.iter()
        .filter_map(|e| match e {
            Event::Line(t) => Some(t.clone()),
            _ => None,
        })
        .collect()
}

#[test]
fn uninterrupted_pipeline_runs_every_stage_in_order() {
    let pipeline = Pipeline::new(vec![
        plan("A", &["a1", "a2"]),
        plan("B", &["b1"]),
        plan("C", &["c1", "c2"]),
    ]);
    let mut probe = NeverCancel::new();
    let mut out: Vec<Event> = Vec::new();
    let r = pipeline.run(&mut probe, &mut out);
    assert!(r.is_ok());
    assert_eq!(headers(&out), vec!["A", "B", "C"]);
    assert_eq!(lines(&out), vec!["a1", "a2", "b1", "c1", "c2"]);
}

#[test]
fn interruption_in_second_stage_runs_first_fully_and_never_reaches_third() {
    let pipeline = Pipeline::new(vec![
        plan("A", &["a1", "a2"]),
        plan("B", &["b1", "b2", "b3"]),
        plan("C", &["c1"]),
    ]);
    // Polls: a1, a2, b1 answer false; the fourth poll (before b2)
    // cancels.
    let mut probe = CancelAfter::new(3);
    let mut out: Vec<Event> = Vec::new();
    let r = pipeline.run(&mut probe, &mut out);
    assert_eq!(r, Err(InstallError::Interrupted));
    assert_eq!(headers(&out), vec!["A", "B"]);
    assert_eq!(lines(&out), vec!["a1", "a2", "b1"]);
}

#[test]
fn interruption_before_anything_still_prints_first_header() {
    let pipeline = Pipeline::new(vec![plan("A", &["a1"]), plan("B", &["b1"])]);
    let mut probe = CancelAfter::new(0);
    let mut out: Vec<Event> = Vec::new();
    let r = pipeline.run(&mut probe, &mut out);
    assert_eq!(r, Err(InstallError::Interrupted));
    assert_eq!(headers(&out), vec!["A"]);
    assert_eq!(lines(&out), Vec::<String>::new());
}

#[test]
fn pauses_produce_no_events_and_cannot_be_interrupted() {
    let pipeline = Pipeline::new(vec![StagePlan {
        name: "P".to_string(),
        script: vec![Action::Pause { delay_ms: 100 }, Action::Pause { delay_ms: 50 }],
        prompt_retry: false,
    }]);
    let mut probe = CancelAfter::new(0);
    let mut out: Vec<Event> = Vec::new();
    let r = pipeline.run(&mut probe, &mut out);
    assert!(r.is_ok());
    assert_eq!(out.len(), 1);
    assert_eq!(headers(&out), vec!["P"]);
}

#[test]
fn animation_frames_appear_in_the_transcript() {
    let pipeline = Pipeline::new(vec![StagePlan {
        name: "S".to_string(),
        script: vec![Action::Spin { message: "wait".to_string(), duration_ms: 200 }],
        prompt_retry: false,
    }]);
    let mut probe = NeverCancel::new();
    let mut out: Vec<Event> = Vec::new();
    let r = pipeline.run(&mut probe, &mut out);
    assert!(r.is_ok());
    // One header plus 200 / 100 + 1 = 3 spinner frames.
    assert_eq!(out.len(), 4);
    match &out[1] {
        Event::Frame(s) => assert_eq!(s, "wait |"),
        other => panic!("expected a frame, got {:?}", other),
    }
}
