use install_nothing::cli::Stage;
use install_nothing::random::{FixedRandom, ThreadRandom};
use install_nothing::script::Action;
use install_nothing::stages::boot::BootStage;
use install_nothing::stages::bootloader::{Arch, BootloaderConfig, BootloaderStage};
use install_nothing::stages::compilation::CompilationStage;
use install_nothing::stages::deno::{display_script, DenoStage};
use install_nothing::probe::{CancelAfter, NeverCancel};
use install_nothing::random::RandomSource;
use install_nothing::script::{line_tone, Event, LineTone};
use install_nothing::stages::{build_plans, selected_stages, InstallationStage};
use install_nothing::InstallError;
use install_nothing::text::u64_to_string;

#[test]
fn selected_stages_keeps_count_and_order() {
    let units = selected_stages(&Stage::all());
    assert_eq!(units.len(), 20);
    assert_eq!(units[0].name(), "BIOS/Firmware Update Sequence");
    assert_eq!(units[1].name(), "Kernel Boot Sequence");
    assert_eq!(units[2].name(), "Bootloader Installation");
    assert_eq!(units[11].name(), "Deno Runtime Compilation");
}

#[test]
fn build_plans_resolves_one_plan_per_stage() {
    let units = selected_stages(&vec![Stage::Bios, Stage::System, Stage::Drivers]);
    let mut rng = ThreadRandom::new();
    let plans = build_plans(&units, &mut rng);
    assert_eq!(plans.len(), 3);
    assert_eq!(plans[0].name, "BIOS/Firmware Update Sequence");
    for plan in &plans {
        assert!(!plan.script.is_empty());
        assert!(!plan.prompt_retry);
    }
}

#[test]
fn boot_script_draws_lines_from_the_kernel_corpus() {
    let stage = BootStage::new();
    let corpus = install_nothing::kernel_logs::KernelLogs::load();
    let mut rng = ThreadRandom::new();
    let script = stage.script(&mut rng);
    let mut printed = 0;
    for action in &script {
        if let Action::Line { text, .. } = action {
            assert!(corpus.all_logs().contains(text));
            printed += 1;
        }
    }
    assert!((8..15).contains(&printed));
}

#[test]
fn compilation_script_wraps_corpus_lines_in_make_banners() {
    let stage = CompilationStage::new();
    let mut rng = ThreadRandom::new();
    let script = stage.script(&mut rng);
    assert!(script.len() >= 18);
    match &script[0] {
        Action::Line { text, .. } => {
            assert_eq!(text, "make[1]: Entering directory '/usr/src/linux-headers-5.4.0'")
        },
        other => panic!("expected the entering banner, got {:?}", other),
    }
    match &script[script.len() - 1] {
        Action::Line { text, .. } => {
            assert_eq!(text, "make[1]: Leaving directory '/usr/src/linux-headers-5.4.0'")
        },
        other => panic!("expected the leaving banner, got {:?}", other),
    }
}

#[test]
fn bootloader_scene_is_long_and_ends_on_the_finish_banner() {
    let stage = BootloaderStage::new(BootloaderConfig::default(), Arch::X86_64);
    let mut rng = ThreadRandom::new();
    let script = stage.script(&mut rng);
    assert!(script.len() >= 40);
    match &script[script.len() - 1] {
        Action::Line { text, .. } => {
            assert_eq!(text, "Installation finished. No error reported.")
        },
        other => panic!("expected the finish banner, got {:?}", other),
    }
}

#[test]
fn display_script_classifies_lines() {
    let logs = vec![
        "   Compiling serde v1.0.190".to_string(),
        "error: something broke".to_string(),
        "Downloading sources".to_string(),
        "plain line".to_string(),
    ];
    let mut rng = ThreadRandom::new();
    let script = display_script(&logs, &mut rng);
    assert_eq!(script.len(), 4);
    assert!(matches!(&script[0], Action::Progress { .. }));
    match &script[1] {
        Action::Line { text, delay_ms } => {
            assert_eq!(text, "error: something broke");
            assert_eq!(*delay_ms, 0);
        },
        other => panic!("expected a line, got {:?}", other),
    }
    assert!(matches!(&script[2], Action::Line { .. }));
    assert!(matches!(&script[3], Action::Line { .. }));
}

#[test]
fn deno_followup_abort_is_a_single_skip_line() {
    let stage = DenoStage::new();
    let mut rng = ThreadRandom::new();
    let script = stage.followup_script(false, &mut rng);
    assert_eq!(script.len(), 1);
    match &script[0] {
        Action::Line { text, .. } => assert_eq!(text, "Skipping Deno installation..."),
        other => panic!("expected the skip line, got {:?}", other),
    }
}

#[test]
fn deno_followup_retry_replays_the_success_corpus() {
    let stage = DenoStage::new();
    let deno = install_nothing::deno_logs::DenoLogs::load();
    let mut rng = ThreadRandom::new();
    let script = stage.followup_script(true, &mut rng);
    assert_eq!(script.len(), deno.success_logs().len() + 3);
    match &script[script.len() - 1] {
        Action::Line { text, .. } => assert_eq!(text, "Build completed successfully!"),
        other => panic!("expected the completion line, got {:?}", other),
    }
}

#[test]
fn fixed_random_replays_its_draws() {
    let mut rng = FixedRandom::new(vec![2, 5]);
    assert_eq!(rng.pick(10), 2);
    assert_eq!(rng.pick(10), 5);
    assert_eq!(rng.pick(10), 2);
    assert!(rng.chance(10, 10));
    assert!(!rng.chance(0, 10));
}

#[test]
fn decimal_rendering_matches() {
    assert_eq!(u64_to_string(0), "0");
    assert_eq!(u64_to_string(7), "7");
    assert_eq!(u64_to_string(148), "148");
    assert_eq!(u64_to_string(10000), "10000");
}

#[test]
fn a_stage_run_fills_the_transcript() {
    let units = selected_stages(&vec![Stage::Bios]);
    let mut rng = ThreadRandom::new();
    let mut probe = NeverCancel::new();
    let mut out: Vec<Event> = Vec::new();
    let r = units[0].run(&mut probe, &mut rng, &mut out);
    assert!(r.is_ok());
    assert!(matches!(&out[0], Event::Header(n) if n == "BIOS/Firmware Update Sequence"));
    assert!(out.len() > 1);
}

#[test]
fn a_cancelled_stage_run_reports_interruption() {
    let units = selected_stages(&vec![Stage::System]);
    let mut rng = ThreadRandom::new();
    let mut probe = CancelAfter::new(0);
    let mut out: Vec<Event> = Vec::new();
    let r = units[0].run(&mut probe, &mut rng, &mut out);
    assert_eq!(r, Err(InstallError::Interrupted));
    assert_eq!(out.len(), 1, "only the header precedes the first poll");
}

#[test]
fn thread_random_honours_the_ratio_edges() {
    let mut rng = ThreadRandom::new();
    for _ in 0..20 {
        assert!(!rng.chance(0, 5));
        assert!(rng.chance(5, 5));
        assert!(rng.pick(3) < 3);
    }
}

#[test]
fn deno_failing_run_ends_on_the_failure_banner_and_wants_the_prompt() {
    let stage = DenoStage::new();
    let deno = install_nothing::deno_logs::DenoLogs::load();
    let mut rng = FixedRandom::new(vec![0]);
    let (script, failed) = stage.script_parts(&mut rng);
    assert!(failed);
    assert_eq!(script.len(), deno.error_logs().len() + 2);
    match &script[script.len() - 1] {
        Action::Line { text, .. } => {
            assert_eq!(text, "Build failed! The installation encountered errors.")
        },
        other => panic!("expected the failure banner, got {:?}", other),
    }
}

#[test]
fn deno_succeeding_run_ends_on_the_completion_banner() {
    let stage = DenoStage::new();
    let deno = install_nothing::deno_logs::DenoLogs::load();
    let mut rng = FixedRandom::new(vec![9]);
    let (script, failed) = stage.script_parts(&mut rng);
    assert!(!failed);
    assert_eq!(script.len(), deno.success_logs().len() + 2);
    match &script[script.len() - 1] {
        Action::Line { text, .. } => assert_eq!(text, "Build completed successfully!"),
        other => panic!("expected the completion banner, got {:?}", other),
    }
}

#[test]
fn deno_plan_wants_the_prompt_exactly_when_the_build_fails() {
    let units = selected_stages(&vec![Stage::Deno]);
    let failing = build_plans(&units, &mut FixedRandom::new(vec![0]));
    assert!(failing[0].prompt_retry);
    let passing = build_plans(&units, &mut FixedRandom::new(vec![9]));
    assert!(!passing[0].prompt_retry);
}

#[test]
fn plans_carry_their_stage_names() {
    let units = selected_stages(&Stage::all());
    let mut rng = ThreadRandom::new();
    let plans = build_plans(&units, &mut rng);
    for (unit, plan) in units.iter().zip(plans.iter()) {
        assert_eq!(plan.name, unit.name());
    }
}

#[test]
fn every_selector_resolves_to_its_fixed_name() {
    let expected = [
        "BIOS/Firmware Update Sequence",
        "Kernel Boot Sequence",
        "Bootloader Installation",
        "Filesystem Setup",
        "System Component Installation",
        "Network Configuration",
        "Hardware Driver Installation",
        "Initramfs Generation",
        "Package Installation",
        "Linux Kernel Compilation",
        "Kernel Module Compilation",
        "Deno Runtime Compilation",
        "Database Setup",
        "X Window System Setup",
        "Services Configuration",
        "Retro Software Installation",
        "Locale Configuration",
        "Container Orchestration",
        "AI Model Loading",
        "Cloud Provisioning",
    ];
    let units = selected_stages(&Stage::all());
    assert_eq!(units.len(), expected.len());
    for (unit, name) in units.iter().zip(expected.iter()) {
        assert_eq!(unit.name(), *name);
    }
}

#[test]
fn retry_choice_maps_the_two_prompt_keys() {
    assert_eq!(DenoStage::retry_choice('1'), Some(true));
    assert_eq!(DenoStage::retry_choice('2'), Some(false));
    assert_eq!(DenoStage::retry_choice('x'), None);
    assert_eq!(DenoStage::retry_choice('0'), None);
}

#[test]
fn line_tones_follow_the_markers() {
    assert_eq!(line_tone("error: mismatched types"), LineTone::Failure);
    assert_eq!(line_tone("Build failed! The installation encountered errors."), LineTone::Failure);
    assert_eq!(line_tone("WARNING: CMOS checksum invalid, using defaults"), LineTone::Warning);
    assert_eq!(line_tone("Detecting: PS/2 Mouse [FOUND]"), LineTone::Success);
    assert_eq!(line_tone("Downloading https://dl.example.invalid/src.tar.gz"), LineTone::Download);
    assert_eq!(line_tone("Analyzing partition table..."), LineTone::Plain);
}
