use install_nothing::build_logs::BuildLogs;
use install_nothing::deno_logs::DenoLogs;
use install_nothing::kernel_logs::KernelLogs;
use install_nothing::random::{FixedRandom, ThreadRandom};

#[test]
fn blank_lines_are_filtered_out() {
    let corpus = BuildLogs::from_text("line1\n\n  \nline2\n");
    assert_eq!(corpus.all_logs(), &vec!["line1".to_string(), "line2".to_string()]);
}

#[test]
fn tabs_and_carriage_returns_count_as_blank() {
    let corpus = BuildLogs::from_text("a\n\t \r\nb");
    assert_eq!(corpus.all_logs(), &vec!["a".to_string(), "b".to_string()]);
}

#[test]
fn kernel_timestamp_is_stripped() {
    assert_eq!(
        KernelLogs::strip_timestamp("[    0.000000] Linux version 6.8.0"),
        "Linux version 6.8.0"
    );
}

#[test]
fn line_without_bracket_pair_passes_through() {
    assert_eq!(KernelLogs::strip_timestamp("no timestamp here"), "no timestamp here");
    assert_eq!(KernelLogs::strip_timestamp("open [ only"), "open [ only");
}

#[test]
fn kernel_corpus_lines_carry_no_timestamps() {
    let corpus = KernelLogs::from_text("[  1.5] alpha\n\n[  2.5]   beta\ngamma\n");
    assert_eq!(
        corpus.all_logs(),
        &vec!["alpha".to_string(), "beta".to_string(), "gamma".to_string()]
    );
}

#[test]
fn random_batch_has_exactly_n_lines_from_the_corpus() {
    let corpus = KernelLogs::load();
    let lines = corpus.all_logs().clone();
    let mut rng = ThreadRandom::new();
    for n in [0usize, 1, 7, 40] {
        let batch = corpus.random_batch(n, &mut rng);
        assert_eq!(batch.len(), n);
        for item in &batch {
            assert!(lines.contains(item), "batch line must come from the corpus");
        }
    }
}

#[test]
fn random_batch_on_empty_corpus_is_empty() {
    let corpus = BuildLogs::from_text("\n \n");
    assert_eq!(corpus.all_logs().len(), 0);
    let mut rng = FixedRandom::new(vec![3, 1, 4]);
    assert_eq!(corpus.random_batch(12, &mut rng).len(), 0);
}

#[test]
fn embedded_corpora_are_loaded_and_non_empty() {
    assert_eq!(BuildLogs::load().all_logs().len(), 15);
    assert_eq!(KernelLogs::load().all_logs().len(), 15);
    let deno = DenoLogs::load();
    assert_eq!(deno.success_logs().len(), 12);
    assert_eq!(deno.error_logs().len(), 10);
    assert!(deno.error_logs().iter().any(|l| l.contains("error")));
}

#[test]
fn default_matches_load() {
    assert_eq!(BuildLogs::default().all_logs(), BuildLogs::load().all_logs());
    assert_eq!(KernelLogs::default().all_logs(), KernelLogs::load().all_logs());
}

#[test]
fn crlf_line_endings_are_handled() {
    let corpus = BuildLogs::from_text("one\r\ntwo\r\nthree");
    assert_eq!(
        corpus.all_logs(),
        &vec!["one".to_string(), "two".to_string(), "three".to_string()]
    );
}

#[test]
fn kernel_line_that_is_only_a_timestamp_is_dropped() {
    let corpus = install_nothing::kernel_logs::KernelLogs::from_text("[  1.0] \nreal line\n");
    assert_eq!(corpus.all_logs(), &vec!["real line".to_string()]);
}
