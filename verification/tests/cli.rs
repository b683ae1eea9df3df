use install_nothing::cli::{Cli, Stage};

#[test]
fn test_default_to_all() {
    let cli = Cli { stages: vec![], all: false, exclude: vec![] };
    assert_eq!(cli.get_stages(), Stage::all());
}

#[test]
fn test_explicit_all() {
    let cli = Cli { stages: vec![], all: true, exclude: vec![] };
    assert_eq!(cli.get_stages(), Stage::all());
}

#[test]
fn test_specific_stages() {
    let cli = Cli { stages: vec![Stage::Bios, Stage::Boot], all: false, exclude: vec![] };
    assert_eq!(cli.get_stages(), vec![Stage::Bios, Stage::Boot]);
}

#[test]
fn test_exclude_single_stage() {
    let cli = Cli { stages: vec![], all: false, exclude: vec![Stage::Ai] };
    let result = cli.get_stages();
    assert!(!result.contains(&Stage::Ai));
    assert_eq!(result.len(), Stage::all().len() - 1);
}

#[test]
fn test_exclude_multiple_stages() {
    let cli = Cli { stages: vec![], all: true, exclude: vec![Stage::Ai, Stage::Cloud] };
    let result = cli.get_stages();
    assert!(!result.contains(&Stage::Ai));
    assert!(!result.contains(&Stage::Cloud));
    assert_eq!(result.len(), Stage::all().len() - 2);
}

#[test]
fn test_exclude_all_stages() {
    let cli = Cli { stages: vec![], all: false, exclude: Stage::all() };
    let result = cli.get_stages();
    assert_eq!(result.len(), 0);
}

#[test]
fn exclude_applies_to_named_stages_too() {
    let cli = Cli {
        stages: vec![Stage::Bios, Stage::Boot, Stage::Xorg],
        all: false,
        exclude: vec![Stage::Boot],
    };
    assert_eq!(cli.get_stages(), vec![Stage::Bios, Stage::Xorg]);
}

#[test]
fn all_has_twenty_stages_in_order() {
    let all = Stage::all();
    assert_eq!(all.len(), 20);
    assert_eq!(all[0], Stage::Bios);
    assert_eq!(all[1], Stage::Boot);
    assert_eq!(all[19], Stage::Cloud);
}
