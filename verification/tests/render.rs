use install_nothing::progress::{ProgressBar, ProgressStyle};

#[test]
fn zero_progress_is_all_empty() {
    let bar = ProgressBar::new(ProgressStyle::Hash);
    assert_eq!(bar.render(0, 1), "[....................]   0%");
}

#[test]
fn full_progress_is_all_filled() {
    let bar = ProgressBar::new(ProgressStyle::Hash);
    assert_eq!(bar.render(1, 1), "[####################] 100%");
}

#[test]
fn glyph_count_is_width_for_every_style_and_fraction() {
    let styles = [
        ProgressStyle::Hash,
        ProgressStyle::Equals,
        ProgressStyle::Block,
        ProgressStyle::Gradient,
    ];
    for style in styles {
        let bar = ProgressBar::new(style);
        for i in 0..=50u64 {
            let line = bar.render(i, 50);
            let chars: Vec<char> = line.chars().collect();
            assert_eq!(chars[0], '[');
            let close = chars.iter().position(|c| *c == ']').unwrap();
            assert_eq!(close, 21, "twenty glyphs between the brackets");
            assert_eq!(chars[chars.len() - 1], '%');
        }
    }
}

#[test]
fn half_progress_hash_bar() {
    let bar = ProgressBar::new(ProgressStyle::Hash);
    assert_eq!(bar.render(1, 2), "[##########..........]  50%");
}

#[test]
fn equals_style_uses_spaces_for_empty() {
    let bar = ProgressBar::new(ProgressStyle::Equals);
    assert_eq!(bar.render(1, 4), "[=====               ]  25%");
}

#[test]
fn block_style_uses_block_glyphs() {
    let bar = ProgressBar::new(ProgressStyle::Block);
    assert_eq!(bar.render(1, 2), "[██████████░░░░░░░░░░]  50%");
}

#[test]
fn gradient_picks_light_shade_below_half() {
    let bar = ProgressBar::new(ProgressStyle::Gradient);
    assert_eq!(bar.render(1, 4), "[▒▒▒▒▒░░░░░░░░░░░░░░░]  25%");
    assert_eq!(bar.render(3, 4), "[▓▓▓▓▓▓▓▓▓▓▓▓▓▓▓░░░░░]  75%");
}

#[test]
fn percent_is_rounded_down() {
    let bar = ProgressBar::new(ProgressStyle::Hash);
    assert_eq!(bar.render(1, 3), "[######..............]  33%");
    assert_eq!(bar.render(2, 3), "[#############.......]  66%");
}
