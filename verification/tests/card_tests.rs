use xpd_core::card::{
    apply_edit, card_subject, fetch_text, process_colors, CardCommand, CardCommandEdit, CardEffect,
    StoredCard,
};
use xpd_core::colors::{Color, Colors};

fn no_edit() -> CardCommandEdit {
    CardCommandEdit {
        important: None,
        secondary: None,
        rank: None,
        level: None,
        border: None,
        background: None,
        progress_foreground: None,
        progress_background: None,
        font: None,
    }
}

fn sample_row() -> StoredCard {
    StoredCard {
        important: Some("#010203".to_string()),
        secondary: None,
        rank: Some("#040506".to_string()),
        level: None,
        border: Some("#070809".to_string()),
        background: None,
        progress_foreground: None,
        progress_background: Some("#0A0B0C".to_string()),
        font: Some("Mojang".to_string()),
    }
}

const DEFAULT_LISTING: &str = "Important text: `#FFFFFF` (default)\n\
Secondary text: `#CCCCCC` (default)\n\
Rank: `#FFFFFF` (default)\n\
Level: `#8FCA5C` (default)\n\
Border: `#854F2B` (default)\n\
Background: `#61371F` (default)\n\
Progress bar completed: `#477A1E` (default)\n\
Progress bar remaining: `#8FCA5C` (default)\n\
Font: `Roboto` (default)\n";

#[test]
fn fetch_without_a_row_reports_every_field_default() {
    assert_eq!(fetch_text(&None), DEFAULT_LISTING);
}

#[test]
fn fetch_of_empty_row_reports_every_field_default() {
    assert_eq!(fetch_text(&Some(StoredCard::empty())), DEFAULT_LISTING);
}

#[test]
fn absent_row_yields_the_default_palette() {
    assert_eq!(Colors::for_stored(&None), Colors::default());
}

#[test]
fn each_stored_field_falls_back_independently() {
    let row = StoredCard {
        background: Some("#112233".to_string()),
        ..StoredCard::empty()
    };
    let colors = Colors::for_stored(&Some(row));
    assert_eq!(colors.background, Color::new(0x11, 0x22, 0x33));
    let d = Colors::default();
    assert_eq!(colors.important, d.important);
    assert_eq!(colors.secondary, d.secondary);
    assert_eq!(colors.rank, d.rank);
    assert_eq!(colors.level, d.level);
    assert_eq!(colors.border, d.border);
    assert_eq!(colors.progress_foreground, d.progress_foreground);
    assert_eq!(colors.progress_background, d.progress_background);
}

#[test]
fn unparseable_stored_field_falls_back_to_its_default() {
    let row = StoredCard {
        rank: Some("garbage".to_string()),
        ..StoredCard::empty()
    };
    let colors = Colors::for_stored(&Some(row));
    assert_eq!(colors.rank, Colors::default().rank);
}

#[test]
fn edit_of_rank_only_leaves_all_other_fields() {
    let prior = sample_row();
    let edit = CardCommandEdit {
        rank: Some(Color::new(9, 9, 9)),
        ..no_edit()
    };
    let merged = apply_edit(&Some(prior), &edit);
    assert_eq!(merged.rank.as_deref(), Some("#090909"));
    let prior = sample_row();
    assert_eq!(merged.important, prior.important);
    assert_eq!(merged.secondary, prior.secondary);
    assert_eq!(merged.level, prior.level);
    assert_eq!(merged.border, prior.border);
    assert_eq!(merged.background, prior.background);
    assert_eq!(merged.progress_foreground, prior.progress_foreground);
    assert_eq!(merged.progress_background, prior.progress_background);
    assert_eq!(merged.font, prior.font);
}

#[test]
fn edit_of_background_only_keeps_prior_values() {
    let prior = sample_row();
    let edit = CardCommandEdit {
        background: Some(Color::new(0x11, 0x22, 0x33)),
        ..no_edit()
    };
    let merged = apply_edit(&Some(prior), &edit);
    assert_eq!(merged.background.as_deref(), Some("#112233"));
    let prior = sample_row();
    assert_eq!(merged.important, prior.important);
    assert_eq!(merged.rank, prior.rank);
    assert_eq!(merged.font, prior.font);
}

#[test]
fn edit_without_a_prior_row_writes_only_its_own_fields() {
    let edit = CardCommandEdit {
        level: Some(Color::new(1, 2, 3)),
        font: Some("Mojang".to_string()),
        ..no_edit()
    };
    let merged = apply_edit(&None, &edit);
    assert_eq!(merged.level.as_deref(), Some("#010203"));
    assert_eq!(merged.font.as_deref(), Some("Mojang"));
    assert_eq!(merged.important, None);
    assert_eq!(merged.background, None);
}

#[test]
fn reset_clears_and_confirms() {
    let out = process_colors(&CardCommand::Reset, &Some(sample_row()));
    assert!(matches!(out.effect, CardEffect::Clear));
    assert_eq!(out.message, "Card settings cleared!");
}

#[test]
fn edit_stores_and_confirms() {
    let edit = CardCommandEdit {
        border: Some(Color::new(4, 5, 6)),
        ..no_edit()
    };
    let out = process_colors(&CardCommand::Edit(edit), &None);
    match out.effect {
        CardEffect::Store(row) => assert_eq!(row.border.as_deref(), Some("#040506")),
        _ => panic!("edit must store a row"),
    }
    assert_eq!(out.message, "Updated card!");
}

#[test]
fn fetch_reads_without_writing() {
    let out = process_colors(&CardCommand::Fetch { user: None }, &None);
    assert!(matches!(out.effect, CardEffect::Nothing));
    assert_eq!(out.message, DEFAULT_LISTING);
}

#[test]
fn fetch_shows_stored_font_verbatim() {
    let row = StoredCard {
        font: Some("Mojang".to_string()),
        ..StoredCard::empty()
    };
    let text = fetch_text(&Some(row));
    assert!(text.ends_with("Font: Mojang"));
}

#[test]
fn card_subject_prefers_the_fetched_user() {
    assert_eq!(card_subject(&CardCommand::Fetch { user: Some(7) }, 1), 7);
    assert_eq!(card_subject(&CardCommand::Fetch { user: None }, 1), 1);
    assert_eq!(card_subject(&CardCommand::Reset, 1), 1);
}
