//! Per-user rank-card themes: the stored row, the partial-edit upsert
//! semantics, and the human-readable per-field listing.
use vstd::prelude::*;
use crate::colors::{
    Color, Colors, spec_all_hex, spec_color_from, spec_color_string, spec_default_background,
    spec_default_border, spec_default_colors, spec_default_important, spec_default_level,
    spec_default_progress_background, spec_default_progress_foreground, spec_default_rank,
    spec_default_secondary, spec_strip_hashes,
};

verus! {

/// A user's stored theme row. Every field is optional: an absent field
/// means "use the hard-coded default", an absent row means all-default.
#[derive(Debug)]
pub struct StoredCard {
    pub important: Option<String>,
    pub secondary: Option<String>,
    pub rank: Option<String>,
    pub level: Option<String>,
    pub border: Option<String>,
    pub background: Option<String>,
    pub progress_foreground: Option<String>,
    pub progress_background: Option<String>,
    pub font: Option<String>,
}

/// A partial theme edit: each field is independently optional, and an
/// absent field means "leave the stored value unchanged".
#[derive(Debug)]
pub struct CardCommandEdit {
    pub important: Option<Color>,
    pub secondary: Option<Color>,
    pub rank: Option<Color>,
    pub level: Option<Color>,
    pub border: Option<Color>,
    pub background: Option<Color>,
    pub progress_foreground: Option<Color>,
    pub progress_background: Option<Color>,
    pub font: Option<String>,
}

/// A card subcommand.
#[derive(Debug)]
pub enum CardCommand {
    /// Clear the invoker's stored theme row.
    Reset,
    /// Describe the effective theme of the given user, or of the
    /// invoker when no user is given.
    Fetch { user: Option<u64> },
    /// Merge a partial edit into the invoker's stored row.
    Edit(CardCommandEdit),
}

impl StoredCard {
    /// The row with nothing customized.
    pub fn empty() -> (r: Self)
        ensures
            r == spec_empty_card(),
    {
        StoredCard {
            important: None,
            secondary: None,
            rank: None,
            level: None,
            border: None,
            background: None,
            progress_foreground: None,
            progress_background: None,
            font: None,
        }
    }
}

/// The row with nothing customized.
pub open spec fn spec_empty_card() -> StoredCard {
    StoredCard {
        important: None,
        secondary: None,
        rank: None,
        level: None,
        border: None,
        background: None,
        progress_foreground: None,
        progress_background: None,
        font: None,
    }
}

/// The stored row an edit coalesces against: the existing row, or the
/// empty row when none is stored.
pub open spec fn spec_prior(existing: Option<StoredCard>) -> StoredCard {
    match existing {
        Some(r) => r,
        None => spec_empty_card(),
    }
}

/// What a stored color field means: the color it parses to, and the
/// slot's default when the field is absent or unparseable.
pub open spec fn spec_effective_color(stored: Option<String>, default: Color) -> Color {
    match stored {
        None => default,
        Some(s) => if spec_strip_hashes(s@).len() == 6 && spec_all_hex(spec_strip_hashes(s@)) {
            spec_color_from(spec_strip_hashes(s@))
        } else {
            default
        },
    }
}

/// The effective palette of a stored row: each slot falls back to its
/// own default independently of the others, and an absent row (or a
/// failed load, which callers map to `None`) is the all-default palette.
pub open spec fn spec_colors_of(row: Option<StoredCard>) -> Colors {
    match row {
        None => spec_default_colors(),
        Some(c) => Colors {
            important: spec_effective_color(c.important, spec_default_important()),
            secondary: spec_effective_color(c.secondary, spec_default_secondary()),
            rank: spec_effective_color(c.rank, spec_default_rank()),
            level: spec_effective_color(c.level, spec_default_level()),
            border: spec_effective_color(c.border, spec_default_border()),
            background: spec_effective_color(c.background, spec_default_background()),
            progress_foreground: spec_effective_color(
                c.progress_foreground,
                spec_default_progress_foreground(),
            ),
            progress_background: spec_effective_color(
                c.progress_background,
                spec_default_progress_background(),
            ),
        },
    }
}

fn clone_opt_string(s: &Option<String>) -> (r: Option<String>)
    ensures
        r == *s,
{
    match s {
        None => None,
        Some(x) => Some(x.clone()),
    }
}

fn effective_color(stored: &Option<String>, default: Color) -> (r: Color)
    ensures
        r == spec_effective_color(*stored, default),
{
    match stored {
        None => default,
        Some(s) => match Color::from_hex(s.as_str()) {
            Ok(c) => c,
            Err(_) => default,
        },
    }
}

impl Colors {
    /// The effective palette of a stored row, per-field defaulting.
    pub fn for_stored(row: &Option<StoredCard>) -> (r: Colors)
        ensures
            r == spec_colors_of(*row),
    {
        match row {
            None => Colors::default(),
            Some(c) => Colors {
                important: effective_color(&c.important, Color::new(255, 255, 255)),
                secondary: effective_color(&c.secondary, Color::new(204, 204, 204)),
                rank: effective_color(&c.rank, Color::new(255, 255, 255)),
                level: effective_color(&c.level, Color::new(143, 202, 92)),
                border: effective_color(&c.border, Color::new(133, 79, 43)),
                background: effective_color(&c.background, Color::new(97, 55, 31)),
                progress_foreground: effective_color(&c.progress_foreground, Color::new(71, 122, 30)),
                progress_background: effective_color(&c.progress_background, Color::new(143, 202, 92)),
            },
        }
    }
}

/// Exactly the upsert-with-coalesce the edit command performs: a field
/// given in the edit overwrites, a field left out keeps the prior
/// stored value (not the default), and with no prior row the edit's
/// own fields form the row.
pub open spec fn edit_applied(existing: Option<StoredCard>, edit: CardCommandEdit, r: StoredCard) -> bool {
    let prior = spec_prior(existing);
    &&& (match edit.important {
        Some(c) => r.important matches Some(s) && s@ == spec_color_string(c),
        None => r.important == prior.important,
    })
    &&& (match edit.secondary {
        Some(c) => r.secondary matches Some(s) && s@ == spec_color_string(c),
        None => r.secondary == prior.secondary,
    })
    &&& (match edit.rank {
        Some(c) => r.rank matches Some(s) && s@ == spec_color_string(c),
        None => r.rank == prior.rank,
    })
    &&& (match edit.level {
        Some(c) => r.level matches Some(s) && s@ == spec_color_string(c),
        None => r.level == prior.level,
    })
    &&& (match edit.border {
        Some(c) => r.border matches Some(s) && s@ == spec_color_string(c),
        None => r.border == prior.border,
    })
    &&& (match edit.background {
        Some(c) => r.background matches Some(s) && s@ == spec_color_string(c),
        None => r.background == prior.background,
    })
    &&& (match edit.progress_foreground {
        Some(c) => r.progress_foreground matches Some(s) && s@ == spec_color_string(c),
        None => r.progress_foreground == prior.progress_foreground,
    })
    &&& (match edit.progress_background {
        Some(c) => r.progress_background matches Some(s) && s@ == spec_color_string(c),
        None => r.progress_background == prior.progress_background,
    })
    &&& (match edit.font {
        Some(f) => r.font == Some(f),
        None => r.font == prior.font,
    })
}

fn merge_color_field(e: &Option<Color>, prior: &Option<String>) -> (r: Option<String>)
    ensures
        match e {
            Some(c) => r matches Some(s) && s@ == spec_color_string(*c),
            None => r == *prior,
        },
{
    match e {
        Some(c) => Some(c.to_hex_string()),
        None => clone_opt_string(prior),
    }
}

/// Merges a partial edit into the stored row, field-independently: the
/// stored row after the edit command runs.
pub fn apply_edit(existing: &Option<StoredCard>, edit: &CardCommandEdit) -> (r: StoredCard)
    ensures
        edit_applied(*existing, *edit, r),
{
    let empty = StoredCard::empty();
    let prior: &StoredCard = match existing {
        Some(row) => row,
        None => &empty,
    };
    StoredCard {
        important: merge_color_field(&edit.important, &prior.important),
        secondary: merge_color_field(&edit.secondary, &prior.secondary),
        rank: merge_color_field(&edit.rank, &prior.rank),
        level: merge_color_field(&edit.level, &prior.level),
        border: merge_color_field(&edit.border, &prior.border),
        background: merge_color_field(&edit.background, &prior.background),
        progress_foreground: merge_color_field(&edit.progress_foreground, &prior.progress_foreground),
        progress_background: merge_color_field(&edit.progress_background, &prior.progress_background),
        font: match &edit.font {
            Some(f) => Some(f.clone()),
            None => clone_opt_string(&prior.font),
        },
    }
}

/// One line of the theme listing: the label, the effective color in
/// backticks, and a `(default)` mark exactly when the effective color
/// equals the slot's hard-coded default.
pub open spec fn spec_color_line(label: Seq<char>, c: Color, d: Color) -> Seq<char> {
    label + ": `"@ + spec_color_string(c) + "`"@ + if c == d {
        " (default)\n"@
    } else {
        "\n"@
    }
}

/// The full eight-line listing of a palette.
pub open spec fn spec_describe_colors(c: Colors) -> Seq<char> {
    spec_color_line("Important text"@, c.important, spec_default_important())
        + spec_color_line("Secondary text"@, c.secondary, spec_default_secondary())
        + spec_color_line("Rank"@, c.rank, spec_default_rank())
        + spec_color_line("Level"@, c.level, spec_default_level())
        + spec_color_line("Border"@, c.border, spec_default_border())
        + spec_color_line("Background"@, c.background, spec_default_background())
        + spec_color_line("Progress bar completed"@, c.progress_foreground, spec_default_progress_foreground())
        + spec_color_line("Progress bar remaining"@, c.progress_background, spec_default_progress_background())
}

/// The font part of the fetch listing: the stored font name verbatim,
/// or the marked default.
pub open spec fn spec_font_text(row: Option<StoredCard>) -> Seq<char> {
    match row {
        None => "`Roboto` (default)\n"@,
        Some(c) => match c.font {
            None => "`Roboto` (default)\n"@,
            Some(f) => f@,
        },
    }
}

/// Everything the fetch command answers: the effective palette listing
/// and the font line.
pub open spec fn spec_fetch_text(row: Option<StoredCard>) -> Seq<char> {
    spec_describe_colors(spec_colors_of(row)) + "Font: "@ + spec_font_text(row)
}

fn append_color_line(out: &mut String, label: &str, c: Color, d: Color)
    ensures
        final(out)@ == old(out)@ + spec_color_line(label@, c, d),
{
    out.append(label);
    out.append(": `");
    let hex = c.to_hex_string();
    out.append(hex.as_str());
    out.append("`");
    if c.red == d.red && c.green == d.green && c.blue == d.blue {
        out.append(" (default)\n");
    } else {
        out.append("\n");
    }
    proof {
        assert(final(out)@ =~= old(out)@ + spec_color_line(label@, c, d));
    }
}

/// The eight-line listing of a palette, each slot annotated `(default)`
/// exactly when its effective color is the hard-coded default.
pub fn describe_colors(c: &Colors) -> (r: String)
    ensures
        r@ == spec_describe_colors(*c),
{
    let mut out = String::new();
    append_color_line(&mut out, "Important text", c.important, Color::new(255, 255, 255));
    append_color_line(&mut out, "Secondary text", c.secondary, Color::new(204, 204, 204));
    append_color_line(&mut out, "Rank", c.rank, Color::new(255, 255, 255));
    append_color_line(&mut out, "Level", c.level, Color::new(143, 202, 92));
    append_color_line(&mut out, "Border", c.border, Color::new(133, 79, 43));
    append_color_line(&mut out, "Background", c.background, Color::new(97, 55, 31));
    append_color_line(&mut out, "Progress bar completed", c.progress_foreground, Color::new(71, 122, 30));
    append_color_line(&mut out, "Progress bar remaining", c.progress_background, Color::new(143, 202, 92));
    proof {
        assert(out@ =~= spec_describe_colors(*c));
    }
    out
}

/// The fetch command's full answer for a stored row.
pub fn fetch_text(row: &Option<StoredCard>) -> (r: String)
    ensures
        r@ == spec_fetch_text(*row),
{
    let colors = Colors::for_stored(row);
    let mut out = describe_colors(&colors);
    out.append("Font: ");
    match row {
        None => out.append("`Roboto` (default)\n"),
        Some(c) => match &c.font {
            None => out.append("`Roboto` (default)\n"),
            Some(f) => out.append(f.as_str()),
        },
    }
    proof {
        assert(out@ =~= spec_fetch_text(*row));
    }
    out
}

/// A fetch with no stored row (or an empty one) sees exactly the
/// hard-coded default palette, and its listing marks every field
/// `(default)`: each line of the listing of the default palette
/// carries the default mark, since each slot equals its own default.
pub proof fn lemma_absent_row_fetches_defaults()
    ensures
        spec_colors_of(None) == spec_default_colors(),
        spec_fetch_text(None) == spec_fetch_text(Some(spec_empty_card())),
        forall|c: Color, d: Color|
            c == d ==> #[trigger] spec_color_line("x"@, c, d) == "x"@ + ": `"@
                + spec_color_string(c) + "`"@ + " (default)\n"@,
{
    assert(spec_fetch_text(None) =~= spec_fetch_text(Some(spec_empty_card())));
}

/// The write the store must perform for a card subcommand.
#[derive(Debug)]
pub enum CardEffect {
    /// Upsert this row for the invoker.
    Store(StoredCard),
    /// Delete the invoker's row.
    Clear,
    /// No write.
    Nothing,
}

/// A card subcommand's outcome: the store write to perform and the
/// text answered to the user.
#[derive(Debug)]
pub struct CardOutcome {
    pub effect: CardEffect,
    pub message: String,
}

/// Whose stored row a card subcommand reads or writes: the fetched
/// user if one was named, the invoker otherwise.
pub fn card_subject(data: &CardCommand, invoker: u64) -> (r: u64)
    ensures
        r == (match *data {
            CardCommand::Fetch { user: Some(u) } => u,
            _ => invoker,
        }),
{
    match data {
        CardCommand::Fetch { user: Some(u) } => *u,
        _ => invoker,
    }
}

/// Runs a card subcommand against the subject's stored row (`existing`,
/// `None` when no row is stored or the load failed): reset clears the
/// row, edit merges field-independently, fetch only reads.
pub fn process_colors(data: &CardCommand, existing: &Option<StoredCard>) -> (r: CardOutcome)
    ensures
        data is Reset ==> r.effect is Clear && r.message@ == "Card settings cleared!"@,
        data matches CardCommand::Edit(e) ==> (r.effect matches CardEffect::Store(row)
            && edit_applied(*existing, *e, row)) && r.message@ == "Updated card!"@,
        data is Fetch ==> r.effect is Nothing && r.message@ == spec_fetch_text(*existing),
{
    match data {
        CardCommand::Reset => CardOutcome {
            effect: CardEffect::Clear,
            message: String::from_str("Card settings cleared!"),
        },
        CardCommand::Edit(e) => CardOutcome {
            effect: CardEffect::Store(apply_edit(existing, e)),
            message: String::from_str("Updated card!"),
        },
        CardCommand::Fetch { user: _ } => CardOutcome {
            effect: CardEffect::Nothing,
            message: fetch_text(existing),
        },
    }
}

} // verus!
