//! Per-guild configuration: the level-up template is compiled (parsed
//! and checked) at construction time, so rendering can never fail on a
//! malformed template.
use vstd::prelude::*;

verus! {

/// The interpolation template type of the `simpleinterpolation` crate,
/// declared so compiled templates can be carried in configuration.
#[verifier::external_type_specification]
#[verifier::external_body]
pub struct ExInterpolation(simpleinterpolation::Interpolation);

/// The parse-error type of the `simpleinterpolation` crate.
#[verifier::external_type_specification]
#[verifier::external_body]
pub struct ExParseError(simpleinterpolation::ParseError);

/// Whether `simpleinterpolation` accepts `s` as a template. The parse
/// is a function of the input text alone.
pub uninterp spec fn template_ok(s: Seq<char>) -> bool;

/// Relies on simpleinterpolation::Interpolation::new: a deterministic
/// parser of the input text, succeeding exactly on well-formed
/// templates, which `template_ok` names.
#[verifier::external_body]
fn compile_template(s: &str) -> (r: Result<
    simpleinterpolation::Interpolation,
    simpleinterpolation::ParseError,
>)
    ensures
        r is Ok <==> template_ok(s@),
{
    simpleinterpolation::Interpolation::new(s)
}

/// A level-up message template that is known to compile, kept with its
/// source text so it can be shown back to the user.
#[derive(Debug)]
pub struct CompiledTemplate {
    pub source: String,
    pub compiled: simpleinterpolation::Interpolation,
}

impl CompiledTemplate {
    /// A compiled template's source is always a well-formed template.
    pub open spec fn wf(&self) -> bool {
        template_ok(self.source@)
    }
}

/// A guild's configuration as the store holds it, untyped.
#[derive(Debug)]
pub struct RawGuildConfig {
    pub one_at_a_time: Option<bool>,
    pub level_up_message: Option<String>,
    pub level_up_channel: Option<i64>,
}

/// A guild's configuration, with the level-up template compiled.
#[derive(Debug)]
pub struct GuildConfig {
    pub one_at_a_time: Option<bool>,
    pub level_up_message: Option<CompiledTemplate>,
    pub level_up_channel: Option<u64>,
}

impl Default for GuildConfig {
    /// A guild with nothing configured.
    fn default() -> (r: Self)
        ensures
            r.one_at_a_time is None,
            r.level_up_message is None,
            r.level_up_channel is None,
    {
        GuildConfig { one_at_a_time: None, level_up_message: None, level_up_channel: None }
    }
}

impl GuildConfig {
    /// Compiles a raw configuration row. Fails exactly when a level-up
    /// message is present and is not a well-formed template, so a
    /// constructed configuration can never fail at render time. The
    /// stored channel identifier is reinterpreted back to its unsigned
    /// platform form.
    pub fn try_from_raw(value: RawGuildConfig) -> (r: Result<GuildConfig, simpleinterpolation::ParseError>)
        ensures
            r is Ok <==> (value.level_up_message matches Some(s) ==> template_ok(s@)),
            r matches Ok(gc) ==> {
                &&& gc.one_at_a_time == value.one_at_a_time
                &&& (match value.level_up_message {
                    Some(s) => gc.level_up_message matches Some(t) && t.source == s && t.wf(),
                    None => gc.level_up_message is None,
                })
                &&& (match value.level_up_channel {
                    Some(db) => gc.level_up_channel == Some(db as u64),
                    None => gc.level_up_channel is None,
                })
            },
    {
        let level_up_message = match value.level_up_message {
            Some(s) => {
                let compiled = match compile_template(s.as_str()) {
                    Ok(c) => c,
                    Err(e) => {
                        return Err(e);
                    },
                };
                Some(CompiledTemplate { source: s, compiled })
            },
            None => None,
        };
        Ok(GuildConfig {
            one_at_a_time: value.one_at_a_time,
            level_up_message,
            level_up_channel: match value.level_up_channel {
                Some(db) => Some(crate::common::db_to_id(db)),
                None => None,
            },
        })
    }
}

/// The text an optional flag is shown as.
pub open spec fn spec_tribool(data: Option<bool>) -> Seq<char> {
    match data {
        None => "unset"@,
        Some(true) => "true"@,
        Some(false) => "false"@,
    }
}

/// Shows an optional flag as `unset`, `true` or `false`.
pub fn tribool(data: Option<bool>) -> (r: &'static str)
    ensures
        r@ == spec_tribool(data),
{
    match data {
        None => "unset",
        Some(true) => "true",
        Some(false) => "false",
    }
}

/// The text an optional string setting is shown as.
pub open spec fn spec_opt_code_str(data: Option<Seq<char>>) -> Seq<char> {
    match data {
        None => "unset"@,
        Some(v) => "`"@ + v + "`"@,
    }
}

/// Shows an optional string setting in backticks, or `unset`.
pub fn opt_code_str(data: Option<&str>) -> (r: String)
    ensures
        r@ == spec_opt_code_str(match data {
            Some(v) => Some(v@),
            None => None,
        }),
{
    match data {
        None => String::from_str("unset"),
        Some(v) => {
            let mut out = String::from_str("`");
            out.append(v);
            out.append("`");
            proof {
                assert(out@ =~= spec_opt_code_str(Some(v@)));
            }
            out
        },
    }
}

/// The text an optional mentionable identifier is shown as.
pub open spec fn spec_opt_mention_str(data: Option<u64>, mention_kind: Seq<char>) -> Seq<char> {
    match data {
        None => "unset"@,
        Some(v) => "`<"@ + mention_kind + crate::strfmt::spec_dec(v as nat) + ">`"@,
    }
}

/// Shows an optional identifier as a platform mention in backticks, or
/// `unset`.
pub fn opt_mention_str(data: Option<u64>, mention_kind: &str) -> (r: String)
    ensures
        r@ == spec_opt_mention_str(data, mention_kind@),
{
    match data {
        None => String::from_str("unset"),
        Some(v) => {
            let mut out = String::from_str("`<");
            out.append(mention_kind);
            crate::strfmt::append_dec(&mut out, v);
            out.append(">`");
            proof {
                assert(out@ =~= spec_opt_mention_str(Some(v), mention_kind@));
            }
            out
        },
    }
}

/// The full configuration listing.
pub open spec fn spec_describe_config(c: GuildConfig) -> Seq<char> {
    "One reward role at a time: "@ + spec_tribool(c.one_at_a_time) + "Level-up message: "@
        + spec_opt_code_str(match c.level_up_message {
        Some(t) => Some(t.source@),
        None => None,
    }) + "Level-up channel: "@ + spec_opt_mention_str(c.level_up_channel, "#"@)
}

impl GuildConfig {
    /// The configuration as shown to an administrator: each setting
    /// with its value or `unset`.
    pub fn describe(&self) -> (r: String)
        ensures
            r@ == spec_describe_config(*self),
    {
        let mut out = String::from_str("One reward role at a time: ");
        out.append(tribool(self.one_at_a_time));
        out.append("Level-up message: ");
        let msg = match &self.level_up_message {
            Some(t) => opt_code_str(Some(t.source.as_str())),
            None => opt_code_str(None),
        };
        out.append(msg.as_str());
        out.append("Level-up channel: ");
        let chan = opt_mention_str(self.level_up_channel, "#");
        out.append(chan.as_str());
        proof {
            assert(out@ =~= spec_describe_config(*self));
        }
        out
    }
}

} // verus!
