//! Guarded admin operations: every one first checks the invoking
//! guild against the control guild and the invoker against the owner
//! set, and fails before any side effect when either check fails.
use vstd::prelude::*;
use crate::strfmt::{spec_all_digits, spec_dec, spec_dec_val};

verus! {

/// An admin subcommand as it arrives: guilds still as the raw strings
/// the administrator typed.
#[derive(Debug)]
pub enum AdminCommand {
    Leave { guild: String },
    ResetGuild { guild: String },
    ResetUser { user: u64 },
    SetNick { guild: String, name: Option<String> },
    BanGuild { guild: String, duration: Option<u64> },
    PardonGuild { guild: String },
    GuildStats { guild: String },
    Stats,
}

/// Why an admin command was refused.
#[derive(Clone, Copy, Debug, PartialEq, Eq, Structural)]
pub enum AdminError {
    /// The command was not invoked from the control guild.
    NotControlGuild,
    /// The invoker is not in the owner set.
    NotControlUser,
    /// A guild identifier string did not parse.
    InvalidId,
}

impl AdminError {
    /// The user-visible failure message. Authorization failures stay
    /// generic: they never say what would otherwise have been valid.
    pub fn message(&self) -> (r: String)
        ensures
            *self is NotControlGuild ==> r@ == "This command can only be used in the control guild!"@,
            *self is NotControlUser ==> r@ == "You are not authorized to use this command!"@,
            *self is InvalidId ==> r@ == "Could not parse the provided guild ID!"@,
    {
        match self {
            AdminError::NotControlGuild => String::from_str(
                "This command can only be used in the control guild!",
            ),
            AdminError::NotControlUser => String::from_str(
                "You are not authorized to use this command!",
            ),
            AdminError::InvalidId => String::from_str("Could not parse the provided guild ID!"),
        }
    }
}

/// The store/REST work an authorized admin command asks for. Producing
/// the action is the whole decision; performing it is the caller's.
#[derive(Debug)]
pub enum AdminAction {
    /// Leave the guild.
    Leave { guild: u64 },
    /// Delete every level row of the guild; the count is reported.
    ResetGuild { guild: u64 },
    /// Delete the user's level rows in every guild; the count is
    /// reported.
    ResetUser { user: u64 },
    /// Override the bot's nickname in the guild (`None` clears it).
    SetNick { guild: u64, name: Option<String> },
    /// Ban the guild from using the bot, optionally for a duration.
    BanGuild { guild: u64, duration: Option<u64> },
    /// Lift a guild ban.
    PardonGuild { guild: u64 },
    /// Report the guild's level count and approximate member counts.
    GuildStats { guild: u64 },
    /// Report bot-wide totals.
    Stats,
}

/// A guild identifier string parses exactly when it is a non-empty
/// run of digits whose value fits in 64 bits and is not zero.
pub open spec fn spec_parse_guild(s: Seq<char>) -> Option<u64> {
    if s.len() > 0 && spec_all_digits(s) && spec_dec_val(s) <= u64::MAX && spec_dec_val(s) != 0 {
        Some(spec_dec_val(s) as u64)
    } else {
        None
    }
}

fn parse_guild(s: &str) -> (r: Option<u64>)
    ensures
        r == spec_parse_guild(s@),
{
    match crate::strfmt::parse_u64(s) {
        Some(v) => if v != 0 {
            Some(v)
        } else {
            None
        },
        None => None,
    }
}

/// The whole admin decision: the authorization gate, then the parse of
/// the guild argument, then the action the subcommand asks for.
pub open spec fn spec_process_admin(
    data: AdminCommand,
    guild_id: u64,
    invoker: u64,
    control_guild: u64,
    owners: Seq<u64>,
) -> Result<AdminAction, AdminError> {
    if guild_id != control_guild {
        Err(AdminError::NotControlGuild)
    } else if !owners.contains(invoker) {
        Err(AdminError::NotControlUser)
    } else {
        match data {
            AdminCommand::Leave { guild } => match spec_parse_guild(guild@) {
                Some(g) => Ok(AdminAction::Leave { guild: g }),
                None => Err(AdminError::InvalidId),
            },
            AdminCommand::ResetGuild { guild } => match spec_parse_guild(guild@) {
                Some(g) => Ok(AdminAction::ResetGuild { guild: g }),
                None => Err(AdminError::InvalidId),
            },
            AdminCommand::ResetUser { user } => Ok(AdminAction::ResetUser { user }),
            AdminCommand::SetNick { guild, name } => match spec_parse_guild(guild@) {
                Some(g) => Ok(AdminAction::SetNick { guild: g, name }),
                None => Err(AdminError::InvalidId),
            },
            AdminCommand::BanGuild { guild, duration } => match spec_parse_guild(guild@) {
                Some(g) => Ok(AdminAction::BanGuild { guild: g, duration }),
                None => Err(AdminError::InvalidId),
            },
            AdminCommand::PardonGuild { guild } => match spec_parse_guild(guild@) {
                Some(g) => Ok(AdminAction::PardonGuild { guild: g }),
                None => Err(AdminError::InvalidId),
            },
            AdminCommand::GuildStats { guild } => match spec_parse_guild(guild@) {
                Some(g) => Ok(AdminAction::GuildStats { guild: g }),
                None => Err(AdminError::InvalidId),
            },
            AdminCommand::Stats => Ok(AdminAction::Stats),
        }
    }
}

fn owners_contain(owners: &Vec<u64>, invoker: u64) -> (r: bool)
    ensures
        r == owners@.contains(invoker),
{
    let mut j: usize = 0;
    while j < owners.len()
        invariant
            0 <= j <= owners@.len(),
            forall|k: int| 0 <= k < j ==> owners@[k] != invoker,
        decreases owners@.len() - j,
    {
        if owners[j] == invoker {
            return true;
        }
        j = j + 1;
    }
    false
}

/// Decides an admin command. An invocation from any guild but the
/// control guild always fails with the unauthorized error before
/// anything else is looked at — regardless of the command's own
/// validity — and no action (so no store mutation) is produced; the
/// same holds of an invoker outside the owner set.
pub fn process_admin(
    data: AdminCommand,
    guild_id: u64,
    invoker: u64,
    control_guild: u64,
    owners: &Vec<u64>,
) -> (r: Result<AdminAction, AdminError>)
    ensures
        r == spec_process_admin(data, guild_id, invoker, control_guild, owners@),
        guild_id != control_guild ==> r == Err::<AdminAction, AdminError>(
            AdminError::NotControlGuild,
        ),
        guild_id == control_guild && !owners@.contains(invoker) ==> r == Err::<
            AdminAction,
            AdminError,
        >(AdminError::NotControlUser),
{
    if guild_id != control_guild {
        return Err(AdminError::NotControlGuild);
    }
    if !owners_contain(owners, invoker) {
        return Err(AdminError::NotControlUser);
    }
    match data {
        AdminCommand::Leave { guild } => match parse_guild(guild.as_str()) {
            Some(g) => Ok(AdminAction::Leave { guild: g }),
            None => Err(AdminError::InvalidId),
        },
        AdminCommand::ResetGuild { guild } => match parse_guild(guild.as_str()) {
            Some(g) => Ok(AdminAction::ResetGuild { guild: g }),
            None => Err(AdminError::InvalidId),
        },
        AdminCommand::ResetUser { user } => Ok(AdminAction::ResetUser { user }),
        AdminCommand::SetNick { guild, name } => match parse_guild(guild.as_str()) {
            Some(g) => Ok(AdminAction::SetNick { guild: g, name }),
            None => Err(AdminError::InvalidId),
        },
        AdminCommand::BanGuild { guild, duration } => match parse_guild(guild.as_str()) {
            Some(g) => Ok(AdminAction::BanGuild { guild: g, duration }),
            None => Err(AdminError::InvalidId),
        },
        AdminCommand::PardonGuild { guild } => match parse_guild(guild.as_str()) {
            Some(g) => Ok(AdminAction::PardonGuild { guild: g }),
            None => Err(AdminError::InvalidId),
        },
        AdminCommand::GuildStats { guild } => match parse_guild(guild.as_str()) {
            Some(g) => Ok(AdminAction::GuildStats { guild: g }),
            None => Err(AdminError::InvalidId),
        },
        AdminCommand::Stats => Ok(AdminAction::Stats),
    }
}

/// `Left guild {guild}`
pub fn leave_guild_message(guild: u64) -> (r: String)
    ensures
        r@ == "Left guild "@ + spec_dec(guild as nat),
{
    let mut out = String::from_str("Left guild ");
    crate::strfmt::append_dec(&mut out, guild);
    out
}

/// `Reset levels for guild {guild}. It had {rows} users worth of data.`
pub fn reset_guild_message(guild: u64, rows: u64) -> (r: String)
    ensures
        r@ == "Reset levels for guild "@ + spec_dec(guild as nat) + ". It had "@ + spec_dec(
            rows as nat,
        ) + " users worth of data."@,
{
    let mut out = String::from_str("Reset levels for guild ");
    crate::strfmt::append_dec(&mut out, guild);
    out.append(". It had ");
    crate::strfmt::append_dec(&mut out, rows);
    out.append(" users worth of data.");
    proof {
        assert(out@ =~= "Reset levels for guild "@ + spec_dec(guild as nat) + ". It had "@
            + spec_dec(rows as nat) + " users worth of data."@);
    }
    out
}

/// `Reset your levels. They had level data in {rows} guilds.`
pub fn reset_user_message(rows: u64) -> (r: String)
    ensures
        r@ == "Reset your levels. They had level data in "@ + spec_dec(rows as nat) + " guilds."@,
{
    let mut out = String::from_str("Reset your levels. They had level data in ");
    crate::strfmt::append_dec(&mut out, rows);
    out.append(" guilds.");
    proof {
        assert(out@ =~= "Reset your levels. They had level data in "@ + spec_dec(rows as nat)
            + " guilds."@);
    }
    out
}

/// `Set nickname to {name} in {guild}`, showing `{default}` for a
/// cleared nickname.
pub fn set_nick_message(name: &Option<String>, guild: u64) -> (r: String)
    ensures
        r@ == "Set nickname to "@ + (match *name {
            Some(n) => n@,
            None => "{default}"@,
        }) + " in "@ + spec_dec(guild as nat),
{
    let mut out = String::from_str("Set nickname to ");
    match name {
        Some(n) => out.append(n.as_str()),
        None => out.append("{default}"),
    }
    out.append(" in ");
    crate::strfmt::append_dec(&mut out, guild);
    proof {
        assert(out@ =~= "Set nickname to "@ + (match *name {
            Some(n) => n@,
            None => "{default}"@,
        }) + " in "@ + spec_dec(guild as nat));
    }
    out
}

/// `Banned guild {guild}`
pub fn ban_guild_message(guild: u64) -> (r: String)
    ensures
        r@ == "Banned guild "@ + spec_dec(guild as nat),
{
    let mut out = String::from_str("Banned guild ");
    crate::strfmt::append_dec(&mut out, guild);
    out
}

/// `Pardoned guild {guild}`
pub fn pardon_guild_message(guild: u64) -> (r: String)
    ensures
        r@ == "Pardoned guild "@ + spec_dec(guild as nat),
{
    let mut out = String::from_str("Pardoned guild ");
    crate::strfmt::append_dec(&mut out, guild);
    out
}

/// An approximate count the platform may not have sent.
pub open spec fn spec_opt_u64(item: Option<u64>) -> Seq<char> {
    match item {
        None => "unknown"@,
        Some(v) => spec_dec(v as nat),
    }
}

/// Shows an optional count, `unknown` when absent.
pub fn fmt_opt_u64(item: Option<u64>) -> (r: String)
    ensures
        r@ == spec_opt_u64(item),
{
    match item {
        None => String::from_str("unknown"),
        Some(v) => crate::strfmt::dec_string(v),
    }
}

/// The guild statistics line, from the level count in the store and
/// what the platform reported of the guild.
pub fn guild_stats_message(
    levels: u64,
    large: bool,
    name: &str,
    online: Option<u64>,
    members: Option<u64>,
) -> (r: String)
    ensures
        r@ == spec_dec(levels as nat) + " levels in database for "@ + (if large {
            "large"@
        } else {
            ""@
        }) + " guild "@ + name@ + ". Roughly "@ + spec_opt_u64(online) + " members online of "@
            + spec_opt_u64(members) + " total members."@,
{
    let mut out = crate::strfmt::dec_string(levels);
    out.append(" levels in database for ");
    if large {
        out.append("large");
    } else {
        proof {
            reveal_strlit("");
        }
    }
    out.append(" guild ");
    out.append(name);
    out.append(". Roughly ");
    let online_text = fmt_opt_u64(online);
    out.append(online_text.as_str());
    out.append(" members online of ");
    let members_text = fmt_opt_u64(members);
    out.append(members_text.as_str());
    out.append(" total members.");
    proof {
        assert(out@ =~= spec_dec(levels as nat) + " levels in database for "@ + (if large {
            "large"@
        } else {
            ""@
        }) + " guild "@ + name@ + ". Roughly "@ + spec_opt_u64(online) + " members online of "@
            + spec_opt_u64(members) + " total members."@);
    }
    out
}

/// The bot-wide statistics line: the total level count and the build
/// identifier.
pub fn bot_stats_message(levels_held: u64, git_sha: &str) -> (r: String)
    ensures
        r@ == "Roughly "@ + spec_dec(levels_held as nat) + " levels in database. Bot version `git-"@
            + git_sha@ + "`"@,
{
    let mut out = String::from_str("Roughly ");
    crate::strfmt::append_dec(&mut out, levels_held);
    out.append(" levels in database. Bot version `git-");
    out.append(git_sha);
    out.append("`");
    proof {
        assert(out@ =~= "Roughly "@ + spec_dec(levels_held as nat)
            + " levels in database. Bot version `git-"@ + git_sha@ + "`"@);
    }
    out
}

} // verus!
