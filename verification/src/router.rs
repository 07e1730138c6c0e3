//! The command router: classifies a decoded interaction, resolves the
//! acting user and the target strictly from the interaction's own
//! resolved-entity payload, and decides which operation runs. Every
//! missing expected field maps to a distinct error; nothing here
//! panics on malformed platform input.
use vstd::prelude::*;
use crate::common::User;
use crate::levels::{spec_level_cost, spec_total_xp};
use crate::strfmt::spec_discriminator;

verus! {

/// What kind of interaction the platform sent.
#[derive(Debug)]
pub enum InteractionKind {
    ApplicationCommand,
    Other,
}

/// The payload attached to an interaction.
#[derive(Debug)]
pub enum InteractionData {
    ApplicationCommand(CommandData),
    Other,
}

/// The category of an application command.
#[derive(Debug)]
pub enum CommandKind {
    ChatInput,
    User,
    Message,
    Other,
}

/// The value a command option carries.
#[derive(Debug)]
pub enum CommandOptionValue {
    User(u64),
    Other,
}

/// One named option of a command invocation.
#[derive(Debug)]
pub struct CommandDataOption {
    pub name: String,
    pub value: CommandOptionValue,
}

/// A message in the resolved-entity payload, reduced to what the
/// router reads: its identifier and its author.
#[derive(Debug)]
pub struct ResolvedMessage {
    pub id: u64,
    pub author: User,
}

/// The interaction's pre-resolved entities. Targets are resolved from
/// here and never from a secondary fetch.
#[derive(Debug)]
pub struct ResolvedData {
    pub users: Vec<User>,
    pub messages: Vec<ResolvedMessage>,
}

/// An application command invocation.
#[derive(Debug)]
pub struct CommandData {
    pub kind: CommandKind,
    pub name: String,
    pub options: Vec<CommandDataOption>,
    pub resolved: Option<ResolvedData>,
    pub target_id: Option<u64>,
}

/// A guild member record as it arrives on an interaction: the inner
/// user record is itself optional.
#[derive(Debug)]
pub struct PartialMember {
    pub user: Option<User>,
}

/// A decoded interaction, reduced to the fields the router reads.
#[derive(Debug)]
pub struct Interaction {
    pub kind: InteractionKind,
    pub data: Option<InteractionData>,
    pub member: Option<PartialMember>,
    pub user: Option<User>,
    pub guild_id: Option<u64>,
}

/// Why the router rejected an interaction.
#[derive(Clone, Copy, Debug, PartialEq, Eq, Structural)]
pub enum CommandProcessorError {
    /// The command name matches nothing known.
    UnrecognizedCommand,
    /// No user record arrived for the command invoker.
    NoInvoker,
    /// No user record arrived for the command target.
    NoTarget,
    /// The resolved-entity payload is missing.
    NoResolvedData,
    /// A context command arrived without its target identifier.
    NoMessageTargetId,
    /// Interaction data of an unsupported interaction type arrived.
    WrongInteractionData,
    /// No interaction data arrived at all.
    NoInteractionData,
}

impl CommandProcessorError {
    /// The user-visible failure message.
    pub fn message(&self) -> (r: String)
        ensures
            r@ == spec_error_message(*self),
    {
        match self {
            CommandProcessorError::UnrecognizedCommand => String::from_str(
                "Discord sent a command that is not known!",
            ),
            CommandProcessorError::NoInvoker => String::from_str(
                "Discord did not send a user object for the command invoker when it was required!",
            ),
            CommandProcessorError::NoTarget => String::from_str(
                "Discord did not send a user object for the command target when it was required!",
            ),
            CommandProcessorError::NoResolvedData => String::from_str(
                "Discord did not send part of the Resolved Data!",
            ),
            CommandProcessorError::NoMessageTargetId => String::from_str(
                "Discord did not send target ID for message!",
            ),
            CommandProcessorError::WrongInteractionData => String::from_str(
                "Discord sent interaction data for an unsupported interaction type!",
            ),
            CommandProcessorError::NoInteractionData => String::from_str(
                "Discord did not send any interaction data!",
            ),
        }
    }
}

/// The user-visible message of each router error.
pub open spec fn spec_error_message(e: CommandProcessorError) -> Seq<char> {
    match e {
        CommandProcessorError::UnrecognizedCommand => "Discord sent a command that is not known!"@,
        CommandProcessorError::NoInvoker => "Discord did not send a user object for the command invoker when it was required!"@,
        CommandProcessorError::NoTarget => "Discord did not send a user object for the command target when it was required!"@,
        CommandProcessorError::NoResolvedData => "Discord did not send part of the Resolved Data!"@,
        CommandProcessorError::NoMessageTargetId => "Discord did not send target ID for message!"@,
        CommandProcessorError::WrongInteractionData => "Discord sent interaction data for an unsupported interaction type!"@,
        CommandProcessorError::NoInteractionData => "Discord did not send any interaction data!"@,
    }
}

/// Where the router sends an interaction.
#[derive(Debug)]
pub enum Routed {
    /// Acknowledge a non-command interaction and do nothing.
    Pong,
    /// Answer a rank/level lookup for `target`.
    RankOf { target: User, invoker_id: u64 },
    /// Hand the `xp` command with its payload to the card subprocessor.
    Xp { data: CommandData, guild_id: Option<u64>, invoker: User },
}

/// The first resolved user with the given identifier.
pub open spec fn spec_lookup_user(users: Seq<User>, id: u64) -> Option<User>
    decreases users.len(),
{
    if users.len() == 0 {
        None
    } else if users[0].id == id {
        Some(users[0])
    } else {
        spec_lookup_user(users.drop_first(), id)
    }
}

/// The first resolved message with the given identifier.
pub open spec fn spec_lookup_message(msgs: Seq<ResolvedMessage>, id: u64) -> Option<ResolvedMessage>
    decreases msgs.len(),
{
    if msgs.len() == 0 {
        None
    } else if msgs[0].id == id {
        Some(msgs[0])
    } else {
        spec_lookup_message(msgs.drop_first(), id)
    }
}

/// The target the first `user` option carrying a user value names, if
/// any option does.
pub open spec fn spec_first_user_option(options: Seq<CommandDataOption>) -> Option<u64>
    decreases options.len(),
{
    if options.len() == 0 {
        None
    } else if options[0].name@ == "user"@ && options[0].value is User {
        Some(options[0].value->User_0)
    } else {
        spec_first_user_option(options.drop_first())
    }
}

/// The routing decision for a chat-input command.
pub open spec fn spec_route_slash(data: CommandData, guild_id: Option<u64>, invoker: User) -> Result<
    Routed,
    CommandProcessorError,
> {
    if data.name@ == "rank"@ || data.name@ == "level"@ {
        match spec_first_user_option(data.options@) {
            Some(uid) => match data.resolved {
                None => Err(CommandProcessorError::NoResolvedData),
                Some(res) => match spec_lookup_user(res.users@, uid) {
                    None => Err(CommandProcessorError::NoTarget),
                    Some(target) => Ok(Routed::RankOf { target, invoker_id: invoker.id }),
                },
            },
            None => Ok(Routed::RankOf { target: invoker, invoker_id: invoker.id }),
        }
    } else if data.name@ == "xp"@ {
        Ok(Routed::Xp { data, guild_id, invoker })
    } else {
        Err(CommandProcessorError::UnrecognizedCommand)
    }
}

/// The routing decision for a user-context command.
pub open spec fn spec_route_user_cmd(data: CommandData, invoker: User) -> Result<
    Routed,
    CommandProcessorError,
> {
    match data.target_id {
        None => Err(CommandProcessorError::NoMessageTargetId),
        Some(tid) => match data.resolved {
            None => Err(CommandProcessorError::NoResolvedData),
            Some(res) => match spec_lookup_user(res.users@, tid) {
                None => Err(CommandProcessorError::NoTarget),
                Some(target) => Ok(Routed::RankOf { target, invoker_id: invoker.id }),
            },
        },
    }
}

/// The routing decision for a message-context command: the target is
/// the resolved message's author.
pub open spec fn spec_route_msg_cmd(data: CommandData, invoker: User) -> Result<
    Routed,
    CommandProcessorError,
> {
    match data.target_id {
        None => Err(CommandProcessorError::NoMessageTargetId),
        Some(tid) => match data.resolved {
            None => Err(CommandProcessorError::NoResolvedData),
            Some(res) => match spec_lookup_message(res.messages@, tid) {
                None => Err(CommandProcessorError::NoTarget),
                Some(msg) => Ok(Routed::RankOf { target: msg.author, invoker_id: invoker.id }),
            },
        },
    }
}

/// The router's whole decision: a non-command interaction is answered
/// with a bare acknowledgment; the invoker is preferred from the
/// member record; command categories branch as the platform defines
/// them; everything unrecognized is a distinct error.
pub open spec fn spec_process(i: Interaction) -> Result<Routed, CommandProcessorError> {
    if !(i.kind is ApplicationCommand) {
        Ok(Routed::Pong)
    } else {
        match i.data {
            None => Err(CommandProcessorError::NoInteractionData),
            Some(InteractionData::Other) => Err(CommandProcessorError::WrongInteractionData),
            Some(InteractionData::ApplicationCommand(data)) => {
                let invoker_opt = match i.member {
                    Some(m) => m.user,
                    None => i.user,
                };
                match invoker_opt {
                    None => Err(CommandProcessorError::NoInvoker),
                    Some(invoker) => match data.kind {
                        CommandKind::ChatInput => spec_route_slash(data, i.guild_id, invoker),
                        CommandKind::User => spec_route_user_cmd(data, invoker),
                        CommandKind::Message => spec_route_msg_cmd(data, invoker),
                        CommandKind::Other => Err(CommandProcessorError::WrongInteractionData),
                    },
                }
            },
        }
    }
}

/// A found index pins the lookup result.
proof fn lemma_lookup_user_found(users: Seq<User>, id: u64, j: int)
    requires
        0 <= j < users.len(),
        forall|k: int| 0 <= k < j ==> users[k].id != id,
        users[j].id == id,
    ensures
        spec_lookup_user(users, id) == Some(users[j]),
    decreases j,
{
    if j > 0 {
        lemma_lookup_user_found(users.drop_first(), id, j - 1);
    }
}

/// A full scan without a match pins the lookup to nothing.
proof fn lemma_lookup_user_missing(users: Seq<User>, id: u64)
    requires
        forall|k: int| 0 <= k < users.len() ==> users[k].id != id,
    ensures
        spec_lookup_user(users, id) is None,
    decreases users.len(),
{
    if users.len() > 0 {
        lemma_lookup_user_missing(users.drop_first(), id);
    }
}

proof fn lemma_lookup_message_found(msgs: Seq<ResolvedMessage>, id: u64, j: int)
    requires
        0 <= j < msgs.len(),
        forall|k: int| 0 <= k < j ==> msgs[k].id != id,
        msgs[j].id == id,
    ensures
        spec_lookup_message(msgs, id) == Some(msgs[j]),
    decreases j,
{
    if j > 0 {
        lemma_lookup_message_found(msgs.drop_first(), id, j - 1);
    }
}

proof fn lemma_lookup_message_missing(msgs: Seq<ResolvedMessage>, id: u64)
    requires
        forall|k: int| 0 <= k < msgs.len() ==> msgs[k].id != id,
    ensures
        spec_lookup_message(msgs, id) is None,
    decreases msgs.len(),
{
    if msgs.len() > 0 {
        lemma_lookup_message_missing(msgs.drop_first(), id);
    }
}

proof fn lemma_first_user_option_found(options: Seq<CommandDataOption>, j: int)
    requires
        0 <= j < options.len(),
        forall|k: int| 0 <= k < j ==> !(options[k].name@ == "user"@ && options[k].value is User),
        options[j].name@ == "user"@ && options[j].value is User,
    ensures
        spec_first_user_option(options) == Some(options[j].value->User_0),
    decreases j,
{
    if j > 0 {
        lemma_first_user_option_found(options.drop_first(), j - 1);
    }
}

proof fn lemma_first_user_option_missing(options: Seq<CommandDataOption>)
    requires
        forall|k: int| 0 <= k < options.len() ==> !(options[k].name@ == "user"@
            && options[k].value is User),
    ensures
        spec_first_user_option(options) is None,
    decreases options.len(),
{
    if options.len() > 0 {
        lemma_first_user_option_missing(options.drop_first());
    }
}

/// Takes the first resolved user with the given identifier out of the
/// list.
fn take_resolved_user(users: &mut Vec<User>, id: u64) -> (r: Option<User>)
    ensures
        r == spec_lookup_user(old(users)@, id),
{
    let mut j: usize = 0;
    while j < users.len()
        invariant
            users@ == old(users)@,
            0 <= j <= users@.len(),
            forall|k: int| 0 <= k < j ==> users@[k].id != id,
        decreases users@.len() - j,
    {
        if users[j].id == id {
            proof {
                lemma_lookup_user_found(users@, id, j as int);
            }
            let u = users.remove(j);
            return Some(u);
        }
        j = j + 1;
    }
    proof {
        lemma_lookup_user_missing(users@, id);
    }
    None
}

/// Takes the first resolved message with the given identifier out of
/// the list.
fn take_resolved_message(msgs: &mut Vec<ResolvedMessage>, id: u64) -> (r: Option<ResolvedMessage>)
    ensures
        r == spec_lookup_message(old(msgs)@, id),
{
    let mut j: usize = 0;
    while j < msgs.len()
        invariant
            msgs@ == old(msgs)@,
            0 <= j <= msgs@.len(),
            forall|k: int| 0 <= k < msgs@.len() && k < j ==> msgs@[k].id != id,
        decreases msgs@.len() - j,
    {
        if msgs[j].id == id {
            proof {
                lemma_lookup_message_found(msgs@, id, j as int);
            }
            let m = msgs.remove(j);
            return Some(m);
        }
        j = j + 1;
    }
    proof {
        lemma_lookup_message_missing(msgs@, id);
    }
    None
}

/// The index of the first option naming a target user, if any.
fn find_user_option(options: &Vec<CommandDataOption>) -> (r: Option<u64>)
    ensures
        r == spec_first_user_option(options@),
{
    let user_lit = String::from_str("user");
    let mut j: usize = 0;
    while j < options.len()
        invariant
            0 <= j <= options@.len(),
            user_lit@ == "user"@,
            forall|k: int| 0 <= k < j ==> !(options@[k].name@ == "user"@
                && options@[k].value is User),
        decreases options@.len() - j,
    {
        if options[j].name == user_lit {
            match options[j].value {
                CommandOptionValue::User(uid) => {
                    proof {
                        lemma_first_user_option_found(options@, j as int);
                    }
                    return Some(uid);
                },
                CommandOptionValue::Other => {},
            }
        }
        j = j + 1;
    }
    proof {
        lemma_first_user_option_missing(options@);
    }
    None
}

/// Routes a decoded interaction: exactly the decision `spec_process`
/// states, with no side effect.
pub fn process(interaction: Interaction) -> (r: Result<Routed, CommandProcessorError>)
    ensures
        r == spec_process(interaction),
{
    let Interaction { kind, data, member, user, guild_id } = interaction;
    if !(matches!(kind, InteractionKind::ApplicationCommand)) {
        return Ok(Routed::Pong);
    }
    let data = match data {
        None => {
            return Err(CommandProcessorError::NoInteractionData);
        },
        Some(InteractionData::Other) => {
            return Err(CommandProcessorError::WrongInteractionData);
        },
        Some(InteractionData::ApplicationCommand(d)) => d,
    };
    let invoker = match member {
        Some(m) => m.user,
        None => user,
    };
    let invoker = match invoker {
        Some(u) => u,
        None => {
            return Err(CommandProcessorError::NoInvoker);
        },
    };
    match data.kind {
        CommandKind::ChatInput => route_slash(data, guild_id, invoker),
        CommandKind::User => route_user_cmd(data, invoker),
        CommandKind::Message => route_msg_cmd(data, invoker),
        CommandKind::Other => Err(CommandProcessorError::WrongInteractionData),
    }
}

fn route_slash(data: CommandData, guild_id: Option<u64>, invoker: User) -> (r: Result<
    Routed,
    CommandProcessorError,
>)
    ensures
        r == spec_route_slash(data, guild_id, invoker),
{
    let rank_lit = String::from_str("rank");
    let level_lit = String::from_str("level");
    let xp_lit = String::from_str("xp");
    if data.name == rank_lit || data.name == level_lit {
        match find_user_option(&data.options) {
            Some(uid) => {
                match data.resolved {
                    None => Err(CommandProcessorError::NoResolvedData),
                    Some(mut res) => match take_resolved_user(&mut res.users, uid) {
                        None => Err(CommandProcessorError::NoTarget),
                        Some(target) => Ok(Routed::RankOf { target, invoker_id: invoker.id }),
                    },
                }
            },
            None => {
                let invoker_id = invoker.id;
                Ok(Routed::RankOf { target: invoker, invoker_id })
            },
        }
    } else if data.name == xp_lit {
        Ok(Routed::Xp { data, guild_id, invoker })
    } else {
        Err(CommandProcessorError::UnrecognizedCommand)
    }
}

fn route_user_cmd(data: CommandData, invoker: User) -> (r: Result<Routed, CommandProcessorError>)
    ensures
        r == spec_route_user_cmd(data, invoker),
{
    let tid = match data.target_id {
        None => {
            return Err(CommandProcessorError::NoMessageTargetId);
        },
        Some(t) => t,
    };
    match data.resolved {
        None => Err(CommandProcessorError::NoResolvedData),
        Some(mut res) => match take_resolved_user(&mut res.users, tid) {
            None => Err(CommandProcessorError::NoTarget),
            Some(target) => Ok(Routed::RankOf { target, invoker_id: invoker.id }),
        },
    }
}

fn route_msg_cmd(data: CommandData, invoker: User) -> (r: Result<Routed, CommandProcessorError>)
    ensures
        r == spec_route_msg_cmd(data, invoker),
{
    let tid = match data.target_id {
        None => {
            return Err(CommandProcessorError::NoMessageTargetId);
        },
        Some(t) => t,
    };
    match data.resolved {
        None => Err(CommandProcessorError::NoResolvedData),
        Some(mut res) => match take_resolved_message(&mut res.messages, tid) {
            None => Err(CommandProcessorError::NoTarget),
            Some(msg) => Ok(Routed::RankOf { target: msg.author, invoker_id: invoker.id }),
        },
    }
}

/// How a rank/level lookup is answered.
#[derive(Debug)]
pub enum RankReply {
    /// A text-only, ephemeral reply with no card attachment.
    Message(String),
    /// A rendered rank card: the level the XP earns, the 1-based rank,
    /// and the progress fraction `earned / needed` toward the next
    /// level.
    Card { level: u64, rank: u64, earned: u64, needed: u64 },
}

/// The policy of the rank/level answer: bots are never ranked; a
/// zero-XP invoker looking at themself gets the first-person message;
/// a zero-XP target gets the third-person message; anyone else gets a
/// card.
pub fn rank_reply(target: &User, invoker_id: u64, xp: u64, rank: u64) -> (r: RankReply)
    ensures
        target.bot ==> (r matches RankReply::Message(m) && m@
            == "Bots aren't ranked, that would be silly!"@),
        !target.bot && xp == 0 && target.id == invoker_id ==> (r matches RankReply::Message(m)
            && m@ == "You aren't ranked yet, because you haven't sent any messages!"@),
        !target.bot && xp == 0 && target.id != invoker_id ==> (r matches RankReply::Message(m)
            && m@ == target.name@ + "#"@ + spec_discriminator(target.discriminator as nat)
            + " isn't ranked yet, because they haven't sent any messages!"@),
        !target.bot && xp > 0 ==> (r matches RankReply::Card { level, rank: rk, earned, needed } && {
            &&& spec_total_xp(level as nat) <= xp < spec_total_xp(level as nat + 1)
            &&& earned == xp - spec_total_xp(level as nat)
            &&& needed == spec_level_cost(level as nat)
            &&& rk == rank
        }),
{
    if target.bot {
        RankReply::Message(String::from_str("Bots aren't ranked, that would be silly!"))
    } else if xp == 0 && target.id == invoker_id {
        RankReply::Message(
            String::from_str("You aren't ranked yet, because you haven't sent any messages!"),
        )
    } else if xp == 0 {
        let mut m = target.name.clone();
        m.append("#");
        crate::strfmt::append_discriminator(&mut m, target.discriminator);
        m.append(" isn't ranked yet, because they haven't sent any messages!");
        proof {
            assert(m@ =~= target.name@ + "#"@ + spec_discriminator(target.discriminator as nat)
                + " isn't ranked yet, because they haven't sent any messages!"@);
        }
        RankReply::Message(m)
    } else {
        let (level, earned, needed) = crate::levels::level_info(xp);
        RankReply::Card { level, rank, earned, needed }
    }
}

} // verus!
