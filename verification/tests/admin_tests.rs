use std::collections::HashMap;

use xpd_core::admin::{
    ban_guild_message, bot_stats_message, fmt_opt_u64, guild_stats_message, leave_guild_message,
    pardon_guild_message, process_admin, reset_guild_message, reset_user_message,
    set_nick_message, AdminAction, AdminCommand, AdminError,
};
use xpd_core::levels::rank_of;

const CONTROL: u64 = 1000;
const OWNER: u64 = 42;

fn owners() -> Vec<u64> {
    vec![7, OWNER, 9]
}

#[test]
fn wrong_guild_always_fails_unauthorized() {
    // even a command that would otherwise be invalid fails the same way
    let commands = [
        AdminCommand::Stats,
        AdminCommand::Leave { guild: "not-a-number".to_string() },
        AdminCommand::ResetGuild { guild: "123".to_string() },
    ];
    for data in commands {
        let r = process_admin(data, CONTROL + 1, OWNER, CONTROL, &owners());
        assert_eq!(r.unwrap_err(), AdminError::NotControlGuild);
    }
}

#[test]
fn non_owner_always_fails_unauthorized() {
    let r = process_admin(AdminCommand::Stats, CONTROL, 5, CONTROL, &owners());
    assert_eq!(r.unwrap_err(), AdminError::NotControlUser);
}

#[test]
fn authorized_leave_parses_its_guild() {
    let r = process_admin(
        AdminCommand::Leave { guild: "123".to_string() },
        CONTROL,
        OWNER,
        CONTROL,
        &owners(),
    );
    assert!(matches!(r.unwrap(), AdminAction::Leave { guild: 123 }));
}

#[test]
fn malformed_guild_ids_are_rejected_after_authorization() {
    for bad in ["", "abc", "12a", "0", "18446744073709551616"] {
        let r = process_admin(
            AdminCommand::BanGuild { guild: bad.to_string(), duration: None },
            CONTROL,
            OWNER,
            CONTROL,
            &owners(),
        );
        assert_eq!(r.unwrap_err(), AdminError::InvalidId, "input {bad:?}");
    }
}

#[test]
fn full_range_guild_ids_parse() {
    let r = process_admin(
        AdminCommand::PardonGuild { guild: "18446744073709551615".to_string() },
        CONTROL,
        OWNER,
        CONTROL,
        &owners(),
    );
    assert!(matches!(r.unwrap(), AdminAction::PardonGuild { guild: u64::MAX }));
}

#[test]
fn set_nick_keeps_its_name() {
    let r = process_admin(
        AdminCommand::SetNick { guild: "5".to_string(), name: Some("Leveler".to_string()) },
        CONTROL,
        OWNER,
        CONTROL,
        &owners(),
    );
    match r.unwrap() {
        AdminAction::SetNick { guild, name } => {
            assert_eq!(guild, 5);
            assert_eq!(name.as_deref(), Some("Leveler"));
        }
        _ => panic!("set-nick must stay set-nick"),
    }
}

#[test]
fn admin_messages_are_exact() {
    assert_eq!(leave_guild_message(12), "Left guild 12");
    assert_eq!(
        reset_guild_message(12, 7),
        "Reset levels for guild 12. It had 7 users worth of data."
    );
    assert_eq!(
        reset_user_message(3),
        "Reset your levels. They had level data in 3 guilds."
    );
    assert_eq!(
        set_nick_message(&Some("Leveler".to_string()), 5),
        "Set nickname to Leveler in 5"
    );
    assert_eq!(set_nick_message(&None, 5), "Set nickname to {default} in 5");
    assert_eq!(ban_guild_message(8), "Banned guild 8");
    assert_eq!(pardon_guild_message(8), "Pardoned guild 8");
    assert_eq!(
        bot_stats_message(12345, "abc123"),
        "Roughly 12345 levels in database. Bot version `git-abc123`"
    );
}

#[test]
fn guild_stats_message_is_exact() {
    assert_eq!(
        guild_stats_message(31, true, "The Garden", Some(12), Some(99)),
        "31 levels in database for large guild The Garden. Roughly 12 members online of 99 total members."
    );
    assert_eq!(
        guild_stats_message(0, false, "Tiny", None, None),
        "0 levels in database for  guild Tiny. Roughly unknown members online of unknown total members."
    );
}

#[test]
fn fmt_opt_u64_shows_unknown_for_absent() {
    assert_eq!(fmt_opt_u64(None), "unknown");
    assert_eq!(fmt_opt_u64(Some(12)), "12");
}

#[test]
fn reset_user_clears_three_guilds() {
    // level tables of three guilds, the target user in each
    let target: u64 = 77;
    let mut store: HashMap<u64, HashMap<u64, u64>> = HashMap::new();
    store.insert(1, HashMap::from([(target, 500), (2, 100)]));
    store.insert(2, HashMap::from([(target, 900)]));
    store.insert(3, HashMap::from([(target, 50), (9, 10)]));

    let action = process_admin(
        AdminCommand::ResetUser { user: target },
        CONTROL,
        OWNER,
        CONTROL,
        &owners(),
    )
    .unwrap();
    let user = match action {
        AdminAction::ResetUser { user } => user,
        _ => panic!("reset-user must stay reset-user"),
    };

    let mut rows_deleted: u64 = 0;
    for levels in store.values_mut() {
        if levels.remove(&user).is_some() {
            rows_deleted += 1;
        }
    }
    assert_eq!(rows_deleted, 3);
    assert_eq!(
        reset_user_message(rows_deleted),
        "Reset your levels. They had level data in 3 guilds."
    );

    // subsequent lookups in those guilds see zero XP (missing row maps to 0)
    for levels in store.values() {
        let xp = levels.get(&user).copied().unwrap_or(0);
        assert_eq!(xp, 0);
        let xs: Vec<u64> = levels.values().copied().collect();
        // the unranked user counts everyone with XP above zero
        assert_eq!(rank_of(&xs, xp) as usize, xs.iter().filter(|v| **v > 0).count() + 1);
    }
}
