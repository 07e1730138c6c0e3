use std::cmp::Ordering;

use xpd_core::cache::{cache_entries, cache_key};
use xpd_core::common::{
    db_to_id, id_to_db, DisplayName, Member, MemberDisplayInfo, ReinterpretPrimitiveBits,
    RoleReward, User, sort_rewards,
};
use xpd_core::strfmt::{append_dec, append_discriminator, dec_string, parse_u64};

fn plain_user() -> User {
    User {
        id: 1,
        name: "base".to_string(),
        global_name: None,
        discriminator: 7,
        avatar: None,
        bot: false,
    }
}

#[test]
fn user_display_name_prefers_global_name() {
    let mut u = plain_user();
    assert_eq!(u.display_name(), "base");
    u.global_name = Some("global".to_string());
    assert_eq!(u.display_name(), "global");
}

#[test]
fn member_display_name_prefers_nick() {
    let mut m = Member {
        user: plain_user(),
        nick: None,
        avatar: None,
    };
    m.user.global_name = Some("global".to_string());
    assert_eq!(m.display_name(), "global");
    m.nick = Some("nick".to_string());
    assert_eq!(m.display_name(), "nick");
}

#[test]
fn display_info_precedence_is_nick_global_base() {
    let mut info = MemberDisplayInfo::from(plain_user());
    assert_eq!(info.display_name(), "base");
    info.global_name = Some("global".to_string());
    assert_eq!(info.display_name(), "global");
    let info = info.with_nick(Some("nick".to_string()));
    assert_eq!(info.display_name(), "nick");
}

#[test]
fn display_info_from_member_takes_guild_fields() {
    let m = Member {
        user: plain_user(),
        nick: Some("nick".to_string()),
        avatar: Some("guildhash".to_string()),
    };
    let info = MemberDisplayInfo::from(m);
    assert_eq!(info.nick.as_deref(), Some("nick"));
    assert_eq!(info.local_avatar.as_deref(), Some("guildhash"));
    assert_eq!(info.name, "base");
}

#[test]
fn display_info_from_user_has_no_guild_fields() {
    let info = MemberDisplayInfo::from(plain_user());
    assert_eq!(info.nick, None);
    assert_eq!(info.local_avatar, None);
}

#[test]
fn id_encoding_round_trips_over_the_full_range() {
    for id in [0u64, 1, 42, i64::MAX as u64, i64::MAX as u64 + 1, u64::MAX] {
        assert_eq!(db_to_id(id_to_db(id)), id);
    }
    assert_eq!(id_to_db(u64::MAX), -1);
    assert_eq!(db_to_id(-1), u64::MAX);
}

#[test]
fn reinterpret_bits_is_the_identity_on_bit_patterns() {
    let a: u8 = 0xFF;
    let b: i8 = a.reinterpret_bits();
    assert_eq!(b, -1);
    let c: u8 = b.reinterpret_bits();
    assert_eq!(c, 0xFF);
    let d: i16 = 0x7FFFu16.reinterpret_bits();
    assert_eq!(d, i16::MAX);
    let e: u32 = (-2i32).reinterpret_bits();
    assert_eq!(e, u32::MAX - 1);
    let f: i128 = u128::MAX.reinterpret_bits();
    assert_eq!(f, -1);
}

#[test]
fn rewards_sort_ascending_by_requirement() {
    let low = RoleReward { id: 1, requirement: 10 };
    let high = RoleReward { id: 2, requirement: 20 };
    assert_eq!(sort_rewards(&low, &high), Ordering::Less);
    assert_eq!(sort_rewards(&high, &low), Ordering::Greater);
    assert_eq!(sort_rewards(&low, &low), Ordering::Equal);
    let mut v = vec![
        RoleReward { id: 1, requirement: 500 },
        RoleReward { id: 2, requirement: 5 },
        RoleReward { id: 3, requirement: 50 },
    ];
    v.sort_by(sort_rewards);
    let reqs: Vec<i64> = v.iter().map(|r| r.requirement).collect();
    assert_eq!(reqs, vec![5, 50, 500]);
}

#[test]
fn decimal_formatting_is_exact() {
    assert_eq!(dec_string(0), "0");
    assert_eq!(dec_string(7), "7");
    assert_eq!(dec_string(1203), "1203");
    assert_eq!(dec_string(u64::MAX), "18446744073709551615");
    let mut s = String::new();
    append_dec(&mut s, 10);
    append_dec(&mut s, 0);
    assert_eq!(s, "100");
}

#[test]
fn discriminators_pad_to_four_digits() {
    let cases = [(1u16, "0001"), (12, "0012"), (123, "0123"), (1234, "1234"), (65535, "65535")];
    for (n, want) in cases {
        let mut s = String::new();
        append_discriminator(&mut s, n);
        assert_eq!(s, want);
    }
}

#[test]
fn decimal_parsing_accepts_exactly_u64_values() {
    assert_eq!(parse_u64("0"), Some(0));
    assert_eq!(parse_u64("0042"), Some(42));
    assert_eq!(parse_u64("18446744073709551615"), Some(u64::MAX));
    assert_eq!(parse_u64(""), None);
    assert_eq!(parse_u64("12a"), None);
    assert_eq!(parse_u64("-1"), None);
    assert_eq!(parse_u64(" 1"), None);
    assert_eq!(parse_u64("18446744073709551616"), None);
}

#[test]
fn cache_keys_embed_the_user_id() {
    assert_eq!(cache_key(0), "cache-user-0");
    assert_eq!(cache_key(123456789), "cache-user-123456789");
}

#[test]
fn cache_entries_pair_each_record_with_its_key() {
    let users = vec![
        (1u64, "{\"id\":1}".to_string()),
        (2u64, "{\"id\":2}".to_string()),
    ];
    let entries = cache_entries(&users);
    assert_eq!(entries.len(), 2);
    assert_eq!(entries[0].0, "cache-user-1");
    assert_eq!(entries[0].1, "{\"id\":1}");
    assert_eq!(entries[1].0, "cache-user-2");
    assert_eq!(entries[1].1, "{\"id\":2}");
}
