//! Shared identity and display-name model: platform users and members,
//! the denormalized display record, the unsigned/signed identifier
//! reinterpretation used by the relational store, and role rewards.
use vstd::prelude::*;

verus! {

/// A platform user record, reduced to the fields this engine reads.
#[derive(Debug)]
pub struct User {
    pub id: u64,
    pub name: String,
    pub global_name: Option<String>,
    pub discriminator: u16,
    pub avatar: Option<String>,
    pub bot: bool,
}

/// A per-guild member record: the user plus guild-local overrides.
#[derive(Debug)]
pub struct Member {
    pub user: User,
    pub nick: Option<String>,
    pub avatar: Option<String>,
}

/// The denormalized display record kept in the name cache.
#[derive(Debug)]
pub struct MemberDisplayInfo {
    pub id: u64,
    pub name: String,
    pub global_name: Option<String>,
    pub nick: Option<String>,
    pub avatar: Option<String>,
    pub local_avatar: Option<String>,
    pub bot: bool,
}

/// The name a record is displayed under.
pub trait DisplayName {
    /// The name this record is displayed under.
    spec fn spec_display_name(&self) -> Seq<char>;

    /// Returns the display name; must match `spec_display_name`.
    fn display_name(&self) -> (r: &str)
        ensures
            r@ == self.spec_display_name(),
    ;
}

impl DisplayName for User {
    /// A user displays as its global display name, else its base name.
    open spec fn spec_display_name(&self) -> Seq<char> {
        match self.global_name {
            Some(g) => g@,
            None => self.name@,
        }
    }

    fn display_name(&self) -> (r: &str) {
        match &self.global_name {
            Some(g) => g.as_str(),
            None => self.name.as_str(),
        }
    }
}

impl DisplayName for Member {
    /// A member displays as its guild nickname, else as its user does.
    open spec fn spec_display_name(&self) -> Seq<char> {
        match self.nick {
            Some(n) => n@,
            None => self.user.spec_display_name(),
        }
    }

    fn display_name(&self) -> (r: &str) {
        match &self.nick {
            Some(n) => n.as_str(),
            None => self.user.display_name(),
        }
    }
}

impl DisplayName for MemberDisplayInfo {
    /// Precedence: guild nickname, else global display name, else base name.
    open spec fn spec_display_name(&self) -> Seq<char> {
        match self.nick {
            Some(n) => n@,
            None => match self.global_name {
                Some(g) => g@,
                None => self.name@,
            },
        }
    }

    fn display_name(&self) -> (r: &str) {
        match &self.nick {
            Some(n) => n.as_str(),
            None => match &self.global_name {
                Some(g) => g.as_str(),
                None => self.name.as_str(),
            },
        }
    }
}

impl From<User> for MemberDisplayInfo {
    /// A bare user record carries no nickname and no guild avatar.
    fn from(value: User) -> (r: Self) {
        MemberDisplayInfo {
            id: value.id,
            name: value.name,
            global_name: value.global_name,
            nick: None,
            avatar: value.avatar,
            local_avatar: None,
            bot: value.bot,
        }
    }
}

impl vstd::std_specs::convert::FromSpecImpl<User> for MemberDisplayInfo {
    open spec fn obeys_from_spec() -> bool {
        true
    }

    open spec fn from_spec(value: User) -> Self {
        MemberDisplayInfo {
            id: value.id,
            name: value.name,
            global_name: value.global_name,
            nick: None,
            avatar: value.avatar,
            local_avatar: None,
            bot: value.bot,
        }
    }
}

impl From<Member> for MemberDisplayInfo {
    /// A member record contributes the nickname and the guild avatar.
    fn from(value: Member) -> (r: Self) {
        MemberDisplayInfo {
            id: value.user.id,
            name: value.user.name,
            global_name: value.user.global_name,
            nick: value.nick,
            avatar: value.user.avatar,
            local_avatar: value.avatar,
            bot: value.user.bot,
        }
    }
}

impl vstd::std_specs::convert::FromSpecImpl<Member> for MemberDisplayInfo {
    open spec fn obeys_from_spec() -> bool {
        true
    }

    open spec fn from_spec(value: Member) -> Self {
        MemberDisplayInfo {
            id: value.user.id,
            name: value.user.name,
            global_name: value.user.global_name,
            nick: value.nick,
            avatar: value.user.avatar,
            local_avatar: value.avatar,
            bot: value.user.bot,
        }
    }
}

impl MemberDisplayInfo {
    /// The same record with the nickname replaced.
    pub fn with_nick(self, nick: Option<String>) -> (r: Self)
        ensures
            r == (MemberDisplayInfo { nick, ..self }),
    {
        MemberDisplayInfo { nick, ..self }
    }
}

/// Reinterpretation of an integer's bits as the same-width integer of
/// the opposite signedness.
pub trait ReinterpretPrimitiveBits<O> {
    /// The value whose bit pattern equals this one's.
    spec fn spec_reinterpret(&self) -> O;

    /// Returns the reinterpretation; must match `spec_reinterpret`.
    fn reinterpret_bits(&self) -> (r: O)
        ensures
            r == self.spec_reinterpret(),
    ;
}

impl ReinterpretPrimitiveBits<i8> for u8 {
    open spec fn spec_reinterpret(&self) -> i8 {
        *self as i8
    }

    fn reinterpret_bits(&self) -> (r: i8) {
        #[verifier::truncate] (*self as i8)
    }
}

impl ReinterpretPrimitiveBits<i16> for u16 {
    open spec fn spec_reinterpret(&self) -> i16 {
        *self as i16
    }

    fn reinterpret_bits(&self) -> (r: i16) {
        #[verifier::truncate] (*self as i16)
    }
}

impl ReinterpretPrimitiveBits<i32> for u32 {
    open spec fn spec_reinterpret(&self) -> i32 {
        *self as i32
    }

    fn reinterpret_bits(&self) -> (r: i32) {
        #[verifier::truncate] (*self as i32)
    }
}

impl ReinterpretPrimitiveBits<i64> for u64 {
    open spec fn spec_reinterpret(&self) -> i64 {
        *self as i64
    }

    fn reinterpret_bits(&self) -> (r: i64) {
        #[verifier::truncate] (*self as i64)
    }
}

impl ReinterpretPrimitiveBits<i128> for u128 {
    open spec fn spec_reinterpret(&self) -> i128 {
        *self as i128
    }

    fn reinterpret_bits(&self) -> (r: i128) {
        #[verifier::truncate] (*self as i128)
    }
}

impl ReinterpretPrimitiveBits<u8> for i8 {
    open spec fn spec_reinterpret(&self) -> u8 {
        *self as u8
    }

    fn reinterpret_bits(&self) -> (r: u8) {
        #[verifier::truncate] (*self as u8)
    }
}

impl ReinterpretPrimitiveBits<u16> for i16 {
    open spec fn spec_reinterpret(&self) -> u16 {
        *self as u16
    }

    fn reinterpret_bits(&self) -> (r: u16) {
        #[verifier::truncate] (*self as u16)
    }
}

impl ReinterpretPrimitiveBits<u32> for i32 {
    open spec fn spec_reinterpret(&self) -> u32 {
        *self as u32
    }

    fn reinterpret_bits(&self) -> (r: u32) {
        #[verifier::truncate] (*self as u32)
    }
}

impl ReinterpretPrimitiveBits<u64> for i64 {
    open spec fn spec_reinterpret(&self) -> u64 {
        *self as u64
    }

    fn reinterpret_bits(&self) -> (r: u64) {
        #[verifier::truncate] (*self as u64)
    }
}

impl ReinterpretPrimitiveBits<u128> for i128 {
    open spec fn spec_reinterpret(&self) -> u128 {
        *self as u128
    }

    fn reinterpret_bits(&self) -> (r: u128) {
        #[verifier::truncate] (*self as u128)
    }
}

/// A platform identifier as the relational store holds it: the same
/// 64 bits read as a signed integer. Essentially a no-op.
pub fn id_to_db(id: u64) -> (r: i64)
    ensures
        r == id as i64,
{
    id.reinterpret_bits()
}

/// A stored signed identifier read back as the platform's unsigned
/// form. Essentially a no-op.
pub fn db_to_id(db: i64) -> (r: u64)
    ensures
        r == db as u64,
{
    db.reinterpret_bits()
}

/// Bit-reinterpretation round-trips: decoding an encoded identifier
/// yields the identifier, over the full unsigned 64-bit range.
pub proof fn lemma_id_roundtrip(id: u64)
    ensures
        (id as i64) as u64 == id,
{
    assert((id as i64) as u64 == id) by (bit_vector);
}

/// A role granted at an XP requirement.
#[derive(Debug)]
pub struct RoleReward {
    pub id: u64,
    pub requirement: i64,
}

/// The comparator that keeps reward lists sorted ascending by
/// requirement, so consumers can walk them for the highest reward an
/// XP total qualifies for.
pub fn sort_rewards(a: &RoleReward, b: &RoleReward) -> (r: core::cmp::Ordering)
    ensures
        r is Less <==> a.requirement < b.requirement,
        r is Equal <==> a.requirement == b.requirement,
        r is Greater <==> a.requirement > b.requirement,
{
    if a.requirement < b.requirement {
        core::cmp::Ordering::Less
    } else if a.requirement == b.requirement {
        core::cmp::Ordering::Equal
    } else {
        core::cmp::Ordering::Greater
    }
}

} // verus!
