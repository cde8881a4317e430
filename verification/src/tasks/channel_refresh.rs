//! The statistics channels of the Discord server: which channels to keep, with
//! which permissions, under which names.

use vstd::prelude::*;

use crate::config::StatUpdateConfig;
use crate::services::tautulli::{GetActivity, GetLibrary};
use crate::text::{dec_nat, push_decimal, str_eq, starts_with, has_prefix};

verus! {

/// A guild role, as far as the channel logic reads it.
pub struct RoleInfo {
    pub id: u64,
    pub name: String,
}

/// A guild channel, as far as the channel logic reads it.
pub struct ChannelInfo {
    pub id: u64,
    pub name: String,
}

/// A permission overwrite on a role (`kind` 0): the bits it allows and denies.
#[derive(Clone, Copy, Debug, PartialEq, Eq, Structural)]
pub struct PermissionOverwrite {
    pub id: u64,
    pub kind: u8,
    pub allow: Option<u64>,
    pub deny: Option<u64>,
}

/// Calls `serenity::model::Permissions::VIEW_CHANNEL.bits()`; serenity defines the
/// flag as bit 10.
#[verifier::external_body]
fn view_channel_bits() -> (b: u64)
    ensures
        b == 0x400,
{
    serenity::model::Permissions::VIEW_CHANNEL.bits()
}

/// Calls `serenity::model::Permissions::CONNECT.bits()`; serenity defines the flag as
/// bit 20.
#[verifier::external_body]
fn connect_bits() -> (b: u64)
    ensures
        b == 0x100000,
{
    serenity::model::Permissions::CONNECT.bits()
}

/// Calls `serenity::model::Permissions::MANAGE_CHANNELS.bits()`; serenity defines the
/// flag as bit 4.
#[verifier::external_body]
fn manage_channels_bits() -> (b: u64)
    ensures
        b == 0x10,
{
    serenity::model::Permissions::MANAGE_CHANNELS.bits()
}

/// Calls `serenity::model::Permissions::SEND_MESSAGES.bits()`; serenity defines the
/// flag as bit 11.
#[verifier::external_body]
fn send_messages_bits() -> (b: u64)
    ensures
        b == 0x800,
{
    serenity::model::Permissions::SEND_MESSAGES.bits()
}

/// Converts `serenity::model::channel::ChannelType::Category` to its number, which
/// serenity declares as 4.
#[verifier::external_body]
fn category_channel_type() -> (t: u8)
    ensures
        t == 4,
{
    serenity::model::channel::ChannelType::Category.into()
}

/// Converts `serenity::model::channel::ChannelType::Voice` to its number, which
/// serenity declares as 2.
#[verifier::external_body]
fn voice_channel_type() -> (t: u8)
    ensures
        t == 2,
{
    serenity::model::channel::ChannelType::Voice.into()
}

/// What the bot role may do in the statistics channels: view (bit 10), manage
/// channels (bit 4), send messages (bit 11) and connect (bit 20).
pub open spec fn bot_allow() -> u64 {
    0x100C10
}

/// What the subscriber role may do: view.
pub open spec fn subscriber_allow() -> u64 {
    0x400
}

/// What everyone else may not do: view (bit 10) and connect (bit 20).
pub open spec fn everyone_deny() -> u64 {
    0x100400
}

/// The bot role is allowed everything that everyone else is denied, and subscribers
/// are allowed to view, which everyone else is denied: the channels stay visible to
/// exactly the roles meant to see them.
pub proof fn lemma_overwrites_restore_access()
    ensures
        bot_allow() & everyone_deny() == everyone_deny(),
        subscriber_allow() & everyone_deny() == subscriber_allow(),
        subscriber_allow() & bot_allow() == subscriber_allow(),
{
    assert(0x100C10u64 & 0x100400u64 == 0x100400u64) by (bit_vector);
    assert(0x400u64 & 0x100400u64 == 0x400u64) by (bit_vector);
    assert(0x400u64 & 0x100C10u64 == 0x400u64) by (bit_vector);
}

/// A role that the statistics channels need is missing from the guild.
#[derive(Clone, Copy, Debug, PartialEq, Eq, Structural)]
pub enum ChannelRefreshError {
    /// "unable to find bot role"
    BotRoleNotFound,
    /// "unable to find subscriber role"
    SubscriberRoleNotFound,
    /// "unable to find @everyone role"
    EveryoneRoleNotFound,
}

impl ChannelRefreshError {
    /// The text the error is reported with.
    pub open spec fn message_text(self) -> Seq<char> {
        match self {
            ChannelRefreshError::BotRoleNotFound => "unable to find bot role"@,
            ChannelRefreshError::SubscriberRoleNotFound => "unable to find subscriber role"@,
            ChannelRefreshError::EveryoneRoleNotFound => "unable to find @everyone role"@,
        }
    }

    /// The text the error is reported with.
    pub fn message(&self) -> (m: &'static str)
        ensures
            m@ == self.message_text(),
    {
        match self {
            ChannelRefreshError::BotRoleNotFound => "unable to find bot role",
            ChannelRefreshError::SubscriberRoleNotFound => "unable to find subscriber role",
            ChannelRefreshError::EveryoneRoleNotFound => "unable to find @everyone role",
        }
    }
}

/// The index of the first role called `name`.
#[verifier::opaque]
pub open spec fn first_role_named(roles: Seq<RoleInfo>, name: Seq<char>) -> Option<int> {
    if exists|i: int| 0 <= i < roles.len() && roles[i].name@ == name {
        Some(choose|i: int| 0 <= i < roles.len() && roles[i].name@ == name
            && forall|j: int| 0 <= j < i ==> roles[j].name@ != name)
    } else {
        None
    }
}

/// A predicate holding somewhere below `n` holds at a least index below `n`.
proof fn lemma_least_witness(p: spec_fn(int) -> bool, n: int, i: int)
    requires
        0 <= i < n,
        p(i),
    ensures
        exists|k: int| 0 <= k < n && #[trigger] p(k) && forall|j: int| 0 <= j < k ==> !#[trigger] p(j),
    decreases i,
{
    if exists|j: int| 0 <= j < i && #[trigger] p(j) {
        let j = choose|j: int| 0 <= j < i && #[trigger] p(j);
        lemma_least_witness(p, n, j);
    } else {
        assert(0 <= i < n && p(i) && forall|j: int| 0 <= j < i ==> !#[trigger] p(j));
    }
}

/// What `first_role_named` gives: `Some(i)` names a role called `name` with none
/// before it; `None` means no role is called `name`.
pub proof fn lemma_first_role_named_characterized(roles: Seq<RoleInfo>, name: Seq<char>)
    ensures
        match first_role_named(roles, name) {
            Some(i) => 0 <= i < roles.len() && roles[i].name@ == name && forall|j: int|
                0 <= j < i ==> roles[j].name@ != name,
            None => forall|j: int| 0 <= j < roles.len() ==> roles[j].name@ != name,
        },
{
    reveal(first_role_named);
    if exists|i: int| 0 <= i < roles.len() && roles[i].name@ == name {
        let i = choose|i: int| 0 <= i < roles.len() && roles[i].name@ == name;
        let p = |k: int| 0 <= k < roles.len() && roles[k].name@ == name;
        lemma_least_witness(p, roles.len() as int, i);
        let k = choose|k: int| 0 <= k < roles.len() && #[trigger] p(k) && forall|j: int| 0 <= j < k ==> !#[trigger] p(j);
        assert forall|j: int| 0 <= j < k implies !(roles[j].name@ == name) by {
            assert(!p(j));
        }
        assert(0 <= k < roles.len() && roles[k].name@ == name);
    }
}

/// The first role called `name` is the one at `i` when no role before it is.
pub proof fn lemma_first_role_named(roles: Seq<RoleInfo>, name: Seq<char>, i: int)
    requires
        0 <= i < roles.len(),
        roles[i].name@ == name,
        forall|j: int| 0 <= j < i ==> roles[j].name@ != name,
    ensures
        first_role_named(roles, name) == Some(i),
{
    reveal(first_role_named);
    let k = choose|k: int| 0 <= k < roles.len() && roles[k].name@ == name
        && forall|j: int| 0 <= j < k ==> roles[j].name@ != name;
    assert(0 <= k < roles.len() && roles[k].name@ == name);
    if k < i {
        assert(roles[k].name@ != name);
    } else if k > i {
        assert(roles[i].name@ != name);
    }
}

/// Finds the first role called `name`.
pub fn find_role(roles: &Vec<RoleInfo>, name: &str) -> (r: Option<usize>)
    ensures
        match r {
            Some(i) => i < roles@.len() && first_role_named(roles@, name@) == Some(i as int),
            None => first_role_named(roles@, name@) is None,
        },
{
    let mut i: usize = 0;
    while i < roles.len()
        invariant
            i <= roles@.len(),
            forall|j: int| 0 <= j < i ==> roles@[j].name@ != name@,
        decreases roles.len() - i,
    {
        if str_eq(roles[i].name.as_str(), name) {
            proof { lemma_first_role_named(roles@, name@, i as int); }
            return Some(i);
        }
        i = i + 1;
    }
    proof {
        reveal(first_role_named);
    }
    None
}

/// The overwrites of the statistics channels for the guild's roles, or which role is
/// missing (the bot role is looked up first, then the subscriber role, then `@everyone`).
pub open spec fn overwrites_for(
    roles: Seq<RoleInfo>,
    bot_role: Seq<char>,
    subscriber_role: Seq<char>,
) -> Result<Seq<PermissionOverwrite>, ChannelRefreshError> {
    match first_role_named(roles, bot_role) {
        None => Err(ChannelRefreshError::BotRoleNotFound),
        Some(b) => match first_role_named(roles, subscriber_role) {
            None => Err(ChannelRefreshError::SubscriberRoleNotFound),
            Some(s) => match first_role_named(roles, "@everyone"@) {
                None => Err(ChannelRefreshError::EveryoneRoleNotFound),
                Some(e) => Ok(seq![
                    PermissionOverwrite { id: roles[b].id, kind: 0, allow: Some(bot_allow()), deny: None },
                    PermissionOverwrite { id: roles[s].id, kind: 0, allow: Some(subscriber_allow()), deny: None },
                    PermissionOverwrite { id: roles[e].id, kind: 0, allow: None, deny: Some(everyone_deny()) },
                ]),
            },
        },
    }
}

/// Builds the permission overwrites that the statistics channels carry: the bot role
/// may view, manage, send and connect, subscribers may view, and `@everyone` may
/// neither view nor connect.
pub fn permission_overwrites(roles: &Vec<RoleInfo>, config: &StatUpdateConfig) -> (r: Result<
    Vec<PermissionOverwrite>,
    ChannelRefreshError,
>)
    ensures
        match overwrites_for(roles@, config.bot_role_name@, config.subscriber_role_name@) {
            Ok(o) => r matches Ok(v) && v@ == o,
            Err(e) => r == Err::<Vec<PermissionOverwrite>, ChannelRefreshError>(e),
        },
{
    let bot = match find_role(roles, config.bot_role_name.as_str()) {
        Some(i) => i,
        None => return Err(ChannelRefreshError::BotRoleNotFound),
    };
    let sub = match find_role(roles, config.subscriber_role_name.as_str()) {
        Some(i) => i,
        None => return Err(ChannelRefreshError::SubscriberRoleNotFound),
    };
    proof { reveal_strlit("@everyone"); }
    let everyone = match find_role(roles, "@everyone") {
        Some(i) => i,
        None => return Err(ChannelRefreshError::EveryoneRoleNotFound),
    };
    let view = view_channel_bits();
    let connect = connect_bits();
    let manage = manage_channels_bits();
    let send = send_messages_bits();
    let bot_perms = view | manage | send | connect;
    let sub_perms = view;
    let everyone_perms = view | connect;
    assert(0x400u64 | 0x10u64 | 0x800u64 | 0x100000u64 == 0x100C10u64) by (bit_vector);
    assert(0x400u64 | 0x100000u64 == 0x100400u64) by (bit_vector);
    let mut overwrites: Vec<PermissionOverwrite> = Vec::new();
    overwrites.push(PermissionOverwrite { id: roles[bot].id, kind: 0, allow: Some(bot_perms), deny: None });
    overwrites.push(PermissionOverwrite { id: roles[sub].id, kind: 0, allow: Some(sub_perms), deny: None });
    overwrites.push(
        PermissionOverwrite { id: roles[everyone].id, kind: 0, allow: None, deny: Some(everyone_perms) },
    );
    assert(overwrites@ =~= overwrites_for(roles@, config.bot_role_name@, config.subscriber_role_name@)->Ok_0);
    Ok(overwrites)
}

fn copy_overwrites(v: &Vec<PermissionOverwrite>) -> (r: Vec<PermissionOverwrite>)
    ensures
        r@ == v@,
{
    let mut r: Vec<PermissionOverwrite> = Vec::new();
    let mut i: usize = 0;
    while i < v.len()
        invariant
            i <= v@.len(),
            r@ == v@.subrange(0, i as int),
        decreases v.len() - i,
    {
        r.push(v[i]);
        i = i + 1;
        assert(r@ =~= v@.subrange(0, i as int));
    }
    assert(v@.subrange(0, v@.len() as int) =~= v@);
    r
}

/// The kind of a statistics channel.
#[derive(Clone, Copy, Debug, PartialEq, Eq, Structural)]
pub enum ChannelKind {
    Category,
    Voice,
}

/// What a statistics channel is created with, if it does not exist yet.
pub struct CreateChannelConfig {
    pub name_prefix: String,
    pub position: Option<u8>,
    pub permissions: Vec<PermissionOverwrite>,
    pub type_: ChannelKind,
    pub parent_channel: Option<u64>,
    pub server_id: u64,
}

/// The body of a channel creation request.
pub struct CreateChannelRequest {
    pub name: String,
    pub channel_type: u8,
    pub permission_overwrites: Vec<PermissionOverwrite>,
    pub position: Option<u8>,
    pub parent_id: Option<u64>,
    pub server_id: u64,
}

/// The channel type number of a kind.
pub open spec fn channel_type_number(kind: ChannelKind) -> u8 {
    match kind {
        ChannelKind::Category => 4,
        ChannelKind::Voice => 2,
    }
}

/// Builds the request that creates the channel `config` describes.
pub fn create_category(config: CreateChannelConfig) -> (r: CreateChannelRequest)
    ensures
        r.name@ == config.name_prefix@,
        r.channel_type == channel_type_number(config.type_),
        r.permission_overwrites@ == config.permissions@,
        r.position == config.position,
        r.parent_id == config.parent_channel,
        r.server_id == config.server_id,
{
    let channel_type = match config.type_ {
        ChannelKind::Category => category_channel_type(),
        ChannelKind::Voice => voice_channel_type(),
    };
    CreateChannelRequest {
        name: config.name_prefix,
        channel_type,
        permission_overwrites: config.permissions,
        position: config.position,
        parent_id: config.parent_channel,
        server_id: config.server_id,
    }
}

/// The index of the first channel whose name begins with `prefix`.
#[verifier::opaque]
pub open spec fn first_with_prefix(channels: Seq<ChannelInfo>, prefix: Seq<char>) -> Option<int> {
    if exists|i: int| 0 <= i < channels.len() && has_prefix(channels[i].name@, prefix) {
        Some(choose|i: int| 0 <= i < channels.len() && has_prefix(channels[i].name@, prefix)
            && forall|j: int| 0 <= j < i ==> !has_prefix(channels[j].name@, prefix))
    } else {
        None
    }
}

/// What `first_with_prefix` gives: `Some(i)` names a channel beginning with
/// `prefix` with none before it; `None` means no channel begins with `prefix`.
pub proof fn lemma_first_with_prefix_characterized(channels: Seq<ChannelInfo>, prefix: Seq<char>)
    ensures
        match first_with_prefix(channels, prefix) {
            Some(i) => 0 <= i < channels.len() && has_prefix(channels[i].name@, prefix) && forall|j: int|
                0 <= j < i ==> !has_prefix(channels[j].name@, prefix),
            None => forall|j: int| 0 <= j < channels.len() ==> !has_prefix(channels[j].name@, prefix),
        },
{
    reveal(first_with_prefix);
    if exists|i: int| 0 <= i < channels.len() && has_prefix(channels[i].name@, prefix) {
        let i = choose|i: int| 0 <= i < channels.len() && has_prefix(channels[i].name@, prefix);
        let p = |k: int| 0 <= k < channels.len() && has_prefix(channels[k].name@, prefix);
        lemma_least_witness(p, channels.len() as int, i);
        let k = choose|k: int| 0 <= k < channels.len() && #[trigger] p(k) && forall|j: int| 0 <= j < k ==> !#[trigger] p(j);
        assert forall|j: int| 0 <= j < k implies !(has_prefix(channels[j].name@, prefix)) by {
            assert(!p(j));
        }
        assert(0 <= k < channels.len() && has_prefix(channels[k].name@, prefix));
    }
}

/// The first channel beginning with `prefix` is the one at `i` when no channel before
/// it does.
pub proof fn lemma_first_with_prefix(channels: Seq<ChannelInfo>, prefix: Seq<char>, i: int)
    requires
        0 <= i < channels.len(),
        has_prefix(channels[i].name@, prefix),
        forall|j: int| 0 <= j < i ==> !has_prefix(channels[j].name@, prefix),
    ensures
        first_with_prefix(channels, prefix) == Some(i),
{
    reveal(first_with_prefix);
    let k = choose|k: int| 0 <= k < channels.len() && has_prefix(channels[k].name@, prefix)
        && forall|j: int| 0 <= j < k ==> !has_prefix(channels[j].name@, prefix);
    assert(0 <= k < channels.len() && has_prefix(channels[k].name@, prefix));
    if k < i {
        assert(!has_prefix(channels[k].name@, prefix));
    } else if k > i {
        assert(!has_prefix(channels[i].name@, prefix));
    }
}

/// Finds the first channel whose name begins with `prefix`.
pub fn find_channel_by_prefix(channels: &Vec<ChannelInfo>, prefix: &str) -> (r: Option<usize>)
    ensures
        match r {
            Some(i) => i < channels@.len() && first_with_prefix(channels@, prefix@) == Some(i as int),
            None => first_with_prefix(channels@, prefix@) is None,
        },
{
    let mut i: usize = 0;
    while i < channels.len()
        invariant
            i <= channels@.len(),
            forall|j: int| 0 <= j < i ==> !has_prefix(channels@[j].name@, prefix@),
        decreases channels.len() - i,
    {
        if starts_with(channels[i].name.as_str(), prefix) {
            proof { lemma_first_with_prefix(channels@, prefix@, i as int); }
            return Some(i);
        }
        i = i + 1;
    }
    proof {
        reveal(first_with_prefix);
    }
    None
}

/// Whether a statistics channel already exists or must be created.
pub enum ChannelResolution {
    /// The channel at this index of the guild's channels carries the prefix.
    Existing { index: usize, prefix: String },
    /// No channel carries the prefix: create one.
    Create(CreateChannelConfig),
}

/// Looks a statistics channel up by its prefix among the guild's channels, and
/// otherwise asks for it to be created as `create` describes.
pub fn get_or_create_stat_category(channels: &Vec<ChannelInfo>, create: CreateChannelConfig) -> (r:
    ChannelResolution)
    ensures
        match first_with_prefix(channels@, create.name_prefix@) {
            Some(i) => r matches ChannelResolution::Existing { index, prefix } && index == i
                && prefix@ == create.name_prefix@,
            None => r matches ChannelResolution::Create(c) && c.name_prefix@ == create.name_prefix@
                && c.position == create.position && c.permissions@ == create.permissions@
                && c.type_ == create.type_ && c.parent_channel == create.parent_channel
                && c.server_id == create.server_id,
        },
{
    match find_channel_by_prefix(channels, create.name_prefix.as_str()) {
        Some(index) => ChannelResolution::Existing { index, prefix: create.name_prefix },
        None => ChannelResolution::Create(create),
    }
}

/// A channel to keep: its name prefix and its position among its siblings.
pub struct ChannelPlan {
    pub name_prefix: String,
    pub position: u8,
}

/// The configuration that creates a statistics category.
pub fn category_create_config(plan: &ChannelPlan, permissions: &Vec<PermissionOverwrite>, server_id: u64) -> (c:
    CreateChannelConfig)
    ensures
        c.name_prefix@ == plan.name_prefix@,
        c.position == Some(plan.position),
        c.permissions@ == permissions@,
        c.type_ == ChannelKind::Category,
        c.parent_channel is None,
        c.server_id == server_id,
{
    CreateChannelConfig {
        name_prefix: plan.name_prefix.clone(),
        position: Some(plan.position),
        permissions: copy_overwrites(permissions),
        type_: ChannelKind::Category,
        parent_channel: None,
        server_id,
    }
}

/// The configuration that creates a statistics channel inside the category `category_id`.
pub fn channel_create_config(
    plan: &ChannelPlan,
    permissions: &Vec<PermissionOverwrite>,
    category_id: u64,
    server_id: u64,
) -> (c: CreateChannelConfig)
    ensures
        c.name_prefix@ == plan.name_prefix@,
        c.position == Some(plan.position),
        c.permissions@ == permissions@,
        c.type_ == ChannelKind::Voice,
        c.parent_channel == Some(category_id),
        c.server_id == server_id,
{
    CreateChannelConfig {
        name_prefix: plan.name_prefix.clone(),
        position: Some(plan.position),
        permissions: copy_overwrites(permissions),
        type_: ChannelKind::Voice,
        parent_channel: Some(category_id),
        server_id,
    }
}

/// Whether `r` resolves, among the guild's `channels`, the channel with prefix
/// `prefix`: the first channel carrying the prefix, or else a channel to create at
/// `position`, of `kind`, under `parent`, with `permissions`, on `server_id`.
pub open spec fn resolves(
    r: ChannelResolution,
    channels: Seq<ChannelInfo>,
    prefix: Seq<char>,
    position: u8,
    kind: ChannelKind,
    parent: Option<u64>,
    permissions: Seq<PermissionOverwrite>,
    server_id: u64,
) -> bool {
    match first_with_prefix(channels, prefix) {
        Some(i) => r matches ChannelResolution::Existing { index, prefix: p } && index == i && p@ == prefix,
        None => r matches ChannelResolution::Create(c) && c.name_prefix@ == prefix && c.position == Some(position)
            && c.permissions@ == permissions && c.type_ == kind && c.parent_channel == parent && c.server_id
            == server_id,
    }
}

/// Decides the next channel to find or create for a planned category: first the
/// category itself (no `category_id` yet), then, once it is known, each planned
/// channel in plan order under the category's id (`done` of them are in place), and
/// then nothing more.
pub fn setup_step<S>(
    plan: &CategoryPlan<S>,
    permissions: &Vec<PermissionOverwrite>,
    server_id: u64,
    channels: &Vec<ChannelInfo>,
    category_id: Option<u64>,
    done: usize,
) -> (r: Option<ChannelResolution>)
    ensures
        match category_id {
            None => r matches Some(x) && resolves(
                x,
                channels@,
                plan.category.name_prefix@,
                plan.category.position,
                ChannelKind::Category,
                None,
                permissions@,
                server_id,
            ),
            Some(id) => if done < plan.channels@.len() {
                r matches Some(x) && resolves(
                    x,
                    channels@,
                    plan.channels@[done as int].1.name_prefix@,
                    plan.channels@[done as int].1.position,
                    ChannelKind::Voice,
                    Some(id),
                    permissions@,
                    server_id,
                )
            } else {
                r is None
            },
        },
{
    match category_id {
        None => Some(get_or_create_stat_category(channels, category_create_config(&plan.category, permissions, server_id))),
        Some(id) => {
            if done < plan.channels.len() {
                let create = channel_create_config(&plan.channels[done].1, permissions, id, server_id);
                Some(get_or_create_stat_category(channels, create))
            } else {
                None
            }
        },
    }
}

/// The channels of the server statistics category.
#[derive(Clone, Copy, Debug, PartialEq, Eq, Structural)]
pub enum StatChannel {
    Streams,
    Transcodes,
    TotalBandwidth,
    LocalBandwidth,
    RemoteBandwidth,
}

/// The channels of the library statistics category.
#[derive(Clone, Copy, Debug, PartialEq, Eq, Structural)]
pub enum LibraryChannel {
    Movies,
    TvShows,
    TvEpisodes,
}

/// A category to keep and the channels to keep in it.
pub struct CategoryPlan<S> {
    pub category: ChannelPlan,
    pub channels: Vec<(S, ChannelPlan)>,
}

/// The view of a channel list as (slot, prefix, position) triples.
pub open spec fn plan_view<S>(channels: Seq<(S, ChannelPlan)>) -> Seq<(S, Seq<char>, u8)> {
    channels.map_values(|c: (S, ChannelPlan)| (c.0, c.1.name_prefix@, c.1.position))
}

/// Appends `(slot, name, position)` when a name is configured.
pub open spec fn push_named<S>(
    s: Seq<(S, Seq<char>, u8)>,
    slot: S,
    name: Option<String>,
    position: u8,
) -> Seq<(S, Seq<char>, u8)> {
    match name {
        Some(n) => s.push((slot, n@, position)),
        None => s,
    }
}

/// The statistics channels that a configuration asks for, in order.
pub open spec fn stat_channels_wanted(c: crate::config::StatCategoryConfig) -> Seq<(StatChannel, Seq<char>, u8)> {
    let s = push_named(Seq::empty(), StatChannel::Streams, c.stream_name, 0);
    let s = push_named(s, StatChannel::Transcodes, c.transcode_name, 1);
    let s = push_named(s, StatChannel::TotalBandwidth, c.bandwidth_total_name, 2);
    let s = push_named(s, StatChannel::LocalBandwidth, c.bandwidth_local_name, 3);
    push_named(s, StatChannel::RemoteBandwidth, c.bandwidth_remote_name, 4)
}

/// The library channels that a configuration asks for, in order.
pub open spec fn library_channels_wanted(c: crate::config::LibraryCategoryConfig) -> Seq<(LibraryChannel, Seq<char>, u8)> {
    let s = push_named(Seq::empty(), LibraryChannel::Movies, c.movies_name, 0);
    let s = push_named(s, LibraryChannel::TvShows, c.tv_shows_name, 1);
    push_named(s, LibraryChannel::TvEpisodes, c.tv_episodes_name, 2)
}

fn push_named_plan<S: Copy>(channels: &mut Vec<(S, ChannelPlan)>, slot: S, name: &Option<String>, position: u8)
    ensures
        plan_view(final(channels)@) == push_named(plan_view(old(channels)@), slot, *name, position),
{
    if let Some(n) = name {
        channels.push((slot, ChannelPlan { name_prefix: n.clone(), position }));
        assert(plan_view(final(channels)@) =~= plan_view(old(channels)@).push((slot, n@, position)));
    }
}

/// The server statistics category that the configuration asks for: the category at
/// position 5 and, at positions 0 to 4, the streams, transcodes and total, local and
/// remote bandwidth channels whose names are configured. `None` when no statistics
/// category is configured.
pub fn generate_stats_categories(update_config: &StatUpdateConfig) -> (r: Option<CategoryPlan<StatChannel>>)
    ensures
        match update_config.stats_category {
            None => r is None,
            Some(c) => r matches Some(p) && p.category.name_prefix@ == c.name@ && p.category.position == 5
                && plan_view(p.channels@) == stat_channels_wanted(c),
        },
{
    match &update_config.stats_category {
        None => None,
        Some(config) => {
            let mut channels: Vec<(StatChannel, ChannelPlan)> = Vec::new();
            assert(plan_view(channels@) =~= Seq::<(StatChannel, Seq<char>, u8)>::empty());
            push_named_plan(&mut channels, StatChannel::Streams, &config.stream_name, 0);
            push_named_plan(&mut channels, StatChannel::Transcodes, &config.transcode_name, 1);
            push_named_plan(&mut channels, StatChannel::TotalBandwidth, &config.bandwidth_total_name, 2);
            push_named_plan(&mut channels, StatChannel::LocalBandwidth, &config.bandwidth_local_name, 3);
            push_named_plan(&mut channels, StatChannel::RemoteBandwidth, &config.bandwidth_remote_name, 4);
            Some(CategoryPlan { category: ChannelPlan { name_prefix: config.name.clone(), position: 5 }, channels })
        },
    }
}

/// The library statistics category that the configuration asks for: the category at
/// position 5 and, at positions 0 to 2, the movies, TV shows and TV episodes channels
/// whose names are configured. `None` when no library category is configured.
pub fn generate_library_categories(update_config: &StatUpdateConfig) -> (r: Option<CategoryPlan<LibraryChannel>>)
    ensures
        match update_config.library_category {
            None => r is None,
            Some(c) => r matches Some(p) && p.category.name_prefix@ == c.name@ && p.category.position == 5
                && plan_view(p.channels@) == library_channels_wanted(c),
        },
{
    match &update_config.library_category {
        None => None,
        Some(config) => {
            let mut channels: Vec<(LibraryChannel, ChannelPlan)> = Vec::new();
            assert(plan_view(channels@) =~= Seq::<(LibraryChannel, Seq<char>, u8)>::empty());
            push_named_plan(&mut channels, LibraryChannel::Movies, &config.movies_name, 0);
            push_named_plan(&mut channels, LibraryChannel::TvShows, &config.tv_shows_name, 1);
            push_named_plan(&mut channels, LibraryChannel::TvEpisodes, &config.tv_episodes_name, 2);
            Some(CategoryPlan { category: ChannelPlan { name_prefix: config.name.clone(), position: 5 }, channels })
        },
    }
}

/// The channels of a planned category stand at strictly increasing positions below
/// the category's own position 5.
pub proof fn lemma_stat_channel_positions(c: crate::config::StatCategoryConfig)
    ensures
        forall|i: int, j: int|
            0 <= i < j < stat_channels_wanted(c).len() ==> stat_channels_wanted(c)[i].2 < stat_channels_wanted(c)[j].2,
        forall|i: int| 0 <= i < stat_channels_wanted(c).len() ==> stat_channels_wanted(c)[i].2 < 5,
{
}

/// The configured name of the channel that shows statistic `slot`.
pub open spec fn configured_stat_name(c: crate::config::StatCategoryConfig, slot: StatChannel) -> Option<String> {
    match slot {
        StatChannel::Streams => c.stream_name,
        StatChannel::Transcodes => c.transcode_name,
        StatChannel::TotalBandwidth => c.bandwidth_total_name,
        StatChannel::LocalBandwidth => c.bandwidth_local_name,
        StatChannel::RemoteBandwidth => c.bandwidth_remote_name,
    }
}

/// The position of the channel that shows statistic `slot` within its category.
pub open spec fn stat_slot_position(slot: StatChannel) -> u8 {
    match slot {
        StatChannel::Streams => 0,
        StatChannel::Transcodes => 1,
        StatChannel::TotalBandwidth => 2,
        StatChannel::LocalBandwidth => 3,
        StatChannel::RemoteBandwidth => 4,
    }
}

/// Each planned statistics channel carries the name configured for its own statistic
/// and stands at that statistic's position; every statistic with a configured name is
/// planned, once.
pub proof fn lemma_stat_channels_by_slot(c: crate::config::StatCategoryConfig)
    ensures
        forall|i: int| 0 <= i < stat_channels_wanted(c).len() ==> {
            let e = #[trigger] stat_channels_wanted(c)[i];
            &&& configured_stat_name(c, e.0) matches Some(n) && n@ == e.1
            &&& e.2 == stat_slot_position(e.0)
        },
        forall|slot: StatChannel| #[trigger] configured_stat_name(c, slot) is Some ==> exists|i: int|
            0 <= i < stat_channels_wanted(c).len() && stat_channels_wanted(c)[i].0 == slot,
        forall|i: int, j: int|
            0 <= i < j < stat_channels_wanted(c).len() ==> stat_channels_wanted(c)[i].0 != stat_channels_wanted(c)[j].0,
{
    let w = stat_channels_wanted(c);
    assert forall|slot: StatChannel| #[trigger] configured_stat_name(c, slot) is Some implies exists|i: int|
        0 <= i < w.len() && w[i].0 == slot by {
        let k = (if c.stream_name is Some { 1int } else { 0int }) + (if c.transcode_name is Some { 1int } else { 0int });
        let before: int = match slot {
            StatChannel::Streams => 0,
            StatChannel::Transcodes => if c.stream_name is Some { 1 } else { 0 },
            StatChannel::TotalBandwidth => k,
            StatChannel::LocalBandwidth => k + if c.bandwidth_total_name is Some { 1int } else { 0int },
            StatChannel::RemoteBandwidth => k + (if c.bandwidth_total_name is Some { 1int } else { 0int })
                + (if c.bandwidth_local_name is Some { 1int } else { 0int }),
        };
        assert(0 <= before < w.len() && w[before].0 == slot);
    }
}

/// The configured name of the library channel `slot`.
pub open spec fn configured_library_name(c: crate::config::LibraryCategoryConfig, slot: LibraryChannel) -> Option<
    String,
> {
    match slot {
        LibraryChannel::Movies => c.movies_name,
        LibraryChannel::TvShows => c.tv_shows_name,
        LibraryChannel::TvEpisodes => c.tv_episodes_name,
    }
}

/// The position of the library channel `slot` within its category.
pub open spec fn library_slot_position(slot: LibraryChannel) -> u8 {
    match slot {
        LibraryChannel::Movies => 0,
        LibraryChannel::TvShows => 1,
        LibraryChannel::TvEpisodes => 2,
    }
}

/// Each planned library channel carries the name configured for its own library
/// count and stands at that channel's position; every configured channel is planned,
/// once.
pub proof fn lemma_library_channels_by_slot(c: crate::config::LibraryCategoryConfig)
    ensures
        forall|i: int| 0 <= i < library_channels_wanted(c).len() ==> {
            let e = #[trigger] library_channels_wanted(c)[i];
            &&& configured_library_name(c, e.0) matches Some(n) && n@ == e.1
            &&& e.2 == library_slot_position(e.0)
        },
        forall|slot: LibraryChannel| #[trigger] configured_library_name(c, slot) is Some ==> exists|i: int|
            0 <= i < library_channels_wanted(c).len() && library_channels_wanted(c)[i].0 == slot,
        forall|i: int, j: int|
            0 <= i < j < library_channels_wanted(c).len() ==> library_channels_wanted(c)[i].0
                != library_channels_wanted(c)[j].0,
{
    let w = library_channels_wanted(c);
    assert forall|slot: LibraryChannel| #[trigger] configured_library_name(c, slot) is Some implies exists|i: int|
        0 <= i < w.len() && w[i].0 == slot by {
        let before: int = match slot {
            LibraryChannel::Movies => 0,
            LibraryChannel::TvShows => if c.movies_name is Some { 1 } else { 0 },
            LibraryChannel::TvEpisodes => (if c.movies_name is Some { 1int } else { 0int })
                + (if c.tv_shows_name is Some { 1int } else { 0int }),
        };
        assert(0 <= before < w.len() && w[before].0 == slot);
    }
}

/// Whether a channel called `current` must be renamed to `new_name`.
pub fn update_channel_name(current: &str, new_name: &str) -> (rename: bool)
    ensures
        rename == (current@ != new_name@),
{
    !str_eq(current, new_name)
}

/// The name of the status channel: the prefix and a green, red or yellow light for a
/// connected, disconnected or unknown Plex server.
pub fn channel_update_stats_status(prefix: &str, connected: Option<bool>) -> (name: String)
    ensures
        name@ == prefix@ + " ("@ + match connected {
            Some(true) => "\u{1F7E2}"@,
            Some(false) => "\u{1F534}"@,
            None => "\u{1F7E1}"@,
        } + ")"@,
{
    let mut name = String::from_str(prefix);
    name.append(" (");
    match connected {
        Some(true) => name.append("\u{1F7E2}"),
        Some(false) => name.append("\u{1F534}"),
        None => name.append("\u{1F7E1}"),
    }
    name.append(")");
    name
}

/// `"{prefix}: {value}"`.
pub open spec fn labelled(prefix: Seq<char>, value: Seq<char>) -> Seq<char> {
    prefix + ": "@ + value
}

fn label(prefix: &str, value: &str) -> (name: String)
    ensures
        name@ == labelled(prefix@, value@),
{
    let mut name = String::from_str(prefix);
    name.append(": ");
    name.append(value);
    name
}

fn label_number(prefix: &str, n: u64) -> (name: String)
    ensures
        name@ == labelled(prefix@, dec_nat(n as nat)),
{
    let mut name = String::from_str(prefix);
    name.append(": ");
    push_decimal(&mut name, n);
    name
}

/// The name of the streams channel: the prefix and the stream count.
pub fn channel_update_stats_streams(prefix: &str, data: &GetActivity) -> (name: String)
    ensures
        name@ == labelled(prefix@, data.stream_count@),
{
    label(prefix, data.stream_count.as_str())
}

/// The name of the transcodes channel: the prefix and the number of transcodes.
pub fn channel_update_stats_transcodes(prefix: &str, data: &GetActivity) -> (name: String)
    ensures
        name@ == labelled(prefix@, dec_nat(data.stream_count_transcode as nat)),
{
    label_number(prefix, data.stream_count_transcode as u64)
}

/// How a bandwidth in kbit/s is shown.
#[derive(Clone, Copy, Debug, PartialEq, Eq, Structural)]
pub enum BandwidthLevel {
    /// 1048576 and above: a flame.
    Saturated,
    /// 1024 up to 1048576: megabits with one decimal.
    Mbps,
    /// 1 up to 1024: kilobits.
    Kbps,
    /// Nothing flowing: a dash.
    Idle,
}

pub open spec fn bandwidth_level_of(n: u32) -> BandwidthLevel {
    if n >= 1048576 {
        BandwidthLevel::Saturated
    } else if 1024 <= n {
        BandwidthLevel::Mbps
    } else if n > 0 {
        BandwidthLevel::Kbps
    } else {
        BandwidthLevel::Idle
    }
}

pub fn bandwidth_level(n: u32) -> (l: BandwidthLevel)
    ensures
        l == bandwidth_level_of(n),
{
    if n >= 1048576 {
        BandwidthLevel::Saturated
    } else if 1024 <= n && n < 1048576 {
        BandwidthLevel::Mbps
    } else if n > 0 && n < 1024 {
        BandwidthLevel::Kbps
    } else {
        BandwidthLevel::Idle
    }
}

/// The name of a bandwidth channel by level; none in the megabit range.
pub open spec fn bandwidth_name(prefix: Seq<char>, bandwidth: u32) -> Option<Seq<char>> {
    match bandwidth_level_of(bandwidth) {
        BandwidthLevel::Saturated => Some(labelled(prefix, "\u{1F525}"@)),
        BandwidthLevel::Mbps => None,
        BandwidthLevel::Kbps => Some(labelled(prefix, dec_nat(bandwidth as nat) + " Kbps"@)),
        BandwidthLevel::Idle => Some(labelled(prefix, "-"@)),
    }
}

/// The name of a bandwidth channel, except in the megabit range, whose one-decimal
/// rendering of `n / 1024` is floating-point text made by the caller.
pub fn channel_update_stats_bandwidth(prefix: &str, bandwidth: u32) -> (name: Option<String>)
    ensures
        match name {
            Some(s) => bandwidth_name(prefix@, bandwidth) == Some(s@),
            None => bandwidth_name(prefix@, bandwidth) is None,
        },
{
    match bandwidth_level(bandwidth) {
        BandwidthLevel::Saturated => Some(label(prefix, "\u{1F525}")),
        BandwidthLevel::Mbps => None,
        BandwidthLevel::Kbps => {
            let mut name = label_number(prefix, bandwidth as u64);
            name.append(" Kbps");
            Some(name)
        },
        BandwidthLevel::Idle => Some(label(prefix, "-")),
    }
}

/// The name of the movies channel: the prefix and the library's item count.
pub fn update_movies(prefix: &str, data: &GetLibrary) -> (name: String)
    ensures
        name@ == labelled(prefix@, data.count@),
{
    label(prefix, data.count.as_str())
}

/// The name of the TV shows channel: the prefix and the library's item count.
pub fn update_tv_shows(prefix: &str, data: &GetLibrary) -> (name: String)
    ensures
        name@ == labelled(prefix@, data.count@),
{
    label(prefix, data.count.as_str())
}

/// The name of the TV episodes channel: the prefix and the library's child count,
/// or `N/A` when Tautulli gives none.
pub fn update_tv_episodes(prefix: &str, data: &GetLibrary) -> (name: String)
    ensures
        name@ == labelled(prefix@, match data.child_count { Some(c) => c@, None => "N/A"@ }),
{
    match &data.child_count {
        Some(episodes) => label(prefix, episodes.as_str()),
        None => label(prefix, "N/A"),
    }
}

/// The index of the first library called `name`.
#[verifier::opaque]
pub open spec fn first_library_named(libraries: Seq<GetLibrary>, name: Seq<char>) -> Option<int> {
    if exists|i: int| 0 <= i < libraries.len() && libraries[i].section_name@ == name {
        Some(choose|i: int| 0 <= i < libraries.len() && libraries[i].section_name@ == name
            && forall|j: int| 0 <= j < i ==> libraries[j].section_name@ != name)
    } else {
        None
    }
}

/// What `first_library_named` gives: `Some(i)` names a library called `name` with
/// none before it; `None` means no library is called `name`.
pub proof fn lemma_first_library_named_characterized(libraries: Seq<GetLibrary>, name: Seq<char>)
    ensures
        match first_library_named(libraries, name) {
            Some(i) => 0 <= i < libraries.len() && libraries[i].section_name@ == name && forall|j: int|
                0 <= j < i ==> libraries[j].section_name@ != name,
            None => forall|j: int| 0 <= j < libraries.len() ==> libraries[j].section_name@ != name,
        },
{
    reveal(first_library_named);
    if exists|i: int| 0 <= i < libraries.len() && libraries[i].section_name@ == name {
        let i = choose|i: int| 0 <= i < libraries.len() && libraries[i].section_name@ == name;
        let p = |k: int| 0 <= k < libraries.len() && libraries[k].section_name@ == name;
        lemma_least_witness(p, libraries.len() as int, i);
        let k = choose|k: int| 0 <= k < libraries.len() && #[trigger] p(k) && forall|j: int| 0 <= j < k ==> !#[trigger] p(j);
        assert forall|j: int| 0 <= j < k implies !(libraries[j].section_name@ == name) by {
            assert(!p(j));
        }
        assert(0 <= k < libraries.len() && libraries[k].section_name@ == name);
    }
}

/// Finds the first library called `name` (the statistics use `Movies` and `TV Shows`).
pub fn find_library(libraries: &Vec<GetLibrary>, name: &str) -> (r: Option<usize>)
    ensures
        match r {
            Some(i) => i < libraries@.len() && first_library_named(libraries@, name@) == Some(i as int),
            None => first_library_named(libraries@, name@) is None,
        },
{
    let mut i: usize = 0;
    while i < libraries.len()
        invariant
            i <= libraries@.len(),
            forall|j: int| 0 <= j < i ==> libraries@[j].section_name@ != name@,
        decreases libraries.len() - i,
    {
        if str_eq(libraries[i].section_name.as_str(), name) {
            proof { lemma_first_library_named_characterized(libraries@, name@); }
            return Some(i);
        }
        i = i + 1;
    }
    proof {
        reveal(first_library_named);
    }
    None
}

/// The name a statistics channel gets from the server's activity.
pub enum StatChannelName {
    /// This name.
    Name(String),
    /// The megabit rendering of this bandwidth, `{prefix}: {n / 1024:.1} Mbps`, which is
    /// floating-point text made by the caller.
    Megabits(u32),
}

/// The bandwidth a statistics channel shows, if it shows one: the total, LAN and WAN
/// bandwidth of the activity for the total, local and remote channels.
pub open spec fn slot_bandwidth(slot: StatChannel, activity: GetActivity) -> Option<u32> {
    match slot {
        StatChannel::TotalBandwidth => Some(activity.total_bandwidth),
        StatChannel::LocalBandwidth => Some(activity.lan_bandwidth),
        StatChannel::RemoteBandwidth => Some(activity.wan_bandwidth),
        _ => None,
    }
}

/// Decides the name of the statistics channel `slot` called `prefix` from the
/// server's activity: the stream count, the transcode count, or the bandwidth that
/// the slot shows.
pub fn stat_channel_name(slot: StatChannel, prefix: &str, activity: &GetActivity) -> (n: StatChannelName)
    ensures
        match slot {
            StatChannel::Streams => n matches StatChannelName::Name(s) && s@ == labelled(
                prefix@,
                activity.stream_count@,
            ),
            StatChannel::Transcodes => n matches StatChannelName::Name(s) && s@ == labelled(
                prefix@,
                dec_nat(activity.stream_count_transcode as nat),
            ),
            _ => slot_bandwidth(slot, *activity) matches Some(b) && match bandwidth_name(prefix@, b) {
                Some(t) => n matches StatChannelName::Name(s) && s@ == t,
                None => n == StatChannelName::Megabits(b),
            },
        },
{
    let bandwidth = match slot {
        StatChannel::Streams => { return StatChannelName::Name(channel_update_stats_streams(prefix, activity)); },
        StatChannel::Transcodes => {
            return StatChannelName::Name(channel_update_stats_transcodes(prefix, activity));
        },
        StatChannel::TotalBandwidth => activity.total_bandwidth,
        StatChannel::LocalBandwidth => activity.lan_bandwidth,
        StatChannel::RemoteBandwidth => activity.wan_bandwidth,
    };
    match channel_update_stats_bandwidth(prefix, bandwidth) {
        Some(s) => StatChannelName::Name(s),
        None => StatChannelName::Megabits(bandwidth),
    }
}

/// The library a library channel counts: `Movies` for the movies channel, `TV Shows`
/// for the TV shows and TV episodes channels.
pub open spec fn library_of(slot: LibraryChannel) -> Seq<char> {
    match slot {
        LibraryChannel::Movies => "Movies"@,
        _ => "TV Shows"@,
    }
}

/// The name of a library channel from the library it counts.
pub open spec fn library_channel_text(slot: LibraryChannel, prefix: Seq<char>, data: GetLibrary) -> Seq<char> {
    match slot {
        LibraryChannel::TvEpisodes => labelled(prefix, match data.child_count { Some(c) => c@, None => "N/A"@ }),
        _ => labelled(prefix, data.count@),
    }
}

/// Decides the name of the library channel `slot` called `prefix` from Tautulli's
/// libraries: from the first library named as `library_of` says, or `None`, leaving
/// the channel as it is, when there is no such library.
pub fn library_channel_name(slot: LibraryChannel, prefix: &str, libraries: &Vec<GetLibrary>) -> (n: Option<String>)
    ensures
        match first_library_named(libraries@, library_of(slot)) {
            Some(i) => n matches Some(s) && s@ == library_channel_text(slot, prefix@, libraries@[i]),
            None => n is None,
        },
{
    let name = match slot {
        LibraryChannel::Movies => "Movies",
        _ => "TV Shows",
    };
    match find_library(libraries, name) {
        None => None,
        Some(i) => Some(
            match slot {
                LibraryChannel::Movies => update_movies(prefix, &libraries[i]),
                LibraryChannel::TvShows => update_tv_shows(prefix, &libraries[i]),
                LibraryChannel::TvEpisodes => update_tv_episodes(prefix, &libraries[i]),
            },
        ),
    }
}

/// The errors logged for the libraries that the library statistics count but
/// Tautulli lacks: `Movies`, then `TV Shows`. A missing library is only logged.
pub fn missing_library_errors(libraries: &Vec<GetLibrary>) -> (errors: Vec<String>)
    ensures
        errors@.map_values(|e: String| e@) == (if first_library_named(libraries@, "Movies"@) is None {
            seq!["failed to find library 'Movies'"@]
        } else {
            Seq::<Seq<char>>::empty()
        }) + (if first_library_named(libraries@, "TV Shows"@) is None {
            seq!["failed to find library 'TV Shows'"@]
        } else {
            Seq::<Seq<char>>::empty()
        }),
{
    let mut errors: Vec<String> = Vec::new();
    let movies = find_library(libraries, "Movies");
    let tv = find_library(libraries, "TV Shows");
    if movies.is_none() {
        errors.push(String::from_str("failed to find library 'Movies'"));
    }
    if tv.is_none() {
        errors.push(String::from_str("failed to find library 'TV Shows'"));
    }
    assert(errors@.map_values(|e: String| e@) =~= (if first_library_named(libraries@, "Movies"@) is None {
        seq!["failed to find library 'Movies'"@]
    } else {
        Seq::<Seq<char>>::empty()
    }) + (if first_library_named(libraries@, "TV Shows"@) is None {
        seq!["failed to find library 'TV Shows'"@]
    } else {
        Seq::<Seq<char>>::empty()
    }));
    errors
}

} // verus!
