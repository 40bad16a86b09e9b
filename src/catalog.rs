//! Subscription kinds, their wire tags, scopes and versions, and the request
//! bodies (condition and transport) built for each of them.

use vstd::prelude::*;
use vstd::string::*;
use crate::json::{quote, json_quoted};

verus! {

/// Maps an optional string to its optional character sequence.
pub open spec fn opt_view(o: Option<String>) -> Option<Seq<char>> {
    match o {
        Some(s) => Some(s@),
        None => None,
    }
}

/// Copies an optional string.
pub fn copy_opt(o: &Option<String>) -> (r: Option<String>)
    ensures
        opt_view(r) == opt_view(*o),
{
    match o {
        Some(s) => Some(s.clone()),
        None => None,
    }
}

/// Delivery binding of a subscription to a live session.
#[derive(Debug, Clone)]
pub struct Transport {
    pub method: String,
    pub session_id: String,
}

pub struct TransportView {
    pub method: Seq<char>,
    pub session_id: Seq<char>,
}

impl View for Transport {
    type V = TransportView;

    open spec fn view(&self) -> TransportView {
        TransportView { method: self.method@, session_id: self.session_id@ }
    }
}

/// The transport that binds a subscription to the session `session_id`.
pub open spec fn websocket_transport(session_id: Seq<char>) -> TransportView {
    TransportView { method: "websocket"@, session_id }
}

impl Transport {
    pub fn new(session_id: &str) -> (r: Transport)
        ensures
            r@ == websocket_transport(session_id@),
    {
        Transport { method: String::from_str("websocket"), session_id: String::from_str(session_id) }
    }
}


/// Filter object of a subscription: a superset of all filter shapes, of which
/// only the fields relevant to a kind are set.
#[derive(Debug, Clone)]
pub struct Condition {
    pub user_id: Option<String>,
    pub moderator_user_id: Option<String>,
    pub broadcaster_user_id: Option<String>,
    pub reward_id: Option<String>,
    pub from_broadcaster_user_id: Option<String>,
    pub to_broadcaster_user_id: Option<String>,
    pub organisation_id: Option<String>,
    pub category_id: Option<String>,
    pub campaign_id: Option<String>,
    pub extension_client_id: Option<String>,
}

pub struct ConditionView {
    pub user_id: Option<Seq<char>>,
    pub moderator_user_id: Option<Seq<char>>,
    pub broadcaster_user_id: Option<Seq<char>>,
    pub reward_id: Option<Seq<char>>,
    pub from_broadcaster_user_id: Option<Seq<char>>,
    pub to_broadcaster_user_id: Option<Seq<char>>,
    pub organisation_id: Option<Seq<char>>,
    pub category_id: Option<Seq<char>>,
    pub campaign_id: Option<Seq<char>>,
    pub extension_client_id: Option<Seq<char>>,
}

impl View for Condition {
    type V = ConditionView;

    open spec fn view(&self) -> ConditionView {
        ConditionView {
            user_id: opt_view(self.user_id),
            moderator_user_id: opt_view(self.moderator_user_id),
            broadcaster_user_id: opt_view(self.broadcaster_user_id),
            reward_id: opt_view(self.reward_id),
            from_broadcaster_user_id: opt_view(self.from_broadcaster_user_id),
            to_broadcaster_user_id: opt_view(self.to_broadcaster_user_id),
            organisation_id: opt_view(self.organisation_id),
            category_id: opt_view(self.category_id),
            campaign_id: opt_view(self.campaign_id),
            extension_client_id: opt_view(self.extension_client_id),
        }
    }
}

/// The condition with no field set.
pub open spec fn empty_condition() -> ConditionView {
    ConditionView {
        user_id: None,
        moderator_user_id: None,
        broadcaster_user_id: None,
        reward_id: None,
        from_broadcaster_user_id: None,
        to_broadcaster_user_id: None,
        organisation_id: None,
        category_id: None,
        campaign_id: None,
        extension_client_id: None,
    }
}

/// The fields a condition can carry.
pub enum ConditionField {
    UserId,
    ModeratorUserId,
    BroadcasterUserId,
    RewardId,
    FromBroadcasterUserId,
    ToBroadcasterUserId,
    OrganisationId,
    CategoryId,
    CampaignId,
    ExtensionClientId,
}

/// The value of one field of a condition.
pub open spec fn field_value(c: ConditionView, f: ConditionField) -> Option<Seq<char>> {
    match f {
        ConditionField::UserId => c.user_id,
        ConditionField::ModeratorUserId => c.moderator_user_id,
        ConditionField::BroadcasterUserId => c.broadcaster_user_id,
        ConditionField::RewardId => c.reward_id,
        ConditionField::FromBroadcasterUserId => c.from_broadcaster_user_id,
        ConditionField::ToBroadcasterUserId => c.to_broadcaster_user_id,
        ConditionField::OrganisationId => c.organisation_id,
        ConditionField::CategoryId => c.category_id,
        ConditionField::CampaignId => c.campaign_id,
        ConditionField::ExtensionClientId => c.extension_client_id,
    }
}

impl Condition {
    pub fn new() -> (r: Condition)
        ensures
            r@ == empty_condition(),
    {
        Condition {
            user_id: None,
            moderator_user_id: None,
            broadcaster_user_id: None,
            reward_id: None,
            from_broadcaster_user_id: None,
            to_broadcaster_user_id: None,
            organisation_id: None,
            category_id: None,
            campaign_id: None,
            extension_client_id: None,
        }
    }

    pub fn user_id(self, user_id: String) -> (r: Condition)
        ensures
            r@ == (ConditionView { user_id: Some(user_id@), ..self@ }),
    {
        let mut c = self;
        c.user_id = Some(user_id);
        c
    }

    pub fn moderator_user_id(self, moderator_user_id: String) -> (r: Condition)
        ensures
            r@ == (ConditionView { moderator_user_id: Some(moderator_user_id@), ..self@ }),
    {
        let mut c = self;
        c.moderator_user_id = Some(moderator_user_id);
        c
    }

    pub fn broadcaster_user_id(self, broadcaster_user_id: String) -> (r: Condition)
        ensures
            r@ == (ConditionView { broadcaster_user_id: Some(broadcaster_user_id@), ..self@ }),
    {
        let mut c = self;
        c.broadcaster_user_id = Some(broadcaster_user_id);
        c
    }

    pub fn reward_id(self, reward_id: String) -> (r: Condition)
        ensures
            r@ == (ConditionView { reward_id: Some(reward_id@), ..self@ }),
    {
        let mut c = self;
        c.reward_id = Some(reward_id);
        c
    }

    pub fn from_broadcaster_user_id(self, from_broadcaster_user_id: String) -> (r: Condition)
        ensures
            r@ == (ConditionView { from_broadcaster_user_id: Some(from_broadcaster_user_id@), ..self@ }),
    {
        let mut c = self;
        c.from_broadcaster_user_id = Some(from_broadcaster_user_id);
        c
    }

    pub fn to_broadcaster_user_id(self, to_broadcaster_user_id: String) -> (r: Condition)
        ensures
            r@ == (ConditionView { to_broadcaster_user_id: Some(to_broadcaster_user_id@), ..self@ }),
    {
        let mut c = self;
        c.to_broadcaster_user_id = Some(to_broadcaster_user_id);
        c
    }
}

/// Request body that creates one subscription.
#[derive(Debug, Clone)]
pub struct EventSubscription {
    pub kind: String,
    pub version: String,
    pub condition: Condition,
    pub transport: Transport,
}

pub struct EventSubscriptionView {
    pub kind: Seq<char>,
    pub version: Seq<char>,
    pub condition: ConditionView,
    pub transport: TransportView,
}

impl View for EventSubscription {
    type V = EventSubscriptionView;

    open spec fn view(&self) -> EventSubscriptionView {
        EventSubscriptionView {
            kind: self.kind@,
            version: self.version@,
            condition: self.condition@,
            transport: self.transport@,
        }
    }
}

/// A subscribable event kind; `Custom` carries the tag, the scope and the
/// request body of a kind that has no variant of its own.
#[derive(Debug, Clone)]
pub enum Subscription {
    UserUpdate,
    ChannelFollow,
    ChannelRaid,
    ChannelUpdate,
    ChannelSubscribe,
    ChannelSubscriptionEnd,
    ChannelSubscriptionGift,
    ChannelSubscriptionMessage,
    ChannelCheer,
    ChannelPointsCustomRewardRedeem,
    ChannelPointsAutoRewardRedeem,
    ChannelPollBegin,
    ChannelPollProgress,
    ChannelPollEnd,
    ChannelPredictionBegin,
    ChannelPredictionProgress,
    ChannelPredictionLock,
    ChannelPredictionEnd,
    ChannelGoalBegin,
    ChannelGoalProgress,
    ChannelGoalEnd,
    ChannelHypeTrainBegin,
    ChannelHypeTrainProgress,
    ChannelHypeTrainEnd,
    ChannelShoutoutCreate,
    ChannelShoutoutReceive,
    ChatMessage,
    BanTimeoutUser,
    DeleteMessage,
    AdBreakBegin,
    Custom(String, String, EventSubscription),
}

/// The wire tag, the required scope and the payload version of a kind.
pub open spec fn details_of(k: Subscription) -> (Seq<char>, Seq<char>, Seq<char>) {
    match k {
        Subscription::UserUpdate => ("user.update"@, ""@, "1"@),
        Subscription::ChannelFollow => ("channel.follow"@, "moderator:read:followers"@, "2"@),
        Subscription::ChannelRaid => ("channel.raid"@, ""@, "1"@),
        Subscription::ChannelUpdate => ("channel.update"@, ""@, "2"@),
        Subscription::ChannelSubscribe => ("channel.subscribe"@, "channel:read:subscriptions"@, "1"@),
        Subscription::ChannelSubscriptionEnd => ("channel.subscription.end"@, "channel:read:subscriptions"@, "1"@),
        Subscription::ChannelSubscriptionGift => ("channel.subscription.gift"@, "channel:read:subscriptions"@, "1"@),
        Subscription::ChannelSubscriptionMessage => ("channel.subscription.message"@, "channel:read:subscriptions"@, "1"@),
        Subscription::ChannelCheer => ("channel.cheer"@, "bits:read"@, "1"@),
        Subscription::ChannelPointsCustomRewardRedeem => ("channel.channel_points_custom_reward_redemption.add"@, "channel:read:redemptions"@, "1"@),
        Subscription::ChannelPointsAutoRewardRedeem => ("channel.channel_points_automatic_reward_redemption.add"@, "channel:read:redemptions"@, "1"@),
        Subscription::ChannelPollBegin => ("channel.poll.begin"@, "channel:read:polls+channel:manage:polls"@, "1"@),
        Subscription::ChannelPollProgress => ("channel.poll.progress"@, "channel:read:polls+channel:manage:polls"@, "1"@),
        Subscription::ChannelPollEnd => ("channel.poll.end"@, "channel:read:polls+channel:manage:polls"@, "1"@),
        Subscription::ChannelPredictionBegin => ("channel.prediction.begin"@, "channel:read:predictions+channel:manage:predictions"@, "1"@),
        Subscription::ChannelPredictionProgress => ("channel.prediction.progress"@, "channel:read:predictions+channel:manage:predictions"@, "1"@),
        Subscription::ChannelPredictionLock => ("channel.prediction.lock"@, "channel:read:predictions+channel:manage:predictions"@, "1"@),
        Subscription::ChannelPredictionEnd => ("channel.prediction.end"@, "channel:read:predictions+channel:manage:predictions"@, "1"@),
        Subscription::ChannelGoalBegin => ("channel.goal.begin"@, "channel:read:goals"@, "1"@),
        Subscription::ChannelGoalProgress => ("channel.goal.progress"@, "channel:read:goals"@, "1"@),
        Subscription::ChannelGoalEnd => ("channel.goal.end"@, "channel:read:goals"@, "1"@),
        Subscription::ChannelHypeTrainBegin => ("channel.hype_train.begin"@, "channel:read:hype_train"@, "1"@),
        Subscription::ChannelHypeTrainProgress => ("channel.hype_train.progress"@, "channel:read:hype_train"@, "1"@),
        Subscription::ChannelHypeTrainEnd => ("channel.hype_train.end"@, "channel:read:hype_train"@, "1"@),
        Subscription::ChannelShoutoutCreate => ("channel.shoutout.create"@, "moderator:read:shoutouts+moderator:manage:shoutouts"@, "1"@),
        Subscription::ChannelShoutoutReceive => ("channel.shoutout.receive"@, "moderator:read:shoutouts+moderator:manage:shoutouts"@, "1"@),
        Subscription::ChatMessage => ("channel.chat.message"@, "user:read:chat+user:write:chat"@, "1"@),
        Subscription::BanTimeoutUser => (""@, "moderator:manage:banned_users"@, ""@),
        Subscription::DeleteMessage => (""@, "moderator:manage:chat_messages"@, ""@),
        Subscription::AdBreakBegin => ("channel.ad_break.begin"@, "channel:read:ads"@, "1"@),
        Subscription::Custom(tag, scope, _) => (tag@, scope@, ""@),
    }
}

pub open spec fn tag_of(k: Subscription) -> Seq<char> {
    details_of(k).0
}

pub open spec fn scope_of(k: Subscription) -> Seq<char> {
    details_of(k).1
}

pub open spec fn version_of(k: Subscription) -> Seq<char> {
    details_of(k).2
}

/// The kinds with a variant of their own, in declaration order.
pub open spec fn catalog() -> Seq<Subscription> {
    seq![
        Subscription::UserUpdate,
        Subscription::ChannelFollow,
        Subscription::ChannelRaid,
        Subscription::ChannelUpdate,
        Subscription::ChannelSubscribe,
        Subscription::ChannelSubscriptionEnd,
        Subscription::ChannelSubscriptionGift,
        Subscription::ChannelSubscriptionMessage,
        Subscription::ChannelCheer,
        Subscription::ChannelPointsCustomRewardRedeem,
        Subscription::ChannelPointsAutoRewardRedeem,
        Subscription::ChannelPollBegin,
        Subscription::ChannelPollProgress,
        Subscription::ChannelPollEnd,
        Subscription::ChannelPredictionBegin,
        Subscription::ChannelPredictionProgress,
        Subscription::ChannelPredictionLock,
        Subscription::ChannelPredictionEnd,
        Subscription::ChannelGoalBegin,
        Subscription::ChannelGoalProgress,
        Subscription::ChannelGoalEnd,
        Subscription::ChannelHypeTrainBegin,
        Subscription::ChannelHypeTrainProgress,
        Subscription::ChannelHypeTrainEnd,
        Subscription::ChannelShoutoutCreate,
        Subscription::ChannelShoutoutReceive,
        Subscription::ChatMessage,
        Subscription::BanTimeoutUser,
        Subscription::DeleteMessage,
        Subscription::AdBreakBegin,
    ]
}

/// The first kind of the catalog, from position `i` on, whose tag is `t`.
pub open spec fn lookup_from(t: Seq<char>, i: nat) -> Option<Subscription>
    decreases catalog().len() - i,
{
    if i >= catalog().len() {
        None
    } else if tag_of(catalog()[i as int]) == t {
        Some(catalog()[i as int])
    } else {
        lookup_from(t, i + 1)
    }
}

/// The kind whose wire tag is `t`: the first in declaration order. The
/// empty text is no wire tag.
pub open spec fn lookup(t: Seq<char>) -> Option<Subscription> {
    if t.len() == 0 {
        None
    } else {
        lookup_from(t, 0)
    }
}

/// The kinds of the catalog, in order.
pub fn catalog_kinds() -> (r: Vec<Subscription>)
    ensures
        r@ == catalog(),
{
    let mut v: Vec<Subscription> = Vec::new();
    v.push(Subscription::UserUpdate);
    v.push(Subscription::ChannelFollow);
    v.push(Subscription::ChannelRaid);
    v.push(Subscription::ChannelUpdate);
    v.push(Subscription::ChannelSubscribe);
    v.push(Subscription::ChannelSubscriptionEnd);
    v.push(Subscription::ChannelSubscriptionGift);
    v.push(Subscription::ChannelSubscriptionMessage);
    v.push(Subscription::ChannelCheer);
    v.push(Subscription::ChannelPointsCustomRewardRedeem);
    v.push(Subscription::ChannelPointsAutoRewardRedeem);
    v.push(Subscription::ChannelPollBegin);
    v.push(Subscription::ChannelPollProgress);
    v.push(Subscription::ChannelPollEnd);
    v.push(Subscription::ChannelPredictionBegin);
    v.push(Subscription::ChannelPredictionProgress);
    v.push(Subscription::ChannelPredictionLock);
    v.push(Subscription::ChannelPredictionEnd);
    v.push(Subscription::ChannelGoalBegin);
    v.push(Subscription::ChannelGoalProgress);
    v.push(Subscription::ChannelGoalEnd);
    v.push(Subscription::ChannelHypeTrainBegin);
    v.push(Subscription::ChannelHypeTrainProgress);
    v.push(Subscription::ChannelHypeTrainEnd);
    v.push(Subscription::ChannelShoutoutCreate);
    v.push(Subscription::ChannelShoutoutReceive);
    v.push(Subscription::ChatMessage);
    v.push(Subscription::BanTimeoutUser);
    v.push(Subscription::DeleteMessage);
    v.push(Subscription::AdBreakBegin);
    assert(v@ =~= catalog());
    v
}

impl Subscription {
    fn details(&self) -> (r: (String, String, String))
        ensures
            (r.0@, r.1@, r.2@) == details_of(*self),
    {
        let d: (&str, &str, &str) = match self {
            Subscription::UserUpdate => ("user.update", "", "1"),
            Subscription::ChannelFollow => ("channel.follow", "moderator:read:followers", "2"),
            Subscription::ChannelRaid => ("channel.raid", "", "1"),
            Subscription::ChannelUpdate => ("channel.update", "", "2"),
            Subscription::ChannelSubscribe => ("channel.subscribe", "channel:read:subscriptions", "1"),
            Subscription::ChannelSubscriptionEnd => ("channel.subscription.end", "channel:read:subscriptions", "1"),
            Subscription::ChannelSubscriptionGift => ("channel.subscription.gift", "channel:read:subscriptions", "1"),
            Subscription::ChannelSubscriptionMessage => ("channel.subscription.message", "channel:read:subscriptions", "1"),
            Subscription::ChannelCheer => ("channel.cheer", "bits:read", "1"),
            Subscription::ChannelPointsCustomRewardRedeem => ("channel.channel_points_custom_reward_redemption.add", "channel:read:redemptions", "1"),
            Subscription::ChannelPointsAutoRewardRedeem => ("channel.channel_points_automatic_reward_redemption.add", "channel:read:redemptions", "1"),
            Subscription::ChannelPollBegin => ("channel.poll.begin", "channel:read:polls+channel:manage:polls", "1"),
            Subscription::ChannelPollProgress => ("channel.poll.progress", "channel:read:polls+channel:manage:polls", "1"),
            Subscription::ChannelPollEnd => ("channel.poll.end", "channel:read:polls+channel:manage:polls", "1"),
            Subscription::ChannelPredictionBegin => ("channel.prediction.begin", "channel:read:predictions+channel:manage:predictions", "1"),
            Subscription::ChannelPredictionProgress => ("channel.prediction.progress", "channel:read:predictions+channel:manage:predictions", "1"),
            Subscription::ChannelPredictionLock => ("channel.prediction.lock", "channel:read:predictions+channel:manage:predictions", "1"),
            Subscription::ChannelPredictionEnd => ("channel.prediction.end", "channel:read:predictions+channel:manage:predictions", "1"),
            Subscription::ChannelGoalBegin => ("channel.goal.begin", "channel:read:goals", "1"),
            Subscription::ChannelGoalProgress => ("channel.goal.progress", "channel:read:goals", "1"),
            Subscription::ChannelGoalEnd => ("channel.goal.end", "channel:read:goals", "1"),
            Subscription::ChannelHypeTrainBegin => ("channel.hype_train.begin", "channel:read:hype_train", "1"),
            Subscription::ChannelHypeTrainProgress => ("channel.hype_train.progress", "channel:read:hype_train", "1"),
            Subscription::ChannelHypeTrainEnd => ("channel.hype_train.end", "channel:read:hype_train", "1"),
            Subscription::ChannelShoutoutCreate => ("channel.shoutout.create", "moderator:read:shoutouts+moderator:manage:shoutouts", "1"),
            Subscription::ChannelShoutoutReceive => ("channel.shoutout.receive", "moderator:read:shoutouts+moderator:manage:shoutouts", "1"),
            Subscription::ChatMessage => ("channel.chat.message", "user:read:chat+user:write:chat", "1"),
            Subscription::BanTimeoutUser => ("", "moderator:manage:banned_users", ""),
            Subscription::DeleteMessage => ("", "moderator:manage:chat_messages", ""),
            Subscription::AdBreakBegin => ("channel.ad_break.begin", "channel:read:ads", "1"),
            Subscription::Custom(tag, scope, _) => {
                return (tag.clone(), scope.clone(), String::from_str(""));
            },
        };
        (String::from_str(d.0), String::from_str(d.1), String::from_str(d.2))
    }

    pub fn tag(&self) -> (r: String)
        ensures
            r@ == tag_of(*self),
    {
        self.details().0
    }

    pub fn required_scope(&self) -> (r: String)
        ensures
            r@ == scope_of(*self),
    {
        self.details().1
    }

    pub fn version(&self) -> (r: String)
        ensures
            r@ == version_of(*self),
    {
        self.details().2
    }

    /// Finds the kind whose wire tag is `t`.
    pub fn from_string(t: &str) -> (r: Option<Subscription>)
        ensures
            r == lookup(t@),
    {
        if t.is_empty() {
            return None;
        }
        let mut kinds = catalog_kinds();
        let target = String::from_str(t);
        let mut i: usize = 0;
        while i < kinds.len()
            invariant
                kinds@ == catalog(),
                target@ == t@,
                0 <= i <= kinds.len(),
                lookup(t@) == lookup_from(t@, i as nat),
            decreases kinds.len() - i,
        {
            if kinds[i].tag() == target {
                return Some(kinds.remove(i));
            }
            i = i + 1;
        }
        None
    }
}


/// Identifiers of the account on whose behalf subscriptions are made.
#[derive(Debug, Clone)]
pub struct TwitchKeys {
    pub client_id: String,
    pub client_secret: String,
    pub broadcaster_account_id: String,
}

/// The condition built for kind `k` when one account `id` acts as
/// broadcaster, moderator and user.
pub open spec fn condition_for(k: Subscription, id: Seq<char>) -> ConditionView {
    match k {
        Subscription::UserUpdate => ConditionView { user_id: Some(id), ..empty_condition() },
        Subscription::ChannelFollow => ConditionView {
            user_id: Some(id),
            moderator_user_id: Some(id),
            broadcaster_user_id: Some(id),
            ..empty_condition()
        },
        Subscription::ChatMessage => ConditionView {
            user_id: Some(id),
            broadcaster_user_id: Some(id),
            ..empty_condition()
        },
        Subscription::ChannelPointsCustomRewardRedeem | Subscription::AdBreakBegin | Subscription::ChannelRaid | Subscription::ChannelUpdate | Subscription::ChannelSubscribe | Subscription::ChannelSubscriptionEnd | Subscription::ChannelSubscriptionGift | Subscription::ChannelSubscriptionMessage => ConditionView {
            broadcaster_user_id: Some(id),
            ..empty_condition()
        },
        _ => empty_condition(),
    }
}

/// The request body that subscribes to kind `k` on session `session_id`.
pub open spec fn subscription_data(k: Subscription, session_id: Seq<char>, id: Seq<char>) -> EventSubscriptionView {
    match k {
        Subscription::Custom(_, _, ev) => EventSubscriptionView {
            transport: websocket_transport(session_id),
            ..ev@
        },
        _ => EventSubscriptionView {
            kind: tag_of(k),
            version: version_of(k),
            condition: condition_for(k, id),
            transport: websocket_transport(session_id),
        },
    }
}

/// The fields that the filter of kind `k` is declared to hold.
pub open spec fn condition_fields(k: Subscription) -> Set<ConditionField> {
    match k {
        Subscription::UserUpdate => set![ConditionField::UserId],
        Subscription::ChannelFollow => set![
            ConditionField::UserId,
            ConditionField::ModeratorUserId,
            ConditionField::BroadcasterUserId,
        ],
        Subscription::ChatMessage => set![ConditionField::UserId, ConditionField::BroadcasterUserId],
        Subscription::ChannelPointsCustomRewardRedeem | Subscription::AdBreakBegin | Subscription::ChannelRaid | Subscription::ChannelUpdate | Subscription::ChannelSubscribe | Subscription::ChannelSubscriptionEnd | Subscription::ChannelSubscriptionGift | Subscription::ChannelSubscriptionMessage => set![
            ConditionField::BroadcasterUserId,
        ],
        _ => Set::empty(),
    }
}

/// A non-empty run of decimal digits.
pub open spec fn is_numeral(s: Seq<char>) -> bool {
    s.len() > 0 && forall|i: int| 0 <= i < s.len() ==> '0' <= #[trigger] s[i] <= '9'
}

/// Every kind of the catalog has a non-empty scope, except the scope-free
/// ones (user updates, raids and channel updates), and every kind that has a
/// wire tag has a decimal version.
pub proof fn lemma_catalog_scopes_and_versions(k: Subscription)
    requires
        catalog().contains(k),
    ensures
        !(k is UserUpdate || k is ChannelRaid || k is ChannelUpdate) ==> scope_of(k).len() > 0,
        !(k is BanTimeoutUser || k is DeleteMessage) ==> is_numeral(version_of(k)),
        tag_of(k).len() == 0 <==> (k is BanTimeoutUser || k is DeleteMessage),
{
    reveal_strlit("");
    reveal_strlit("1");
    reveal_strlit("2");
    reveal_strlit("bits:read");
    reveal_strlit("channel.ad_break.begin");
    reveal_strlit("channel.channel_points_automatic_reward_redemption.add");
    reveal_strlit("channel.channel_points_custom_reward_redemption.add");
    reveal_strlit("channel.chat.message");
    reveal_strlit("channel.cheer");
    reveal_strlit("channel.follow");
    reveal_strlit("channel.goal.begin");
    reveal_strlit("channel.goal.end");
    reveal_strlit("channel.goal.progress");
    reveal_strlit("channel.hype_train.begin");
    reveal_strlit("channel.hype_train.end");
    reveal_strlit("channel.hype_train.progress");
    reveal_strlit("channel.poll.begin");
    reveal_strlit("channel.poll.end");
    reveal_strlit("channel.poll.progress");
    reveal_strlit("channel.prediction.begin");
    reveal_strlit("channel.prediction.end");
    reveal_strlit("channel.prediction.lock");
    reveal_strlit("channel.prediction.progress");
    reveal_strlit("channel.raid");
    reveal_strlit("channel.shoutout.create");
    reveal_strlit("channel.shoutout.receive");
    reveal_strlit("channel.subscribe");
    reveal_strlit("channel.subscription.end");
    reveal_strlit("channel.subscription.gift");
    reveal_strlit("channel.subscription.message");
    reveal_strlit("channel.update");
    reveal_strlit("channel:read:ads");
    reveal_strlit("channel:read:goals");
    reveal_strlit("channel:read:hype_train");
    reveal_strlit("channel:read:polls+channel:manage:polls");
    reveal_strlit("channel:read:predictions+channel:manage:predictions");
    reveal_strlit("channel:read:redemptions");
    reveal_strlit("channel:read:subscriptions");
    reveal_strlit("moderator:manage:banned_users");
    reveal_strlit("moderator:manage:chat_messages");
    reveal_strlit("moderator:read:followers");
    reveal_strlit("moderator:read:shoutouts+moderator:manage:shoutouts");
    reveal_strlit("user.update");
    reveal_strlit("user:read:chat+user:write:chat");
    let i = choose|i: int| 0 <= i < catalog().len() && catalog()[i] == k;
    assert(0 <= i < catalog().len() && catalog()[i] == k);
}

/// A condition built for a kind never sets a field outside the kind's
/// declared field set, and every field it sets holds the account id.
pub proof fn lemma_condition_fields_declared(k: Subscription, session_id: Seq<char>, id: Seq<char>, f: ConditionField)
    requires
        !(k is Custom),
    ensures
        field_value(subscription_data(k, session_id, id).condition, f) is Some ==> condition_fields(k).contains(f),
        field_value(subscription_data(k, session_id, id).condition, f) is Some ==>
            field_value(subscription_data(k, session_id, id).condition, f) == Some(id),
{
}

impl Subscription {
    /// The request body that subscribes to this kind on session `session_id`.
    pub fn construct_data(&self, session_id: &str, twitch_keys: &TwitchKeys) -> (r: EventSubscription)
        ensures
            r@ == subscription_data(*self, session_id@, twitch_keys.broadcaster_account_id@),
    {
        let transport = Transport::new(session_id);
        let event_subscription = EventSubscription::new(self, transport);
        let id = &twitch_keys.broadcaster_account_id;
        let condition = Condition::new().broadcaster_user_id(id.clone());
        match self {
            Subscription::UserUpdate => event_subscription.condition(Condition::new().user_id(id.clone())),
            Subscription::ChannelFollow => event_subscription.condition(
                condition.moderator_user_id(id.clone()).user_id(id.clone()),
            ),
            Subscription::ChatMessage => event_subscription.condition(condition.user_id(id.clone())),
            Subscription::ChannelPointsCustomRewardRedeem | Subscription::AdBreakBegin | Subscription::ChannelRaid | Subscription::ChannelUpdate | Subscription::ChannelSubscribe | Subscription::ChannelSubscriptionEnd | Subscription::ChannelSubscriptionGift | Subscription::ChannelSubscriptionMessage => event_subscription.condition(condition),
            Subscription::Custom(_, _, event) => event.duplicate().transport(Transport::new(session_id)),
            _ => event_subscription,
        }
    }
}

impl Condition {
    /// A copy of this condition.
    pub fn duplicate(&self) -> (r: Condition)
        ensures
            r@ == self@,
    {
        Condition {
            user_id: copy_opt(&self.user_id),
            moderator_user_id: copy_opt(&self.moderator_user_id),
            broadcaster_user_id: copy_opt(&self.broadcaster_user_id),
            reward_id: copy_opt(&self.reward_id),
            from_broadcaster_user_id: copy_opt(&self.from_broadcaster_user_id),
            to_broadcaster_user_id: copy_opt(&self.to_broadcaster_user_id),
            organisation_id: copy_opt(&self.organisation_id),
            category_id: copy_opt(&self.category_id),
            campaign_id: copy_opt(&self.campaign_id),
            extension_client_id: copy_opt(&self.extension_client_id),
        }
    }
}

impl EventSubscription {
    /// The body for kind `event` with an empty condition.
    pub fn new(event: &Subscription, transport: Transport) -> (r: EventSubscription)
        ensures
            r@ == (EventSubscriptionView {
                kind: tag_of(*event),
                version: version_of(*event),
                condition: empty_condition(),
                transport: transport@,
            }),
    {
        EventSubscription { kind: event.tag(), version: event.version(), condition: Condition::new(), transport }
    }

    pub fn transport(self, transport: Transport) -> (r: EventSubscription)
        ensures
            r@ == (EventSubscriptionView { transport: transport@, ..self@ }),
    {
        let mut s = self;
        s.transport = transport;
        s
    }

    pub fn condition(self, condition: Condition) -> (r: EventSubscription)
        ensures
            r@ == (EventSubscriptionView { condition: condition@, ..self@ }),
    {
        let mut s = self;
        s.condition = condition;
        s
    }

    /// A copy of this body.
    pub fn duplicate(&self) -> (r: EventSubscription)
        ensures
            r@ == self@,
    {
        EventSubscription {
            kind: self.kind.clone(),
            version: self.version.clone(),
            condition: self.condition.duplicate(),
            transport: Transport { method: self.transport.method.clone(), session_id: self.transport.session_id.clone() },
        }
    }
}

pub open spec fn entry(key: Seq<char>, value: Option<Seq<char>>) -> Seq<(Seq<char>, Seq<char>)> {
    match value {
        Some(v) => seq![(key, v)],
        None => Seq::empty(),
    }
}

/// The fields that a condition sets, as (key, value) pairs in field order.
pub open spec fn condition_entries(c: ConditionView) -> Seq<(Seq<char>, Seq<char>)> {
    entry("user_id"@, c.user_id)
        + entry("moderator_user_id"@, c.moderator_user_id)
        + entry("broadcaster_user_id"@, c.broadcaster_user_id)
        + entry("reward_id"@, c.reward_id)
        + entry("from_broadcaster_user_id"@, c.from_broadcaster_user_id)
        + entry("to_broadcaster_user_id"@, c.to_broadcaster_user_id)
        + entry("organisation_id"@, c.organisation_id)
        + entry("category_id"@, c.category_id)
        + entry("campaign_id"@, c.campaign_id)
        + entry("extension_client_id"@, c.extension_client_id)
}

pub open spec fn member_json(e: (Seq<char>, Seq<char>)) -> Seq<char> {
    json_quoted(e.0) + ":"@ + json_quoted(e.1)
}

/// The members joined by commas.
pub open spec fn members_json(es: Seq<(Seq<char>, Seq<char>)>) -> Seq<char>
    decreases es.len(),
{
    if es.len() == 0 {
        Seq::empty()
    } else if es.len() == 1 {
        member_json(es[0])
    } else {
        members_json(es.drop_last()) + ","@ + member_json(es.last())
    }
}

/// The JSON object of a condition: the fields it sets, and no others.
pub open spec fn condition_json(c: ConditionView) -> Seq<char> {
    "{"@ + members_json(condition_entries(c)) + "}"@
}

/// The JSON text of a subscription request.
pub open spec fn subscription_json(e: EventSubscriptionView) -> Seq<char> {
    "{\"type\":"@ + json_quoted(e.kind) + ",\"version\":"@ + json_quoted(e.version) + ",\"condition\":"@
        + condition_json(e.condition) + ",\"transport\":{\"method\":"@ + json_quoted(e.transport.method)
        + ",\"session_id\":"@ + json_quoted(e.transport.session_id) + "}}"@
}

pub open spec fn pairs_view(v: Seq<(String, String)>) -> Seq<(Seq<char>, Seq<char>)> {
    v.map_values(|p: (String, String)| (p.0@, p.1@))
}

fn push_entry(v: &mut Vec<(String, String)>, key: &str, value: &Option<String>)
    ensures
        pairs_view(final(v)@) == pairs_view(old(v)@) + entry(key@, opt_view(*value)),
{
    match value {
        Some(s) => {
            v.push((String::from_str(key), s.clone()));
            assert(pairs_view(v@) =~= pairs_view(old(v)@) + entry(key@, opt_view(*value)));
        },
        None => {
            assert(pairs_view(v@) =~= pairs_view(old(v)@) + entry(key@, opt_view(*value)));
        },
    }
}

impl Condition {
    /// The JSON object of this condition; fields that are not set are left out.
    pub fn to_json(&self) -> (r: String)
        ensures
            r@ == condition_json(self@),
    {
        let mut es: Vec<(String, String)> = Vec::new();
        assert(pairs_view(es@) =~= Seq::<(Seq<char>, Seq<char>)>::empty());
        push_entry(&mut es, "user_id", &self.user_id);
        push_entry(&mut es, "moderator_user_id", &self.moderator_user_id);
        push_entry(&mut es, "broadcaster_user_id", &self.broadcaster_user_id);
        push_entry(&mut es, "reward_id", &self.reward_id);
        push_entry(&mut es, "from_broadcaster_user_id", &self.from_broadcaster_user_id);
        push_entry(&mut es, "to_broadcaster_user_id", &self.to_broadcaster_user_id);
        push_entry(&mut es, "organisation_id", &self.organisation_id);
        push_entry(&mut es, "category_id", &self.category_id);
        push_entry(&mut es, "campaign_id", &self.campaign_id);
        push_entry(&mut es, "extension_client_id", &self.extension_client_id);
        let ghost pv = pairs_view(es@);
        assert(pv =~= condition_entries(self@));
        let mut out = String::from_str("{");
        let mut i: usize = 0;
        while i < es.len()
            invariant
                pv == pairs_view(es@),
                0 <= i <= es.len(),
                out@ == "{"@ + members_json(pv.take(i as int)),
            decreases es.len() - i,
        {
            proof {
                assert(pv.take(i as int + 1).drop_last() =~= pv.take(i as int));
                if i == 0 {
                    assert(members_json(pv.take(0)) =~= Seq::<char>::empty());
                }
            }
            if i > 0 {
                out.append(",");
            }
            out.append(quote(es[i].0.as_str()).as_str());
            out.append(":");
            out.append(quote(es[i].1.as_str()).as_str());
            assert(out@ =~= "{"@ + members_json(pv.take(i as int + 1)));
            i = i + 1;
        }
        assert(pv.take(i as int) =~= pv);
        out.append("}");
        out
    }
}

impl EventSubscription {
    /// The JSON text of this subscription request.
    pub fn to_json(&self) -> (r: String)
        ensures
            r@ == subscription_json(self@),
    {
        let mut out = String::from_str("{\"type\":");
        out.append(quote(self.kind.as_str()).as_str());
        out.append(",\"version\":");
        out.append(quote(self.version.as_str()).as_str());
        out.append(",\"condition\":");
        out.append(self.condition.to_json().as_str());
        out.append(",\"transport\":{\"method\":");
        out.append(quote(self.transport.method.as_str()).as_str());
        out.append(",\"session_id\":");
        out.append(quote(self.transport.session_id.as_str()).as_str());
        out.append("}}");
        out
    }
}

} // verus!
