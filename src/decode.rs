//! Inbound envelopes: their phase, their metadata and payload, and the
//! resolution of an event body, which carries no tag of its own, to exactly
//! one kind of event.

use vstd::prelude::*;
use vstd::string::*;
use crate::json::{
    Json, parse_doc, parsed_json, member, member_of, present, present_member, take_member, opt_text_field, text_field,
    opt_u32_field, u32_field, opt_text_list_field, text_field_of, req_text_of, u32_field_of, req_u32_of, text_list_of,
    texts_view,
};
use crate::catalog::{Subscription, Condition, Transport, EventSubscription, lookup, lookup_from, catalog, opt_view};
use crate::http::EventSubError;
use crate::messages::{phase_of, EventMessageType, Message, Fragments, Mention, Emote, CheerMote};

verus! {

/// The kinds of event body.
#[derive(Clone, Copy, PartialEq, Eq, Structural, Debug)]
pub enum EventKind {
    ChatMessage,
    Raid,
    PointsCustomRewardRedeem,
    AdBreakBegin,
    Subscribe,
    SubscriptionGift,
    SubscriptionMessage,
    Cheer,
    ChannelPointsAutoRewardRedeem,
    PollBegin,
    PollProgress,
    PollEnd,
    PredictionBegin,
    PredictionProgress,
    PredictionLock,
    PredictionEnd,
    HypeTrainBegin,
    HypeTrainProgress,
    HypeTrainEnd,
}

/// The kinds of event body in their fixed trial order.
pub open spec fn trial_order() -> Seq<EventKind> {
    seq![
        EventKind::ChatMessage,
        EventKind::Raid,
        EventKind::PointsCustomRewardRedeem,
        EventKind::AdBreakBegin,
        EventKind::Subscribe,
        EventKind::SubscriptionGift,
        EventKind::SubscriptionMessage,
        EventKind::Cheer,
        EventKind::ChannelPointsAutoRewardRedeem,
        EventKind::PollBegin,
        EventKind::PollProgress,
        EventKind::PollEnd,
        EventKind::PredictionBegin,
        EventKind::PredictionProgress,
        EventKind::PredictionLock,
        EventKind::PredictionEnd,
        EventKind::HypeTrainBegin,
        EventKind::HypeTrainProgress,
        EventKind::HypeTrainEnd,
    ]
}

/// The JSON type that a required field of an event body must have.
#[derive(Clone, Copy, PartialEq, Eq, Structural, Debug)]
pub enum FieldType {
    Text,
    TextOrNull,
    Integer,
    Flag,
    List,
    Object,
}

/// A member fits a field type.
pub open spec fn fits(o: Option<Json>, t: FieldType) -> bool {
    match o {
        Some(j) => match t {
            FieldType::Text => j is Str,
            FieldType::TextOrNull => j is Str || j is Null,
            FieldType::Integer => j is Int,
            FieldType::Flag => j is Bool,
            FieldType::List => j is Arr,
            FieldType::Object => j is Obj,
        },
        None => false,
    }
}

/// Whether a member fits a field type.
pub fn fits_member(o: Option<&Json>, t: FieldType) -> (r: bool)
    ensures
        r == fits(
            match o {
                Some(j) => Some(*j),
                None => None,
            },
            t,
        ),
{
    match o {
        Some(j) => match t {
            FieldType::Text => matches!(j, Json::Str(_)),
            FieldType::TextOrNull => matches!(j, Json::Str(_)) || matches!(j, Json::Null),
            FieldType::Integer => matches!(j, Json::Int(_)),
            FieldType::Flag => matches!(j, Json::Bool(_)),
            FieldType::List => matches!(j, Json::Arr(_)),
            FieldType::Object => matches!(j, Json::Obj(_)),
        },
        None => false,
    }
}

/// The body has every required field of kind `k`, each of its type.
pub open spec fn has_shape(body: Json, k: EventKind) -> bool {
    match k {
        EventKind::ChatMessage => fits(member_of(body, "broadcaster_user_id"@), FieldType::Text)
        && fits(member_of(body, "chatter_user_id"@), FieldType::Text)
        && fits(member_of(body, "chatter_user_login"@), FieldType::Text)
        && fits(member_of(body, "chatter_user_name"@), FieldType::Text)
        && fits(member_of(body, "message_id"@), FieldType::Text)
        && fits(member_of(body, "message"@), FieldType::Object)
        && fits(member_of(body, "color"@), FieldType::Text)
        && fits(member_of(body, "badges"@), FieldType::List)
        && fits(member_of(body, "message_type"@), FieldType::Text),
        EventKind::Raid => fits(member_of(body, "from_broadcaster_user_id"@), FieldType::Text)
        && fits(member_of(body, "from_broadcaster_user_login"@), FieldType::Text)
        && fits(member_of(body, "from_broadcaster_user_name"@), FieldType::Text)
        && fits(member_of(body, "to_broadcaster_user_id"@), FieldType::Text)
        && fits(member_of(body, "to_broadcaster_user_login"@), FieldType::Text)
        && fits(member_of(body, "to_broadcaster_user_name"@), FieldType::Text)
        && fits(member_of(body, "viewers"@), FieldType::Integer),
        EventKind::PointsCustomRewardRedeem => fits(member_of(body, "id"@), FieldType::Text)
        && fits(member_of(body, "broadcaster_user_id"@), FieldType::Text)
        && fits(member_of(body, "user_id"@), FieldType::Text)
        && fits(member_of(body, "user_input"@), FieldType::Text)
        && fits(member_of(body, "status"@), FieldType::Text)
        && fits(member_of(body, "reward"@), FieldType::Object)
        && fits(member_of(body, "redeemed_at"@), FieldType::Text),
        EventKind::AdBreakBegin => fits(member_of(body, "duration_seconds"@), FieldType::Integer)
        && fits(member_of(body, "started_at"@), FieldType::Text)
        && fits(member_of(body, "is_automatic"@), FieldType::Flag)
        && fits(member_of(body, "broadcaster_user_id"@), FieldType::Text)
        && fits(member_of(body, "requester_user_id"@), FieldType::Text),
        EventKind::Subscribe => fits(member_of(body, "user_id"@), FieldType::Text)
        && fits(member_of(body, "broadcaster_user_id"@), FieldType::Text)
        && fits(member_of(body, "tier"@), FieldType::Text)
        && fits(member_of(body, "is_gift"@), FieldType::Flag),
        EventKind::SubscriptionGift => fits(member_of(body, "broadcaster_user_id"@), FieldType::Text)
        && fits(member_of(body, "total"@), FieldType::Integer)
        && fits(member_of(body, "tier"@), FieldType::Text)
        && fits(member_of(body, "is_anonymous"@), FieldType::Flag),
        EventKind::SubscriptionMessage => fits(member_of(body, "user_id"@), FieldType::Text)
        && fits(member_of(body, "broadcaster_user_id"@), FieldType::Text)
        && fits(member_of(body, "tier"@), FieldType::Text)
        && fits(member_of(body, "message"@), FieldType::Object)
        && fits(member_of(body, "cumulative_months"@), FieldType::Integer)
        && fits(member_of(body, "duration_months"@), FieldType::Integer),
        EventKind::Cheer => fits(member_of(body, "is_anonymous"@), FieldType::Flag)
        && fits(member_of(body, "broadcaster_user_id"@), FieldType::Text)
        && fits(member_of(body, "message"@), FieldType::Text)
        && fits(member_of(body, "bits"@), FieldType::Integer),
        EventKind::ChannelPointsAutoRewardRedeem => fits(member_of(body, "id"@), FieldType::Text)
        && fits(member_of(body, "broadcaster_user_id"@), FieldType::Text)
        && fits(member_of(body, "user_id"@), FieldType::Text)
        && fits(member_of(body, "reward"@), FieldType::Object)
        && fits(member_of(body, "message"@), FieldType::Object)
        && fits(member_of(body, "redeemed_at"@), FieldType::Text),
        EventKind::PollBegin => fits(member_of(body, "id"@), FieldType::Text)
        && fits(member_of(body, "broadcaster_user_id"@), FieldType::Text)
        && fits(member_of(body, "title"@), FieldType::Text)
        && fits(member_of(body, "choices"@), FieldType::List)
        && fits(member_of(body, "bits_voting"@), FieldType::Object)
        && fits(member_of(body, "channel_points_voting"@), FieldType::Object)
        && fits(member_of(body, "started_at"@), FieldType::Text)
        && fits(member_of(body, "ends_at"@), FieldType::Text),
        EventKind::PollProgress => fits(member_of(body, "id"@), FieldType::Text)
        && fits(member_of(body, "broadcaster_user_id"@), FieldType::Text)
        && fits(member_of(body, "title"@), FieldType::Text)
        && fits(member_of(body, "choices"@), FieldType::List)
        && fits(member_of(body, "bits_voting"@), FieldType::Object)
        && fits(member_of(body, "channel_points_voting"@), FieldType::Object)
        && fits(member_of(body, "started_at"@), FieldType::Text)
        && fits(member_of(body, "ends_at"@), FieldType::Text),
        EventKind::PollEnd => fits(member_of(body, "id"@), FieldType::Text)
        && fits(member_of(body, "broadcaster_user_id"@), FieldType::Text)
        && fits(member_of(body, "title"@), FieldType::Text)
        && fits(member_of(body, "choices"@), FieldType::List)
        && fits(member_of(body, "status"@), FieldType::Text)
        && fits(member_of(body, "started_at"@), FieldType::Text)
        && fits(member_of(body, "ended_at"@), FieldType::Text),
        EventKind::PredictionBegin => fits(member_of(body, "id"@), FieldType::Text)
        && fits(member_of(body, "broadcaster_user_id"@), FieldType::Text)
        && fits(member_of(body, "title"@), FieldType::Text)
        && fits(member_of(body, "outcomes"@), FieldType::List)
        && fits(member_of(body, "started_at"@), FieldType::Text)
        && fits(member_of(body, "locks_at"@), FieldType::Text),
        EventKind::PredictionProgress => fits(member_of(body, "id"@), FieldType::Text)
        && fits(member_of(body, "broadcaster_user_id"@), FieldType::Text)
        && fits(member_of(body, "title"@), FieldType::Text)
        && fits(member_of(body, "outcomes"@), FieldType::List)
        && fits(member_of(body, "started_at"@), FieldType::Text)
        && fits(member_of(body, "locks_at"@), FieldType::Text),
        EventKind::PredictionLock => fits(member_of(body, "id"@), FieldType::Text)
        && fits(member_of(body, "broadcaster_user_id"@), FieldType::Text)
        && fits(member_of(body, "title"@), FieldType::Text)
        && fits(member_of(body, "outcomes"@), FieldType::List)
        && fits(member_of(body, "started_at"@), FieldType::Text)
        && fits(member_of(body, "locked_at"@), FieldType::Text),
        EventKind::PredictionEnd => fits(member_of(body, "id"@), FieldType::Text)
        && fits(member_of(body, "broadcaster_user_id"@), FieldType::Text)
        && fits(member_of(body, "title"@), FieldType::Text)
        && fits(member_of(body, "winning_outcome_id"@), FieldType::TextOrNull)
        && fits(member_of(body, "outcomes"@), FieldType::List)
        && fits(member_of(body, "status"@), FieldType::Text)
        && fits(member_of(body, "started_at"@), FieldType::Text)
        && fits(member_of(body, "ended_at"@), FieldType::Text),
        EventKind::HypeTrainBegin => fits(member_of(body, "id"@), FieldType::Text)
        && fits(member_of(body, "broadcaster_user_id"@), FieldType::Text)
        && fits(member_of(body, "total"@), FieldType::Integer)
        && fits(member_of(body, "progress"@), FieldType::Integer)
        && fits(member_of(body, "goal"@), FieldType::Integer)
        && fits(member_of(body, "top_contributions"@), FieldType::List)
        && fits(member_of(body, "last_contribution"@), FieldType::Object)
        && fits(member_of(body, "level"@), FieldType::Integer)
        && fits(member_of(body, "started_at"@), FieldType::Text)
        && fits(member_of(body, "expires_at"@), FieldType::Text),
        EventKind::HypeTrainProgress => fits(member_of(body, "id"@), FieldType::Text)
        && fits(member_of(body, "broadcaster_user_id"@), FieldType::Text)
        && fits(member_of(body, "total"@), FieldType::Integer)
        && fits(member_of(body, "progress"@), FieldType::Integer)
        && fits(member_of(body, "goal"@), FieldType::Integer)
        && fits(member_of(body, "top_contributions"@), FieldType::List)
        && fits(member_of(body, "last_contribution"@), FieldType::Object)
        && fits(member_of(body, "level"@), FieldType::Integer)
        && fits(member_of(body, "started_at"@), FieldType::Text)
        && fits(member_of(body, "expires_at"@), FieldType::Text),
        EventKind::HypeTrainEnd => fits(member_of(body, "id"@), FieldType::Text)
        && fits(member_of(body, "broadcaster_user_id"@), FieldType::Text)
        && fits(member_of(body, "level"@), FieldType::Integer)
        && fits(member_of(body, "total"@), FieldType::Integer)
        && fits(member_of(body, "top_contributions"@), FieldType::List)
        && fits(member_of(body, "started_at"@), FieldType::Text)
        && fits(member_of(body, "ended_at"@), FieldType::Text)
        && fits(member_of(body, "cooldown_ends_at"@), FieldType::Text),
    }
}

#[verifier::spinoff_prover]
fn shape_chat_message(body: &Json) -> (r: bool)
    ensures
        r == has_shape(*body, EventKind::ChatMessage),
{
    fits_member(member(body, "broadcaster_user_id"), FieldType::Text)
        && fits_member(member(body, "chatter_user_id"), FieldType::Text)
        && fits_member(member(body, "chatter_user_login"), FieldType::Text)
        && fits_member(member(body, "chatter_user_name"), FieldType::Text)
        && fits_member(member(body, "message_id"), FieldType::Text)
        && fits_member(member(body, "message"), FieldType::Object)
        && fits_member(member(body, "color"), FieldType::Text)
        && fits_member(member(body, "badges"), FieldType::List)
        && fits_member(member(body, "message_type"), FieldType::Text)
}

#[verifier::spinoff_prover]
fn shape_raid(body: &Json) -> (r: bool)
    ensures
        r == has_shape(*body, EventKind::Raid),
{
    fits_member(member(body, "from_broadcaster_user_id"), FieldType::Text)
        && fits_member(member(body, "from_broadcaster_user_login"), FieldType::Text)
        && fits_member(member(body, "from_broadcaster_user_name"), FieldType::Text)
        && fits_member(member(body, "to_broadcaster_user_id"), FieldType::Text)
        && fits_member(member(body, "to_broadcaster_user_login"), FieldType::Text)
        && fits_member(member(body, "to_broadcaster_user_name"), FieldType::Text)
        && fits_member(member(body, "viewers"), FieldType::Integer)
}

#[verifier::spinoff_prover]
fn shape_points_custom_reward_redeem(body: &Json) -> (r: bool)
    ensures
        r == has_shape(*body, EventKind::PointsCustomRewardRedeem),
{
    fits_member(member(body, "id"), FieldType::Text)
        && fits_member(member(body, "broadcaster_user_id"), FieldType::Text)
        && fits_member(member(body, "user_id"), FieldType::Text)
        && fits_member(member(body, "user_input"), FieldType::Text)
        && fits_member(member(body, "status"), FieldType::Text)
        && fits_member(member(body, "reward"), FieldType::Object)
        && fits_member(member(body, "redeemed_at"), FieldType::Text)
}

#[verifier::spinoff_prover]
fn shape_ad_break_begin(body: &Json) -> (r: bool)
    ensures
        r == has_shape(*body, EventKind::AdBreakBegin),
{
    fits_member(member(body, "duration_seconds"), FieldType::Integer)
        && fits_member(member(body, "started_at"), FieldType::Text)
        && fits_member(member(body, "is_automatic"), FieldType::Flag)
        && fits_member(member(body, "broadcaster_user_id"), FieldType::Text)
        && fits_member(member(body, "requester_user_id"), FieldType::Text)
}

#[verifier::spinoff_prover]
fn shape_subscribe(body: &Json) -> (r: bool)
    ensures
        r == has_shape(*body, EventKind::Subscribe),
{
    fits_member(member(body, "user_id"), FieldType::Text)
        && fits_member(member(body, "broadcaster_user_id"), FieldType::Text)
        && fits_member(member(body, "tier"), FieldType::Text)
        && fits_member(member(body, "is_gift"), FieldType::Flag)
}

#[verifier::spinoff_prover]
fn shape_subscription_gift(body: &Json) -> (r: bool)
    ensures
        r == has_shape(*body, EventKind::SubscriptionGift),
{
    fits_member(member(body, "broadcaster_user_id"), FieldType::Text)
        && fits_member(member(body, "total"), FieldType::Integer)
        && fits_member(member(body, "tier"), FieldType::Text)
        && fits_member(member(body, "is_anonymous"), FieldType::Flag)
}

#[verifier::spinoff_prover]
fn shape_subscription_message(body: &Json) -> (r: bool)
    ensures
        r == has_shape(*body, EventKind::SubscriptionMessage),
{
    fits_member(member(body, "user_id"), FieldType::Text)
        && fits_member(member(body, "broadcaster_user_id"), FieldType::Text)
        && fits_member(member(body, "tier"), FieldType::Text)
        && fits_member(member(body, "message"), FieldType::Object)
        && fits_member(member(body, "cumulative_months"), FieldType::Integer)
        && fits_member(member(body, "duration_months"), FieldType::Integer)
}

#[verifier::spinoff_prover]
fn shape_cheer(body: &Json) -> (r: bool)
    ensures
        r == has_shape(*body, EventKind::Cheer),
{
    fits_member(member(body, "is_anonymous"), FieldType::Flag)
        && fits_member(member(body, "broadcaster_user_id"), FieldType::Text)
        && fits_member(member(body, "message"), FieldType::Text)
        && fits_member(member(body, "bits"), FieldType::Integer)
}

#[verifier::spinoff_prover]
fn shape_channel_points_auto_reward_redeem(body: &Json) -> (r: bool)
    ensures
        r == has_shape(*body, EventKind::ChannelPointsAutoRewardRedeem),
{
    fits_member(member(body, "id"), FieldType::Text)
        && fits_member(member(body, "broadcaster_user_id"), FieldType::Text)
        && fits_member(member(body, "user_id"), FieldType::Text)
        && fits_member(member(body, "reward"), FieldType::Object)
        && fits_member(member(body, "message"), FieldType::Object)
        && fits_member(member(body, "redeemed_at"), FieldType::Text)
}

#[verifier::spinoff_prover]
fn shape_poll_begin(body: &Json) -> (r: bool)
    ensures
        r == has_shape(*body, EventKind::PollBegin),
{
    fits_member(member(body, "id"), FieldType::Text)
        && fits_member(member(body, "broadcaster_user_id"), FieldType::Text)
        && fits_member(member(body, "title"), FieldType::Text)
        && fits_member(member(body, "choices"), FieldType::List)
        && fits_member(member(body, "bits_voting"), FieldType::Object)
        && fits_member(member(body, "channel_points_voting"), FieldType::Object)
        && fits_member(member(body, "started_at"), FieldType::Text)
        && fits_member(member(body, "ends_at"), FieldType::Text)
}

#[verifier::spinoff_prover]
fn shape_poll_progress(body: &Json) -> (r: bool)
    ensures
        r == has_shape(*body, EventKind::PollProgress),
{
    fits_member(member(body, "id"), FieldType::Text)
        && fits_member(member(body, "broadcaster_user_id"), FieldType::Text)
        && fits_member(member(body, "title"), FieldType::Text)
        && fits_member(member(body, "choices"), FieldType::List)
        && fits_member(member(body, "bits_voting"), FieldType::Object)
        && fits_member(member(body, "channel_points_voting"), FieldType::Object)
        && fits_member(member(body, "started_at"), FieldType::Text)
        && fits_member(member(body, "ends_at"), FieldType::Text)
}

#[verifier::spinoff_prover]
fn shape_poll_end(body: &Json) -> (r: bool)
    ensures
        r == has_shape(*body, EventKind::PollEnd),
{
    fits_member(member(body, "id"), FieldType::Text)
        && fits_member(member(body, "broadcaster_user_id"), FieldType::Text)
        && fits_member(member(body, "title"), FieldType::Text)
        && fits_member(member(body, "choices"), FieldType::List)
        && fits_member(member(body, "status"), FieldType::Text)
        && fits_member(member(body, "started_at"), FieldType::Text)
        && fits_member(member(body, "ended_at"), FieldType::Text)
}

#[verifier::spinoff_prover]
fn shape_prediction_begin(body: &Json) -> (r: bool)
    ensures
        r == has_shape(*body, EventKind::PredictionBegin),
{
    fits_member(member(body, "id"), FieldType::Text)
        && fits_member(member(body, "broadcaster_user_id"), FieldType::Text)
        && fits_member(member(body, "title"), FieldType::Text)
        && fits_member(member(body, "outcomes"), FieldType::List)
        && fits_member(member(body, "started_at"), FieldType::Text)
        && fits_member(member(body, "locks_at"), FieldType::Text)
}

#[verifier::spinoff_prover]
fn shape_prediction_progress(body: &Json) -> (r: bool)
    ensures
        r == has_shape(*body, EventKind::PredictionProgress),
{
    fits_member(member(body, "id"), FieldType::Text)
        && fits_member(member(body, "broadcaster_user_id"), FieldType::Text)
        && fits_member(member(body, "title"), FieldType::Text)
        && fits_member(member(body, "outcomes"), FieldType::List)
        && fits_member(member(body, "started_at"), FieldType::Text)
        && fits_member(member(body, "locks_at"), FieldType::Text)
}

#[verifier::spinoff_prover]
fn shape_prediction_lock(body: &Json) -> (r: bool)
    ensures
        r == has_shape(*body, EventKind::PredictionLock),
{
    fits_member(member(body, "id"), FieldType::Text)
        && fits_member(member(body, "broadcaster_user_id"), FieldType::Text)
        && fits_member(member(body, "title"), FieldType::Text)
        && fits_member(member(body, "outcomes"), FieldType::List)
        && fits_member(member(body, "started_at"), FieldType::Text)
        && fits_member(member(body, "locked_at"), FieldType::Text)
}

#[verifier::spinoff_prover]
fn shape_prediction_end(body: &Json) -> (r: bool)
    ensures
        r == has_shape(*body, EventKind::PredictionEnd),
{
    fits_member(member(body, "id"), FieldType::Text)
        && fits_member(member(body, "broadcaster_user_id"), FieldType::Text)
        && fits_member(member(body, "title"), FieldType::Text)
        && fits_member(member(body, "winning_outcome_id"), FieldType::TextOrNull)
        && fits_member(member(body, "outcomes"), FieldType::List)
        && fits_member(member(body, "status"), FieldType::Text)
        && fits_member(member(body, "started_at"), FieldType::Text)
        && fits_member(member(body, "ended_at"), FieldType::Text)
}

#[verifier::spinoff_prover]
fn shape_hype_train_begin(body: &Json) -> (r: bool)
    ensures
        r == has_shape(*body, EventKind::HypeTrainBegin),
{
    fits_member(member(body, "id"), FieldType::Text)
        && fits_member(member(body, "broadcaster_user_id"), FieldType::Text)
        && fits_member(member(body, "total"), FieldType::Integer)
        && fits_member(member(body, "progress"), FieldType::Integer)
        && fits_member(member(body, "goal"), FieldType::Integer)
        && fits_member(member(body, "top_contributions"), FieldType::List)
        && fits_member(member(body, "last_contribution"), FieldType::Object)
        && fits_member(member(body, "level"), FieldType::Integer)
        && fits_member(member(body, "started_at"), FieldType::Text)
        && fits_member(member(body, "expires_at"), FieldType::Text)
}

#[verifier::spinoff_prover]
fn shape_hype_train_progress(body: &Json) -> (r: bool)
    ensures
        r == has_shape(*body, EventKind::HypeTrainProgress),
{
    fits_member(member(body, "id"), FieldType::Text)
        && fits_member(member(body, "broadcaster_user_id"), FieldType::Text)
        && fits_member(member(body, "total"), FieldType::Integer)
        && fits_member(member(body, "progress"), FieldType::Integer)
        && fits_member(member(body, "goal"), FieldType::Integer)
        && fits_member(member(body, "top_contributions"), FieldType::List)
        && fits_member(member(body, "last_contribution"), FieldType::Object)
        && fits_member(member(body, "level"), FieldType::Integer)
        && fits_member(member(body, "started_at"), FieldType::Text)
        && fits_member(member(body, "expires_at"), FieldType::Text)
}

#[verifier::spinoff_prover]
fn shape_hype_train_end(body: &Json) -> (r: bool)
    ensures
        r == has_shape(*body, EventKind::HypeTrainEnd),
{
    fits_member(member(body, "id"), FieldType::Text)
        && fits_member(member(body, "broadcaster_user_id"), FieldType::Text)
        && fits_member(member(body, "level"), FieldType::Integer)
        && fits_member(member(body, "total"), FieldType::Integer)
        && fits_member(member(body, "top_contributions"), FieldType::List)
        && fits_member(member(body, "started_at"), FieldType::Text)
        && fits_member(member(body, "ended_at"), FieldType::Text)
        && fits_member(member(body, "cooldown_ends_at"), FieldType::Text)
}

/// Whether the body has every required field of kind `k`.
pub fn matches_shape(body: &Json, k: EventKind) -> (r: bool)
    ensures
        r == has_shape(*body, k),
{
    match k {
        EventKind::ChatMessage => shape_chat_message(body),
        EventKind::Raid => shape_raid(body),
        EventKind::PointsCustomRewardRedeem => shape_points_custom_reward_redeem(body),
        EventKind::AdBreakBegin => shape_ad_break_begin(body),
        EventKind::Subscribe => shape_subscribe(body),
        EventKind::SubscriptionGift => shape_subscription_gift(body),
        EventKind::SubscriptionMessage => shape_subscription_message(body),
        EventKind::Cheer => shape_cheer(body),
        EventKind::ChannelPointsAutoRewardRedeem => shape_channel_points_auto_reward_redeem(body),
        EventKind::PollBegin => shape_poll_begin(body),
        EventKind::PollProgress => shape_poll_progress(body),
        EventKind::PollEnd => shape_poll_end(body),
        EventKind::PredictionBegin => shape_prediction_begin(body),
        EventKind::PredictionProgress => shape_prediction_progress(body),
        EventKind::PredictionLock => shape_prediction_lock(body),
        EventKind::PredictionEnd => shape_prediction_end(body),
        EventKind::HypeTrainBegin => shape_hype_train_begin(body),
        EventKind::HypeTrainProgress => shape_hype_train_progress(body),
        EventKind::HypeTrainEnd => shape_hype_train_end(body),
    }
}

/// The first kind of `order` whose shape the body has.
pub open spec fn first_match(order: Seq<EventKind>, body: Json) -> Option<EventKind>
    decreases order.len(),
{
    if order.len() == 0 {
        None
    } else if has_shape(body, order[0]) {
        Some(order[0])
    } else {
        first_match(order.drop_first(), body)
    }
}

/// The kind of event body that a subscription kind delivers, where modelled.
pub open spec fn event_kind_of_subscription(s: Subscription) -> Option<EventKind> {
    match s {
        Subscription::ChatMessage => Some(EventKind::ChatMessage),
        Subscription::ChannelRaid => Some(EventKind::Raid),
        Subscription::ChannelPointsCustomRewardRedeem => Some(EventKind::PointsCustomRewardRedeem),
        Subscription::AdBreakBegin => Some(EventKind::AdBreakBegin),
        Subscription::ChannelSubscribe => Some(EventKind::Subscribe),
        Subscription::ChannelSubscriptionGift => Some(EventKind::SubscriptionGift),
        Subscription::ChannelSubscriptionMessage => Some(EventKind::SubscriptionMessage),
        Subscription::ChannelCheer => Some(EventKind::Cheer),
        Subscription::ChannelPointsAutoRewardRedeem => Some(EventKind::ChannelPointsAutoRewardRedeem),
        Subscription::ChannelPollBegin => Some(EventKind::PollBegin),
        Subscription::ChannelPollProgress => Some(EventKind::PollProgress),
        Subscription::ChannelPollEnd => Some(EventKind::PollEnd),
        Subscription::ChannelPredictionBegin => Some(EventKind::PredictionBegin),
        Subscription::ChannelPredictionProgress => Some(EventKind::PredictionProgress),
        Subscription::ChannelPredictionLock => Some(EventKind::PredictionLock),
        Subscription::ChannelPredictionEnd => Some(EventKind::PredictionEnd),
        Subscription::ChannelHypeTrainBegin => Some(EventKind::HypeTrainBegin),
        Subscription::ChannelHypeTrainProgress => Some(EventKind::HypeTrainProgress),
        Subscription::ChannelHypeTrainEnd => Some(EventKind::HypeTrainEnd),
        _ => None,
    }
}

/// The kind of a body: where the envelope names a subscription type whose
/// body kind is known, that kind alone is tried; otherwise every kind is
/// tried in the fixed order.
pub open spec fn resolve_kind(hint: Option<Seq<char>>, body: Json) -> Option<EventKind> {
    let hinted = match hint {
        Some(t) => match lookup(t) {
            Some(s) => event_kind_of_subscription(s),
            None => None,
        },
        None => None,
    };
    match hinted {
        Some(k) => if has_shape(body, k) {
            Some(k)
        } else {
            None
        },
        None => first_match(trial_order(), body),
    }
}

/// The kinds of event body in trial order.
pub fn trial_kinds() -> (r: Vec<EventKind>)
    ensures
        r@ == trial_order(),
{
    let mut v: Vec<EventKind> = Vec::new();
    v.push(EventKind::ChatMessage);
    v.push(EventKind::Raid);
    v.push(EventKind::PointsCustomRewardRedeem);
    v.push(EventKind::AdBreakBegin);
    v.push(EventKind::Subscribe);
    v.push(EventKind::SubscriptionGift);
    v.push(EventKind::SubscriptionMessage);
    v.push(EventKind::Cheer);
    v.push(EventKind::ChannelPointsAutoRewardRedeem);
    v.push(EventKind::PollBegin);
    v.push(EventKind::PollProgress);
    v.push(EventKind::PollEnd);
    v.push(EventKind::PredictionBegin);
    v.push(EventKind::PredictionProgress);
    v.push(EventKind::PredictionLock);
    v.push(EventKind::PredictionEnd);
    v.push(EventKind::HypeTrainBegin);
    v.push(EventKind::HypeTrainProgress);
    v.push(EventKind::HypeTrainEnd);
    assert(v@ =~= trial_order());
    v
}

proof fn lemma_first_match_skip(order: Seq<EventKind>, body: Json, i: int)
    requires
        0 <= i < order.len(),
        !has_shape(body, order[i]),
    ensures
        first_match(order.skip(i), body) == first_match(order.skip(i + 1), body),
{
    assert(order.skip(i).drop_first() =~= order.skip(i + 1));
}

/// Resolves the kind of an event body, given the envelope's subscription
/// type, if any.
pub fn resolve_event_kind(hint: &Option<String>, body: &Json) -> (r: Option<EventKind>)
    ensures
        r == resolve_kind(opt_view(*hint), *body),
{
    let hinted: Option<EventKind> = match hint {
        Some(t) => match Subscription::from_string(t.as_str()) {
            Some(s) => event_kind_for(&s),
            None => None,
        },
        None => None,
    };
    match hinted {
        Some(k) => {
            if matches_shape(body, k) {
                Some(k)
            } else {
                None
            }
        },
        None => {
            let ghost hv = opt_view(*hint);
            assert(resolve_kind(hv, *body) == first_match(trial_order(), *body));
            let order = trial_kinds();
            let mut i: usize = 0;
            assert(order@.skip(0) =~= order@);
            while i < order.len()
                invariant
                    order@ == trial_order(),
                    hv == opt_view(*hint),
                    resolve_kind(hv, *body) == first_match(trial_order(), *body),
                    0 <= i <= order.len(),
                    first_match(trial_order(), *body) == first_match(trial_order().skip(i as int), *body),
                decreases order.len() - i,
            {
                if matches_shape(body, order[i]) {
                    assert(trial_order().skip(i as int)[0] == order@[i as int]);
                    assert(trial_order().skip(i as int).len() > 0);
                    assert(first_match(trial_order().skip(i as int), *body) == Some(order@[i as int]));
                    return Some(order[i]);
                }
                proof {
                    lemma_first_match_skip(trial_order(), *body, i as int);
                }
                i = i + 1;
            }
            assert(trial_order().skip(i as int).len() == 0);
            None
        },
    }
}

/// The kind of event body that subscription kind `s` delivers, where modelled.
pub fn event_kind_for(s: &Subscription) -> (r: Option<EventKind>)
    ensures
        r == event_kind_of_subscription(*s),
{
    match s {
        Subscription::ChatMessage => Some(EventKind::ChatMessage),
        Subscription::ChannelRaid => Some(EventKind::Raid),
        Subscription::ChannelPointsCustomRewardRedeem => Some(EventKind::PointsCustomRewardRedeem),
        Subscription::AdBreakBegin => Some(EventKind::AdBreakBegin),
        Subscription::ChannelSubscribe => Some(EventKind::Subscribe),
        Subscription::ChannelSubscriptionGift => Some(EventKind::SubscriptionGift),
        Subscription::ChannelSubscriptionMessage => Some(EventKind::SubscriptionMessage),
        Subscription::ChannelCheer => Some(EventKind::Cheer),
        Subscription::ChannelPointsAutoRewardRedeem => Some(EventKind::ChannelPointsAutoRewardRedeem),
        Subscription::ChannelPollBegin => Some(EventKind::PollBegin),
        Subscription::ChannelPollProgress => Some(EventKind::PollProgress),
        Subscription::ChannelPollEnd => Some(EventKind::PollEnd),
        Subscription::ChannelPredictionBegin => Some(EventKind::PredictionBegin),
        Subscription::ChannelPredictionProgress => Some(EventKind::PredictionProgress),
        Subscription::ChannelPredictionLock => Some(EventKind::PredictionLock),
        Subscription::ChannelPredictionEnd => Some(EventKind::PredictionEnd),
        Subscription::ChannelHypeTrainBegin => Some(EventKind::HypeTrainBegin),
        Subscription::ChannelHypeTrainProgress => Some(EventKind::HypeTrainProgress),
        Subscription::ChannelHypeTrainEnd => Some(EventKind::HypeTrainEnd),
        _ => None,
    }
}

proof fn lemma_single_shape_first_match(order: Seq<EventKind>, body: Json, k: EventKind)
    requires
        order.contains(k),
        has_shape(body, k),
        forall|j: EventKind| j != k ==> !has_shape(body, j),
    ensures
        first_match(order, body) == Some(k),
    decreases order.len(),
{
    if order[0] != k {
        let i = choose|i: int| 0 <= i < order.len() && order[i] == k;
        assert(order.drop_first()[i - 1] == k);
        lemma_single_shape_first_match(order.drop_first(), body, k);
    }
}

/// A raid body named as a raid by its envelope's subscription type resolves
/// to a raid.
pub proof fn lemma_hinted_raid(body: Json)
    requires
        has_shape(body, EventKind::Raid),
    ensures
        resolve_kind(Some("channel.raid"@), body) == Some(EventKind::Raid),
{
    reveal_strlit("user.update");
    reveal_strlit("channel.follow");
    reveal_strlit("channel.raid");
    assert("user.update"@.len() != "channel.raid"@.len());
    assert("channel.follow"@.len() != "channel.raid"@.len());
    assert(catalog()[0] == Subscription::UserUpdate);
    assert(catalog()[1] == Subscription::ChannelFollow);
    assert(catalog()[2] == Subscription::ChannelRaid);
    assert(lookup_from("channel.raid"@, 2) == Some(Subscription::ChannelRaid));
    assert(lookup_from("channel.raid"@, 1) == Some(Subscription::ChannelRaid));
    assert(lookup("channel.raid"@) == Some(Subscription::ChannelRaid));
}

/// A body that has the shape of exactly one kind `k` resolves to `k`
/// whatever the order in which the kinds are tried, as long as `k` is among
/// them; with no subscription type to go by, it resolves to `k` too.
pub proof fn lemma_single_shape_resolves(order: Seq<EventKind>, body: Json, k: EventKind)
    requires
        order.contains(k),
        has_shape(body, k),
        forall|j: EventKind| j != k ==> !has_shape(body, j),
    ensures
        first_match(order, body) == Some(k),
        resolve_kind(None, body) == Some(k),
{
    lemma_single_shape_first_match(order, body, k);
    assert(trial_order().contains(k)) by {
        match k {
            EventKind::ChatMessage => assert(trial_order()[0] == k),
            EventKind::Raid => assert(trial_order()[1] == k),
            EventKind::PointsCustomRewardRedeem => assert(trial_order()[2] == k),
            EventKind::AdBreakBegin => assert(trial_order()[3] == k),
            EventKind::Subscribe => assert(trial_order()[4] == k),
            EventKind::SubscriptionGift => assert(trial_order()[5] == k),
            EventKind::SubscriptionMessage => assert(trial_order()[6] == k),
            EventKind::Cheer => assert(trial_order()[7] == k),
            EventKind::ChannelPointsAutoRewardRedeem => assert(trial_order()[8] == k),
            EventKind::PollBegin => assert(trial_order()[9] == k),
            EventKind::PollProgress => assert(trial_order()[10] == k),
            EventKind::PollEnd => assert(trial_order()[11] == k),
            EventKind::PredictionBegin => assert(trial_order()[12] == k),
            EventKind::PredictionProgress => assert(trial_order()[13] == k),
            EventKind::PredictionLock => assert(trial_order()[14] == k),
            EventKind::PredictionEnd => assert(trial_order()[15] == k),
            EventKind::HypeTrainBegin => assert(trial_order()[16] == k),
            EventKind::HypeTrainProgress => assert(trial_order()[17] == k),
            EventKind::HypeTrainEnd => assert(trial_order()[18] == k),
        }
    }
    lemma_single_shape_first_match(trial_order(), body, k);
}

/// An event body, by kind; the body itself is kept as parsed.
#[derive(Debug)]
pub enum Event {
    ChatMessage(Json),
    Raid(Json),
    PointsCustomRewardRedeem(Json),
    AdBreakBegin(Json),
    Subscribe(Json),
    SubscriptionGift(Json),
    SubscriptionMessage(Json),
    Cheer(Json),
    ChannelPointsAutoRewardRedeem(Json),
    PollBegin(Json),
    PollProgress(Json),
    PollEnd(Json),
    PredictionBegin(Json),
    PredictionProgress(Json),
    PredictionLock(Json),
    PredictionEnd(Json),
    HypeTrainBegin(Json),
    HypeTrainProgress(Json),
    HypeTrainEnd(Json),
}

pub open spec fn event_kind(e: Event) -> EventKind {
    match e {
        Event::ChatMessage(_) => EventKind::ChatMessage,
        Event::Raid(_) => EventKind::Raid,
        Event::PointsCustomRewardRedeem(_) => EventKind::PointsCustomRewardRedeem,
        Event::AdBreakBegin(_) => EventKind::AdBreakBegin,
        Event::Subscribe(_) => EventKind::Subscribe,
        Event::SubscriptionGift(_) => EventKind::SubscriptionGift,
        Event::SubscriptionMessage(_) => EventKind::SubscriptionMessage,
        Event::Cheer(_) => EventKind::Cheer,
        Event::ChannelPointsAutoRewardRedeem(_) => EventKind::ChannelPointsAutoRewardRedeem,
        Event::PollBegin(_) => EventKind::PollBegin,
        Event::PollProgress(_) => EventKind::PollProgress,
        Event::PollEnd(_) => EventKind::PollEnd,
        Event::PredictionBegin(_) => EventKind::PredictionBegin,
        Event::PredictionProgress(_) => EventKind::PredictionProgress,
        Event::PredictionLock(_) => EventKind::PredictionLock,
        Event::PredictionEnd(_) => EventKind::PredictionEnd,
        Event::HypeTrainBegin(_) => EventKind::HypeTrainBegin,
        Event::HypeTrainProgress(_) => EventKind::HypeTrainProgress,
        Event::HypeTrainEnd(_) => EventKind::HypeTrainEnd,
    }
}

/// The event of kind `k` with body `body`.
pub open spec fn make_event(k: EventKind, body: Json) -> Event {
    match k {
        EventKind::ChatMessage => Event::ChatMessage(body),
        EventKind::Raid => Event::Raid(body),
        EventKind::PointsCustomRewardRedeem => Event::PointsCustomRewardRedeem(body),
        EventKind::AdBreakBegin => Event::AdBreakBegin(body),
        EventKind::Subscribe => Event::Subscribe(body),
        EventKind::SubscriptionGift => Event::SubscriptionGift(body),
        EventKind::SubscriptionMessage => Event::SubscriptionMessage(body),
        EventKind::Cheer => Event::Cheer(body),
        EventKind::ChannelPointsAutoRewardRedeem => Event::ChannelPointsAutoRewardRedeem(body),
        EventKind::PollBegin => Event::PollBegin(body),
        EventKind::PollProgress => Event::PollProgress(body),
        EventKind::PollEnd => Event::PollEnd(body),
        EventKind::PredictionBegin => Event::PredictionBegin(body),
        EventKind::PredictionProgress => Event::PredictionProgress(body),
        EventKind::PredictionLock => Event::PredictionLock(body),
        EventKind::PredictionEnd => Event::PredictionEnd(body),
        EventKind::HypeTrainBegin => Event::HypeTrainBegin(body),
        EventKind::HypeTrainProgress => Event::HypeTrainProgress(body),
        EventKind::HypeTrainEnd => Event::HypeTrainEnd(body),
    }
}

impl Event {
    /// The event of kind `k` with body `body`.
    pub fn from_kind(k: EventKind, body: Json) -> (r: Event)
        ensures
            r == make_event(k, body),
            event_kind(r) == k,
    {
        match k {
            EventKind::ChatMessage => Event::ChatMessage(body),
            EventKind::Raid => Event::Raid(body),
            EventKind::PointsCustomRewardRedeem => Event::PointsCustomRewardRedeem(body),
            EventKind::AdBreakBegin => Event::AdBreakBegin(body),
            EventKind::Subscribe => Event::Subscribe(body),
            EventKind::SubscriptionGift => Event::SubscriptionGift(body),
            EventKind::SubscriptionMessage => Event::SubscriptionMessage(body),
            EventKind::Cheer => Event::Cheer(body),
            EventKind::ChannelPointsAutoRewardRedeem => Event::ChannelPointsAutoRewardRedeem(body),
            EventKind::PollBegin => Event::PollBegin(body),
            EventKind::PollProgress => Event::PollProgress(body),
            EventKind::PollEnd => Event::PollEnd(body),
            EventKind::PredictionBegin => Event::PredictionBegin(body),
            EventKind::PredictionProgress => Event::PredictionProgress(body),
            EventKind::PredictionLock => Event::PredictionLock(body),
            EventKind::PredictionEnd => Event::PredictionEnd(body),
            EventKind::HypeTrainBegin => Event::HypeTrainBegin(body),
            EventKind::HypeTrainProgress => Event::HypeTrainProgress(body),
            EventKind::HypeTrainEnd => Event::HypeTrainEnd(body),
        }
    }

    pub fn kind(&self) -> (r: EventKind)
        ensures
            r == event_kind(*self),
    {
        match self {
            Event::ChatMessage(_) => EventKind::ChatMessage,
            Event::Raid(_) => EventKind::Raid,
            Event::PointsCustomRewardRedeem(_) => EventKind::PointsCustomRewardRedeem,
            Event::AdBreakBegin(_) => EventKind::AdBreakBegin,
            Event::Subscribe(_) => EventKind::Subscribe,
            Event::SubscriptionGift(_) => EventKind::SubscriptionGift,
            Event::SubscriptionMessage(_) => EventKind::SubscriptionMessage,
            Event::Cheer(_) => EventKind::Cheer,
            Event::ChannelPointsAutoRewardRedeem(_) => EventKind::ChannelPointsAutoRewardRedeem,
            Event::PollBegin(_) => EventKind::PollBegin,
            Event::PollProgress(_) => EventKind::PollProgress,
            Event::PollEnd(_) => EventKind::PollEnd,
            Event::PredictionBegin(_) => EventKind::PredictionBegin,
            Event::PredictionProgress(_) => EventKind::PredictionProgress,
            Event::PredictionLock(_) => EventKind::PredictionLock,
            Event::PredictionEnd(_) => EventKind::PredictionEnd,
            Event::HypeTrainBegin(_) => EventKind::HypeTrainBegin,
            Event::HypeTrainProgress(_) => EventKind::HypeTrainProgress,
            Event::HypeTrainEnd(_) => EventKind::HypeTrainEnd,
        }
    }

    /// The chat message of a chat event: what its `message` member reads as;
    /// `None` for other kinds.
    pub fn chat_message(&self) -> (r: Option<Message>)
        ensures
            opt_message_view(r) == chat_of(*self),
    {
        match self {
            Event::ChatMessage(body) => match present_member(body, "message") {
                Some(m) => message_from_value(m),
                None => None,
            },
            _ => None,
        }
    }
}

/// The chat message that an event holds.
pub open spec fn chat_of(e: Event) -> Option<MessageView> {
    match e {
        Event::ChatMessage(body) => match present(member_of(body, "message"@)) {
            Some(m) => message_of(m),
            None => None,
        },
        _ => None,
    }
}

pub struct EmoteView {
    pub id: Seq<char>,
    pub emote_set_id: Seq<char>,
    pub owner_id: Seq<char>,
    pub format: Seq<Seq<char>>,
}

impl View for Emote {
    type V = EmoteView;

    open spec fn view(&self) -> EmoteView {
        EmoteView { id: self.id@, emote_set_id: self.emote_set_id@, owner_id: self.owner_id@, format: texts_view(self.format@) }
    }
}

pub struct FragmentView {
    pub kind: Seq<char>,
    pub text: Seq<char>,
    pub cheermote: Option<CheerMote>,
    pub emote: Option<EmoteView>,
    pub mention: Option<Mention>,
}

impl View for Fragments {
    type V = FragmentView;

    open spec fn view(&self) -> FragmentView {
        FragmentView {
            kind: self.kind@,
            text: self.text@,
            cheermote: self.cheermote,
            emote: match self.emote {
                Some(e) => Some(e@),
                None => None,
            },
            mention: self.mention,
        }
    }
}

pub struct MessageView {
    pub text: Seq<char>,
    pub fragments: Seq<FragmentView>,
}

impl View for Message {
    type V = MessageView;

    open spec fn view(&self) -> MessageView {
        MessageView { text: self.text@, fragments: self.fragments@.map_values(|f: Fragments| f@) }
    }
}

pub open spec fn opt_message_view(o: Option<Message>) -> Option<MessageView> {
    match o {
        Some(m) => Some(m@),
        None => None,
    }
}

/// A mention that a document holds.
pub open spec fn mention_of(j: Json) -> Option<Mention> {
    if req_text_of(j, "user_id"@) is Some && req_text_of(j, "user_login"@) is Some && req_text_of(j, "user_name"@) is Some {
        Some(Mention {
            user_id: req_text_of(j, "user_id"@)->Some_0,
            user_login: req_text_of(j, "user_login"@)->Some_0,
            user_name: req_text_of(j, "user_name"@)->Some_0,
        })
    } else {
        None
    }
}

/// An emote that a document holds.
pub open spec fn emote_of(j: Json) -> Option<EmoteView> {
    if req_text_of(j, "id"@) is Some && req_text_of(j, "emote_set_id"@) is Some && req_text_of(j, "owner_id"@) is Some
        && text_list_of(j, "format"@) matches Ok(Some(_)) {
        Some(EmoteView {
            id: req_text_of(j, "id"@)->Some_0@,
            emote_set_id: req_text_of(j, "emote_set_id"@)->Some_0@,
            owner_id: req_text_of(j, "owner_id"@)->Some_0@,
            format: text_list_of(j, "format"@)->Ok_0->Some_0,
        })
    } else {
        None
    }
}

/// A cheermote that a document holds.
pub open spec fn cheermote_of(j: Json) -> Option<CheerMote> {
    if req_text_of(j, "prefix"@) is Some && req_u32_of(j, "bits"@) is Some && req_u32_of(j, "tier"@) is Some {
        Some(CheerMote {
            prefix: req_text_of(j, "prefix"@)->Some_0,
            bits: req_u32_of(j, "bits"@)->Some_0,
            tier: req_u32_of(j, "tier"@)->Some_0,
        })
    } else {
        None
    }
}

/// An optional member read by `f`: absent or null is `Ok(None)`, a member
/// that `f` cannot read `Err`.
pub open spec fn opt_part<T>(o: Option<Json>, f: spec_fn(Json) -> Option<T>) -> Result<Option<T>, ()> {
    match present(o) {
        None => Ok(None),
        Some(x) => match f(x) {
            Some(v) => Ok(Some(v)),
            None => Err(()),
        },
    }
}

/// A fragment that a document holds.
pub open spec fn fragment_of(j: Json) -> Option<FragmentView> {
    let c = opt_part(member_of(j, "cheermote"@), |x: Json| cheermote_of(x));
    let e = opt_part(member_of(j, "emote"@), |x: Json| emote_of(x));
    let m = opt_part(member_of(j, "mention"@), |x: Json| mention_of(x));
    if req_text_of(j, "type"@) is Some && req_text_of(j, "text"@) is Some && c is Ok && e is Ok && m is Ok {
        Some(FragmentView {
            kind: req_text_of(j, "type"@)->Some_0@,
            text: req_text_of(j, "text"@)->Some_0@,
            cheermote: c->Ok_0,
            emote: e->Ok_0,
            mention: m->Ok_0,
        })
    } else {
        None
    }
}

/// A chat message that a document holds: its text and a list of fragments.
pub open spec fn message_of(j: Json) -> Option<MessageView> {
    match member_of(j, "fragments"@) {
        Some(Json::Arr(items)) => if req_text_of(j, "text"@) is Some && forall|i: int|
            0 <= i < items@.len() ==> #[trigger] fragment_of(items@[i]) is Some {
            Some(MessageView {
                text: req_text_of(j, "text"@)->Some_0@,
                fragments: items@.map_values(|x: Json| fragment_of(x)->Some_0),
            })
        } else {
            None
        },
        _ => None,
    }
}

fn mention_from_value(v: &Json) -> (r: Option<Mention>)
    ensures
        r == mention_of(*v),
{
    Some(Mention {
        user_id: text_field(v, "user_id")?,
        user_login: text_field(v, "user_login")?,
        user_name: text_field(v, "user_name")?,
    })
}

fn emote_from_value(v: &Json) -> (r: Option<Emote>)
    ensures
        match r {
            Some(e) => emote_of(*v) == Some(e@),
            None => emote_of(*v) is None,
        },
{
    let id = text_field(v, "id")?;
    let emote_set_id = text_field(v, "emote_set_id")?;
    let owner_id = text_field(v, "owner_id")?;
    let format = match opt_text_list_field(v, "format") {
        Ok(Some(f)) => f,
        _ => return None,
    };
    Some(Emote { id, emote_set_id, owner_id, format })
}

fn cheermote_from_value(v: &Json) -> (r: Option<CheerMote>)
    ensures
        r == cheermote_of(*v),
{
    Some(CheerMote { prefix: text_field(v, "prefix")?, bits: u32_field(v, "bits")?, tier: u32_field(v, "tier")? })
}

fn fragment_from_value(v: &Json) -> (r: Option<Fragments>)
    ensures
        match r {
            Some(f) => fragment_of(*v) == Some(f@),
            None => fragment_of(*v) is None,
        },
{
    let kind = text_field(v, "type")?;
    let text = text_field(v, "text")?;
    let cheermote = match present_member(v, "cheermote") {
        Some(m) => Some(cheermote_from_value(m)?),
        None => None,
    };
    let emote = match present_member(v, "emote") {
        Some(m) => Some(emote_from_value(m)?),
        None => None,
    };
    let mention = match present_member(v, "mention") {
        Some(m) => Some(mention_from_value(m)?),
        None => None,
    };
    Some(Fragments { kind, text, cheermote, emote, mention })
}

/// Reads a chat message (`text` and `fragments`) out of a document.
pub fn message_from_value(v: &Json) -> (r: Option<Message>)
    ensures
        opt_message_view(r) == message_of(*v),
{
    let items = match member(v, "fragments") {
        Some(Json::Arr(items)) => items,
        _ => return None,
    };
    let text = text_field(v, "text")?;
    let mut fragments: Vec<Fragments> = Vec::new();
    let mut i: usize = 0;
    while i < items.len()
        invariant
            member_of(*v, "fragments"@) == Some(Json::Arr(*items)),
            req_text_of(*v, "text"@) == Some(text),
            0 <= i <= items@.len(),
            fragments@.len() == i,
            forall|j: int| 0 <= j < i ==> #[trigger] fragment_of(items@[j]) == Some(fragments@[j]@),
        decreases items.len() - i,
    {
        match fragment_from_value(&items[i]) {
            Some(f) => fragments.push(f),
            None => {
                assert(fragment_of(items@[i as int]) is None);
                return None;
            },
        }
        i = i + 1;
    }
    let r = Message { text, fragments };
    assert(r@.fragments =~= items@.map_values(|x: Json| fragment_of(x)->Some_0));
    Some(r)
}

/// A live session, as announced by a welcome envelope.
#[derive(Debug, Clone)]
pub struct Session {
    pub id: String,
    pub status: String,
    pub connected_at: String,
    pub keepalive_timeout_seconds: Option<u32>,
    pub reconnect_url: Option<String>,
    pub recovery_url: Option<String>,
}

/// A session that a document holds.
pub open spec fn session_of(j: Json) -> Option<Session> {
    if req_text_of(j, "id"@) is Some && req_text_of(j, "status"@) is Some && req_text_of(j, "connected_at"@) is Some
        && u32_field_of(j, "keepalive_timeout_seconds"@) is Ok && text_field_of(j, "reconnect_url"@) is Ok
        && text_field_of(j, "recovery_url"@) is Ok {
        Some(Session {
            id: req_text_of(j, "id"@)->Some_0,
            status: req_text_of(j, "status"@)->Some_0,
            connected_at: req_text_of(j, "connected_at"@)->Some_0,
            keepalive_timeout_seconds: u32_field_of(j, "keepalive_timeout_seconds"@)->Ok_0,
            reconnect_url: text_field_of(j, "reconnect_url"@)->Ok_0,
            recovery_url: text_field_of(j, "recovery_url"@)->Ok_0,
        })
    } else {
        None
    }
}

impl Session {
    pub fn from_value(v: &Json) -> (r: Option<Session>)
        ensures
            r == session_of(*v),
    {
        Some(Session {
            id: text_field(v, "id")?,
            status: text_field(v, "status")?,
            connected_at: text_field(v, "connected_at")?,
            keepalive_timeout_seconds: opt_u32_field(v, "keepalive_timeout_seconds").ok()?,
            reconnect_url: opt_text_field(v, "reconnect_url").ok()?,
            recovery_url: opt_text_field(v, "recovery_url").ok()?,
        })
    }
}

/// A condition that a document holds: an object whose fields are all
/// optional strings.
pub open spec fn condition_of(j: Json) -> Option<Condition> {
    if j is Obj && text_field_of(j, "user_id"@) is Ok
        && text_field_of(j, "moderator_user_id"@) is Ok
        && text_field_of(j, "broadcaster_user_id"@) is Ok
        && text_field_of(j, "reward_id"@) is Ok
        && text_field_of(j, "from_broadcaster_user_id"@) is Ok
        && text_field_of(j, "to_broadcaster_user_id"@) is Ok
        && text_field_of(j, "organisation_id"@) is Ok
        && text_field_of(j, "category_id"@) is Ok
        && text_field_of(j, "campaign_id"@) is Ok
        && text_field_of(j, "extension_client_id"@) is Ok {
        Some(Condition {
            user_id: text_field_of(j, "user_id"@)->Ok_0,
            moderator_user_id: text_field_of(j, "moderator_user_id"@)->Ok_0,
            broadcaster_user_id: text_field_of(j, "broadcaster_user_id"@)->Ok_0,
            reward_id: text_field_of(j, "reward_id"@)->Ok_0,
            from_broadcaster_user_id: text_field_of(j, "from_broadcaster_user_id"@)->Ok_0,
            to_broadcaster_user_id: text_field_of(j, "to_broadcaster_user_id"@)->Ok_0,
            organisation_id: text_field_of(j, "organisation_id"@)->Ok_0,
            category_id: text_field_of(j, "category_id"@)->Ok_0,
            campaign_id: text_field_of(j, "campaign_id"@)->Ok_0,
            extension_client_id: text_field_of(j, "extension_client_id"@)->Ok_0,
        })
    } else {
        None
    }
}

/// Reads a condition.
pub fn condition_from_value(v: &Json) -> (r: Option<Condition>)
    ensures
        r == condition_of(*v),
{
    if !matches!(v, Json::Obj(_)) {
        return None;
    }
    Some(Condition {
        user_id: opt_text_field(v, "user_id").ok()?,
        moderator_user_id: opt_text_field(v, "moderator_user_id").ok()?,
        broadcaster_user_id: opt_text_field(v, "broadcaster_user_id").ok()?,
        reward_id: opt_text_field(v, "reward_id").ok()?,
        from_broadcaster_user_id: opt_text_field(v, "from_broadcaster_user_id").ok()?,
        to_broadcaster_user_id: opt_text_field(v, "to_broadcaster_user_id").ok()?,
        organisation_id: opt_text_field(v, "organisation_id").ok()?,
        category_id: opt_text_field(v, "category_id").ok()?,
        campaign_id: opt_text_field(v, "campaign_id").ok()?,
        extension_client_id: opt_text_field(v, "extension_client_id").ok()?,
    })
}

/// A transport binding that a document holds.
pub open spec fn transport_of(j: Json) -> Option<Transport> {
    if req_text_of(j, "method"@) is Some && req_text_of(j, "session_id"@) is Some {
        Some(Transport { method: req_text_of(j, "method"@)->Some_0, session_id: req_text_of(j, "session_id"@)->Some_0 })
    } else {
        None
    }
}

/// Reads a transport binding.
pub fn transport_from_value(v: &Json) -> (r: Option<Transport>)
    ensures
        r == transport_of(*v),
{
    Some(Transport { method: text_field(v, "method")?, session_id: text_field(v, "session_id")? })
}

/// A subscription, as the service reports it.
#[derive(Debug, Clone)]
pub struct GMSubscription {
    pub id: String,
    pub status: Option<String>,
    pub kind: String,
    pub version: String,
    pub cost: i32,
    pub condition: Option<Condition>,
    pub transport: Transport,
    pub created_at: String,
}

/// A member that must be there and hold a 32-bit integer.
pub open spec fn req_i32_of(j: Json, key: Seq<char>) -> Option<i32> {
    match member_of(j, key) {
        Some(Json::Int(n)) => if i32::MIN <= n <= i32::MAX {
            Some(n as i32)
        } else {
            None
        },
        _ => None,
    }
}

fn i32_field(v: &Json, key: &str) -> (r: Option<i32>)
    ensures
        r == req_i32_of(*v, key@),
{
    match member(v, key) {
        Some(Json::Int(n)) => {
            if i32::MIN as i128 <= *n && *n <= i32::MAX as i128 {
                Some(*n as i32)
            } else {
                None
            }
        },
        _ => None,
    }
}

/// A reported subscription that a document holds.
pub open spec fn gm_subscription_of(j: Json) -> Option<GMSubscription> {
    let c = opt_part(member_of(j, "condition"@), |x: Json| condition_of(x));
    if req_text_of(j, "id"@) is Some && text_field_of(j, "status"@) is Ok && req_text_of(j, "type"@) is Some
        && req_text_of(j, "version"@) is Some && req_i32_of(j, "cost"@) is Some && c is Ok && member_of(
        j,
        "transport"@,
    ) is Some && transport_of(member_of(j, "transport"@)->Some_0) is Some && req_text_of(j, "created_at"@) is Some {
        Some(GMSubscription {
            id: req_text_of(j, "id"@)->Some_0,
            status: text_field_of(j, "status"@)->Ok_0,
            kind: req_text_of(j, "type"@)->Some_0,
            version: req_text_of(j, "version"@)->Some_0,
            cost: req_i32_of(j, "cost"@)->Some_0,
            condition: c->Ok_0,
            transport: transport_of(member_of(j, "transport"@)->Some_0)->Some_0,
            created_at: req_text_of(j, "created_at"@)->Some_0,
        })
    } else {
        None
    }
}

impl GMSubscription {
    pub fn from_value(v: &Json) -> (r: Option<GMSubscription>)
        ensures
            r == gm_subscription_of(*v),
    {
        let id = text_field(v, "id")?;
        let status = opt_text_field(v, "status").ok()?;
        let kind = text_field(v, "type")?;
        let version = text_field(v, "version")?;
        let cost = i32_field(v, "cost")?;
        let condition = match present_member(v, "condition") {
            Some(m) => Some(condition_from_value(m)?),
            None => None,
        };
        let transport = transport_from_value(member(v, "transport")?)?;
        let created_at = text_field(v, "created_at")?;
        Some(GMSubscription { id, status, kind, version, cost, condition, transport, created_at })
    }
}

/// Body of an envelope.
#[derive(Debug)]
pub struct Payload {
    pub session: Option<Session>,
    pub subscription: Option<GMSubscription>,
    pub event: Option<Event>,
}

/// Header of an envelope.
#[derive(Debug, Clone)]
pub struct MetaData {
    pub message_id: String,
    pub message_type: String,
    pub message_timestamp: String,
    pub subscription_type: Option<String>,
    pub subscription_version: Option<String>,
}

/// One inbound envelope.
#[derive(Debug)]
pub struct GenericMessage {
    pub metadata: MetaData,
    pub payload: Option<Payload>,
    pub subscription_type: Option<String>,
    pub subscription_version: Option<String>,
}

/// The metadata that a document holds.
pub open spec fn metadata_of(j: Json) -> Option<MetaData> {
    if req_text_of(j, "message_id"@) is Some && req_text_of(j, "message_type"@) is Some && req_text_of(
        j,
        "message_timestamp"@,
    ) is Some && text_field_of(j, "subscription_type"@) is Ok && text_field_of(j, "subscription_version"@) is Ok {
        Some(MetaData {
            message_id: req_text_of(j, "message_id"@)->Some_0,
            message_type: req_text_of(j, "message_type"@)->Some_0,
            message_timestamp: req_text_of(j, "message_timestamp"@)->Some_0,
            subscription_type: text_field_of(j, "subscription_type"@)->Ok_0,
            subscription_version: text_field_of(j, "subscription_version"@)->Ok_0,
        })
    } else {
        None
    }
}

/// The event of a payload: none where the member is absent or null; the
/// body resolved to its kind where it is an object of a known shape; an
/// error otherwise.
pub open spec fn event_part(o: Option<Json>, hint: Option<Seq<char>>) -> Result<Option<Event>, ()> {
    match present(o) {
        None => Ok(None),
        Some(body) => if body is Obj {
            match resolve_kind(hint, body) {
                Some(k) => Ok(Some(make_event(k, body))),
                None => Err(()),
            }
        } else {
            Err(())
        },
    }
}

/// The payload that a document holds, given the envelope's subscription type.
pub open spec fn payload_of(p: Json, hint: Option<Seq<char>>) -> Option<Payload> {
    let s = opt_part(member_of(p, "session"@), |x: Json| session_of(x));
    let g = opt_part(member_of(p, "subscription"@), |x: Json| gm_subscription_of(x));
    let e = event_part(member_of(p, "event"@), hint);
    if p is Obj && s is Ok && g is Ok && e is Ok {
        Some(Payload { session: s->Ok_0, subscription: g->Ok_0, event: e->Ok_0 })
    } else {
        None
    }
}

/// The envelope that a document holds.
pub open spec fn envelope_of(j: Json) -> Option<GenericMessage> {
    match member_of(j, "metadata"@) {
        Some(md) => match metadata_of(md) {
            Some(meta) => {
                let hint = opt_view(meta.subscription_type);
                let p: Result<Option<Payload>, ()> = match present(member_of(j, "payload"@)) {
                    None => Ok(None),
                    Some(pj) => match payload_of(pj, hint) {
                        Some(pl) => Ok(Some(pl)),
                        None => Err(()),
                    },
                };
                if p is Ok && text_field_of(j, "subscription_type"@) is Ok && text_field_of(
                    j,
                    "subscription_version"@,
                ) is Ok {
                    Some(GenericMessage {
                        metadata: meta,
                        payload: p->Ok_0,
                        subscription_type: text_field_of(j, "subscription_type"@)->Ok_0,
                        subscription_version: text_field_of(j, "subscription_version"@)->Ok_0,
                    })
                } else {
                    None
                }
            },
            None => None,
        },
        None => None,
    }
}

/// The envelope that a text holds, where it is JSON.
pub open spec fn envelope_in(text: Seq<char>) -> Option<GenericMessage> {
    match parsed_json(text) {
        Some(j) => envelope_of(j),
        None => None,
    }
}

fn decode_error(text: &str) -> (r: EventSubError)
    ensures
        r is DecodeError,
{
    EventSubError::DecodeError(String::from_str(text))
}

fn read_payload(p: Json, hint: &Option<String>) -> (r: Option<Payload>)
    ensures
        r == payload_of(p, opt_view(*hint)),
{
    if !matches!(p, Json::Obj(_)) {
        return None;
    }
    let session = match present_member(&p, "session") {
        Some(s) => Some(Session::from_value(s)?),
        None => None,
    };
    let subscription = match present_member(&p, "subscription") {
        Some(s) => Some(GMSubscription::from_value(s)?),
        None => None,
    };
    let event = match take_member(p, "event") {
        None => None,
        Some(Json::Null) => None,
        Some(body) => {
            if !matches!(body, Json::Obj(_)) {
                return None;
            }
            match resolve_event_kind(hint, &body) {
                Some(k) => Some(Event::from_kind(k, body)),
                None => return None,
            }
        },
    };
    Some(Payload { session, subscription, event })
}

impl GenericMessage {
    /// Decodes an envelope from its JSON text: exactly the envelope that the
    /// parsed text holds, or `DecodeError` where it holds none.
    pub fn from_json(raw: &str) -> (r: Result<GenericMessage, EventSubError>)
        ensures
            match envelope_in(raw@) {
                Some(m) => r is Ok && r->Ok_0 == m,
                None => r is Err && r->Err_0 is DecodeError,
            },
    {
        let doc = match parse_doc(raw) {
            Some(d) => d,
            None => return Err(decode_error("envelope is not JSON")),
        };
        let metadata = match member(&doc, "metadata") {
            Some(md) => {
                let (message_id, message_type, message_timestamp) = match (
                    text_field(md, "message_id"),
                    text_field(md, "message_type"),
                    text_field(md, "message_timestamp"),
                ) {
                    (Some(a), Some(b), Some(c)) => (a, b, c),
                    _ => return Err(decode_error("metadata lacks a required field")),
                };
                let (subscription_type, subscription_version) = match (
                    opt_text_field(md, "subscription_type"),
                    opt_text_field(md, "subscription_version"),
                ) {
                    (Ok(a), Ok(b)) => (a, b),
                    _ => return Err(decode_error("metadata field of the wrong type")),
                };
                MetaData { message_id, message_type, message_timestamp, subscription_type, subscription_version }
            },
            None => return Err(decode_error("envelope has no metadata")),
        };
        let (top_type, top_version) = match (
            opt_text_field(&doc, "subscription_type"),
            opt_text_field(&doc, "subscription_version"),
        ) {
            (Ok(a), Ok(b)) => (a, b),
            _ => return Err(decode_error("envelope field of the wrong type")),
        };
        let payload = match take_member(doc, "payload") {
            None => None,
            Some(Json::Null) => None,
            Some(p) => match read_payload(p, &metadata.subscription_type) {
                Some(pl) => Some(pl),
                None => return Err(decode_error("malformed payload")),
            },
        };
        Ok(GenericMessage { metadata, payload, subscription_type: top_type, subscription_version: top_version })
    }

    /// The lifecycle phase of the envelope.
    pub fn event_type(&self) -> (r: EventMessageType)
        ensures
            r == phase_of(self.metadata.message_type@),
    {
        EventMessageType::from_string(self.metadata.message_type.as_str())
    }

    /// The subscription kind that the envelope names.
    pub fn subscription_type(&self) -> (r: Subscription)
        requires
            self.metadata.subscription_type is Some,
            lookup(self.metadata.subscription_type.unwrap()@) is Some,
        ensures
            lookup(self.metadata.subscription_type.unwrap()@) == Some(r),
    {
        match &self.metadata.subscription_type {
            Some(t) => match Subscription::from_string(t.as_str()) {
                Some(s) => s,
                None => Subscription::UserUpdate,
            },
            None => Subscription::UserUpdate,
        }
    }
}

/// Decodes an envelope and classifies its phase; an unknown `message_type`
/// gives the `Unknown` phase, not an error.
pub fn classify(raw: &str) -> (r: Result<(EventMessageType, GenericMessage), EventSubError>)
    ensures
        match envelope_in(raw@) {
            Some(m) => r is Ok && r->Ok_0.1 == m && r->Ok_0.0 == phase_of(m.metadata.message_type@),
            None => r is Err && r->Err_0 is DecodeError,
        },
{
    let m = GenericMessage::from_json(raw)?;
    Ok((m.event_type(), m))
}

/// A subscription request that a document holds.
pub open spec fn subscription_of(j: Json) -> Option<EventSubscription> {
    if req_text_of(j, "type"@) is Some && req_text_of(j, "version"@) is Some && member_of(j, "condition"@) is Some
        && condition_of(member_of(j, "condition"@)->Some_0) is Some && member_of(j, "transport"@) is Some
        && transport_of(member_of(j, "transport"@)->Some_0) is Some {
        Some(EventSubscription {
            kind: req_text_of(j, "type"@)->Some_0,
            version: req_text_of(j, "version"@)->Some_0,
            condition: condition_of(member_of(j, "condition"@)->Some_0)->Some_0,
            transport: transport_of(member_of(j, "transport"@)->Some_0)->Some_0,
        })
    } else {
        None
    }
}

/// The subscription request that a text holds, where it is JSON.
pub open spec fn subscription_in(text: Seq<char>) -> Option<EventSubscription> {
    match parsed_json(text) {
        Some(j) => subscription_of(j),
        None => None,
    }
}

impl EventSubscription {
    /// Reads a subscription request from its JSON text.
    pub fn from_json(text: &str) -> (r: Option<EventSubscription>)
        ensures
            r == subscription_in(text@),
    {
        let j = parse_doc(text)?;
        let kind = text_field(&j, "type")?;
        let version = text_field(&j, "version")?;
        let condition = condition_from_value(member(&j, "condition")?)?;
        let transport = transport_from_value(member(&j, "transport")?)?;
        Some(EventSubscription { kind, version, condition, transport })
    }
}

} // verus!
