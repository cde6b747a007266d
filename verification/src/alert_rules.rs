//! Alert rules: the request that creates one and the record it becomes.
use vstd::prelude::*;

use crate::float_bits::{self, f32_bits_in_range, F32_ONE, F32_ZERO};
use crate::text;
use crate::validation::{self, require_max_len, require_non_empty, ValidationError};
use crate::UtcTimestamp;
use uuid::Uuid;

verus! {

/// The lifecycle state of an alert rule; new rules start as drafts.
#[derive(Debug, Clone, Copy, PartialEq, Eq, Structural)]
pub enum AlertRuleStatus {
    Draft,
    Active,
    Paused,
    Archived,
}

impl Default for AlertRuleStatus {
    fn default() -> (status: Self)
        ensures
            status == AlertRuleStatus::Draft,
    {
        AlertRuleStatus::Draft
    }
}

/// A stored alert rule. `threshold` is the bit pattern of the `f32`
/// threshold (`f32::to_bits`).
#[derive(Debug, Clone)]
pub struct AlertRule {
    pub id: Uuid,
    pub title: String,
    pub summary: String,
    pub query: String,
    pub threshold: u32,
    pub delivery_channel: String,
    pub enabled: bool,
    pub status: AlertRuleStatus,
    pub created_at: UtcTimestamp,
    pub updated_at: UtcTimestamp,
}

/// A request to create an alert rule. `threshold` is the bit pattern of the
/// `f32` threshold (`f32::to_bits`).
#[derive(Debug, Clone)]
pub struct CreateAlertRule {
    pub title: String,
    pub summary: String,
    pub query: String,
    pub threshold: u32,
    pub delivery_channel: String,
    pub enabled: bool,
}

/// Why a create-rule request is rejected, if it is.
pub open spec fn create_alert_rule_error(req: CreateAlertRule) -> Option<Seq<char>> {
    if validation::non_empty_error("title"@, req.title@, 256) is Some {
        validation::non_empty_error("title"@, req.title@, 256)
    } else if validation::max_len_error("summary"@, req.summary@, 4_000) is Some {
        validation::max_len_error("summary"@, req.summary@, 4_000)
    } else if validation::non_empty_error("query"@, req.query@, 32_000) is Some {
        validation::non_empty_error("query"@, req.query@, 32_000)
    } else if !float_bits::f32_in_range(F32_ZERO, F32_ONE, req.threshold) {
        Some("threshold must be between 0 and 1"@)
    } else {
        validation::non_empty_error("delivery_channel"@, req.delivery_channel@, 256)
    }
}

impl CreateAlertRule {
    /// Accepts a non-blank title of at most 256 bytes, a summary of at most
    /// 4,000 bytes, a non-blank query of at most 32,000 bytes, a threshold
    /// between 0 and 1 and a non-blank delivery channel of at most 256 bytes.
    pub fn validate(&self) -> (r: Result<(), ValidationError>)
        ensures
            validation::outcome(r) == create_alert_rule_error(*self),
    {
        require_non_empty("title", self.title.as_str(), 256)?;
        require_max_len("summary", self.summary.as_str(), 4_000)?;
        require_non_empty("query", self.query.as_str(), 32_000)?;
        if !f32_bits_in_range(F32_ZERO, F32_ONE, self.threshold) {
            return Err(ValidationError(String::from_str("threshold must be between 0 and 1")));
        }
        require_non_empty("delivery_channel", self.delivery_channel.as_str(), 256)?;
        Ok(())
    }

    /// Validates the request, then makes it a draft rule with the given id,
    /// created and updated at `now`.
    pub fn into_record(self, id: Uuid, now: UtcTimestamp) -> (r: Result<AlertRule, ValidationError>)
        ensures
            match r {
                Ok(rule) => {
                    &&& create_alert_rule_error(self) is None
                    &&& rule.id == id
                    &&& rule.title == self.title
                    &&& rule.summary == self.summary
                    &&& rule.query == self.query
                    &&& rule.threshold == self.threshold
                    &&& rule.delivery_channel == self.delivery_channel
                    &&& rule.enabled == self.enabled
                    &&& rule.status == AlertRuleStatus::Draft
                    &&& rule.created_at == now
                    &&& rule.updated_at == now
                },
                Err(e) => create_alert_rule_error(self) == Some(e.0@),
            },
    {
        self.validate()?;
        Ok(
            AlertRule {
                id,
                title: self.title,
                summary: self.summary,
                query: self.query,
                threshold: self.threshold,
                delivery_channel: self.delivery_channel,
                enabled: self.enabled,
                status: AlertRuleStatus::default(),
                created_at: now,
                updated_at: now,
            },
        )
    }
}

/// A create-rule request is accepted exactly when its title, query and
/// delivery channel are non-blank, its title and delivery channel fit in 256
/// bytes, its summary in 4,000 bytes and its query in 32,000 bytes, and its
/// threshold is a binary32 value from 0 to 1. A blank title is refused first.
pub proof fn lemma_alert_rule_acceptance(req: CreateAlertRule)
    ensures
        create_alert_rule_error(req) is None <==> {
            &&& text::trim(req.title@).len() > 0
            &&& text::utf8_len(req.title@) <= 256
            &&& text::utf8_len(req.summary@) <= 4_000
            &&& text::trim(req.query@).len() > 0
            &&& text::utf8_len(req.query@) <= 32_000
            &&& (req.threshold <= 0x3F80_0000 || req.threshold == 0x8000_0000)
            &&& text::trim(req.delivery_channel@).len() > 0
            &&& text::utf8_len(req.delivery_channel@) <= 256
        },
        text::trim(req.title@).len() == 0 ==> create_alert_rule_error(req) == Some(
            "title must not be empty"@,
        ),
{
    validation::lemma_required_text("title"@, req.title@, 256);
    validation::lemma_required_text("summary"@, req.summary@, 4_000);
    validation::lemma_required_text("query"@, req.query@, 32_000);
    validation::lemma_required_text("delivery_channel"@, req.delivery_channel@, 256);
    float_bits::lemma_unit_range_patterns(req.threshold);
    reveal_strlit("title");
    reveal_strlit(" must not be empty");
    reveal_strlit("title must not be empty");
    assert("title"@ + " must not be empty"@ =~= "title must not be empty"@);
}

/// A change to an alert rule, as sent to subscribers.
#[derive(Debug, Clone)]
pub struct AlertRuleEvent {
    pub event_id: Uuid,
    pub event_type: String,
    pub occurred_at: UtcTimestamp,
    pub data: AlertRule,
}

} // verus!
