//! When the parameters of the protocol changed.

use vstd::prelude::*;
use crate::analytics::{begun_for, AnalyticsContext, Measurement};
use crate::db::versioned::Payload;
use crate::model::node::{ProtocolParameters, ProtocolParametersView};
use crate::model::tangle::MilestoneIndexTimestamp;

verus! {

/// The accumulator of the protocol parameters. It measures a milestone only
/// where the parameters differ from those that it measured last, so that its
/// measurements are the changes of the parameters.
pub struct ProtocolParamsAnalytics {
    begun: Option<MilestoneIndexTimestamp>,
    params: Option<ProtocolParameters>,
}

impl ProtocolParamsAnalytics {
    /// The milestone that the accumulator was begun for and has not ended.
    pub closed spec fn milestone(&self) -> Option<MilestoneIndexTimestamp> {
        self.begun
    }

    /// The parameters that the accumulator measured last.
    pub closed spec fn measured(&self) -> Option<ProtocolParametersView> {
        match self.params {
            Some(params) => Some(params@),
            None => None,
        }
    }

    /// An idle accumulator that has measured nothing.
    pub fn new() -> (analytics: ProtocolParamsAnalytics)
        ensures
            analytics.milestone() is None,
            analytics.measured() is None,
    {
        ProtocolParamsAnalytics { begun: None, params: None }
    }

    /// Begins the milestone of `ctx`.
    pub fn begin_milestone(&mut self, ctx: &AnalyticsContext)
        ensures
            final(self).milestone() == Some(ctx.at),
            final(self).measured() == old(self).measured(),
    {
        self.begun = Some(ctx.at);
    }

    /// Ends the milestone of `ctx`. Where the parameters of `ctx` differ from
    /// those measured last, or nothing was measured yet, they are the
    /// milestone's measurement; where they are the same, the milestone has no
    /// measurement. An accumulator that was not begun for that milestone
    /// yields nothing and stays as it is.
    pub fn end_milestone(&mut self, ctx: &AnalyticsContext) -> (measurement: Option<
        Measurement<ProtocolParameters>,
    >)
        ensures
            final(self).milestone() == if old(self).milestone() == Some(ctx.at) {
                None
            } else {
                old(self).milestone()
            },
            match measurement {
                Some(taken) => {
                    &&& old(self).milestone() == Some(ctx.at)
                    &&& old(self).measured() != Some(ctx.params@)
                    &&& taken.at == ctx.at
                    &&& taken.inner@ == ctx.params@
                    &&& final(self).measured() == Some(ctx.params@)
                },
                None => {
                    &&& old(self).milestone() != Some(ctx.at) || old(self).measured() == Some(
                        ctx.params@,
                    )
                    &&& final(self).measured() == old(self).measured()
                },
            },
    {
        if !begun_for(&self.begun, ctx) {
            return None;
        }
        self.begun = None;
        let unchanged = match &self.params {
            Some(last) => last.same_as(&ctx.params),
            None => false,
        };
        if unchanged {
            None
        } else {
            self.params = Some(ctx.params.duplicate());
            Some(Measurement { at: ctx.at, inner: ctx.params.duplicate() })
        }
    }
}

impl Default for ProtocolParamsAnalytics {
    fn default() -> (analytics: ProtocolParamsAnalytics)
        ensures
            analytics.milestone() is None,
            analytics.measured() is None,
    {
        ProtocolParamsAnalytics::new()
    }
}

} // verus!
