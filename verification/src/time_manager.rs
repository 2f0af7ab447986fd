//! Decides when a search stops: at a depth, after a number of nodes, when
//! time runs out, or when told to from outside.

use vstd::prelude::*;
use std::time::{Duration, Instant};
use crate::pv::Ply;
use crate::search_params::Tunable;
use crate::flags::flag_is_set;
use std::sync::Arc;
use std::sync::atomic::AtomicBool;

verus! {

#[verifier::external_type_specification]
#[verifier::external_body]
pub struct ExInstant(std::time::Instant);

/// `std::time::Instant::now`: the current instant. Nothing is stated of it,
/// as it depends on the clock.
#[verifier::external_body]
fn now() -> (instant: Instant) {
    Instant::now()
}

/// `std::time::Instant::elapsed`: the time since the instant. Nothing is
/// stated of it, as it depends on the clock.
#[verifier::external_body]
fn elapsed(start: &Instant) -> (duration: Duration) {
    start.elapsed()
}

/// `std::time::Duration::as_millis`: the whole milliseconds of a duration.
/// Nothing is stated of it: a `Duration` is opaque here, and every duration
/// this library holds came from the clock.
#[verifier::external_body]
fn as_millis(duration: &Duration) -> (milliseconds: u128) {
    duration.as_millis()
}

/// Limits of one search.
pub struct TimeManager {
    start: Instant,
    /// Milliseconds after which the search stops at once.
    hard_time_limit: Option<u64>,
    /// Milliseconds after which no new depth is started.
    soft_time_limit: Option<u64>,
    /// Deepest depth to search to.
    max_depth: Option<Ply>,
    /// Most moves to make.
    max_nodes: Option<u64>,
    /// Moves after which no new depth is started.
    soft_max_nodes: Option<u64>,
    /// Set from outside to stop the search at once.
    stop: Option<Arc<AtomicBool>>,
    /// Set from outside while the search runs on the opponent's time, when
    /// the soft time limit does not count.
    pondering: Option<Arc<AtomicBool>>,
}

impl TimeManager {
    /// Whether the search may be stopped by what happens outside it: the
    /// limits depend on the clock, or on flags set from outside.
    pub closed spec fn interruptible(&self) -> bool {
        self.hard_time_limit is Some || self.soft_time_limit is Some || self.stop is Some || self.pondering is Some
    }

    /// Milliseconds after which the search stops at once, if limited.
    pub closed spec fn spec_hard_time_limit(&self) -> Option<u64> {
        self.hard_time_limit
    }

    /// Milliseconds after which no new depth is started, if limited.
    pub closed spec fn spec_soft_time_limit(&self) -> Option<u64> {
        self.soft_time_limit
    }

    /// Deepest depth to search to, if limited.
    pub closed spec fn spec_max_depth(&self) -> Option<Ply> {
        self.max_depth
    }

    /// Most moves to make, if limited.
    pub closed spec fn spec_max_nodes(&self) -> Option<u64> {
        self.max_nodes
    }

    /// Moves after which no new depth is started, if limited.
    pub closed spec fn spec_soft_max_nodes(&self) -> Option<u64> {
        self.soft_max_nodes
    }

    /// Whether `node_count` reaches the node limit.
    pub open spec fn nodes_exhausted(&self, node_count: u64) -> bool {
        match self.spec_max_nodes() {
            Some(limit) => node_count >= limit,
            None => false,
        }
    }

    /// A search that stops only at the given depth, or after `max_nodes` moves.
    pub fn depth_limited(max_nodes: Option<u64>, depth: Ply) -> (time_manager: TimeManager)
        ensures
            !time_manager.interruptible(),
            time_manager.spec_max_depth() == Some(depth),
            time_manager.spec_max_nodes() == max_nodes,
            time_manager.spec_soft_max_nodes() is None,
    {
        TimeManager {
            start: now(),
            hard_time_limit: None,
            soft_time_limit: None,
            max_depth: Some(depth),
            max_nodes,
            soft_max_nodes: None,
            stop: None,
            pondering: None,
        }
    }

    /// A search that stops after `hard` moves, and starts no new depth after `soft` moves.
    pub fn node_limited(hard: u64, soft: u64) -> (time_manager: TimeManager)
        ensures
            !time_manager.interruptible(),
            time_manager.spec_max_depth() is None,
            time_manager.spec_max_nodes() == Some(hard),
            time_manager.spec_soft_max_nodes() == Some(soft),
    {
        TimeManager {
            start: now(),
            hard_time_limit: None,
            soft_time_limit: None,
            max_depth: None,
            max_nodes: Some(hard),
            soft_max_nodes: Some(soft),
            stop: None,
            pondering: None,
        }
    }

    /// A search that stops only after `max_nodes` moves, if given.
    pub fn infinite(max_nodes: Option<u64>) -> (time_manager: TimeManager)
        ensures
            !time_manager.interruptible(),
            time_manager.spec_max_depth() is None,
            time_manager.spec_max_nodes() == max_nodes,
            time_manager.spec_soft_max_nodes() is None,
    {
        TimeManager {
            start: now(),
            hard_time_limit: None,
            soft_time_limit: None,
            max_depth: None,
            max_nodes,
            soft_max_nodes: None,
            stop: None,
            pondering: None,
        }
    }

    /// A search that stops once `hard_time_limit` milliseconds have passed,
    /// starts no new depth after `soft_time_limit` milliseconds, and also
    /// keeps to the depth and node limits if given.
    pub fn time_limited(
        hard_time_limit: u64,
        soft_time_limit: u64,
        max_depth: Option<Ply>,
        max_nodes: Option<u64>,
    ) -> (time_manager: TimeManager)
        ensures
            time_manager.interruptible(),
            time_manager.spec_hard_time_limit() == Some(hard_time_limit),
            time_manager.spec_soft_time_limit() == Some(soft_time_limit),
            time_manager.spec_max_depth() == max_depth,
            time_manager.spec_max_nodes() == max_nodes,
            time_manager.spec_soft_max_nodes() is None,
    {
        TimeManager {
            start: now(),
            hard_time_limit: Some(hard_time_limit),
            soft_time_limit: Some(soft_time_limit),
            max_depth,
            max_nodes,
            soft_max_nodes: None,
            stop: None,
            pondering: None,
        }
    }

    /// The same limits, with a flag that stops the search at once when set
    /// and a flag set while the search runs on the opponent's time.
    pub fn with_flags(self, stop: Arc<AtomicBool>, pondering: Arc<AtomicBool>) -> (time_manager: TimeManager)
        ensures
            time_manager.interruptible(),
            time_manager.spec_hard_time_limit() == self.spec_hard_time_limit(),
            time_manager.spec_soft_time_limit() == self.spec_soft_time_limit(),
            time_manager.spec_max_depth() == self.spec_max_depth(),
            time_manager.spec_max_nodes() == self.spec_max_nodes(),
            time_manager.spec_soft_max_nodes() == self.spec_soft_max_nodes(),
    {
        TimeManager { stop: Some(stop), pondering: Some(pondering), ..self }
    }

    /// Whether the search runs on the opponent's time.
    pub fn is_pondering(&self) -> (pondering: bool)
        ensures
            !self.interruptible() ==> !pondering,
    {
        match &self.pondering {
            Some(flag) => flag_is_set(flag),
            None => false,
        }
    }

    /// Whether the search was told to stop.
    fn stopped(&self) -> (stopped: bool)
        ensures
            !self.interruptible() ==> !stopped,
    {
        match &self.stop {
            Some(flag) => flag_is_set(flag),
            None => false,
        }
    }

    /// Milliseconds since the search started, at most `u64::MAX`.
    fn milliseconds(&self) -> u64 {
        let duration = elapsed(&self.start);
        let milliseconds = as_millis(&duration);
        if milliseconds > 0xffff_ffff_ffff_ffff {
            0xffff_ffff_ffff_ffff
        } else {
            milliseconds as u64
        }
    }

    /// Whether a search must stop, told to stop or not, with `node_count`
    /// moves made and `elapsed` milliseconds gone.
    pub open spec fn spec_hard_stop_after(&self, node_count: u64, elapsed: u64, stopped: bool) -> bool {
        stopped || self.nodes_exhausted(node_count) || (self.spec_hard_time_limit() matches Some(limit) && elapsed
            >= limit)
    }

    /// Whether a search must stop: it was told to stop, the node limit is
    /// reached, or the hard time limit has passed after `elapsed` milliseconds.
    pub fn hard_stop_after(&self, node_count: u64, elapsed: u64, stopped: bool) -> (stop: bool)
        ensures
            stop == self.spec_hard_stop_after(node_count, elapsed, stopped),
    {
        if stopped {
            return true;
        }
        if let Some(limit) = self.max_nodes {
            if node_count >= limit {
                return true;
            }
        }
        match self.hard_time_limit {
            Some(limit) => elapsed >= limit,
            None => false,
        }
    }

    /// Whether a search in progress must stop now: it was told to stop, the
    /// node limit is reached, or the hard time limit has passed (see
    /// `hard_stop_after`, asked with the flag and the time read now).
    pub fn hard_stop_inner_search(&self, node_count: u64) -> (stop: bool)
        ensures
            self.nodes_exhausted(node_count) ==> stop,
            !self.interruptible() ==> stop == self.nodes_exhausted(node_count),
            exists|elapsed: u64, stopped: bool|
                (!self.interruptible() ==> !stopped) && stop == self.spec_hard_stop_after(
                    node_count,
                    elapsed,
                    stopped,
                ),
    {
        let stopped = self.stopped();
        let elapsed = if self.hard_time_limit.is_some() {
            self.milliseconds()
        } else {
            0
        };
        self.hard_stop_after(node_count, elapsed, stopped)
    }

    /// Whether the result of the depth just searched must be thrown away:
    /// the search was cut short.
    pub fn hard_stop_iterative_deepening(&self, depth: Ply, node_count: u64) -> (stop: bool)
        ensures
            self.nodes_exhausted(node_count) ==> stop,
            !self.interruptible() ==> stop == self.nodes_exhausted(node_count),
    {
        self.hard_stop_inner_search(node_count)
    }

    /// Whether no deeper search should start after `depth` and `node_count`
    /// moves, the best move having stayed the same for the last
    /// `best_move_stability` depths, `elapsed` milliseconds having gone:
    /// the depth limit or the soft node limit is reached, or, when not
    /// pondering, the soft time limit scaled by the stability has passed.
    pub open spec fn spec_soft_stop_after(
        &self,
        depth: Ply,
        node_count: u64,
        best_move_stability: u64,
        tunable: Tunable,
        elapsed: u64,
        pondering: bool,
    ) -> bool {
        ||| (self.spec_max_depth() matches Some(max) && depth >= max)
        ||| (self.spec_soft_max_nodes() matches Some(soft) && node_count >= soft)
        ||| (self.spec_soft_time_limit() matches Some(limit) && !pondering && elapsed >= spec_scaled_soft_limit(
            limit,
            best_move_stability,
            tunable,
        ))
    }

    /// See `spec_soft_stop_after`.
    pub fn soft_stop_after(
        &self,
        depth: Ply,
        node_count: u64,
        best_move_stability: u64,
        tunable: &Tunable,
        elapsed: u64,
        pondering: bool,
    ) -> (stop: bool)
        ensures
            stop == self.spec_soft_stop_after(depth, node_count, best_move_stability, *tunable, elapsed, pondering),
    {
        if let Some(max_depth) = self.max_depth {
            if depth >= max_depth {
                return true;
            }
        }
        if let Some(soft) = self.soft_max_nodes {
            if node_count >= soft {
                return true;
            }
        }
        match self.soft_time_limit {
            Some(limit) => !pondering && elapsed >= scaled_soft_limit(limit, best_move_stability, tunable),
            None => false,
        }
    }

    /// Whether no deeper search should start now (see `soft_stop_after`,
    /// asked with the time and the pondering flag read now).
    pub fn soft_stop(&self, depth: Ply, node_count: u64, best_move_stability: u64, tunable: &Tunable) -> (stop: bool)
        ensures
            (self.spec_max_depth() matches Some(max) && depth >= max) ==> stop,
            (self.spec_soft_max_nodes() matches Some(soft) && node_count >= soft) ==> stop,
            !self.interruptible() ==> stop == ((self.spec_max_depth() matches Some(max) && depth >= max) || (
            self.spec_soft_max_nodes() matches Some(soft) && node_count >= soft)),
            exists|elapsed: u64, pondering: bool|
                stop == self.spec_soft_stop_after(depth, node_count, best_move_stability, *tunable, elapsed, pondering),
    {
        let pondering = self.is_pondering();
        let elapsed = if self.soft_time_limit.is_some() {
            self.milliseconds()
        } else {
            0
        };
        self.soft_stop_after(depth, node_count, best_move_stability, tunable, elapsed, pondering)
    }
}

/// See `scaled_soft_limit`.
pub open spec fn spec_scaled_soft_limit(limit: u64, best_move_stability: u64, tunable: Tunable) -> int {
    if limit * tunable.spec_stability_multiplier(best_move_stability) / 100 <= u64::MAX {
        limit * tunable.spec_stability_multiplier(best_move_stability) / 100
    } else {
        u64::MAX as int
    }
}

/// The soft time limit for a best move that has stayed the same for
/// `best_move_stability` depths: `limit` times the stability's multiplier,
/// divided by 100, at most `u64::MAX`.
pub fn scaled_soft_limit(limit: u64, best_move_stability: u64, tunable: &Tunable) -> (scaled: u64)
    ensures
        scaled == spec_scaled_soft_limit(limit, best_move_stability, *tunable),
{
    let multiplier = tunable.stability_multiplier(best_move_stability);
    proof {
        assert(limit * multiplier <= 0xffff_ffff_ffff_ffff * 0xffff_ffff_ffff_ffff) by (nonlinear_arith)
            requires
                limit <= 0xffff_ffff_ffff_ffffu64,
                multiplier <= 0xffff_ffff_ffff_ffffu64,
        ;
    }
    let product: u128 = limit as u128 * multiplier as u128;
    let scaled = product / 100;
    if scaled <= 0xffff_ffff_ffff_ffff {
        scaled as u64
    } else {
        0xffff_ffff_ffff_ffff
    }
}

} // verus!
