//! Sampling: the reproducible choice of the nodes whose payload is checked
//! in depth.
//!
//! A node is sampled when its kind is in scope, its path (if it has one)
//! matches the pattern (if there is one), and its fingerprint falls into the
//! shard that the offset selects. Nothing here depends on a clock, on chance
//! or on what was sampled before.

use vstd::prelude::*;
use vstd::arithmetic::div_mod::{
    lemma_fundamental_div_mod,
    lemma_fundamental_div_mod_converse,
    lemma_mod_add_multiples_vanish,
    lemma_mod_bound,
};
use crate::args::{kinds_named, parse_node_types, parse_node_values, texts};
use crate::bytes::opt_text;
use crate::error::{ConfigError, ConfigFault};
use crate::graph::NodeType;
use crate::node::{Node, NodeId};
use crate::pattern::{pattern_is_valid, pattern_matches, regex_search};
use crate::typeset::NodeTypeSet;

verus! {

/// Whether a node with this fingerprint falls into the shard that `offset`
/// selects, at one node in `rate`.
pub open spec fn included(fingerprint: int, rate: int, offset: int) -> bool {
    (fingerprint + offset) % rate == 0
}

/// What the command line says of sampling, as it was typed.
#[derive(Clone, Debug, PartialEq, Eq)]
pub struct SamplingArgs {
    /// Pass 1 to try all nodes, 120 to do 1 in 120, etc.
    pub sample_rate: Option<u64>,
    /// Offset to apply to the sampling fingerprint for each node, can be used
    /// to cycle through an entire repo in N pieces.
    pub sample_offset: u64,
    /// Node types to exclude from the sample.
    pub exclude_sample_node_type: Vec<String>,
    /// Node types to include in the sample, defaults to same as the walk.
    pub include_sample_node_type: Vec<String>,
    /// If provided, only sample paths that match.
    pub sample_path_regex: Option<String>,
}

/// Sampling as a walk applies it.
#[derive(Debug, PartialEq, Eq)]
pub struct SamplingOptions {
    sample_rate: u64,
    sample_offset: u64,
    node_types: NodeTypeSet,
    exclude_types: NodeTypeSet,
    path_pattern: Option<String>,
}

/// What [`SamplingOptions`] are in contracts.
pub struct SamplingPlan {
    /// One node in `rate` is sampled; at least 1.
    pub rate: int,
    /// The shard that is sampled.
    pub offset: int,
    /// The kinds asked for and not left out.
    pub node_types: Set<NodeType>,
    /// The kinds left out.
    pub exclude_types: Set<NodeType>,
    /// The pattern that a sampled node's path has to match.
    pub path_pattern: Option<Seq<char>>,
}

impl SamplingPlan {
    /// Whether nodes of `kind` are sampled in a walk that visits
    /// `walk_kinds`. A kind that was left out is not, whatever else was said
    /// of it; a kind that was asked for is; any other kind is sampled exactly
    /// if the walk visits it.
    pub open spec fn in_scope(self, kind: NodeType, walk_kinds: Set<NodeType>) -> bool {
        !self.exclude_types.contains(kind) && (self.node_types.contains(kind)
            || walk_kinds.contains(kind))
    }

    /// Whether the pattern lets the node through: there is no pattern, or the
    /// node has no path, or the pattern matches the path.
    pub open spec fn path_allows(self, node: NodeId) -> bool {
        match (self.path_pattern, node.path()) {
            (Some(pattern), Some(path)) => regex_search(pattern, path) == Some(true),
            _ => true,
        }
    }

    /// Whether the node's fingerprint falls into the sampled shard.
    pub open spec fn decide(self, node: NodeId) -> bool {
        included(node.fingerprint(), self.rate, self.offset)
    }

    /// Whether the node's payload is checked in depth.
    pub open spec fn should_sample(self, node: NodeId, walk_kinds: Set<NodeType>) -> bool {
        self.in_scope(node.kind(), walk_kinds) && self.path_allows(node) && self.decide(node)
    }
}

impl View for SamplingOptions {
    type V = SamplingPlan;

    closed spec fn view(&self) -> SamplingPlan {
        SamplingPlan {
            rate: self.sample_rate as int,
            offset: self.sample_offset as int,
            node_types: self.node_types@,
            exclude_types: self.exclude_types@,
            path_pattern: opt_text(self.path_pattern),
        }
    }
}

impl SamplingArgs {
    /// What the arguments ask for, or the fault in them. The names to sample
    /// are read first, then the names to leave out; then the rate, which is
    /// the one given or else `default_sample_rate`, must not be zero; then
    /// the pattern, if there is one, must be a regular expression. The first
    /// fault found is the one reported.
    pub open spec fn plan(self, default_sample_rate: u64) -> Result<SamplingPlan, ConfigFault> {
        let rate = match self.sample_rate {
            Some(rate) => rate,
            None => default_sample_rate,
        };
        match kinds_named(texts(self.include_sample_node_type@)) {
            Err(fault) => Err(fault),
            Ok(asked) => match kinds_named(texts(self.exclude_sample_node_type@)) {
                Err(fault) => Err(fault),
                Ok(left_out) => if rate == 0 {
                    Err(ConfigFault::ZeroSampleRate)
                } else {
                    match self.sample_path_regex {
                        Some(pattern) if regex_search(pattern@, Seq::<char>::empty()) is None => Err(
                            ConfigFault::InvalidPathPattern(pattern@),
                        ),
                        _ => Ok(
                            SamplingPlan {
                                rate: rate as int,
                                offset: self.sample_offset as int,
                                node_types: asked.difference(left_out),
                                exclude_types: left_out,
                                path_pattern: opt_text(self.sample_path_regex),
                            },
                        ),
                    }
                },
            },
        }
    }

    /// Turns the arguments into the options of a walk, or says what is wrong
    /// with them.
    pub fn parse_args(&self, default_sample_rate: u64) -> (parsed: Result<
        SamplingOptions,
        ConfigError,
    >)
        ensures
            match self.plan(default_sample_rate) {
                Ok(plan) => parsed matches Ok(options) && options@ == plan,
                Err(fault) => parsed matches Err(e) && e@ == fault,
            },
    {
        let sample_rate = match self.sample_rate {
            Some(rate) => rate,
            None => default_sample_rate,
        };
        let node_types = match parse_node_types(
            &self.include_sample_node_type,
            &self.exclude_sample_node_type,
        ) {
            Ok(set) => set,
            Err(e) => {
                return Err(e);
            },
        };
        let exclude_types = match parse_node_values(&self.exclude_sample_node_type) {
            Ok(set) => set,
            Err(e) => {
                return Err(e);
            },
        };
        if sample_rate == 0 {
            return Err(ConfigError::ZeroSampleRate);
        }
        let path_pattern = match &self.sample_path_regex {
            Some(pattern) => {
                if !pattern_is_valid(pattern.as_str()) {
                    return Err(ConfigError::InvalidPathPattern(pattern.clone()));
                }
                Some(pattern.clone())
            },
            None => None,
        };
        Ok(
            SamplingOptions {
                sample_rate,
                sample_offset: self.sample_offset,
                node_types,
                exclude_types,
                path_pattern,
            },
        )
    }
}

impl SamplingOptions {
    #[verifier::type_invariant]
    spec fn well_formed(self) -> bool {
        self.sample_rate > 0
    }

    /// Options that sample every node of every kind that the walk visits.
    pub fn every_node() -> (options: SamplingOptions)
        ensures
            options@ == (SamplingPlan {
                rate: 1,
                offset: 0,
                node_types: Set::empty(),
                exclude_types: Set::empty(),
                path_pattern: None,
            }),
    {
        SamplingOptions {
            sample_rate: 1,
            sample_offset: 0,
            node_types: NodeTypeSet::empty(),
            exclude_types: NodeTypeSet::empty(),
            path_pattern: None,
        }
    }

    /// One node in this many is sampled. Never zero.
    pub fn sample_rate(&self) -> (rate: u64)
        ensures
            rate == self@.rate,
            rate > 0,
    {
        proof {
            use_type_invariant(self);
        }
        self.sample_rate
    }

    /// The shard that is sampled.
    pub fn sample_offset(&self) -> (offset: u64)
        ensures
            offset == self@.offset,
    {
        self.sample_offset
    }

    /// The kinds asked for and not left out.
    pub fn node_types(&self) -> (kinds: NodeTypeSet)
        ensures
            kinds@ == self@.node_types,
    {
        self.node_types
    }

    /// The kinds left out.
    pub fn exclude_types(&self) -> (kinds: NodeTypeSet)
        ensures
            kinds@ == self@.exclude_types,
    {
        self.exclude_types
    }

    /// The pattern that a sampled node's path has to match, if there is one.
    pub fn path_pattern(&self) -> (pattern: Option<&str>)
        ensures
            match pattern {
                Some(p) => self@.path_pattern == Some(p@),
                None => self@.path_pattern is None,
            },
    {
        match &self.path_pattern {
            Some(p) => Some(p.as_str()),
            None => None,
        }
    }

    /// Whether nodes of `kind` are sampled in a walk that visits
    /// `walk_kinds`.
    pub fn in_scope(&self, kind: NodeType, walk_kinds: &NodeTypeSet) -> (inside: bool)
        ensures
            inside == self@.in_scope(kind, walk_kinds@),
    {
        !self.exclude_types.contains(kind) && (self.node_types.contains(kind)
            || walk_kinds.contains(kind))
    }

    /// Whether the pattern lets the node through.
    pub fn path_allows(&self, node: &Node) -> (allowed: bool)
        ensures
            allowed == self@.path_allows(node@),
    {
        match (&self.path_pattern, node.path()) {
            (Some(pattern), Some(path)) => pattern_matches(pattern.as_str(), path),
            _ => true,
        }
    }

    /// Whether the node's fingerprint falls into the sampled shard. The
    /// answer is a function of the node's identity, the rate and the offset.
    pub fn decide(&self, node: &Node) -> (take: bool)
        ensures
            take == self@.decide(node@),
            self@.rate == 1 ==> take,
    {
        proof {
            use_type_invariant(self);
        }
        let fingerprint: u128 = node.sampling_fingerprint() as u128;
        let shifted: u128 = fingerprint + self.sample_offset as u128;
        shifted % (self.sample_rate as u128) == 0
    }

    /// Whether the node's payload is checked in depth.
    pub fn should_sample(&self, node: &Node, walk_kinds: &NodeTypeSet) -> (take: bool)
        ensures
            take == self@.should_sample(node@, walk_kinds@),
    {
        self.in_scope(node.get_type(), walk_kinds) && self.path_allows(node) && self.decide(node)
    }
}

/// At a rate of 1 every node is sampled, whatever the offset.
pub proof fn lemma_rate_one_samples_all(fingerprint: int, offset: int)
    ensures
        included(fingerprint, 1, offset),
{
}

/// The shards cover the nodes without overlap and without gaps: of the
/// offsets `0..rate`, exactly one samples a given node.
pub proof fn lemma_one_shard_per_node(fingerprint: int, rate: int) -> (shard: int)
    requires
        rate > 0,
    ensures
        0 <= shard < rate,
        included(fingerprint, rate, shard),
        forall|offset: int|
            0 <= offset < rate && included(fingerprint, rate, offset) ==> offset == shard,
{
    let r = fingerprint % rate;
    lemma_mod_bound(fingerprint, rate);
    lemma_fundamental_div_mod(fingerprint, rate);
    let shard = if r == 0 {
        0
    } else {
        rate - r
    };
    let q = fingerprint / rate;
    assert(included(fingerprint, rate, shard)) by {
        if r == 0 {
            assert(fingerprint + shard == fingerprint);
        } else {
            assert(fingerprint + shard == rate * (q + 1) + 0) by (nonlinear_arith)
                requires
                    fingerprint == rate * q + r,
                    shard == rate - r,
            ;
            lemma_fundamental_div_mod_converse(fingerprint + shard, rate, q + 1, 0);
        }
    }
    assert forall|offset: int|
        0 <= offset < rate && included(fingerprint, rate, offset) implies offset == shard by {
        let k = (fingerprint + offset) / rate;
        lemma_fundamental_div_mod(fingerprint + offset, rate);
        assert(rate * q + r + offset == rate * k);
        assert(r + offset == rate * (k - q)) by (nonlinear_arith)
            requires
                rate * q + r + offset == rate * k,
        ;
        assert(0 <= r + offset < 2 * rate);
        assert(k - q == 0 || k - q == 1) by (nonlinear_arith)
            requires
                r + offset == rate * (k - q),
                0 <= r + offset < 2 * rate,
                rate > 0,
        ;
        if k - q == 0 {
            assert(rate * (k - q) == 0) by (nonlinear_arith)
                requires
                    k - q == 0,
            ;
        } else {
            assert(rate * (k - q) == rate) by (nonlinear_arith)
                requires
                    k - q == 1,
            ;
        }
    }
    shard
}

/// Offsets that differ by the rate select the same shard.
pub proof fn lemma_offset_wraps(fingerprint: int, rate: int, offset: int)
    requires
        rate > 0,
    ensures
        included(fingerprint, rate, offset + rate) == included(fingerprint, rate, offset),
{
    lemma_mod_add_multiples_vanish(fingerprint + offset, rate);
    assert(rate + (fingerprint + offset) == fingerprint + (offset + rate));
}

/// Whatever the offset, the sample is one node in `rate`: of any `rate`
/// fingerprints in a row, exactly one is sampled.
pub proof fn lemma_one_node_per_window(start: int, rate: int, offset: int) -> (hit: int)
    requires
        rate > 0,
    ensures
        start <= hit < start + rate,
        included(hit, rate, offset),
        forall|fingerprint: int|
            start <= fingerprint < start + rate && included(fingerprint, rate, offset)
                ==> fingerprint == hit,
{
    let shard = lemma_one_shard_per_node(start + offset, rate);
    let hit = start + shard;
    assert(hit + offset == (start + offset) + shard);
    assert forall|fingerprint: int|
        start <= fingerprint < start + rate && included(
            fingerprint,
            rate,
            offset,
        ) implies fingerprint == hit by {
        let d = fingerprint - start;
        assert(fingerprint + offset == (start + offset) + d);
        assert(included(start + offset, rate, d));
    }
    hit
}

} // verus!
