//! Historical-claim integrity scoring and knowledge-graph persistence.
//!
//! A [`HistoricalClaim`] carries a narrative, a source description,
//! cultural context tags and [`ProvenanceData`]. The
//! [`MythosIntegrityGuard`] grades a claim from four sub-scores —
//! signature presence, narrative-length consistency, a deterministic
//! expert-consensus stand-in derived from a stable hash of the claim id,
//! and keyword coherence — combined by fixed weights into a
//! [`ValidationScore`]. The [`MythosKnowledgeGraph`] trait is the
//! persistence contract: an idempotent upsert keyed by claim id and three
//! queries in which absence is an empty result, never an error.
//! [`InMemoryMythosGraph`] is an embedded store satisfying that contract.

use vstd::arithmetic::div_mod::lemma_div_is_ordered;
use vstd::prelude::*;
use vstd::string::StrSliceExecFns;
use vstd::string::StringExecFns;
use vstd::wrapping::u64_specs;

use crate::scores::clamp_to_one;
use crate::scores::spec_clamp_to_one;
use crate::scores::Micros;
use crate::scores::SCORE_ONE;
use crate::text;

verus! {

/// Mathematical model of [`ProvenanceData`].
#[verifier::ext_equal]
pub ghost struct ProvenanceModel {
    pub document_id: Seq<char>,
    pub author_id: Seq<char>,
    pub timestamp: u64,
    pub cryptographic_signature: Option<Seq<char>>,
}

/// Immutable provenance record attached to a claim: the document and
/// author identifiers, an epoch-seconds timestamp, and an optional
/// cryptographic signature whose presence (not validity) the scorer
/// evaluates.
#[derive(Debug)]
pub struct ProvenanceData {
    pub document_id: String,
    pub author_id: String,
    pub timestamp: u64,
    pub cryptographic_signature: Option<String>,
}

impl View for ProvenanceData {
    type V = ProvenanceModel;

    open spec fn view(&self) -> ProvenanceModel {
        ProvenanceModel {
            document_id: self.document_id@,
            author_id: self.author_id@,
            timestamp: self.timestamp,
            cryptographic_signature: match self.cryptographic_signature {
                Some(s) => Some(s@),
                None => None,
            },
        }
    }
}

impl Clone for ProvenanceData {
    fn clone(&self) -> (res: Self)
        ensures
            res == *self,
    {
        ProvenanceData {
            document_id: self.document_id.clone(),
            author_id: self.author_id.clone(),
            timestamp: self.timestamp,
            cryptographic_signature: match &self.cryptographic_signature {
                Some(s) => Some(s.clone()),
                None => None,
            },
        }
    }
}

/// Mathematical model of [`HistoricalClaim`].
#[verifier::ext_equal]
pub ghost struct ClaimModel {
    pub claim_id: Seq<char>,
    pub narrative_content: Seq<char>,
    pub source_description: Seq<char>,
    pub cultural_context_tags: Seq<Seq<char>>,
    pub provenance: ProvenanceModel,
}

/// A discrete historical assertion: a caller-assigned unique id, the
/// narrative text, a source description, ordered cultural context tags
/// (duplicates permitted) and owned provenance. Claims are never mutated
/// once built; an update is a new claim value.
#[derive(Debug)]
pub struct HistoricalClaim {
    pub claim_id: String,
    pub narrative_content: String,
    pub source_description: String,
    pub cultural_context_tags: Vec<String>,
    pub provenance: ProvenanceData,
}

impl View for HistoricalClaim {
    type V = ClaimModel;

    open spec fn view(&self) -> ClaimModel {
        ClaimModel {
            claim_id: self.claim_id@,
            narrative_content: self.narrative_content@,
            source_description: self.source_description@,
            cultural_context_tags: self.cultural_context_tags.deep_view(),
            provenance: self.provenance@,
        }
    }
}

impl Clone for HistoricalClaim {
    fn clone(&self) -> (res: Self)
        ensures
            res@ == self@,
    {
        HistoricalClaim {
            claim_id: self.claim_id.clone(),
            narrative_content: self.narrative_content.clone(),
            source_description: self.source_description.clone(),
            cultural_context_tags: text::clone_strings(&self.cultural_context_tags),
            provenance: self.provenance.clone(),
        }
    }
}

/// The four named sub-scores of a validation, one field per component.
/// The key set is fixed by construction; [`ScoreBreakdown::get`] offers
/// map-style access under the component names.
#[derive(Clone, Copy, Debug, PartialEq, Eq, Structural)]
pub struct ScoreBreakdown {
    pub cryptographic_signature_valid: Micros,
    pub historical_consistency_score: Micros,
    pub expert_consensus_score: Micros,
    pub narrative_coherence_score: Micros,
}

/// Whether `name` is one of the four component names of a
/// [`ScoreBreakdown`].
pub open spec fn spec_is_breakdown_key(name: Seq<char>) -> bool {
    ||| name == "cryptographic_signature_valid"@
    ||| name == "historical_consistency_score"@
    ||| name == "expert_consensus_score"@
    ||| name == "narrative_coherence_score"@
}

/// The sub-score stored under `name`, or `None` when `name` is not a
/// component name.
pub open spec fn spec_breakdown_get(b: ScoreBreakdown, name: Seq<char>) -> Option<Micros> {
    if name == "cryptographic_signature_valid"@ {
        Some(b.cryptographic_signature_valid)
    } else if name == "historical_consistency_score"@ {
        Some(b.historical_consistency_score)
    } else if name == "expert_consensus_score"@ {
        Some(b.expert_consensus_score)
    } else if name == "narrative_coherence_score"@ {
        Some(b.narrative_coherence_score)
    } else {
        None
    }
}

impl ScoreBreakdown {
    /// Map-style access: the sub-score under a component name, `None`
    /// for any other name.
    pub fn get(&self, name: &str) -> (r: Option<Micros>)
        ensures
            r == spec_breakdown_get(*self, name@),
            r is Some <==> spec_is_breakdown_key(name@),
    {
        if text::str_eq(name, "cryptographic_signature_valid") {
            Some(self.cryptographic_signature_valid)
        } else if text::str_eq(name, "historical_consistency_score") {
            Some(self.historical_consistency_score)
        } else if text::str_eq(name, "expert_consensus_score") {
            Some(self.expert_consensus_score)
        } else if text::str_eq(name, "narrative_coherence_score") {
            Some(self.narrative_coherence_score)
        } else {
            None
        }
    }

    /// The number of entries; a breakdown always holds exactly the four
    /// named components.
    pub fn len(&self) -> (n: usize)
        ensures
            n == 4,
    {
        4
    }
}

/// Mathematical model of [`ValidationScore`].
#[verifier::ext_equal]
pub ghost struct ScoreModel {
    pub overall_score: Micros,
    pub confidence: Micros,
    pub score_breakdown: ScoreBreakdown,
    pub validation_notes: Seq<Seq<char>>,
}

/// The scorer's output: the weighted overall score and derived
/// confidence (both fixed-point fractions of one, see [`crate::scores`]),
/// the four-component breakdown, and human-readable notes. Produced
/// fresh on every scoring call and never mutated afterward.
#[derive(Debug)]
pub struct ValidationScore {
    pub overall_score: Micros,
    pub confidence: Micros,
    pub score_breakdown: ScoreBreakdown,
    pub validation_notes: Vec<String>,
}

impl View for ValidationScore {
    type V = ScoreModel;

    open spec fn view(&self) -> ScoreModel {
        ScoreModel {
            overall_score: self.overall_score,
            confidence: self.confidence,
            score_breakdown: self.score_breakdown,
            validation_notes: self.validation_notes.deep_view(),
        }
    }
}

/// The offset basis of the 64-bit FNV-1a hash.
pub const FNV_OFFSET_BASIS: u64 = 0xcbf29ce484222325;

/// The prime multiplier of the 64-bit FNV-1a hash.
pub const FNV_PRIME: u64 = 0x100000001b3;

/// One FNV-1a round: fold one code point into the running hash.
pub open spec fn spec_fnv1a_step(h: u64, c: char) -> u64 {
    u64_specs::wrapping_mul(h ^ (c as u64), FNV_PRIME)
}

/// The 64-bit FNV-1a hash of a character sequence, folding each code
/// point in order. Deterministic across runs and platforms.
pub open spec fn spec_stable_hash(s: Seq<char>) -> u64
    decreases s.len(),
{
    if s.len() == 0 {
        FNV_OFFSET_BASIS
    } else {
        spec_fnv1a_step(spec_stable_hash(s.drop_last()), s.last())
    }
}

/// A deterministic, well-distributed 64-bit hash of a string: FNV-1a
/// over the string's code points. The expert-consensus sub-score keys
/// off this hash, so the same claim id always maps to the same bonus.
pub fn stable_hash(s: &str) -> (h: u64)
    ensures
        h == spec_stable_hash(s@),
{
    let n = s.unicode_len();
    let mut h: u64 = FNV_OFFSET_BASIS;
    let mut i: usize = 0;
    while i < n
        invariant
            n == s@.len(),
            i <= n,
            h == spec_stable_hash(s@.take(i as int)),
        decreases n - i,
    {
        let c = s.get_char(i);
        h = (h ^ (c as u64)).wrapping_mul(FNV_PRIME);
        proof {
            assert(s@.take(i + 1).drop_last() =~= s@.take(i as int));
            assert(s@.take(i + 1).last() == s@[i as int]);
        }
        i = i + 1;
    }
    proof {
        assert(s@.take(n as int) =~= s@);
    }
    h
}

/// Signature-presence sub-score: `0.95` when a signature is attached
/// (content not inspected), `0.05` otherwise.
pub open spec fn spec_signature_score(p: ProvenanceModel) -> int {
    if p.cryptographic_signature is Some {
        950_000
    } else {
        50_000
    }
}

/// Consistency sub-score from the narrative's character length: base
/// `0.50`, `0.60` for lengths in `[50, 150)`, `0.70` from `150` up.
pub open spec fn spec_consistency_score(narrative: Seq<char>) -> int {
    if narrative.len() >= 150 {
        700_000
    } else if narrative.len() >= 50 {
        600_000
    } else {
        500_000
    }
}

/// Expert-consensus sub-score: base `0.40` plus a bonus in
/// `{0.0, 0.1, 0.2, 0.3}` selected by the stable hash of the claim id,
/// a deterministic stand-in for a consensus lookup.
pub open spec fn spec_expert_score(claim_id: Seq<char>) -> int {
    400_000 + (spec_stable_hash(claim_id) % 4) * 100_000
}

/// How many of the three coherence keywords occur in the narrative,
/// ASCII-case-insensitively.
pub open spec fn spec_keyword_hits(narrative: Seq<char>) -> int {
    (if text::spec_contains_ignore_case(narrative, "policy"@) {
        1int
    } else {
        0int
    }) + (if text::spec_contains_ignore_case(narrative, "rights"@) {
        1int
    } else {
        0int
    }) + (if text::spec_contains_ignore_case(narrative, "historical"@) {
        1int
    } else {
        0int
    })
}

/// Narrative-coherence sub-score: base `0.60` plus `0.05` per keyword
/// found, capped at `0.75`.
pub open spec fn spec_coherence_score(narrative: Seq<char>) -> int {
    let raw = 600_000 + 50_000 * spec_keyword_hits(narrative);
    if raw > 750_000 {
        750_000
    } else {
        raw
    }
}

/// The four sub-scores of a claim, as a breakdown record.
pub open spec fn spec_breakdown(c: ClaimModel) -> ScoreBreakdown {
    ScoreBreakdown {
        cryptographic_signature_valid: spec_signature_score(c.provenance) as Micros,
        historical_consistency_score: spec_consistency_score(c.narrative_content) as Micros,
        expert_consensus_score: spec_expert_score(c.claim_id) as Micros,
        narrative_coherence_score: spec_coherence_score(c.narrative_content) as Micros,
    }
}

/// The weighted sum of the four sub-scores: signature `0.30`,
/// consistency `0.25`, expert consensus `0.25`, coherence `0.20`.
pub open spec fn spec_weighted_sum(c: ClaimModel) -> int {
    spec_signature_score(c.provenance) * 30 + spec_consistency_score(c.narrative_content) * 25
        + spec_expert_score(c.claim_id) * 25 + spec_coherence_score(c.narrative_content) * 20
}

/// The overall score: the weighted combination, defensively clamped
/// into `[0.0, 1.0]`.
pub open spec fn spec_overall_score(c: ClaimModel) -> int {
    spec_clamp_to_one(spec_weighted_sum(c) / 100)
}

/// Confidence derived from an overall score: `0.60` plus a quarter of
/// the overall score, capped at `0.95`.
pub open spec fn spec_confidence(overall: int) -> int {
    let raw = 600_000 + overall / 4;
    if raw > 950_000 {
        950_000
    } else {
        raw
    }
}

/// The note recorded on each validation.
pub open spec fn spec_validation_note(claim_id: Seq<char>) -> Seq<char> {
    "Validated claim: "@ + claim_id
}

/// The complete validation result for a claim: the model of the
/// [`ValidationScore`] that scoring must produce.
pub open spec fn spec_validate(c: ClaimModel) -> ScoreModel {
    ScoreModel {
        overall_score: spec_overall_score(c) as Micros,
        confidence: spec_confidence(spec_overall_score(c)) as Micros,
        score_breakdown: spec_breakdown(c),
        validation_notes: seq![spec_validation_note(c.claim_id)],
    }
}

/// Validates historical claims. The single production implementation is
/// [`BasicMythosIntegrityGuard`]; each implementation fixes what its
/// results look like through [`MythosIntegrityGuard::validate_ensures`].
pub trait MythosIntegrityGuard {
    /// What this guard promises of a validation result.
    spec fn validate_ensures(&self, claim: HistoricalClaim, r: Result<
        ValidationScore,
        String,
    >) -> bool;

    /// Scores `claim` and reports the result.
    fn validate_historical_claim(&self, claim: &HistoricalClaim) -> (r: Result<
        ValidationScore,
        String,
    >)
        ensures
            self.validate_ensures(*claim, r),
    ;
}

/// The production integrity scorer: a stateless, total function of the
/// claim. It never fails and imposes no precondition.
pub struct BasicMythosIntegrityGuard {}

impl MythosIntegrityGuard for BasicMythosIntegrityGuard {
    /// The result is always `Ok`, and its model is exactly
    /// [`spec_validate`] of the claim's model.
    open spec fn validate_ensures(&self, claim: HistoricalClaim, r: Result<
        ValidationScore,
        String,
    >) -> bool {
        r matches Ok(s) && s@ == spec_validate(claim@)
    }

    fn validate_historical_claim(&self, claim: &HistoricalClaim) -> (r: Result<
        ValidationScore,
        String,
    >) {
        let signature_score: Micros = if claim.provenance.cryptographic_signature.is_some() {
            950_000
        } else {
            50_000
        };
        let narrative_len = claim.narrative_content.as_str().unicode_len();
        let consistency_score: Micros = if narrative_len >= 150 {
            700_000
        } else if narrative_len >= 50 {
            600_000
        } else {
            500_000
        };
        let hash = stable_hash(claim.claim_id.as_str());
        let expert_score: Micros = 400_000 + ((hash % 4) as u32) * 100_000;
        let mut hits: u32 = 0;
        if text::contains_ignore_ascii_case(claim.narrative_content.as_str(), "policy") {
            hits = hits + 1;
        }
        if text::contains_ignore_ascii_case(claim.narrative_content.as_str(), "rights") {
            hits = hits + 1;
        }
        if text::contains_ignore_ascii_case(claim.narrative_content.as_str(), "historical") {
            hits = hits + 1;
        }
        let raw_coherence: u32 = 600_000 + 50_000 * hits;
        let coherence_score: Micros = if raw_coherence > 750_000 {
            750_000
        } else {
            raw_coherence
        };
        let weighted: u32 = signature_score * 30 + consistency_score * 25 + expert_score * 25
            + coherence_score * 20;
        let overall = clamp_to_one(weighted / 100);
        let raw_confidence: u32 = 600_000 + overall / 4;
        let confidence: Micros = if raw_confidence > 950_000 {
            950_000
        } else {
            raw_confidence
        };
        let mut note = "Validated claim: ".to_owned();
        note.append(claim.claim_id.as_str());
        let mut validation_notes: Vec<String> = Vec::new();
        validation_notes.push(note);
        let score = ValidationScore {
            overall_score: overall,
            confidence,
            score_breakdown: ScoreBreakdown {
                cryptographic_signature_valid: signature_score,
                historical_consistency_score: consistency_score,
                expert_consensus_score: expert_score,
                narrative_coherence_score: coherence_score,
            },
            validation_notes,
        };
        proof {
            assert(score@.validation_notes =~= seq![spec_validation_note(claim@.claim_id)]);
            assert(score@ =~= spec_validate(claim@));
        }
        Ok(score)
    }
}

/// Every overall score lies in `[0.0, 1.0]` and every confidence in
/// `[0.0, 0.95]`, in fixed-point millionths.
pub proof fn lemma_score_bounds(c: ClaimModel)
    ensures
        0 <= spec_validate(c).overall_score <= SCORE_ONE,
        0 <= spec_validate(c).confidence <= 950_000,
{
}

/// Scoring is deterministic: any two results the scorer's contract
/// admits for the same claim are `Ok` and agree in every field, the
/// note list included.
pub proof fn lemma_scoring_deterministic(
    guard: BasicMythosIntegrityGuard,
    claim: HistoricalClaim,
    r1: Result<ValidationScore, String>,
    r2: Result<ValidationScore, String>,
)
    requires
        guard.validate_ensures(claim, r1),
        guard.validate_ensures(claim, r2),
    ensures
        r1 is Ok,
        r2 is Ok,
        r1->Ok_0@ == r2->Ok_0@,
{
}

/// Adding a signature, all else equal, strictly raises the
/// signature-presence sub-score and never lowers the overall score.
pub proof fn lemma_signature_monotonic(a: ClaimModel, b: ClaimModel)
    requires
        a.claim_id == b.claim_id,
        a.narrative_content == b.narrative_content,
        a.provenance.cryptographic_signature is Some,
        b.provenance.cryptographic_signature is None,
    ensures
        spec_validate(a).score_breakdown.cryptographic_signature_valid > spec_validate(
            b,
        ).score_breakdown.cryptographic_signature_valid,
        spec_validate(a).overall_score >= spec_validate(b).overall_score,
{
    assert(spec_weighted_sum(b) <= spec_weighted_sum(a));
    lemma_div_is_ordered(spec_weighted_sum(b), spec_weighted_sum(a), 100);
}

/// The models of a sequence of claims.
pub open spec fn spec_claim_models(s: Seq<HistoricalClaim>) -> Seq<ClaimModel> {
    s.map_values(|c: HistoricalClaim| c@)
}

/// The model of an optional claim.
pub open spec fn spec_option_model(o: Option<HistoricalClaim>) -> Option<ClaimModel> {
    match o {
        Some(c) => Some(c@),
        None => None,
    }
}

/// The position of the first claim with id `id` in `s`, or `s.len()`
/// when no claim has that id.
pub open spec fn spec_id_index(s: Seq<ClaimModel>, id: Seq<char>) -> int
    decreases s.len(),
{
    if s.len() == 0 {
        0
    } else if s[0].claim_id == id {
        0
    } else {
        1 + spec_id_index(s.drop_first(), id)
    }
}

/// Whether some claim in `s` has id `id`.
pub open spec fn spec_has_id(s: Seq<ClaimModel>, id: Seq<char>) -> bool {
    spec_id_index(s, id) < s.len()
}

/// The first claim in `s` with id `id`, or `None`.
pub open spec fn spec_lookup(s: Seq<ClaimModel>, id: Seq<char>) -> Option<ClaimModel> {
    if spec_has_id(s, id) {
        Some(s[spec_id_index(s, id)])
    } else {
        None
    }
}

/// `s` with `c` stored under its claim id: the first claim with the
/// same id replaced, or `c` appended when the id is new.
pub open spec fn spec_upsert(s: Seq<ClaimModel>, c: ClaimModel) -> Seq<ClaimModel> {
    if spec_has_id(s, c.claim_id) {
        s.update(spec_id_index(s, c.claim_id), c)
    } else {
        s.push(c)
    }
}

/// `spec_id_index` lies in `0 ..= s.len()`, points at a claim with the
/// sought id when within bounds, and nothing before it has that id.
pub proof fn lemma_id_index_bounds(s: Seq<ClaimModel>, id: Seq<char>)
    ensures
        0 <= spec_id_index(s, id) <= s.len(),
        spec_id_index(s, id) < s.len() ==> s[spec_id_index(s, id)].claim_id == id,
        forall|k: int| 0 <= k < spec_id_index(s, id) ==> s[k].claim_id != id,
    decreases s.len(),
{
    if s.len() > 0 && s[0].claim_id != id {
        lemma_id_index_bounds(s.drop_first(), id);
        assert forall|k: int| 0 <= k < spec_id_index(s, id) implies s[k].claim_id != id by {
            if k > 0 {
                assert(s.drop_first()[k - 1] == s[k]);
            }
        }
    }
}

/// A position whose claim has the sought id, with no earlier match, is
/// exactly `spec_id_index`.
pub proof fn lemma_id_index_of_first_match(s: Seq<ClaimModel>, id: Seq<char>, j: int)
    requires
        0 <= j < s.len(),
        s[j].claim_id == id,
        forall|k: int| 0 <= k < j ==> s[k].claim_id != id,
    ensures
        spec_id_index(s, id) == j,
    decreases s.len(),
{
    if j > 0 {
        lemma_id_index_of_first_match(s.drop_first(), id, j - 1);
    }
}

/// When no claim in `s` has the sought id, `spec_id_index` is `s.len()`.
pub proof fn lemma_id_index_of_no_match(s: Seq<ClaimModel>, id: Seq<char>)
    requires
        forall|k: int| 0 <= k < s.len() ==> s[k].claim_id != id,
    ensures
        spec_id_index(s, id) == s.len(),
    decreases s.len(),
{
    if s.len() > 0 {
        lemma_id_index_of_no_match(s.drop_first(), id);
    }
}

/// Round trip: after upserting `c`, looking its id up finds exactly `c`.
pub proof fn lemma_lookup_after_upsert(s: Seq<ClaimModel>, c: ClaimModel)
    ensures
        spec_lookup(spec_upsert(s, c), c.claim_id) == Some(c),
{
    lemma_id_index_bounds(s, c.claim_id);
    if spec_has_id(s, c.claim_id) {
        let j = spec_id_index(s, c.claim_id);
        lemma_id_index_of_first_match(s.update(j, c), c.claim_id, j);
    } else {
        lemma_id_index_of_first_match(s.push(c), c.claim_id, s.len() as int);
    }
}

/// Whether the claim carries `tag` among its cultural context tags.
pub open spec fn spec_claim_has_tag(c: ClaimModel, tag: Seq<char>) -> bool {
    exists|k: int| 0 <= k < c.cultural_context_tags.len() && c.cultural_context_tags[k] == tag
}

/// The claims in `s` carrying `tag`, in stored order.
pub open spec fn spec_with_tag(s: Seq<ClaimModel>, tag: Seq<char>) -> Seq<ClaimModel>
    decreases s.len(),
{
    if s.len() == 0 {
        Seq::empty()
    } else {
        spec_with_tag(s.drop_last(), tag) + if spec_claim_has_tag(s.last(), tag) {
            seq![s.last()]
        } else {
            Seq::empty()
        }
    }
}

/// A tag carried by no stored claim selects nothing.
pub proof fn lemma_unused_tag_selects_nothing(s: Seq<ClaimModel>, tag: Seq<char>)
    requires
        forall|k: int| 0 <= k < s.len() ==> !spec_claim_has_tag(s[k], tag),
    ensures
        spec_with_tag(s, tag) =~= Seq::<ClaimModel>::empty(),
    decreases s.len(),
{
    if s.len() > 0 {
        lemma_unused_tag_selects_nothing(s.drop_last(), tag);
    }
}

/// Persistence and relationship queries over a graph-structured store of
/// claims. Absence is an empty or `None` result, never an error; the
/// `Err` case is reserved for backend failure. Each implementation
/// exposes its stored claims through [`MythosKnowledgeGraph::claims`]
/// and its claim-to-claim relationships through
/// [`MythosKnowledgeGraph::related`].
pub trait MythosKnowledgeGraph {
    /// The stored claims, in insertion order.
    spec fn claims(&self) -> Seq<ClaimModel>;

    /// The claims related to `claim_id` through `relationship_type`.
    spec fn related(&self, claim_id: Seq<char>, relationship_type: Seq<char>) -> Seq<ClaimModel>;

    /// Whether this backend is beyond failure: an embedded store is,
    /// a networked one is not. An infallible backend owes `Ok` on
    /// every operation.
    spec fn infallible(&self) -> bool;

    /// Idempotent upsert keyed by the claim's id. On success the
    /// returned id is the claim's own and the store holds the claim;
    /// on failure the store is unchanged.
    fn add_historical_claim(&mut self, claim: &HistoricalClaim) -> (r: Result<String, String>)
        ensures
            r matches Ok(id) ==> id@ == claim@.claim_id && final(self).claims() == spec_upsert(
                old(self).claims(),
                claim@,
            ),
            r is Err ==> final(self).claims() == old(self).claims(),
            old(self).infallible() ==> r is Ok,
    ;

    /// Retrieves the claim stored under `claim_id`; `None` when absent.
    fn get_historical_claim_by_id(&self, claim_id: &str) -> (r: Result<
        Option<HistoricalClaim>,
        String,
    >)
        ensures
            r matches Ok(found) ==> spec_option_model(found) == spec_lookup(
                self.claims(),
                claim_id@,
            ),
            self.infallible() ==> r is Ok,
    ;

    /// The claims related to `claim_id` through `relationship_type`;
    /// empty (not an error) when the id is unknown or nothing relates.
    fn get_related_narratives(&self, claim_id: &str, relationship_type: &str) -> (r: Result<
        Vec<HistoricalClaim>,
        String,
    >)
        ensures
            r matches Ok(v) ==> spec_claim_models(v@) == self.related(
                claim_id@,
                relationship_type@,
            ) && (!spec_has_id(self.claims(), claim_id@) ==> v@.len() == 0),
            self.infallible() ==> r is Ok,
    ;

    /// The stored claims carrying `context_tag`, in stored order; empty
    /// (not an error) when the tag is unused.
    fn get_narratives_by_context_tag(&self, context_tag: &str) -> (r: Result<
        Vec<HistoricalClaim>,
        String,
    >)
        ensures
            r matches Ok(v) ==> spec_claim_models(v@) == spec_with_tag(
                self.claims(),
                context_tag@,
            ),
            self.infallible() ==> r is Ok,
    ;
}

fn find_index(records: &Vec<HistoricalClaim>, claim_id: &str) -> (i: usize)
    ensures
        i == spec_id_index(spec_claim_models(records@), claim_id@),
{
    let ghost models = spec_claim_models(records@);
    let mut i: usize = 0;
    while i < records.len()
        invariant
            models == spec_claim_models(records@),
            models.len() == records@.len(),
            i <= records@.len(),
            forall|k: int| 0 <= k < i ==> models[k].claim_id != claim_id@,
        decreases records@.len() - i,
    {
        if text::str_eq(records[i].claim_id.as_str(), claim_id) {
            proof {
                lemma_id_index_of_first_match(models, claim_id@, i as int);
            }
            return i;
        }
        i = i + 1;
    }
    proof {
        lemma_id_index_of_no_match(models, claim_id@);
    }
    i
}

fn claim_has_tag(claim: &HistoricalClaim, tag: &str) -> (r: bool)
    ensures
        r == spec_claim_has_tag(claim@, tag@),
{
    let mut j: usize = 0;
    while j < claim.cultural_context_tags.len()
        invariant
            j <= claim.cultural_context_tags@.len(),
            forall|k: int| 0 <= k < j ==> claim@.cultural_context_tags[k] != tag@,
        decreases claim.cultural_context_tags@.len() - j,
    {
        let hit = text::str_eq(claim.cultural_context_tags[j].as_str(), tag);
        proof {
            assert(claim@.cultural_context_tags[j as int] == claim.cultural_context_tags@[
                j as int
            ]@);
        }
        if hit {
            return true;
        }
        j = j + 1;
    }
    false
}

/// An embedded, in-memory backend for the knowledge graph: claims in a
/// vector in insertion order, upserted by claim id. It records no
/// claim-to-claim relationships — the gateway interface offers no
/// operation that creates one — so relationship queries are empty.
pub struct InMemoryMythosGraph {
    records: Vec<HistoricalClaim>,
}

impl InMemoryMythosGraph {
    /// An empty store.
    pub fn new() -> (g: Self)
        ensures
            g.claims() == Seq::<ClaimModel>::empty(),
    {
        let g = InMemoryMythosGraph { records: Vec::new() };
        proof {
            assert(g.claims() =~= Seq::<ClaimModel>::empty());
        }
        g
    }
}

impl MythosKnowledgeGraph for InMemoryMythosGraph {
    closed spec fn claims(&self) -> Seq<ClaimModel> {
        spec_claim_models(self.records@)
    }

    open spec fn infallible(&self) -> bool {
        true
    }

    closed spec fn related(&self, claim_id: Seq<char>, relationship_type: Seq<char>) -> Seq<
        ClaimModel,
    > {
        Seq::empty()
    }

    fn add_historical_claim(&mut self, claim: &HistoricalClaim) -> (r: Result<String, String>) {
        let ghost olds = self.claims();
        let i = find_index(&self.records, claim.claim_id.as_str());
        if i < self.records.len() {
            self.records.set(i, claim.clone());
            proof {
                assert(self.claims() =~= olds.update(i as int, claim@));
            }
        } else {
            self.records.push(claim.clone());
            proof {
                assert(self.claims() =~= olds.push(claim@));
            }
        }
        Ok(claim.claim_id.clone())
    }

    fn get_historical_claim_by_id(&self, claim_id: &str) -> (r: Result<
        Option<HistoricalClaim>,
        String,
    >) {
        let i = find_index(&self.records, claim_id);
        if i < self.records.len() {
            Ok(Some(self.records[i].clone()))
        } else {
            Ok(None)
        }
    }

    fn get_related_narratives(&self, claim_id: &str, relationship_type: &str) -> (r: Result<
        Vec<HistoricalClaim>,
        String,
    >) {
        let out: Vec<HistoricalClaim> = Vec::new();
        proof {
            assert(spec_claim_models(out@) =~= self.related(claim_id@, relationship_type@));
        }
        Ok(out)
    }

    fn get_narratives_by_context_tag(&self, context_tag: &str) -> (r: Result<
        Vec<HistoricalClaim>,
        String,
    >) {
        let ghost models = self.claims();
        let mut out: Vec<HistoricalClaim> = Vec::new();
        let mut i: usize = 0;
        while i < self.records.len()
            invariant
                models == spec_claim_models(self.records@),
                models.len() == self.records@.len(),
                i <= self.records@.len(),
                spec_claim_models(out@) =~= spec_with_tag(models.take(i as int), context_tag@),
            decreases self.records@.len() - i,
        {
            if claim_has_tag(&self.records[i], context_tag) {
                out.push(self.records[i].clone());
            }
            proof {
                assert(models.take(i + 1).drop_last() =~= models.take(i as int));
                assert(models.take(i + 1).last() == models[i as int]);
                assert(spec_claim_models(out@) =~= spec_with_tag(
                    models.take(i + 1),
                    context_tag@,
                ));
            }
            i = i + 1;
        }
        proof {
            assert(models.take(models.len() as int) =~= models);
        }
        Ok(out)
    }
}

} // verus!
