//! Expert counts, capacities and per-expert load accounting for top-1
//! mixture-of-experts routing.
use vstd::prelude::*;
use vstd::std_specs::convert::TryFromSpecImpl;

use crate::text::{decimal_chars, decimal_string};
use crate::transformer::error::{is_dimension_mismatch, ErrorDetails, ModelError, OperationName};

verus! {

/// Number of experts available to a router.
#[derive(Debug, Clone, Copy, PartialEq, Eq, PartialOrd, Ord)]
pub struct ExpertCount(usize);

impl View for ExpertCount {
    type V = nat;

    closed spec fn view(&self) -> nat {
        self.0 as nat
    }
}

impl ExpertCount {
    #[verifier::type_invariant]
    spec fn positive(self) -> bool {
        self.0 > 0
    }

    /// The count as a raw integer.
    pub fn as_usize(self) -> (v: usize)
        ensures
            v == self@,
            v > 0,
    {
        proof {
            use_type_invariant(&self);
        }
        self.0
    }

    /// Renders the count in decimal.
    pub fn to_string(&self) -> (s: String)
        ensures
            s@ == decimal_chars(self@),
    {
        decimal_string(self.0 as u128)
    }
}

/// What `ExpertCount::try_from` returns for `value`.
pub closed spec fn expert_count_from(value: usize) -> Result<ExpertCount, ModelError> {
    if value == 0 {
        Err(ModelError::EmptyInput {
            operation: OperationName("ExpertCount::try_from"),
            details: ErrorDetails("expert count must be greater than zero"),
        })
    } else {
        Ok(ExpertCount(value))
    }
}

impl TryFrom<usize> for ExpertCount {
    type Error = ModelError;

    /// Accepts any positive count.
    fn try_from(value: usize) -> (r: Result<ExpertCount, ModelError>)
        ensures
            r == expert_count_from(value),
            r is Ok <==> value > 0,
            r matches Ok(c) ==> c@ == value,
            r matches Err(e) ==> e == (ModelError::EmptyInput {
                operation: OperationName("ExpertCount::try_from"),
                details: ErrorDetails("expert count must be greater than zero"),
            }),
    {
        if value == 0 {
            return Err(ModelError::empty_input("ExpertCount::try_from", "expert count must be greater than zero"));
        }
        Ok(ExpertCount(value))
    }
}

impl TryFromSpecImpl<usize> for ExpertCount {
    open spec fn obeys_try_from_spec() -> bool {
        true
    }

    open spec fn try_from_spec(value: usize) -> Result<ExpertCount, ModelError> {
        expert_count_from(value)
    }
}

/// Maximum number of tokens assigned to one expert in a tiny routing batch.
#[derive(Debug, Clone, Copy, PartialEq, Eq, PartialOrd, Ord)]
pub struct ExpertCapacity(usize);

impl View for ExpertCapacity {
    type V = nat;

    closed spec fn view(&self) -> nat {
        self.0 as nat
    }
}

impl ExpertCapacity {
    #[verifier::type_invariant]
    spec fn positive(self) -> bool {
        self.0 > 0
    }

    /// The value as a raw integer.
    pub fn as_usize(self) -> (v: usize)
        ensures
            v == self@,
            v > 0,
    {
        proof {
            use_type_invariant(&self);
        }
        self.0
    }

    /// Renders the count in decimal.
    pub fn to_string(&self) -> (s: String)
        ensures
            s@ == decimal_chars(self@),
    {
        decimal_string(self.0 as u128)
    }
}

/// What `ExpertCapacity::try_from` returns for `value`.
pub closed spec fn expert_capacity_from(value: usize) -> Result<ExpertCapacity, ModelError> {
    if value == 0 {
        Err(ModelError::EmptyInput {
            operation: OperationName("ExpertCapacity::try_from"),
            details: ErrorDetails("expert capacity must be greater than zero"),
        })
    } else {
        Ok(ExpertCapacity(value))
    }
}

impl TryFrom<usize> for ExpertCapacity {
    type Error = ModelError;

    /// Accepts any positive count.
    fn try_from(value: usize) -> (r: Result<ExpertCapacity, ModelError>)
        ensures
            r == expert_capacity_from(value),
            r is Ok <==> value > 0,
            r matches Ok(c) ==> c@ == value,
            r matches Err(e) ==> e == (ModelError::EmptyInput {
                operation: OperationName("ExpertCapacity::try_from"),
                details: ErrorDetails("expert capacity must be greater than zero"),
            }),
    {
        if value == 0 {
            return Err(ModelError::empty_input("ExpertCapacity::try_from", "expert capacity must be greater than zero"));
        }
        Ok(ExpertCapacity(value))
    }
}

impl TryFromSpecImpl<usize> for ExpertCapacity {
    open spec fn obeys_try_from_spec() -> bool {
        true
    }

    open spec fn try_from_spec(value: usize) -> Result<ExpertCapacity, ModelError> {
        expert_capacity_from(value)
    }
}

/// Zero-based index of one expert.
#[derive(Debug, Clone, Copy, PartialEq, Eq, PartialOrd, Ord)]
pub struct ExpertIndex(usize);

impl View for ExpertIndex {
    type V = nat;

    closed spec fn view(&self) -> nat {
        self.0 as nat
    }
}

impl ExpertIndex {
    /// The index as a raw integer.
    pub fn as_usize(self) -> (v: usize)
        ensures
            v == self@,
    {
        self.0
    }

    /// Renders the index in decimal.
    pub fn to_string(&self) -> (s: String)
        ensures
            s@ == decimal_chars(self@),
    {
        decimal_string(self.0 as u128)
    }
}

/// What `ExpertIndex::try_from` returns: every index is accepted.
pub closed spec fn expert_index_from(value: usize) -> Result<ExpertIndex, ModelError> {
    Ok(ExpertIndex(value))
}

impl TryFrom<usize> for ExpertIndex {
    type Error = ModelError;

    /// Accepts any index; bounds are checked where the index is used.
    fn try_from(value: usize) -> (r: Result<ExpertIndex, ModelError>)
        ensures
            r == expert_index_from(value),
            r matches Ok(i) && i@ == value,
    {
        Ok(ExpertIndex(value))
    }
}

impl TryFromSpecImpl<usize> for ExpertIndex {
    open spec fn obeys_try_from_spec() -> bool {
        true
    }

    open spec fn try_from_spec(value: usize) -> Result<ExpertIndex, ModelError> {
        expert_index_from(value)
    }
}

/// Number of routed tokens assigned to one expert.
#[derive(Debug, Clone, Copy, PartialEq, Eq, PartialOrd, Ord)]
pub struct ExpertLoad(usize);

impl View for ExpertLoad {
    type V = nat;

    closed spec fn view(&self) -> nat {
        self.0 as nat
    }
}

impl ExpertLoad {
    fn zero() -> (l: Self)
        ensures
            l@ == 0,
    {
        ExpertLoad(0)
    }

    fn increment(self) -> (r: Result<Self, ModelError>)
        ensures
            r is Ok <==> self@ < usize::MAX,
            r matches Ok(l) ==> l@ == self@ + 1,
            r matches Err(e) ==> e == (ModelError::NumericalIssue {
                operation: OperationName("ExpertLoad::increment"),
                details: ErrorDetails("expert load exceeded usize"),
            }),
    {
        match self.0.checked_add(1) {
            Some(v) => Ok(ExpertLoad(v)),
            None => Err(ModelError::numerical_issue("ExpertLoad::increment", "expert load exceeded usize")),
        }
    }

    /// The load as a raw integer.
    pub fn as_usize(self) -> (v: usize)
        ensures
            v == self@,
    {
        self.0
    }

    /// Renders the load in decimal.
    pub fn to_string(&self) -> (s: String)
        ensures
            s@ == decimal_chars(self@),
    {
        decimal_string(self.0 as u128)
    }
}

/// Whether one expert's load fits the requested capacity.
#[derive(Debug, Clone, Copy, PartialEq, Eq, Structural)]
pub enum ExpertLoadStatus {
    /// The expert has no more routed tokens than the configured capacity.
    WithinCapacity,
    /// The expert has more routed tokens than the configured capacity.
    OverCapacity,
}

impl ExpertLoadStatus {
    /// Renders the status as `within-capacity` or `over-capacity`.
    pub fn to_string(&self) -> (s: String)
        ensures
            s@ == (match *self {
                ExpertLoadStatus::WithinCapacity => "within-capacity"@,
                ExpertLoadStatus::OverCapacity => "over-capacity"@,
            }),
    {
        match self {
            ExpertLoadStatus::WithinCapacity => String::from_str("within-capacity"),
            ExpertLoadStatus::OverCapacity => String::from_str("over-capacity"),
        }
    }
}

/// A top-1 expert router for a fixed expert set.
#[derive(Debug, Clone, Copy, PartialEq, Eq)]
pub struct TopExpertRouter {
    expert_count: ExpertCount,
}

impl TopExpertRouter {
    /// Creates a top-1 router for a fixed expert set.
    pub fn new(expert_count: ExpertCount) -> (r: Self)
        ensures
            r.expert_count() == expert_count,
    {
        TopExpertRouter { expert_count }
    }

    /// The expert count this router expects.
    pub closed spec fn spec_expert_count(self) -> ExpertCount {
        self.expert_count
    }

    /// Returns the expert count this router expects.
    #[verifier::when_used_as_spec(spec_expert_count)]
    pub fn expert_count(self) -> (c: ExpertCount)
        ensures
            c == self.spec_expert_count(),
    {
        self.expert_count
    }

    /// Checks that a score vector provides exactly one score per expert;
    /// otherwise fails with `DimensionMismatch`.
    pub fn check_score_count(&self, score_count: usize) -> (r: Result<(), ModelError>)
        ensures
            r is Ok <==> score_count == self.expert_count()@,
            r matches Err(e) ==> is_dimension_mismatch(
                e,
                "TopExpertRouter::choose",
                "router",
                self.expert_count()@ as usize,
                "expert scores",
                score_count,
                "router scores must provide exactly one score per expert",
            ),
    {
        if score_count != self.expert_count.as_usize() {
            return Err(
                ModelError::dimension_mismatch(
                    "TopExpertRouter::choose",
                    "router",
                    self.expert_count.as_usize(),
                    "expert scores",
                    score_count,
                    "router scores must provide exactly one score per expert",
                ),
            );
        }
        Ok(())
    }
}

/// The number of routes in `routes` that select expert `e`.
pub open spec fn routed_to(routes: Seq<ExpertIndex>, e: nat) -> nat
    decreases routes.len(),
{
    if routes.len() == 0 {
        0
    } else {
        routed_to(routes.drop_last(), e) + if routes.last()@ == e {
            1nat
        } else {
            0nat
        }
    }
}

/// Whether every route selects one of `count` experts.
pub open spec fn routes_within(routes: Seq<ExpertIndex>, count: nat) -> bool {
    forall|i: int| 0 <= i < routes.len() ==> #[trigger] routes[i]@ < count
}

/// Whether `i` is the first route selecting an expert outside `0..count`.
pub open spec fn first_route_outside(routes: Seq<ExpertIndex>, count: nat, i: int) -> bool {
    &&& 0 <= i < routes.len()
    &&& routes[i]@ >= count
    &&& forall|j: int| 0 <= j < i ==> #[trigger] routes[j]@ < count
}

/// The error for an expert index outside a load report of `len` experts.
pub open spec fn load_index_error(e: ModelError, len: nat, index: nat) -> bool {
    is_dimension_mismatch(
        e,
        "ExpertLoadReport::load_for",
        "load report",
        len as usize,
        "expert index",
        (index + 1) as usize,
        "expert index must exist in the load report",
    )
}

/// A non-empty bank of experts.
#[derive(Debug)]
pub struct ExpertBank<E> {
    experts: Vec<E>,
}

impl<E: Clone> Clone for ExpertBank<E> {
    fn clone(&self) -> (c: Self)
        ensures
            c@.len() == self@.len(),
            forall|i: int| 0 <= i < self@.len() ==> cloned::<E>(#[trigger] self@[i], c@[i]),
    {
        proof {
            use_type_invariant(self);
        }
        ExpertBank { experts: self.experts.clone() }
    }
}

impl<E> View for ExpertBank<E> {
    type V = Seq<E>;

    closed spec fn view(&self) -> Seq<E> {
        self.experts@
    }
}

impl<E> ExpertBank<E> {
    #[verifier::type_invariant]
    spec fn non_empty(self) -> bool {
        self.experts@.len() > 0
    }

    /// Creates a checked expert bank.
    pub fn new(experts: Vec<E>) -> (r: Result<Self, ModelError>)
        ensures
            r is Ok <==> experts@.len() > 0,
            r matches Ok(b) ==> b@ == experts@,
            r matches Err(e) ==> e == (ModelError::EmptyInput {
                operation: OperationName("ExpertBank::new"),
                details: ErrorDetails("expert bank must contain at least one expert"),
            }),
    {
        if experts.len() == 0 {
            return Err(ModelError::empty_input("ExpertBank::new", "expert bank must contain at least one expert"));
        }
        assert(experts@.len() > 0);
        Ok(ExpertBank { experts })
    }

    /// Returns the number of experts in the bank.
    pub fn expert_count(&self) -> (c: ExpertCount)
        ensures
            c@ == self@.len(),
    {
        proof {
            use_type_invariant(self);
        }
        ExpertCount(self.experts.len())
    }

    /// The expert that a route selects, or `DimensionMismatch` when the bank
    /// has no such expert.
    pub fn expert(&self, index: ExpertIndex) -> (r: Result<&E, ModelError>)
        requires
            index@ < usize::MAX,
        ensures
            r is Ok <==> index@ < self@.len(),
            r matches Ok(x) ==> *x == self@[index@ as int],
            r matches Err(e) ==> is_dimension_mismatch(
                e,
                "ExpertBank::forward_routed_token",
                "expert bank",
                self@.len() as usize,
                "route",
                (index@ + 1) as usize,
                "route must select an expert that exists in the bank",
            ),
    {
        if index.as_usize() >= self.experts.len() {
            return Err(
                ModelError::dimension_mismatch(
                    "ExpertBank::forward_routed_token",
                    "expert bank",
                    self.experts.len(),
                    "route",
                    index.as_usize() + 1,
                    "route must select an expert that exists in the bank",
                ),
            );
        }
        Ok(&self.experts[index.as_usize()])
    }

    /// Counts routed tokens per expert. Every route must select an expert of
    /// the bank; the first that does not fails with `DimensionMismatch`.
    pub fn load_report(&self, capacity: ExpertCapacity, routes: &Vec<ExpertIndex>) -> (r: Result<
        ExpertLoadReport,
        ModelError,
    >)
        requires
            forall|i: int| 0 <= i < routes@.len() ==> #[trigger] routes@[i]@ < usize::MAX,
        ensures
            r is Ok <==> routes_within(routes@, self@.len()),
            r matches Ok(report) ==> {
                &&& report.capacity() == capacity
                &&& report@.len() == self@.len()
                &&& forall|e: int| 0 <= e < report@.len() ==> #[trigger] report@[e]@ == routed_to(routes@, e as nat)
            },
            r matches Err(e) ==> exists|i: int|
                first_route_outside(routes@, self@.len(), i) && is_dimension_mismatch(
                    e,
                    "ExpertBank::load_report",
                    "expert bank",
                    self@.len() as usize,
                    "route",
                    (routes@[i]@ + 1) as usize,
                    "every route must select an expert that exists in the bank",
                ),
    {
        proof {
            use_type_invariant(self);
        }
        let expected = self.experts.len();
        let mut loads: Vec<ExpertLoad> = Vec::new();
        let mut k: usize = 0;
        while k < expected
            invariant
                expected == self@.len(),
                k <= expected,
                loads@.len() == k,
                forall|e: int| 0 <= e < k ==> #[trigger] loads@[e]@ == 0,
            decreases expected - k,
        {
            loads.push(ExpertLoad::zero());
            k = k + 1;
        }
        let mut i: usize = 0;
        while i < routes.len()
            invariant
                expected == self@.len(),
                i <= routes@.len(),
                loads@.len() == expected,
                routes_within(routes@.subrange(0, i as int), expected as nat),
                forall|j: int| 0 <= j < routes@.len() ==> #[trigger] routes@[j]@ < usize::MAX,
                forall|e: int|
                    0 <= e < expected ==> #[trigger] loads@[e]@ == routed_to(routes@.subrange(0, i as int), e as nat),
            decreases routes@.len() - i,
        {
            let index = routes[i];
            proof {
                assert(routes@.subrange(0, i as int + 1).drop_last() =~= routes@.subrange(0, i as int));
                assert(routes@.subrange(0, i as int + 1).last() == routes@[i as int]);
            }
            if index.as_usize() >= expected {
                proof {
                    assert(!routes_within(routes@, expected as nat)) by {
                        assert(routes@[i as int]@ >= expected);
                    }
                    assert forall|j: int| 0 <= j < i implies #[trigger] routes@[j]@ < expected by {
                        assert(routes@.subrange(0, i as int)[j] == routes@[j]);
                    }
                    assert(first_route_outside(routes@, self@.len(), i as int));
                }
                return Err(
                    ModelError::dimension_mismatch(
                        "ExpertBank::load_report",
                        "expert bank",
                        expected,
                        "route",
                        index.as_usize() + 1,
                        "every route must select an expert that exists in the bank",
                    ),
                );
            }
            let slot = index.as_usize();
            proof {
                lemma_routed_to_bounded(routes@.subrange(0, i as int), slot as nat);
            }
            let current = loads[slot];
            let next = match current.increment() {
                Ok(l) => l,
                Err(e) => {
                    return Err(e);
                },
            };
            loads.set(slot, next);
            proof {
                assert forall|e: int| 0 <= e < expected implies #[trigger] loads@[e]@ == routed_to(
                    routes@.subrange(0, i as int + 1),
                    e as nat,
                ) by {}
                assert forall|j: int| 0 <= j < i + 1 implies #[trigger] routes@.subrange(0, i as int + 1)[j]@
                    < expected by {
                    if j < i {
                        assert(routes@.subrange(0, i as int + 1)[j] == routes@.subrange(0, i as int)[j]);
                    }
                }
            }
            i = i + 1;
        }
        proof {
            assert(routes@.subrange(0, routes@.len() as int) =~= routes@);
        }
        Ok(ExpertLoadReport { capacity, loads })
    }
}

proof fn lemma_routed_to_bounded(routes: Seq<ExpertIndex>, e: nat)
    ensures
        routed_to(routes, e) <= routes.len(),
    decreases routes.len(),
{
    if routes.len() > 0 {
        lemma_routed_to_bounded(routes.drop_last(), e);
    }
}

/// Per-expert load evidence for a routed teaching batch.
#[derive(Debug, Clone, PartialEq, Eq)]
pub struct ExpertLoadReport {
    capacity: ExpertCapacity,
    loads: Vec<ExpertLoad>,
}

impl View for ExpertLoadReport {
    type V = Seq<ExpertLoad>;

    closed spec fn view(&self) -> Seq<ExpertLoad> {
        self.loads@
    }
}

/// The capacity classification of a load.
pub open spec fn load_status(load: nat, capacity: nat) -> ExpertLoadStatus {
    if load <= capacity {
        ExpertLoadStatus::WithinCapacity
    } else {
        ExpertLoadStatus::OverCapacity
    }
}

impl ExpertLoadReport {
    /// The capacity used to classify the loads.
    pub closed spec fn spec_capacity(&self) -> ExpertCapacity {
        self.capacity
    }

    /// Returns the capacity used to classify the loads.
    #[verifier::when_used_as_spec(spec_capacity)]
    pub fn capacity(&self) -> (c: ExpertCapacity)
        ensures
            c == self.spec_capacity(),
    {
        self.capacity
    }

    /// Per-expert loads in expert-index order.
    pub fn loads(&self) -> (l: &[ExpertLoad])
        ensures
            l@ == self@,
    {
        self.loads.as_slice()
    }

    /// Returns one expert's load, or `DimensionMismatch` for an index outside
    /// the report.
    pub fn load_for(&self, expert_index: ExpertIndex) -> (r: Result<ExpertLoad, ModelError>)
        requires
            expert_index@ < usize::MAX,
        ensures
            r is Ok <==> expert_index@ < self@.len(),
            r matches Ok(l) ==> l == self@[expert_index@ as int],
            r matches Err(e) ==> load_index_error(e, self@.len(), expert_index@),
    {
        if expert_index.as_usize() >= self.loads.len() {
            return Err(
                ModelError::dimension_mismatch(
                    "ExpertLoadReport::load_for",
                    "load report",
                    self.loads.len(),
                    "expert index",
                    expert_index.as_usize() + 1,
                    "expert index must exist in the load report",
                ),
            );
        }
        Ok(self.loads[expert_index.as_usize()])
    }

    /// Classifies one expert's load against the report capacity.
    pub fn status_for(&self, expert_index: ExpertIndex) -> (r: Result<ExpertLoadStatus, ModelError>)
        requires
            expert_index@ < usize::MAX,
        ensures
            r is Ok <==> expert_index@ < self@.len(),
            r matches Ok(s) ==> s == load_status(self@[expert_index@ as int]@, self.capacity()@),
            r matches Ok(s) ==> (s == ExpertLoadStatus::WithinCapacity <==> self@[expert_index@ as int]@
                <= self.capacity()@),
            r matches Ok(s) ==> (s == ExpertLoadStatus::OverCapacity <==> self@[expert_index@ as int]@
                > self.capacity()@),
            r matches Err(e) ==> load_index_error(e, self@.len(), expert_index@),
    {
        let load = self.load_for(expert_index)?;
        if load.as_usize() <= self.capacity.as_usize() {
            return Ok(ExpertLoadStatus::WithinCapacity);
        }
        Ok(ExpertLoadStatus::OverCapacity)
    }
}

/// A load is within capacity exactly when it does not exceed the capacity,
/// and over capacity exactly when it does.
pub proof fn lemma_status_compares_load_with_capacity(load: nat, capacity: nat)
    ensures
        load_status(load, capacity) == ExpertLoadStatus::WithinCapacity <==> load <= capacity,
        load_status(load, capacity) == ExpertLoadStatus::OverCapacity <==> load > capacity,
{
}

/// The sum of a sequence of loads.
pub open spec fn total_load(loads: Seq<ExpertLoad>) -> nat
    decreases loads.len(),
{
    if loads.len() == 0 {
        0
    } else {
        total_load(loads.drop_last()) + loads.last()@
    }
}

/// The routes selecting any of the experts `0..k`.
pub open spec fn routed_below(routes: Seq<ExpertIndex>, k: nat) -> nat
    decreases k,
{
    if k == 0 {
        0
    } else {
        routed_below(routes, (k - 1) as nat) + routed_to(routes, (k - 1) as nat)
    }
}

proof fn lemma_routed_below_step(routes: Seq<ExpertIndex>, k: nat)
    requires
        routes.len() > 0,
    ensures
        routed_below(routes, k) == routed_below(routes.drop_last(), k) + if routes.last()@ < k {
            1nat
        } else {
            0nat
        },
    decreases k,
{
    if k > 0 {
        lemma_routed_below_step(routes, (k - 1) as nat);
    }
}

proof fn lemma_routed_below_all(routes: Seq<ExpertIndex>, n: nat)
    requires
        routes_within(routes, n),
    ensures
        routed_below(routes, n) == routes.len(),
    decreases routes.len(),
{
    if routes.len() > 0 {
        assert(routes_within(routes.drop_last(), n)) by {
            assert forall|i: int| 0 <= i < routes.drop_last().len() implies #[trigger] routes.drop_last()[i]@
                < n by {
                assert(routes.drop_last()[i] == routes[i]);
            }
        }
        lemma_routed_below_all(routes.drop_last(), n);
        lemma_routed_below_step(routes, n);
        assert(routes.last() == routes[routes.len() - 1]);
    } else {
        lemma_routed_below_empty(routes, n);
    }
}

proof fn lemma_routed_below_empty(routes: Seq<ExpertIndex>, k: nat)
    requires
        routes.len() == 0,
    ensures
        routed_below(routes, k) == 0,
    decreases k,
{
    if k > 0 {
        lemma_routed_below_empty(routes, (k - 1) as nat);
    }
}

proof fn lemma_total_load_prefix(loads: Seq<ExpertLoad>, routes: Seq<ExpertIndex>)
    requires
        forall|e: int| 0 <= e < loads.len() ==> #[trigger] loads[e]@ == routed_to(routes, e as nat),
    ensures
        total_load(loads) == routed_below(routes, loads.len()),
    decreases loads.len(),
{
    if loads.len() > 0 {
        let shorter = loads.drop_last();
        assert forall|e: int| 0 <= e < shorter.len() implies #[trigger] shorter[e]@ == routed_to(
            routes,
            e as nat,
        ) by {
            assert(shorter[e] == loads[e]);
        }
        lemma_total_load_prefix(shorter, routes);
        assert(loads.last() == loads[loads.len() - 1]);
    }
}

/// Load accounting loses and invents no token: when every route selects an
/// expert of the bank and each expert's load counts the routes selecting it,
/// the loads add up to the number of routes.
pub proof fn lemma_loads_count_every_route(loads: Seq<ExpertLoad>, routes: Seq<ExpertIndex>)
    requires
        routes_within(routes, loads.len()),
        forall|e: int| 0 <= e < loads.len() ==> #[trigger] loads[e]@ == routed_to(routes, e as nat),
    ensures
        total_load(loads) == routes.len(),
{
    lemma_total_load_prefix(loads, routes);
    lemma_routed_below_all(routes, loads.len());
}

} // verus!
