//! The result of a batch: which items went through, which failed, and the
//! figures derived from the two lists.

use vstd::prelude::*;
use crate::decimal::decimal;
use crate::decimal::to_decimal;
use crate::outcome::OutcomeModel;
use crate::outcome::TransferOutcome;

verus! {

/// The paths of the successes among `outcomes`, in the order they stand in.
pub open spec fn successes(outcomes: Seq<OutcomeModel>) -> Seq<Seq<char>>
    decreases outcomes.len(),
{
    if outcomes.len() == 0 {
        Seq::empty()
    } else {
        let earlier = successes(outcomes.drop_last());
        match outcomes.last() {
            OutcomeModel::Success { path } => earlier.push(path),
            OutcomeModel::Failure { .. } => earlier,
        }
    }
}

/// The identifier and message of each failure among `outcomes`, in the order
/// they stand in.
pub open spec fn failures(outcomes: Seq<OutcomeModel>) -> Seq<(Seq<char>, Seq<char>)>
    decreases outcomes.len(),
{
    if outcomes.len() == 0 {
        Seq::empty()
    } else {
        let earlier = failures(outcomes.drop_last());
        match outcomes.last() {
            OutcomeModel::Success { .. } => earlier,
            OutcomeModel::Failure { key, message } => earlier.push((key, message)),
        }
    }
}

/// Every outcome lands in exactly one of the two lists.
pub proof fn lemma_partition_is_total(outcomes: Seq<OutcomeModel>)
    ensures
        successes(outcomes).len() + failures(outcomes).len() == outcomes.len(),
    decreases outcomes.len(),
{
    if outcomes.len() > 0 {
        lemma_partition_is_total(outcomes.drop_last());
    }
}

/// The two lists only grow as outcomes arrive: those of the first `n`
/// outcomes stand at the front of those of all.
pub proof fn lemma_lists_grow(outcomes: Seq<OutcomeModel>, n: int)
    requires
        0 <= n <= outcomes.len(),
    ensures
        successes(outcomes.take(n)).len() <= successes(outcomes).len(),
        failures(outcomes.take(n)).len() <= failures(outcomes).len(),
        forall|k: int|
            0 <= k < successes(outcomes.take(n)).len() ==> #[trigger] successes(outcomes.take(n))[k]
                == successes(outcomes)[k],
        forall|k: int|
            0 <= k < failures(outcomes.take(n)).len() ==> #[trigger] failures(outcomes.take(n))[k]
                == failures(outcomes)[k],
    decreases outcomes.len(),
{
    if n == outcomes.len() {
        assert(outcomes.take(n) =~= outcomes);
    } else {
        assert(outcomes.drop_last().take(n) =~= outcomes.take(n));
        lemma_lists_grow(outcomes.drop_last(), n);
    }
}

/// Where the outcome at `position` stands in its list: behind the outcomes
/// of its kind that came before it.
pub open spec fn place(outcomes: Seq<OutcomeModel>, position: int) -> int {
    match outcomes[position] {
        OutcomeModel::Success { .. } => successes(outcomes.take(position)).len() as int,
        OutcomeModel::Failure { .. } => failures(outcomes.take(position)).len() as int,
    }
}

/// Each outcome is found in its list, at its place: a success by its path in
/// the list of successes, a failure by its identifier and message in the
/// list of failures.
pub proof fn lemma_partition_places_each(outcomes: Seq<OutcomeModel>, position: int)
    requires
        0 <= position < outcomes.len(),
    ensures
        0 <= place(outcomes, position),
        outcomes[position] matches OutcomeModel::Success { path } ==> place(outcomes, position)
            < successes(outcomes).len() && successes(outcomes)[place(outcomes, position)] == path,
        outcomes[position] matches OutcomeModel::Failure { key, message } ==> place(
            outcomes,
            position,
        ) < failures(outcomes).len() && failures(outcomes)[place(outcomes, position)] == (
            key,
            message,
        ),
{
    let upto = outcomes.take(position + 1);
    assert(upto.drop_last() =~= outcomes.take(position));
    assert(upto.last() == outcomes[position]);
    lemma_lists_grow(outcomes, position + 1);
    match outcomes[position] {
        OutcomeModel::Success { path } => {
            assert(successes(upto)[place(outcomes, position)] == path);
        },
        OutcomeModel::Failure { key, message } => {
            assert(failures(upto)[place(outcomes, position)] == (key, message));
        },
    }
}

/// Two outcomes of one kind stand at different places of their list, the
/// earlier one first. With the count of the two lists this makes the
/// outcomes and the entries of the two lists correspond one to one.
pub proof fn lemma_places_differ(outcomes: Seq<OutcomeModel>, earlier: int, later: int)
    requires
        0 <= earlier < later < outcomes.len(),
        outcomes[earlier] is Success <==> outcomes[later] is Success,
    ensures
        place(outcomes, earlier) < place(outcomes, later),
{
    let upto = outcomes.take(later);
    assert(upto.take(earlier + 1) =~= outcomes.take(earlier + 1));
    assert(outcomes.take(earlier + 1).drop_last() =~= outcomes.take(earlier));
    assert(outcomes.take(earlier + 1).last() == outcomes[earlier]);
    lemma_lists_grow(upto, earlier + 1);
}

/// A batch's outcomes split in two, each list in completion order.
#[derive(Debug, Clone, PartialEq, Eq)]
pub struct RustOperationResult {
    /// The local path of each transfer that went through.
    pub successful: Vec<String>,
    /// The identifier and the message of each transfer that failed.
    pub failed: Vec<(String, String)>,
}

impl RustOperationResult {
    /// A result with nothing in it.
    pub fn empty() -> (result: RustOperationResult)
        ensures
            result.successful@.len() == 0,
            result.failed@.len() == 0,
    {
        RustOperationResult { successful: Vec::new(), failed: Vec::new() }
    }

    /// Files one outcome: a success goes to the end of `successful`, a failure
    /// to the end of `failed`; the other list stays as it is.
    pub fn record(&mut self, outcome: TransferOutcome)
        ensures
            final(self).successful.deep_view() == match outcome@ {
                OutcomeModel::Success { path } => old(self).successful.deep_view().push(path),
                OutcomeModel::Failure { .. } => old(self).successful.deep_view(),
            },
            final(self).failed.deep_view() == match outcome@ {
                OutcomeModel::Success { .. } => old(self).failed.deep_view(),
                OutcomeModel::Failure { key, message } => old(self).failed.deep_view().push(
                    (key, message),
                ),
            },
    {
        match outcome {
            TransferOutcome::Success { path } => {
                self.successful.push(path);
                assert(self.successful.deep_view() =~= old(self).successful.deep_view().push(
                    path@,
                ));
            },
            TransferOutcome::Failure { key, message } => {
                self.failed.push((key, message));
                assert(self.failed.deep_view() =~= old(self).failed.deep_view().push(
                    (key@, message@),
                ));
            },
        }
    }
}

/// Splits the outcomes of a batch into successes and failures. Each list keeps
/// the order in which its outcomes stood, and no outcome is lost or doubled.
pub fn aggregate(outcomes: Vec<TransferOutcome>) -> (result: RustOperationResult)
    ensures
        result.successful.deep_view() == successes(outcomes.deep_view()),
        result.failed.deep_view() == failures(outcomes.deep_view()),
        result.successful.len() + result.failed.len() == outcomes.len(),
{
    let ghost all = outcomes.deep_view();
    let mut result = RustOperationResult::empty();
    assert(result.successful.deep_view() =~= successes(all.take(0)));
    assert(result.failed.deep_view() =~= failures(all.take(0)));
    for outcome in it: outcomes
        invariant
            all == outcomes.deep_view(),
            it.seq() == outcomes@,
            result.successful.deep_view() == successes(all.take(it.index() as int)),
            result.failed.deep_view() == failures(all.take(it.index() as int)),
    {
        proof {
            let n = it.index() as int;
            assert(all.take(n + 1).drop_last() =~= all.take(n));
            assert(all.take(n + 1).last() == outcome@);
        }
        result.record(outcome);
    }
    proof {
        assert(all.take(all.len() as int) =~= all);
        lemma_partition_is_total(all);
    }
    result
}

/// The identifiers of `failed`, without the messages.
pub open spec fn failed_keys(failed: Seq<(Seq<char>, Seq<char>)>) -> Seq<Seq<char>> {
    Seq::new(failed.len(), |i: int| failed[i].0)
}

/// The short form of a summary: the two counts in decimal.
pub open spec fn repr_text(successful: nat, failed: nat) -> Seq<char> {
    "DownloadResults(successful="@ + decimal(successful) + ", failed="@ + decimal(failed) + ")"@
}

/// The sentence form of a summary: the two counts in decimal.
pub open spec fn summary_text(successful: nat, failed: nat) -> Seq<char> {
    "DownloadResults: "@ + decimal(successful) + " successful, "@ + decimal(failed) + " failed"@
}

/// The share of successes as a fraction `(numerator, denominator)` with a
/// positive denominator: `0/1` for a batch of nothing, else successes over
/// all.
pub open spec fn success_fraction(successful: nat, failed: nat) -> (nat, nat) {
    if successful + failed == 0 {
        (0, 1)
    } else {
        (successful, successful + failed)
    }
}

/// `a <= b` for two fractions with positive denominators.
pub open spec fn fraction_le(a: (nat, nat), b: (nat, nat)) -> bool {
    a.0 * b.1 <= b.0 * a.1
}

/// The share of successes lies between 0 and 1, is 0 for a batch of nothing
/// and 1 exactly when a non-empty batch has no failure.
pub proof fn lemma_success_fraction_range(successful: nat, failed: nat)
    ensures
        success_fraction(successful, failed).1 > 0,
        success_fraction(successful, failed).0 <= success_fraction(successful, failed).1,
        successful + failed == 0 ==> success_fraction(successful, failed).0 == 0,
        successful + failed > 0 ==> (success_fraction(successful, failed).0 == success_fraction(
            successful,
            failed,
        ).1 <==> failed == 0),
{
}

/// The share of successes never goes down when more items succeed and no
/// more fail.
pub proof fn lemma_success_fraction_monotone(
    successful: nat,
    failed: nat,
    more_successful: nat,
    fewer_failed: nat,
)
    requires
        successful <= more_successful,
        fewer_failed <= failed,
    ensures
        fraction_le(
            success_fraction(successful, failed),
            success_fraction(more_successful, fewer_failed),
        ),
{
    assert(successful * fewer_failed <= more_successful * failed) by (nonlinear_arith)
        requires
            successful <= more_successful,
            fewer_failed <= failed,
    ;
    assert(successful * (more_successful + fewer_failed) <= more_successful * (successful
        + failed)) by (nonlinear_arith)
        requires
            successful * fewer_failed <= more_successful * failed,
    ;
}

fn counts_repr(successful: usize, failed: usize) -> (text: String)
    ensures
        text@ == repr_text(successful as nat, failed as nat),
{
    let mut text = String::from_str("DownloadResults(successful=");
    text.append(to_decimal(successful).as_str());
    text.append(", failed=");
    text.append(to_decimal(failed).as_str());
    text.append(")");
    text
}

fn counts_summary(successful: usize, failed: usize) -> (text: String)
    ensures
        text@ == summary_text(successful as nat, failed as nat),
{
    let mut text = String::from_str("DownloadResults: ");
    text.append(to_decimal(successful).as_str());
    text.append(" successful, ");
    text.append(to_decimal(failed).as_str());
    text.append(" failed");
    text
}

fn counts_fraction(successful: usize, failed: usize) -> (fraction: (usize, usize))
    requires
        successful + failed <= usize::MAX,
    ensures
        (fraction.0 as nat, fraction.1 as nat) == success_fraction(successful as nat, failed as nat),
{
    let total = successful + failed;
    if total == 0 {
        (0, 1)
    } else {
        (successful, total)
    }
}

/// Takes the identifiers out of `failed`, in order.
pub fn keys_of(failed: Vec<(String, String)>) -> (keys: Vec<String>)
    ensures
        keys.deep_view() == failed_keys(failed.deep_view()),
{
    let ghost all = failed.deep_view();
    let mut keys: Vec<String> = Vec::new();
    for pair in it: failed
        invariant
            all == failed.deep_view(),
            it.seq() == failed@,
            keys.len() == it.index(),
            forall|i: int| 0 <= i < keys.len() ==> (#[trigger] keys[i])@ == all[i].0,
    {
        keys.push(pair.0);
    }
    assert(keys.deep_view() =~= failed_keys(all));
    keys
}

/// What a caller gets back from a batch: the paths that went through and the
/// identifiers that failed, each in completion order.
#[derive(Debug, Clone, PartialEq, Eq)]
pub struct Results {
    /// The local path of each transfer that went through.
    pub successful: Vec<String>,
    /// The identifier of each transfer that failed.
    pub failed: Vec<String>,
}

impl Results {
    /// Puts the two lists together as they are.
    pub fn new(successful: Vec<String>, failed: Vec<String>) -> (results: Self)
        ensures
            results.successful == successful,
            results.failed == failed,
    {
        Self { successful, failed }
    }

    /// Keeps the successes of `result` and, of its failures, the identifiers.
    pub fn from_operation(result: RustOperationResult) -> (results: Self)
        ensures
            results.successful == result.successful,
            results.failed.deep_view() == failed_keys(result.failed.deep_view()),
    {
        let RustOperationResult { successful, failed } = result;
        Self { successful, failed: keys_of(failed) }
    }

    /// The two counts in the short form.
    pub fn __repr__(&self) -> (text: String)
        ensures
            text@ == repr_text(self.successful@.len(), self.failed@.len()),
    {
        counts_repr(self.successful.len(), self.failed.len())
    }

    /// The two counts as a sentence.
    pub fn __str__(&self) -> (text: String)
        ensures
            text@ == summary_text(self.successful@.len(), self.failed@.len()),
    {
        counts_summary(self.successful.len(), self.failed.len())
    }

    /// Whether nothing failed.
    pub fn is_complete_success(&self) -> (b: bool)
        ensures
            b == (self.failed@.len() == 0),
    {
        self.failed.is_empty()
    }

    /// Whether anything went through.
    pub fn has_success(&self) -> (b: bool)
        ensures
            b == (self.successful@.len() > 0),
    {
        !self.successful.is_empty()
    }

    /// Whether anything failed.
    pub fn has_failures(&self) -> (b: bool)
        ensures
            b == (self.failed@.len() > 0),
    {
        !self.failed.is_empty()
    }

    /// How many items the batch had.
    pub fn total_count(&self) -> (n: usize)
        requires
            self.successful@.len() + self.failed@.len() <= usize::MAX,
        ensures
            n == self.successful@.len() + self.failed@.len(),
    {
        self.successful.len() + self.failed.len()
    }

    /// The share of successes as `(numerator, denominator)`.
    pub fn success_ratio(&self) -> (fraction: (usize, usize))
        requires
            self.successful@.len() + self.failed@.len() <= usize::MAX,
        ensures
            (fraction.0 as nat, fraction.1 as nat) == success_fraction(
                self.successful@.len(),
                self.failed@.len(),
            ),
    {
        counts_fraction(self.successful.len(), self.failed.len())
    }
}

/// The outcomes of a download batch split in two, each list in completion
/// order.
#[derive(Debug, Clone, PartialEq, Eq)]
pub struct DownloadResult {
    /// The local path of each download that went through.
    pub successful_downloads: Vec<String>,
    /// The object key and the message of each download that failed.
    pub failed_downloads: Vec<(String, String)>,
}

impl DownloadResult {
    /// The same two lists under the names used for downloads.
    pub fn from_operation(result: RustOperationResult) -> (downloads: Self)
        ensures
            downloads.successful_downloads == result.successful,
            downloads.failed_downloads == result.failed,
    {
        let RustOperationResult { successful, failed } = result;
        Self { successful_downloads: successful, failed_downloads: failed }
    }
}

/// What a caller gets back from a download batch: the paths written and the
/// keys that failed, each in completion order.
#[derive(Debug, Clone, PartialEq, Eq)]
pub struct DownloadResults {
    /// The local path of each download that went through.
    pub successful: Vec<String>,
    /// The object key of each download that failed.
    pub failed: Vec<String>,
}

impl DownloadResults {
    /// Puts the two lists together as they are.
    pub fn new(successful: Vec<String>, failed: Vec<String>) -> (results: Self)
        ensures
            results.successful == successful,
            results.failed == failed,
    {
        Self { successful, failed }
    }

    /// Keeps the successes of `result` and, of its failures, the keys.
    pub fn from_download(result: DownloadResult) -> (results: Self)
        ensures
            results.successful == result.successful_downloads,
            results.failed.deep_view() == failed_keys(result.failed_downloads.deep_view()),
    {
        let DownloadResult { successful_downloads, failed_downloads } = result;
        Self { successful: successful_downloads, failed: keys_of(failed_downloads) }
    }

    /// The two counts in the short form.
    pub fn __repr__(&self) -> (text: String)
        ensures
            text@ == repr_text(self.successful@.len(), self.failed@.len()),
    {
        counts_repr(self.successful.len(), self.failed.len())
    }

    /// The two counts as a sentence.
    pub fn __str__(&self) -> (text: String)
        ensures
            text@ == summary_text(self.successful@.len(), self.failed@.len()),
    {
        counts_summary(self.successful.len(), self.failed.len())
    }

    /// Whether nothing failed.
    pub fn is_complete_success(&self) -> (b: bool)
        ensures
            b == (self.failed@.len() == 0),
    {
        self.failed.is_empty()
    }

    /// Whether anything went through.
    pub fn has_success(&self) -> (b: bool)
        ensures
            b == (self.successful@.len() > 0),
    {
        !self.successful.is_empty()
    }

    /// Whether anything failed.
    pub fn has_failures(&self) -> (b: bool)
        ensures
            b == (self.failed@.len() > 0),
    {
        !self.failed.is_empty()
    }

    /// How many items the batch had.
    pub fn total_count(&self) -> (n: usize)
        requires
            self.successful@.len() + self.failed@.len() <= usize::MAX,
        ensures
            n == self.successful@.len() + self.failed@.len(),
    {
        self.successful.len() + self.failed.len()
    }

    /// The share of successes as `(numerator, denominator)`.
    pub fn success_ratio(&self) -> (fraction: (usize, usize))
        requires
            self.successful@.len() + self.failed@.len() <= usize::MAX,
        ensures
            (fraction.0 as nat, fraction.1 as nat) == success_fraction(
                self.successful@.len(),
                self.failed@.len(),
            ),
    {
        counts_fraction(self.successful.len(), self.failed.len())
    }
}


} // verus!
