//! What the push transport answers, and which answers condemn a push token.

use crate::db::texts;
use crate::db::keyed::{lemma_take_next, lemma_take_next_all};
use vstd::prelude::*;

verus! {

/// Why the push transport did not accept a notification.
#[derive(Clone, Copy, Debug, PartialEq, Eq, Structural)]
pub enum RejectionReason {
    BadCollapseId,
    BadDeviceToken,
    BadExpirationDate,
    BadMessageId,
    BadPriority,
    BadTopic,
    DeviceTokenNotForTopic,
    DuplicateHeaders,
    IdleTimeout,
    MissingDeviceToken,
    MissingTopic,
    PayloadEmpty,
    TopicDisallowed,
    BadCertificate,
    BadCertificateEnvironment,
    ExpiredProviderToken,
    Forbidden,
    InvalidProviderToken,
    MissingProviderToken,
    BadPath,
    MethodNotAllowed,
    Unregistered,
    PayloadTooLarge,
    TooManyProviderTokenUpdates,
    TooManyRequests,
    InternalServerError,
    ServiceUnavailable,
    Shutdown,
}

/// How one push attempt ended.
#[derive(Clone, Copy, Debug, PartialEq, Eq, Structural)]
pub enum PushOutcome {
    /// The transport took the notification.
    Delivered,
    /// The transport refused it and said why.
    Rejected(RejectionReason),
    /// Anything else: no answer, an answer without a reason, a failure on
    /// the way.
    TransientFailure,
}

impl RejectionReason {
    /// The reasons that say that the push token will never work again.
    pub open spec fn condemns_token(self) -> bool {
        self == RejectionReason::Unregistered || self == RejectionReason::BadDeviceToken || self
            == RejectionReason::DeviceTokenNotForTopic
    }

    /// Whether this reason says that the push token will never work again.
    pub fn invalidates_token(&self) -> (b: bool)
        ensures
            b == self.condemns_token(),
    {
        match self {
            RejectionReason::Unregistered => true,
            RejectionReason::BadDeviceToken => true,
            RejectionReason::DeviceTokenNotForTopic => true,
            _ => false,
        }
    }
}

impl PushOutcome {
    /// The attempt showed the push token to be invalid for good.
    pub open spec fn is_dirty(self) -> bool {
        match self {
            PushOutcome::Rejected(reason) => reason.condemns_token(),
            _ => false,
        }
    }

    /// The attempt failed, in whatever way.
    pub open spec fn is_failure(self) -> bool {
        self != PushOutcome::Delivered
    }

    /// Whether the attempt showed the push token to be invalid for good.
    pub fn dirty(&self) -> (b: bool)
        ensures
            b == self.is_dirty(),
    {
        match self {
            PushOutcome::Rejected(reason) => reason.invalidates_token(),
            _ => false,
        }
    }

    /// Whether the attempt failed without showing the push token to be
    /// invalid: such a failure is reported and nothing else.
    pub fn only_logged(&self) -> (b: bool)
        ensures
            b == (self.is_failure() && !self.is_dirty()),
    {
        match self {
            PushOutcome::Delivered => false,
            PushOutcome::Rejected(reason) => !reason.invalidates_token(),
            PushOutcome::TransientFailure => true,
        }
    }
}

/// One push attempt: the token it went to and how it ended.
#[derive(Debug, PartialEq, Eq)]
pub struct PushAttempt {
    pub push_token: String,
    pub outcome: PushOutcome,
}

/// A push attempt as the model has it.
pub struct Attempt {
    pub push_token: Seq<char>,
    pub outcome: PushOutcome,
}

impl View for PushAttempt {
    type V = Attempt;

    open spec fn view(&self) -> Attempt {
        Attempt { push_token: self.push_token@, outcome: self.outcome }
    }
}

/// The attempts of a round as the model has them.

pub open spec fn attempts(v: Seq<PushAttempt>) -> Seq<Attempt> {
    v.map_values(|a: PushAttempt| a@)
}

/// The attempts that showed their push token to be invalid.
pub open spec fn dirty_attempt() -> spec_fn(Attempt) -> bool {
    |a: Attempt| a.outcome.is_dirty()
}

/// The push token that an attempt went to.

pub open spec fn token_of_attempt() -> spec_fn(Attempt) -> Seq<char> {
    |a: Attempt| a.push_token
}

/// The push tokens that a round of attempts showed to be invalid, in the
/// order of the attempts.
pub open spec fn dirty_tokens(round: Seq<Attempt>) -> Seq<Seq<char>> {
    round.filter(dirty_attempt()).map_values(token_of_attempt())
}

/// A push token is dirty exactly if some attempt to it ended dirty.
pub proof fn lemma_dirty_tokens(round: Seq<Attempt>, token: Seq<char>)
    ensures
        dirty_tokens(round).contains(token) <==> exists|i: int|
            0 <= i < round.len() && (#[trigger] round[i]).push_token == token
                && round[i].outcome.is_dirty(),
{
    let kept = round.filter(dirty_attempt());
    let found = dirty_tokens(round);
    if found.contains(token) {
        let j = choose|j: int| 0 <= j < found.len() && found[j] == token;
        round.lemma_filter_pred(dirty_attempt(), j);
        round.lemma_filter_contains_rev(dirty_attempt(), kept[j]);
        let i = choose|i: int| 0 <= i < round.len() && round[i] == kept[j];
        assert(round[i].push_token == token && round[i].outcome.is_dirty());
    }
    if exists|i: int|
        0 <= i < round.len() && (#[trigger] round[i]).push_token == token
            && round[i].outcome.is_dirty() {
        let i = choose|i: int|
            0 <= i < round.len() && (#[trigger] round[i]).push_token == token
                && round[i].outcome.is_dirty();
        round.lemma_filter_contains(dirty_attempt(), i);
        let j = choose|j: int| 0 <= j < kept.len() && kept[j] == round[i];
        assert(found[j] == token);
    }
}

/// The push tokens that a round of attempts showed to be invalid, in the
/// order of the attempts.
pub fn dirty_push_tokens(round: &Vec<PushAttempt>) -> (dirty: Vec<String>)
    ensures
        texts(dirty@) == dirty_tokens(attempts(round@)),
{
    let ghost all = attempts(round@);
    let mut dirty: Vec<String> = Vec::new();
    let mut i: usize = 0;
    while i < round.len()
        invariant
            i <= round.len(),
            all == attempts(round@),
            texts(dirty@) == dirty_tokens(all.take(i as int)),
        decreases round.len() - i,
    {
        proof {
            lemma_take_next(all, i as int);
            all.take(i as int).lemma_filter_push(all[i as int], dirty_attempt());
        }
        if round[i].outcome.dirty() {
            let token = round[i].push_token.clone();
            proof {
                let kept = all.take(i as int).filter(dirty_attempt());
                assert(kept.push(all[i as int]).map_values(token_of_attempt()) =~= kept.map_values(
                    token_of_attempt(),
                ).push(token@));
                assert(texts(dirty@.push(token)) =~= texts(dirty@).push(token@));
            }
            dirty.push(token);
        }
        i += 1;
    }
    proof {
        lemma_take_next_all(all);
    }
    dirty
}

/// The number of attempts that failed without showing their push token to
/// be invalid.
pub fn count_only_logged(round: &Vec<PushAttempt>) -> (n: usize)
    ensures
        n == attempts(round@).filter(|a: Attempt| a.outcome.is_failure() && !a.outcome.is_dirty()).len(),
{
    let ghost all = attempts(round@);
    let ghost p = |a: Attempt| a.outcome.is_failure() && !a.outcome.is_dirty();
    let mut n: usize = 0;
    let mut i: usize = 0;
    while i < round.len()
        invariant
            i <= round.len(),
            all == attempts(round@),
            p == |a: Attempt| a.outcome.is_failure() && !a.outcome.is_dirty(),
            n == all.take(i as int).filter(p).len(),
            n <= i,
        decreases round.len() - i,
    {
        proof {
            lemma_take_next(all, i as int);
            all.take(i as int).lemma_filter_push(all[i as int], p);
        }
        if round[i].outcome.only_logged() {
            n += 1;
        }
        i += 1;
    }
    proof {
        lemma_take_next_all(all);
    }
    n
}

} // verus!
