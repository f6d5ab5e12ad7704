//! Collecting endorsements until a quorum of distinct voters is complete.

use crate::id::SignKey;
use crate::timed_map::{is_live, TimedMap};
use crate::xor_name::XorName;
use vstd::prelude::*;

verus! {

/// One member's share of a threshold signature, as it is counted.
#[derive(Clone, Copy, Debug, PartialEq, Eq)]
pub struct SignatureShare {
    /// The member's index in the group's public key set.
    pub index: u64,
    /// The signature share in its compressed form.
    pub share: [u8; 96],
}

/// One member's share of a threshold signature together with the public key
/// set of the group, against which the share is verified and under which the
/// shares are combined.
#[derive(Clone, Debug, PartialEq, Eq)]
pub struct SigShare {
    /// The serialised public key set of the group.
    pub public_key_set: Vec<u8>,
    /// The member's index in the key set.
    pub index: u64,
    /// The signature share in its compressed form.
    pub signature_share: [u8; 96],
}

/// One endorsement of some content.
#[derive(Clone, Copy, Debug, PartialEq, Eq)]
pub enum Vote {
    /// The content arrived signed by this key.
    Signed(SignKey),
    /// A member contributed this share of the section's signature.
    Share(SignatureShare),
}

/// Who stands behind a vote. Two votes of one voter count once.
pub enum Voter {
    Key(SignKey),
    Index(u64),
}

/// The voter of a vote.
pub open spec fn voter(v: Vote) -> Voter {
    match v {
        Vote::Signed(key) => Voter::Key(key),
        Vote::Share(s) => Voter::Index(s.index),
    }
}

/// Whether the voter of `v` has a vote in `votes`.
pub open spec fn has_voter(votes: Seq<Vote>, v: Vote) -> bool {
    exists|i: int| 0 <= i < votes.len() && voter(#[trigger] votes[i]) == voter(v)
}

/// No voter has two votes in `votes`.
pub open spec fn distinct_voters(votes: Seq<Vote>) -> bool {
    forall|i: int, j: int|
        0 <= i < j < votes.len() ==> voter(#[trigger] votes[i]) != voter(#[trigger] votes[j])
}

/// The records of `m` that are live at `now`.
pub open spec fn live_part<V>(m: Map<XorName, (u64, V)>, now: u64, ttl: u64) -> Map<
    XorName,
    (u64, V),
> {
    Map::new(|k: XorName| m.contains_key(k) && is_live(m[k].0, now, ttl), |k: XorName| m[k])
}

/// What an accumulator holds: the votes collected so far for each content
/// that is not decided yet, the contents that are decided, both with the time
/// of the last change, and the sizes that govern them.
pub struct Tally {
    pub pending: Map<XorName, (u64, Seq<Vote>)>,
    pub done: Map<XorName, (u64, ())>,
    pub quorum: nat,
    pub ttl: u64,
    pub done_ttl: u64,
}

/// What a vote led to.
pub enum Verdict {
    /// The content has fewer votes than the quorum.
    Pending,
    /// This vote brought the content to the quorum; these are its votes.
    Complete(Seq<Vote>),
    /// The content was decided before.
    Late,
}

/// The votes for `key` that count at `now`.
pub open spec fn votes_for(t: Tally, key: XorName, now: u64) -> Seq<Vote> {
    if t.pending.contains_key(key) && is_live(t.pending[key].0, now, t.ttl) {
        t.pending[key].1
    } else {
        Seq::empty()
    }
}

/// Whether `key` counts as decided at `now`.
pub open spec fn decided(t: Tally, key: XorName, now: u64) -> bool {
    t.done.contains_key(key) && is_live(t.done[key].0, now, t.done_ttl)
}

/// No content holds two votes of one voter.
pub open spec fn tally_wf(t: Tally) -> bool {
    forall|k: XorName| t.pending.contains_key(k) ==> distinct_voters(#[trigger] t.pending[k].1)
}

/// The accumulator after a vote for `key` at `now`, and what the vote led to.
///
/// Records that are no longer live at `now` are forgotten first. A vote for
/// decided content changes nothing more. Otherwise the vote is counted unless
/// its voter has been counted for this content; content that reaches the
/// quorum becomes decided and its votes are handed out and forgotten.
pub open spec fn tally_add(t: Tally, key: XorName, vote: Vote, now: u64) -> (Tally, Verdict) {
    let pending = live_part(t.pending, now, t.ttl);
    let done = live_part(t.done, now, t.done_ttl);
    if done.contains_key(key) {
        (Tally { pending, done, ..t }, Verdict::Late)
    } else {
        let prior = if pending.contains_key(key) {
            pending[key].1
        } else {
            Seq::empty()
        };
        let counted = has_voter(prior, vote);
        let votes = if counted {
            prior
        } else {
            prior.push(vote)
        };
        if votes.len() >= t.quorum {
            (
                Tally { pending: pending.remove(key), done: done.insert(key, (now, ())), ..t },
                Verdict::Complete(votes),
            )
        } else if counted {
            (Tally { pending, done, ..t }, Verdict::Pending)
        } else {
            (Tally { pending: pending.insert(key, (now, votes)), done, ..t }, Verdict::Pending)
        }
    }
}

/// What a call of `add` hands back.
#[derive(Clone, Debug, PartialEq, Eq)]
pub enum Outcome {
    /// The content has fewer votes than the quorum.
    Pending,
    /// This vote brought the content to the quorum; these are its votes.
    Complete(Vec<Vote>),
    /// The content was decided before.
    Late,
}

impl Outcome {
    /// The outcome with its votes as a sequence.
    pub open spec fn verdict(self) -> Verdict {
        match self {
            Outcome::Pending => Verdict::Pending,
            Outcome::Complete(votes) => Verdict::Complete(votes@),
            Outcome::Late => Verdict::Late,
        }
    }
}

/// Whether two votes have the same voter.
pub fn same_voter(a: &Vote, b: &Vote) -> (r: bool)
    ensures
        r == (voter(*a) == voter(*b)),
{
    match (a, b) {
        (Vote::Signed(x), Vote::Signed(y)) => x.same(y),
        (Vote::Share(x), Vote::Share(y)) => x.index == y.index,
        _ => false,
    }
}

/// Whether the voter of `vote` has a vote in `votes`.
pub fn contains_voter(votes: &Vec<Vote>, vote: &Vote) -> (r: bool)
    ensures
        r == has_voter(votes@, *vote),
{
    let mut i: usize = 0;
    while i < votes.len()
        invariant
            0 <= i <= votes.len(),
            forall|j: int| 0 <= j < i ==> voter(#[trigger] votes@[j]) != voter(*vote),
        decreases votes.len() - i,
    {
        if same_voter(&votes[i], vote) {
            return true;
        }
        i += 1;
    }
    false
}

/// Collects endorsements of contents until a quorum of distinct voters
/// stands behind one, and remembers for a while which contents were decided.
pub struct Accumulator {
    pending: TimedMap<Vec<Vote>>,
    done: TimedMap<()>,
    quorum: usize,
    ttl: u64,
    done_ttl: u64,
}

impl View for Accumulator {
    type V = Tally;

    closed spec fn view(&self) -> Tally {
        Tally {
            pending: Map::new(
                |k: XorName| self.pending@.contains_key(k),
                |k: XorName| (self.pending@[k].0, self.pending@[k].1@),
            ),
            done: self.done@,
            quorum: self.quorum as nat,
            ttl: self.ttl,
            done_ttl: self.done_ttl,
        }
    }
}

impl Accumulator {
    /// The invariant: what `tally_wf` says, over a sound representation.
    pub closed spec fn wf(&self) -> bool {
        &&& self.pending.wf()
        &&& self.done.wf()
        &&& tally_wf(self@)
    }

    /// An empty accumulator. Pending votes are kept for `ttl`, decisions are
    /// remembered for `done_ttl`.
    pub fn with_duration(quorum: usize, ttl: u64, done_ttl: u64) -> (acc: Accumulator)
        ensures
            acc.wf(),
            acc@ == (Tally {
                pending: Map::empty(),
                done: Map::empty(),
                quorum: quorum as nat,
                ttl,
                done_ttl,
            }),
    {
        let acc = Accumulator {
            pending: TimedMap::new(),
            done: TimedMap::new(),
            quorum,
            ttl,
            done_ttl,
        };
        assert(acc@.pending =~= Map::empty());
        acc
    }

    /// The quorum in force.
    pub fn quorum_size(&self) -> (q: usize)
        ensures
            q == self@.quorum,
    {
        self.quorum
    }

    /// Whether `key` counts as decided at `now`.
    pub fn is_decided(&self, key: &XorName, now: u64) -> (r: bool)
        requires
            self.wf(),
        ensures
            r == decided(self@, *key, now),
    {
        match self.done.get(key) {
            Some(e) => crate::timed_map::live(e.time, now, self.done_ttl),
            None => false,
        }
    }

    /// Puts a new quorum in force, for contents under way too.
    pub fn set_quorum_size(&mut self, quorum: usize)
        requires
            old(self).wf(),
        ensures
            final(self).wf(),
            final(self)@ == (Tally { quorum: quorum as nat, ..old(self)@ }),
    {
        self.quorum = quorum;
    }

    /// Counts a vote for `key` that arrives at `now`.
    pub fn add(&mut self, key: XorName, vote: Vote, now: u64) -> (r: Outcome)
        requires
            old(self).wf(),
        ensures
            final(self).wf(),
            (final(self)@, r.verdict()) == tally_add(old(self)@, key, vote, now),
    {
        let ghost before = self@;
        let ghost model = tally_add(before, key, vote, now);
        self.pending.remove_expired(now, self.ttl);
        self.done.remove_expired(now, self.done_ttl);
        let ghost live_pending = live_part(before.pending, now, before.ttl);
        let ghost live_done = live_part(before.done, now, before.done_ttl);
        assert(self@.pending =~= live_pending);
        assert(self@.done =~= live_done);
        if self.done.contains_key(&key) {
            return Outcome::Late;
        }
        let (mut votes, time, counted) = match self.pending.remove(&key) {
            None => (Vec::new(), now, false),
            Some(e) => {
                let counted = contains_voter(&e.value, &vote);
                (e.value, e.time, counted)
            },
        };
        assert(self@.pending =~= live_pending.remove(key));
        let ghost prior = votes@;
        assert(prior == if live_pending.contains_key(key) {
            live_pending[key].1
        } else {
            Seq::empty()
        });
        assert(distinct_voters(prior)) by {
            if live_pending.contains_key(key) {
                assert(before.pending.contains_key(key));
            }
        }
        if !counted {
            votes.push(vote);
        }
        if votes.len() >= self.quorum {
            let _ = self.done.insert(key, now, ());
            assert(self@.done =~= live_done.insert(key, (now, ())));
            assert(tally_wf(self@)) by {
                assert forall|k: XorName| self@.pending.contains_key(k) implies distinct_voters(
                    #[trigger] self@.pending[k].1,
                ) by {
                    assert(before.pending.contains_key(k));
                }
            }
            return Outcome::Complete(votes);
        }
        let stamp = if counted {
            time
        } else {
            now
        };
        let ghost kept = votes@;
        let _ = self.pending.insert(key, stamp, votes);
        proof {
            if counted {
                assert(self@.pending =~= live_pending);
            } else {
                assert(self@.pending =~= live_pending.insert(key, (now, kept)));
            }
            assert forall|k: XorName| self@.pending.contains_key(k) implies distinct_voters(
                #[trigger] self@.pending[k].1,
            ) by {
                if k != key {
                    assert(before.pending.contains_key(k));
                }
            }
        }
        Outcome::Pending
    }
}

/// A vote keeps the tally sound, counts at most once, and never lowers the
/// count of its content: while the content stays pending, its live votes are
/// the earlier ones, with the new vote behind them if its voter was not
/// counted before. The votes of other contents are untouched. The time to
/// live must be positive: with a time to live of zero no vote is ever live.
pub proof fn lemma_vote_counts_once(t: Tally, key: XorName, vote: Vote, now: u64)
    requires
        tally_wf(t),
        t.ttl > 0,
    ensures
        tally_wf(tally_add(t, key, vote, now).0),
        tally_add(t, key, vote, now).1 == Verdict::Pending ==> votes_for(
            tally_add(t, key, vote, now).0,
            key,
            now,
        ) == (if has_voter(votes_for(t, key, now), vote) {
            votes_for(t, key, now)
        } else {
            votes_for(t, key, now).push(vote)
        }),
        forall|k: XorName|
            k != key ==> votes_for(tally_add(t, key, vote, now).0, k, now) == votes_for(t, k, now),
{
    let (t1, v1) = tally_add(t, key, vote, now);
    assert forall|k: XorName| t1.pending.contains_key(k) implies distinct_voters(
        #[trigger] t1.pending[k].1,
    ) by {
        if k == key {
            let prior = votes_for(t, key, now);
            if t.pending.contains_key(key) {
                assert(distinct_voters(t.pending[key].1));
            }
        } else {
            assert(t.pending.contains_key(k));
        }
    }
}

/// A decision rests on a quorum of distinct voters: the votes handed out
/// with `Complete` are at least `quorum` many, no voter has two of them, the
/// vote that completed them is among them, and the content, undecided
/// before, is decided afterwards and has no pending votes left. The time
/// for which decisions are remembered must be positive.
pub proof fn lemma_complete_has_quorum(t: Tally, key: XorName, vote: Vote, now: u64)
    requires
        tally_wf(t),
        t.done_ttl > 0,
    ensures
        match tally_add(t, key, vote, now).1 {
            Verdict::Complete(votes) => votes.len() >= t.quorum && distinct_voters(votes)
                && has_voter(votes, vote) && !decided(t, key, now) && decided(
                tally_add(t, key, vote, now).0,
                key,
                now,
            ) && votes_for(tally_add(t, key, vote, now).0, key, now) == Seq::<Vote>::empty(),
            _ => true,
        },
{
    let prior = votes_for(t, key, now);
    if t.pending.contains_key(key) {
        assert(distinct_voters(t.pending[key].1));
    }
    if !has_voter(prior, vote) {
        let votes = prior.push(vote);
        assert(voter(votes[votes.len() - 1]) == voter(vote));
    }
}

/// Voting twice does not count twice: after a vote that left its content
/// pending, the same vote at a later time leaves it pending too, and the
/// content has no more votes than before.
pub proof fn lemma_vote_twice(t: Tally, key: XorName, vote: Vote, now: u64, later: u64)
    requires
        tally_wf(t),
        now <= later,
        tally_add(t, key, vote, now).1 == Verdict::Pending,
    ensures
        tally_add(tally_add(t, key, vote, now).0, key, vote, later).1 == Verdict::Pending,
        votes_for(tally_add(tally_add(t, key, vote, now).0, key, vote, later).0, key, later).len()
            <= votes_for(tally_add(t, key, vote, now).0, key, now).len(),
        is_live(tally_add(t, key, vote, now).0.pending[key].0, later, t.ttl) ==> tally_add(
            tally_add(t, key, vote, now).0,
            key,
            vote,
            later,
        ).0.pending[key] == tally_add(t, key, vote, now).0.pending[key],
{
    let (t1, v1) = tally_add(t, key, vote, now);
    let prior = votes_for(t, key, now);
    if !has_voter(prior, vote) {
        let votes = prior.push(vote);
        assert(voter(votes[votes.len() - 1]) == voter(vote));
    }
    assert(t1.pending.contains_key(key));
    assert(has_voter(t1.pending[key].1, vote));
}

/// A decision is emitted once: after the vote that completed the quorum at
/// `now`, every vote for the same content that arrives less than `done_ttl`
/// later is `Late`, whoever casts it.
pub proof fn lemma_decided_once(
    t: Tally,
    key: XorName,
    vote: Vote,
    now: u64,
    other: Vote,
    later: u64,
)
    requires
        tally_add(t, key, vote, now).1 is Complete,
        now <= later < now + t.done_ttl,
    ensures
        tally_add(tally_add(t, key, vote, now).0, key, other, later).1 == Verdict::Late,
{
}

/// Once decided, content stays decided while the decision is remembered: a
/// later vote for it is `Late` and changes no count.
pub proof fn lemma_no_second_decision(t: Tally, key: XorName, vote: Vote, now: u64)
    requires
        decided(t, key, now),
    ensures
        tally_add(t, key, vote, now).1 == Verdict::Late,
        decided(tally_add(t, key, vote, now).0, key, now),
{
}

/// Length of one public key in a serialised public key set.
pub const PUBLIC_KEY_LEN: usize = 48;

/// Whether `share` is a valid signature share of `payload` under the key
/// share with index `index` of the serialised key set `public_key_set`.
pub uninterp spec fn share_valid(
    public_key_set: Seq<u8>,
    index: u64,
    share: Seq<u8>,
    payload: Seq<u8>,
) -> bool;

/// The signature that the shares combine to under the serialised key set, if
/// they do: each share is given with its index.
pub uninterp spec fn combined_signature(
    public_key_set: Seq<u8>,
    shares: Seq<(u64, Seq<u8>)>,
) -> Option<Seq<u8>>;

/// The shares as plain pairs of index and bytes.
pub open spec fn share_pairs(shares: Seq<SignatureShare>) -> Seq<(u64, Seq<u8>)> {
    Seq::new(shares.len(), |i: int| (shares[i].index, shares[i].share@))
}

/// The signature shares among some votes, in the order of the votes.
pub open spec fn shares_of(votes: Seq<Vote>) -> Seq<SignatureShare>
    decreases votes.len(),
{
    if votes.len() == 0 {
        Seq::empty()
    } else {
        match votes.last() {
            Vote::Share(s) => shares_of(votes.drop_last()).push(s),
            Vote::Signed(_) => shares_of(votes.drop_last()),
        }
    }
}

/// Calls `blsttc::PublicKeyShare::verify` on the key share that
/// `blsttc::PublicKeySet::public_key_share` gives for the index. Trusted:
/// the answer is the function `share_valid` of the arguments. A key set or a
/// share that cannot be read from its bytes makes the share invalid.
#[verifier::external_body]
fn verify_share(public_key_set: &Vec<u8>, share: &SignatureShare, payload: &[u8]) -> (ok: bool)
    ensures
        ok == share_valid(public_key_set@, share.index, share.share@, payload@),
{
    match (
        blsttc::PublicKeySet::from_bytes(public_key_set.clone()),
        blsttc::SignatureShare::from_bytes(share.share),
    ) {
        (Ok(set), Ok(sig)) => set.public_key_share(share.index).verify(&sig, payload).is_ok(),
        _ => false,
    }
}

/// Calls `blsttc::PublicKeySet::combine_signatures`. Trusted: the result is
/// the function `combined_signature` of the key set and the shares, `None`
/// where the key set or a share cannot be read or the shares do not combine.
/// A key set without a single key is left out: its degree is not defined.
#[verifier::external_body]
fn combine_shares(public_key_set: &Vec<u8>, shares: &Vec<SignatureShare>) -> (r: Option<[u8; 96]>)
    requires
        public_key_set@.len() >= PUBLIC_KEY_LEN,
    ensures
        match r {
            Some(sig) => combined_signature(public_key_set@, share_pairs(shares@)) == Some(sig@),
            None => combined_signature(public_key_set@, share_pairs(shares@)).is_none(),
        },
{
    let set = blsttc::PublicKeySet::from_bytes(public_key_set.clone()).ok()?;
    let mut parts = Vec::new();
    for s in shares.iter() {
        parts.push((s.index, blsttc::SignatureShare::from_bytes(s.share).ok()?));
    }
    set.combine_signatures(parts).ok().map(|sig| sig.to_bytes())
}

/// What a signature share led to.
#[derive(Clone, Debug, PartialEq, Eq)]
pub enum Decision {
    /// The share does not verify; it was not counted.
    Invalid,
    /// The proposal has fewer shares than the quorum.
    Pending,
    /// The proposal was decided before; the share changes nothing.
    Late,
    /// This share completed the quorum; this is the section's signature.
    Decided([u8; 96]),
    /// This share completed the quorum, but the shares do not combine.
    Failed,
}

/// What a signature share led to, with the signature as a byte string.
pub enum Ruling {
    Invalid,
    Pending,
    Late,
    Decided(Seq<u8>),
    Failed,
}

impl Decision {
    /// The decision with its signature as a byte string.
    pub open spec fn ruling(self) -> Ruling {
        match self {
            Decision::Invalid => Ruling::Invalid,
            Decision::Pending => Ruling::Pending,
            Decision::Late => Ruling::Late,
            Decision::Decided(sig) => Ruling::Decided(sig@),
            Decision::Failed => Ruling::Failed,
        }
    }
}

/// The ruling that follows from what the tally said of a valid share.
pub open spec fn ruling_of(verdict: Verdict, public_key_set: Seq<u8>) -> Ruling {
    match verdict {
        Verdict::Pending => Ruling::Pending,
        Verdict::Late => Ruling::Late,
        Verdict::Complete(votes) => match combined_signature(
            public_key_set,
            share_pairs(shares_of(votes)),
        ) {
            Some(sig) => Ruling::Decided(sig),
            None => Ruling::Failed,
        },
    }
}

/// The signature shares among `votes`.
pub fn collect_shares(votes: &Vec<Vote>) -> (shares: Vec<SignatureShare>)
    ensures
        shares@ == shares_of(votes@),
{
    let mut shares: Vec<SignatureShare> = Vec::new();
    let mut i: usize = 0;
    while i < votes.len()
        invariant
            0 <= i <= votes.len(),
            shares@ == shares_of(votes@.take(i as int)),
        decreases votes.len() - i,
    {
        assert(votes@.take(i + 1).drop_last() =~= votes@.take(i as int));
        match votes[i] {
            Vote::Share(s) => {
                shares.push(s);
            },
            Vote::Signed(_) => {},
        }
        i += 1;
    }
    assert(votes@.take(i as int) =~= votes@);
    shares
}

/// The decision that the combined shares of a complete proposal give.
pub fn decide(combined: Option<[u8; 96]>) -> (d: Decision)
    ensures
        d == match combined {
            Some(sig) => Decision::Decided(sig),
            None => Decision::Failed,
        },
{
    match combined {
        Some(sig) => Decision::Decided(sig),
        None => Decision::Failed,
    }
}

impl Accumulator {
    /// Counts a signature share for the proposal `key`, given whether the
    /// share verifies. A share that does not verify is not counted.
    pub fn record_share(&mut self, key: XorName, share: SignatureShare, valid: bool, now: u64) -> (r:
        Option<Outcome>)
        requires
            old(self).wf(),
        ensures
            final(self).wf(),
            match r {
                None => !valid && final(self)@ == old(self)@,
                Some(outcome) => valid && (final(self)@, outcome.verdict()) == tally_add(
                    old(self)@,
                    key,
                    Vote::Share(share),
                    now,
                ),
            },
    {
        if !valid {
            return None;
        }
        Some(self.add(key, Vote::Share(share), now))
    }

    /// Verifies a signature share of `payload` for the proposal `key`, counts
    /// it, and combines the shares once a quorum of them is there.
    ///
    /// A share is invalid if it does not verify under its own key share of
    /// the key set that it names, or if that key set holds no key. The shares
    /// of a proposal are combined under the key set of the share that
    /// completes the quorum.
    pub fn add_share(&mut self, key: XorName, payload: &[u8], sig_share: &SigShare, now: u64) -> (d:
        Decision)
        requires
            old(self).wf(),
        ensures
            final(self).wf(),
            if sig_share.verifies(payload@) {
                final(self)@ == tally_add(old(self)@, key, Vote::Share(sig_share.counted()), now).0
                    && d.ruling() == ruling_of(
                    tally_add(old(self)@, key, Vote::Share(sig_share.counted()), now).1,
                    sig_share.public_key_set@,
                )
            } else {
                d == Decision::Invalid && final(self)@ == old(self)@
            },
    {
        let valid = sig_share.verify(payload);
        match self.record_share(key, sig_share.share(), valid, now) {
            None => Decision::Invalid,
            Some(Outcome::Pending) => Decision::Pending,
            Some(Outcome::Late) => Decision::Late,
            Some(Outcome::Complete(votes)) => {
                let shares = collect_shares(&votes);
                decide(combine_shares(&sig_share.public_key_set, &shares))
            },
        }
    }
}

impl SigShare {
    /// The share as it is counted: the index and the signature share.
    pub open spec fn counted(self) -> SignatureShare {
        SignatureShare { index: self.index, share: self.signature_share }
    }

    /// Whether the share is a valid share of `payload`: its key set holds a
    /// key, and the share verifies under the key share of its index.
    pub open spec fn verifies(self, payload: Seq<u8>) -> bool {
        self.public_key_set@.len() >= PUBLIC_KEY_LEN && share_valid(
            self.public_key_set@,
            self.index,
            self.signature_share@,
            payload,
        )
    }

    /// The share as it is counted.
    pub fn share(&self) -> (s: SignatureShare)
        ensures
            s == self.counted(),
    {
        SignatureShare { index: self.index, share: self.signature_share }
    }

    /// Whether the share is a valid share of `payload` under its own key
    /// set.
    pub fn verify(&self, payload: &[u8]) -> (r: bool)
        ensures
            r == self.verifies(payload@),
    {
        self.public_key_set.len() >= PUBLIC_KEY_LEN && verify_share(
            &self.public_key_set,
            &self.share(),
            payload,
        )
    }
}

} // verus!
