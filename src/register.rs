//! The register of the best candidate seen in one run.
use vstd::prelude::*;
use crate::float_bits::{FloatBits, float_less};

verus! {

/// The best score seen so far and the candidate that scored it.
///
/// Both fields are replaced together, and only by a strictly smaller score.
pub struct BestRegister<T> {
    score: FloatBits,
    candidate: T,
}

/// Whether `score` displaces the best score `best`: only a strictly smaller
/// score does, so among equal scores the one registered first stays.
pub open spec fn improves(score: FloatBits, best: FloatBits) -> bool {
    float_less(score.bits, best.bits)
}

/// Score `best` is no worse than `reference`: equal to it, or smaller.
pub open spec fn no_worse(best: FloatBits, reference: FloatBits) -> bool {
    best == reference || float_less(best.bits, reference.bits)
}

impl<T> BestRegister<T> {
    /// The best score held.
    pub closed spec fn best_score(&self) -> FloatBits {
        self.score
    }

    /// The candidate that scored it.
    pub closed spec fn best_candidate(&self) -> T {
        self.candidate
    }

    /// The register after `offers` were made to it in turn.
    pub open spec fn after_offers(self, offers: Seq<(FloatBits, T)>) -> BestRegister<T>
        decreases offers.len(),
    {
        if offers.len() == 0 {
            self
        } else {
            self.after_offers(offers.drop_last()).after_offer(
                offers.last().0,
                offers.last().1,
            )
        }
    }

    /// The register after one offer of `candidate` with `score`.
    pub closed spec fn after_offer(self, score: FloatBits, candidate: T) -> BestRegister<T> {
        if improves(score, self.score) {
            BestRegister { score, candidate }
        } else {
            self
        }
    }

    /// The register after one offer holds the offered pair if its score
    /// improves on the best, and is unchanged otherwise.
    pub proof fn lemma_after_offer(self, score: FloatBits, candidate: T)
        ensures
            #[trigger] self.after_offer(score, candidate) == (if improves(score, self.best_score()) {
                BestRegister::seeded_spec(score, candidate)
            } else {
                self
            }),
    {
    }

    /// The register that holds `candidate` with `score`.
    pub closed spec fn seeded_spec(score: FloatBits, candidate: T) -> BestRegister<T> {
        BestRegister { score, candidate }
    }

    /// A register seeded with `candidate` and its `score`.
    pub fn seeded(score: FloatBits, candidate: T) -> (r: BestRegister<T>)
        ensures
            r == BestRegister::seeded_spec(score, candidate),
            r.best_score() == score,
            r.best_candidate() == candidate,
    {
        BestRegister { score, candidate }
    }

    /// Offers `candidate`, which scored `score`. Both fields are replaced
    /// together if and only if `score` is strictly smaller than the best held;
    /// returns whether they were.
    pub fn offer(&mut self, score: FloatBits, candidate: T) -> (replaced: bool)
        ensures
            replaced == improves(score, old(self).best_score()),
            *final(self) == old(self).after_offer(score, candidate),
            replaced ==> final(self).best_score() == score && final(self).best_candidate()
                == candidate,
            !replaced ==> *final(self) == *old(self),
    {
        if score.less_than(&self.score) {
            self.score = score;
            self.candidate = candidate;
            true
        } else {
            false
        }
    }

    /// The best score held.
    pub fn score(&self) -> (r: FloatBits)
        ensures
            r == self.best_score(),
    {
        self.score
    }

    /// The candidate that scored the best score held.
    pub fn candidate(&self) -> (r: &T)
        ensures
            *r == self.best_candidate(),
    {
        &self.candidate
    }

    /// Ends the register's life, handing out its candidate.
    pub fn into_candidate(self) -> (r: T)
        ensures
            r == self.best_candidate(),
    {
        self.candidate
    }
}

/// One offer never makes the best score worse: it stays, or a strictly
/// smaller one takes its place.
pub proof fn lemma_offer_monotone<T>(reg: BestRegister<T>, score: FloatBits, candidate: T)
    ensures
        no_worse(reg.after_offer(score, candidate).best_score(), reg.best_score()),
{
}

/// Over any sequence of offers the best score is non-increasing: after more
/// offers it is no worse than after a prefix of them.
pub proof fn lemma_offers_monotone<T>(reg: BestRegister<T>, offers: Seq<(FloatBits, T)>, k: int)
    requires
        0 <= k <= offers.len(),
    ensures
        no_worse(
            reg.after_offers(offers).best_score(),
            reg.after_offers(offers.take(k)).best_score(),
        ),
    decreases offers.len(),
{
    if k < offers.len() {
        let prefix = offers.drop_last();
        lemma_offers_monotone(reg, prefix, k);
        assert(prefix.take(k) =~= offers.take(k));
        let mid = reg.after_offers(prefix);
        lemma_offer_monotone(mid, offers.last().0, offers.last().1);
        let a = reg.after_offers(offers).best_score();
        let b = mid.best_score();
        let c = reg.after_offers(offers.take(k)).best_score();
        if a != b && b != c {
            crate::float_bits::lemma_less_transitive(a.bits, b.bits, c.bits);
        }
    } else {
        assert(offers.take(k) =~= offers);
    }
}

/// A register seeded with an archetype's score never ends worse than that
/// score, whatever offers are made to it.
pub proof fn lemma_no_regression<T>(archetype_score: FloatBits, archetype: T, offers: Seq<(FloatBits, T)>)
    ensures
        no_worse(
            BestRegister::seeded_spec(archetype_score, archetype).after_offers(offers).best_score(),
            archetype_score,
        ),
{
    let reg = BestRegister::seeded_spec(archetype_score, archetype);
    lemma_offers_monotone(reg, offers, 0);
    assert(offers.take(0) =~= Seq::<(FloatBits, T)>::empty());
}

/// After any sequence of offers the register holds a pair that was seeded or
/// offered, and no offered score is strictly smaller than the one it holds:
/// the result is the best candidate seen, the first one on equal scores.
pub proof fn lemma_best_of_offers<T>(reg: BestRegister<T>, offers: Seq<(FloatBits, T)>)
    ensures
        forall|i: int|
            0 <= i < offers.len() ==> !improves(
                #[trigger] offers[i].0,
                reg.after_offers(offers).best_score(),
            ),
        reg.after_offers(offers) == reg || exists|i: int|
            0 <= i < offers.len() && reg.after_offers(offers) == BestRegister::seeded_spec(
                #[trigger] offers[i].0,
                offers[i].1,
            ),
    decreases offers.len(),
{
    if offers.len() > 0 {
        let prefix = offers.drop_last();
        lemma_best_of_offers(reg, prefix);
        let mid = reg.after_offers(prefix);
        let last = offers.last();
        let fin = reg.after_offers(offers);
        assert(fin == mid.after_offer(last.0, last.1));
        assert forall|i: int| 0 <= i < offers.len() implies !improves(
            #[trigger] offers[i].0,
            fin.best_score(),
        ) by {
            if i < prefix.len() {
                assert(offers[i] == prefix[i]);
                if fin != mid && improves(offers[i].0, fin.best_score()) {
                    crate::float_bits::lemma_less_transitive(
                        offers[i].0.bits,
                        fin.best_score().bits,
                        mid.best_score().bits,
                    );
                }
            }
        }
        if fin != mid {
            assert(offers[offers.len() - 1] == last);
        } else if mid != reg {
            let i = choose|i: int|
                0 <= i < prefix.len() && mid == BestRegister::seeded_spec(
                    #[trigger] prefix[i].0,
                    prefix[i].1,
                );
            assert(offers[i] == prefix[i]);
        }
    }
}

} // verus!
