//! What the statistics of pairs of kana say of the next stroke.

use vstd::prelude::*;

verus! {

/// How often one kana follows another.
#[derive(Debug, Clone, Copy, PartialEq, Eq, Structural)]
pub struct KanaPair {
    pub first: char,
    pub second: char,
    pub weight: u32,
}

/// Which face a character key is likely meant for.
#[derive(Debug, Clone, Copy, PartialEq, Eq, Structural)]
pub enum Forecast {
    /// The face without a thumb key.
    Plain,
    /// A face with a thumb key.
    Thumb,
    /// Nothing speaks for either.
    Unknown,
}

/// Statistics of pairs of kana, and how far, and between which bounds, they may move the threshold.
/// Where a pair is listed twice the first entry counts.
#[derive(Debug)]
pub struct NgramModel {
    pub adjustment_range_us: u64,
    pub min_threshold_us: u64,
    pub max_threshold_us: u64,
    pub pairs: Vec<KanaPair>,
}

/// Weight of the first entry for the pair; none has the weight zero.
pub open spec fn weight_of(pairs: Seq<KanaPair>, first: char, second: char) -> u32
    decreases pairs.len(),
{
    if pairs.len() == 0 {
        0
    } else if pairs[0].first == first && pairs[0].second == second {
        pairs[0].weight
    } else {
        weight_of(pairs.drop_first(), first, second)
    }
}

impl NgramModel {
    /// A model without statistics.
    #[must_use]
    pub fn new(adjustment_range_us: u64, min_threshold_us: u64, max_threshold_us: u64) -> (r: Self)
        ensures
            r.adjustment_range_us == adjustment_range_us,
            r.min_threshold_us == min_threshold_us,
            r.max_threshold_us == max_threshold_us,
            r.pairs@ == Seq::<KanaPair>::empty(),
    {
        NgramModel { adjustment_range_us, min_threshold_us, max_threshold_us, pairs: Vec::new() }
    }

    /// Adds what is known of a pair.
    pub fn add_pair(&mut self, pair: KanaPair)
        ensures
            final(self).adjustment_range_us == old(self).adjustment_range_us,
            final(self).min_threshold_us == old(self).min_threshold_us,
            final(self).max_threshold_us == old(self).max_threshold_us,
            final(self).pairs@ == old(self).pairs@.push(pair),
    {
        self.pairs.push(pair);
    }

    /// Weight of `second` after `first`, where both are kana.
    pub open spec fn weight_after(self, first: Option<char>, second: Option<char>) -> u32 {
        match (first, second) {
            (Some(a), Some(b)) => weight_of(self.pairs@, a, b),
            _ => 0,
        }
    }

    fn weight(&self, first: Option<char>, second: Option<char>) -> (r: u32)
        ensures
            r == self.weight_after(first, second),
    {
        let (a, b) = match (first, second) {
            (Some(a), Some(b)) => (a, b),
            _ => {
                return 0;
            },
        };
        let mut i: usize = 0;
        assert(self.pairs@.subrange(0, self.pairs@.len() as int) =~= self.pairs@);
        while i < self.pairs.len()
            invariant
                i <= self.pairs@.len(),
                first == Some(a),
                second == Some(b),
                weight_of(self.pairs@, a, b) == weight_of(
                    self.pairs@.subrange(i as int, self.pairs@.len() as int),
                    a,
                    b,
                ),
            decreases self.pairs@.len() - i,
        {
            assert(self.pairs@.subrange(i as int, self.pairs@.len() as int).drop_first()
                =~= self.pairs@.subrange(i + 1, self.pairs@.len() as int));
            let pair = self.pairs[i];
            assert(self.pairs@.subrange(i as int, self.pairs@.len() as int)[0] == pair);
            if pair.first == a && pair.second == b {
                return pair.weight;
            }
            i += 1;
        }
        0
    }

    /// The likelier of the kana that a key has on its faces, after the kana `last`.
    pub open spec fn forecast_spec(
        self,
        last: Option<char>,
        plain: Option<char>,
        left: Option<char>,
        right: Option<char>,
    ) -> Forecast {
        let p = self.weight_after(last, plain);
        let l = self.weight_after(last, left);
        let r = self.weight_after(last, right);
        if l > p || r > p {
            Forecast::Thumb
        } else if p > l && p > r {
            Forecast::Plain
        } else {
            Forecast::Unknown
        }
    }

    #[must_use]
    pub fn forecast(
        &self,
        last: Option<char>,
        plain: Option<char>,
        left: Option<char>,
        right: Option<char>,
    ) -> (f: Forecast)
        ensures
            f == self.forecast_spec(last, plain, left, right),
    {
        let p = self.weight(last, plain);
        let l = self.weight(last, left);
        let r = self.weight(last, right);
        if l > p || r > p {
            Forecast::Thumb
        } else if p > l && p > r {
            Forecast::Plain
        } else {
            Forecast::Unknown
        }
    }

    /// The time between the bounds that is nearest.
    pub open spec fn bounded(self, us: int) -> u64 {
        if us < self.min_threshold_us {
            self.min_threshold_us
        } else if us > self.max_threshold_us {
            self.max_threshold_us
        } else {
            us as u64
        }
    }

    /// The threshold is shorter where no thumb key is likely to come, and longer where one is.
    pub open spec fn window_spec(self, threshold_us: u64, forecast: Forecast) -> u64 {
        match forecast {
            Forecast::Plain => self.bounded(threshold_us - self.adjustment_range_us),
            Forecast::Thumb => self.bounded(threshold_us + self.adjustment_range_us),
            Forecast::Unknown => threshold_us,
        }
    }

    #[must_use]
    pub fn window(&self, threshold_us: u64, forecast: Forecast) -> (us: u64)
        ensures
            us == self.window_spec(threshold_us, forecast),
    {
        let moved: i128 = match forecast {
            Forecast::Plain => threshold_us as i128 - self.adjustment_range_us as i128,
            Forecast::Thumb => threshold_us as i128 + self.adjustment_range_us as i128,
            Forecast::Unknown => {
                return threshold_us;
            },
        };
        if moved < self.min_threshold_us as i128 {
            self.min_threshold_us
        } else if moved > self.max_threshold_us as i128 {
            self.max_threshold_us
        } else {
            moved as u64
        }
    }
}

/// A threshold between the bounds stays there, moves by no more than the range, and moves down where
/// the plain face is likely and up where a thumb face is.
pub proof fn law_window_stays_within_its_bounds(
    model: NgramModel,
    threshold_us: u64,
    forecast: Forecast,
)
    requires
        model.min_threshold_us <= threshold_us <= model.max_threshold_us,
    ensures
        ({
            let window = model.window_spec(threshold_us, forecast);
            &&& model.min_threshold_us <= window <= model.max_threshold_us
            &&& threshold_us - model.adjustment_range_us <= window <= threshold_us
                + model.adjustment_range_us
            &&& forecast is Plain ==> window <= threshold_us
            &&& forecast is Thumb ==> threshold_us <= window
        }),
{
}

/// A window that the bounds allow is the threshold moved by exactly the range: down where the plain
/// face is likely, up where a thumb face is, and not at all where nothing speaks for either.
pub proof fn law_window_moves_by_the_range(model: NgramModel, threshold_us: u64)
    ensures
        model.min_threshold_us <= threshold_us - model.adjustment_range_us
            <= model.max_threshold_us ==> model.window_spec(threshold_us, Forecast::Plain)
            == threshold_us - model.adjustment_range_us,
        model.min_threshold_us <= threshold_us + model.adjustment_range_us
            <= model.max_threshold_us ==> model.window_spec(threshold_us, Forecast::Thumb)
            == threshold_us + model.adjustment_range_us,
        model.window_spec(threshold_us, Forecast::Unknown) == threshold_us,
{
}

/// The plain face is likely exactly where its kana has more weight than those of both thumb faces, and
/// a thumb face exactly where one of its kana has more weight than that of the plain face.
pub proof fn law_heavier_pair_is_likelier(
    model: NgramModel,
    last: Option<char>,
    plain: Option<char>,
    left: Option<char>,
    right: Option<char>,
)
    ensures
        ({
            let f = model.forecast_spec(last, plain, left, right);
            let p = model.weight_after(last, plain);
            let l = model.weight_after(last, left);
            let r = model.weight_after(last, right);
            &&& f is Plain <==> p > l && p > r
            &&& f is Thumb <==> l > p || r > p
            &&& f == model.forecast_spec(last, plain, right, left)
        }),
{
}

/// Of the entries for a pair the first counts, a pair without one has no weight, and without a kana
/// before it or after it there is no pair.
pub proof fn law_first_entry_of_a_pair_counts(
    model: NgramModel,
    before: Seq<KanaPair>,
    pair: KanaPair,
    after: Seq<KanaPair>,
)
    requires
        forall|i: int|
            0 <= i < before.len() ==> (#[trigger] before[i]).first != pair.first || before[i].second
                != pair.second,
    ensures
        weight_of(before.push(pair) + after, pair.first, pair.second) == pair.weight,
        weight_of(before, pair.first, pair.second) == 0,
        model.weight_after(None, Some(pair.second)) == 0,
        model.weight_after(Some(pair.first), None) == 0,
        model.weight_after(Some(pair.first), Some(pair.second)) == weight_of(
            model.pairs@,
            pair.first,
            pair.second,
        ),
    decreases before.len(),
{
    let all = before.push(pair) + after;
    if before.len() == 0 {
        assert(all[0] == pair);
    } else {
        let rest = before.drop_first();
        assert forall|i: int| 0 <= i < rest.len() implies (#[trigger] rest[i]).first != pair.first
            || rest[i].second != pair.second by {
            assert(rest[i] == before[i + 1]);
        }
        law_first_entry_of_a_pair_counts(model, rest, pair, after);
        assert(all[0] == before[0]);
        assert(all.drop_first() =~= rest.push(pair) + after);
    }
}

} // verus!
