use vstd::prelude::*;

verus! {

/// One tier of a time-sensitive increase: `increase_rate` applies once the
/// remaining days are at most `days_left`.
#[derive(Clone, Copy, PartialEq, Eq, Structural, Debug)]
pub struct TimeSensitiveIncreaseQualityBehaviorThresholds {
    pub days_left: i32,
    pub increase_rate: i32,
}

/// The rule by which an item's quality and sell-in change each day.
#[derive(Clone, PartialEq, Debug)]
pub enum QualityBehavior {
    /// Nothing ever changes.
    Constant,
    /// Quality falls by `rate` a day, twice as fast once sell-in is not positive.
    Decrease { rate: i32, min_quality: i32, max_quality: i32 },
    /// Quality rises by `rate` a day.
    Increase { rate: i32, min_quality: i32, max_quality: i32 },
    /// Quality rises by the rate of the tightest tier that applies (1 where
    /// none does) and falls to `min_quality` once sell-in is at most
    /// `drop_quality_after`.
    TimeSensitiveIncrease {
        min_quality: i32,
        max_quality: i32,
        thresholds: Vec<TimeSensitiveIncreaseQualityBehaviorThresholds>,
        drop_quality_after: i32,
    },
}

/// Two-sided clamp of `v` into `[lo, hi]`.
pub open spec fn clamp_spec(v: int, lo: int, hi: int) -> int {
    if v < lo {
        lo
    } else if v > hi {
        hi
    } else {
        v
    }
}

/// Clamping lands in the bounds, and clamping again changes nothing.
pub proof fn lemma_clamp_idempotent(v: int, lo: int, hi: int)
    requires
        lo <= hi,
    ensures
        lo <= clamp_spec(v, lo, hi) <= hi,
        clamp_spec(clamp_spec(v, lo, hi), lo, hi) == clamp_spec(v, lo, hi),
{
}

/// The tier that applies at `sell_in`: among the tiers with
/// `sell_in <= days_left`, the first one with the smallest `days_left`.
pub open spec fn tightest_tier(
    ts: Seq<TimeSensitiveIncreaseQualityBehaviorThresholds>,
    sell_in: int,
) -> Option<TimeSensitiveIncreaseQualityBehaviorThresholds>
    decreases ts.len(),
{
    if ts.len() == 0 {
        None
    } else {
        let t = ts.last();
        let rest = tightest_tier(ts.drop_last(), sell_in);
        if sell_in <= t.days_left && (rest is None || t.days_left < rest->Some_0.days_left) {
            Some(t)
        } else {
            rest
        }
    }
}

/// The daily increase of a time-sensitive item at `sell_in`: the rate of the
/// tightest applicable tier, or 1 where no tier applies.
pub open spec fn tier_rate(
    ts: Seq<TimeSensitiveIncreaseQualityBehaviorThresholds>,
    sell_in: int,
) -> int {
    match tightest_tier(ts, sell_in) {
        Some(t) => t.increase_rate as int,
        None => 1,
    }
}


/// The daily increase of a time-sensitive item at `sell_in`, chosen among
/// `thresholds` as `tier_rate` states.
pub fn applicable_increase(
    thresholds: &Vec<TimeSensitiveIncreaseQualityBehaviorThresholds>,
    sell_in: i32,
) -> (r: i32)
    ensures
        r as int == tier_rate(thresholds@, sell_in as int),
{
    let mut best: Option<TimeSensitiveIncreaseQualityBehaviorThresholds> = None;
    let mut i: usize = 0;
    while i < thresholds.len()
        invariant
            i <= thresholds@.len(),
            best == tightest_tier(thresholds@.take(i as int), sell_in as int),
        decreases thresholds@.len() - i,
    {
        let t = thresholds[i];
        assert(thresholds@.take(i + 1).drop_last() =~= thresholds@.take(i as int));
        let closer = match best {
            None => true,
            Some(b) => t.days_left < b.days_left,
        };
        if sell_in <= t.days_left && closer {
            best = Some(t);
        }
        i = i + 1;
    }
    assert(thresholds@.take(i as int) =~= thresholds@);
    match best {
        Some(b) => b.increase_rate,
        None => 1,
    }
}

/// Clamp of `v` into `[lo, hi]`, as `clamp_spec` states.
fn clamp_wide(v: i64, lo: i32, hi: i32) -> (r: i32)
    requires
        lo <= hi,
    ensures
        r as int == clamp_spec(v as int, lo as int, hi as int),
{
    if v < lo as i64 {
        lo
    } else if v > hi as i64 {
        hi
    } else {
        v as i32
    }
}

/// What a behavior is, as mathematics: the same variants with integer
/// parameters and the tiers as a sequence.
pub enum Rule {
    Constant,
    Decrease { rate: int, min_quality: int, max_quality: int },
    Increase { rate: int, min_quality: int, max_quality: int },
    TimeSensitiveIncrease {
        min_quality: int,
        max_quality: int,
        thresholds: Seq<TimeSensitiveIncreaseQualityBehaviorThresholds>,
        drop_quality_after: int,
    },
}

impl Rule {
    /// Every variant that bounds quality has `min_quality <= max_quality`.
    pub open spec fn wf(self) -> bool {
        match self {
            Rule::Constant => true,
            Rule::Decrease { min_quality, max_quality, .. } => min_quality <= max_quality,
            Rule::Increase { min_quality, max_quality, .. } => min_quality <= max_quality,
            Rule::TimeSensitiveIncrease { min_quality, max_quality, .. } => min_quality
                <= max_quality,
        }
    }

    /// The lower quality bound of a bounding variant.
    pub open spec fn min_bound(self) -> int {
        match self {
            Rule::Constant => 0,
            Rule::Decrease { min_quality, .. } => min_quality,
            Rule::Increase { min_quality, .. } => min_quality,
            Rule::TimeSensitiveIncrease { min_quality, .. } => min_quality,
        }
    }

    /// The upper quality bound of a bounding variant.
    pub open spec fn max_bound(self) -> int {
        match self {
            Rule::Constant => 0,
            Rule::Decrease { max_quality, .. } => max_quality,
            Rule::Increase { max_quality, .. } => max_quality,
            Rule::TimeSensitiveIncrease { max_quality, .. } => max_quality,
        }
    }

    /// The quality after one day, given the sell-in and quality before it;
    /// `None` for a constant rule, which changes nothing.
    pub open spec fn next_quality(self, sell_in: int, quality: int) -> Option<int> {
        match self {
            Rule::Constant => None,
            Rule::Decrease { rate, min_quality, max_quality } => {
                let r = if sell_in <= 0 { 2 * rate } else { rate };
                Some(clamp_spec(quality - r, min_quality, max_quality))
            },
            Rule::Increase { rate, min_quality, max_quality } => Some(
                clamp_spec(quality + rate, min_quality, max_quality),
            ),
            Rule::TimeSensitiveIncrease {
                min_quality,
                max_quality,
                thresholds,
                drop_quality_after,
            } => {
                if sell_in <= drop_quality_after {
                    Some(min_quality)
                } else {
                    Some(
                        clamp_spec(
                            quality + tier_rate(thresholds, sell_in),
                            min_quality,
                            max_quality,
                        ),
                    )
                }
            },
        }
    }

    /// Sell-in and quality after one day: a constant rule keeps both, any
    /// other writes the new quality and counts sell-in down by one.
    pub open spec fn tick(self, sell_in: int, quality: int) -> (int, int) {
        match self.next_quality(sell_in, quality) {
            Some(q) => (sell_in - 1, q),
            None => (sell_in, quality),
        }
    }

    /// Sell-in and quality after `n` days.
    pub open spec fn ticks(self, sell_in: int, quality: int, n: nat) -> (int, int)
        decreases n,
    {
        if n == 0 {
            (sell_in, quality)
        } else {
            let (s, q) = self.tick(sell_in, quality);
            self.ticks(s, q, (n - 1) as nat)
        }
    }
}

impl View for QualityBehavior {
    type V = Rule;

    open spec fn view(&self) -> Rule {
        match *self {
            QualityBehavior::Constant => Rule::Constant,
            QualityBehavior::Decrease { rate, min_quality, max_quality } => Rule::Decrease {
                rate: rate as int,
                min_quality: min_quality as int,
                max_quality: max_quality as int,
            },
            QualityBehavior::Increase { rate, min_quality, max_quality } => Rule::Increase {
                rate: rate as int,
                min_quality: min_quality as int,
                max_quality: max_quality as int,
            },
            QualityBehavior::TimeSensitiveIncrease {
                min_quality,
                max_quality,
                thresholds,
                drop_quality_after,
            } => Rule::TimeSensitiveIncrease {
                min_quality: min_quality as int,
                max_quality: max_quality as int,
                thresholds: thresholds@,
                drop_quality_after: drop_quality_after as int,
            },
        }
    }
}

impl QualityBehavior {
    /// A copy of this behavior, with the same view.
    pub fn duplicate(&self) -> (r: QualityBehavior)
        ensures
            r@ == self@,
    {
        match self {
            QualityBehavior::Constant => QualityBehavior::Constant,
            QualityBehavior::Decrease { rate, min_quality, max_quality } => {
                QualityBehavior::Decrease {
                    rate: *rate,
                    min_quality: *min_quality,
                    max_quality: *max_quality,
                }
            },
            QualityBehavior::Increase { rate, min_quality, max_quality } => {
                QualityBehavior::Increase {
                    rate: *rate,
                    min_quality: *min_quality,
                    max_quality: *max_quality,
                }
            },
            QualityBehavior::TimeSensitiveIncrease {
                min_quality,
                max_quality,
                thresholds,
                drop_quality_after,
            } => {
                let mut ts: Vec<TimeSensitiveIncreaseQualityBehaviorThresholds> = Vec::new();
                let mut i: usize = 0;
                while i < thresholds.len()
                    invariant
                        i <= thresholds@.len(),
                        ts@ == thresholds@.take(i as int),
                    decreases thresholds@.len() - i,
                {
                    ts.push(thresholds[i]);
                    i = i + 1;
                    assert(ts@ =~= thresholds@.take(i as int));
                }
                assert(thresholds@.take(i as int) =~= thresholds@);
                QualityBehavior::TimeSensitiveIncrease {
                    min_quality: *min_quality,
                    max_quality: *max_quality,
                    thresholds: ts,
                    drop_quality_after: *drop_quality_after,
                }
            },
        }
    }

    /// The quality after one day, or `None` where the behavior is constant.
    pub fn next_quality(&self, sell_in: i32, quality: i32) -> (r: Option<i32>)
        requires
            self@.wf(),
        ensures
            match r {
                Some(q) => self@.next_quality(sell_in as int, quality as int) == Some(q as int),
                None => self@.next_quality(sell_in as int, quality as int) is None,
            },
    {
        match self {
            QualityBehavior::Constant => None,
            QualityBehavior::Decrease { rate, min_quality, max_quality } => {
                let r: i64 = if sell_in <= 0 { 2 * (*rate as i64) } else { *rate as i64 };
                Some(clamp_wide(quality as i64 - r, *min_quality, *max_quality))
            },
            QualityBehavior::Increase { rate, min_quality, max_quality } => {
                Some(clamp_wide(quality as i64 + *rate as i64, *min_quality, *max_quality))
            },
            QualityBehavior::TimeSensitiveIncrease {
                min_quality,
                max_quality,
                thresholds,
                drop_quality_after,
            } => {
                if sell_in <= *drop_quality_after {
                    Some(*min_quality)
                } else {
                    let inc = applicable_increase(thresholds, sell_in);
                    Some(clamp_wide(quality as i64 + inc as i64, *min_quality, *max_quality))
                }
            },
        }
    }

    /// Quality falls by `rate` a day within `[0, 50]`.
    pub fn decrease_default_quality(rate: i32) -> (r: QualityBehavior)
        ensures
            r@ == (Rule::Decrease { rate: rate as int, min_quality: 0, max_quality: 50 }),
    {
        QualityBehavior::Decrease { rate, min_quality: 0, max_quality: 50 }
    }

    /// Quality rises by `rate` a day within `[0, 50]`.
    pub fn increase_default_quality(rate: i32) -> (r: QualityBehavior)
        ensures
            r@ == (Rule::Increase { rate: rate as int, min_quality: 0, max_quality: 50 }),
    {
        QualityBehavior::Increase { rate, min_quality: 0, max_quality: 50 }
    }

    /// A time-sensitive increase with the given tiers, within `[0, 50]`,
    /// dropping to 0 once sell-in is not positive.
    pub fn new_time_sensitive_default_quality(
        thresholds: Vec<TimeSensitiveIncreaseQualityBehaviorThresholds>,
    ) -> (r: QualityBehavior)
        ensures
            r@ == (Rule::TimeSensitiveIncrease {
                min_quality: 0,
                max_quality: 50,
                thresholds: thresholds@,
                drop_quality_after: 0,
            }),
    {
        QualityBehavior::TimeSensitiveIncrease {
            min_quality: 0,
            max_quality: 50,
            thresholds,
            drop_quality_after: 0,
        }
    }

    /// The behavior of an ordinary item: quality falls by 1 a day.
    pub fn standard_decrease() -> (r: QualityBehavior)
        ensures
            r@ == (Rule::Decrease { rate: 1, min_quality: 0, max_quality: 50 }),
    {
        Self::decrease_default_quality(1)
    }

    /// The behavior of an item that improves with age: quality rises by 1 a day.
    pub fn standard_increase() -> (r: QualityBehavior)
        ensures
            r@ == (Rule::Increase { rate: 1, min_quality: 0, max_quality: 50 }),
    {
        Self::increase_default_quality(1)
    }

    /// The behavior of a conjured item: quality falls by 2 a day.
    pub fn conjured_items() -> (r: QualityBehavior)
        ensures
            r@ == (Rule::Decrease { rate: 2, min_quality: 0, max_quality: 50 }),
    {
        Self::decrease_default_quality(2)
    }

    /// The behavior of a concert pass: +2 a day from 10 days left, +3 from 5
    /// days left, and worthless once the concert is over.
    pub fn backstage_passes_items() -> (r: QualityBehavior)
        ensures
            r@ == (Rule::TimeSensitiveIncrease {
                min_quality: 0,
                max_quality: 50,
                thresholds: seq![
                    TimeSensitiveIncreaseQualityBehaviorThresholds { days_left: 10, increase_rate: 2 },
                    TimeSensitiveIncreaseQualityBehaviorThresholds { days_left: 5, increase_rate: 3 },
                ],
                drop_quality_after: 0,
            }),
    {
        let v = vec![
            TimeSensitiveIncreaseQualityBehaviorThresholds { days_left: 10, increase_rate: 2 },
            TimeSensitiveIncreaseQualityBehaviorThresholds { days_left: 5, increase_rate: 3 },
        ];
        assert(v@ =~= seq![
            TimeSensitiveIncreaseQualityBehaviorThresholds { days_left: 10, increase_rate: 2 },
            TimeSensitiveIncreaseQualityBehaviorThresholds { days_left: 5, increase_rate: 3 },
        ]);
        Self::new_time_sensitive_default_quality(v)
    }
}


/// The tier that `tightest_tier` picks applies at `sell_in`, and no applicable
/// tier has fewer days left; where it picks none, no tier applies.
pub proof fn lemma_tightest_tier_is_tightest(
    ts: Seq<TimeSensitiveIncreaseQualityBehaviorThresholds>,
    sell_in: int,
)
    ensures
        match tightest_tier(ts, sell_in) {
            Some(t) => {
                &&& ts.contains(t)
                &&& sell_in <= t.days_left
                &&& forall|k: int|
                    0 <= k < ts.len() && sell_in <= #[trigger] ts[k].days_left ==> t.days_left
                        <= ts[k].days_left
            },
            None => forall|k: int| 0 <= k < ts.len() ==> sell_in > #[trigger] ts[k].days_left,
        },
    decreases ts.len(),
{
    if ts.len() > 0 {
        let init = ts.drop_last();
        lemma_tightest_tier_is_tightest(init, sell_in);
        assert forall|k: int| 0 <= k < ts.len() - 1 implies #[trigger] ts[k] == init[k] by {}
        if let Some(t) = tightest_tier(init, sell_in) {
            let j = choose|j: int| 0 <= j < init.len() && init[j] == t;
            assert(ts[j] == t);
        }
        assert(ts[ts.len() - 1] == ts.last());
    }
}

/// A constant rule leaves sell-in and quality as they were.
pub proof fn lemma_constant_unchanged(r: Rule, sell_in: int, quality: int)
    requires
        r is Constant,
    ensures
        r.tick(sell_in, quality) == (sell_in, quality),
{
}

/// Any rule but the constant one counts sell-in down by one and leaves the
/// quality within its bounds, whatever the quality was before.
pub proof fn lemma_tick_in_bounds(r: Rule, sell_in: int, quality: int)
    requires
        r.wf(),
        !(r is Constant),
    ensures
        r.tick(sell_in, quality).0 == sell_in - 1,
        r.min_bound() <= r.tick(sell_in, quality).1 <= r.max_bound(),
{
    match r {
        Rule::Decrease { rate, min_quality, max_quality } => {
            let e = if sell_in <= 0 { 2 * rate } else { rate };
            lemma_clamp_idempotent(quality - e, min_quality, max_quality);
        },
        Rule::Increase { rate, min_quality, max_quality } => {
            lemma_clamp_idempotent(quality + rate, min_quality, max_quality);
        },
        Rule::TimeSensitiveIncrease { min_quality, max_quality, thresholds, .. } => {
            lemma_clamp_idempotent(
                quality + tier_rate(thresholds, sell_in),
                min_quality,
                max_quality,
            );
        },
        Rule::Constant => {},
    }
}

/// Over any number of days, a non-constant item's quality stays within the
/// bounds of its rule at every observation: from the first day on, and
/// before it too where it started within them.
pub proof fn lemma_never_out_of_bounds(r: Rule, sell_in: int, quality: int, n: nat)
    requires
        r.wf(),
        !(r is Constant),
        n >= 1 || r.min_bound() <= quality <= r.max_bound(),
    ensures
        r.min_bound() <= r.ticks(sell_in, quality, n).1 <= r.max_bound(),
        r.ticks(sell_in, quality, n).0 == sell_in - n,
    decreases n,
{
    if n > 0 {
        lemma_tick_in_bounds(r, sell_in, quality);
        let (s, q) = r.tick(sell_in, quality);
        lemma_never_out_of_bounds(r, s, q, (n - 1) as nat);
    }
}

/// A constant item keeps its sell-in and quality over any number of days.
pub proof fn lemma_constant_unchanged_forever(r: Rule, sell_in: int, quality: int, n: nat)
    requires
        r is Constant,
    ensures
        r.ticks(sell_in, quality, n) == (sell_in, quality),
    decreases n,
{
    if n > 0 {
        lemma_constant_unchanged_forever(r, sell_in, quality, (n - 1) as nat);
    }
}


/// Under a rule that moves quality by zero, a second day leaves the quality
/// the first day produced: clamping into the bounds twice is clamping once.
pub proof fn lemma_second_clamp_changes_nothing(r: Rule, sell_in: int, quality: int)
    requires
        r.wf(),
        (r matches Rule::Increase { rate, .. } && rate == 0) || (r matches Rule::Decrease {
            rate,
            ..
        } && rate == 0),
    ensures
        r.ticks(sell_in, quality, 2).1 == r.ticks(sell_in, quality, 1).1,
        r.ticks(sell_in, quality, 2).0 == sell_in - 2,
{
    lemma_clamp_idempotent(quality, r.min_bound(), r.max_bound());
    let (s1, q1) = r.tick(sell_in, quality);
    assert(r.ticks(s1, q1, 0) == (s1, q1));
    assert(r.ticks(sell_in, quality, 1) == (s1, q1));
    let (s2, q2) = r.tick(s1, q1);
    assert(r.ticks(s2, q2, 0) == (s2, q2));
    assert(r.ticks(s1, q1, 1) == (s2, q2));
}

} // verus!
