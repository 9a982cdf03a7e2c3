use vstd::prelude::*;
use vstd::string::StringExecFns;
use crate::quality_behavior::{QualityBehavior, Rule, TimeSensitiveIncreaseQualityBehaviorThresholds};

verus! {

/// True where `pat` occurs in `s` as a contiguous run.
pub open spec fn contains_spec(s: Seq<char>, pat: Seq<char>) -> bool {
    exists|i: int| 0 <= i && i + pat.len() <= s.len() && #[trigger] s.subrange(i, i + pat.len()) == pat
}

/// The rule of a classic item, chosen from its name; the first category
/// whose marker occurs in the name wins.
pub open spec fn classify(name: Seq<char>) -> Rule {
    if contains_spec(name, "Aged Brie"@) {
        Rule::Increase { rate: 1, min_quality: 0, max_quality: 50 }
    } else if contains_spec(name, "Backstage passes to a TAFKAL80ETC concert"@) {
        Rule::TimeSensitiveIncrease {
            min_quality: 0,
            max_quality: 50,
            thresholds: seq![
                TimeSensitiveIncreaseQualityBehaviorThresholds { days_left: 10, increase_rate: 2 },
                TimeSensitiveIncreaseQualityBehaviorThresholds { days_left: 5, increase_rate: 3 },
            ],
            drop_quality_after: 0,
        }
    } else if contains_spec(name, "Sulfuras, Hand of Ragnaros"@) {
        Rule::Constant
    } else if contains_spec(name, "Conjured"@) {
        Rule::Decrease { rate: 2, min_quality: 0, max_quality: 50 }
    } else {
        Rule::Decrease { rate: 1, min_quality: 0, max_quality: 50 }
    }
}

/// Every rule a classic item can resolve to keeps its bounds in order.
pub proof fn lemma_classified_rule_wf(name: Seq<char>)
    ensures
        classify(name).wf(),
        classify(name).min_bound() == 0 || classify(name) is Constant,
        classify(name).max_bound() == 50 || classify(name) is Constant,
{
}

/// The decimal digits of `n`, most significant first.
pub open spec fn digits(n: nat) -> Seq<char>
    decreases n,
{
    if n < 10 {
        seq!["0123456789"@[n as int]]
    } else {
        digits(n / 10).push("0123456789"@[(n % 10) as int])
    }
}

/// `n` written in decimal, with a leading `-` where it is negative.
pub open spec fn decimal(n: int) -> Seq<char> {
    if n < 0 {
        seq!['-'] + digits((-n) as nat)
    } else {
        digits(n as nat)
    }
}

/// The display line of an item: `"<name>, <sell_in>, <quality>"`.
pub open spec fn display_line(name: Seq<char>, sell_in: int, quality: int) -> Seq<char> {
    name + ", "@ + decimal(sell_in) + ", "@ + decimal(quality)
}

/// Relies on `str::contains` with a `&str` pattern: true exactly when the
/// pattern occurs in the text.
#[verifier::external_body]
fn text_contains(s: &str, pat: &str) -> (r: bool)
    ensures
        r == contains_spec(s@, pat@),
{
    s.contains(pat)
}

/// Relies on `i32::to_string`: the number in decimal.
#[verifier::external_body]
fn decimal_text(n: i32) -> (r: String)
    ensures
        r@ == decimal(n as int),
{
    n.to_string()
}

/// Relies on `SystemTime::now`, read as whole seconds since the Unix epoch
/// (0 where the clock stands before it). Nothing is promised of the value.
#[verifier::external_body]
fn get_unix_timestamp() -> (r: i64) {
    match std::time::SystemTime::now().duration_since(std::time::UNIX_EPOCH) {
        Ok(d) => d.as_secs() as i64,
        Err(_) => 0,
    }
}

/// Something that ages by a rule: it has a quality, a sell-in and a behavior,
/// and one day's update is written once, over these accessors.
pub trait GenericItem: Sized {
    /// The current quality.
    spec fn quality_of(&self) -> int;

    /// The current sell-in.
    spec fn sell_in_of(&self) -> int;

    /// The rule that governs this item.
    spec fn rule_of(&self) -> Rule;

    fn get_behavior(&self) -> (r: QualityBehavior)
        ensures
            r@ == self.rule_of(),
    ;

    fn get_quality(&self) -> (r: i32)
        ensures
            r as int == self.quality_of(),
    ;

    fn set_quality(&mut self, quality: i32)
        ensures
            final(self).quality_of() == quality as int,
            final(self).sell_in_of() == old(self).sell_in_of(),
            final(self).rule_of() == old(self).rule_of(),
    ;

    fn get_sell_in(&self) -> (r: i32)
        ensures
            r as int == self.sell_in_of(),
    ;

    fn set_sell_in(&mut self, sell_in: i32)
        ensures
            final(self).sell_in_of() == sell_in as int,
            final(self).quality_of() == old(self).quality_of(),
            final(self).rule_of() == old(self).rule_of(),
    ;

    /// One day: a constant rule changes nothing; any other writes the new
    /// quality, computed from the sell-in before the day, then counts
    /// sell-in down by one.
    fn update_quality(&mut self)
        requires
            old(self).rule_of().wf(),
            old(self).rule_of() is Constant || old(self).sell_in_of() > i32::MIN,
        ensures
            (final(self).sell_in_of(), final(self).quality_of()) == old(self).rule_of().tick(
                old(self).sell_in_of(),
                old(self).quality_of(),
            ),
            final(self).rule_of() == old(self).rule_of(),
            old(self).rule_of() is Constant ==> *final(self) == *old(self),
    {
        let behavior = self.get_behavior();
        let sell_in = self.get_sell_in();
        let quality = self.get_quality();
        match behavior.next_quality(sell_in, quality) {
            Some(q) => {
                self.set_quality(q);
                self.set_sell_in(sell_in - 1);
            },
            None => {},
        }
    }
}

/// An item whose behavior follows from its name each time it is asked.
pub struct Item {
    pub name: String,
    pub sell_in: i32,
    pub quality: i32,
}

impl Item {
    pub fn new(name: &str, sell_in: i32, quality: i32) -> (r: Item)
        ensures
            r.name@ == name@,
            r.sell_in == sell_in,
            r.quality == quality,
    {
        Item { name: name.to_owned(), sell_in, quality }
    }

    /// The display line `"<name>, <sell_in>, <quality>"`.
    pub fn to_string(&self) -> (r: String)
        ensures
            r@ == display_line(self.name@, self.sell_in as int, self.quality as int),
    {
        render(&self.name, self.sell_in, self.quality)
    }
}

/// Writes `"<name>, <sell_in>, <quality>"`.
fn render(name: &String, sell_in: i32, quality: i32) -> (r: String)
    ensures
        r@ == display_line(name@, sell_in as int, quality as int),
{
    let mut s = name.clone();
    s.append(", ");
    let d = decimal_text(sell_in);
    s.append(d.as_str());
    s.append(", ");
    let e = decimal_text(quality);
    s.append(e.as_str());
    s
}

impl GenericItem for Item {
    open spec fn quality_of(&self) -> int {
        self.quality as int
    }

    open spec fn sell_in_of(&self) -> int {
        self.sell_in as int
    }

    open spec fn rule_of(&self) -> Rule {
        classify(self.name@)
    }

    fn get_behavior(&self) -> (r: QualityBehavior) {
        let name = self.name.as_str();
        if text_contains(name, "Aged Brie") {
            QualityBehavior::standard_increase()
        } else if text_contains(name, "Backstage passes to a TAFKAL80ETC concert") {
            QualityBehavior::backstage_passes_items()
        } else if text_contains(name, "Sulfuras, Hand of Ragnaros") {
            QualityBehavior::Constant
        } else if text_contains(name, "Conjured") {
            QualityBehavior::conjured_items()
        } else {
            QualityBehavior::decrease_default_quality(1)
        }
    }

    fn get_quality(&self) -> (r: i32) {
        self.quality
    }

    fn set_quality(&mut self, quality: i32)
        ensures
            final(self).name == old(self).name,
    {
        self.quality = quality;
    }

    fn get_sell_in(&self) -> (r: i32) {
        self.sell_in
    }

    fn set_sell_in(&mut self, sell_in: i32)
        ensures
            final(self).name == old(self).name,
    {
        self.sell_in = sell_in;
    }
}

/// An item that stores its behavior, and records when its quality was last
/// written.
pub struct ItemV2 {
    pub name: String,
    pub sell_in: i32,
    pub quality: i32,
    pub behavior: QualityBehavior,
    /// Seconds since the Unix epoch at the last write of `quality`.
    pub timestamp: i64,
}

impl ItemV2 {
    pub fn new(name: &str, sell_in: i32, quality: i32, behavior: QualityBehavior) -> (r: ItemV2)
        ensures
            r.name@ == name@,
            r.sell_in == sell_in,
            r.quality == quality,
            r.behavior == behavior,
    {
        ItemV2 { name: name.to_owned(), sell_in, quality, behavior, timestamp: get_unix_timestamp() }
    }

    /// An explicit item with the classic item's name, sell-in and quality, and
    /// the behavior that its name resolves to, fixed from now on.
    pub fn from_item(item: Item) -> (r: ItemV2)
        ensures
            r.name@ == item.name@,
            r.sell_in == item.sell_in,
            r.quality == item.quality,
            r.behavior@ == classify(item.name@),
    {
        let behavior = item.get_behavior();
        ItemV2::new(item.name.as_str(), item.sell_in, item.quality, behavior)
    }

    /// The display line `"<name>, <sell_in>, <quality>"`.
    pub fn to_string(&self) -> (r: String)
        ensures
            r@ == display_line(self.name@, self.sell_in as int, self.quality as int),
    {
        render(&self.name, self.sell_in, self.quality)
    }
}

impl GenericItem for ItemV2 {
    open spec fn quality_of(&self) -> int {
        self.quality as int
    }

    open spec fn sell_in_of(&self) -> int {
        self.sell_in as int
    }

    open spec fn rule_of(&self) -> Rule {
        self.behavior@
    }

    fn get_behavior(&self) -> (r: QualityBehavior) {
        self.behavior.duplicate()
    }

    fn get_quality(&self) -> (r: i32) {
        self.quality
    }

    /// Also refreshes `timestamp` from the clock.
    fn set_quality(&mut self, quality: i32)
        ensures
            final(self).name == old(self).name,
            final(self).behavior == old(self).behavior,
    {
        self.quality = quality;
        self.timestamp = get_unix_timestamp();
    }

    fn get_sell_in(&self) -> (r: i32) {
        self.sell_in
    }

    fn set_sell_in(&mut self, sell_in: i32)
        ensures
            final(self).name == old(self).name,
            final(self).behavior == old(self).behavior,
            final(self).timestamp == old(self).timestamp,
    {
        self.sell_in = sell_in;
    }
}

} // verus!
