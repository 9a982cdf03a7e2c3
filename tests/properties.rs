use gildedrose::{
    GenericItem, GildedRose, Item, ItemV2, QualityBehavior,
    TimeSensitiveIncreaseQualityBehaviorThresholds,
};
use gildedrose::quality_behavior::applicable_increase;

fn tier(days_left: i32, increase_rate: i32) -> TimeSensitiveIncreaseQualityBehaviorThresholds {
    TimeSensitiveIncreaseQualityBehaviorThresholds { days_left, increase_rate }
}

#[test]
fn clamp_lands_in_bounds_and_stays() {
    let b = QualityBehavior::Increase { rate: 0, min_quality: 3, max_quality: 7 };
    assert_eq!(b.next_quality(5, 100), Some(7));
    assert_eq!(b.next_quality(5, 7), Some(7));
    assert_eq!(b.next_quality(5, -100), Some(3));
    assert_eq!(b.next_quality(5, 3), Some(3));
    assert_eq!(b.next_quality(5, 5), Some(5));
}

#[test]
fn constant_item_keeps_both_fields() {
    let mut item = ItemV2::new("Relic", -5, 1000, QualityBehavior::Constant);
    item.update_quality();
    assert_eq!(item.sell_in, -5);
    assert_eq!(item.quality, 1000);
    assert_eq!(QualityBehavior::Constant.next_quality(0, 0), None);
}

#[test]
fn decrease_doubles_once_sell_in_not_positive() {
    let mut item = ItemV2::new("Bread", 0, 10, QualityBehavior::Decrease { rate: 1, min_quality: 0, max_quality: 50 });
    item.update_quality();
    assert_eq!(item.quality, 8);
    assert_eq!(item.sell_in, -1);
    item.update_quality();
    assert_eq!(item.quality, 6);
    assert_eq!(item.sell_in, -2);
    let mut fresh = ItemV2::new("Bread", 1, 10, QualityBehavior::standard_decrease());
    fresh.update_quality();
    assert_eq!(fresh.quality, 9);
    assert_eq!(fresh.sell_in, 0);
}

#[test]
fn increase_is_capped() {
    let mut item = ItemV2::new("Cheese", 10, 50, QualityBehavior::Increase { rate: 1, min_quality: 0, max_quality: 50 });
    item.update_quality();
    assert_eq!(item.quality, 50);
    assert_eq!(item.sell_in, 9);
}

#[test]
fn tiered_threshold_selection() {
    let b = QualityBehavior::TimeSensitiveIncrease {
        min_quality: 0,
        max_quality: 50,
        thresholds: vec![tier(10, 2), tier(5, 3)],
        drop_quality_after: 0,
    };
    assert_eq!(b.next_quality(10, 20), Some(22));
    assert_eq!(b.next_quality(5, 20), Some(23));
    assert_eq!(b.next_quality(11, 20), Some(21));
    assert_eq!(b.next_quality(0, 45), Some(0));
    assert_eq!(b.next_quality(-3, 45), Some(0));
}

#[test]
fn tightest_tier_wins_whatever_the_order() {
    let ts = vec![tier(5, 3), tier(20, 2), tier(5, 7), tier(1, 9)];
    assert_eq!(applicable_increase(&ts, 4), 3);
    assert_eq!(applicable_increase(&ts, 1), 9);
    assert_eq!(applicable_increase(&ts, 6), 2);
    assert_eq!(applicable_increase(&ts, 21), 1);
    assert_eq!(applicable_increase(&Vec::new(), 0), 1);
}

#[test]
fn conjured_decreases_twice_as_fast() {
    let mut item = Item::new("Conjured", 0, 20);
    item.update_quality();
    assert_eq!(item.quality, 16);
    assert_eq!(item.sell_in, -1);
    let mut cake = Item::new("Conjured Mana Cake", 3, 6);
    cake.update_quality();
    assert_eq!(cake.quality, 4);
    assert_eq!(cake.get_behavior(), QualityBehavior::conjured_items());
}

#[test]
fn classification_follows_priority_order() {
    assert_eq!(Item::new("Conjured Aged Brie", 1, 1).get_behavior(), QualityBehavior::standard_increase());
    assert_eq!(
        Item::new("Conjured Sulfuras, Hand of Ragnaros", 1, 1).get_behavior(),
        QualityBehavior::Constant
    );
    assert_eq!(Item::new("aged brie", 1, 1).get_behavior(), QualityBehavior::standard_decrease());
    assert_eq!(Item::new("", 1, 1).get_behavior(), QualityBehavior::standard_decrease());
}

#[test]
fn quality_never_leaves_bounds_over_many_days() {
    let names = ["Normal Item", "Aged Brie", "Backstage passes to a TAFKAL80ETC concert", "Conjured"];
    let mut items = Vec::new();
    for name in names.iter() {
        items.push(Item::new(name, 15, 200));
        items.push(Item::new(name, 15, -200));
        items.push(Item::new(name, -3, 25));
    }
    let starts: Vec<i32> = items.iter().map(|i| i.sell_in).collect();
    let mut rose = GildedRose::new(items);
    for day in 1..=60 {
        rose.update_quality();
        for (item, start) in rose.items.iter().zip(starts.iter()) {
            assert!(item.quality >= 0 && item.quality <= 50);
            assert_eq!(item.sell_in, start - day);
        }
    }
}

#[test]
fn extreme_values_are_clamped_without_overflow() {
    let b = QualityBehavior::Decrease { rate: i32::MAX, min_quality: i32::MIN, max_quality: i32::MAX };
    assert_eq!(b.next_quality(0, i32::MIN), Some(i32::MIN));
    let c = QualityBehavior::Increase { rate: i32::MAX, min_quality: 0, max_quality: i32::MAX };
    assert_eq!(c.next_quality(0, i32::MAX), Some(i32::MAX));
}

#[test]
fn display_line_with_negative_numbers() {
    let item = Item::new("Elixir", -3, 0);
    assert_eq!(item.to_string(), "Elixir, -3, 0");
    let v2 = ItemV2::new("Elixir of the Mongoose", 5, 7, QualityBehavior::standard_decrease());
    assert_eq!(v2.to_string(), "Elixir of the Mongoose, 5, 7");
}

#[test]
fn explicit_item_from_classic_item() {
    let v2 = ItemV2::from_item(Item::new("Backstage passes to a TAFKAL80ETC concert", 4, 10));
    assert_eq!(v2.name, "Backstage passes to a TAFKAL80ETC concert");
    assert_eq!(v2.sell_in, 4);
    assert_eq!(v2.quality, 10);
    assert_eq!(v2.behavior, QualityBehavior::backstage_passes_items());
    assert_eq!(v2.get_behavior(), QualityBehavior::backstage_passes_items());
}

#[test]
fn quality_write_refreshes_timestamp() {
    let mut item = ItemV2::new("Bread", 3, 10, QualityBehavior::standard_decrease());
    let before = item.timestamp;
    item.set_quality(4);
    assert_eq!(item.quality, 4);
    assert!(item.timestamp >= before);
    assert!(item.timestamp > 0);
}

#[test]
fn default_constructors() {
    assert_eq!(
        QualityBehavior::decrease_default_quality(3),
        QualityBehavior::Decrease { rate: 3, min_quality: 0, max_quality: 50 }
    );
    assert_eq!(
        QualityBehavior::increase_default_quality(4),
        QualityBehavior::Increase { rate: 4, min_quality: 0, max_quality: 50 }
    );
    assert_eq!(
        QualityBehavior::backstage_passes_items(),
        QualityBehavior::TimeSensitiveIncrease {
            min_quality: 0,
            max_quality: 50,
            thresholds: vec![tier(10, 2), tier(5, 3)],
            drop_quality_after: 0,
        }
    );
}

#[test]
fn empty_shop_updates() {
    let mut rose: GildedRose<Item> = GildedRose::new(Vec::new());
    rose.update_quality();
    assert!(rose.items.is_empty());
}

#[test]
fn constant_item_keeps_its_timestamp() {
    let mut item = ItemV2::new("Relic", 3, 80, QualityBehavior::Constant);
    item.timestamp = 7;
    item.update_quality();
    assert_eq!(item.timestamp, 7);
    assert_eq!(item.name, "Relic");
    assert_eq!((item.sell_in, item.quality), (3, 80));
}

#[test]
fn sell_in_write_keeps_name_and_timestamp() {
    let mut item = ItemV2::new("Bread", 3, 10, QualityBehavior::standard_decrease());
    item.timestamp = 7;
    item.set_sell_in(-4);
    assert_eq!(item.sell_in, -4);
    assert_eq!(item.timestamp, 7);
    assert_eq!(item.name, "Bread");
    assert_eq!(item.quality, 10);
    item.set_quality(2);
    assert_eq!(item.name, "Bread");
    assert_eq!(item.behavior, QualityBehavior::standard_decrease());
    assert!(item.timestamp > 7);
}

#[test]
fn zero_rate_second_day_keeps_quality() {
    let mut item = ItemV2::new("Stone", 5, 90, QualityBehavior::Increase { rate: 0, min_quality: 10, max_quality: 40 });
    item.update_quality();
    assert_eq!((item.sell_in, item.quality), (4, 40));
    item.update_quality();
    assert_eq!((item.sell_in, item.quality), (3, 40));
}
