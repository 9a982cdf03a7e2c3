//! Daily aging of inventory items: each item's quality and sell-in move by
//! the rule of its category, once per simulated day.
pub mod gilded_rose;
pub mod item;
pub mod quality_behavior;

pub use gilded_rose::GildedRose;
pub use item::{GenericItem, Item, ItemV2};
pub use quality_behavior::{QualityBehavior, Rule, TimeSensitiveIncreaseQualityBehaviorThresholds};
