//! An in-memory weather-forecast dataset: a registry of forecast records,
//! each holding a forecast-time axis, per-location weather series and sun
//! times, and a lunar-phase table, together with the codec types those
//! records use and a flat snapshot form for handing a record across an
//! ownership boundary.

pub mod day_key;
pub mod day_map;
pub mod forecast;
pub mod location;
pub mod lunar_phase;
pub mod moon_phase;
pub mod precipitation;
pub mod pressure;
pub mod registry;
pub mod sample;
pub mod snapshot;
pub mod sun;
pub mod text;
pub mod wx;

pub use day_key::day_key;
pub use day_key::lemma_day_key_order;
pub use day_key::lex_lt;
pub use day_key::spec_day_key;
pub use day_map::day_sorted;
pub use day_map::day_upsert;
pub use day_map::lemma_day_upsert_lookup;
pub use day_map::spec_day_lookup;
pub use day_map::spec_day_upsert;
pub use forecast::Forecast;
pub use forecast::ForecastView;
pub use forecast::LocationEntry;
pub use forecast::lemma_append_time_alignment;
pub use forecast::lemma_loc_idx;
pub use location::Location;
pub use location::LocationView;
pub use lunar_phase::LunarPhase;
pub use lunar_phase::PhaseError;
pub use lunar_phase::lemma_lunar_code_round_trip;
pub use lunar_phase::lemma_lunar_label_round_trip;
pub use moon_phase::MoonPhase;
pub use moon_phase::lemma_moon_code_round_trip;
pub use moon_phase::lemma_moon_label_round_trip;
pub use precipitation::FREEZING_RAIN_BIT;
pub use precipitation::PrecipitationType;
pub use precipitation::RAIN_BIT;
pub use precipitation::SNOW_BIT;
pub use precipitation::lemma_precip_label_round_trip;
pub use pressure::InHg;
pub use pressure::u64_decimal;
pub use registry::Registry;
pub use sample::Coords;
pub use sample::WxSingle;
pub use snapshot::LabeledLunarPhase;
pub use snapshot::LabeledSun;
pub use snapshot::location_matches;
pub use snapshot::release;
pub use snapshot::snapshot_matches;
pub use sun::Sun;
pub use text::str_eq;
pub use wx::Wx;
