use forecast_repo::Coords;
use forecast_repo::LunarPhase;
use forecast_repo::Registry;
use forecast_repo::Sun;
use forecast_repo::WxSingle;
use forecast_repo::snapshot::release;

fn zero_sample() -> WxSingle {
    WxSingle::zero()
}

fn sample_with_temp(temperature: i16) -> WxSingle {
    let mut s = WxSingle::zero();
    s.temperature = temperature;
    s
}

fn coords(x: u16, y: u16) -> Coords {
    Coords {
        lat_bits: 1.0f64.to_bits(),
        lon_bits: 2.0f64.to_bits(),
        x,
        y,
    }
}

#[test]
fn scenario_two_times_one_location() {
    let mut reg = Registry::new();
    reg.init("A");
    reg.append_forecast_time("A", 100);
    reg.append_forecast_time("A", 200);
    reg.upsert_location("A", "X", coords(0, 0), false);
    let snap = reg.export_snapshot("A", 7).expect("record exists");
    assert_eq!(snap.forecast_times, vec![100, 200]);
    assert_eq!(snap.locations.len(), 1);
    assert_eq!(snap.locations[0].key, "X");
    assert_eq!(snap.locations[0].location.wx.len(), 2);
    assert!(!snap.locations[0].location.is_city);
    assert_eq!(snap.now, 7);
    release(Some(snap));
}

#[test]
fn mutation_on_unknown_id_is_silent_no_op() {
    let mut reg = Registry::new();
    reg.init("known");
    reg.append_forecast_time("ghost", 5);
    reg.upsert_location("ghost", "X", coords(0, 0), true);
    reg.set_lunar_phase("ghost", 3, LunarPhase::New);
    reg.import_weather("ghost", "X", &vec![]);
    reg.destroy("ghost");
    assert!(!reg.contains("ghost"));
    assert!(reg.contains("known"));
    assert_eq!(reg.times_len("ghost"), None);
    assert!(reg.export_snapshot("ghost", 0).is_none());
}

#[test]
fn init_replaces_existing_record() {
    let mut reg = Registry::new();
    reg.init("A");
    reg.append_forecast_time("A", 100);
    assert_eq!(reg.times_len("A"), Some(1));
    reg.init("A");
    assert_eq!(reg.times_len("A"), Some(0));
}

#[test]
fn destroy_is_idempotent() {
    let mut reg = Registry::new();
    reg.init("A");
    reg.destroy("A");
    assert!(!reg.contains("A"));
    reg.destroy("A");
    assert!(!reg.contains("A"));
}

#[test]
fn append_keeps_every_series_aligned() {
    let mut reg = Registry::new();
    reg.init("A");
    reg.upsert_location("A", "X", coords(1, 1), false);
    reg.upsert_location("A", "Y", coords(2, 2), true);
    for (step, t) in [10u64, 20, 30].iter().enumerate() {
        reg.append_forecast_time("A", *t);
        let snap = reg.export_snapshot("A", 0).expect("record exists");
        assert_eq!(snap.forecast_times.len(), step + 1);
        for l in &snap.locations {
            assert_eq!(l.location.wx.len(), snap.forecast_times.len());
        }
        release(Some(snap));
    }
}

#[test]
fn location_created_on_append_starts_with_aligned_zero_series() {
    let mut reg = Registry::new();
    reg.init("A");
    reg.append_forecast_time("A", 100);
    reg.append_forecast_time("A", 200);
    reg.upsert_location("A", "X", coords(0, 0), true);
    let snap = reg.export_snapshot("A", 0).expect("record exists");
    assert_eq!(snap.locations[0].location.wx.len(), 2);
    assert_eq!(snap.locations[0].location.wx[0], zero_sample());
    assert_eq!(snap.locations[0].location.wx[1], zero_sample());
    assert!(snap.locations[0].location.is_city);
    release(Some(snap));
}

#[test]
fn upsert_overwrites_coords_and_keeps_data() {
    let mut reg = Registry::new();
    reg.init("A");
    reg.append_forecast_time("A", 100);
    reg.upsert_location("A", "X", coords(1, 2), false);
    reg.set_sun_times("A", "X", 4, Sun { rise: 11, set: 22 });
    reg.set_weather_at("A", "X", 0, &sample_with_temp(-7));
    reg.upsert_location("A", "X", coords(9, 9), true);
    let snap = reg.export_snapshot("A", 0).expect("record exists");
    assert_eq!(snap.locations.len(), 1);
    assert_eq!(snap.locations[0].location.coords.x, 9);
    assert!(snap.locations[0].location.is_city);
    assert_eq!(snap.locations[0].location.suns.len(), 1);
    assert_eq!(snap.locations[0].location.suns[0].day, 4);
    assert_eq!(snap.locations[0].location.suns[0].sun, Sun { rise: 11, set: 22 });
    assert_eq!(snap.locations[0].location.wx[0].temperature, -7);
    release(Some(snap));
}

#[test]
fn sun_entries_sorted_by_day_and_overwritten() {
    let mut reg = Registry::new();
    reg.init("A");
    reg.upsert_location("A", "X", coords(0, 0), false);
    reg.set_sun_times("A", "X", 20, Sun { rise: 1, set: 2 });
    reg.set_sun_times("A", "X", 3, Sun { rise: 3, set: 4 });
    reg.set_sun_times("A", "X", 11, Sun { rise: 5, set: 6 });
    reg.set_sun_times("A", "X", 3, Sun { rise: 7, set: 8 });
    let snap = reg.export_snapshot("A", 0).expect("record exists");
    let suns = &snap.locations[0].location.suns;
    assert_eq!(suns.len(), 3);
    assert_eq!(suns[0].day, 3);
    assert_eq!(suns[0].sun, Sun { rise: 7, set: 8 });
    assert_eq!(suns[1].day, 11);
    assert_eq!(suns[2].day, 20);
    release(Some(snap));
}

#[test]
fn lunar_phases_sorted_by_day_and_overwritten() {
    let mut reg = Registry::new();
    reg.init("A");
    reg.set_lunar_phase("A", 12, LunarPhase::BlueMoon);
    reg.set_lunar_phase("A", 3, LunarPhase::New);
    reg.set_lunar_phase("A", 12, LunarPhase::WolfMoon);
    let snap = reg.export_snapshot("A", 0).expect("record exists");
    assert_eq!(snap.phases.len(), 2);
    assert_eq!(snap.phases[0].day, 3);
    assert_eq!(snap.phases[0].phase, LunarPhase::New.encode());
    assert_eq!(snap.phases[1].day, 12);
    assert_eq!(snap.phases[1].phase, LunarPhase::WolfMoon.encode());
    release(Some(snap));
}

#[test]
fn set_weather_at_writes_one_slot() {
    let mut reg = Registry::new();
    reg.init("A");
    reg.append_forecast_time("A", 100);
    reg.append_forecast_time("A", 200);
    reg.upsert_location("A", "X", coords(0, 0), false);
    reg.set_weather_at("A", "X", 1, &sample_with_temp(31));
    let snap = reg.export_snapshot("A", 0).expect("record exists");
    assert_eq!(snap.locations[0].location.wx[0], zero_sample());
    assert_eq!(snap.locations[0].location.wx[1].temperature, 31);
    release(Some(snap));
}

#[test]
fn import_weather_writes_positionally_and_keeps_tail() {
    let mut reg = Registry::new();
    reg.init("A");
    reg.append_forecast_time("A", 100);
    reg.append_forecast_time("A", 200);
    reg.append_forecast_time("A", 300);
    reg.upsert_location("A", "X", coords(0, 0), false);
    reg.set_weather_at("A", "X", 2, &sample_with_temp(99));
    reg.import_weather("A", "X", &vec![sample_with_temp(1), sample_with_temp(2)]);
    let snap = reg.export_snapshot("A", 0).expect("record exists");
    let wx = &snap.locations[0].location.wx;
    assert_eq!(wx[0].temperature, 1);
    assert_eq!(wx[1].temperature, 2);
    assert_eq!(wx[2].temperature, 99);
    release(Some(snap));
}

#[test]
fn import_location_takes_everything_at_once() {
    let mut reg = Registry::new();
    reg.init("A");
    reg.append_forecast_time("A", 100);
    reg.append_forecast_time("A", 200);
    let suns = vec![(2, Sun { rise: 5, set: 6 }), (1, Sun { rise: 7, set: 8 })];
    let samples = vec![sample_with_temp(10), sample_with_temp(20)];
    reg.import_location("A", "X", coords(3, 4), true, &suns, &samples);
    let snap = reg.export_snapshot("A", 0).expect("record exists");
    let loc = &snap.locations[0].location;
    assert!(loc.is_city);
    assert_eq!(loc.coords.x, 3);
    assert_eq!(loc.suns.len(), 2);
    assert_eq!(loc.suns[0].day, 1);
    assert_eq!(loc.suns[1].day, 2);
    assert_eq!(loc.wx[0].temperature, 10);
    assert_eq!(loc.wx[1].temperature, 20);
    release(Some(snap));
}

#[test]
fn export_preserves_raw_float_bits_and_pressure() {
    let mut reg = Registry::new();
    reg.init("A");
    reg.append_forecast_time("A", 100);
    let mut s = WxSingle::zero();
    s.precip_rate_bits = 0.25f64.to_bits();
    s.pressure_micro = 29_921_234;
    s.precip_type = 6;
    reg.import_location("A", "X", coords(0, 0), false, &vec![], &vec![s]);
    let snap = reg.export_snapshot("A", 0).expect("record exists");
    let got = snap.locations[0].location.wx[0];
    assert_eq!(f64::from_bits(got.precip_rate_bits), 0.25);
    assert_eq!(got.pressure_micro, 29_921_234);
    assert_eq!(got.precip_type, 6);
    release(Some(snap));
}
