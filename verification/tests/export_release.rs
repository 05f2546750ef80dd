use forecast_repo::Coords;
use forecast_repo::Registry;
use forecast_repo::Sun;
use forecast_repo::WxSingle;
use forecast_repo::snapshot::release;

fn plain_coords() -> Coords {
    Coords { lat_bits: 0, lon_bits: 0, x: 0, y: 0 }
}

#[test]
fn export_then_release_zero_locations() {
    let mut reg = Registry::new();
    reg.init("A");
    let snap = reg.export_snapshot("A", 1).expect("record exists");
    assert_eq!(snap.locations.len(), 0);
    assert_eq!(snap.forecast_times.len(), 0);
    assert_eq!(snap.phases.len(), 0);
    release(Some(snap));
}

#[test]
fn export_then_release_one_location_no_suns() {
    let mut reg = Registry::new();
    reg.init("A");
    reg.append_forecast_time("A", 100);
    reg.upsert_location("A", "only", plain_coords(), false);
    let snap = reg.export_snapshot("A", 1).expect("record exists");
    assert_eq!(snap.locations.len(), 1);
    assert_eq!(snap.locations[0].location.suns.len(), 0);
    assert_eq!(snap.locations[0].location.wx.len(), 1);
    release(Some(snap));
}

#[test]
fn export_then_release_many_locations_and_suns() {
    let mut reg = Registry::new();
    reg.init("A");
    reg.append_forecast_time("A", 100);
    reg.append_forecast_time("A", 200);
    reg.upsert_location("A", "bare", plain_coords(), false);
    reg.upsert_location("A", "sunny", plain_coords(), true);
    for day in 1..=5 {
        reg.set_sun_times("A", "sunny", day, Sun { rise: day as u64, set: 2 * day as u64 });
    }
    reg.upsert_location("A", "third", plain_coords(), false);
    reg.import_weather("A", "third", &vec![WxSingle::zero(), WxSingle::zero()]);
    let snap = reg.export_snapshot("A", 1).expect("record exists");
    assert_eq!(snap.locations.len(), 3);
    assert_eq!(snap.locations[0].key, "bare");
    assert_eq!(snap.locations[1].key, "sunny");
    assert_eq!(snap.locations[1].location.suns.len(), 5);
    assert_eq!(snap.locations[2].key, "third");
    release(Some(snap));
}

#[test]
fn release_of_absent_handle_is_no_op() {
    release(None);
}

#[test]
fn export_leaves_registry_usable() {
    let mut reg = Registry::new();
    reg.init("A");
    reg.append_forecast_time("A", 100);
    let first = reg.export_snapshot("A", 1).expect("record exists");
    release(Some(first));
    let second = reg.export_snapshot("A", 2).expect("record still exists");
    assert_eq!(second.forecast_times, vec![100]);
    assert_eq!(second.now, 2);
    release(Some(second));
}
