use braess_experiments::event_extraction::{
    LinkEnterEvent, LinkToPathMap, TravelTimeAndSumDepPerPathCSVWriter, VehicleEntersTrafficEvent,
    VehicleLeavesTrafficEvent, VehicleStatus,
};
use braess_experiments::trip_tables::{trip_tables, TravelTimeSum, TripTables};

fn braess_writer() -> TravelTimeAndSumDepPerPathCSVWriter {
    TravelTimeAndSumDepPerPathCSVWriter::new(
        LinkToPathMap::named("braess").unwrap(),
        "out/tt.csv",
        "out/sd.csv",
        1,
    )
}

fn trip(w: &mut TravelTimeAndSumDepPerPathCSVWriter, vehicle: u64, dep: u64, links: &[&str], arr: u64) {
    w.on_vet(&VehicleEntersTrafficEvent { time: dep, vehicle });
    for (i, link) in links.iter().enumerate() {
        w.on_entered_link(&LinkEnterEvent { time: dep + 1 + i as u64, link: link.to_string(), vehicle });
    }
    w.on_vlt(&VehicleLeavesTrafficEvent { time: arr, vehicle });
}

fn tt(count: usize, total: u128) -> TravelTimeSum {
    TravelTimeSum { count, total }
}

#[test]
fn named_map_is_case_insensitive() {
    let m = LinkToPathMap::named("BRAESS").unwrap();
    assert_eq!(m.path_of("3_5"), Some(0));
    assert_eq!(m.path_of("3_4"), Some(1));
    assert_eq!(m.path_of("2_4"), Some(2));
    assert_eq!(m.path_of("1_2"), None);
    assert!(LinkToPathMap::named("Braess").is_ok());
}

#[test]
fn unknown_named_map_is_an_error() {
    let e = LinkToPathMap::named("sioux").err().unwrap();
    assert_eq!(e.message(), "No link to path map with name sioux implemented");
}

#[test]
fn writer_keeps_paths_and_beta() {
    let w = TravelTimeAndSumDepPerPathCSVWriter::new(
        LinkToPathMap::named("braess").unwrap(),
        "a/tt.csv",
        "b/sd.csv",
        3,
    );
    assert_eq!(w.tt_output_csv_path(), "a/tt.csv");
    assert_eq!(w.sd_output_csv_path(), "b/sd.csv");
    assert_eq!(w.beta(), 3);
    assert_eq!(w.path_of_link("2_4"), Some(2));
    assert_eq!(w.status_of(7), None);
}

#[test]
fn vehicle_status_follows_the_events() {
    let mut w = braess_writer();
    w.on_vet(&VehicleEntersTrafficEvent { time: 10, vehicle: 4 });
    assert_eq!(w.status_of(4), Some(VehicleStatus::HasDeparted(10)));
    w.on_entered_link(&LinkEnterEvent { time: 11, link: "1_2".to_string(), vehicle: 4 });
    assert_eq!(w.status_of(4), Some(VehicleStatus::HasDeparted(10)));
    w.on_entered_link(&LinkEnterEvent { time: 12, link: "3_4".to_string(), vehicle: 4 });
    assert_eq!(w.status_of(4), Some(VehicleStatus::IsOnPath(1, 10)));
    w.on_entered_link(&LinkEnterEvent { time: 13, link: "3_4".to_string(), vehicle: 4 });
    assert_eq!(w.status_of(4), Some(VehicleStatus::IsOnPath(1, 10)));
    w.on_vlt(&VehicleLeavesTrafficEvent { time: 40, vehicle: 4 });
    assert_eq!(w.status_of(4), Some(VehicleStatus::HasArrived(1, 10, 30)));
    w.on_entered_link(&LinkEnterEvent { time: 41, link: "1_2".to_string(), vehicle: 4 });
    assert_eq!(w.status_of(4), Some(VehicleStatus::HasArrived(1, 10, 30)));
    assert_eq!(w.status_of(5), None);
}

#[test]
fn travel_time_saturates_at_zero() {
    let mut w = braess_writer();
    trip(&mut w, 1, 50, &["3_5"], 20);
    assert_eq!(w.status_of(1), Some(VehicleStatus::HasArrived(0, 50, 0)));
}

#[test]
fn tt_per_path_tables_for_braess_trips() {
    let mut w = braess_writer();
    trip(&mut w, 0, 0, &["1_2", "3_4", "4_5"], 25);
    trip(&mut w, 1, 1, &["1_2", "3_4", "4_5"], 28);
    trip(&mut w, 2, 2, &["1_2", "3_4", "4_5"], 31);
    trip(&mut w, 3, 3, &["1_2", "3_4", "4_5"], 34);
    trip(&mut w, 16, 16, &["1_2", "2_4", "4_5"], 72);
    trip(&mut w, 28, 28, &["1_2", "3_5"], 95);
    // departed but never arrived: left out
    w.on_vet(&VehicleEntersTrafficEvent { time: 40, vehicle: 40 });
    w.on_vet(&VehicleEntersTrafficEvent { time: 41, vehicle: 41 });
    w.on_entered_link(&LinkEnterEvent { time: 42, link: "3_4".to_string(), vehicle: 41 });

    let t = w.on_finish();
    assert_eq!(t.path_indices, vec![0, 1, 2]);
    let times: Vec<u64> = t.travel_times.iter().map(|r| r.departure_time).collect();
    assert_eq!(times, vec![0, 1, 2, 3, 16, 28]);
    let expected_tt = [
        (vec![tt(0, 0), tt(1, 25), tt(0, 0)], tt(1, 25)),
        (vec![tt(0, 0), tt(1, 27), tt(0, 0)], tt(1, 27)),
        (vec![tt(0, 0), tt(1, 29), tt(0, 0)], tt(1, 29)),
        (vec![tt(0, 0), tt(1, 31), tt(0, 0)], tt(1, 31)),
        (vec![tt(0, 0), tt(0, 0), tt(1, 56)], tt(1, 56)),
        (vec![tt(1, 67), tt(0, 0), tt(0, 0)], tt(1, 67)),
    ];
    for (row, (per_path, all)) in t.travel_times.iter().zip(expected_tt.iter()) {
        assert_eq!(&row.per_path, per_path);
        assert_eq!(&row.all_paths, all);
    }
    let expected_sd = [
        vec![0, 1, 0],
        vec![0, 2, 0],
        vec![0, 3, 0],
        vec![0, 4, 0],
        vec![0, 4, 1],
        vec![1, 4, 1],
    ];
    assert_eq!(t.summed_departures.len(), 6);
    for (i, row) in t.summed_departures.iter().enumerate() {
        assert_eq!(row.departure_time, times[i]);
        assert_eq!(row.per_path, expected_sd[i]);
    }
}

#[test]
fn tables_of_no_trips_are_empty() {
    let w = braess_writer();
    let t = w.on_finish();
    assert_eq!(t.path_indices, vec![0, 1, 2]);
    assert!(t.travel_times.is_empty());
    assert!(t.summed_departures.is_empty());
}

#[test]
fn trips_with_the_same_departure_share_a_row() {
    let recs = vec![(1usize, 5u64, 10u64), (0, 5, 20), (1, 5, 30), (1, 2, 7)];
    let t: TripTables = trip_tables(&recs, &vec![0, 1]);
    assert_eq!(t.travel_times.len(), 2);
    assert_eq!(t.travel_times[0].departure_time, 2);
    assert_eq!(t.travel_times[0].per_path, vec![tt(0, 0), tt(1, 7)]);
    assert_eq!(t.travel_times[0].all_paths, tt(1, 7));
    assert_eq!(t.travel_times[1].departure_time, 5);
    assert_eq!(t.travel_times[1].per_path, vec![tt(1, 20), tt(2, 40)]);
    assert_eq!(t.travel_times[1].all_paths, tt(3, 60));
    assert_eq!(t.summed_departures[0].per_path, vec![0, 1]);
    assert_eq!(t.summed_departures[1].per_path, vec![1, 3]);
}

#[test]
fn trip_tables_do_not_depend_on_the_order_of_trips() {
    let a = vec![(1usize, 5u64, 10u64), (0, 5, 20), (1, 5, 30), (1, 2, 7)];
    let b = vec![(1usize, 2u64, 7u64), (1, 5, 30), (0, 5, 20), (1, 5, 10)];
    assert_eq!(trip_tables(&a, &vec![0, 1]), trip_tables(&b, &vec![0, 1]));
}

#[test]
fn trip_on_an_unlisted_path_counts_only_over_all_paths() {
    let recs = vec![(7usize, 1u64, 4u64), (0, 1, 6)];
    let t = trip_tables(&recs, &vec![0]);
    assert_eq!(t.travel_times[0].per_path, vec![tt(1, 6)]);
    assert_eq!(t.travel_times[0].all_paths, tt(2, 10));
    assert_eq!(t.summed_departures[0].per_path, vec![1]);
}

#[test]
fn checks_report_the_conflicting_status() {
    let mut w = braess_writer();
    let enter = VehicleEntersTrafficEvent { time: 3, vehicle: 9 };
    let leave = VehicleLeavesTrafficEvent { time: 8, vehicle: 9 };
    let top = LinkEnterEvent { time: 4, link: "3_5".to_string(), vehicle: 9 };
    let middle = LinkEnterEvent { time: 5, link: "3_4".to_string(), vehicle: 9 };
    let plain = LinkEnterEvent { time: 5, link: "1_2".to_string(), vehicle: 9 };
    assert_eq!(w.check_vet(&enter), Ok(()));
    assert_eq!(w.check_vlt(&leave), Err(None));
    assert_eq!(w.check_entered_link(&top), Err(None));
    assert_eq!(w.check_entered_link(&plain), Ok(()));
    w.on_vet(&enter);
    assert_eq!(w.check_vet(&enter), Err(Some(VehicleStatus::HasDeparted(3))));
    assert_eq!(w.check_vlt(&leave), Err(Some(VehicleStatus::HasDeparted(3))));
    assert_eq!(w.check_entered_link(&top), Ok(()));
    w.on_entered_link(&top);
    assert_eq!(w.check_entered_link(&top), Ok(()));
    assert_eq!(w.check_entered_link(&middle), Err(Some(VehicleStatus::IsOnPath(0, 3))));
    assert_eq!(w.check_vlt(&leave), Ok(()));
    w.on_vlt(&leave);
    assert_eq!(w.check_vlt(&leave), Err(Some(VehicleStatus::HasArrived(0, 3, 5))));
    assert_eq!(w.check_entered_link(&top), Err(Some(VehicleStatus::HasArrived(0, 3, 5))));
    assert_eq!(w.check_entered_link(&plain), Ok(()));
}

#[test]
fn vehicles_that_did_not_arrive_are_listed() {
    let mut w = braess_writer();
    trip(&mut w, 1, 0, &["3_4"], 10);
    w.on_vet(&VehicleEntersTrafficEvent { time: 2, vehicle: 2 });
    w.on_vet(&VehicleEntersTrafficEvent { time: 3, vehicle: 3 });
    w.on_entered_link(&LinkEnterEvent { time: 4, link: "2_4".to_string(), vehicle: 3 });
    let mut pending = w.vehicles_not_arrived();
    pending.sort_by_key(|(v, _)| *v);
    assert_eq!(pending, vec![(2, VehicleStatus::HasDeparted(2)), (3, VehicleStatus::IsOnPath(2, 3))]);
}

#[test]
fn vehicles_that_never_arrive_leave_the_tables_unchanged() {
    let mut w1 = braess_writer();
    let mut w2 = braess_writer();
    for w in [&mut w1, &mut w2] {
        trip(w, 0, 0, &["3_4"], 25);
        trip(w, 16, 16, &["2_4"], 72);
    }
    w2.on_vet(&VehicleEntersTrafficEvent { time: 5, vehicle: 50 });
    w2.on_vet(&VehicleEntersTrafficEvent { time: 6, vehicle: 51 });
    w2.on_entered_link(&LinkEnterEvent { time: 7, link: "3_5".to_string(), vehicle: 51 });
    assert_eq!(w1.on_finish(), w2.on_finish());
}
