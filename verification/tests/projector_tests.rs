use vatsim_exporter::projector::{
    count_keys, find_facility_short, online_seconds, pilot_samples, project, AirportCount,
};
use vatsim_exporter::vatsim::{
    Controller, Facility, FlightPlan, FlightRule, Pilot, Prefile, VatsimGeneral, VatsimStatus,
};

fn flight_plan(departure: &str, arrival: &str) -> FlightPlan {
    FlightPlan {
        aircraft: String::from("B738/M-SDE3FGHIM2RWXY/LB1"),
        aircraft_faa: String::from("B738"),
        aircraft_short: String::from("B738"),
        alternative: None,
        altitude: String::from("36000"),
        arrival: String::from(arrival),
        assigned_transponder: String::from("2000"),
        cruise_tas: String::from("450"),
        departure: String::from(departure),
        deptime: String::from("1200"),
        enroute_time: String::from("0500"),
        flight_rules: FlightRule::I,
        fuel_time: String::from("0700"),
        remarks: String::from("/V/"),
        revision_id: 1,
        route: String::from("DCT"),
    }
}

fn pilot(callsign: &str, cid: u32, plan: Option<FlightPlan>) -> Pilot {
    Pilot {
        altitude: 36000,
        callsign: String::from(callsign),
        cid,
        flight_plan: plan,
        groundspeed: 450,
        heading: 270,
        last_updated: String::from("2024-01-02T03:04:05.1234567Z"),
        latitude_bits: 51.5f64.to_bits(),
        logon_time: 1_700_000_000,
        longitude_bits: (-0.45f64).to_bits(),
        name: String::from("Test Pilot"),
        pilot_rating: 1,
        qnh_i_hg_bits: 29.92f64.to_bits(),
        qnh_mb_bits: 1013.0f64.to_bits(),
        server: String::from("SERVER1"),
        transponder: String::from("2000"),
    }
}

fn prefile(callsign: &str, cid: u32, plan: FlightPlan) -> Prefile {
    Prefile {
        callsign: String::from(callsign),
        cid,
        flight_plan: plan,
        last_updated: String::from("2024-01-02T03:04:05.1234567Z"),
        name: String::from("Test Prefiler"),
    }
}

fn controller(callsign: &str, cid: u32, facility: u8, logon_time: i64) -> Controller {
    Controller {
        callsign: String::from(callsign),
        cid,
        facility,
        frequency: String::from("118.500"),
        last_updated: 1_700_000_100,
        logon_time,
        name: String::from("Test Controller"),
        rating: 5,
        server: String::from("SERVER1"),
        text_atis: None,
        visual_range: 50,
    }
}

fn facility(id: u8, short: &str) -> Facility {
    Facility {
        id,
        long: format!("{} (long)", short),
        short: String::from(short),
    }
}

fn snapshot(
    pilots: Vec<Pilot>,
    controllers: Vec<Controller>,
    facilities: Vec<Facility>,
    prefiles: Vec<Prefile>,
) -> VatsimStatus {
    VatsimStatus {
        general: VatsimGeneral {
            connected_clients: (pilots.len() + controllers.len()) as u32,
            reload: 1,
            unique_users: 1000,
            update: String::from("20240102030405"),
            update_timestamp: 1_700_000_200,
            version: 3,
        },
        pilots,
        controllers,
        atis: Vec::new(),
        facilities,
        pilot_ratings: Vec::new(),
        prefiles,
        servers: Vec::new(),
    }
}

fn counts(v: &[AirportCount]) -> Vec<(String, u64)> {
    v.iter().map(|a| (a.icao.clone(), a.count)).collect()
}

#[test]
fn scenario_one_pilot_one_prefile() {
    let s = snapshot(
        vec![pilot("ABC123", 100, Some(flight_plan("KSFO", "KJFK")))],
        Vec::new(),
        Vec::new(),
        vec![prefile("DEF456", 200, flight_plan("", "KJFK"))],
    );
    let u = project(&s, 1_700_000_300);
    assert_eq!(counts(&u.arrivals_online), vec![(String::from("KJFK"), 1)]);
    assert_eq!(counts(&u.arrivals_prefiled), vec![(String::from("KJFK"), 1)]);
    assert_eq!(counts(&u.departures_online), vec![(String::from("KSFO"), 1)]);
    assert_eq!(counts(&u.departures_prefiled), Vec::<(String, u64)>::new());
}

#[test]
fn empty_snapshot_has_no_airport_gauges() {
    let s = snapshot(Vec::new(), Vec::new(), Vec::new(), Vec::new());
    let u = project(&s, 1_700_000_300);
    assert!(u.arrivals_online.is_empty());
    assert!(u.arrivals_prefiled.is_empty());
    assert!(u.departures_online.is_empty());
    assert!(u.departures_prefiled.is_empty());
    assert!(u.controllers.is_empty());
    assert!(u.pilots.is_empty());
}

#[test]
fn arrival_gauges_sum_to_pilots_with_arrival() {
    let s = snapshot(
        vec![
            pilot("A1", 1, Some(flight_plan("EDDF", "KJFK"))),
            pilot("A2", 2, Some(flight_plan("EGLL", "KJFK"))),
            pilot("A3", 3, Some(flight_plan("KJFK", "EGLL"))),
            pilot("A4", 4, Some(flight_plan("EDDF", ""))),
            pilot("A5", 5, None),
        ],
        Vec::new(),
        Vec::new(),
        Vec::new(),
    );
    let u = project(&s, 0);
    let total: u64 = u.arrivals_online.iter().map(|a| a.count).sum();
    assert_eq!(total, 3);
    let dep_total: u64 = u.departures_online.iter().map(|a| a.count).sum();
    assert_eq!(dep_total, 4);
}

#[test]
fn grouping_counts_in_first_occurrence_order() {
    let keys = vec![
        String::from("KJFK"),
        String::from("EGLL"),
        String::from("KJFK"),
        String::from("EDDF"),
        String::from("EGLL"),
        String::from("KJFK"),
    ];
    let grouped = count_keys(&keys);
    assert_eq!(
        counts(&grouped),
        vec![
            (String::from("KJFK"), 3),
            (String::from("EGLL"), 2),
            (String::from("EDDF"), 1),
        ]
    );
}

#[test]
fn icao_codes_compare_case_sensitively() {
    let keys = vec![String::from("kjfk"), String::from("KJFK")];
    let grouped = count_keys(&keys);
    assert_eq!(
        counts(&grouped),
        vec![(String::from("kjfk"), 1), (String::from("KJFK"), 1)]
    );
}

#[test]
fn controller_with_unknown_facility_still_sampled() {
    let s = snapshot(
        Vec::new(),
        vec![
            controller("EGLL_TWR", 300, 4, 1_700_000_000),
            controller("LOST_CTR", 301, 99, 1_700_000_000),
        ],
        vec![facility(4, "TWR"), facility(5, "CTR")],
        Vec::new(),
    );
    let u = project(&s, 1_700_000_060);
    assert_eq!(u.controllers.len(), 2);
    assert_eq!(u.controllers[0].facility, "TWR");
    assert_eq!(u.controllers[0].online_seconds, 60);
    assert_eq!(u.controllers[1].facility, "UNKNOWN");
    assert_eq!(u.controllers[1].callsign, "LOST_CTR");
    assert_eq!(u.controllers[1].cid, 301);
}

#[test]
fn facility_lookup_takes_first_match() {
    let fs = vec![facility(4, "TWR"), facility(4, "APP")];
    assert_eq!(find_facility_short(&fs, 4), "TWR");
    assert_eq!(find_facility_short(&fs, 9), "UNKNOWN");
    assert_eq!(find_facility_short(&Vec::new(), 0), "UNKNOWN");
}

#[test]
fn online_seconds_is_elapsed_time_clamped_at_zero() {
    assert_eq!(online_seconds(1_700_000_060, 1_700_000_000), 60);
    assert_eq!(online_seconds(1_700_000_000, 1_700_000_000), 0);
    assert_eq!(online_seconds(1_700_000_000, 1_700_000_060), 0);
}

#[test]
fn pilot_samples_pass_values_through() {
    let p = pilot("ABC123", 100, None);
    let samples = pilot_samples(&vec![p]);
    assert_eq!(samples.len(), 1);
    assert_eq!(samples[0].callsign, "ABC123");
    assert_eq!(samples[0].cid, 100);
    assert_eq!(samples[0].name, "Test Pilot");
    assert_eq!(samples[0].groundspeed, 450);
    assert_eq!(samples[0].altitude, 36000);
    assert_eq!(samples[0].heading, 270);
    assert_eq!(f64::from_bits(samples[0].latitude_bits), 51.5);
    assert_eq!(f64::from_bits(samples[0].longitude_bits), -0.45);
}
