use snowprint::{
    compose_snowprint, decompose_snowprint, Error, Snowprint, SnowprintSettings,
};

fn settings(base: u64, modulo: u64) -> SnowprintSettings {
    SnowprintSettings {
        origin_timestamp_ms: 0,
        logical_volume_modulo: modulo,
        logical_volume_base: base,
    }
}

#[test]
fn compose_packs_fields_into_fixed_layout() {
    assert_eq!(compose_snowprint(0, 0, 0), 0);
    assert_eq!(compose_snowprint(1, 0, 0), 1u64 << 23);
    assert_eq!(compose_snowprint(0, 1, 0), 1u64 << 10);
    assert_eq!(compose_snowprint(0, 0, 1), 1);
    assert_eq!(compose_snowprint(1, 2, 3), (1u64 << 23) | (2u64 << 10) | 3);
    assert_eq!(
        compose_snowprint((1u64 << 41) - 1, (1u64 << 13) - 1, (1u64 << 10) - 1),
        u64::MAX
    );
}

#[test]
fn decompose_recovers_each_field() {
    let id: u64 = (987_654u64 << 23) | (8_191u64 << 10) | 1_023;
    assert_eq!(decompose_snowprint(id), (987_654, 8_191, 1_023));
    assert_eq!(decompose_snowprint(0), (0, 0, 0));
    assert_eq!(
        decompose_snowprint(u64::MAX),
        ((1u64 << 41) - 1, (1u64 << 13) - 1, (1u64 << 10) - 1)
    );
}

#[test]
fn round_trip_holds_on_sample_fields() {
    let samples: Vec<(u64, u64, u64)> = vec![
        (0, 0, 0),
        (1, 1, 1),
        (123_456_789, 4_095, 512),
        ((1u64 << 41) - 1, 0, 1_023),
        (0, (1u64 << 13) - 1, 0),
    ];
    for (ms, shard, seq) in samples {
        assert_eq!(decompose_snowprint(compose_snowprint(ms, shard, seq)), (ms, shard, seq));
    }
}

#[test]
fn zero_modulo_is_rejected() {
    match Snowprint::new_at_ms(settings(0, 0), 0) {
        Err(Error::LogicalVolumeModuleIsZero) => {}
        other => panic!("expected zero-modulo rejection, got {:?}", other.map(|_| ())),
    }
    match Snowprint::new(settings(0, 0)) {
        Err(Error::LogicalVolumeModuleIsZero) => {}
        other => panic!("expected zero-modulo rejection, got {:?}", other.map(|_| ())),
    }
}

#[test]
fn shard_window_past_capacity_is_rejected() {
    match Snowprint::new_at_ms(settings(8_000, 200), 0) {
        Err(Error::ExceededAvailableLogicalVolumes) => {}
        other => panic!("expected capacity rejection, got {:?}", other.map(|_| ())),
    }
}

#[test]
fn shard_window_at_capacity_is_accepted() {
    assert!(Snowprint::new_at_ms(settings(8_000, 192), 0).is_ok());
}

#[test]
fn exhaustion_after_full_sequence_space_of_one_shard() {
    let mut generator = Snowprint::new_at_ms(settings(42, 1), 0).unwrap();
    let frozen_ms: u64 = 1;
    for expected_seq in 0..1024u64 {
        let id = generator
            .get_snowprint_at_ms(frozen_ms)
            .expect("sequence space not yet exhausted");
        let (ms, shard, seq) = decompose_snowprint(id);
        assert_eq!(ms, frozen_ms);
        assert_eq!(shard, 42);
        assert_eq!(seq, expected_seq);
    }
    match generator.get_snowprint_at_ms(frozen_ms) {
        Err(Error::NoAvailableSequences) => {}
        other => panic!("expected exhaustion, got {:?}", other),
    }
}

#[test]
fn rotation_visits_shards_round_robin_across_milliseconds() {
    let mut generator = Snowprint::new_at_ms(settings(100, 3), 10).unwrap();
    let mut offsets: Vec<u64> = Vec::new();
    for step in 0..6u64 {
        let id = generator.get_snowprint_at_ms(11 + step).unwrap();
        let (ms, shard, seq) = decompose_snowprint(id);
        assert_eq!(ms, 11 + step);
        assert_eq!(seq, 0);
        offsets.push(shard - 100);
    }
    assert_eq!(offsets, vec![1, 2, 0, 1, 2, 0]);
}

#[test]
fn same_millisecond_overflows_onto_next_shard() {
    // modulo 3: within one millisecond the rotation may serve two shards
    // before it is back at the shard the millisecond began after.
    let mut generator = Snowprint::new_at_ms(settings(500, 3), 0).unwrap();
    let frozen_ms: u64 = 7;
    for expected_seq in 0..1024u64 {
        let (ms, shard, seq) = decompose_snowprint(generator.get_snowprint_at_ms(frozen_ms).unwrap());
        assert_eq!((ms, shard, seq), (frozen_ms, 501, expected_seq));
    }
    for expected_seq in 0..1024u64 {
        let (ms, shard, seq) = decompose_snowprint(generator.get_snowprint_at_ms(frozen_ms).unwrap());
        assert_eq!((ms, shard, seq), (frozen_ms, 502, expected_seq));
    }
    match generator.get_snowprint_at_ms(frozen_ms) {
        Err(Error::NoAvailableSequences) => {}
        other => panic!("expected exhaustion, got {:?}", other),
    }
}

#[test]
fn identifiers_increase_within_and_across_milliseconds() {
    let mut generator = Snowprint::new_at_ms(settings(10, 4), 100).unwrap();
    let mut previous: u64 = 0;
    let readings: Vec<u64> = vec![101, 101, 101, 102, 102, 90, 90, 150];
    for reading in readings {
        let id = generator.get_snowprint_at_ms(reading).unwrap();
        assert!(id > previous, "identifier {} not above {}", id, previous);
        previous = id;
    }
}

#[test]
fn backward_clock_reading_keeps_last_millisecond() {
    let mut generator = Snowprint::new_at_ms(settings(0, 2), 1_000).unwrap();
    let (ms_forward, _, _) = decompose_snowprint(generator.get_snowprint_at_ms(1_001).unwrap());
    assert_eq!(ms_forward, 1_001);
    let (ms_backward, _, seq) = decompose_snowprint(generator.get_snowprint_at_ms(900).unwrap());
    assert_eq!(ms_backward, 1_001);
    assert_eq!(seq, 1);
}

#[test]
fn shard_ids_stay_inside_configured_window() {
    let mut generator = Snowprint::new_at_ms(settings(7_000, 5), 0).unwrap();
    for step in 0..3_000u64 {
        // advance every third call so rollovers and overflows both happen
        let id = generator.get_snowprint_at_ms(1 + step / 3).unwrap();
        let (_, shard, _) = decompose_snowprint(id);
        assert!((7_000..7_005).contains(&shard), "shard {} out of window", shard);
    }
}

#[test]
fn system_clock_issues_identifiers_after_recent_origin() {
    // 2020-01-01T00:00:00Z in milliseconds after the Unix epoch.
    let mut generator = Snowprint::new(settings_with_origin(1_577_836_800_000, 3, 20)).unwrap();
    let first = generator.get_snowprint().unwrap();
    let second = generator.get_snowprint().unwrap();
    assert!(second > first);
    let (ms, shard, _) = decompose_snowprint(first);
    assert!(ms > 0);
    assert!((20..23).contains(&shard));
}

#[test]
fn origin_in_the_far_future_cannot_seed_a_generator() {
    // 2200-01-01T00:00:00Z in milliseconds after the Unix epoch.
    match Snowprint::new(settings_with_origin(7_258_118_400_000, 1, 0)) {
        Err(Error::FailedToParseOriginDuration) => {}
        other => panic!("expected origin failure, got {:?}", other.map(|_| ())),
    }
}

fn settings_with_origin(origin_ms: u64, modulo: u64, base: u64) -> SnowprintSettings {
    SnowprintSettings {
        origin_timestamp_ms: origin_ms,
        logical_volume_modulo: modulo,
        logical_volume_base: base,
    }
}
