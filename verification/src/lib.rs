//! Snowflake-style sharded identifier generator.
//!
//! Each identifier is a 64-bit value holding three fields, most significant
//! first: a 41-bit millisecond timestamp measured from a configurable origin,
//! a 13-bit logical volume (shard) id, and a 10-bit per-millisecond sequence.
//! A generator rotates across a configured window of logical volumes so that
//! identifiers issued in the same millisecond spread across shards, and it
//! reports exhaustion once every (shard, sequence) pair of the current
//! millisecond has been handed out.

use vstd::prelude::*;

verus! {

/// Width in bits of the sequence field.
pub const SEQUENCE_BIT_LEN: u64 = 10;
/// Number of distinct sequence values per shard per millisecond (2^10).
pub const MAX_SEQUENCES: u64 = 1024;
/// Mask selecting the sequence field of an identifier.
pub const SEQUENCE_BIT_MASK: u64 = 0x3FF;
/// Width in bits of the logical volume (shard) field.
pub const LOGICAL_VOLUME_BIT_LEN: u64 = 13;
/// Number of distinct logical volume ids (2^13).
pub const MAX_LOGICAL_VOLUMES: u64 = 8192;
/// Mask selecting the logical volume field of an identifier.
pub const LOGICAL_VOLUME_BIT_MASK: u64 = 0x7FFC00;
/// Number of distinct timestamp values (2^41 milliseconds from the origin).
pub const MAX_TIMESTAMPS: u64 = 0x200_0000_0000;

/// The identifier that packs `ms_timestamp`, `logical_id` and `ticket_id`
/// into the 41/13/10-bit wire layout.
pub open spec fn compose_spec(ms_timestamp: u64, logical_id: u64, ticket_id: u64) -> u64 {
    (ms_timestamp << 23) | (logical_id << 10) | ticket_id
}

/// The timestamp field of an identifier.
pub open spec fn timestamp_of(snowprint: u64) -> u64 {
    snowprint >> 23
}

/// The logical volume field of an identifier.
pub open spec fn logical_id_of(snowprint: u64) -> u64 {
    (snowprint & LOGICAL_VOLUME_BIT_MASK) >> 10
}

/// The sequence field of an identifier.
pub open spec fn ticket_of(snowprint: u64) -> u64 {
    snowprint & SEQUENCE_BIT_MASK
}

/// Pack a timestamp, a logical volume id and a sequence value into one
/// 64-bit identifier. Inputs wider than their fields would overlap their
/// neighbours, so callers keep them inside the field widths.
pub fn compose_snowprint(ms_timestamp: u64, logical_id: u64, ticket_id: u64) -> (snowprint: u64)
    ensures
        snowprint == compose_spec(ms_timestamp, logical_id, ticket_id),
{
    ms_timestamp << (LOGICAL_VOLUME_BIT_LEN + SEQUENCE_BIT_LEN)
        | logical_id << SEQUENCE_BIT_LEN
        | ticket_id
}

/// Split an identifier back into its (timestamp, logical volume, sequence)
/// fields. Every 64-bit value splits into some triple.
pub fn decompose_snowprint(snowprint: u64) -> (parts: (u64, u64, u64))
    ensures
        parts.0 == timestamp_of(snowprint),
        parts.1 == logical_id_of(snowprint),
        parts.2 == ticket_of(snowprint),
{
    let time: u64 = snowprint >> (LOGICAL_VOLUME_BIT_LEN + SEQUENCE_BIT_LEN);
    let logical_id: u64 = (snowprint & LOGICAL_VOLUME_BIT_MASK) >> SEQUENCE_BIT_LEN;
    let ticket_id: u64 = snowprint & SEQUENCE_BIT_MASK;
    (time, logical_id, ticket_id)
}

/// Law: decomposing a composed identifier returns exactly the fields that
/// went in, whenever each field fits its width.
pub proof fn lemma_compose_decompose(ms_timestamp: u64, logical_id: u64, ticket_id: u64)
    requires
        ms_timestamp < MAX_TIMESTAMPS,
        logical_id < MAX_LOGICAL_VOLUMES,
        ticket_id < MAX_SEQUENCES,
    ensures
        timestamp_of(compose_spec(ms_timestamp, logical_id, ticket_id)) == ms_timestamp,
        logical_id_of(compose_spec(ms_timestamp, logical_id, ticket_id)) == logical_id,
        ticket_of(compose_spec(ms_timestamp, logical_id, ticket_id)) == ticket_id,
{
    assert(
        ms_timestamp < 0x200_0000_0000 && logical_id < 8192 && ticket_id < 1024 ==> {
            let id = (ms_timestamp << 23) | (logical_id << 10) | ticket_id;
            (id >> 23) == ms_timestamp
                && ((id & 0x7FFC00u64) >> 10) == logical_id
                && (id & 0x3FFu64) == ticket_id
        }
    ) by (bit_vector);
}

/// Law: composed identifiers order exactly as their field triples order
/// lexicographically, whenever each field fits its width.
pub proof fn lemma_compose_order(
    ms_a: u64, logical_a: u64, ticket_a: u64,
    ms_b: u64, logical_b: u64, ticket_b: u64,
)
    requires
        ms_a < MAX_TIMESTAMPS,
        logical_a < MAX_LOGICAL_VOLUMES,
        ticket_a < MAX_SEQUENCES,
        ms_b < MAX_TIMESTAMPS,
        logical_b < MAX_LOGICAL_VOLUMES,
        ticket_b < MAX_SEQUENCES,
        ms_a < ms_b
            || (ms_a == ms_b && logical_a < logical_b)
            || (ms_a == ms_b && logical_a == logical_b && ticket_a < ticket_b),
    ensures
        compose_spec(ms_a, logical_a, ticket_a) < compose_spec(ms_b, logical_b, ticket_b),
{
    assert(
        (ms_a < 0x200_0000_0000 && logical_a < 8192 && ticket_a < 1024
            && ms_b < 0x200_0000_0000 && logical_b < 8192 && ticket_b < 1024
            && (ms_a < ms_b
                || (ms_a == ms_b && logical_a < logical_b)
                || (ms_a == ms_b && logical_a == logical_b && ticket_a < ticket_b)))
            ==> ((ms_a << 23) | (logical_a << 10) | ticket_a)
                < ((ms_b << 23) | (logical_b << 10) | ticket_b)
    ) by (bit_vector);
}

/// Why a construction attempt or an issuance attempt failed.
#[derive(Debug, PartialEq, Eq, Structural)]
pub enum Error {
    /// The settings asked for zero logical volumes to rotate across.
    LogicalVolumeModuleIsZero,
    /// The settings place a logical volume past the 13-bit field capacity.
    ExceededAvailableLogicalVolumes,
    /// The clock could not be read relative to the configured origin.
    FailedToParseOriginDuration,
    /// Every (shard, sequence) pair of the current millisecond is spent.
    NoAvailableSequences,
}

/// Immutable configuration of one generator.
#[derive(Clone, Copy)]
pub struct SnowprintSettings {
    /// Milliseconds after the Unix epoch that timestamp field 0 stands for.
    pub origin_timestamp_ms: u64,
    /// How many logical volumes this generator rotates across; at least 1.
    pub logical_volume_modulo: u64,
    /// Offset added to the rotated volume index to give the visible shard id.
    pub logical_volume_base: u64,
}

/// Mutable rotation state of one generator.
#[derive(Clone, Copy)]
pub struct SnowprintState {
    /// The most recent millisecond stamped into an identifier; never decreases.
    pub last_duration_ms: u64,
    /// Sequence counter, reset whenever the millisecond or the shard advances.
    pub sequence_id: u64,
    /// Current volume offset, below `logical_volume_modulo`.
    pub logical_volume_id: u64,
    /// The volume offset in effect just before the last millisecond rollover;
    /// reaching it again within one millisecond means exhaustion.
    pub last_logical_volume_id: u64,
}

/// The settings describe at least one volume and the whole rotation window
/// fits the 13-bit shard field.
pub open spec fn settings_valid(settings: SnowprintSettings) -> bool {
    &&& 1 <= settings.logical_volume_modulo
    &&& settings.logical_volume_base + settings.logical_volume_modulo <= MAX_LOGICAL_VOLUMES
}

/// Every state field sits inside its field width and the volume offsets sit
/// inside the configured rotation window.
pub open spec fn state_well_formed(settings: SnowprintSettings, state: SnowprintState) -> bool {
    &&& state.sequence_id < MAX_SEQUENCES
    &&& state.logical_volume_id < settings.logical_volume_modulo
    &&& state.last_logical_volume_id < settings.logical_volume_modulo
    &&& state.last_duration_ms < MAX_TIMESTAMPS
}

/// The volume offset after `volume_id`, wrapping around the rotation window.
pub open spec fn next_volume_id(settings: SnowprintSettings, volume_id: u64) -> u64 {
    (((volume_id + 1) as int) % (settings.logical_volume_modulo as int)) as u64
}

/// A call at millisecond `duration_ms` finds every (shard, sequence) pair of
/// that millisecond already spent: the millisecond did not advance, the
/// current shard's sequences are used up, and the rotation is back at the
/// shard that was active when this millisecond began.
pub open spec fn step_is_exhausted(
    settings: SnowprintSettings,
    state: SnowprintState,
    duration_ms: u64,
) -> bool {
    &&& state.last_duration_ms == duration_ms
    &&& state.sequence_id == MAX_SEQUENCES - 1
    &&& next_volume_id(settings, state.logical_volume_id) == state.last_logical_volume_id
}

/// The state after one issuance attempt at millisecond `duration_ms`
/// (callers pass `duration_ms` at or after `state.last_duration_ms`).
/// A new millisecond resets the sequence and rotates the volume; within the
/// same millisecond the sequence advances, overflowing onto the next volume;
/// an exhausted attempt leaves the state unchanged.
pub open spec fn step_state(
    settings: SnowprintSettings,
    state: SnowprintState,
    duration_ms: u64,
) -> SnowprintState {
    if state.last_duration_ms < duration_ms {
        SnowprintState {
            last_duration_ms: duration_ms,
            sequence_id: 0,
            logical_volume_id: next_volume_id(settings, state.logical_volume_id),
            last_logical_volume_id: state.logical_volume_id,
        }
    } else if state.sequence_id < MAX_SEQUENCES - 1 {
        SnowprintState {
            sequence_id: (state.sequence_id + 1) as u64,
            ..state
        }
    } else if next_volume_id(settings, state.logical_volume_id) == state.last_logical_volume_id {
        state
    } else {
        SnowprintState {
            sequence_id: 0,
            logical_volume_id: next_volume_id(settings, state.logical_volume_id),
            ..state
        }
    }
}

/// The identifier issued by a non-exhausted attempt: the stamped millisecond,
/// the shard the attempt lands on, and the sequence value it draws.
pub open spec fn step_ok_value(
    settings: SnowprintSettings,
    state: SnowprintState,
    duration_ms: u64,
) -> u64 {
    compose_spec(
        duration_ms,
        (settings.logical_volume_base + step_state(settings, state, duration_ms).logical_volume_id) as u64,
        step_state(settings, state, duration_ms).sequence_id,
    )
}

/// What one issuance attempt at millisecond `duration_ms` returns.
pub open spec fn step_output(
    settings: SnowprintSettings,
    state: SnowprintState,
    duration_ms: u64,
) -> Result<u64, Error> {
    if step_is_exhausted(settings, state, duration_ms) {
        Err(Error::NoAvailableSequences)
    } else {
        Ok(step_ok_value(settings, state, duration_ms))
    }
}

/// Reject settings with no volume to rotate across or with a rotation window
/// that sticks out of the 13-bit shard field.
fn check_settings(settings: &SnowprintSettings) -> (result: Result<(), Error>)
    ensures
        result == (if settings.logical_volume_modulo == 0 {
            Err::<(), Error>(Error::LogicalVolumeModuleIsZero)
        } else if settings.logical_volume_base + settings.logical_volume_modulo
            > MAX_LOGICAL_VOLUMES {
            Err::<(), Error>(Error::ExceededAvailableLogicalVolumes)
        } else {
            Ok::<(), Error>(())
        }),
        result is Ok <==> settings_valid(*settings),
{
    if settings.logical_volume_modulo == 0 {
        return Err(Error::LogicalVolumeModuleIsZero);
    }
    if settings.logical_volume_modulo > MAX_LOGICAL_VOLUMES
        || settings.logical_volume_base > MAX_LOGICAL_VOLUMES - settings.logical_volume_modulo
    {
        return Err(Error::ExceededAvailableLogicalVolumes);
    }
    Ok(())
}

/// The millisecond a clock reading is clamped to: the reading itself when it
/// moved forward and still fits the 41-bit timestamp field, else the
/// millisecond already stamped — an identifier never carries a timestamp
/// below one already issued.
pub open spec fn most_recent_duration(reading_ms: u64, last_duration_ms: u64) -> u64 {
    if last_duration_ms < reading_ms && reading_ms < MAX_TIMESTAMPS {
        reading_ms
    } else {
        last_duration_ms
    }
}

/// Clamp a clock reading against the most recent stamped millisecond, so a
/// backward-jumping (or overflowing) clock never lowers the timestamp.
pub fn get_most_recent_duration(reading_ms: u64, last_duration_ms: u64) -> (duration_ms: u64)
    ensures
        duration_ms == most_recent_duration(reading_ms, last_duration_ms),
{
    if last_duration_ms < reading_ms && reading_ms < MAX_TIMESTAMPS {
        reading_ms
    } else {
        last_duration_ms
    }
}

/// The millisecond advanced: stamp it, reset the sequence, remember the
/// volume that was active, and rotate to the next volume.
fn time_changed(state: &mut SnowprintState, settings: &SnowprintSettings, duration_ms: u64)
    requires
        settings_valid(*settings),
        state_well_formed(*settings, *old(state)),
        old(state).last_duration_ms < duration_ms,
        duration_ms < MAX_TIMESTAMPS,
    ensures
        *final(state) == step_state(*settings, *old(state), duration_ms),
        state_well_formed(*settings, *final(state)),
{
    state.last_duration_ms = duration_ms;
    state.sequence_id = 0;
    state.last_logical_volume_id = state.logical_volume_id;
    state.logical_volume_id = (state.logical_volume_id + 1) % settings.logical_volume_modulo;
}

/// Still inside the same millisecond: draw the next sequence value, and when
/// the current volume's sequences are spent move to the next volume — unless
/// that would revisit the volume this millisecond began after, which means
/// every pair is spent and the attempt fails without touching the state.
fn time_did_not_change(
    state: &mut SnowprintState,
    settings: &SnowprintSettings,
) -> (result: Result<(), Error>)
    requires
        settings_valid(*settings),
        state_well_formed(*settings, *old(state)),
    ensures
        *final(state) == step_state(*settings, *old(state), old(state).last_duration_ms),
        state_well_formed(*settings, *final(state)),
        result == (if step_is_exhausted(*settings, *old(state), old(state).last_duration_ms) {
            Err::<(), Error>(Error::NoAvailableSequences)
        } else {
            Ok::<(), Error>(())
        }),
{
    if state.sequence_id < MAX_SEQUENCES - 1 {
        state.sequence_id = state.sequence_id + 1;
        return Ok(());
    }
    let next_logical_volume_id: u64 =
        (state.logical_volume_id + 1) % settings.logical_volume_modulo;
    if next_logical_volume_id == state.last_logical_volume_id {
        return Err(Error::NoAvailableSequences);
    }
    state.sequence_id = 0;
    state.logical_volume_id = next_logical_volume_id;
    Ok(())
}

/// Run one issuance attempt at millisecond `duration_ms`: advance the state
/// by the rotation rules and pack the resulting identifier, or report
/// exhaustion. Every identifier handed out carries a shard id inside the
/// configured rotation window.
pub fn compose_snowprint_from_settings_and_state(
    settings: &SnowprintSettings,
    state: &mut SnowprintState,
    duration_ms: u64,
) -> (result: Result<u64, Error>)
    requires
        settings_valid(*settings),
        state_well_formed(*settings, *old(state)),
        old(state).last_duration_ms <= duration_ms,
        duration_ms < MAX_TIMESTAMPS,
    ensures
        *final(state) == step_state(*settings, *old(state), duration_ms),
        state_well_formed(*settings, *final(state)),
        result == step_output(*settings, *old(state), duration_ms),
        result matches Ok(snowprint) ==> {
            &&& timestamp_of(snowprint) == duration_ms
            &&& settings.logical_volume_base <= logical_id_of(snowprint)
                < settings.logical_volume_base + settings.logical_volume_modulo
            &&& ticket_of(snowprint) == final(state).sequence_id
        },
{
    if state.last_duration_ms < duration_ms {
        time_changed(state, settings, duration_ms);
    } else {
        match time_did_not_change(state, settings) {
            Ok(()) => {}
            Err(err) => {
                return Err(err);
            }
        }
    }
    let logical_id: u64 = settings.logical_volume_base + state.logical_volume_id;
    let snowprint: u64 = compose_snowprint(duration_ms, logical_id, state.sequence_id);
    proof {
        lemma_compose_decompose(duration_ms, logical_id, state.sequence_id);
    }
    Ok(snowprint)
}

/// A generator: fixed settings plus the rotation state they govern.
pub struct Snowprint {
    pub settings: SnowprintSettings,
    pub state: SnowprintState,
}

/// Relies on std::time::SystemTime::now and SystemTime::duration_since: the
/// milliseconds elapsed between the origin point (`origin_ms` after the Unix
/// epoch) and the current clock reading, or None when the clock reads earlier
/// than that origin point. The wall clock decides the value, so nothing more
/// is assumed of it.
#[verifier::external_body]
fn duration_since_origin_ms(origin_ms: u64) -> Option<u64> {
    let origin = std::time::UNIX_EPOCH + std::time::Duration::from_millis(origin_ms);
    match std::time::SystemTime::now().duration_since(origin) {
        Ok(elapsed) => Some(elapsed.as_millis() as u64),
        Err(_) => None,
    }
}

/// One issuance attempt read the clock at `duration_ms` and acted on it:
/// relates a generator before a call, the generator after it, and what the
/// call returned.
pub open spec fn clock_step(
    pre: Snowprint,
    post: Snowprint,
    result: Result<u64, Error>,
    duration_ms: u64,
) -> bool {
    &&& pre.state.last_duration_ms <= duration_ms < MAX_TIMESTAMPS
    &&& post.settings == pre.settings
    &&& post.state == step_state(pre.settings, pre.state, duration_ms)
    &&& result == step_output(pre.settings, pre.state, duration_ms)
}

impl Snowprint {
    /// The settings are valid and the state sits inside their bounds.
    pub open spec fn well_formed(self) -> bool {
        &&& settings_valid(self.settings)
        &&& state_well_formed(self.settings, self.state)
    }

    /// Build a generator seeded at millisecond `duration_ms`, validating the
    /// settings first. Deterministic twin of `new` for callers that bring
    /// their own clock.
    pub fn new_at_ms(settings: SnowprintSettings, duration_ms: u64) -> (result: Result<
        Snowprint,
        Error,
    >)
        requires
            duration_ms < MAX_TIMESTAMPS,
        ensures
            result == (if settings.logical_volume_modulo == 0 {
                Err::<Snowprint, Error>(Error::LogicalVolumeModuleIsZero)
            } else if settings.logical_volume_base + settings.logical_volume_modulo
                > MAX_LOGICAL_VOLUMES {
                Err::<Snowprint, Error>(Error::ExceededAvailableLogicalVolumes)
            } else {
                Ok::<Snowprint, Error>(
                    (Snowprint {
                        settings,
                        state: SnowprintState {
                            last_duration_ms: duration_ms,
                            sequence_id: 0,
                            logical_volume_id: 0,
                            last_logical_volume_id: 0,
                        },
                    }),
                )
            }),
            result matches Ok(generator) ==> generator.well_formed(),
    {
        match check_settings(&settings) {
            Ok(()) => {}
            Err(err) => {
                return Err(err);
            }
        }
        Ok(
            Snowprint {
                settings,
                state: SnowprintState {
                    last_duration_ms: duration_ms,
                    sequence_id: 0,
                    logical_volume_id: 0,
                    last_logical_volume_id: 0,
                },
            },
        )
    }

    /// Build a generator seeded at the current clock reading. Fails on
    /// invalid settings exactly as `new_at_ms` does, and with
    /// `FailedToParseOriginDuration` when the clock cannot be read relative
    /// to the configured origin.
    pub fn new(settings: SnowprintSettings) -> (result: Result<Snowprint, Error>)
        ensures
            settings.logical_volume_modulo == 0 ==> result == Err::<Snowprint, Error>(
                Error::LogicalVolumeModuleIsZero,
            ),
            settings.logical_volume_modulo >= 1 && settings.logical_volume_base
                + settings.logical_volume_modulo > MAX_LOGICAL_VOLUMES ==> result == Err::<
                Snowprint,
                Error,
            >(Error::ExceededAvailableLogicalVolumes),
            settings_valid(settings) ==> (result matches Ok(generator) ==> {
                &&& generator.well_formed()
                &&& generator.settings == settings
                &&& generator.state.sequence_id == 0
                &&& generator.state.logical_volume_id == 0
                &&& generator.state.last_logical_volume_id == 0
            }) && (result is Err ==> result == Err::<Snowprint, Error>(
                Error::FailedToParseOriginDuration,
            )),
            result matches Ok(generator) ==> generator.well_formed() && settings_valid(settings),
    {
        match check_settings(&settings) {
            Ok(()) => {}
            Err(err) => {
                return Err(err);
            }
        }
        let duration_ms: u64 = match duration_since_origin_ms(settings.origin_timestamp_ms) {
            Some(elapsed_ms) => {
                if elapsed_ms < MAX_TIMESTAMPS {
                    elapsed_ms
                } else {
                    return Err(Error::FailedToParseOriginDuration);
                }
            },
            None => {
                return Err(Error::FailedToParseOriginDuration);
            },
        };
        Self::new_at_ms(settings, duration_ms)
    }

    /// Issue one identifier against the caller's own clock reading: the
    /// reading is clamped so the stamped millisecond never decreases, then
    /// the rotation rules run. Deterministic twin of `get_snowprint`.
    pub fn get_snowprint_at_ms(&mut self, reading_ms: u64) -> (result: Result<u64, Error>)
        requires
            old(self).well_formed(),
        ensures
            final(self).well_formed(),
            clock_step(
                *old(self),
                *final(self),
                result,
                most_recent_duration(reading_ms, old(self).state.last_duration_ms),
            ),
            result matches Ok(snowprint) ==> old(self).settings.logical_volume_base
                <= logical_id_of(snowprint) < old(self).settings.logical_volume_base + old(
                self,
            ).settings.logical_volume_modulo,
    {
        let duration_ms: u64 = get_most_recent_duration(reading_ms, self.state.last_duration_ms);
        let settings: SnowprintSettings = self.settings;
        compose_snowprint_from_settings_and_state(&settings, &mut self.state, duration_ms)
    }

    /// Issue one identifier against the system clock. Whatever the clock
    /// returned, the call acted on one single millisecond at or after the
    /// last stamped one, and any identifier it hands out carries a shard id
    /// inside the configured rotation window.
    pub fn get_snowprint(&mut self) -> (result: Result<u64, Error>)
        requires
            old(self).well_formed(),
        ensures
            final(self).well_formed(),
            exists|duration_ms: u64| clock_step(*old(self), *final(self), result, duration_ms),
            final(self).state.last_duration_ms >= old(self).state.last_duration_ms,
            result matches Ok(snowprint) ==> old(self).settings.logical_volume_base
                <= logical_id_of(snowprint) < old(self).settings.logical_volume_base + old(
                self,
            ).settings.logical_volume_modulo,
    {
        let reading_ms: u64 = match duration_since_origin_ms(self.settings.origin_timestamp_ms) {
            Some(elapsed_ms) => elapsed_ms,
            None => 0,
        };
        let ghost pre = *self;
        let result = self.get_snowprint_at_ms(reading_ms);
        proof {
            let duration_ms = most_recent_duration(reading_ms, pre.state.last_duration_ms);
            assert(clock_step(pre, *self, result, duration_ms));
        }
        result
    }
}

/// Law: a successful issuance attempt returns an identifier strictly above
/// the identifier encoded by the millisecond, shard and sequence of the state
/// it started from — the most recently issued identifier, once one exists.
/// The one exception is left out by the last premise: an attempt that
/// overflows the top volume of the rotation window within one millisecond
/// wraps the shard id downward, and the new identifier falls below the old.
pub proof fn lemma_snowprint_monotonic(
    settings: SnowprintSettings,
    state: SnowprintState,
    duration_ms: u64,
)
    requires
        settings_valid(settings),
        state_well_formed(settings, state),
        state.last_duration_ms <= duration_ms,
        duration_ms < MAX_TIMESTAMPS,
        !step_is_exhausted(settings, state, duration_ms),
        !(duration_ms == state.last_duration_ms && state.sequence_id == MAX_SEQUENCES - 1
            && state.logical_volume_id + 1 == settings.logical_volume_modulo),
    ensures
        step_ok_value(settings, state, duration_ms) > compose_spec(
            state.last_duration_ms,
            (settings.logical_volume_base + state.logical_volume_id) as u64,
            state.sequence_id,
        ),
{
    let volume_modulo = settings.logical_volume_modulo;
    let shard_before = (settings.logical_volume_base + state.logical_volume_id) as u64;
    let next = step_state(settings, state, duration_ms);
    let shard_after = (settings.logical_volume_base + next.logical_volume_id) as u64;
    vstd::arithmetic::div_mod::lemma_mod_bound(
        state.logical_volume_id + 1,
        volume_modulo as int,
    );
    if state.last_duration_ms < duration_ms {
        lemma_compose_order(
            state.last_duration_ms,
            shard_before,
            state.sequence_id,
            duration_ms,
            shard_after,
            next.sequence_id,
        );
    } else if state.sequence_id < MAX_SEQUENCES - 1 {
        lemma_compose_order(
            state.last_duration_ms,
            shard_before,
            state.sequence_id,
            duration_ms,
            shard_after,
            next.sequence_id,
        );
    } else {
        vstd::arithmetic::div_mod::lemma_small_mod(
            (state.logical_volume_id + 1) as nat,
            volume_modulo as nat,
        );
        assert(next.logical_volume_id == state.logical_volume_id + 1);
        lemma_compose_order(
            state.last_duration_ms,
            shard_before,
            state.sequence_id,
            duration_ms,
            shard_after,
            next.sequence_id,
        );
    }
}

/// Law: of the identifiers issued by two consecutive successful attempts on
/// one generator, the second is strictly above the first — so serially issued
/// identifiers sort by issuance order. The last premise leaves out the one
/// exception: a second attempt that overflows the top volume of the rotation
/// window within one millisecond wraps the shard id downward.
pub proof fn lemma_successive_snowprints_increase(
    settings: SnowprintSettings,
    state: SnowprintState,
    first_ms: u64,
    second_ms: u64,
)
    requires
        settings_valid(settings),
        state_well_formed(settings, state),
        state.last_duration_ms <= first_ms,
        first_ms <= second_ms,
        second_ms < MAX_TIMESTAMPS,
        !step_is_exhausted(settings, state, first_ms),
        !step_is_exhausted(settings, step_state(settings, state, first_ms), second_ms),
        !(second_ms == first_ms && step_state(settings, state, first_ms).sequence_id
            == MAX_SEQUENCES - 1 && step_state(settings, state, first_ms).logical_volume_id + 1
            == settings.logical_volume_modulo),
    ensures
        step_ok_value(settings, step_state(settings, state, first_ms), second_ms)
            > step_ok_value(settings, state, first_ms),
{
    let mid = step_state(settings, state, first_ms);
    vstd::arithmetic::div_mod::lemma_mod_bound(
        state.logical_volume_id + 1,
        settings.logical_volume_modulo as int,
    );
    // the post-state of a successful attempt encodes the identifier it issued
    assert(mid.last_duration_ms == first_ms);
    assert(step_ok_value(settings, state, first_ms) == compose_spec(
        mid.last_duration_ms,
        (settings.logical_volume_base + mid.logical_volume_id) as u64,
        mid.sequence_id,
    ));
    lemma_snowprint_monotonic(settings, mid, second_ms);
}

} // verus!
