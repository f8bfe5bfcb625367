//! Managed feature access: a session owns the registry's value cache and
//! turns `set` requests into a sequence of device writes and reads that
//! respects dependency order, confirms every write by reading it back and
//! refreshes dependents.
//!
//! The session does no I/O. It is a state machine: `step` takes the
//! outcome of the last device interaction (an `Event`) and says what to do
//! next (an `Action`). The caller performs the action and reports back.

use vstd::prelude::*;
use crate::codec::{
    decode_response, encode_global_profile_read, encode_global_profile_write, encode_output_read,
    encode_output_write, encode_read, encode_write, global_profile_read_body, global_profile_write_body,
    output_read_body, output_write_body, packet, read_body, response_spec, write_body, Response, Route,
    BITS_NAN, BITS_NEG_ZERO, BITS_ONE, BITS_ZERO,
};
use crate::registry::{all_ids, all_ids_spec, Format, FeatureId};

verus! {

/// Poll attempts for one confirmation before it is given up.
pub const MAX_READ_ATTEMPTS: u32 = 30;
/// Timeout of one poll attempt, in milliseconds.
pub const READ_TIMEOUT_MS: i32 = 500;

/// A registered feature and its last confirmed value (float bit pattern;
/// a NaN until the first read).
#[derive(Clone, Copy, PartialEq, Eq, Structural, Debug)]
pub struct Feature {
    pub id: FeatureId,
    pub value: u32,
}

/// Why a managed operation failed.
#[derive(Clone, Copy, PartialEq, Eq, Structural, Debug)]
pub enum EngineError {
    /// The feature is not in the session's registry.
    NotFound,
    /// The request does not fit the feature's value kind.
    InvalidInput,
    /// The transport failed to send or receive.
    Transport,
    /// A cached toggle holds neither 0.0 nor 1.0: the protocol model is
    /// wrong and the cache cannot be trusted.
    ProtocolViolation,
}

/// One unit of work of a managed operation.
#[derive(Clone, Copy, PartialEq, Eq, Structural, Debug)]
pub enum Task {
    /// Make sure a toggle is on; if it is not, set it on (managed).
    EnsureOn(FeatureId),
    /// Send a write packet and wait for its acknowledgement.
    Write(FeatureId, u32),
    /// Send a query and store the confirmed value.
    Read(FeatureId),
}

/// The outcome of the last device interaction.
pub enum Event {
    /// Nothing happened yet, or the last action was `Continue`.
    Ready,
    /// The last `Transmit` was sent.
    Sent,
    /// The last `Transmit` failed.
    SendFailed,
    /// A poll returned a payload (magic byte first).
    Received(Vec<u8>),
    /// A poll timed out with nothing read.
    Silence,
    /// A poll failed.
    ReadFailed,
}

/// What the caller does next.
pub enum Action {
    /// Send this packet, then report `Sent` or `SendFailed`.
    Transmit(Vec<u8>),
    /// Read one payload with the poll timeout, then report it.
    Poll,
    /// No device work this time; report `Ready`.
    Continue,
    /// The operation is over.
    Finished(Result<(), EngineError>),
}

/// Whether `s` holds `id`.
pub open spec fn registered(s: Seq<Feature>, id: FeatureId) -> bool {
    exists|i: int| 0 <= i < s.len() && s[i].id == id
}

/// No feature is registered twice.
pub open spec fn distinct_ids(s: Seq<Feature>) -> bool {
    forall|i: int, j: int| 0 <= i < j < s.len() ==> s[i].id != s[j].id
}

/// The position of a registered `id`.
pub open spec fn slot(s: Seq<Feature>, id: FeatureId) -> int {
    choose|i: int| 0 <= i < s.len() && s[i].id == id
}

/// The cached value of a registered `id`.
pub open spec fn cached(s: Seq<Feature>, id: FeatureId) -> u32 {
    s[slot(s, id)].value
}

/// The registry with the cached value of `id` replaced.
pub open spec fn with_value(s: Seq<Feature>, id: FeatureId, v: u32) -> Seq<Feature> {
    s.update(slot(s, id), Feature { id, value: v })
}

/// A toggle's state: `Some(false)` for 0.0 (either sign), `Some(true)` for
/// 1.0, `None` for any other value.
pub open spec fn toggle_state(bits: u32) -> Option<bool> {
    if bits == BITS_ZERO || bits == BITS_NEG_ZERO {
        Some(false)
    } else if bits == BITS_ONE {
        Some(true)
    } else {
        None
    }
}

/// Whether the float with these bits is greater than zero.
pub open spec fn is_positive(bits: u32) -> bool {
    0 < bits <= 0x7f80_0000
}

/// The value a managed set writes, or why it refuses.
pub open spec fn intended(id: FeatureId, current: u32, value: Option<u32>) -> Result<u32, EngineError> {
    match value {
        Some(v) => if id.is_toggle_spec() && toggle_state(v) is None {
            Err(EngineError::InvalidInput)
        } else {
            Ok(v)
        },
        None => if !id.is_toggle_spec() {
            Err(EngineError::InvalidInput)
        } else {
            match toggle_state(current) {
                Some(on) => Ok(if on { BITS_ZERO } else { BITS_ONE }),
                None => Err(EngineError::ProtocolViolation),
            }
        },
    }
}

/// A read of every registered feature, in registry order.
pub open spec fn full_refresh(s: Seq<Feature>) -> Seq<Task> {
    Seq::new(s.len(), |i: int| Task::Read(s[i].id))
}

/// The work of a managed set of `id` to `bits`: enable each dependency in
/// order, write, confirm by reading back, then refresh each dependent.
/// Writing the output route re-reads the whole registry instead, since the
/// device keeps a separate profile per route.
pub open spec fn plan(s: Seq<Feature>, id: FeatureId, bits: u32) -> Seq<Task> {
    if id == FeatureId::Output {
        seq![Task::Write(id, bits)] + full_refresh(s)
    } else {
        let deps = id.dependencies_spec();
        let dents = id.dependents_spec();
        Seq::new(deps.len(), |i: int| Task::EnsureOn(deps[i])) + seq![Task::Write(id, bits), Task::Read(id)]
            + Seq::new(dents.len(), |i: int| Task::Read(dents[i]))
    }
}

/// The packet that queries `id`.
pub open spec fn query_packet(id: FeatureId) -> Seq<u8> {
    match id.addressing_spec() {
        Format::Generic { family, feature } => packet(read_body(family, feature)),
        Format::GlobalBitmask { bit } => packet(global_profile_read_body()),
        Format::OutputRoute => packet(output_read_body()),
    }
}

/// The packet that writes `bits` to `id`.
pub open spec fn write_packet(id: FeatureId, bits: u32) -> Seq<u8> {
    match id.addressing_spec() {
        Format::Generic { family, feature } => packet(write_body(family, feature, bits)),
        Format::GlobalBitmask { bit } => packet(global_profile_write_body(bit, is_positive(bits))),
        Format::OutputRoute => packet(
            output_write_body(
                if is_positive(bits) {
                    0x04u8
                } else {
                    0x02u8
                },
            ),
        ),
    }
}

/// The value a response confirms for `id`, if it answers a query of `id`.
pub open spec fn reading(id: FeatureId, r: Response) -> Option<u32> {
    match (id.addressing_spec(), r) {
        (Format::Generic { family, feature }, Response::FeatureValue { family: f, feature: g, bits }) =>
            if f == family && g == feature {
                Some(bits)
            } else {
                None
            },
        (Format::GlobalBitmask { bit }, Response::GlobalProfileValue { master, secondary, equalizer }) => {
            let on = if bit == 0x01 {
                master
            } else if bit == 0x02 {
                secondary
            } else {
                equalizer
            };
            Some(if on { BITS_ONE } else { BITS_ZERO })
        },
        (Format::OutputRoute, Response::OutputValue { route }) => Some(
            match route {
                Route::Speakers => BITS_ZERO,
                Route::Headphones => BITS_ONE,
                Route::Other(_) => BITS_NAN,
            },
        ),
        _ => None,
    }
}

/// Looks `id` up in the registry.
fn find(s: &Vec<Feature>, id: FeatureId) -> (r: Option<usize>)
    requires
        distinct_ids(s@),
    ensures
        r is None <==> !registered(s@, id),
        r is Some ==> r->0 < s@.len() && s@[r->0 as int].id == id && r->0 as int == slot(s@, id),
{
    let mut i: usize = 0;
    while i < s.len()
        invariant
            i <= s@.len(),
            distinct_ids(s@),
            forall|j: int| 0 <= j < i ==> s@[j].id != id,
        decreases s@.len() - i,
    {
        if s[i].id == id {
            assert(registered(s@, id));
            let ghost k = slot(s@, id);
            proof {
                assert(s@[k].id == id);
                if k > i as int {
                    assert(s@[i as int].id != s@[k].id);
                }
            }
            return Some(i);
        }
        i = i + 1;
    }
    None
}

/// The state of a toggle's cached bits.
pub fn toggle_value(bits: u32) -> (r: Option<bool>)
    ensures
        r == toggle_state(bits),
{
    if bits == BITS_ZERO || bits == BITS_NEG_ZERO {
        Some(false)
    } else if bits == BITS_ONE {
        Some(true)
    } else {
        None
    }
}

fn positive(bits: u32) -> (r: bool)
    ensures
        r == is_positive(bits),
{
    0 < bits && bits <= 0x7f80_0000
}

fn refresh_all(s: &Vec<Feature>) -> (r: Vec<Task>)
    ensures
        r@ == full_refresh(s@),
{
    let mut r: Vec<Task> = Vec::new();
    let mut i: usize = 0;
    while i < s.len()
        invariant
            i <= s@.len(),
            r@ == full_refresh(s@).subrange(0, i as int),
        decreases s@.len() - i,
    {
        r.push(Task::Read(s[i].id));
        i = i + 1;
        assert(r@ =~= full_refresh(s@).subrange(0, i as int));
    }
    assert(full_refresh(s@).subrange(0, s@.len() as int) =~= full_refresh(s@));
    r
}

fn make_plan(s: &Vec<Feature>, id: FeatureId, bits: u32) -> (r: Vec<Task>)
    ensures
        r@ == plan(s@, id, bits),
{
    if id == FeatureId::Output {
        let mut r = vec![Task::Write(id, bits)];
        let mut rest = refresh_all(s);
        r.append(&mut rest);
        return r;
    }
    let deps = id.dependencies();
    let dents = id.dependents();
    let mut r: Vec<Task> = Vec::new();
    let mut i: usize = 0;
    while i < deps.len()
        invariant
            i <= deps@.len(),
            deps@ == id.dependencies_spec(),
            r@ == Seq::new(deps@.len(), |k: int| Task::EnsureOn(deps@[k])).subrange(0, i as int),
        decreases deps@.len() - i,
    {
        r.push(Task::EnsureOn(deps[i]));
        i = i + 1;
        assert(r@ =~= Seq::new(deps@.len(), |k: int| Task::EnsureOn(deps@[k])).subrange(0, i as int));
    }
    r.push(Task::Write(id, bits));
    r.push(Task::Read(id));
    let ghost head = r@;
    let mut j: usize = 0;
    while j < dents.len()
        invariant
            j <= dents@.len(),
            dents@ == id.dependents_spec(),
            r@ == head + Seq::new(dents@.len(), |k: int| Task::Read(dents@[k])).subrange(0, j as int),
        decreases dents@.len() - j,
    {
        r.push(Task::Read(dents[j]));
        j = j + 1;
        assert(r@ =~= head + Seq::new(dents@.len(), |k: int| Task::Read(dents@[k])).subrange(0, j as int));
    }
    assert(r@ =~= plan(s@, id, bits));
    r
}

fn query_for(id: FeatureId) -> (r: Vec<u8>)
    ensures
        r@ == query_packet(id),
{
    match id.addressing() {
        Format::Generic { family, feature } => encode_read(family, feature),
        Format::GlobalBitmask { bit } => encode_global_profile_read(),
        Format::OutputRoute => encode_output_read(),
    }
}

fn write_for(id: FeatureId, bits: u32) -> (r: Vec<u8>)
    ensures
        r@ == write_packet(id, bits),
{
    match id.addressing() {
        Format::Generic { family, feature } => encode_write(family, feature, bits),
        Format::GlobalBitmask { bit } => encode_global_profile_write(bit, positive(bits)),
        Format::OutputRoute => {
            let route = if positive(bits) {
                Route::Headphones
            } else {
                Route::Speakers
            };
            encode_output_write(route)
        },
    }
}

fn reading_of(id: FeatureId, r: Response) -> (v: Option<u32>)
    ensures
        v == reading(id, r),
{
    match (id.addressing(), r) {
        (Format::Generic { family, feature }, Response::FeatureValue { family: f, feature: g, bits }) =>
            if f == family && g == feature {
                Some(bits)
            } else {
                None
            },
        (Format::GlobalBitmask { bit }, Response::GlobalProfileValue { master, secondary, equalizer }) => {
            let on = if bit == 0x01 {
                master
            } else if bit == 0x02 {
                secondary
            } else {
                equalizer
            };
            Some(
                if on {
                    BITS_ONE
                } else {
                    BITS_ZERO
                },
            )
        },
        (Format::OutputRoute, Response::OutputValue { route }) => Some(
            match route {
                Route::Speakers => BITS_ZERO,
                Route::Headphones => BITS_ONE,
                Route::Other(_) => BITS_NAN,
            },
        ),
        _ => None,
    }
}

/// Writes of the default value 0.0 to every feature but the output route:
/// with `toggles` false the non-toggles, with `toggles` true the toggles.
pub open spec fn default_writes(s: Seq<Feature>, toggles: bool) -> Seq<Task>
    decreases s.len(),
{
    if s.len() == 0 {
        Seq::empty()
    } else {
        let f = s.last().id;
        default_writes(s.drop_last(), toggles) + if f != FeatureId::Output && f.is_toggle_spec() == toggles {
            seq![Task::Write(f, BITS_ZERO)]
        } else {
            Seq::empty()
        }
    }
}

/// The work of a reset: sliders and other values to 0.0 first, in case
/// they cannot change once their toggles are off, then every toggle off,
/// then a re-read of the whole registry.
pub open spec fn reset_plan(s: Seq<Feature>) -> Seq<Task> {
    default_writes(s, false) + default_writes(s, true) + full_refresh(s)
}

fn make_default_writes(s: &Vec<Feature>, toggles: bool) -> (r: Vec<Task>)
    ensures
        r@ == default_writes(s@, toggles),
{
    let mut r: Vec<Task> = Vec::new();
    let mut i: usize = 0;
    while i < s.len()
        invariant
            i <= s@.len(),
            r@ == default_writes(s@.subrange(0, i as int), toggles),
        decreases s@.len() - i,
    {
        let f = s[i].id;
        proof {
            let t = s@.subrange(0, i as int + 1);
            assert(t.drop_last() =~= s@.subrange(0, i as int));
            assert(t.last().id == f);
        }
        if f != FeatureId::Output && f.is_toggle() == toggles {
            r.push(Task::Write(f, BITS_ZERO));
        }
        i = i + 1;
        assert(r@ =~= default_writes(s@.subrange(0, i as int), toggles));
    }
    assert(s@.subrange(0, s@.len() as int) =~= s@);
    r
}

/// A control session: the registry's value cache and the managed
/// operation in progress, if any.
pub struct Session {
    features: Vec<Feature>,
    todo: Vec<Task>,
    pending: Option<Task>,
    attempts: u32,
    unconfirmed: u32,
}

impl Session {
    /// The registered features and their cached values.
    pub closed spec fn registry(&self) -> Seq<Feature> {
        self.features@
    }

    /// The work left of the current operation, next first.
    pub closed spec fn todo_spec(&self) -> Seq<Task> {
        self.todo@
    }

    /// The write or read whose confirmation is awaited.
    pub closed spec fn pending_spec(&self) -> Option<Task> {
        self.pending
    }

    /// Polls spent on the pending confirmation.
    pub closed spec fn attempts_spec(&self) -> u32 {
        self.attempts
    }

    /// Confirmations given up in the current operation.
    pub closed spec fn unconfirmed_spec(&self) -> u32 {
        self.unconfirmed
    }

    pub open spec fn wf(&self) -> bool {
        &&& distinct_ids(self.registry())
        &&& self.attempts_spec() < MAX_READ_ATTEMPTS
        &&& match self.pending_spec() {
            Some(Task::Read(f)) => registered(self.registry(), f),
            Some(Task::Write(f, _)) => registered(self.registry(), f),
            Some(Task::EnsureOn(_)) => false,
            None => true,
        }
    }

    /// No operation is in progress.
    pub open spec fn idle(&self) -> bool {
        self.todo_spec().len() == 0 && self.pending_spec() is None
    }

    /// The same features, in the same order, as `other`.
    pub open spec fn same_ids(&self, other: &Session) -> bool {
        &&& self.registry().len() == other.registry().len()
        &&& forall|i: int| 0 <= i < self.registry().len() ==> #[trigger] self.registry()[i].id == other.registry()[i].id
    }

    /// A session over the whole catalog, every value unread (NaN).
    pub fn new() -> (r: Session)
        ensures
            r.wf(),
            r.idle(),
            r.registry().len() == all_ids_spec().len(),
            forall|i: int| 0 <= i < all_ids_spec().len() ==> #[trigger] r.registry()[i] == (Feature { id: all_ids_spec()[i], value: BITS_NAN }),
    {
        let ids = all_ids();
        let mut features: Vec<Feature> = Vec::new();
        let mut i: usize = 0;
        while i < ids.len()
            invariant
                i <= ids@.len(),
                ids@ == all_ids_spec(),
                features@.len() == i,
                forall|j: int| 0 <= j < i ==> #[trigger] features@[j] == (Feature { id: all_ids_spec()[j], value: BITS_NAN }),
            decreases ids@.len() - i,
        {
            features.push(Feature { id: ids[i], value: BITS_NAN });
            i = i + 1;
        }
        let r = Session { features, todo: Vec::new(), pending: None, attempts: 0, unconfirmed: 0 };
        assert(distinct_ids(r.registry()));
        r
    }

    /// A session over the given features; `None` if an id is registered
    /// twice.
    pub fn from_features(features: Vec<Feature>) -> (r: Option<Session>)
        ensures
            r is Some <==> distinct_ids(features@),
            r is Some ==> (r->0.wf() && r->0.idle() && r->0.registry() == features@),
    {
        let mut i: usize = 0;
        while i < features.len()
            invariant
                i <= features@.len(),
                forall|a: int, b: int| 0 <= a < b < features@.len() && a < i ==> features@[a].id != features@[b].id,
            decreases features@.len() - i,
        {
            let mut j: usize = i + 1;
            while j < features.len()
                invariant
                    i < features@.len(),
                    i + 1 <= j <= features@.len(),
                    forall|a: int, b: int| 0 <= a < b < features@.len() && a < i ==> features@[a].id != features@[b].id,
                    forall|b: int| i < b < j ==> features@[i as int].id != features@[b].id,
                decreases features@.len() - j,
            {
                if features[i].id == features[j].id {
                    return None;
                }
                j = j + 1;
            }
            i = i + 1;
        }
        Some(Session { features, todo: Vec::new(), pending: None, attempts: 0, unconfirmed: 0 })
    }

    /// The cached value of `id` (a NaN until first read).
    pub fn get(&self, id: FeatureId) -> (r: Result<u32, EngineError>)
        requires
            self.wf(),
        ensures
            !registered(self.registry(), id) ==> r == Err::<u32, EngineError>(EngineError::NotFound),
            registered(self.registry(), id) ==> r == Ok::<u32, EngineError>(cached(self.registry(), id)),
    {
        match find(&self.features, id) {
            Some(i) => Ok(self.features[i].value),
            None => Err(EngineError::NotFound),
        }
    }

    /// A copy of the registry with its cached values.
    pub fn features(&self) -> (r: Vec<Feature>)
        ensures
            r@ == self.registry(),
    {
        self.features.clone()
    }

    /// Whether no operation is in progress.
    pub fn is_idle(&self) -> (r: bool)
        ensures
            r == self.idle(),
    {
        self.todo.len() == 0 && self.pending.is_none()
    }

    /// Confirmations given up (no matching response within the attempt
    /// bound) since the current operation began.
    pub fn unconfirmed(&self) -> (r: u32)
        ensures
            r == self.unconfirmed_spec(),
    {
        self.unconfirmed
    }

    /// Starts a managed set of `id`: to `value`, or, for a toggle with no
    /// value, to the opposite of its cached state.
    pub fn begin_set(&mut self, id: FeatureId, value: Option<u32>) -> (r: Result<(), EngineError>)
        requires
            old(self).wf(),
            old(self).idle(),
        ensures
            final(self).wf(),
            final(self).registry() == old(self).registry(),
            !registered(old(self).registry(), id) ==> (r == Err::<(), EngineError>(EngineError::NotFound)
                && final(self).idle()),
            registered(old(self).registry(), id) ==> match intended(id, cached(old(self).registry(), id), value) {
                Err(e) => r == Err::<(), EngineError>(e) && final(self).idle(),
                Ok(bits) => r is Ok && final(self).pending_spec() is None && final(self).todo_spec() == plan(
                    old(self).registry(),
                    id,
                    bits,
                ) && final(self).unconfirmed_spec() == 0,
            },
    {
        let i = match find(&self.features, id) {
            Some(i) => i,
            None => {
                return Err(EngineError::NotFound);
            },
        };
        let current = self.features[i].value;
        let bits = match value {
            Some(v) => {
                if id.is_toggle() && toggle_value(v).is_none() {
                    return Err(EngineError::InvalidInput);
                }
                v
            },
            None => {
                if !id.is_toggle() {
                    return Err(EngineError::InvalidInput);
                }
                match toggle_value(current) {
                    Some(on) => if on {
                        BITS_ZERO
                    } else {
                        BITS_ONE
                    },
                    None => {
                        return Err(EngineError::ProtocolViolation);
                    },
                }
            },
        };
        self.todo = make_plan(&self.features, id, bits);
        self.unconfirmed = 0;
        Ok(())
    }

    /// Starts a re-read of every registered feature.
    pub fn begin_refresh(&mut self)
        requires
            old(self).wf(),
            old(self).idle(),
        ensures
            final(self).wf(),
            final(self).registry() == old(self).registry(),
            final(self).pending_spec() is None,
            final(self).todo_spec() == full_refresh(old(self).registry()),
            final(self).unconfirmed_spec() == 0,
    {
        self.todo = refresh_all(&self.features);
        self.unconfirmed = 0;
    }

    /// Starts a reset: every feature but the output route written to its
    /// default, then every value re-read.
    pub fn begin_reset(&mut self)
        requires
            old(self).wf(),
            old(self).idle(),
        ensures
            final(self).wf(),
            final(self).registry() == old(self).registry(),
            final(self).pending_spec() is None,
            final(self).todo_spec() == reset_plan(old(self).registry()),
            final(self).unconfirmed_spec() == 0,
    {
        let mut t = make_default_writes(&self.features, false);
        let mut toggles = make_default_writes(&self.features, true);
        let mut reads = refresh_all(&self.features);
        t.append(&mut toggles);
        t.append(&mut reads);
        self.todo = t;
        self.unconfirmed = 0;
    }
}

/// One transition taking up the next task, with nothing awaited: the
/// operation ends when no work is left; an enable is skipped when the
/// toggle is on, expanded into a managed set when it is off, and fails
/// when the feature is missing or its value is not a toggle state; a write
/// or read of a registered feature is transmitted and awaited, of a missing
/// one skipped.
pub open spec fn advanced(old: Session, new: Session, a: Action) -> bool {
    &&& new.registry() == old.registry()
    &&& new.unconfirmed_spec() == old.unconfirmed_spec()
    &&& if old.todo_spec().len() == 0 {
        a is Finished && a->Finished_0 == Ok::<(), EngineError>(()) && new.idle()
    } else {
        let rest = old.todo_spec().drop_first();
        let reg = old.registry();
        match old.todo_spec()[0] {
            Task::EnsureOn(d) => if !registered(reg, d) {
                a is Finished && a->Finished_0 == Err::<(), EngineError>(EngineError::NotFound) && new.idle()
            } else {
                match toggle_state(cached(reg, d)) {
                    Some(true) => a is Continue && new.pending_spec() is None && new.todo_spec() == rest,
                    Some(false) => a is Continue && new.pending_spec() is None && new.todo_spec() == plan(
                        reg,
                        d,
                        BITS_ONE,
                    ) + rest,
                    None => a is Finished && a->Finished_0 == Err::<(), EngineError>(
                        EngineError::ProtocolViolation,
                    ) && new.idle(),
                }
            },
            Task::Write(f, v) => new.todo_spec() == rest && if registered(reg, f) {
                a is Transmit && a->Transmit_0@ == write_packet(f, v) && new.pending_spec() == Some(
                    Task::Write(f, v),
                ) && new.attempts_spec() == 0
            } else {
                a is Continue && new.pending_spec() is None
            },
            Task::Read(f) => new.todo_spec() == rest && if registered(reg, f) {
                a is Transmit && a->Transmit_0@ == query_packet(f) && new.pending_spec() == Some(Task::Read(f))
                    && new.attempts_spec() == 0
            } else {
                a is Continue && new.pending_spec() is None
            },
        }
    }
}

/// One poll that brought nothing matching: another poll while attempts
/// remain; after the last one the confirmation is given up (counted, the
/// cached value left as it was) and the operation moves on.
pub open spec fn missed(old: Session, new: Session, a: Action) -> bool {
    &&& new.registry() == old.registry()
    &&& new.todo_spec() == old.todo_spec()
    &&& old.attempts_spec() + 1 < MAX_READ_ATTEMPTS ==> (a is Poll && new.pending_spec() == old.pending_spec()
        && new.attempts_spec() == old.attempts_spec() + 1 && new.unconfirmed_spec() == old.unconfirmed_spec())
    &&& old.attempts_spec() + 1 >= MAX_READ_ATTEMPTS ==> (a is Continue && new.pending_spec() is None
        && new.unconfirmed_spec() == (if old.unconfirmed_spec() < u32::MAX {
        old.unconfirmed_spec() + 1
    } else {
        old.unconfirmed_spec() as int
    }))
}

impl Session {
    /// Ends the current operation with `e`.
    fn abort(&mut self, e: EngineError) -> (a: Action)
        requires
            old(self).wf(),
        ensures
            final(self).wf(),
            final(self).idle(),
            final(self).registry() == old(self).registry(),
            final(self).unconfirmed_spec() == old(self).unconfirmed_spec(),
            a is Finished && a->Finished_0 == Err::<(), EngineError>(e),
    {
        self.todo = Vec::new();
        self.pending = None;
        self.attempts = 0;
        Action::Finished(Err(e))
    }

    /// One poll without a matching response.
    fn miss(&mut self) -> (a: Action)
        requires
            old(self).wf(),
            old(self).pending_spec() is Some,
        ensures
            final(self).wf(),
            missed(*old(self), *final(self), a),
    {
        if self.attempts + 1 < MAX_READ_ATTEMPTS {
            self.attempts = self.attempts + 1;
            Action::Poll
        } else {
            self.pending = None;
            self.attempts = 0;
            if self.unconfirmed < u32::MAX {
                self.unconfirmed = self.unconfirmed + 1;
            }
            Action::Continue
        }
    }

    /// Takes up the next task of the current operation.
    fn advance(&mut self) -> (a: Action)
        requires
            old(self).wf(),
            old(self).pending_spec() is None,
        ensures
            final(self).wf(),
            advanced(*old(self), *final(self), a),
    {
        if self.todo.len() == 0 {
            return Action::Finished(Ok(()));
        }
        let ghost old_todo = self.todo@;
        let task = self.todo.remove(0);
        assert(self.todo@ =~= old_todo.drop_first());
        match task {
            Task::EnsureOn(d) => match find(&self.features, d) {
                None => self.abort(EngineError::NotFound),
                Some(i) => match toggle_value(self.features[i].value) {
                    Some(true) => Action::Continue,
                    Some(false) => {
                        let mut p = make_plan(&self.features, d, BITS_ONE);
                        p.append(&mut self.todo);
                        self.todo = p;
                        Action::Continue
                    },
                    None => self.abort(EngineError::ProtocolViolation),
                },
            },
            Task::Write(f, v) => match find(&self.features, f) {
                None => Action::Continue,
                Some(_) => {
                    self.pending = Some(Task::Write(f, v));
                    self.attempts = 0;
                    Action::Transmit(write_for(f, v))
                },
            },
            Task::Read(f) => match find(&self.features, f) {
                None => Action::Continue,
                Some(_) => {
                    self.pending = Some(Task::Read(f));
                    self.attempts = 0;
                    Action::Transmit(query_for(f))
                },
            },
        }
    }

    /// Advances the current operation by one transition.
    ///
    /// With nothing awaited, the event is ignored and the next task is
    /// taken up. With a write or read awaited: `Ready` and `Sent` ask for a
    /// poll; a transport failure aborts the operation; a response that
    /// confirms the awaited write (an acknowledgement) or read (the same
    /// address) completes it, a read storing the confirmed value; anything
    /// else counts as one attempt, and after `MAX_READ_ATTEMPTS` of them
    /// the confirmation is given up and the value left as it was.
    pub fn step(&mut self, event: Event) -> (a: Action)
        requires
            old(self).wf(),
        ensures
            final(self).wf(),
            final(self).same_ids(old(self)),
            old(self).pending_spec() is None ==> advanced(*old(self), *final(self), a),
            old(self).pending_spec() is Some ==> match event {
                Event::Ready | Event::Sent => a is Poll && *final(self) == *old(self),
                Event::SendFailed | Event::ReadFailed => a is Finished && a->Finished_0 == Err::<(), EngineError>(
                    EngineError::Transport,
                ) && final(self).idle() && final(self).registry() == old(self).registry(),
                Event::Received(bytes) => {
                    let resp = response_spec(bytes@);
                    match old(self).pending_spec()->0 {
                        Task::Read(f) => match reading(f, resp) {
                            Some(v) => a is Continue && final(self).pending_spec() is None
                                && final(self).registry() == with_value(old(self).registry(), f, v)
                                && final(self).todo_spec() == old(self).todo_spec()
                                && final(self).unconfirmed_spec() == old(self).unconfirmed_spec(),
                            None => missed(*old(self), *final(self), a),
                        },
                        _ => if resp is Ack {
                            a is Continue && final(self).pending_spec() is None && final(self).registry()
                                == old(self).registry() && final(self).todo_spec() == old(self).todo_spec()
                                && final(self).unconfirmed_spec() == old(self).unconfirmed_spec()
                        } else {
                            missed(*old(self), *final(self), a)
                        },
                    }
                },
                Event::Silence => missed(*old(self), *final(self), a),
            },
    {
        let t = match self.pending {
            None => {
                return self.advance();
            },
            Some(t) => t,
        };
        match event {
            Event::Ready | Event::Sent => Action::Poll,
            Event::SendFailed | Event::ReadFailed => self.abort(EngineError::Transport),
            Event::Received(bytes) => {
                let resp = decode_response(bytes.as_slice());
                match t {
                    Task::Read(f) => match reading_of(f, resp) {
                        Some(v) => {
                            let i = match find(&self.features, f) {
                                Some(i) => i,
                                None => {
                                    return self.miss();
                                },
                            };
                            let ghost before = self.features@;
                            self.features.set(i, Feature { id: f, value: v });
                            proof {
                                assert(self.features@ =~= with_value(before, f, v));
                                assert forall|x: int, y: int| 0 <= x < y < self.features@.len() implies
                                    self.features@[x].id != self.features@[y].id by {
                                    assert(before[x].id != before[y].id);
                                }
                            }
                            self.pending = None;
                            self.attempts = 0;
                            Action::Continue
                        },
                        None => self.miss(),
                    },
                    _ => match resp {
                        Response::Ack => {
                            self.pending = None;
                            self.attempts = 0;
                            Action::Continue
                        },
                        _ => self.miss(),
                    },
                }
            },
            Event::Silence => self.miss(),
        }
    }
}

/// Bounded recursion: every enable that a managed set schedules is of a
/// feature strictly lower in the dependency graph, whose depth is at most
/// two. A feature of depth two is preceded by exactly two enables, the
/// master switch and then its group toggle, before its own write; the
/// master switch itself schedules no enable at all.
pub proof fn lemma_bounded_recursion(s: Seq<Feature>, id: FeatureId, bits: u32)
    ensures
        forall|k: int|
            0 <= k < plan(s, id, bits).len() && #[trigger] plan(s, id, bits)[k] is EnsureOn ==> plan(
                s,
                id,
                bits,
            )[k]->EnsureOn_0.depth() < id.depth() <= 2,
        id.depth() == 2 ==> ({
            let p = plan(s, id, bits);
            &&& p.len() >= 3
            &&& p[0] == Task::EnsureOn(FeatureId::SbxMaster)
            &&& p[1] == Task::EnsureOn(id.group_toggle()->0)
            &&& p[2] == Task::Write(id, bits)
            &&& forall|k: int| 2 <= k < p.len() ==> !(#[trigger] p[k] is EnsureOn)
        }),
        forall|k: int|
            0 <= k < plan(s, FeatureId::SbxMaster, bits).len() ==> !(#[trigger] plan(
                s,
                FeatureId::SbxMaster,
                bits,
            )[k] is EnsureOn),
{
    let p = plan(s, id, bits);
    if id != FeatureId::Output {
        let deps = id.dependencies_spec();
        assert forall|k: int| 0 <= k < p.len() && #[trigger] p[k] is EnsureOn implies p[k]->EnsureOn_0.depth()
            < id.depth() <= 2 by {
            assert(k < deps.len());
            assert(p[k] == Task::EnsureOn(deps[k]));
            crate::registry::lemma_dependency_depth(id, deps[k]);
            assert(deps.contains(deps[k]));
        }
    }
}

/// Writing the output route refreshes every feature: the write comes first
/// and every registered feature, the route included, is read after it.
pub proof fn lemma_output_refreshes_all(s: Seq<Feature>, bits: u32, f: FeatureId)
    requires
        registered(s, f),
    ensures
        plan(s, FeatureId::Output, bits)[0] == Task::Write(FeatureId::Output, bits),
        exists|k: int|
            0 < k < plan(s, FeatureId::Output, bits).len() && #[trigger] plan(s, FeatureId::Output, bits)[k]
                == Task::Read(f),
{
    let p = plan(s, FeatureId::Output, bits);
    let i = choose|i: int| 0 <= i < s.len() && s[i].id == f;
    assert(p[i + 1] == Task::Read(f));
}

/// The two packets of a confirmed write: the write itself and the query
/// that reads the value back.
pub struct Payload {
    pub data: Vec<u8>,
    pub commit: Vec<u8>,
}

/// The write packet for `bits` at `id` and the query that confirms it.
pub fn create_payload(id: FeatureId, bits: u32) -> (r: Payload)
    ensures
        r.data@ == write_packet(id, bits),
        r.commit@ == query_packet(id),
{
    Payload { data: write_for(id, bits), commit: query_for(id) }
}

} // verus!
