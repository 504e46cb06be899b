//! The single-instance lock protocol.
//!
//! A session is active exactly while the lock file exists. Acquisition is
//! exclusive-create, then validate-the-holder, then either signal it or
//! discard a stale file and retry exactly once. The protocol is a state
//! machine over plain observations; the caller performs the file and
//! signal operations and reports what it saw.

use vstd::prelude::*;

verus! {

/// The result of one acquisition run.
#[derive(Debug, Clone, Copy, PartialEq, Eq, Structural)]
pub enum AcquireOutcome {
    /// The lock file was created: this process owns the session.
    Owned,
    /// A live, valid peer holds the lock and Toggle was delivered to it.
    SignalSent,
    /// Acquisition failed fatally.
    Failed,
}

/// What exclusive creation of the lock file reported.
#[derive(Debug, Clone, Copy, PartialEq, Eq, Structural)]
pub enum CreateResult {
    /// The file was created atomically and now records this process.
    Created,
    /// The path is already occupied.
    AlreadyExists,
    /// Creation failed for another reason.
    CreateError,
}

/// What validating the recorded holder reported.
#[derive(Debug, Clone, Copy, PartialEq, Eq, Structural)]
pub enum PeerValidation {
    /// No process identifier could be read from the file.
    NoReadablePid,
    /// The recorded process is dead, or is not an instance of this program.
    NotThisProgram,
    /// The recorded process is alive and is an instance of this program.
    LiveValidInstance,
}

/// What delivering Toggle to the validated peer reported.
#[derive(Debug, Clone, Copy, PartialEq, Eq, Structural)]
pub enum SignalDelivery {
    /// The signal was delivered.
    Delivered,
    /// The peer no longer exists: it exited between validation and
    /// signalling, which is treated as a race, not a failure.
    NoSuchProcess,
    /// Delivery failed for another reason (for example, permissions).
    DeliveryError,
}

/// What the caller must do next.
#[derive(Debug, Clone, Copy, PartialEq, Eq, Structural)]
pub enum LockPhase {
    /// Attempt exclusive creation of the lock file.
    TryCreate,
    /// Read the recorded process identifier and validate the holder.
    ValidatePeer,
    /// Send Toggle to the validated holder.
    SignalPeer,
    /// The run is over; the outcome is set.
    Done,
}

/// The acquisition state machine. `create_attempts` counts exclusive-create
/// attempts (at most two: the initial one and one retry after discarding a
/// stale lock or losing a signalling race); `toggles_delivered` counts
/// Toggle deliveries that succeeded.
pub struct LockAcquisition {
    pub phase: LockPhase,
    pub create_attempts: u8,
    pub toggles_delivered: u8,
    pub outcome: Option<AcquireOutcome>,
}

impl LockAcquisition {
    /// The machine before the first create attempt.
    pub open spec fn spec_initial() -> LockAcquisition {
        LockAcquisition {
            phase: LockPhase::TryCreate,
            create_attempts: 0,
            toggles_delivered: 0,
            outcome: None,
        }
    }

    /// Well-formedness: at most two create attempts ever happen, the
    /// outcome is set exactly when the run is done, at most one Toggle is
    /// delivered per run, and exactly one when the outcome is `SignalSent`.
    pub open spec fn wf(self) -> bool {
        &&& self.create_attempts <= 2
        &&& (self.phase is Done <==> self.outcome is Some)
        &&& (self.phase is TryCreate ==> self.create_attempts < 2)
        &&& (self.phase is ValidatePeer ==> 1 <= self.create_attempts)
        &&& (self.phase is SignalPeer ==> 1 <= self.create_attempts)
        &&& self.toggles_delivered <= 1
        &&& (self.outcome == Some(AcquireOutcome::SignalSent) <==> self.toggles_delivered == 1)
    }

    /// Transition on a create observation.
    pub open spec fn spec_after_create(self, r: CreateResult) -> LockAcquisition {
        match r {
            CreateResult::Created => LockAcquisition {
                phase: LockPhase::Done,
                create_attempts: (self.create_attempts + 1) as u8,
                outcome: Some(AcquireOutcome::Owned),
                ..self
            },
            CreateResult::AlreadyExists => LockAcquisition {
                phase: LockPhase::ValidatePeer,
                create_attempts: (self.create_attempts + 1) as u8,
                ..self
            },
            CreateResult::CreateError => LockAcquisition {
                phase: LockPhase::Done,
                create_attempts: (self.create_attempts + 1) as u8,
                outcome: Some(AcquireOutcome::Failed),
                ..self
            },
        }
    }

    /// Transition on a validation observation. The boolean says whether the
    /// caller must remove the lock file (it was stale).
    pub open spec fn spec_after_validation(self, v: PeerValidation) -> (LockAcquisition, bool) {
        match v {
            PeerValidation::LiveValidInstance => (
                LockAcquisition { phase: LockPhase::SignalPeer, ..self },
                false,
            ),
            _ => {
                if self.create_attempts < 2 {
                    (LockAcquisition { phase: LockPhase::TryCreate, ..self }, true)
                } else {
                    (
                        LockAcquisition {
                            phase: LockPhase::Done,
                            outcome: Some(AcquireOutcome::Failed),
                            ..self
                        },
                        true,
                    )
                }
            },
        }
    }

    /// Transition on a signal-delivery observation. The boolean says
    /// whether the caller must remove the lock file (the peer vanished).
    pub open spec fn spec_after_signal(self, d: SignalDelivery) -> (LockAcquisition, bool) {
        match d {
            SignalDelivery::Delivered => (
                LockAcquisition {
                    phase: LockPhase::Done,
                    toggles_delivered: (self.toggles_delivered + 1) as u8,
                    outcome: Some(AcquireOutcome::SignalSent),
                    ..self
                },
                false,
            ),
            SignalDelivery::NoSuchProcess => {
                if self.create_attempts < 2 {
                    (LockAcquisition { phase: LockPhase::TryCreate, ..self }, true)
                } else {
                    (
                        LockAcquisition {
                            phase: LockPhase::Done,
                            outcome: Some(AcquireOutcome::Failed),
                            ..self
                        },
                        true,
                    )
                }
            },
            SignalDelivery::DeliveryError => (
                LockAcquisition {
                    phase: LockPhase::Done,
                    outcome: Some(AcquireOutcome::Failed),
                    ..self
                },
                false,
            ),
        }
    }

    /// The machine before the first create attempt.
    pub fn new() -> (m: LockAcquisition)
        ensures
            m == Self::spec_initial(),
            m.wf(),
    {
        LockAcquisition {
            phase: LockPhase::TryCreate,
            create_attempts: 0,
            toggles_delivered: 0,
            outcome: None,
        }
    }

    /// Report the result of an exclusive-create attempt.
    pub fn observe_create(&mut self, r: CreateResult)
        requires
            old(self).wf(),
            old(self).phase is TryCreate,
        ensures
            *final(self) == old(self).spec_after_create(r),
            final(self).wf(),
    {
        self.create_attempts = self.create_attempts + 1;
        match r {
            CreateResult::Created => {
                self.phase = LockPhase::Done;
                self.outcome = Some(AcquireOutcome::Owned);
            },
            CreateResult::AlreadyExists => {
                self.phase = LockPhase::ValidatePeer;
            },
            CreateResult::CreateError => {
                self.phase = LockPhase::Done;
                self.outcome = Some(AcquireOutcome::Failed);
            },
        }
    }

    /// Report what validating the recorded holder found. Returns whether
    /// the caller must remove the (stale) lock file before continuing.
    pub fn observe_validation(&mut self, v: PeerValidation) -> (remove_file: bool)
        requires
            old(self).wf(),
            old(self).phase is ValidatePeer,
        ensures
            (*final(self), remove_file) == old(self).spec_after_validation(v),
            final(self).wf(),
    {
        match v {
            PeerValidation::LiveValidInstance => {
                self.phase = LockPhase::SignalPeer;
                false
            },
            _ => {
                if self.create_attempts < 2 {
                    self.phase = LockPhase::TryCreate;
                } else {
                    self.phase = LockPhase::Done;
                    self.outcome = Some(AcquireOutcome::Failed);
                }
                true
            },
        }
    }

    /// Report what delivering Toggle to the peer found. Returns whether the
    /// caller must remove the lock file (the peer vanished mid-race).
    pub fn observe_signal(&mut self, d: SignalDelivery) -> (remove_file: bool)
        requires
            old(self).wf(),
            old(self).phase is SignalPeer,
        ensures
            (*final(self), remove_file) == old(self).spec_after_signal(d),
            final(self).wf(),
    {
        match d {
            SignalDelivery::Delivered => {
                self.phase = LockPhase::Done;
                self.toggles_delivered = self.toggles_delivered + 1;
                self.outcome = Some(AcquireOutcome::SignalSent);
                false
            },
            SignalDelivery::NoSuchProcess => {
                if self.create_attempts < 2 {
                    self.phase = LockPhase::TryCreate;
                } else {
                    self.phase = LockPhase::Done;
                    self.outcome = Some(AcquireOutcome::Failed);
                }
                true
            },
            SignalDelivery::DeliveryError => {
                self.phase = LockPhase::Done;
                self.outcome = Some(AcquireOutcome::Failed);
                false
            },
        }
    }

    /// Whether the run is over.
    pub fn is_done(&self) -> (b: bool)
        ensures
            b == (self.phase is Done),
    {
        match self.phase {
            LockPhase::Done => true,
            _ => false,
        }
    }

    /// The outcome, once the run is over.
    pub fn outcome(&self) -> (o: Option<AcquireOutcome>)
        ensures
            o == self.outcome,
    {
        self.outcome
    }
}

/// An invocation that finds the lock held by a live, valid peer delivers
/// exactly one Toggle and ends with `SignalSent`: it does no further work
/// of its own.
pub proof fn lemma_second_invocation_delivers_one_toggle(
    s0: LockAcquisition,
    s1: LockAcquisition,
    s2: LockAcquisition,
    s3: LockAcquisition,
)
    requires
        s0 == LockAcquisition::spec_initial(),
        s1 == s0.spec_after_create(CreateResult::AlreadyExists),
        s2 == s1.spec_after_validation(PeerValidation::LiveValidInstance).0,
        s3 == s2.spec_after_signal(SignalDelivery::Delivered).0,
    ensures
        s3.outcome == Some(AcquireOutcome::SignalSent),
        s3.toggles_delivered == 1,
        s3.create_attempts == 1,
        s3.wf(),
{
}

/// A lock whose recorded process is dead or foreign is discarded and the
/// create is retried exactly once: the retry's success yields `Owned`,
/// while a second stale find is fatal.
pub proof fn lemma_stale_lock_retried_exactly_once(
    s0: LockAcquisition,
    s1: LockAcquisition,
    s2: LockAcquisition,
    removed: bool,
    v: PeerValidation,
)
    requires
        s0 == LockAcquisition::spec_initial(),
        s1 == s0.spec_after_create(CreateResult::AlreadyExists),
        !(v is LiveValidInstance),
        (s2, removed) == s1.spec_after_validation(v),
    ensures
        removed,
        s2.phase is TryCreate,
        s2.create_attempts == 1,
        s2.spec_after_create(CreateResult::Created).outcome == Some(AcquireOutcome::Owned),
        s2.spec_after_create(CreateResult::AlreadyExists).spec_after_validation(v).0.outcome
            == Some(AcquireOutcome::Failed),
{
}

/// An ASCII whitespace character, as the lock-file format allows around
/// the recorded process identifier.
pub open spec fn is_ascii_space(c: char) -> bool {
    c == ' ' || c == '\t' || c == '\n' || c == '\r' || c == '\u{b}' || c == '\u{c}'
}

/// The text with leading ASCII whitespace removed.
pub open spec fn spec_trim_start(s: Seq<char>) -> Seq<char>
    decreases s.len(),
{
    if s.len() > 0 && is_ascii_space(s[0]) {
        spec_trim_start(s.subrange(1, s.len() as int))
    } else {
        s
    }
}

/// The text with trailing ASCII whitespace removed.
pub open spec fn spec_trim_end(s: Seq<char>) -> Seq<char>
    decreases s.len(),
{
    if s.len() > 0 && is_ascii_space(s.last()) {
        spec_trim_end(s.subrange(0, s.len() - 1))
    } else {
        s
    }
}

/// The text with surrounding ASCII whitespace removed.
pub open spec fn spec_trim(s: Seq<char>) -> Seq<char> {
    spec_trim_end(spec_trim_start(s))
}

/// The value a digit character contributes; non-digits contribute zero.
pub open spec fn char_digit(c: char) -> nat {
    if '0' <= c && c <= '9' {
        ((c as int) - ('0' as int)) as nat
    } else {
        0
    }
}

/// Whether every character is a decimal digit.
pub open spec fn all_digits(s: Seq<char>) -> bool {
    forall|i: int| 0 <= i < s.len() ==> '0' <= #[trigger] s[i] && s[i] <= '9'
}

/// The number a digit string denotes, most significant digit first.
pub open spec fn digits_value(s: Seq<char>) -> nat
    decreases s.len(),
{
    if s.len() == 0 {
        0
    } else {
        digits_value(s.subrange(0, s.len() - 1)) * 10 + char_digit(s.last())
    }
}

/// What the lock file's text records: the trimmed text must be one or
/// more decimal digits denoting a value that fits the identifier type.
pub open spec fn spec_parse_pid(s: Seq<char>) -> Option<u32> {
    let t = spec_trim(s);
    if t.len() > 0 && all_digits(t) && digits_value(t) <= 0xFFFF_FFFF {
        Some(digits_value(t) as u32)
    } else {
        None
    }
}

/// Exec check for ASCII whitespace.
fn is_space_char(c: char) -> (r: bool)
    ensures
        r == is_ascii_space(c),
{
    c == ' ' || c == '\t' || c == '\n' || c == '\r' || c == '\u{b}' || c == '\u{c}'
}

/// Skipping known-whitespace from the front computes `spec_trim_start`.
proof fn lemma_trim_start_skip(s: Seq<char>, a: int)
    requires
        0 <= a <= s.len(),
        forall|m: int| 0 <= m < a ==> is_ascii_space(#[trigger] s[m]),
        a == s.len() || !is_ascii_space(s[a]),
    ensures
        spec_trim_start(s) == s.subrange(a, s.len() as int),
    decreases a,
{
    if a == 0 {
        assert(s.subrange(0, s.len() as int) =~= s);
    } else {
        assert(is_ascii_space(s[0]));
        let rest = s.subrange(1, s.len() as int);
        lemma_trim_start_skip(rest, a - 1);
        assert(rest.subrange(a - 1, rest.len() as int) =~= s.subrange(a, s.len() as int));
    }
}

/// Skipping known-whitespace from the back computes `spec_trim_end`.
proof fn lemma_trim_end_skip(s: Seq<char>, b: int)
    requires
        0 <= b <= s.len(),
        forall|m: int| b <= m < s.len() ==> is_ascii_space(#[trigger] s[m]),
        b == 0 || !is_ascii_space(s[b - 1]),
    ensures
        spec_trim_end(s) == s.subrange(0, b),
    decreases s.len() - b,
{
    if b == s.len() {
        assert(s.subrange(0, s.len() as int) =~= s);
    } else {
        assert(is_ascii_space(s.last()));
        let rest = s.subrange(0, s.len() - 1);
        lemma_trim_end_skip(rest, b);
        assert(rest.subrange(0, b) =~= s.subrange(0, b));
    }
}

/// A digit string's value only grows as more digits follow.
proof fn lemma_digits_value_prefix_le(s: Seq<char>, k: int)
    requires
        0 <= k <= s.len(),
    ensures
        digits_value(s.subrange(0, k)) <= digits_value(s),
    decreases s.len() - k,
{
    if k == s.len() {
        assert(s.subrange(0, k) =~= s);
    } else {
        let p = s.subrange(0, k + 1);
        assert(p.subrange(0, k) =~= s.subrange(0, k));
        assert(digits_value(p) == digits_value(s.subrange(0, k)) * 10 + char_digit(p.last()));
        lemma_digits_value_prefix_le(s, k + 1);
    }
}

/// Parse the lock file's contents: the recorded process identifier, when
/// the trimmed text is a decimal number that fits, and nothing otherwise.
pub fn parse_pid(s: &str) -> (r: Option<u32>)
    ensures
        r == spec_parse_pid(s@),
{
    let n = s.unicode_len();
    let mut a: usize = 0;
    while a < n && is_space_char(s.get_char(a))
        invariant
            0 <= a <= n,
            n == s@.len(),
            forall|m: int| 0 <= m < a ==> is_ascii_space(#[trigger] s@[m]),
        decreases n - a,
    {
        a = a + 1;
    }
    let mut b: usize = n;
    while b > a && is_space_char(s.get_char(b - 1))
        invariant
            a <= b <= n,
            n == s@.len(),
            forall|m: int| 0 <= m < a ==> is_ascii_space(#[trigger] s@[m]),
            forall|m: int| b <= m < n ==> is_ascii_space(#[trigger] s@[m]),
        decreases b,
    {
        b = b - 1;
    }
    let ghost start = s@.subrange(a as int, n as int);
    let ghost t = s@.subrange(a as int, b as int);
    proof {
        lemma_trim_start_skip(s@, a as int);
        if b == a {
            lemma_trim_end_skip(start, 0);
        } else {
            lemma_trim_end_skip(start, b - a);
        }
        assert(start.subrange(0, b - a) =~= t);
        assert(spec_trim(s@) == t);
    }
    if a == b {
        return None;
    }
    let mut val: u64 = 0;
    let mut k: usize = a;
    while k < b
        invariant
            a < b <= n,
            a <= k <= b,
            n == s@.len(),
            t == s@.subrange(a as int, b as int),
            spec_trim(s@) == t,
            b - a == t.len(),
            forall|m: int| 0 <= m < k - a ==> '0' <= #[trigger] t[m] && t[m] <= '9',
            val == digits_value(t.subrange(0, k - a)),
            val <= 0xFFFF_FFFF,
        decreases b - k,
    {
        let c = s.get_char(k);
        let u = c as u32;
        if u < 48 || u > 57 {
            proof {
                assert(t[k - a] == s@[k as int]);
                assert(!('0' <= t[k - a] && t[k - a] <= '9')) by {
                    assert(('0' as u32) == 48 && ('9' as u32) == 57);
                }
            }
            return None;
        }
        let d = (u - 48) as u64;
        proof {
            assert(t[k - a] == c);
            assert('0' <= c && c <= '9') by {
                assert(('0' as u32) == 48 && ('9' as u32) == 57);
            }
            assert(char_digit(c) == (u - 48) as nat);
            let p = t.subrange(0, k - a + 1);
            assert(p.subrange(0, k - a) =~= t.subrange(0, k - a));
            assert(p.last() == c);
            assert(digits_value(p) == digits_value(t.subrange(0, k - a)) * 10 + char_digit(c));
        }
        val = val * 10 + d;
        k = k + 1;
        if val > 0xFFFF_FFFF {
            proof {
                lemma_digits_value_prefix_le(t, k - a);
            }
            return None;
        }
    }
    proof {
        assert(t.subrange(0, b - a) =~= t);
        assert(all_digits(t));
    }
    Some(val as u32)
}

/// The part of a path after its last slash.
pub open spec fn basename_spec(s: Seq<char>) -> Seq<char>
    decreases s.len(),
{
    if s.len() == 0 {
        s
    } else if s.last() == '/' {
        Seq::<char>::empty()
    } else {
        basename_spec(s.subrange(0, s.len() - 1)) + seq![s.last()]
    }
}

/// A slash-free suffix that starts at a slash (or at the beginning) is
/// the basename.
proof fn lemma_basename_suffix(s: Seq<char>, k: int)
    requires
        0 <= k <= s.len(),
        forall|m: int| k <= m < s.len() ==> #[trigger] s[m] != '/',
        k == 0 || s[k - 1] == '/',
    ensures
        basename_spec(s) == s.subrange(k, s.len() as int),
    decreases s.len() - k,
{
    if k == s.len() {
        if s.len() == 0 {
            assert(s.subrange(0, 0) =~= s);
        } else {
            assert(s.last() == '/');
            assert(s.subrange(k, s.len() as int) =~= Seq::<char>::empty());
        }
    } else {
        assert(s.last() != '/');
        let rest = s.subrange(0, s.len() - 1);
        lemma_basename_suffix(rest, k);
        assert(rest.subrange(k, rest.len() as int) =~= s.subrange(k, s.len() - 1));
        assert(s.subrange(k, s.len() - 1) + seq![s.last()] =~= s.subrange(k, s.len() as int));
    }
}

/// The part of a path after its last slash.
pub fn basename(path: &str) -> (r: String)
    ensures
        r@ == basename_spec(path@),
{
    let n = path.unicode_len();
    let mut j: usize = n;
    while j > 0 && path.get_char(j - 1) != '/'
        invariant
            0 <= j <= n,
            n == path@.len(),
            forall|m: int| j <= m < n ==> #[trigger] path@[m] != '/',
        decreases j,
    {
        j = j - 1;
    }
    proof {
        lemma_basename_suffix(path@, j as int);
    }
    path.substring_char(j, n).to_owned()
}

/// Whether the lock's recorded owner is a live instance of this program:
/// it must be alive, and either its canonical executable path equals this
/// process's, or the file name of its first command-line argument equals
/// this program's executable name.
pub open spec fn peer_identity_spec(
    alive: bool,
    current_exe: Option<Seq<char>>,
    target_exe: Option<Seq<char>>,
    current_name: Seq<char>,
    first_arg: Option<Seq<char>>,
) -> bool {
    &&& alive
    &&& {
        ||| (current_exe is Some && target_exe is Some && current_exe == target_exe)
        ||| (first_arg matches Some(a) && a.len() > 0 && basename_spec(a) == current_name)
    }
}

/// Decide whether the lock's recorded owner is a live, valid instance of
/// this program, from what the caller observed about it.
pub fn peer_is_this_program(
    alive: bool,
    current_exe: Option<&str>,
    target_exe: Option<&str>,
    current_name: &str,
    first_arg: Option<&str>,
) -> (r: bool)
    ensures
        r == peer_identity_spec(
            alive,
            crate::config::opt_str_view(current_exe),
            crate::config::opt_str_view(target_exe),
            current_name@,
            crate::config::opt_str_view(first_arg),
        ),
{
    if !alive {
        return false;
    }
    if let (Some(c), Some(t)) = (current_exe, target_exe) {
        if crate::model::str_eq(c, t) {
            return true;
        }
    }
    match first_arg {
        Some(a) => {
            if a.unicode_len() == 0 {
                false
            } else {
                let base = basename(a);
                crate::model::str_eq(base.as_str(), current_name)
            }
        },
        None => false,
    }
}

} // verus!
