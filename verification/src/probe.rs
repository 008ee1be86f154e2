//! Helpers of the hardware probes: parsing experimental toggle-status
//! frames, the checksum candidates tried when probing, and text rendering of
//! frames and flags.

use vstd::prelude::*;

use crate::protocol::vibration::VibrationView;
use crate::protocol::{FlexBatteryMode, FlexBatterySettings, VibrationSettings};

verus! {

/// The checksums tried first when probing a toggle-status read command.
pub const PREFERRED_CHECKSUMS: [u8; 16] = [
    0x18,
    0x08,
    0x17,
    0x16,
    0x19,
    0x1A,
    0x1F,
    0x20,
    0x21,
    0x22,
    0x2C,
    0x2F,
    0xC2,
    0xCF,
    0xFD,
    0xFE,
];

/// The state reported by an experimental toggle-status frame for setting
/// `subtype`: exactly 9 bytes, `00 08 87 24 <subtype> <flag> 00 00 00`, with
/// flag `0x00` off and `0x01` on.
pub open spec fn toggle_status(b: Seq<u8>, subtype: u8) -> Option<bool> {
    if b.len() != 9 || b[0] != 0x00 || b[1] != 0x08 || b[2] != 0x87 || b[3] != 0x24 || b[4]
        != subtype || b[6] != 0x00 || b[7] != 0x00 || b[8] != 0x00 {
        None
    } else if b[5] == 0x00 {
        Some(false)
    } else if b[5] == 0x01 {
        Some(true)
    } else {
        None
    }
}

/// Parse an experimental toggle-status frame.
pub fn parse_toggle_status(bytes: &[u8], subtype: u8) -> (r: Option<bool>)
    ensures
        r == toggle_status(bytes@, subtype),
{
    if bytes.len() != 9 || bytes[0] != 0x00 || bytes[1] != 0x08 || bytes[2] != 0x87 || bytes[3]
        != 0x24 || bytes[4] != subtype || bytes[6] != 0x00 || bytes[7] != 0x00 || bytes[8] != 0x00 {
        return None;
    }
    match bytes[5] {
        0x00 => Some(false),
        0x01 => Some(true),
        _ => None,
    }
}

/// The bytes below `k`, in ascending order, that are not preferred checksums.
pub open spec fn remaining_checksums(k: nat) -> Seq<u8>
    decreases k,
{
    if k == 0 {
        Seq::empty()
    } else if PREFERRED_CHECKSUMS@.contains((k - 1) as u8) {
        remaining_checksums((k - 1) as nat)
    } else {
        remaining_checksums((k - 1) as nat).push((k - 1) as u8)
    }
}

/// The checksum candidates: the preferred checksums, then every other byte
/// in ascending order.
pub open spec fn spec_checksum_candidates() -> Seq<u8> {
    PREFERRED_CHECKSUMS@ + remaining_checksums(256)
}

proof fn lemma_remaining_below(k: nat)
    ensures
        forall|i: int|
            0 <= i < remaining_checksums(k).len() ==> (#[trigger] remaining_checksums(k)[i]) < k,
    decreases k,
{
    if k > 0 {
        lemma_remaining_below((k - 1) as nat);
        let prev = remaining_checksums((k - 1) as nat);
        assert forall|i: int| 0 <= i < remaining_checksums(k).len() implies (#[trigger] remaining_checksums(k)[i]) < k by {
            if i < prev.len() {
                assert(prev[i] < k - 1);
            } else {
                let b = (k - 1) as u8;
                assert(b < 256);
                if k <= 256 {
                    assert(b == k - 1);
                }
            }
        }
    }
}

fn contains_byte(v: &Vec<u8>, b: u8) -> (r: bool)
    ensures
        r == v@.contains(b),
{
    let mut i: usize = 0;
    while i < v.len()
        invariant
            i <= v@.len(),
            forall|j: int| 0 <= j < i ==> v@[j] != b,
        decreases v@.len() - i,
    {
        if v[i] == b {
            return true;
        }
        i = i + 1;
    }
    false
}

/// Return the checksum candidates tried when probing a toggle-status read
/// command: the preferred checksums first, then every other byte.
pub fn checksum_candidates() -> (r: Vec<u8>)
    ensures
        r@ == spec_checksum_candidates(),
{
    let mut candidates: Vec<u8> = Vec::new();
    let mut i: usize = 0;
    while i < 16
        invariant
            i <= 16,
            candidates@ == PREFERRED_CHECKSUMS@.subrange(0, i as int),
        decreases 16 - i,
    {
        candidates.push(PREFERRED_CHECKSUMS[i]);
        assert(candidates@ =~= PREFERRED_CHECKSUMS@.subrange(0, i + 1));
        i = i + 1;
    }
    assert(candidates@ =~= PREFERRED_CHECKSUMS@ + remaining_checksums(0));
    let mut k: u16 = 0;
    while k <= 255
        invariant
            k <= 256,
            candidates@ == PREFERRED_CHECKSUMS@ + remaining_checksums(k as nat),
        decreases 256 - k,
    {
        let b = k as u8;
        proof {
            lemma_remaining_below(k as nat);
            assert(b as int == k as int);
            assert(candidates@.contains(b) == PREFERRED_CHECKSUMS@.contains(b)) by {
                if candidates@.contains(b) && !PREFERRED_CHECKSUMS@.contains(b) {
                    let j = choose|j: int| 0 <= j < candidates@.len() && candidates@[j] == b;
                    if j >= 16 {
                        assert(remaining_checksums(k as nat)[j - 16] == b);
                    } else {
                        assert(PREFERRED_CHECKSUMS@[j] == b);
                    }
                }
                if PREFERRED_CHECKSUMS@.contains(b) {
                    let j = choose|j: int| 0 <= j < 16 && PREFERRED_CHECKSUMS@[j] == b;
                    assert(candidates@[j] == b);
                }
            }
        }
        if !contains_byte(&candidates, b) {
            candidates.push(b);
        }
        assert(candidates@ =~= PREFERRED_CHECKSUMS@ + remaining_checksums((k + 1) as nat));
        k = k + 1;
    }
    candidates
}

/// The label of an on/off setting.
pub open spec fn spec_bool_label(enabled: bool) -> Seq<char> {
    if enabled {
        "enabled"@
    } else {
        "disabled"@
    }
}

/// Return `enabled` or `disabled`.
pub fn bool_label(enabled: bool) -> (r: &'static str)
    ensures
        r@ == spec_bool_label(enabled),
{
    if enabled {
        "enabled"
    } else {
        "disabled"
    }
}

/// The text of a vibration configuration: each flag as `name=enabled` or
/// `name=disabled`, the charge-start flag last and only when present.
pub open spec fn vibration_text(v: VibrationView) -> Seq<char> {
    "heating_start="@ + spec_bool_label(v.heating_start) + ", starting_to_use="@ + spec_bool_label(
        v.starting_to_use,
    ) + ", puff_end="@ + spec_bool_label(v.puff_end) + ", manually_terminated="@
        + spec_bool_label(v.manually_terminated) + match v.charge_start {
        Some(on) => ", charge_start="@ + spec_bool_label(on),
        None => Seq::empty(),
    }
}

/// Render a vibration configuration as [`vibration_text`] describes.
pub fn format_vibration_settings(settings: VibrationSettings) -> (r: String)
    ensures
        r@ == vibration_text(settings@),
{
    let s = String::from_str("heating_start=");
    let s = s.concat(bool_label(settings.when_heating_start()));
    let s = s.concat(", starting_to_use=");
    let s = s.concat(bool_label(settings.when_starting_to_use()));
    let s = s.concat(", puff_end=");
    let s = s.concat(bool_label(settings.when_puff_end()));
    let s = s.concat(", manually_terminated=");
    let s = s.concat(bool_label(settings.when_manually_terminated()));
    let s = match settings.when_charging_start() {
        Some(on) => s.concat(", charge_start=").concat(bool_label(on)),
        None => s,
    };
    assert(s@ =~= vibration_text(settings@));
    s
}

/// The name of a `FlexBattery` mode.
pub open spec fn mode_name(mode: FlexBatteryMode) -> Seq<char> {
    match mode {
        FlexBatteryMode::Performance => "Performance"@,
        FlexBatteryMode::Eco => "Eco"@,
    }
}

/// The text of `FlexBattery` settings: `mode=<mode>, pause=<state>`, the
/// Pause Mode state reading `unavailable` when absent.
pub open spec fn flexbattery_text(mode: FlexBatteryMode, pause: Option<bool>) -> Seq<char> {
    "mode="@ + mode_name(mode) + ", pause="@ + match pause {
        Some(on) => spec_bool_label(on),
        None => "unavailable"@,
    }
}

/// Render `FlexBattery` settings as [`flexbattery_text`] describes.
pub fn format_flexbattery_settings(settings: FlexBatterySettings) -> (r: String)
    ensures
        r@ == flexbattery_text(settings@.0, settings@.1),
{
    let mode = match settings.mode() {
        FlexBatteryMode::Performance => "Performance",
        FlexBatteryMode::Eco => "Eco",
    };
    let pause = match settings.pause_mode() {
        Some(on) => bool_label(on),
        None => "unavailable",
    };
    let s = String::from_str("mode=").concat(mode).concat(", pause=").concat(pause);
    proof {
        reveal_strlit("unavailable");
        reveal_strlit("Performance");
        reveal_strlit("Eco");
    }
    assert(s@ =~= flexbattery_text(settings@.0, settings@.1));
    s
}

/// The upper-case hexadecimal digit for `d` (`0 <= d < 16`).
pub open spec fn hex_digit(d: nat) -> char {
    if d < 10 {
        crate::text::digit_char(d)
    } else if d == 10 {
        'A'
    } else if d == 11 {
        'B'
    } else if d == 12 {
        'C'
    } else if d == 13 {
        'D'
    } else if d == 14 {
        'E'
    } else {
        'F'
    }
}

/// Two upper-case hexadecimal digits for a byte.
pub open spec fn hex_pair(b: u8) -> Seq<char> {
    seq![hex_digit((b / 16) as nat), hex_digit((b % 16) as nat)]
}

/// The bytes as upper-case two-digit hexadecimal numbers separated by spaces.
pub open spec fn hex_text(bytes: Seq<u8>) -> Seq<char>
    decreases bytes.len(),
{
    if bytes.len() == 0 {
        Seq::empty()
    } else if bytes.len() == 1 {
        hex_pair(bytes[0])
    } else {
        hex_text(bytes.drop_last()) + " "@ + hex_pair(bytes.last())
    }
}

fn hex_digit_str(d: u8) -> (r: &'static str)
    requires
        d < 16,
    ensures
        r@ == seq![hex_digit(d as nat)],
{
    proof {
        reveal_strlit("0");
        reveal_strlit("1");
        reveal_strlit("2");
        reveal_strlit("3");
        reveal_strlit("4");
        reveal_strlit("5");
        reveal_strlit("6");
        reveal_strlit("7");
        reveal_strlit("8");
        reveal_strlit("9");
        reveal_strlit("A");
        reveal_strlit("B");
        reveal_strlit("C");
        reveal_strlit("D");
        reveal_strlit("E");
        reveal_strlit("F");
    }
    match d {
        0 => "0",
        1 => "1",
        2 => "2",
        3 => "3",
        4 => "4",
        5 => "5",
        6 => "6",
        7 => "7",
        8 => "8",
        9 => "9",
        10 => "A",
        11 => "B",
        12 => "C",
        13 => "D",
        14 => "E",
        _ => "F",
    }
}

/// Render bytes as upper-case two-digit hexadecimal numbers separated by
/// spaces, e.g. `00 C9 07`.
pub fn hex_bytes(bytes: &[u8]) -> (r: String)
    ensures
        r@ == hex_text(bytes@),
{
    let mut text = String::new();
    let mut i: usize = 0;
    while i < bytes.len()
        invariant
            i <= bytes@.len(),
            text@ == hex_text(bytes@.subrange(0, i as int)),
        decreases bytes@.len() - i,
    {
        let b = bytes[i];
        if i > 0 {
            text = text.concat(" ");
        }
        text = text.concat(hex_digit_str(b / 16));
        text = text.concat(hex_digit_str(b % 16));
        proof {
            let prefix = bytes@.subrange(0, i + 1);
            assert(prefix.drop_last() =~= bytes@.subrange(0, i as int));
            assert(prefix.last() == b);
            if i == 0 {
                assert(prefix.len() == 1);
            }
        }
        assert(text@ =~= hex_text(bytes@.subrange(0, i + 1)));
        i = i + 1;
    }
    assert(bytes@.subrange(0, bytes@.len() as int) =~= bytes@);
    text
}

/// `s` without its trailing NUL characters.
pub open spec fn trim_nul_end(s: Seq<char>) -> Seq<char>
    decreases s.len(),
{
    if s.len() > 0 && s.last() == '\0' {
        trim_nul_end(s.drop_last())
    } else {
        s
    }
}

/// Strip trailing NUL padding from a device-information string.
pub fn clean(s: &str) -> (r: &str)
    ensures
        r@ == trim_nul_end(s@),
{
    let n = s.unicode_len();
    let mut j: usize = n;
    assert(s@.subrange(0, n as int) =~= s@);
    while j > 0 && s.get_char(j - 1) == '\0'
        invariant
            n == s@.len(),
            j <= n,
            trim_nul_end(s@) == trim_nul_end(s@.subrange(0, j as int)),
        decreases j,
    {
        assert(s@.subrange(0, j as int).drop_last() =~= s@.subrange(0, j - 1));
        j = j - 1;
    }
    s.substring_char(0, j)
}

/// Status subtype of the experimental Auto Start status read.
pub const AUTOSTART_STATUS_SUBTYPE: u8 = 0x01;

/// Status subtype of the experimental Smart Gesture status read.
pub const SMARTGESTURE_STATUS_SUBTYPE: u8 = 0x04;

/// The experimental toggle-status read command for `subtype` with the given
/// trailing checksum byte: `00 C9 07 24 <subtype> 00 00 00 <checksum>`.
pub open spec fn spec_status_command(subtype: u8, checksum: u8) -> Seq<u8> {
    seq![0x00u8, 0xC9, 0x07, 0x24, subtype, 0x00, 0x00, 0x00, checksum]
}

/// Build the experimental toggle-status read command for `subtype` with the
/// given checksum byte.
pub fn status_command(subtype: u8, checksum: u8) -> (r: Vec<u8>)
    ensures
        r@ == spec_status_command(subtype, checksum),
{
    let r = vec![0x00u8, 0xC9, 0x07, 0x24, subtype, 0x00, 0x00, 0x00, checksum];
    assert(r@ =~= spec_status_command(subtype, checksum));
    r
}

/// Why a candidate status command was given up after its first reply
/// parsed.
#[derive(Debug)]
pub enum Rejection {
    /// The second request got no reply.
    NoConfirmation,
    /// The second reply was not a status frame of the subtype.
    UnexpectedConfirmation(Vec<u8>),
    /// The two replies reported different states.
    Unstable { first: bool, second: bool },
}

/// The search for a toggle-status read command that the device answers: each
/// checksum candidate in turn is sent, and a candidate is taken when two
/// requests in a row get status frames of the subtype reporting the same
/// state.
#[derive(Debug)]
pub struct StatusDiscovery {
    subtype: u8,
    candidates: Vec<u8>,
    index: usize,
    first: Option<bool>,
}

/// What a status discovery asks for next.
#[derive(Debug)]
pub enum DiscoveryStep {
    /// Send `command` and hand the reply, or `None` when none came, to
    /// `state`. `rejected` tells why the previous candidate was given up
    /// after its first reply parsed, if it was.
    Request { state: StatusDiscovery, command: Vec<u8>, rejected: Option<Rejection> },
    /// `command` was confirmed; the device reports `status`.
    Found { command: Vec<u8>, status: bool },
    /// No candidate was confirmed.
    Exhausted { rejected: Option<Rejection> },
}

impl StatusDiscovery {
    #[verifier::type_invariant]
    spec fn well_formed(self) -> bool {
        &&& self.candidates@ == spec_checksum_candidates()
        &&& self.index < self.candidates@.len()
    }

    /// The status subtype searched for.
    pub closed spec fn subtype(self) -> u8 {
        self.subtype
    }

    /// The position of the candidate being tried.
    pub closed spec fn index(self) -> nat {
        self.index as nat
    }

    /// The state reported by the first reply to the candidate being tried,
    /// once it parsed.
    pub closed spec fn first(self) -> Option<bool> {
        self.first
    }

    /// The command of the candidate being tried.
    pub open spec fn command(self) -> Seq<u8> {
        spec_status_command(self.subtype(), spec_checksum_candidates()[self.index() as int])
    }

    /// `step` sends the command of candidate `index` for `subtype`, with
    /// `first` as the state of a first reply and `rejected` as the reason the
    /// previous candidate was given up.
    pub open spec fn requests(
        step: DiscoveryStep,
        subtype: u8,
        index: nat,
        first: Option<bool>,
        rejected: Option<Rejection>,
    ) -> bool {
        match step {
            DiscoveryStep::Request { state, command, rejected: rj } => {
                &&& state.subtype() == subtype
                &&& state.index() == index
                &&& state.first() == first
                &&& command@ == state.command()
                &&& rj == rejected
            },
            _ => false,
        }
    }

    /// `step` moves on to the next candidate, or gives up after the last
    /// one, with `rejected` as the reason the current one was given up.
    pub open spec fn moves_on(self, step: DiscoveryStep, rejected: Option<Rejection>) -> bool {
        if self.index() + 1 < spec_checksum_candidates().len() {
            Self::requests(step, self.subtype(), self.index() + 1, None, rejected)
        } else {
            step == DiscoveryStep::Exhausted { rejected }
        }
    }

    /// The reason a candidate whose first reply reported `first` is given
    /// up after the second reply `reply`; `None` when the reply confirms it.
    pub open spec fn rejection(self, first: bool, reply: Option<Vec<u8>>) -> Option<Rejection> {
        match reply {
            None => Some(Rejection::NoConfirmation),
            Some(bytes) => match toggle_status(bytes@, self.subtype()) {
                None => Some(Rejection::UnexpectedConfirmation(bytes)),
                Some(second) => if second == first {
                    None
                } else {
                    Some(Rejection::Unstable { first, second })
                },
            },
        }
    }

    /// `step` is what follows when the command last sent gets `reply`.
    pub open spec fn reply_step(self, reply: Option<Vec<u8>>, step: DiscoveryStep) -> bool {
        match self.first() {
            None => match reply {
                Some(bytes) if toggle_status(bytes@, self.subtype()) is Some => Self::requests(
                    step,
                    self.subtype(),
                    self.index(),
                    toggle_status(bytes@, self.subtype()),
                    None,
                ),
                _ => self.moves_on(step, None),
            },
            Some(first) => match self.rejection(first, reply) {
                None => step matches DiscoveryStep::Found { command, status } && command@
                    == self.command() && status == first,
                Some(why) => self.moves_on(step, Some(why)),
            },
        }
    }

    /// Begin the search for `subtype`: send the command with the first
    /// checksum candidate.
    pub fn start(subtype: u8) -> (step: DiscoveryStep)
        ensures
            Self::requests(step, subtype, 0, None, None),
    {
        let candidates = checksum_candidates();
        let checksum = candidates[0];
        let state = StatusDiscovery { subtype, candidates, index: 0, first: None };
        DiscoveryStep::Request { state, command: status_command(subtype, checksum), rejected: None }
    }

    fn advance(self, rejected: Option<Rejection>) -> (step: DiscoveryStep)
        ensures
            self.moves_on(step, rejected),
    {
        proof {
            use_type_invariant(&self);
        }
        let len = self.candidates.len();
        if len - self.index > 1 {
            let next = self.index + 1;
            let checksum = self.candidates[next];
            let subtype = self.subtype;
            let state = StatusDiscovery { subtype, candidates: self.candidates, index: next, first: None };
            DiscoveryStep::Request { state, command: status_command(subtype, checksum), rejected }
        } else {
            DiscoveryStep::Exhausted { rejected }
        }
    }

    /// Hand the reply to the command last sent, or `None` when none came.
    ///
    /// A first reply that parses is confirmed by sending the same command
    /// again; a candidate whose first reply is missing or does not parse is
    /// skipped silently, one whose second reply is missing, does not parse or
    /// disagrees is skipped with the reason.
    pub fn on_reply(self, reply: Option<Vec<u8>>) -> (step: DiscoveryStep)
        ensures
            self.reply_step(reply, step),
    {
        proof {
            use_type_invariant(&self);
        }
        let parsed = match &reply {
            Some(bytes) => parse_toggle_status(bytes.as_slice(), self.subtype),
            None => None,
        };
        match self.first {
            None => match parsed {
                Some(status) => {
                    let command = status_command(self.subtype, self.candidates[self.index]);
                    let state = StatusDiscovery { first: Some(status), ..self };
                    DiscoveryStep::Request { state, command, rejected: None }
                },
                None => self.advance(None),
            },
            Some(first) => match reply {
                None => self.advance(Some(Rejection::NoConfirmation)),
                Some(bytes) => match parsed {
                    None => self.advance(Some(Rejection::UnexpectedConfirmation(bytes))),
                    Some(second) => if second == first {
                        let command = status_command(self.subtype, self.candidates[self.index]);
                        DiscoveryStep::Found { command, status: first }
                    } else {
                        self.advance(Some(Rejection::Unstable { first, second }))
                    },
                },
            },
        }
    }
}

/// A status command is taken only when two replies in a row to it are status
/// frames of the subtype that report the same state, and that state is what
/// the search reports; candidates are tried in order, each at most twice.
pub proof fn law_discovery_confirms(s: StatusDiscovery, reply: Option<Vec<u8>>, step: DiscoveryStep)
    requires
        s.reply_step(reply, step),
    ensures
        step is Found ==> s.first() == Some(step->status) && reply is Some && toggle_status(
            reply->0@,
            s.subtype(),
        ) == Some(step->status) && step->Found_command@ == s.command(),
        step is Request ==> step->state.subtype() == s.subtype(),
        step is Request ==> (step->state.index() == s.index() && s.first() is None
            && step->state.first() is Some) || (step->state.index() == s.index() + 1
            && step->state.first() is None),
{
}

} // verus!
