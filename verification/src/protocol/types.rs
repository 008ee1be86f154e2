//! Device models, their capabilities, and the device-information snapshot.

use vstd::prelude::*;

use crate::text::{is_whitespace, trim_end, trim_start, trimmed};

verus! {

/// Known IQOS device models.
#[derive(Debug, Clone, Copy, PartialEq, Eq, Structural)]
pub enum DeviceModel {
    /// IQOS ILUMA ONE.
    IlumaOne,
    /// IQOS ILUMA.
    Iluma,
    /// IQOS ILUMA PRIME.
    IlumaPrime,
    /// IQOS ILUMA i ONE.
    IlumaIOne,
    /// IQOS ILUMA i.
    IlumaI,
    /// IQOS ILUMA i PRIME.
    IlumaIPrime,
    /// Unknown or not-yet-modeled device family.
    Unknown,
}

/// Device-level feature capability flags.
#[non_exhaustive]
#[derive(Debug, Clone, Copy, PartialEq, Eq, Structural)]
pub enum DeviceCapability {
    /// Brightness control support.
    Brightness,
    /// Vibration configuration support.
    Vibration,
    /// `FlexPuff` support.
    FlexPuff,
    /// `FlexBattery` support.
    FlexBattery,
    /// Smart gesture support.
    SmartGesture,
    /// Auto-start support.
    AutoStart,
    /// Lock/unlock support.
    DeviceLock,
    /// Holder vibration feedback when the stick begins charging.
    ChargeStartVibration,
}

/// The ASCII upper-case code of a character: `a..=z` map to `A..=Z`, every
/// other character keeps its code.
pub open spec fn upper_code(c: char) -> u32 {
    if 97 <= (c as u32) && (c as u32) <= 122 {
        ((c as u32) - 32) as u32
    } else {
        c as u32
    }
}

/// `pat` occurs in `hay` at position `i` once `hay` is upper-cased on ASCII letters.
pub open spec fn matches_at(hay: Seq<char>, pat: Seq<char>, i: int) -> bool {
    &&& 0 <= i
    &&& i + pat.len() <= hay.len()
    &&& forall|j: int| 0 <= j < pat.len() ==> #[trigger] upper_code(hay[i + j]) == pat[j] as u32
}

/// `pat` occurs somewhere in `hay` once `hay` is upper-cased on ASCII letters.
pub open spec fn contains_upper(hay: Seq<char>, pat: Seq<char>) -> bool {
    exists|i: int| matches_at(hay, pat, i)
}

/// The model named by a BLE local name: the first of the patterns
/// "ILUMA I PRIME", "ILUMA I ONE", "ILUMA I", "ILUMA PRIME", "ILUMA ONE",
/// "ILUMA" that occurs in the ASCII upper-cased name.
///
/// Surrounding whitespace never changes the outcome: each pattern starts and
/// ends with a letter, so an occurrence never overlaps leading or trailing
/// whitespace (see [`law_model_ignores_trimming`]).
pub open spec fn model_for_name(name: Seq<char>) -> DeviceModel {
    if contains_upper(name, "ILUMA I PRIME"@) {
        DeviceModel::IlumaIPrime
    } else if contains_upper(name, "ILUMA I ONE"@) {
        DeviceModel::IlumaIOne
    } else if contains_upper(name, "ILUMA I"@) {
        DeviceModel::IlumaI
    } else if contains_upper(name, "ILUMA PRIME"@) {
        DeviceModel::IlumaPrime
    } else if contains_upper(name, "ILUMA ONE"@) {
        DeviceModel::IlumaOne
    } else if contains_upper(name, "ILUMA"@) {
        DeviceModel::Iluma
    } else {
        DeviceModel::Unknown
    }
}

/// Whether `pat` occurs in `hay` once `hay` is upper-cased on ASCII letters.
pub(crate) fn contains_ignoring_ascii_case(hay: &str, pat: &str) -> (r: bool)
    ensures
        r == contains_upper(hay@, pat@),
{
    let n = hay.unicode_len();
    let m = pat.unicode_len();
    if m > n {
        assert forall|i: int| !matches_at(hay@, pat@, i) by {}
        return false;
    }
    let mut i: usize = 0;
    while i <= n - m
        invariant
            n == hay@.len(),
            m == pat@.len(),
            m <= n,
            forall|k: int| 0 <= k < i ==> !matches_at(hay@, pat@, k),
        decreases n - m + 1 - i,
    {
        let mut j: usize = 0;
        let mut ok = true;
        while j < m && ok
            invariant
                n == hay@.len(),
                m == pat@.len(),
                i + m <= n,
                j <= m,
                ok <==> forall|jj: int| 0 <= jj < j ==> upper_code(hay@[i + jj]) == pat@[jj] as u32,
            decreases m - j,
        {
            let c = hay.get_char(i + j);
            let p = pat.get_char(j);
            let code = c as u32;
            let upper: u32 = if 97 <= code && code <= 122 { code - 32 } else { code };
            if upper != p as u32 {
                ok = false;
            }
            j = j + 1;
        }
        if ok {
            assert(matches_at(hay@, pat@, i as int));
            return true;
        }
        assert(!matches_at(hay@, pat@, i as int)) by {
            let jj = choose|jj: int| 0 <= jj < j && upper_code(hay@[i + jj]) != pat@[jj] as u32;
            assert(upper_code(hay@[i + jj]) != pat@[jj] as u32);
        }
        i = i + 1;
    }
    assert forall|k: int| !matches_at(hay@, pat@, k) by {
        if 0 <= k && k + m <= n {
            assert(k < i);
        }
    }
    false
}

impl DeviceModel {
    /// One-piece form factor: ILUMA ONE and ILUMA i ONE.
    pub open spec fn spec_one_form_factor(self) -> bool {
        self == DeviceModel::IlumaOne || self == DeviceModel::IlumaIOne
    }

    /// The original ILUMA family: ILUMA ONE, ILUMA, ILUMA PRIME.
    pub open spec fn spec_iluma_family(self) -> bool {
        self == DeviceModel::IlumaOne || self == DeviceModel::Iluma || self == DeviceModel::IlumaPrime
    }

    /// The ILUMA i family: ILUMA i ONE, ILUMA i, ILUMA i PRIME.
    pub open spec fn spec_iluma_i_family(self) -> bool {
        self == DeviceModel::IlumaIOne || self == DeviceModel::IlumaI || self
            == DeviceModel::IlumaIPrime
    }

    /// Holder-based models: ILUMA, ILUMA PRIME, ILUMA i, ILUMA i PRIME.
    pub open spec fn spec_holder_features(self) -> bool {
        self == DeviceModel::Iluma || self == DeviceModel::IlumaPrime || self == DeviceModel::IlumaI
            || self == DeviceModel::IlumaIPrime
    }

    /// The capability matrix.
    ///
    /// - `Brightness`, `Vibration`, `DeviceLock`: every known model.
    /// - `FlexPuff`, `FlexBattery`: ILUMA i and ILUMA i PRIME.
    /// - `AutoStart`: the ILUMA i family.
    /// - `SmartGesture`, `ChargeStartVibration`: holder-based models.
    pub open spec fn spec_supports(self, capability: DeviceCapability) -> bool {
        match capability {
            DeviceCapability::Brightness | DeviceCapability::Vibration
            | DeviceCapability::DeviceLock => self != DeviceModel::Unknown,
            DeviceCapability::FlexPuff | DeviceCapability::FlexBattery => self == DeviceModel::IlumaI
                || self == DeviceModel::IlumaIPrime,
            DeviceCapability::AutoStart => self.spec_iluma_i_family(),
            DeviceCapability::SmartGesture | DeviceCapability::ChargeStartVibration => {
                self.spec_holder_features()
            },
        }
    }

    /// The variant name of the model, as `{:?}` prints it.
    pub open spec fn spec_name(self) -> Seq<char> {
        match self {
            DeviceModel::IlumaOne => "IlumaOne"@,
            DeviceModel::Iluma => "Iluma"@,
            DeviceModel::IlumaPrime => "IlumaPrime"@,
            DeviceModel::IlumaIOne => "IlumaIOne"@,
            DeviceModel::IlumaI => "IlumaI"@,
            DeviceModel::IlumaIPrime => "IlumaIPrime"@,
            DeviceModel::Unknown => "Unknown"@,
        }
    }

    /// Return the variant name of the model, as `{:?}` prints it.
    pub fn name(self) -> (r: &'static str)
        ensures
            r@ == self.spec_name(),
    {
        match self {
            DeviceModel::IlumaOne => "IlumaOne",
            DeviceModel::Iluma => "Iluma",
            DeviceModel::IlumaPrime => "IlumaPrime",
            DeviceModel::IlumaIOne => "IlumaIOne",
            DeviceModel::IlumaI => "IlumaI",
            DeviceModel::IlumaIPrime => "IlumaIPrime",
            DeviceModel::Unknown => "Unknown",
        }
    }

    /// Return whether this model uses the one-piece form factor.
    pub fn is_one_form_factor(self) -> (r: bool)
        ensures
            r == self.spec_one_form_factor(),
    {
        matches!(self, DeviceModel::IlumaOne | DeviceModel::IlumaIOne)
    }

    /// Return whether this model belongs to the original ILUMA family.
    pub fn is_iluma_family(self) -> (r: bool)
        ensures
            r == self.spec_iluma_family(),
    {
        matches!(self, DeviceModel::IlumaOne | DeviceModel::Iluma | DeviceModel::IlumaPrime)
    }

    /// Return whether this model belongs to the ILUMA i family.
    pub fn is_iluma_i_family(self) -> (r: bool)
        ensures
            r == self.spec_iluma_i_family(),
    {
        matches!(self, DeviceModel::IlumaIOne | DeviceModel::IlumaI | DeviceModel::IlumaIPrime)
    }

    /// Return whether this model exposes holder-specific metadata and settings.
    pub fn supports_holder_features(self) -> (r: bool)
        ensures
            r == self.spec_holder_features(),
    {
        matches!(
            self,
            DeviceModel::Iluma | DeviceModel::IlumaPrime | DeviceModel::IlumaI
                | DeviceModel::IlumaIPrime
        )
    }

    /// Return whether this model supports the requested device capability.
    pub fn supports(self, capability: DeviceCapability) -> (r: bool)
        ensures
            r == self.spec_supports(capability),
    {
        match capability {
            DeviceCapability::Brightness | DeviceCapability::Vibration
            | DeviceCapability::DeviceLock => !matches!(self, DeviceModel::Unknown),
            DeviceCapability::FlexPuff | DeviceCapability::FlexBattery => {
                matches!(self, DeviceModel::IlumaI | DeviceModel::IlumaIPrime)
            },
            DeviceCapability::AutoStart => self.is_iluma_i_family(),
            DeviceCapability::SmartGesture | DeviceCapability::ChargeStartVibration => {
                self.supports_holder_features()
            },
        }
    }

    /// Return whether this model supports the charge-start vibration setting.
    pub fn supports_charge_start_vibration(self) -> (r: bool)
        ensures
            r == self.spec_supports(DeviceCapability::ChargeStartVibration),
    {
        self.supports(DeviceCapability::ChargeStartVibration)
    }

    /// Infer a model from a BLE local-name string.
    pub fn from_local_name(value: &str) -> (r: Self)
        ensures
            r == model_for_name(value@),
    {
        if contains_ignoring_ascii_case(value, "ILUMA I PRIME") {
            DeviceModel::IlumaIPrime
        } else if contains_ignoring_ascii_case(value, "ILUMA I ONE") {
            DeviceModel::IlumaIOne
        } else if contains_ignoring_ascii_case(value, "ILUMA I") {
            DeviceModel::IlumaI
        } else if contains_ignoring_ascii_case(value, "ILUMA PRIME") {
            DeviceModel::IlumaPrime
        } else if contains_ignoring_ascii_case(value, "ILUMA ONE") {
            DeviceModel::IlumaOne
        } else if contains_ignoring_ascii_case(value, "ILUMA") {
            DeviceModel::Iluma
        } else {
            DeviceModel::Unknown
        }
    }
}

/// Charge-start vibration, Smart Gesture and holder features go together:
/// a model supports charge-start vibration exactly when it supports Smart
/// Gesture, exactly when it exposes holder features.
pub proof fn law_holder_capabilities(model: DeviceModel)
    ensures
        model.spec_supports(DeviceCapability::ChargeStartVibration)
            == model.spec_holder_features(),
        model.spec_supports(DeviceCapability::SmartGesture) == model.spec_holder_features(),
{
}

/// Every known model belongs to exactly one family, and the unknown model to
/// none; a known model is one-piece exactly when it has no holder.
pub proof fn law_model_families(model: DeviceModel)
    ensures
        model != DeviceModel::Unknown ==> (model.spec_iluma_family()
            != model.spec_iluma_i_family()),
        model == DeviceModel::Unknown ==> !model.spec_iluma_family()
            && !model.spec_iluma_i_family(),
        model != DeviceModel::Unknown ==> (model.spec_one_form_factor()
            == !model.spec_holder_features()),
{
}

/// The unknown model supports no capability, and every capability is
/// offered by some known model.
pub proof fn law_unknown_supports_nothing(capability: DeviceCapability)
    ensures
        !DeviceModel::Unknown.spec_supports(capability),
        DeviceModel::IlumaIPrime.spec_supports(capability),
{
}

/// `FlexPuff` and `FlexBattery` need a holder-based ILUMA i model, which also
/// offers Auto Start.
pub proof fn law_flex_features_imply_holder_and_autostart(model: DeviceModel)
    ensures
        model.spec_supports(DeviceCapability::FlexPuff) == model.spec_supports(
            DeviceCapability::FlexBattery,
        ),
        model.spec_supports(DeviceCapability::FlexPuff) ==> model.spec_holder_features()
            && model.spec_supports(DeviceCapability::AutoStart),
{
}

/// The character codes of `s` once upper-cased on ASCII letters, as
/// `to_ascii_uppercase` gives them.
pub open spec fn upper_codes(s: Seq<char>) -> Seq<u32> {
    s.map_values(|c: char| upper_code(c))
}

/// The character codes of `s`.
pub open spec fn char_codes(s: Seq<char>) -> Seq<u32> {
    s.map_values(|c: char| c as u32)
}

/// `pat` occurs in `hay` as a contiguous run.
pub open spec fn occurs_in(hay: Seq<u32>, pat: Seq<u32>) -> bool {
    exists|i: int|
        0 <= i && i + pat.len() <= hay.len() && #[trigger] hay.subrange(i, i + pat.len()) == pat
}

/// The model named by an upper-cased text `u`: the first of "ILUMA I PRIME",
/// "ILUMA I ONE", "ILUMA I", "ILUMA PRIME", "ILUMA ONE", "ILUMA" that occurs
/// in it, so that a more specific name wins over the names it contains.
pub open spec fn model_for_upper_text(u: Seq<u32>) -> DeviceModel {
    if occurs_in(u, char_codes("ILUMA I PRIME"@)) {
        DeviceModel::IlumaIPrime
    } else if occurs_in(u, char_codes("ILUMA I ONE"@)) {
        DeviceModel::IlumaIOne
    } else if occurs_in(u, char_codes("ILUMA I"@)) {
        DeviceModel::IlumaI
    } else if occurs_in(u, char_codes("ILUMA PRIME"@)) {
        DeviceModel::IlumaPrime
    } else if occurs_in(u, char_codes("ILUMA ONE"@)) {
        DeviceModel::IlumaOne
    } else if occurs_in(u, char_codes("ILUMA"@)) {
        DeviceModel::Iluma
    } else {
        DeviceModel::Unknown
    }
}

proof fn lemma_contains_upper_codes(hay: Seq<char>, pat: Seq<char>)
    ensures
        contains_upper(hay, pat) == occurs_in(upper_codes(hay), char_codes(pat)),
{
    if contains_upper(hay, pat) {
        let i = choose|i: int| matches_at(hay, pat, i);
        assert forall|j: int| 0 <= j < pat.len() implies upper_codes(hay).subrange(
            i,
            i + pat.len(),
        )[j] == char_codes(pat)[j] by {
            assert(upper_code(hay[i + j]) == pat[j] as u32);
        }
        assert(upper_codes(hay).subrange(i, i + pat.len()) =~= char_codes(pat));
    }
    if occurs_in(upper_codes(hay), char_codes(pat)) {
        let i = choose|i: int|
            0 <= i && i + pat.len() <= hay.len() && #[trigger] upper_codes(hay).subrange(
                i,
                i + pat.len(),
            ) == char_codes(pat);
        assert forall|j: int| 0 <= j < pat.len() implies #[trigger] upper_code(hay[i + j])
            == pat[j] as u32 by {
            assert(upper_codes(hay).subrange(i, i + pat.len())[j] == char_codes(pat)[j]);
        }
        assert(matches_at(hay, pat, i));
    }
}

proof fn lemma_model_by_codes(name: Seq<char>)
    ensures
        model_for_name(name) == model_for_upper_text(upper_codes(name)),
{
    lemma_contains_upper_codes(name, "ILUMA I PRIME"@);
    lemma_contains_upper_codes(name, "ILUMA I ONE"@);
    lemma_contains_upper_codes(name, "ILUMA I"@);
    lemma_contains_upper_codes(name, "ILUMA PRIME"@);
    lemma_contains_upper_codes(name, "ILUMA ONE"@);
    lemma_contains_upper_codes(name, "ILUMA"@);
}

/// ASCII case does not matter: two names that are equal once upper-cased on
/// ASCII letters name the same model.
pub proof fn law_model_ignores_ascii_case(a: Seq<char>, b: Seq<char>)
    requires
        upper_codes(a) == upper_codes(b),
    ensures
        model_for_name(a) == model_for_name(b),
{
    lemma_model_by_codes(a);
    lemma_model_by_codes(b);
}

proof fn lemma_contains_upper_padded(
    s: Seq<char>,
    lead: Seq<char>,
    trail: Seq<char>,
    pat: Seq<char>,
)
    requires
        pat.len() > 0,
        !is_whitespace(pat[0]),
        !is_whitespace(pat[pat.len() - 1]),
        forall|k: int| 0 <= k < lead.len() ==> is_whitespace(#[trigger] lead[k]),
        forall|k: int| 0 <= k < trail.len() ==> is_whitespace(#[trigger] trail[k]),
    ensures
        contains_upper(lead + s + trail, pat) == contains_upper(s, pat),
{
    let t = lead + s + trail;
    let l = lead.len() as int;
    let n = pat.len() as int;
    if contains_upper(s, pat) {
        let i = choose|i: int| matches_at(s, pat, i);
        assert forall|j: int| 0 <= j < n implies #[trigger] upper_code(t[i + l + j]) == pat[j] as u32 by {
            assert(t[i + l + j] == s[i + j]);
            assert(upper_code(s[i + j]) == pat[j] as u32);
        }
        assert(matches_at(t, pat, i + l));
    }
    if contains_upper(t, pat) {
        let i = choose|i: int| matches_at(t, pat, i);
        assert(upper_code(t[i + 0]) == pat[0] as u32);
        assert(upper_code(t[i + (n - 1)]) == pat[n - 1] as u32);
        if i < l {
            assert(t[i] == lead[i]);
            assert(is_whitespace(lead[i]));
        }
        if i + n - 1 >= l + s.len() {
            assert(t[i + (n - 1)] == trail[i + n - 1 - l - s.len()]);
            assert(is_whitespace(trail[i + n - 1 - l - s.len()]));
        }
        assert forall|j: int| 0 <= j < n implies #[trigger] upper_code(s[i - l + j]) == pat[j] as u32 by {
            assert(t[i + j] == s[i - l + j]);
            assert(upper_code(t[i + j]) == pat[j] as u32);
        }
        assert(matches_at(s, pat, i - l));
    }
}

/// Surrounding whitespace does not matter: padding a name with whitespace
/// before and after it names the same model.
pub proof fn law_model_ignores_surrounding_whitespace(
    s: Seq<char>,
    lead: Seq<char>,
    trail: Seq<char>,
)
    requires
        forall|k: int| 0 <= k < lead.len() ==> is_whitespace(#[trigger] lead[k]),
        forall|k: int| 0 <= k < trail.len() ==> is_whitespace(#[trigger] trail[k]),
    ensures
        model_for_name(lead + s + trail) == model_for_name(s),
{
    reveal_strlit("ILUMA I PRIME");
    reveal_strlit("ILUMA I ONE");
    reveal_strlit("ILUMA I");
    reveal_strlit("ILUMA PRIME");
    reveal_strlit("ILUMA ONE");
    reveal_strlit("ILUMA");
    lemma_contains_upper_padded(s, lead, trail, "ILUMA I PRIME"@);
    lemma_contains_upper_padded(s, lead, trail, "ILUMA I ONE"@);
    lemma_contains_upper_padded(s, lead, trail, "ILUMA I"@);
    lemma_contains_upper_padded(s, lead, trail, "ILUMA PRIME"@);
    lemma_contains_upper_padded(s, lead, trail, "ILUMA ONE"@);
    lemma_contains_upper_padded(s, lead, trail, "ILUMA"@);
}

proof fn lemma_trim_start_shape(s: Seq<char>) -> (a: int)
    ensures
        0 <= a <= s.len(),
        trim_start(s) == s.subrange(a, s.len() as int),
        forall|k: int| 0 <= k < a ==> is_whitespace(#[trigger] s[k]),
    decreases s.len(),
{
    if s.len() > 0 && is_whitespace(s[0]) {
        let rest = s.drop_first();
        let a0 = lemma_trim_start_shape(rest);
        assert(rest.subrange(a0, rest.len() as int) =~= s.subrange(a0 + 1, s.len() as int));
        assert forall|k: int| 0 <= k < a0 + 1 implies is_whitespace(#[trigger] s[k]) by {
            if k > 0 {
                assert(s[k] == rest[k - 1]);
            }
        }
        a0 + 1
    } else {
        assert(s.subrange(0, s.len() as int) =~= s);
        0
    }
}

proof fn lemma_trim_end_shape(s: Seq<char>) -> (b: int)
    ensures
        0 <= b <= s.len(),
        trim_end(s) == s.subrange(0, b),
        forall|k: int| b <= k < s.len() ==> is_whitespace(#[trigger] s[k]),
    decreases s.len(),
{
    if s.len() > 0 && is_whitespace(s.last()) {
        let rest = s.drop_last();
        let b0 = lemma_trim_end_shape(rest);
        assert(rest.subrange(0, b0) =~= s.subrange(0, b0));
        assert forall|k: int| b0 <= k < s.len() implies is_whitespace(#[trigger] s[k]) by {
            if k < s.len() - 1 {
                assert(s[k] == rest[k]);
            }
        }
        b0
    } else {
        assert(s.subrange(0, s.len() as int) =~= s);
        s.len() as int
    }
}

/// Trimming does not matter: a name and the name without its surrounding
/// whitespace name the same model.
pub proof fn law_model_ignores_trimming(name: Seq<char>)
    ensures
        model_for_name(trimmed(name)) == model_for_name(name),
{
    let a = lemma_trim_start_shape(name);
    let started = trim_start(name);
    let b = lemma_trim_end_shape(started);
    let core = trimmed(name);
    let lead = name.subrange(0, a);
    let trail = name.subrange(a + b, name.len() as int);
    assert(core =~= name.subrange(a, a + b));
    assert(lead + core + trail =~= name);
    assert forall|k: int| 0 <= k < trail.len() implies is_whitespace(#[trigger] trail[k]) by {
        assert(trail[k] == started[b + k]);
    }
    law_model_ignores_surrounding_whitespace(core, lead, trail);
}

/// The model named by a BLE local name is the first model name, most
/// specific first, that occurs in the name once it is trimmed of surrounding
/// whitespace and upper-cased on ASCII letters.
pub proof fn law_model_by_trimmed_upper_text(name: Seq<char>)
    ensures
        model_for_name(name) == model_for_upper_text(upper_codes(trimmed(name))),
{
    law_model_ignores_trimming(name);
    lemma_model_by_codes(trimmed(name));
}

/// A name names no known model exactly when "ILUMA" does not occur in it
/// once it is upper-cased on ASCII letters.
pub proof fn law_unknown_without_iluma(name: Seq<char>)
    ensures
        (model_for_name(name) == DeviceModel::Unknown) == !occurs_in(
            upper_codes(name),
            char_codes("ILUMA"@),
        ),
{
    reveal_strlit("ILUMA I PRIME");
    reveal_strlit("ILUMA I ONE");
    reveal_strlit("ILUMA I");
    reveal_strlit("ILUMA PRIME");
    reveal_strlit("ILUMA ONE");
    reveal_strlit("ILUMA");
    lemma_contains_upper_codes(name, "ILUMA"@);
    let short = "ILUMA"@;
    let longer = seq!["ILUMA I PRIME"@, "ILUMA I ONE"@, "ILUMA I"@, "ILUMA PRIME"@, "ILUMA ONE"@];
    assert forall|p: int| 0 <= p < 5 && contains_upper(name, #[trigger] longer[p]) implies contains_upper(
        name,
        short,
    ) by {
        let pat = longer[p];
        let i = choose|i: int| matches_at(name, pat, i);
        assert forall|j: int| 0 <= j < short.len() implies #[trigger] upper_code(name[i + j])
            == short[j] as u32 by {
            assert(pat[j] == short[j]);
            assert(upper_code(name[i + j]) == pat[j] as u32);
        }
        assert(matches_at(name, short, i));
    }
    assert(longer[0] == "ILUMA I PRIME"@);
    assert(longer[1] == "ILUMA I ONE"@);
    assert(longer[2] == "ILUMA I"@);
    assert(longer[3] == "ILUMA PRIME"@);
    assert(longer[4] == "ILUMA ONE"@);
}

} // verus!
