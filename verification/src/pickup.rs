//! The pickup record model: waste categories, the sensor identity derived
//! from a category, and the textual payloads published for a sensor.

use vstd::prelude::*;
use vstd::string::StrSliceExecFns;
use vstd::string::StringSliceAdditionalSpecFns;

verus! {

/// One waste stream of the collection schedule.
#[derive(Clone, Copy, Debug, PartialEq, Eq, Structural)]
pub enum PickupType {
    Garbage,
    Paper,
    Plastic,
    GlassMetal,
    FoodWaste,
}

/// The source token (an icon class suffix) that names a category.
pub open spec fn spec_token_of(k: PickupType) -> Seq<u8> {
    match k {
        PickupType::Garbage => seq![('r' as u8), ('e' as u8), ('s' as u8), ('i' as u8), ('d' as u8), ('u' as u8), ('a' as u8), ('l' as u8)],
        PickupType::Paper => seq![('c' as u8), ('a' as u8), ('r' as u8), ('d' as u8), ('b' as u8), ('o' as u8), ('a' as u8), ('r' as u8), ('d' as u8)],
        PickupType::Plastic => seq![('p' as u8), ('l' as u8), ('a' as u8), ('s' as u8), ('t' as u8), ('i' as u8), ('c' as u8)],
        PickupType::GlassMetal => seq![('g' as u8), ('l' as u8), ('a' as u8), ('s' as u8), ('s' as u8)],
        PickupType::FoodWaste => seq![('b' as u8), ('i' as u8), ('o' as u8)],
    }
}

/// Category recognition: an exact lookup against the fixed token table.
/// Unrecognized tokens yield no match, never a default category.
pub open spec fn spec_category_of(s: Seq<u8>) -> Option<PickupType> {
    if s == spec_token_of(PickupType::Garbage) {
        Some(PickupType::Garbage)
    } else if s == spec_token_of(PickupType::Paper) {
        Some(PickupType::Paper)
    } else if s == spec_token_of(PickupType::Plastic) {
        Some(PickupType::Plastic)
    } else if s == spec_token_of(PickupType::GlassMetal) {
        Some(PickupType::GlassMetal)
    } else if s == spec_token_of(PickupType::FoodWaste) {
        Some(PickupType::FoodWaste)
    } else {
        None
    }
}

/// Byte-wise equality of two slices.
pub fn bytes_eq(a: &[u8], b: &[u8]) -> (r: bool)
    ensures
        r == (a@ == b@),
{
    if a.len() != b.len() {
        assert(a@.len() != b@.len());
        return false;
    }
    let n: usize = a.len();
    let mut i: usize = 0;
    while i < n
        invariant
            n == a@.len() == b@.len(),
            0 <= i <= n,
            forall|j: int| 0 <= j < i ==> a@[j] == b@[j],
        decreases n - i,
    {
        if a[i] != b[i] {
            return false;
        }
        i = i + 1;
    }
    proof {
        assert(a@ =~= b@);
    }
    true
}

impl PickupType {
    /// Maps a source token to its category; recognition is exact.
    pub fn from_token(s: &[u8]) -> (r: Option<PickupType>)
        ensures
            r == spec_category_of(s@),
    {
        let residual: [u8; 8] = [('r' as u8), ('e' as u8), ('s' as u8), ('i' as u8), ('d' as u8), ('u' as u8), ('a' as u8), ('l' as u8)];
        let cardboard: [u8; 9] = [('c' as u8), ('a' as u8), ('r' as u8), ('d' as u8), ('b' as u8), ('o' as u8), ('a' as u8), ('r' as u8), ('d' as u8)];
        let plastic: [u8; 7] = [('p' as u8), ('l' as u8), ('a' as u8), ('s' as u8), ('t' as u8), ('i' as u8), ('c' as u8)];
        let glass: [u8; 5] = [('g' as u8), ('l' as u8), ('a' as u8), ('s' as u8), ('s' as u8)];
        let bio: [u8; 3] = [('b' as u8), ('i' as u8), ('o' as u8)];
        proof {
            assert(residual@ =~= spec_token_of(PickupType::Garbage));
            assert(cardboard@ =~= spec_token_of(PickupType::Paper));
            assert(plastic@ =~= spec_token_of(PickupType::Plastic));
            assert(glass@ =~= spec_token_of(PickupType::GlassMetal));
            assert(bio@ =~= spec_token_of(PickupType::FoodWaste));
        }
        if bytes_eq(s, residual.as_slice()) {
            Some(PickupType::Garbage)
        } else if bytes_eq(s, cardboard.as_slice()) {
            Some(PickupType::Paper)
        } else if bytes_eq(s, plastic.as_slice()) {
            Some(PickupType::Plastic)
        } else if bytes_eq(s, glass.as_slice()) {
            Some(PickupType::GlassMetal)
        } else if bytes_eq(s, bio.as_slice()) {
            Some(PickupType::FoodWaste)
        } else {
            None
        }
    }

    /// Maps a source token given as text to its category.
    pub fn from_str(s: &str) -> (r: Option<PickupType>)
        ensures
            r == spec_category_of(s.spec_bytes()),
    {
        let bytes = s.as_bytes_vec();
        PickupType::from_token(bytes.as_slice())
    }
}

/// Recognized tokens name their category uniquely: two tokens that map to
/// the same category are the same token, and every match comes from the
/// fixed table.
pub proof fn lemma_category_from_token_injective(a: Seq<u8>, b: Seq<u8>)
    requires
        spec_category_of(a) is Some,
        spec_category_of(a) == spec_category_of(b),
    ensures
        a == b,
{
}

/// The display name of a category, used as the sensor's label.
pub open spec fn spec_kind_label(k: PickupType) -> Seq<char> {
    match k {
        PickupType::Garbage => "Garbage"@,
        PickupType::Paper => "Paper"@,
        PickupType::Plastic => "Plastic"@,
        PickupType::GlassMetal => "GlassMetal"@,
        PickupType::FoodWaste => "FoodWaste"@,
    }
}

/// The lower-case form of a category's name, used in identifiers and topics.
pub open spec fn spec_kind_slug(k: PickupType) -> Seq<char> {
    match k {
        PickupType::Garbage => "garbage"@,
        PickupType::Paper => "paper"@,
        PickupType::Plastic => "plastic"@,
        PickupType::GlassMetal => "glassmetal"@,
        PickupType::FoodWaste => "foodwaste"@,
    }
}

/// The stable sensor identifier derived from the category alone.
pub open spec fn spec_identifier(k: PickupType) -> Seq<char> {
    "avfallsor-"@ + spec_kind_slug(k)
}

pub open spec fn spec_topic_prefix(k: PickupType) -> Seq<char> {
    "homeassistant/sensor/"@ + spec_identifier(k)
}

pub open spec fn spec_config_topic(k: PickupType) -> Seq<char> {
    spec_topic_prefix(k) + "/config"@
}

pub open spec fn spec_state_topic(k: PickupType) -> Seq<char> {
    spec_topic_prefix(k) + "/state"@
}

impl PickupType {
    pub fn label_str(&self) -> (r: &'static str)
        ensures
            r@ == spec_kind_label(*self),
    {
        match self {
            PickupType::Garbage => "Garbage",
            PickupType::Paper => "Paper",
            PickupType::Plastic => "Plastic",
            PickupType::GlassMetal => "GlassMetal",
            PickupType::FoodWaste => "FoodWaste",
        }
    }

    pub fn slug_str(&self) -> (r: &'static str)
        ensures
            r@ == spec_kind_slug(*self),
    {
        match self {
            PickupType::Garbage => "garbage",
            PickupType::Paper => "paper",
            PickupType::Plastic => "plastic",
            PickupType::GlassMetal => "glassmetal",
            PickupType::FoodWaste => "foodwaste",
        }
    }
}

pub open spec fn spec_is_leap_year(y: int) -> bool {
    (y % 4 == 0 && y % 100 != 0) || y % 400 == 0
}

pub open spec fn spec_days_in_month(y: int, m: int) -> int {
    if m == 2 {
        if spec_is_leap_year(y) { 29 } else { 28 }
    } else if m == 4 || m == 6 || m == 9 || m == 11 {
        30
    } else {
        31
    }
}

/// A calendar date the schedule can carry: a four-digit year and a real
/// day of that year's calendar.
pub open spec fn spec_valid_date(y: int, m: int, d: int) -> bool {
    &&& 0 <= y <= 9999
    &&& 1 <= m <= 12
    &&& 1 <= d <= spec_days_in_month(y, m)
}

pub fn valid_date(y: i32, m: u8, d: u8) -> (r: bool)
    ensures
        r == spec_valid_date(y as int, m as int, d as int),
{
    if y < 0 || y > 9999 || m < 1 || m > 12 || d < 1 {
        return false;
    }
    let yy: u32 = y as u32;
    let leap: bool = (yy % 4 == 0 && yy % 100 != 0) || yy % 400 == 0;
    let dim: u8 = if m == 2 {
        if leap { 29 } else { 28 }
    } else if m == 4 || m == 6 || m == 9 || m == 11 {
        30
    } else {
        31
    };
    d <= dim
}

/// A concrete local timestamp: a calendar date, a time of day, and the
/// local zone's offset from UTC at that instant, in seconds.
#[derive(Clone, Copy, Debug, PartialEq, Eq, Structural)]
pub struct LocalDateTime {
    pub year: u16,
    pub month: u8,
    pub day: u8,
    pub hour: u8,
    pub minute: u8,
    pub second: u8,
    pub offset_seconds: i32,
}

impl LocalDateTime {
    pub open spec fn wf(self) -> bool {
        &&& spec_valid_date(self.year as int, self.month as int, self.day as int)
        &&& self.hour < 24
        &&& self.minute < 60
        &&& self.second < 60
        &&& -86400 < self.offset_seconds < 86400
    }
}

/// The zone offset rendered as a sign and zero-padded hours and minutes.
pub open spec fn spec_offset_text(o: int) -> Seq<char> {
    let sign = if o < 0 { seq!['-'] } else { seq!['+'] };
    let total_min = (if o < 0 { -o } else { o }) / 60;
    sign + crate::text::spec_two_digits(total_min / 60) + seq![':']
        + crate::text::spec_two_digits(total_min % 60)
}

/// The timestamp rendered in offset-qualified ISO-8601 form, the shape the
/// hub parses for a timestamp sensor.
pub open spec fn spec_iso_text(dt: LocalDateTime) -> Seq<char> {
    crate::text::spec_four_digits(dt.year as int) + seq!['-']
        + crate::text::spec_two_digits(dt.month as int) + seq!['-']
        + crate::text::spec_two_digits(dt.day as int) + seq!['T']
        + crate::text::spec_two_digits(dt.hour as int) + seq![':']
        + crate::text::spec_two_digits(dt.minute as int) + seq![':']
        + crate::text::spec_two_digits(dt.second as int)
        + spec_offset_text(dt.offset_seconds as int)
}

pub fn render_iso(dt: &LocalDateTime) -> (r: String)
    requires
        dt.wf(),
    ensures
        r@ == spec_iso_text(*dt),
{
    let mut out = String::new();
    crate::text::push_four_digits(&mut out, dt.year);
    out.append("-");
    crate::text::push_two_digits(&mut out, dt.month);
    out.append("-");
    crate::text::push_two_digits(&mut out, dt.day);
    out.append("T");
    crate::text::push_two_digits(&mut out, dt.hour);
    out.append(":");
    crate::text::push_two_digits(&mut out, dt.minute);
    out.append(":");
    crate::text::push_two_digits(&mut out, dt.second);
    let abs: u32 = if dt.offset_seconds < 0 {
        out.append("-");
        (-dt.offset_seconds) as u32
    } else {
        out.append("+");
        dt.offset_seconds as u32
    };
    let total_min: u32 = abs / 60;
    crate::text::push_two_digits(&mut out, (total_min / 60) as u8);
    out.append(":");
    crate::text::push_two_digits(&mut out, (total_min % 60) as u8);
    proof {
        reveal_strlit("-");
        reveal_strlit("+");
        reveal_strlit(":");
        reveal_strlit("T");
        assert(out@ =~= spec_iso_text(*dt));
    }
    out
}

/// One collection event: a category, its display label, and the localized
/// moment of the pickup.
#[derive(Clone, Debug)]
pub struct Pickup {
    pub date: LocalDateTime,
    pub label: String,
    pub kind: PickupType,
}

/// The device block of a discovery payload: the integration's identity.
pub struct Device {
    pub identifiers: Vec<String>,
    pub name: String,
}

/// The discovery payload that registers a sensor entity with the hub.
pub struct ConfigMessage {
    pub name: String,
    pub device_class: String,
    pub state_topic: String,
    pub unique_id: String,
    pub object_id: String,
    pub device: Device,
}

/// The serialized JSON form of a pickup's discovery payload, field by field
/// in the order the hub receives them.
pub open spec fn spec_config_json(label: Seq<char>, k: PickupType) -> Seq<char> {
    "{\"name\":\""@ + crate::text::spec_json_escape(label)
        + "\",\"device_class\":\"timestamp\",\"state_topic\":\""@ + spec_state_topic(k)
        + "\",\"unique_id\":\""@ + spec_identifier(k)
        + "\",\"object_id\":\""@ + spec_identifier(k)
        + "\",\"device\":{\"identifiers\":[\"avfallsor\"],\"name\":\"Avfall S\u{f8}r\"}}"@
}

impl Pickup {
    pub open spec fn wf(self) -> bool {
        self.date.wf()
    }

    pub fn new(date: LocalDateTime, label: String, kind: PickupType) -> (p: Pickup)
        ensures
            p.date == date,
            p.label == label,
            p.kind == kind,
    {
        Pickup { date, label, kind }
    }

    /// The stable sensor identifier; a pure function of the category.
    pub fn identifier(&self) -> (r: String)
        ensures
            r@ == spec_identifier(self.kind),
    {
        String::from_str("avfallsor-").concat(self.kind.slug_str())
    }

    pub fn topic_prefix(&self) -> (r: String)
        ensures
            r@ == spec_topic_prefix(self.kind),
    {
        String::from_str("homeassistant/sensor/").concat(self.identifier().as_str())
    }

    pub fn config_topic(&self) -> (r: String)
        ensures
            r@ == spec_config_topic(self.kind),
    {
        self.topic_prefix().concat("/config")
    }

    pub fn state_topic(&self) -> (r: String)
        ensures
            r@ == spec_state_topic(self.kind),
    {
        self.topic_prefix().concat("/state")
    }

    /// The structured discovery payload for this pickup's sensor.
    pub fn homeassistant_config_message(&self) -> (m: ConfigMessage)
        ensures
            m.name@ == self.label@,
            m.device_class@ == "timestamp"@,
            m.state_topic@ == spec_state_topic(self.kind),
            m.unique_id@ == spec_identifier(self.kind),
            m.object_id@ == spec_identifier(self.kind),
            m.device.identifiers@.len() == 1,
            m.device.identifiers@[0]@ == "avfallsor"@,
            m.device.name@ == "Avfall S\u{f8}r"@,
    {
        let identifier = self.identifier();
        let mut ids: Vec<String> = Vec::new();
        ids.push(String::from_str("avfallsor"));
        ConfigMessage {
            name: self.label.clone(),
            device_class: String::from_str("timestamp"),
            state_topic: self.state_topic(),
            unique_id: identifier.clone(),
            object_id: identifier,
            device: Device { identifiers: ids, name: String::from_str("Avfall S\u{f8}r") },
        }
    }

    /// The discovery payload serialized as the JSON object the hub receives.
    pub fn homeassistant_config_json(&self) -> (r: String)
        ensures
            r@ == spec_config_json(self.label@, self.kind),
    {
        let mut out = String::from_str("{\"name\":\"");
        out.append(crate::text::json_escape(self.label.as_str()).as_str());
        out.append("\",\"device_class\":\"timestamp\",\"state_topic\":\"");
        out.append(self.state_topic().as_str());
        out.append("\",\"unique_id\":\"");
        out.append(self.identifier().as_str());
        out.append("\",\"object_id\":\"");
        out.append(self.identifier().as_str());
        out.append("\",\"device\":{\"identifiers\":[\"avfallsor\"],\"name\":\"Avfall S\u{f8}r\"}}");
        proof {
            assert(out@ =~= spec_config_json(self.label@, self.kind));
        }
        out
    }

    /// The sensor's state payload: the pickup moment in ISO-8601 form.
    pub fn homeassistant_state_message(&self) -> (r: String)
        requires
            self.wf(),
        ensures
            r@ == spec_iso_text(self.date),
    {
        render_iso(&self.date)
    }
}

/// Sensor identity and topics depend on the category alone: two pickups of
/// the same category derive the same identifier and topics, whatever their
/// dates and labels.
pub proof fn lemma_identity_depends_on_category_only(a: Pickup, b: Pickup)
    requires
        a.kind == b.kind,
    ensures
        spec_identifier(a.kind) == spec_identifier(b.kind),
        spec_config_topic(a.kind) == spec_config_topic(b.kind),
        spec_state_topic(a.kind) == spec_state_topic(b.kind),
{
}

} // verus!
