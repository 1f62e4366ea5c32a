//! The coaching engine: which drill a session calls for, and the advice
//! record that carries it.
use vstd::prelude::*;
use crate::telemetry::DirectionBias;

verus! {

/// One coaching advice, stored with the session it is about.
#[derive(Debug, Clone)]
pub struct Recommendation {
    pub id: String,
    pub session_id: String,
    pub title: String,
    pub observation: String,
    pub evidence: String,
    pub likely_cause: String,
    pub suggested_drill: String,
    pub suggested_duration_minutes: u32,
}

/// The five advices the engine can give.
#[derive(Debug, Clone, Copy, PartialEq, Eq, Structural)]
pub enum RecommendationKind {
    /// Shots fired before stopping: practise counter-strafing.
    CounterStrafe,
    /// Shots landing low: practise head-level crosshair placement.
    CrosshairPlacement,
    /// Shots climbing high: practise pulling down during sprays.
    SprayControl,
    /// Accurate but slow to the first shot: practise reaction speed.
    ReactionSpeed,
    /// Nothing stands out: a balanced quick break.
    QuickBreak,
}

/// The session facts the engine decides on: whether too many shots were
/// fired while moving, the direction bias, and whether the player was
/// accurate but slow to react.
#[derive(Debug, Clone, Copy, PartialEq, Eq, Structural)]
pub struct CoachingSignals {
    pub moving_shots_over_limit: bool,
    pub direction_bias: DirectionBias,
    pub slow_but_accurate: bool,
}

pub open spec fn is_low_bias(b: DirectionBias) -> bool {
    b == DirectionBias::Low || b == DirectionBias::LowLeft || b == DirectionBias::LowRight
}

pub open spec fn is_high_bias(b: DirectionBias) -> bool {
    b == DirectionBias::High || b == DirectionBias::HighLeft || b == DirectionBias::HighRight
}

/// The advice for a session, by priority: moving shots first, then a low
/// lean, then a high lean, then slow reactions, else a quick break.
pub open spec fn advice_for(s: CoachingSignals) -> RecommendationKind {
    if s.moving_shots_over_limit {
        RecommendationKind::CounterStrafe
    } else if is_low_bias(s.direction_bias) {
        RecommendationKind::CrosshairPlacement
    } else if is_high_bias(s.direction_bias) {
        RecommendationKind::SprayControl
    } else if s.slow_but_accurate {
        RecommendationKind::ReactionSpeed
    } else {
        RecommendationKind::QuickBreak
    }
}

/// Which advice every combination of signals receives. Moving shots over the
/// limit always call for counter-strafing. Otherwise a lean below the
/// target (low, low-left, low-right) calls for crosshair placement and a
/// lean above it (high, high-left, high-right) for spray control, whatever
/// the reaction flag says; with a level lean (centre, left, right) slow but
/// accurate shooting calls for reaction drills, anything else for a quick
/// break.
pub proof fn lemma_advice_for_every_signal(s: CoachingSignals)
    ensures
        s.moving_shots_over_limit ==> advice_for(s) == RecommendationKind::CounterStrafe,
        !s.moving_shots_over_limit && (s.direction_bias == DirectionBias::Low
            || s.direction_bias == DirectionBias::LowLeft || s.direction_bias == DirectionBias::LowRight)
            ==> advice_for(s) == RecommendationKind::CrosshairPlacement,
        !s.moving_shots_over_limit && (s.direction_bias == DirectionBias::High
            || s.direction_bias == DirectionBias::HighLeft || s.direction_bias == DirectionBias::HighRight)
            ==> advice_for(s) == RecommendationKind::SprayControl,
        !s.moving_shots_over_limit && (s.direction_bias == DirectionBias::Center
            || s.direction_bias == DirectionBias::Left || s.direction_bias == DirectionBias::Right)
            ==> advice_for(s) == if s.slow_but_accurate {
                RecommendationKind::ReactionSpeed
            } else {
                RecommendationKind::QuickBreak
            },
{
}

pub open spec fn advice_title(k: RecommendationKind) -> Seq<char> {
    match k {
        RecommendationKind::CounterStrafe => "Haraktda otish / Counter-Strafe kamchiligi"@,
        RecommendationKind::CrosshairPlacement => "Nishon balandligi past / Crosshair Placement"@,
        RecommendationKind::SprayControl => "Otish paytida qaytish (recoil) kompensatsiyasi kam"@,
        RecommendationKind::ReactionSpeed => "Reaksiya tezligini oshirish mashqi"@,
        RecommendationKind::QuickBreak => "Ajoyib natija! Quick Break bilan davom eting"@,
    }
}

pub open spec fn advice_cause(k: RecommendationKind) -> Seq<char> {
    match k {
        RecommendationKind::CounterStrafe => "Qarama-qarshi tugmani bosib tormozlash (counter-strafe) kechikishi."@,
        RecommendationKind::CrosshairPlacement => "Krossxayrni bosh balandligidan pastroqda ushlab turish odati."@,
        RecommendationKind::SprayControl => "Sprey paytida sichqonchani yetarli darajada pastga tortmaslik."@,
        RecommendationKind::ReactionSpeed => "Ortiqcha nishonga olish vaqti sarflanmoqda."@,
        RecommendationKind::QuickBreak => "Barqaror mushak xotirasi va to'g'ri krossxayr joylashuvi."@,
    }
}

pub open spec fn advice_drill(k: RecommendationKind) -> Seq<char> {
    match k {
        RecommendationKind::CounterStrafe => "counter_strafe"@,
        RecommendationKind::CrosshairPlacement => "headshot"@,
        RecommendationKind::SprayControl => "spray_control"@,
        RecommendationKind::ReactionSpeed => "reaction"@,
        RecommendationKind::QuickBreak => "quick_break"@,
    }
}

pub open spec fn advice_minutes(k: RecommendationKind) -> u32 {
    match k {
        RecommendationKind::SprayControl => 4,
        RecommendationKind::QuickBreak => 5,
        _ => 3,
    }
}

pub open spec fn is_lower_hex_digit(c: char) -> bool {
    ('0' <= c && c <= '9') || ('a' <= c && c <= 'f')
}

/// The text of a random (version 4) UUID in hyphenated lower-case form:
/// 36 characters, hyphens at 8, 13, 18 and 23, the version digit `4` at
/// 14, a variant digit of 8, 9, a or b at 19, lower-case hex elsewhere.
pub open spec fn is_uuid_v4_text(s: Seq<char>) -> bool {
    &&& s.len() == 36
    &&& s[8] == '-' && s[13] == '-' && s[18] == '-' && s[23] == '-'
    &&& s[14] == '4'
    &&& (s[19] == '8' || s[19] == '9' || s[19] == 'a' || s[19] == 'b')
    &&& forall|i: int|
        0 <= i < 36 && i != 8 && i != 13 && i != 18 && i != 23 ==> is_lower_hex_digit(#[trigger] s[i])
}

/// The lower-case hex digit of a value below sixteen.
pub open spec fn hex_char(v: u8) -> char {
    seq!['0', '1', '2', '3', '4', '5', '6', '7', '8', '9', 'a', 'b', 'c', 'd', 'e', 'f'][v as int]
}

/// Byte `k` of the UUID built from sixteen random bytes: byte 6 carries the
/// version (4) in its high half, byte 8 the variant bits `10` on top, the
/// others are the random bytes themselves.
pub open spec fn uuid_byte(b: Seq<u8>, k: int) -> u8 {
    if k == 6 {
        (b[6] & 0x0f) | 0x40
    } else if k == 8 {
        (b[8] & 0x3f) | 0x80
    } else {
        b[k]
    }
}

/// Which hex digit (counting from the first byte's high half) the
/// character at position `i` of the hyphenated text shows.
pub open spec fn digit_index(i: int) -> int {
    if i < 8 {
        i
    } else if i < 13 {
        i - 1
    } else if i < 18 {
        i - 2
    } else if i < 23 {
        i - 3
    } else {
        i - 4
    }
}

/// The `j`-th hex digit of the UUID built from `b`.
pub open spec fn uuid_digit(b: Seq<u8>, j: int) -> u8 {
    let byte = uuid_byte(b, j / 2);
    if j % 2 == 0 {
        byte >> 4
    } else {
        byte & 0x0f
    }
}

/// The hyphenated lower-case text of the version 4 UUID built from the
/// sixteen bytes `b`.
pub open spec fn uuid_text(b: Seq<u8>) -> Seq<char> {
    Seq::new(
        36,
        |i: int|
            if i == 8 || i == 13 || i == 18 || i == 23 {
                '-'
            } else {
                hex_char(uuid_digit(b, digit_index(i)))
            },
    )
}

proof fn lemma_hex_char_is_digit(v: u8)
    requires
        v < 16,
    ensures
        is_lower_hex_digit(hex_char(v)),
        v == 4 ==> hex_char(v) == '4',
        v == 8 ==> hex_char(v) == '8',
        v == 9 ==> hex_char(v) == '9',
        v == 10 ==> hex_char(v) == 'a',
        v == 11 ==> hex_char(v) == 'b',
{
    let t = seq!['0', '1', '2', '3', '4', '5', '6', '7', '8', '9', 'a', 'b', 'c', 'd', 'e', 'f'];
    assert(t[0] == '0' && t[1] == '1' && t[2] == '2' && t[3] == '3' && t[4] == '4' && t[5] == '5');
    assert(t[6] == '6' && t[7] == '7' && t[8] == '8' && t[9] == '9' && t[10] == 'a' && t[11] == 'b');
    assert(t[12] == 'c' && t[13] == 'd' && t[14] == 'e' && t[15] == 'f');
}

/// The text built from any sixteen bytes is a version 4 UUID text.
pub proof fn lemma_uuid_text_is_v4(b: Seq<u8>)
    requires
        b.len() == 16,
    ensures
        is_uuid_v4_text(uuid_text(b)),
{
    let t = uuid_text(b);
    assert forall|i: int|
        0 <= i < 36 && i != 8 && i != 13 && i != 18 && i != 23 implies is_lower_hex_digit(#[trigger] t[i]) by {
        let j = digit_index(i);
        let byte = uuid_byte(b, j / 2);
        assert(byte >> 4 < 16 && byte & 0x0f < 16) by (bit_vector);
        lemma_hex_char_is_digit(uuid_digit(b, j));
    }
    let b6 = b[6];
    let b8 = b[8];
    assert(((b6 & 0x0f) | 0x40) >> 4 == 4) by (bit_vector);
    assert({
        let h = ((b8 & 0x3f) | 0x80) >> 4;
        h == 8 || h == 9 || h == 10 || h == 11
    }) by (bit_vector);
    assert(digit_index(14) == 12 && digit_index(19) == 16);
    lemma_hex_char_is_digit(uuid_digit(b, 12));
    lemma_hex_char_is_digit(uuid_digit(b, 16));
}

/// Fills sixteen bytes from the operating system's random source with
/// `rand::rngs::OsRng`'s `try_fill_bytes`; `None` when the source fails.
/// The bytes are random, so nothing is claimed of them.
#[verifier::external_body]
fn draw_random_bytes() -> (r: Option<[u8; 16]>) {
    let mut bytes = [0u8; 16];
    match rand::RngCore::try_fill_bytes(&mut rand::rngs::OsRng, &mut bytes) {
        Ok(()) => Some(bytes),
        Err(_) => None,
    }
}

/// Builds a version 4 UUID from sixteen random bytes with
/// `uuid::Builder::from_random_bytes` and renders it with `to_string`.
/// The builder sets the version bits of byte 6 and the variant bits of
/// byte 8 and keeps the rest; `Display` writes the sixteen bytes as
/// hyphenated lower-case hex. The claim is that text, exactly.
#[verifier::external_body]
fn uuid_text_from_random_bytes(bytes: [u8; 16]) -> (s: String)
    ensures
        s@ == uuid_text(bytes@),
{
    uuid::Builder::from_random_bytes(bytes).into_uuid().to_string()
}

pub struct Recommender;

impl Recommender {
    /// Draws a fresh advice id: the text of a version 4 UUID built from
    /// sixteen bytes of the operating system's random source, or `None`
    /// when that source fails.
    pub fn new_advice_id() -> (id: Option<String>)
        ensures
            id matches Some(s) ==> is_uuid_v4_text(s@) && exists|b: Seq<u8>| b.len() == 16 && s@ == uuid_text(b),
    {
        match draw_random_bytes() {
            Some(bytes) => {
                let s = uuid_text_from_random_bytes(bytes);
                proof {
                    lemma_uuid_text_is_v4(bytes@);
                }
                Some(s)
            },
            None => None,
        }
    }

    /// Picks the advice a session calls for.
    pub fn select(signals: &CoachingSignals) -> (k: RecommendationKind)
        ensures
            k == advice_for(*signals),
    {
        if signals.moving_shots_over_limit {
            return RecommendationKind::CounterStrafe;
        }
        let b = signals.direction_bias;
        if b == DirectionBias::Low || b == DirectionBias::LowLeft || b == DirectionBias::LowRight {
            return RecommendationKind::CrosshairPlacement;
        }
        if b == DirectionBias::High || b == DirectionBias::HighLeft || b == DirectionBias::HighRight {
            return RecommendationKind::SprayControl;
        }
        if signals.slow_but_accurate {
            return RecommendationKind::ReactionSpeed;
        }
        RecommendationKind::QuickBreak
    }

    /// Assembles the advice of kind `kind` for a session, with the id and
    /// the observation and evidence texts given.
    pub fn build(
        kind: RecommendationKind,
        id: String,
        session_id: String,
        observation: String,
        evidence: String,
    ) -> (r: Recommendation)
        ensures
            r.id == id,
            r.session_id == session_id,
            r.title@ == advice_title(kind),
            r.observation == observation,
            r.evidence == evidence,
            r.likely_cause@ == advice_cause(kind),
            r.suggested_drill@ == advice_drill(kind),
            r.suggested_duration_minutes == advice_minutes(kind),
    {
        let (title, cause, drill, minutes): (&str, &str, &str, u32) = match kind {
            RecommendationKind::CounterStrafe => (
                "Haraktda otish / Counter-Strafe kamchiligi",
                "Qarama-qarshi tugmani bosib tormozlash (counter-strafe) kechikishi.",
                "counter_strafe",
                3,
            ),
            RecommendationKind::CrosshairPlacement => (
                "Nishon balandligi past / Crosshair Placement",
                "Krossxayrni bosh balandligidan pastroqda ushlab turish odati.",
                "headshot",
                3,
            ),
            RecommendationKind::SprayControl => (
                "Otish paytida qaytish (recoil) kompensatsiyasi kam",
                "Sprey paytida sichqonchani yetarli darajada pastga tortmaslik.",
                "spray_control",
                4,
            ),
            RecommendationKind::ReactionSpeed => (
                "Reaksiya tezligini oshirish mashqi",
                "Ortiqcha nishonga olish vaqti sarflanmoqda.",
                "reaction",
                3,
            ),
            RecommendationKind::QuickBreak => (
                "Ajoyib natija! Quick Break bilan davom eting",
                "Barqaror mushak xotirasi va to'g'ri krossxayr joylashuvi.",
                "quick_break",
                5,
            ),
        };
        Recommendation {
            id,
            session_id,
            title: title.to_owned(),
            observation,
            evidence,
            likely_cause: cause.to_owned(),
            suggested_drill: drill.to_owned(),
            suggested_duration_minutes: minutes,
        }
    }
}

} // verus!
