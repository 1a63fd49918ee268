//! AMeDAS observation data: station metadata lookup, selection of the
//! most recent reading (with the sparsely-reported weather code merged in
//! from the nearest entry that carries one), display tables for wind
//! direction and weather codes, and construction of the bucketed
//! observation-document URL from a published update timestamp.

use vstd::prelude::*;

use chrono::{Datelike, Timelike};

use crate::text::{dec_digits, four_digit_string, four_digits, two_digit_string, two_digits};

verus! {

/// The error type of chrono's parsers, carried through unchanged.
#[verifier::external_type_specification]
#[verifier::external_body]
pub struct ExParseError(chrono::format::ParseError);

/// What can go wrong while working with observation data. A malformed
/// timestamp and a missing station are distinct kinds and are never
/// conflated; transport failures happen outside this crate and are
/// reported by the caller's own error type.
#[derive(Debug)]
pub enum AmedasError {
    ChronoParseError(chrono::format::ParseError),
    NoData(String),
}

/// The calendar fields of a parsed update timestamp: a four-digit year,
/// month, day and hour of day.
#[derive(Clone, Copy, PartialEq, Eq, Structural, Debug)]
pub struct Timestamp {
    pub year: u32,
    pub month: u32,
    pub day: u32,
    pub hour: u32,
}

/// What chrono's RFC 3339 parser yields for a string: absent exactly when
/// the string is not a valid RFC 3339 date-time. The result depends on the
/// string alone.
pub uninterp spec fn rfc3339_parsed(s: Seq<char>) -> Option<Timestamp>;

/// Relies on chrono's `DateTime::parse_from_rfc3339` and its `Datelike` /
/// `Timelike` accessors: parsing succeeds exactly on RFC 3339 date-times
/// (whose year is four digits by grammar), and the accessors yield month
/// 1-12, day 1-31 and hour 0-23.
#[verifier::external_body]
fn parse_rfc3339(s: &str) -> (r: Result<Timestamp, chrono::format::ParseError>)
    ensures
        r matches Ok(t) ==> rfc3339_parsed(s@) == Some(t),
        r is Err <==> rfc3339_parsed(s@) is None,
        r matches Ok(t) ==> t.year <= 9999 && 1 <= t.month <= 12 && 1 <= t.day <= 31 && t.hour
            < 24,
{
    match chrono::DateTime::parse_from_rfc3339(s) {
        Ok(dt) => Ok(
            Timestamp {
                year: dt.year() as u32,
                month: dt.month(),
                day: dt.day(),
                hour: dt.hour(),
            },
        ),
        Err(e) => Err(e),
    }
}

/// The hour truncated down to the nearest multiple of three.
pub open spec fn hour_bucket_spec(h: int) -> int {
    h / 3 * 3
}

/// The observation-document URL for a station and an update timestamp:
/// the point path, the eight-digit date, and the two-digit hour bucket.
pub open spec fn amedas_point_url(code: Seq<char>, t: Timestamp) -> Seq<char> {
    "https://www.jma.go.jp/bosai/amedas/data/point/"@ + code + "/"@ + four_digits(t.year as int)
        + two_digits(t.month as int) + two_digits(t.day as int) + "_"@ + two_digits(
        hour_bucket_spec(t.hour as int),
    ) + ".json"@
}

/// Build the observation-document URL for a station from the published
/// update timestamp. A string that is not an RFC 3339 date-time is a
/// parse error, never a panic or a silent default.
pub fn create_amedas_url(amedas_code: &str, update_str: &str) -> (r: Result<String, AmedasError>)
    ensures
        r matches Ok(url) ==> (rfc3339_parsed(update_str@) matches Some(t) && url@
            == amedas_point_url(amedas_code@, t)),
        r is Err <==> rfc3339_parsed(update_str@) is None,
        r matches Err(e) ==> e is ChronoParseError,
{
    let t = match parse_rfc3339(update_str) {
        Ok(t) => t,
        Err(e) => {
            return Err(AmedasError::ChronoParseError(e));
        },
    };
    let mut url = "https://www.jma.go.jp/bosai/amedas/data/point/".to_owned();
    url.append(amedas_code);
    url.append("/");
    url.append(four_digit_string(t.year).as_str());
    url.append(two_digit_string(t.month).as_str());
    url.append(two_digit_string(t.day).as_str());
    url.append("_");
    url.append(two_digit_string(t.hour / 3 * 3).as_str());
    url.append(".json");
    proof {
        assert(url@ =~= amedas_point_url(amedas_code@, t));
    }
    Ok(url)
}

/// Law: the hour bucket of an observation URL is the hour rounded down to
/// a multiple of three — `h - h % 3` — rendered as exactly two zero-padded
/// decimal digits.
pub proof fn lemma_hour_bucket(h: int)
    requires
        0 <= h < 24,
    ensures
        hour_bucket_spec(h) == h - h % 3,
        hour_bucket_spec(h) % 3 == 0,
        0 <= hour_bucket_spec(h) <= h,
        h - hour_bucket_spec(h) < 3,
        two_digits(hour_bucket_spec(h)).len() == 2,
        two_digits(hour_bucket_spec(h)) == seq![
            crate::text::digit_char(hour_bucket_spec(h) / 10),
            crate::text::digit_char(hour_bucket_spec(h) % 10),
        ],
{
    vstd::arithmetic::div_mod::lemma_fundamental_div_mod(h, 3);
}

/// One raw observation entry. Each measured magnitude is paired with its
/// quality flag; magnitudes are carried in tenths of the published unit,
/// so a reading is plain integer data.
#[derive(Clone, Copy, PartialEq, Eq, Debug)]
pub struct AmedasRawData {
    pub pressure: (i64, u32),
    pub temp: (i64, u32),
    pub humidity: (i64, u32),
    pub visibility: (i64, u32),
    pub weather: Option<(u32, u32)>,
    pub snow1h: Option<(i64, u32)>,
    pub precipitation10m: (i64, u32),
    pub wind_direction: (Option<u32>, u32),
    pub wind: (Option<i64>, u32),
}

/// The entry with the numerically greatest timestamp key; on equal keys
/// the one listed first wins.
pub open spec fn latest_entry(s: Seq<(u64, AmedasRawData)>) -> Option<(u64, AmedasRawData)>
    decreases s.len(),
{
    if s.len() == 0 {
        None
    } else {
        match latest_entry(s.skip(1)) {
            None => Some(s[0]),
            Some(b) => if b.0 > s[0].0 {
                Some(b)
            } else {
                Some(s[0])
            },
        }
    }
}

/// Among entries that carry a weather code, the one with the numerically
/// least timestamp key; on equal keys the one listed first wins.
pub open spec fn earliest_weather_entry(s: Seq<(u64, AmedasRawData)>) -> Option<
    (u64, AmedasRawData),
>
    decreases s.len(),
{
    if s.len() == 0 {
        None
    } else {
        let rest = earliest_weather_entry(s.skip(1));
        if s[0].1.weather is Some {
            match rest {
                None => Some(s[0]),
                Some(b) => if b.0 < s[0].0 {
                    Some(b)
                } else {
                    Some(s[0])
                },
            }
        } else {
            rest
        }
    }
}

/// The reading reported for a station: the numeric fields of the latest
/// entry, with the weather and snow fields overlaid from the earliest
/// entry that carries a weather code (weather codes are published
/// sparsely, so they may lag the latest numeric reading).
pub open spec fn latest_reading_spec(s: Seq<(u64, AmedasRawData)>) -> Option<AmedasRawData> {
    match latest_entry(s) {
        None => None,
        Some(le) => Some(
            match earliest_weather_entry(s) {
                None => le.1,
                Some(we) => AmedasRawData {
                    pressure: le.1.pressure,
                    temp: le.1.temp,
                    humidity: le.1.humidity,
                    visibility: le.1.visibility,
                    weather: we.1.weather,
                    snow1h: we.1.snow1h,
                    precipitation10m: le.1.precipitation10m,
                    wind_direction: le.1.wind_direction,
                    wind: le.1.wind,
                },
            },
        ),
    }
}

proof fn lemma_latest_push(t: Seq<(u64, AmedasRawData)>, e: (u64, AmedasRawData))
    ensures
        latest_entry(t.push(e)) == (match latest_entry(t) {
            None => Some(e),
            Some(b) => if e.0 > b.0 {
                Some(e)
            } else {
                Some(b)
            },
        }),
    decreases t.len(),
{
    if t.len() == 0 {
        assert(t.push(e).skip(1) =~= Seq::<(u64, AmedasRawData)>::empty());
        assert(t.push(e)[0] == e);
        assert(latest_entry(t.push(e).skip(1)) is None);
    } else {
        lemma_latest_push(t.skip(1), e);
        assert(t.push(e).skip(1) =~= t.skip(1).push(e));
        assert(t.push(e)[0] == t[0]);
        assert(latest_entry(t.push(e)) == (match latest_entry(t.skip(1).push(e)) {
            None => Some(t[0]),
            Some(b) => if b.0 > t[0].0 {
                Some(b)
            } else {
                Some(t[0])
            },
        }));
        assert(latest_entry(t) == (match latest_entry(t.skip(1)) {
            None => Some(t[0]),
            Some(b) => if b.0 > t[0].0 {
                Some(b)
            } else {
                Some(t[0])
            },
        }));
    }
}

proof fn lemma_earliest_weather_push(t: Seq<(u64, AmedasRawData)>, e: (u64, AmedasRawData))
    ensures
        earliest_weather_entry(t.push(e)) == (if e.1.weather is Some {
            match earliest_weather_entry(t) {
                None => Some(e),
                Some(b) => if e.0 < b.0 {
                    Some(e)
                } else {
                    Some(b)
                },
            }
        } else {
            earliest_weather_entry(t)
        }),
    decreases t.len(),
{
    if t.len() == 0 {
        assert(t.push(e).skip(1) =~= Seq::<(u64, AmedasRawData)>::empty());
        assert(t.push(e)[0] == e);
        assert(earliest_weather_entry(t.push(e).skip(1)) is None);
    } else {
        lemma_earliest_weather_push(t.skip(1), e);
        assert(t.push(e).skip(1) =~= t.skip(1).push(e));
        assert(t.push(e)[0] == t[0]);
        assert(earliest_weather_entry(t.push(e)) == ({
            let rest = earliest_weather_entry(t.skip(1).push(e));
            if t[0].1.weather is Some {
                match rest {
                    None => Some(t[0]),
                    Some(b) => if b.0 < t[0].0 {
                        Some(b)
                    } else {
                        Some(t[0])
                    },
                }
            } else {
                rest
            }
        }));
        assert(earliest_weather_entry(t) == ({
            let rest = earliest_weather_entry(t.skip(1));
            if t[0].1.weather is Some {
                match rest {
                    None => Some(t[0]),
                    Some(b) => if b.0 < t[0].0 {
                        Some(b)
                    } else {
                        Some(t[0])
                    },
                }
            } else {
                rest
            }
        }));
    }
}

/// The sixteen compass labels, with index 0 for calm.
pub open spec fn wind_direction_label(i: int) -> Seq<char> {
    if i == 0 {
        "--"@
    } else if i == 1 {
        "NNE"@
    } else if i == 2 {
        "NE"@
    } else if i == 3 {
        "ENE"@
    } else if i == 4 {
        "E"@
    } else if i == 5 {
        "ESE"@
    } else if i == 6 {
        "SE"@
    } else if i == 7 {
        "SSE"@
    } else if i == 8 {
        "S"@
    } else if i == 9 {
        "SSW"@
    } else if i == 10 {
        "SW"@
    } else if i == 11 {
        "WSW"@
    } else if i == 12 {
        "W"@
    } else if i == 13 {
        "WNW"@
    } else if i == 14 {
        "NW"@
    } else if i == 15 {
        "NNW"@
    } else {
        "N"@
    }
}

/// The arrow drawn for each wind direction, with a dot for calm.
pub open spec fn wind_direction_arrow(i: int) -> Seq<char> {
    if i == 0 {
        "・"@
    } else if i == 1 || i == 2 {
        "⇙"@
    } else if i == 3 || i == 4 {
        "⇐"@
    } else if i == 5 || i == 6 {
        "⇖"@
    } else if i == 7 || i == 8 {
        "⇑"@
    } else if i == 9 || i == 10 {
        "⇗"@
    } else if i == 11 || i == 12 {
        "⇒"@
    } else if i == 13 || i == 14 {
        "⇘"@
    } else {
        "⇓"@
    }
}

/// The compass label for a wind direction index (0 is calm, 16 is north).
pub fn wind_direction_str(i: u32) -> (r: &'static str)
    requires
        i < 17,
    ensures
        r@ == wind_direction_label(i as int),
{
    match i {
        0 => "--",
        1 => "NNE",
        2 => "NE",
        3 => "ENE",
        4 => "E",
        5 => "ESE",
        6 => "SE",
        7 => "SSE",
        8 => "S",
        9 => "SSW",
        10 => "SW",
        11 => "WSW",
        12 => "W",
        13 => "WNW",
        14 => "NW",
        15 => "NNW",
        _ => "N",
    }
}

/// The arrow character for a wind direction index.
pub fn wind_direction_arrow_str(i: u32) -> (r: &'static str)
    requires
        i < 17,
    ensures
        r@ == wind_direction_arrow(i as int),
{
    match i {
        0 => "・",
        1 => "⇙",
        2 => "⇙",
        3 => "⇐",
        4 => "⇐",
        5 => "⇖",
        6 => "⇖",
        7 => "⇑",
        8 => "⇑",
        9 => "⇗",
        10 => "⇗",
        11 => "⇒",
        12 => "⇒",
        13 => "⇘",
        14 => "⇘",
        15 => "⇓",
        _ => "⇓",
    }
}

/// First-match lookup in a weather-code table, falling back to the last
/// entry for the sentinel code 999 when the code is absent.
pub open spec fn emoji_lookup(
    t: Seq<(u32, Seq<char>)>,
    code: u32,
    fallback: Option<Seq<char>>,
) -> Option<Seq<char>>
    decreases t.len(),
{
    if t.len() == 0 {
        fallback
    } else if t[0].0 == code {
        Some(t[0].1)
    } else if t[0].0 == 999 {
        emoji_lookup(t.skip(1), code, Some(t[0].1))
    } else {
        emoji_lookup(t.skip(1), code, fallback)
    }
}

/// The pairs of a label table with the labels as character sequences.
pub open spec fn view_pairs(t: Seq<(u32, &str)>) -> Seq<(u32, Seq<char>)> {
    t.map_values(|p: (u32, &str)| (p.0, p.1@))
}

/// A table that holds the sentinel code 999 answers every lookup.
pub proof fn lemma_emoji_lookup_some(t: Seq<(u32, Seq<char>)>, code: u32, f: Option<Seq<char>>)
    requires
        f is Some || exists|j: int| 0 <= j < t.len() && t[j].0 == 999,
    ensures
        emoji_lookup(t, code, f) is Some,
    decreases t.len(),
{
    if t.len() != 0 && t[0].0 != code {
        if t[0].0 == 999 {
            lemma_emoji_lookup_some(t.skip(1), code, Some(t[0].1));
        } else {
            if f is None {
                let j = choose|j: int| 0 <= j < t.len() && t[j].0 == 999;
                assert(t.skip(1)[j - 1] == t[j]);
            }
            lemma_emoji_lookup_some(t.skip(1), code, f);
        }
    }
}

/// The weather-code-to-label table used for Slack-style output.
pub open spec fn slack_emoji_table() -> Seq<(u32, Seq<char>)> {
    seq![
        (0u32, ":sunny:"@),
        (1u32, ":cloud:"@),
        (2u32, ":fog:"@),
        (3u32, ":fogggy:"@),
        (4u32, ":umbrella_with_rain_drops:"@),
        (5u32, ":umbrella_with_rain_drops:"@),
        (6u32, ":fog:"@),
        (7u32, ":umbrella_with_rain_drops:"@),
        (8u32, ":umbrella_with_rain_drops:"@),
        (9u32, ":snowflake:"@),
        (10u32, ":snowman:"@),
        (11u32, ":snow_cloud:"@),
        (12u32, ":snow_cloud:"@),
        (13u32, ":partly_sunny_rain:"@),
        (14u32, ":partly_sunny_rain:"@),
        (15u32, ":snowflake:"@),
        (16u32, ":lightning:"@),
        (100u32, ":night_with_stars:"@),
        (999u32, ":construction:"@),
    ]
}

/// The weather-code-to-label table used for Discord-style output.
pub open spec fn discord_emoji_table() -> Seq<(u32, Seq<char>)> {
    seq![
        (0u32, ":sunny:"@),
        (1u32, ":cloud:"@),
        (2u32, ":fog:"@),
        (3u32, ":fogggy:"@),
        (4u32, ":umbrella:"@),
        (5u32, ":umbrella:"@),
        (6u32, ":fog:"@),
        (7u32, ":umbrella:"@),
        (8u32, ":umbrella:"@),
        (9u32, ":snowflake:"@),
        (10u32, ":snowman2:"@),
        (11u32, ":cloud_snow:"@),
        (12u32, ":cloud_snow:"@),
        (13u32, ":white_sun_rain_cloud:"@),
        (14u32, ":white_sun_rain_cloud:"@),
        (15u32, ":snowflake:"@),
        (16u32, ":thunder_cloud_rain:"@),
        (100u32, ":night_with_stars:"@),
        (999u32, ":construction:"@),
    ]
}

/// The Slack-style label table as a value a caller can pass to
/// [`weather_emoji`].
pub fn amedas_weather_emoji_slack() -> (r: [(u32, &'static str); 19])
    ensures
        view_pairs(r@) == slack_emoji_table(),
{
    let r: [(u32, &'static str); 19] = [
        (0, ":sunny:"),
        (1, ":cloud:"),
        (2, ":fog:"),
        (3, ":fogggy:"),
        (4, ":umbrella_with_rain_drops:"),
        (5, ":umbrella_with_rain_drops:"),
        (6, ":fog:"),
        (7, ":umbrella_with_rain_drops:"),
        (8, ":umbrella_with_rain_drops:"),
        (9, ":snowflake:"),
        (10, ":snowman:"),
        (11, ":snow_cloud:"),
        (12, ":snow_cloud:"),
        (13, ":partly_sunny_rain:"),
        (14, ":partly_sunny_rain:"),
        (15, ":snowflake:"),
        (16, ":lightning:"),
        (100, ":night_with_stars:"),
        (999, ":construction:"),
    ];
    proof {
        assert(view_pairs(r@) =~= slack_emoji_table());
    }
    r
}

/// The Discord-style label table as a value a caller can pass to
/// [`weather_emoji`].
pub fn amedas_weather_emoji_discord() -> (r: [(u32, &'static str); 19])
    ensures
        view_pairs(r@) == discord_emoji_table(),
{
    let r: [(u32, &'static str); 19] = [
        (0, ":sunny:"),
        (1, ":cloud:"),
        (2, ":fog:"),
        (3, ":fogggy:"),
        (4, ":umbrella:"),
        (5, ":umbrella:"),
        (6, ":fog:"),
        (7, ":umbrella:"),
        (8, ":umbrella:"),
        (9, ":snowflake:"),
        (10, ":snowman2:"),
        (11, ":cloud_snow:"),
        (12, ":cloud_snow:"),
        (13, ":white_sun_rain_cloud:"),
        (14, ":white_sun_rain_cloud:"),
        (15, ":snowflake:"),
        (16, ":thunder_cloud_rain:"),
        (100, ":night_with_stars:"),
        (999, ":construction:"),
    ];
    proof {
        assert(view_pairs(r@) =~= discord_emoji_table());
    }
    r
}

/// The display label for a weather code, from the given table; a code
/// absent from the table falls back to the sentinel entry 999.
pub fn weather_emoji(code: u32, emoji: [(u32, &str); 19]) -> (r: String)
    requires
        emoji_lookup(view_pairs(emoji@), code, None) is Some,
    ensures
        Some(r@) == emoji_lookup(view_pairs(emoji@), code, None),
{
    let ghost tv = view_pairs(emoji@);
    proof {
        assert(tv.skip(0) =~= tv);
    }
    let mut fallback: Option<&str> = None;
    let mut i: usize = 0;
    while i < 19
        invariant
            i <= 19,
            tv == view_pairs(emoji@),
            tv.len() == 19,
            emoji_lookup(tv, code, None) == emoji_lookup(
                tv.skip(i as int),
                code,
                match fallback {
                    Some(f) => Some(f@),
                    None => None,
                },
            ),
        decreases 19 - i,
    {
        let e = emoji[i];
        proof {
            assert(tv.skip(i as int)[0] == tv[i as int]);
            assert(tv[i as int] == (e.0, e.1@));
            assert(tv.skip(i as int).skip(1) =~= tv.skip(i + 1 as int));
        }
        if e.0 == code {
            return e.1.to_owned();
        }
        if e.0 == 999 {
            fallback = Some(e.1);
        }
        i += 1;
    }
    proof {
        assert(tv.skip(19) =~= Seq::<(u32, Seq<char>)>::empty());
    }
    match fallback {
        Some(f) => f.to_owned(),
        None => vstd::pervasive::unreached(),
    }
}

/// The day and night forecast-icon numbers for each observed weather
/// code, with the sentinel entry 999 last.
pub open spec fn jma_weather_codes_table() -> Seq<(u32, u32, u32)> {
    seq![
        (0u32, 100u32, 500u32),
        (1u32, 200u32, 200u32),
        (2u32, 200u32, 200u32),
        (3u32, 300u32, 300u32),
        (4u32, 300u32, 300u32),
        (5u32, 300u32, 300u32),
        (6u32, 400u32, 400u32),
        (7u32, 300u32, 300u32),
        (8u32, 400u32, 400u32),
        (9u32, 403u32, 403u32),
        (10u32, 400u32, 400u32),
        (11u32, 403u32, 403u32),
        (12u32, 400u32, 400u32),
        (13u32, 302u32, 302u32),
        (14u32, 402u32, 402u32),
        (15u32, 400u32, 400u32),
        (16u32, 300u32, 300u32),
        (100u32, 500u32, 500u32),
        (999u32, 308u32, 308u32),
    ]
}

/// First-match lookup of the icon number for a weather code, falling back
/// to the last sentinel entry 999 when the code is absent.
pub open spec fn svg_code_lookup(
    t: Seq<(u32, u32, u32)>,
    code: u32,
    night: bool,
    fallback: Option<u32>,
) -> Option<u32>
    decreases t.len(),
{
    if t.len() == 0 {
        fallback
    } else if t[0].0 == code {
        Some(
            if night {
                t[0].2
            } else {
                t[0].1
            },
        )
    } else if t[0].0 == 999 {
        svg_code_lookup(
            t.skip(1),
            code,
            night,
            Some(
                if night {
                    t[0].2
                } else {
                    t[0].1
                },
            ),
        )
    } else {
        svg_code_lookup(t.skip(1), code, night, fallback)
    }
}

proof fn lemma_svg_code_lookup_some(t: Seq<(u32, u32, u32)>, code: u32, night: bool, f: Option<u32>)
    requires
        f is Some || exists|j: int| 0 <= j < t.len() && t[j].0 == 999,
    ensures
        svg_code_lookup(t, code, night, f) is Some,
    decreases t.len(),
{
    if t.len() != 0 && t[0].0 != code {
        if t[0].0 == 999 {
            lemma_svg_code_lookup_some(
                t.skip(1),
                code,
                night,
                Some(
                    if night {
                        t[0].2
                    } else {
                        t[0].1
                    },
                ),
            );
        } else {
            if f is None {
                let j = choose|j: int| 0 <= j < t.len() && t[j].0 == 999;
                assert(t.skip(1)[j - 1] == t[j]);
            }
            lemma_svg_code_lookup_some(t.skip(1), code, night, f);
        }
    }
}

/// The forecast-icon URL for a weather code and time of day.
pub open spec fn svg_url_spec(code: u32, night: bool) -> Seq<char> {
    "https://www.jma.go.jp/bosai/forecast/img/"@ + dec_digits(
        svg_code_lookup(jma_weather_codes_table(), code, night, None)->Some_0 as int,
    ) + ".svg"@
}

/// The icon number chosen for an observed weather code.
fn svg_code_for(code: u32, night: bool) -> (r: u32)
    ensures
        Some(r) == svg_code_lookup(jma_weather_codes_table(), code, night, None),
{
    let table: [(u32, u32, u32); 19] = [
        (0, 100, 500),
        (1, 200, 200),
        (2, 200, 200),
        (3, 300, 300),
        (4, 300, 300),
        (5, 300, 300),
        (6, 400, 400),
        (7, 300, 300),
        (8, 400, 400),
        (9, 403, 403),
        (10, 400, 400),
        (11, 403, 403),
        (12, 400, 400),
        (13, 302, 302),
        (14, 402, 402),
        (15, 400, 400),
        (16, 300, 300),
        (100, 500, 500),
        (999, 308, 308),
    ];
    proof {
        assert(table@ =~= jma_weather_codes_table());
    }
    let ghost tv = jma_weather_codes_table();
    proof {
        assert(tv.skip(0) =~= tv);
    }
    let mut fallback: Option<u32> = None;
    let mut i: usize = 0;
    while i < 19
        invariant
            i <= 19,
            table@ == tv,
            tv == jma_weather_codes_table(),
            tv.len() == 19,
            svg_code_lookup(tv, code, night, None) == svg_code_lookup(
                tv.skip(i as int),
                code,
                night,
                fallback,
            ),
        decreases 19 - i,
    {
        let e = table[i];
        proof {
            assert(tv.skip(i as int)[0] == tv[i as int]);
            assert(tv[i as int] == e);
            assert(tv.skip(i as int).skip(1) =~= tv.skip(i + 1 as int));
        }
        if e.0 == code {
            let v: u32 = if night {
                e.2
            } else {
                e.1
            };
            proof {
                assert(tv.skip(i as int).len() > 0);
                assert(svg_code_lookup(tv.skip(i as int), code, night, fallback) == Some(v));
                assert(Some(v) == svg_code_lookup(jma_weather_codes_table(), code, night, None));
            }
            return v;
        }
        if e.0 == 999 {
            fallback = Some(if night {
                e.2
            } else {
                e.1
            });
        }
        i += 1;
    }
    proof {
        assert(tv.skip(19) =~= Seq::<(u32, u32, u32)>::empty());
    }
    match fallback {
        Some(f) => f,
        None => {
            proof {
                lemma_svg_code_lookup_some(tv, code, night, None);
            }
            vstd::pervasive::unreached()
        },
    }
}

/// The forecast-icon URL for an observed weather code; a code absent from
/// the table draws the sentinel icon.
pub fn svg_url(code: u32, night: bool) -> (r: String)
    ensures
        r@ == svg_url_spec(code, night),
{
    let chosen = svg_code_for(code, night);
    let mut url = "https://www.jma.go.jp/bosai/forecast/img/".to_owned();
    url.append(crate::text::u32_string(chosen).as_str());
    url.append(".svg");
    proof {
        assert(url@ =~= svg_url_spec(code, night));
    }
    url
}

/// A station's fetched observation document: the station code, the
/// per-timestamp entries (keyed by the numeric timestamp), and the
/// published update time the document was fetched under.
#[derive(Clone, PartialEq, Eq, Debug)]
pub struct Amedas {
    pub amedas_code: String,
    pub data: Vec<(u64, AmedasRawData)>,
    pub latest_time: String,
}

impl Amedas {
    /// The most recent reading, with the weather and snow fields taken
    /// from the earliest entry that carries a weather code. Absent only
    /// when the document holds no entries at all.
    pub fn get_latest_data(&self) -> (r: Option<AmedasRawData>)
        ensures
            r == latest_reading_spec(self.data@),
    {
        let ghost s = self.data@;
        let mut latest: Option<(u64, AmedasRawData)> = None;
        let mut wmin: Option<(u64, AmedasRawData)> = None;
        let mut i: usize = 0;
        while i < self.data.len()
            invariant
                i <= self.data.len(),
                s == self.data@,
                latest == latest_entry(s.subrange(0, i as int)),
                wmin == earliest_weather_entry(s.subrange(0, i as int)),
            decreases self.data.len() - i,
        {
            let e = self.data[i];
            proof {
                assert(s.subrange(0, i + 1 as int) =~= s.subrange(0, i as int).push(s[i as int]));
                lemma_latest_push(s.subrange(0, i as int), s[i as int]);
                lemma_earliest_weather_push(s.subrange(0, i as int), s[i as int]);
            }
            latest = match latest {
                None => Some(e),
                Some(b) => if e.0 > b.0 {
                    Some(e)
                } else {
                    Some(b)
                },
            };
            if e.1.weather.is_some() {
                wmin = match wmin {
                    None => Some(e),
                    Some(b) => if e.0 < b.0 {
                        Some(e)
                    } else {
                        Some(b)
                    },
                };
            }
            i += 1;
        }
        proof {
            assert(s.subrange(0, s.len() as int) =~= s);
        }
        match latest {
            None => None,
            Some(le) => {
                let mut out = le.1;
                match wmin {
                    Some(we) => {
                        out.weather = we.1.weather;
                        out.snow1h = we.1.snow1h;
                    },
                    None => {},
                }
                Some(out)
            },
        }
    }
}

/// Static metadata of one observation station. Latitude and longitude
/// are carried as (degrees, tenths of minutes); the altitude is in
/// meters.
#[derive(Debug)]
pub struct AmedasStation {
    pub station_type: String,
    pub elems: String,
    pub lat: (i64, i64),
    pub lon: (i64, i64),
    pub alt: i32,
    pub kanji_name: String,
    pub kana_name: String,
    pub english_name: String,
}

/// The mathematical value of an [`AmedasStation`].
pub struct AmedasStationV {
    pub station_type: Seq<char>,
    pub elems: Seq<char>,
    pub lat: (i64, i64),
    pub lon: (i64, i64),
    pub alt: i32,
    pub kanji_name: Seq<char>,
    pub kana_name: Seq<char>,
    pub english_name: Seq<char>,
}

impl View for AmedasStation {
    type V = AmedasStationV;

    open spec fn view(&self) -> AmedasStationV {
        AmedasStationV {
            station_type: self.station_type@,
            elems: self.elems@,
            lat: self.lat,
            lon: self.lon,
            alt: self.alt,
            kanji_name: self.kanji_name@,
            kana_name: self.kana_name@,
            english_name: self.english_name@,
        }
    }
}

impl DeepView for AmedasStation {
    type V = AmedasStationV;

    open spec fn deep_view(&self) -> AmedasStationV {
        self.view()
    }
}

impl Clone for AmedasStation {
    fn clone(&self) -> (r: Self)
        ensures
            r@ == self@,
    {
        AmedasStation {
            station_type: self.station_type.clone(),
            elems: self.elems.clone(),
            lat: self.lat,
            lon: self.lon,
            alt: self.alt,
            kanji_name: self.kanji_name.clone(),
            kana_name: self.kana_name.clone(),
            english_name: self.english_name.clone(),
        }
    }
}

/// One keyed row of the station table.
pub struct StationEntry {
    pub code: String,
    pub station: AmedasStation,
}

/// The mathematical value of a [`StationEntry`].
pub struct StationEntryV {
    pub code: Seq<char>,
    pub station: AmedasStationV,
}

impl View for StationEntry {
    type V = StationEntryV;

    open spec fn view(&self) -> StationEntryV {
        StationEntryV { code: self.code@, station: self.station@ }
    }
}

impl DeepView for StationEntry {
    type V = StationEntryV;

    open spec fn deep_view(&self) -> StationEntryV {
        self.view()
    }
}

/// The first station of `t` stored under `code`, if any.
pub open spec fn station_lookup(t: Seq<StationEntryV>, code: Seq<char>) -> Option<AmedasStationV>
    decreases t.len(),
{
    if t.len() == 0 {
        None
    } else if t[0].code == code {
        Some(t[0].station)
    } else {
        station_lookup(t.skip(1), code)
    }
}

proof fn lemma_station_lookup_skip(t: Seq<StationEntryV>, code: Seq<char>, i: int)
    requires
        0 <= i <= t.len(),
        forall|j: int| 0 <= j < i ==> t[j].code != code,
    ensures
        station_lookup(t, code) == station_lookup(t.skip(i), code),
    decreases i,
{
    if i > 0 {
        lemma_station_lookup_skip(t.skip(1), code, i - 1);
        assert(t.skip(1).skip(i - 1) =~= t.skip(i));
    } else {
        assert(t.skip(0) =~= t);
    }
}

/// The metadata of one station, looked up by its code in a fetched
/// station table. A code absent from the table is reported as missing
/// data, never as an empty or default record.
pub fn station_information(stations: &Vec<StationEntry>, amedas_id: &str) -> (r: Result<
    AmedasStation,
    AmedasError,
>)
    ensures
        r matches Ok(st) ==> station_lookup(stations.deep_view(), amedas_id@) == Some(st@),
        r is Err <==> station_lookup(stations.deep_view(), amedas_id@) is None,
        r matches Err(e) ==> (e matches AmedasError::NoData(m) && m@ == amedas_id@
            + " not found"@),
{
    let ghost tv = stations.deep_view();
    let mut i: usize = 0;
    while i < stations.len()
        invariant
            i <= stations.len(),
            tv == stations.deep_view(),
            tv.len() == stations@.len(),
            forall|j: int| 0 <= j < i ==> tv[j].code != amedas_id@,
        decreases stations.len() - i,
    {
        let entry = &stations[i];
        proof {
            assert(entry@ == tv[i as int]);
        }
        if crate::text::str_eq(entry.code.as_str(), amedas_id) {
            proof {
                lemma_station_lookup_skip(tv, amedas_id@, i as int);
                assert(tv.skip(i as int)[0] == tv[i as int]);
            }
            return Ok(entry.station.clone());
        }
        i += 1;
    }
    proof {
        lemma_station_lookup_skip(tv, amedas_id@, tv.len() as int);
    }
    let mut msg = amedas_id.to_owned();
    msg.append(" not found");
    Err(AmedasError::NoData(msg))
}

/// The weather code a raw entry displays under: its own code, or the
/// sentinel 999 when it carries none.
pub open spec fn display_weather_code(a: AmedasRawData) -> u32 {
    match a.weather {
        Some(w) => w.0,
        None => 999,
    }
}

/// A reading prepared for display: the measured magnitudes (in tenths of
/// the published unit) with missing wind fields defaulted, and the
/// derived wind-direction and weather labels.
pub struct AmedasData {
    pub pressure_hpa: i64,
    pub temp_c: i64,
    pub humidity_percent: i64,
    pub visibility_m: i64,
    pub weather: Option<u32>,
    pub snow1h: Option<i64>,
    pub precipitation10m: i64,
    pub wind_direction: u32,
    pub wind_mps: i64,
    pub weather_slack_emoji: String,
    pub weather_discord_emoji: String,
    pub wind_direction_str: String,
    pub wind_direction_emoji: String,
}

impl AmedasData {
    /// Derive the display fields from a raw entry: the weather labels from
    /// the code tables (with the sentinel when no code is carried), and the
    /// wind direction rendered through the compass tables, treating a
    /// missing direction or speed as calm.
    pub fn from_raw(amedas: &AmedasRawData) -> (r: AmedasData)
        requires
            amedas.wind_direction.0 matches Some(d) ==> d < 17,
        ensures
            r.pressure_hpa == amedas.pressure.0,
            r.temp_c == amedas.temp.0,
            r.humidity_percent == amedas.humidity.0,
            r.visibility_m == amedas.visibility.0,
            r.weather == (match amedas.weather {
                Some(w) => Some(w.0),
                None => None::<u32>,
            }),
            r.snow1h == (match amedas.snow1h {
                Some(sn) => Some(sn.0),
                None => None::<i64>,
            }),
            r.precipitation10m == amedas.precipitation10m.0,
            r.wind_direction == (match amedas.wind_direction.0 {
                Some(d) => d,
                None => 0u32,
            }),
            r.wind_mps == (match amedas.wind.0 {
                Some(w) => w,
                None => 0i64,
            }),
            Some(r.weather_slack_emoji@) == emoji_lookup(
                slack_emoji_table(),
                display_weather_code(*amedas),
                None,
            ),
            Some(r.weather_discord_emoji@) == emoji_lookup(
                discord_emoji_table(),
                display_weather_code(*amedas),
                None,
            ),
            r.wind_direction_str@ == wind_direction_label(
                (match amedas.wind_direction.0 {
                    Some(d) => d,
                    None => 0u32,
                }) as int,
            ),
            r.wind_direction_emoji@ == wind_direction_arrow(
                (match amedas.wind_direction.0 {
                    Some(d) => d,
                    None => 0u32,
                }) as int,
            ),
    {
        let code = match amedas.weather {
            Some(w) => w.0,
            None => 999,
        };
        proof {
            assert(slack_emoji_table()[18].0 == 999);
            lemma_emoji_lookup_some(slack_emoji_table(), code, None);
            assert(discord_emoji_table()[18].0 == 999);
            lemma_emoji_lookup_some(discord_emoji_table(), code, None);
        }
        let slack = weather_emoji(code, amedas_weather_emoji_slack());
        let discord = weather_emoji(code, amedas_weather_emoji_discord());
        let weather = match amedas.weather {
            Some(w) => Some(w.0),
            None => None,
        };
        let wind_direction = match amedas.wind_direction.0 {
            Some(d) => d,
            None => 0,
        };
        let wind = match amedas.wind.0 {
            Some(w) => w,
            None => 0,
        };
        let snow1h = match amedas.snow1h {
            Some(sn) => Some(sn.0),
            None => None,
        };
        AmedasData {
            pressure_hpa: amedas.pressure.0,
            temp_c: amedas.temp.0,
            humidity_percent: amedas.humidity.0,
            visibility_m: amedas.visibility.0,
            weather,
            snow1h,
            precipitation10m: amedas.precipitation10m.0,
            wind_direction,
            wind_mps: wind,
            weather_slack_emoji: slack,
            weather_discord_emoji: discord,
            wind_direction_str: wind_direction_str(wind_direction).to_owned(),
            wind_direction_emoji: wind_direction_arrow_str(wind_direction).to_owned(),
        }
    }
}

} // verus!
