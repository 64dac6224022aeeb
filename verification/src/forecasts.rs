//! Decoding of forecast file names into structured metadata.
//!
//! A name such as `Gudauri_2023-01-24T17:00_LF.en.pdf` carries, before the
//! first `.`, three `_`-separated tokens — an area label, a local-time
//! literal, and a forecaster label — and, in the segment right after that
//! first `.`, an optional language tag. The area label is resolved against a
//! caller-supplied area-to-timezone table, and the local-time literal against
//! that timezone's rules.

use vstd::prelude::*;

use crate::calendar::spec_parse_time_literal;
use crate::calendar::parse_time_literal;
use crate::str_eq;
use crate::timezone::{spec_resolve, zone_primary_offset, resolve_local_time, zone_is_known,
    ResolvedTime};

verus! {

/// One row of the area table: an area label and the name of its timezone.
#[derive(Clone, Debug, PartialEq, Eq)]
pub struct AreaZone {
    pub area: String,
    pub zone: String,
}

/// The caller-supplied table resolving area labels to timezone names. Lookup
/// takes the first row whose label matches.
#[derive(Clone, Debug, PartialEq, Eq)]
pub struct AreaTimezoneTable {
    pub entries: Vec<AreaZone>,
}

/// The timezone name of the first row at or after `i` whose label is `area`.
pub open spec fn spec_lookup_from(entries: Seq<AreaZone>, area: Seq<char>, i: int) -> Option<
    Seq<char>,
>
    decreases entries.len() - i,
    when 0 <= i <= entries.len()
{
    if i >= entries.len() {
        None
    } else if entries[i].area@ == area {
        Some(entries[i].zone@)
    } else {
        spec_lookup_from(entries, area, i + 1)
    }
}

pub open spec fn spec_lookup(entries: Seq<AreaZone>, area: Seq<char>) -> Option<Seq<char>> {
    spec_lookup_from(entries, area, 0)
}

impl AreaTimezoneTable {
    pub fn new() -> (r: AreaTimezoneTable)
        ensures
            r.entries@.len() == 0,
    {
        AreaTimezoneTable { entries: Vec::new() }
    }

    /// Adds a row at the end of the table.
    pub fn insert(&mut self, area: String, zone: String)
        ensures
            final(self).entries@ == old(self).entries@.push(AreaZone { area, zone }),
    {
        self.entries.push(AreaZone { area, zone });
    }

    /// The timezone name of the first row whose label is `area`.
    pub fn lookup(&self, area: &str) -> (r: Option<&String>)
        ensures
            r matches Some(zone) ==> spec_lookup(self.entries@, area@) == Some(zone@),
            r is None ==> spec_lookup(self.entries@, area@) is None,
    {
        let n = self.entries.len();
        let mut i: usize = 0;
        while i < n
            invariant
                i <= n,
                n == self.entries@.len(),
                spec_lookup(self.entries@, area@) == spec_lookup_from(self.entries@, area@, i as int),
            decreases n - i,
        {
            if str_eq(self.entries[i].area.as_str(), area) {
                return Some(&self.entries[i].zone);
            }
            i += 1;
        }
        None
    }
}

/// The first index at or after `from` where `c` stands in `s`, or the length
/// of `s` when it stands nowhere there.
pub open spec fn find_char_from(s: Seq<char>, c: char, from: int) -> int
    decreases s.len() - from,
    when 0 <= from <= s.len()
{
    if from >= s.len() {
        s.len() as int
    } else if s[from] == c {
        from
    } else {
        find_char_from(s, c, from + 1)
    }
}

fn find_char(s: &str, c: char, from: usize) -> (r: usize)
    requires
        from <= s@.len(),
    ensures
        r == find_char_from(s@, c, from as int),
        from <= r <= s@.len(),
{
    let n = s.unicode_len();
    let mut i: usize = from;
    while i < n
        invariant
            from <= i <= n,
            n == s@.len(),
            find_char_from(s@, c, from as int) == find_char_from(s@, c, i as int),
        decreases n - i,
    {
        if s.get_char(i) == c {
            return i;
        }
        i += 1;
    }
    n
}

/// Which required token of the details segment is absent.
#[derive(Clone, Copy, Debug, PartialEq, Eq, Structural)]
pub enum MalformedNameKind {
    /// The whole file name is empty.
    EmptyName,
    /// The segment before the first `.` is empty, so no area label stands in it.
    MissingArea,
    /// No `_` follows the area label, so no time literal stands in the name.
    MissingTime,
    /// No `_` follows the time literal, so no forecaster label stands in the name.
    MissingForecaster,
}

/// Why a file name could not be decoded.
#[derive(Clone, Copy, Debug, PartialEq, Eq, Structural)]
pub enum DecodeError {
    /// The name lacks one of its required tokens.
    MalformedName(MalformedNameKind),
    /// The area label is not in the table, or its timezone name is not in the
    /// timezone database.
    UnknownArea,
    /// The time literal does not parse against the fixed format, or names no
    /// instant the timezone rules can be asked about.
    TimeParseError,
    /// A segment follows the details segment but is not a valid language tag.
    LanguageParseError,
}

/// Metadata decoded from a forecast file name.
#[derive(Clone, Debug, PartialEq, Eq)]
pub struct ForecastDetails {
    pub area: String,
    pub time: ResolvedTime,
    pub forecaster: String,
}

/// [`ForecastDetails`] together with the optional language tag (in canonical
/// form) of the file's content.
#[derive(Clone, Debug, PartialEq, Eq)]
pub struct ForecastFileDetails {
    pub forecast: ForecastDetails,
    pub language: Option<String>,
}

/// The mathematical shape of a decoded name: the views of the two labels and
/// the language tag, and the resolved time.
pub struct ForecastNameModel {
    pub area: Seq<char>,
    pub time: ResolvedTime,
    pub forecaster: Seq<char>,
    pub language: Option<Seq<char>>,
}

impl View for ForecastFileDetails {
    type V = ForecastNameModel;

    open spec fn view(&self) -> ForecastNameModel {
        ForecastNameModel {
            area: self.forecast.area@,
            time: self.forecast.time,
            forecaster: self.forecast.forecaster@,
            language: match self.language {
                Some(l) => Some(l@),
                None => None,
            },
        }
    }
}

/// The canonical form of the trailing segment read as a Unicode language
/// identifier; `None` when it is not a well-formed identifier.
pub uninterp spec fn language_identifier_of(s: Seq<char>) -> Option<Seq<char>>;

/// Relies on `<unic_langid::LanguageIdentifier as core::str::FromStr>::from_str`,
/// a pure function of the characters that accepts exactly well-formed Unicode
/// language identifiers, and on the identifier's canonical rendering through
/// its `Display` impl (subtags joined with `-`, in canonical case).
#[verifier::external_body]
fn parse_language_identifier(s: &str) -> (r: Option<String>)
    ensures
        r is Some <==> language_identifier_of(s@) is Some,
        r matches Some(t) ==> language_identifier_of(s@) == Some(t@),
{
    s.parse::<unic_langid::LanguageIdentifier>().ok().map(|l| l.to_string())
}

/// What decoding a file name yields, step by step: reject an empty name and a
/// details segment with fewer than its three `_`-separated tokens; resolve
/// the area label through the table and the timezone database; parse and
/// resolve the local-time literal; and read the segment after the details, if
/// one stands there, as a language tag.
pub open spec fn spec_decode(name: Seq<char>, table: AreaTimezoneTable) -> Result<
    ForecastNameModel,
    DecodeError,
> {
    if name.len() == 0 {
        Err(DecodeError::MalformedName(MalformedNameKind::EmptyName))
    } else {
        let dot = find_char_from(name, '.', 0);
        let details = name.subrange(0, dot);
        if details.len() == 0 {
            Err(DecodeError::MalformedName(MalformedNameKind::MissingArea))
        } else {
            let u1 = find_char_from(details, '_', 0);
            if u1 == details.len() {
                Err(DecodeError::MalformedName(MalformedNameKind::MissingTime))
            } else {
                let u2 = find_char_from(details, '_', u1 + 1);
                if u2 == details.len() {
                    Err(DecodeError::MalformedName(MalformedNameKind::MissingForecaster))
                } else {
                    let area = details.subrange(0, u1);
                    let time_literal = details.subrange(u1 + 1, u2);
                    let u3 = find_char_from(details, '_', u2 + 1);
                    let forecaster = details.subrange(u2 + 1, u3);
                    match spec_lookup(table.entries@, area) {
                        None => Err(DecodeError::UnknownArea),
                        Some(zone) => {
                            if zone_primary_offset(zone) is None {
                                Err(DecodeError::UnknownArea)
                            } else {
                                match spec_parse_time_literal(time_literal) {
                                    None => Err(DecodeError::TimeParseError),
                                    Some(dt) => match spec_resolve(dt, zone) {
                                        None => Err(DecodeError::TimeParseError),
                                        Some(time) => {
                                            if dot >= name.len() {
                                                Ok(
                                                    ForecastNameModel {
                                                        area,
                                                        time,
                                                        forecaster,
                                                        language: None,
                                                    },
                                                )
                                            } else {
                                                let language_end = find_char_from(
                                                    name,
                                                    '.',
                                                    dot + 1,
                                                );
                                                let segment = name.subrange(dot + 1, language_end);
                                                match language_identifier_of(segment) {
                                                    None => Err(DecodeError::LanguageParseError),
                                                    Some(language) => Ok(
                                                        ForecastNameModel {
                                                            area,
                                                            time,
                                                            forecaster,
                                                            language: Some(language),
                                                        },
                                                    ),
                                                }
                                            }
                                        },
                                    },
                                }
                            }
                        },
                    }
                }
            }
        }
    }
}

/// Decodes a forecast file name against the caller-supplied area table.
pub fn parse_forecast_name(file_name: &str, table: &AreaTimezoneTable) -> (r: Result<
    ForecastFileDetails,
    DecodeError,
>)
    ensures
        r matches Ok(d) ==> spec_decode(file_name@, *table) == Ok::<ForecastNameModel, DecodeError>(
            d@,
        ) && d.forecast.time.wf(),
        r matches Err(e) ==> spec_decode(file_name@, *table) == Err::<
            ForecastNameModel,
            DecodeError,
        >(e),
{
    let n = file_name.unicode_len();
    if n == 0 {
        return Err(DecodeError::MalformedName(MalformedNameKind::EmptyName));
    }
    let dot = find_char(file_name, '.', 0);
    let details = file_name.substring_char(0, dot);
    let details_len = details.unicode_len();
    if details_len == 0 {
        return Err(DecodeError::MalformedName(MalformedNameKind::MissingArea));
    }
    let u1 = find_char(details, '_', 0);
    if u1 == details_len {
        return Err(DecodeError::MalformedName(MalformedNameKind::MissingTime));
    }
    let u2 = find_char(details, '_', u1 + 1);
    if u2 == details_len {
        return Err(DecodeError::MalformedName(MalformedNameKind::MissingForecaster));
    }
    let area = details.substring_char(0, u1);
    let time_literal = details.substring_char(u1 + 1, u2);
    let u3 = find_char(details, '_', u2 + 1);
    let forecaster = details.substring_char(u2 + 1, u3);
    let zone = match table.lookup(area) {
        Some(zone) => zone,
        None => {
            return Err(DecodeError::UnknownArea);
        },
    };
    if !zone_is_known(zone.as_str()) {
        return Err(DecodeError::UnknownArea);
    }
    let dt = match parse_time_literal(time_literal) {
        Some(dt) => dt,
        None => {
            return Err(DecodeError::TimeParseError);
        },
    };
    let time = match resolve_local_time(&dt, zone.as_str()) {
        Some(time) => time,
        None => {
            return Err(DecodeError::TimeParseError);
        },
    };
    let language = if dot < n {
        let language_end = find_char(file_name, '.', dot + 1);
        let segment = file_name.substring_char(dot + 1, language_end);
        match parse_language_identifier(segment) {
            Some(language) => Some(language),
            None => {
                return Err(DecodeError::LanguageParseError);
            },
        }
    } else {
        None
    };
    Ok(
        ForecastFileDetails {
            forecast: ForecastDetails { area: area.to_owned(), time, forecaster: forecaster.to_owned() },
            language,
        },
    )
}

/// A typed request path carrying the forecast file name to decode and serve.
#[derive(Clone, Debug, PartialEq, Eq)]
pub struct ForecastsFilePath {
    pub file_name: String,
}

/// An elevation band of a forecast area, bounded in metres; either bound may
/// be open.
#[derive(Clone, Copy, Debug, PartialEq, Eq, Structural)]
pub struct ElevationRange {
    pub upper: Option<i64>,
    pub lower: Option<i64>,
}

} // verus!
