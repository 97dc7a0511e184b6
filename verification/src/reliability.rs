//! Chapter 11 freeway reliability inputs: the seed weekday and the shape
//! checks on the weather table and the demand multiplier table, which would
//! otherwise deserialize into defaults and silently flatten the year.
use vstd::prelude::*;
use crate::text::{lowercase, str_eq, lowered, text_code};
use transportations_library::hcm::freeway_reliability::exhibits::SEVERE_WEATHER_TYPES;

verus! {

/// Day of the week.
#[derive(Clone, Copy, Debug, PartialEq, Eq, Structural)]
pub enum Weekday {
    Monday,
    Tuesday,
    Wednesday,
    Thursday,
    Friday,
    Saturday,
    Sunday,
}

/// Why a table of rows has the wrong shape.
#[derive(Clone, Copy, Debug, PartialEq, Eq, Structural)]
pub enum TableShapeError {
    /// The table has `got` rows instead of the required number.
    RowCount { got: usize },
    /// Row `row` (counted from 1) has `got` entries instead of the required
    /// number; every row before it is the right width.
    RowWidth { row: usize, got: usize },
}

/// Why a set of weather inputs has the wrong shape.
#[derive(Clone, Copy, Debug, PartialEq, Eq, Structural)]
pub enum WeatherShapeError {
    /// The month-by-weather-type probability table is misshapen.
    Probabilities(TableShapeError),
    /// The event durations list has `got` entries.
    Durations { got: usize },
    /// The capacity adjustment override list has `got` entries.
    CafOverride { got: usize },
    /// The speed adjustment override list has `got` entries.
    SafOverride { got: usize },
}

/// Months in a year, the row count of every monthly table.
pub const MONTHS: usize = 12;

/// Days in a week, the column count of the demand multiplier table.
pub const WEEKDAYS: usize = 7;

/// The weekday a lowercased name or three-letter abbreviation selects; an
/// unknown name is Monday.
pub open spec fn weekday_named(s: Seq<char>) -> Weekday {
    if s == "tuesday"@ || s == "tue"@ {
        Weekday::Tuesday
    } else if s == "wednesday"@ || s == "wed"@ {
        Weekday::Wednesday
    } else if s == "thursday"@ || s == "thu"@ {
        Weekday::Thursday
    } else if s == "friday"@ || s == "fri"@ {
        Weekday::Friday
    } else if s == "saturday"@ || s == "sat"@ {
        Weekday::Saturday
    } else if s == "sunday"@ || s == "sun"@ {
        Weekday::Sunday
    } else {
        Weekday::Monday
    }
}

/// Whether a table with the given row widths has `rows` rows of `width`
/// entries each.
pub open spec fn table_fits(widths: Seq<usize>, rows: usize, width: usize) -> bool {
    widths.len() == rows && forall|i: int| 0 <= i < widths.len() ==> widths[i] == width
}

/// The verdict on a table's shape: the row count is checked first, then
/// the rows in order, and the first row of the wrong width is reported.
pub open spec fn table_verdict(widths: Seq<usize>, rows: usize, width: usize, r: Result<
    (),
    TableShapeError,
>) -> bool {
    if widths.len() != rows {
        r == Err::<(), TableShapeError>(TableShapeError::RowCount { got: widths.len() as usize })
    } else if table_fits(widths, rows, width) {
        r is Ok
    } else {
        r matches Err(TableShapeError::RowWidth { row, got }) && 1 <= row <= widths.len()
            && widths[row - 1] != width && got == widths[row - 1] && forall|j: int|
            0 <= j < row - 1 ==> widths[j] == width
    }
}

/// Calls the length of the library's `SEVERE_WEATHER_TYPES` table, the ten
/// weather types (medium rain through minimal visibility) every weather
/// input row is indexed by.
#[verifier::external_body]
fn severe_weather_type_count() -> (n: usize)
    ensures
        n == 10,
{
    SEVERE_WEATHER_TYPES.len()
}

/// Weekday from an already lowercased name.
pub fn weekday_from_lowercase(s: &str) -> (r: Weekday)
    ensures
        r == weekday_named(s@),
{
    if str_eq(s, "tuesday") || str_eq(s, "tue") {
        Weekday::Tuesday
    } else if str_eq(s, "wednesday") || str_eq(s, "wed") {
        Weekday::Wednesday
    } else if str_eq(s, "thursday") || str_eq(s, "thu") {
        Weekday::Thursday
    } else if str_eq(s, "friday") || str_eq(s, "fri") {
        Weekday::Friday
    } else if str_eq(s, "saturday") || str_eq(s, "sat") {
        Weekday::Saturday
    } else if str_eq(s, "sunday") || str_eq(s, "sun") {
        Weekday::Sunday
    } else {
        Weekday::Monday
    }
}

/// Weekday from a name in any letter case.
pub fn parse_weekday(s: &str) -> (r: Weekday)
    ensures
        r == weekday_named(lowered(s@)),
{
    let low = lowercase(s);
    weekday_from_lowercase(low.as_str())
}

/// Check that a table has `rows` rows of `width` entries, given the width
/// of each of its rows.
pub fn check_table_shape(widths: &Vec<usize>, rows: usize, width: usize) -> (r: Result<
    (),
    TableShapeError,
>)
    ensures
        table_verdict(widths@, rows, width, r),
        r is Ok <==> table_fits(widths@, rows, width),
{
    if widths.len() != rows {
        return Err(TableShapeError::RowCount { got: widths.len() });
    }
    let mut i: usize = 0;
    while i < widths.len()
        invariant
            widths@.len() == rows,
            i <= widths@.len(),
            forall|j: int| 0 <= j < i ==> widths@[j] == width,
        decreases widths@.len() - i,
    {
        if widths[i] != width {
            return Err(TableShapeError::RowWidth { row: i + 1, got: widths[i] });
        }
        i = i + 1;
    }
    Ok(())
}

/// Check a demand multiplier table: 12 rows (January to December) of 7
/// entries (Monday to Sunday).
pub fn check_demand_multipliers(widths: &Vec<usize>) -> (r: Result<(), TableShapeError>)
    ensures
        table_verdict(widths@, MONTHS, WEEKDAYS, r),
        r is Ok <==> table_fits(widths@, MONTHS, WEEKDAYS),
{
    check_table_shape(widths, MONTHS, WEEKDAYS)
}

/// Check the shape of a set of weather inputs, in this order: the
/// probability table (12 month rows, one column per severe weather type),
/// the durations list (one per type), then the optional capacity and speed
/// adjustment overrides (one per type where given). The first failure is
/// reported.
pub fn check_weather_shape(
    probability_widths: &Vec<usize>,
    durations: usize,
    caf_override: Option<usize>,
    saf_override: Option<usize>,
) -> (r: Result<(), WeatherShapeError>)
    ensures
        !table_fits(probability_widths@, MONTHS, 10) ==> (r matches Err(
            WeatherShapeError::Probabilities(e),
        ) && table_verdict(probability_widths@, MONTHS, 10, Err(e))),
        table_fits(probability_widths@, MONTHS, 10) && durations != 10 ==> (r matches Err(
            WeatherShapeError::Durations { got },
        ) && got == durations),
        table_fits(probability_widths@, MONTHS, 10) && durations == 10 ==> r == (match (
            caf_override,
            saf_override,
        ) {
            (Some(c), _) if c != 10 => Err(WeatherShapeError::CafOverride { got: c }),
            (_, Some(s)) if s != 10 => Err(WeatherShapeError::SafOverride { got: s }),
            _ => Ok(()),
        }),
{
    let n_types = severe_weather_type_count();
    match check_table_shape(probability_widths, MONTHS, n_types) {
        Err(e) => {
            return Err(WeatherShapeError::Probabilities(e));
        },
        Ok(()) => {},
    }
    if durations != n_types {
        return Err(WeatherShapeError::Durations { got: durations });
    }
    if let Some(c) = caf_override {
        if c != n_types {
            return Err(WeatherShapeError::CafOverride { got: c });
        }
    }
    if let Some(s) = saf_override {
        if s != n_types {
            return Err(WeatherShapeError::SafOverride { got: s });
        }
    }
    Ok(())
}

/// Each weekday's full lowercase name and three-letter abbreviation reads
/// as that weekday, and every other text as Monday.
pub proof fn lemma_weekday_reads(s: Seq<char>)
    ensures
        weekday_named(s) == Weekday::Tuesday <==> (s == "tuesday"@ || s == "tue"@),
        weekday_named(s) == Weekday::Wednesday <==> (s == "wednesday"@ || s == "wed"@),
        weekday_named(s) == Weekday::Thursday <==> (s == "thursday"@ || s == "thu"@),
        weekday_named(s) == Weekday::Friday <==> (s == "friday"@ || s == "fri"@),
        weekday_named(s) == Weekday::Saturday <==> (s == "saturday"@ || s == "sat"@),
        weekday_named(s) == Weekday::Sunday <==> (s == "sunday"@ || s == "sun"@),
        weekday_named(s) == Weekday::Monday <==> !(
            s == "tuesday"@ || s == "tue"@ || s == "wednesday"@ || s == "wed"@ ||
            s == "thursday"@ || s == "thu"@ || s == "friday"@ || s == "fri"@ ||
            s == "saturday"@ || s == "sat"@ || s == "sunday"@ || s == "sun"@
        ),
{
    reveal_strlit("tuesday");
    reveal_strlit("tue");
    reveal_strlit("wednesday");
    reveal_strlit("wed");
    reveal_strlit("thursday");
    reveal_strlit("thu");
    reveal_strlit("friday");
    reveal_strlit("fri");
    reveal_strlit("saturday");
    reveal_strlit("sat");
    reveal_strlit("sunday");
    reveal_strlit("sun");
    assert(text_code("tuesday"@) == 34448135042791029);
    assert(text_code("tue"@) == 6714997);
    assert(text_code("wednesday"@) == 2257592978164234413688);
    assert(text_code("wed"@) == 6645368);
    assert(text_code("thursday"@) == 8818722571172604277);
    assert(text_code("thu"@) == 7760245);
    assert(text_code("friday"@) == 134563026858855);
    assert(text_code("fri"@) == 6976359);
    assert(text_code("saturday"@) == 8818722566927901300);
    assert(text_code("sat"@) == 7692916);
    assert(text_code("sunday"@) == 134563027187316);
    assert(text_code("sun"@) == 7304820);
}



/// What a verdict on a table's shape says: it is `Ok` exactly when the table
/// has `rows` rows, each `width` entries wide; a wrong row count is
/// reported with the count; otherwise the reported row is one of the
/// table's rows, counted from 1, whose width is the one reported and not
/// `width`, and every row above it is right.
pub proof fn lemma_table_verdict_reports_the_first_fault(
    widths: Seq<usize>,
    rows: usize,
    width: usize,
    r: Result<(), TableShapeError>,
)
    requires
        widths.len() <= usize::MAX,
        table_verdict(widths, rows, width, r),
    ensures
        r is Ok <==> (widths.len() == rows && forall|i: int|
            0 <= i < widths.len() ==> widths[i] == width),
        widths.len() != rows ==> (r matches Err(TableShapeError::RowCount { got }) && got
            == widths.len()),
        r matches Err(TableShapeError::RowWidth { row, got }) ==> widths.len() == rows && 1 <= row
            <= rows && got == widths[row - 1] && got != width && forall|j: int|
            0 <= j < row - 1 ==> widths[j] == width,
{
}

} // verus!
