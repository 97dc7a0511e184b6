use crosstraffic_wasm::reliability::{
    check_demand_multipliers, check_table_shape, check_weather_shape, parse_weekday, TableShapeError,
    WeatherShapeError, Weekday,
};
use crosstraffic_wasm::urban::{monthly_series, month_value, study_start_hour};

#[test]
fn weekdays_by_name_and_abbreviation() {
    assert_eq!(parse_weekday("Friday"), Weekday::Friday);
    assert_eq!(parse_weekday("SAT"), Weekday::Saturday);
    assert_eq!(parse_weekday("tue"), Weekday::Tuesday);
    assert_eq!(parse_weekday("Sun"), Weekday::Sunday);
    assert_eq!(parse_weekday("someday"), Weekday::Monday);
}

#[test]
fn demand_multiplier_table_must_be_twelve_by_seven() {
    assert_eq!(check_demand_multipliers(&vec![7; 12]), Ok(()));
    assert_eq!(
        check_demand_multipliers(&vec![7; 11]),
        Err(TableShapeError::RowCount { got: 11 })
    );
    let mut w = vec![7; 12];
    w[4] = 6;
    w[9] = 8;
    assert_eq!(
        check_demand_multipliers(&w),
        Err(TableShapeError::RowWidth { row: 5, got: 6 })
    );
}

#[test]
fn table_shape_reports_the_row_count_first() {
    assert_eq!(check_table_shape(&vec![1, 2], 3, 2), Err(TableShapeError::RowCount { got: 2 }));
    assert_eq!(check_table_shape(&vec![], 0, 5), Ok(()));
}

#[test]
fn weather_shape_follows_the_ten_severe_weather_types() {
    let good = vec![10usize; 12];
    assert_eq!(check_weather_shape(&good, 10, None, None), Ok(()));
    assert_eq!(check_weather_shape(&good, 10, Some(10), Some(10)), Ok(()));
    assert_eq!(
        check_weather_shape(&vec![10; 13], 10, None, None),
        Err(WeatherShapeError::Probabilities(TableShapeError::RowCount { got: 13 }))
    );
    let mut bad = good.clone();
    bad[0] = 9;
    assert_eq!(
        check_weather_shape(&bad, 9, None, None),
        Err(WeatherShapeError::Probabilities(TableShapeError::RowWidth { row: 1, got: 9 }))
    );
    assert_eq!(check_weather_shape(&good, 9, None, None), Err(WeatherShapeError::Durations { got: 9 }));
    assert_eq!(
        check_weather_shape(&good, 10, Some(3), Some(4)),
        Err(WeatherShapeError::CafOverride { got: 3 })
    );
    assert_eq!(
        check_weather_shape(&good, 10, None, Some(4)),
        Err(WeatherShapeError::SafOverride { got: 4 })
    );
}

#[test]
fn monthly_values_take_none_one_or_twelve_entries() {
    let none: Vec<f64> = vec![];
    assert_eq!(monthly_series(&none, 0.0), vec![0.0; 12]);
    assert_eq!(monthly_series(&vec![2.5], 0.0), vec![2.5; 12]);
    let twelve: Vec<f64> = (1..=12).map(|m| m as f64).collect();
    assert_eq!(monthly_series(&twelve, 0.0), twelve);
    assert_eq!(month_value(&vec![1.0, 2.0], 5, 0.0), 2.0);
    assert_eq!(month_value(&vec![1.0, 2.0], 0, 0.0), 1.0);
}

#[test]
fn study_start_hour_is_capped_at_23() {
    assert_eq!(study_start_hour(7), 7);
    assert_eq!(study_start_hour(23), 23);
    assert_eq!(study_start_hour(30), 23);
}
