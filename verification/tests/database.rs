use sbd_db_import::data_parser::{parse_data, Timestamp, WeatherStationData};
use sbd_db_import::database::{
    decimal_text, id_from_rows, multiple_statement, select_id_query, select_id_query_at,
    simple_statement, statement_for, LookupError, Statement, Table,
};

#[test]
fn table_names() {
    assert_eq!(Table::BatteryData.name(), "battery_data");
    assert_eq!(Table::MultipleData.name(), "multiple_data");
}

#[test]
fn decimal_text_of_row_ids() {
    assert_eq!(decimal_text(0), "0");
    assert_eq!(decimal_text(7), "7");
    assert_eq!(decimal_text(10), "10");
    assert_eq!(decimal_text(1000), "1000");
    assert_eq!(decimal_text(1234567890), "1234567890");
    assert_eq!(decimal_text(u32::MAX), "4294967295");
}

#[test]
fn decimal_text_agrees_with_the_standard_library() {
    for n in (0..200_000u32).chain(u32::MAX - 1000..=u32::MAX) {
        assert_eq!(decimal_text(n), n.to_string());
    }
}

#[test]
fn lookup_statement_with_written_time() {
    assert_eq!(
        select_id_query_at("battery_data", "Nahuelbuta", "2017-10-05 00:00:00"),
        "SELECT id FROM battery_data WHERE timestamp = '2017-10-05 00:00:00' and station = 'Nahuelbuta'"
    );
    assert_eq!(
        select_id_query_at("", "", ""),
        "SELECT id FROM  WHERE timestamp = '' and station = ''"
    );
}

#[test]
fn lookup_statement_writes_the_time_in_utc() {
    assert_eq!(
        select_id_query("multiple_data", "Santa_Gracia", Timestamp { seconds: 1_474_243_200 }),
        "SELECT id FROM multiple_data WHERE timestamp = '2016-09-19 00:00:00' and station = 'Santa_Gracia'"
    );
    assert_eq!(
        select_id_query("battery_data", "La_Campana", Timestamp { seconds: 631_152_000 }),
        "SELECT id FROM battery_data WHERE timestamp = '1990-01-01 00:00:00' and station = 'La_Campana'"
    );
    assert_eq!(
        select_id_query(
            Table::BatteryData.name(),
            "Pan_de_Azucar",
            Timestamp { seconds: 631_152_000 + 4_294_967_295 }
        ),
        "SELECT id FROM battery_data WHERE timestamp = '2126-02-07 06:28:15' and station = 'Pan_de_Azucar'"
    );
}

#[test]
fn lookup_statement_for_a_decoded_record() {
    let data = parse_data(vec![0, 141, 64, 50, 0, 0, 0, 0, 68, 252, 96, 0, 0, 0]).unwrap();
    match data {
        WeatherStationData::SimpleData(record) => assert_eq!(
            select_id_query(Table::BatteryData.name(), "Santa_Gracia", record.date_time),
            "SELECT id FROM battery_data WHERE timestamp = '2016-09-19 00:00:00' and station = 'Santa_Gracia'"
        ),
        WeatherStationData::MultipleData(_) => panic!("a status record was expected"),
    }
}

#[test]
fn no_row_one_row_many_rows() {
    assert_eq!(id_from_rows(vec![]), Ok(None));
    assert_eq!(id_from_rows(vec![17]), Ok(Some(17)));
    assert_eq!(id_from_rows(vec![17, 18]), Err(LookupError::NotUnique { ids: vec![17, 18] }));
    assert_eq!(id_from_rows(vec![3, 3, 3]), Err(LookupError::NotUnique { ids: vec![3, 3, 3] }));
}

#[test]
fn found_rows_are_updated_and_others_inserted() {
    assert_eq!(statement_for(Some(42)), Statement::Update { id: 42 });
    assert_eq!(statement_for(None), Statement::Insert);
}

#[test]
fn status_statements() {
    assert_eq!(
        simple_statement(Statement::Update { id: 42 }),
        "UPDATE battery_data SET timestamp = :timestamp, station = :station, battery_voltage = :battery_voltage, li_battery_voltage = :li_battery_voltage, wind_dir = :wind_dir WHERE id = '42'"
    );
    assert_eq!(
        simple_statement(Statement::Insert),
        "INSERT INTO battery_data (timestamp, station, battery_voltage, li_battery_voltage, wind_dir) VALUES (:timestamp, :station, :battery_voltage, :li_battery_voltage, :wind_dir)"
    );
}

#[test]
fn sensor_statements() {
    let update = multiple_statement(Statement::Update { id: 4_000_000_000 });
    assert!(update.starts_with("UPDATE multiple_data SET timestamp = :timestamp, station = :station, air_temperature = :air_temperature,"));
    assert!(update.ends_with(" air_pressure = :air_pressure WHERE id = '4000000000'"));
    let names: Vec<&str> = update
        .split(|c: char| c == ',' || c.is_whitespace())
        .filter(|word| word.starts_with(':'))
        .collect();
    assert_eq!(
        names,
        vec![
            ":timestamp",
            ":station",
            ":air_temperature",
            ":air_relative_humidity",
            ":solar_radiation",
            ":soil_water_content",
            ":soil_temperature",
            ":wind_speed",
            ":wind_max",
            ":wind_direction",
            ":precipitation",
            ":air_pressure"
        ]
    );
    let insert = multiple_statement(Statement::Insert);
    assert!(insert.starts_with("INSERT INTO multiple_data (timestamp, station, air_temperature, air_relative_humidity, solar_radiation, soil_water_content, soil_temperature,"));
    assert!(insert.ends_with(":wind_direction, :precipitation, :air_pressure)"));
    assert_eq!(insert.matches(':').count(), 12);
}

#[test]
fn status_record_without_a_row_is_inserted() {
    let (statement, query) = sbd_db_import::database::import_simple(vec![]).unwrap();
    assert_eq!(statement, Statement::Insert);
    assert_eq!(query, simple_statement(Statement::Insert));
    assert!(query.starts_with("INSERT INTO battery_data "));
}

#[test]
fn status_record_with_a_row_is_updated() {
    let (statement, query) = sbd_db_import::database::import_simple(vec![615]).unwrap();
    assert_eq!(statement, Statement::Update { id: 615 });
    assert!(query.starts_with("UPDATE battery_data SET "));
    assert!(query.ends_with(" WHERE id = '615'"));
}

#[test]
fn sensor_record_without_a_row_is_inserted() {
    let (statement, query) = sbd_db_import::database::import_multiple(vec![]).unwrap();
    assert_eq!(statement, Statement::Insert);
    assert_eq!(query, multiple_statement(Statement::Insert));
}

#[test]
fn sensor_record_with_a_row_is_updated() {
    let (statement, query) = sbd_db_import::database::import_multiple(vec![9]).unwrap();
    assert_eq!(statement, Statement::Update { id: 9 });
    assert!(query.starts_with("UPDATE multiple_data SET "));
    assert!(query.ends_with(" WHERE id = '9'"));
}

#[test]
fn records_with_several_rows_are_not_stored() {
    assert_eq!(
        sbd_db_import::database::import_simple(vec![1, 2]),
        Err(LookupError::NotUnique { ids: vec![1, 2] })
    );
    assert_eq!(
        sbd_db_import::database::import_multiple(vec![4, 4, 5]),
        Err(LookupError::NotUnique { ids: vec![4, 4, 5] })
    );
}
