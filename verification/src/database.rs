//! What the station database is asked and told.
//!
//! A record is stored under its timestamp and the station's name. The row is
//! looked up first; a row that exists is updated, a missing one inserted.
//! This module writes the statements and decides between them. Sending them
//! is the caller's part.

use vstd::prelude::*;
use vstd::string::*;
use crate::data_parser::Timestamp;

verus! {

/// The text that chrono writes for the UTC date and time `seconds` after
/// 1970-01-01 00:00:00, such as `2016-09-19 00:00:00`.
pub uninterp spec fn utc_date_time_text(seconds: i64) -> Seq<char>;

/// Calls chrono's `DateTime::from_timestamp` with no nanoseconds and writes
/// the result's `naive_utc()` through its `Display`. The contract claims
/// that the text depends on `seconds` alone. The times that a station can
/// report are far inside chrono's range, so the call does not return `None`
/// on them.
#[verifier::external_body]
fn format_date_time(seconds: i64) -> (text: String)
    requires
        (Timestamp { seconds }).wf(),
    ensures
        text@ == utc_date_time_text(seconds),
{
    match chrono::DateTime::from_timestamp(seconds, 0) {
        Some(date_time) => date_time.naive_utc().to_string(),
        None => String::new(),
    }
}

/// The character of a decimal digit.
pub open spec fn digit_char(digit: nat) -> char
    recommends
        digit < 10,
{
    if digit == 0 {
        '0'
    } else if digit == 1 {
        '1'
    } else if digit == 2 {
        '2'
    } else if digit == 3 {
        '3'
    } else if digit == 4 {
        '4'
    } else if digit == 5 {
        '5'
    } else if digit == 6 {
        '6'
    } else if digit == 7 {
        '7'
    } else if digit == 8 {
        '8'
    } else {
        '9'
    }
}

/// A number in decimal, without sign or leading zeros.
pub open spec fn decimal_of(n: nat) -> Seq<char>
    decreases n,
{
    if n < 10 {
        seq![digit_char(n)]
    } else {
        decimal_of(n / 10).push(digit_char(n % 10))
    }
}

fn digit_text(digit: u32) -> (text: &'static str)
    requires
        digit < 10,
    ensures
        text@ == seq![digit_char(digit as nat)],
{
    proof {
        reveal_strlit("0");
        reveal_strlit("1");
        reveal_strlit("2");
        reveal_strlit("3");
        reveal_strlit("4");
        reveal_strlit("5");
        reveal_strlit("6");
        reveal_strlit("7");
        reveal_strlit("8");
        reveal_strlit("9");
    }
    let text: &'static str = if digit == 0 {
        "0"
    } else if digit == 1 {
        "1"
    } else if digit == 2 {
        "2"
    } else if digit == 3 {
        "3"
    } else if digit == 4 {
        "4"
    } else if digit == 5 {
        "5"
    } else if digit == 6 {
        "6"
    } else if digit == 7 {
        "7"
    } else if digit == 8 {
        "8"
    } else {
        "9"
    };
    assert(text@ =~= seq![digit_char(digit as nat)]);
    text
}

/// Writes a row id in decimal.
pub fn decimal_text(n: u32) -> (text: String)
    ensures
        text@ == decimal_of(n as nat),
    decreases n,
{
    if n < 10 {
        String::from_str(digit_text(n))
    } else {
        let mut text = decimal_text(n / 10);
        text.append(digit_text(n % 10));
        assert(text@ =~= decimal_of(n as nat));
        text
    }
}

/// The two tables of the station database.
#[derive(Clone, Copy, Debug, PartialEq, Eq, Structural)]
pub enum Table {
    /// Status records: one row for each station and time.
    BatteryData,
    /// Sensor records: one row for each station and time.
    MultipleData,
}

impl Table {
    /// The table's name in the database.
    pub open spec fn name_text(self) -> Seq<char> {
        match self {
            Table::BatteryData => "battery_data"@,
            Table::MultipleData => "multiple_data"@,
        }
    }

    /// The table's name in the database.
    pub fn name(self) -> (name: &'static str)
        ensures
            name@ == self.name_text(),
    {
        match self {
            Table::BatteryData => "battery_data",
            Table::MultipleData => "multiple_data",
        }
    }
}

/// The statement that asks for the ids of the rows of `table` stored under
/// the time written as `when` and the station `station`.
pub open spec fn select_id_text(table: Seq<char>, station: Seq<char>, when: Seq<char>) -> Seq<
    char,
> {
    "SELECT id FROM "@ + table + " WHERE timestamp = '"@ + when + "' and station = '"@ + station
        + "'"@
}

/// Writes the lookup statement for a time that is already written out.
pub fn select_id_query_at(table_name: &str, station_name: &str, when: &str) -> (query: String)
    ensures
        query@ == select_id_text(table_name@, station_name@, when@),
{
    let mut query = String::from_str("SELECT id FROM ");
    query.append(table_name);
    query.append(" WHERE timestamp = '");
    query.append(when);
    query.append("' and station = '");
    query.append(station_name);
    query.append("'");
    query
}

/// Writes the lookup statement for the row of `table_name` that holds the
/// record of `station_name` taken at `date_time`.
pub fn select_id_query(table_name: &str, station_name: &str, date_time: Timestamp) -> (query:
    String)
    requires
        date_time.wf(),
    ensures
        query@ == select_id_text(
            table_name@,
            station_name@,
            utc_date_time_text(date_time.seconds),
        ),
{
    let when = format_date_time(date_time.seconds);
    select_id_query_at(table_name, station_name, when.as_str())
}

/// Why a lookup gave no answer.
#[derive(Debug, PartialEq, Eq)]
pub enum LookupError {
    /// More than one row is stored under one time and station; `ids` are
    /// the rows found.
    NotUnique { ids: Vec<u32> },
}

/// Turns the ids that a lookup found into the one row to update, if there
/// is one: no id means that the record is new, one id is the row that holds
/// it, and more than one is an error.
pub fn id_from_rows(ids: Vec<u32>) -> (result: Result<Option<u32>, LookupError>)
    ensures
        ids@.len() == 0 ==> result == Ok::<Option<u32>, LookupError>(None),
        ids@.len() == 1 ==> result == Ok::<Option<u32>, LookupError>(Some(ids@[0])),
        ids@.len() > 1 ==> result == Err::<Option<u32>, LookupError>(
            LookupError::NotUnique { ids },
        ),
{
    if ids.len() == 0 {
        Ok(None)
    } else if ids.len() == 1 {
        Ok(Some(ids[0]))
    } else {
        Err(LookupError::NotUnique { ids })
    }
}

/// What is done with a record once its row has been looked up.
#[derive(Clone, Copy, Debug, PartialEq, Eq, Structural)]
pub enum Statement {
    /// The record is stored already, in the row `id`: the row is rewritten.
    Update { id: u32 },
    /// The record is new: a row is added.
    Insert,
}

/// A record whose row was found is updated, any other is inserted.
pub fn statement_for(found: Option<u32>) -> (statement: Statement)
    ensures
        statement == match found {
            Some(id) => Statement::Update { id },
            None => Statement::Insert,
        },
{
    match found {
        Some(id) => Statement::Update { id },
        None => Statement::Insert,
    }
}

/// The statement that stores a status record: an update of the row `id`, or
/// an insertion. The values stand in it by name.
pub open spec fn simple_statement_text(statement: Statement) -> Seq<char> {
    match statement {
        Statement::Update { id } => "UPDATE battery_data SET timestamp = :timestamp, station = :station, battery_voltage = :battery_voltage, li_battery_voltage = :li_battery_voltage, wind_dir = :wind_dir WHERE id = '"@
            + decimal_of(id as nat) + "'"@,
        Statement::Insert => "INSERT INTO battery_data (timestamp, station, battery_voltage, li_battery_voltage, wind_dir) VALUES (:timestamp, :station, :battery_voltage, :li_battery_voltage, :wind_dir)"@,
    }
}

/// The statement that stores a sensor record: an update of the row `id`, or
/// an insertion. The values stand in it by name.
pub open spec fn multiple_statement_text(statement: Statement) -> Seq<char> {
    match statement {
        Statement::Update { id } => "UPDATE multiple_data SET timestamp = :timestamp, station = :station, air_temperature = :air_temperature, air_relative_humidity = :air_relative_humidity, solar_radiation = :solar_radiation,\n                    soil_water_content = :soil_water_content, soil_temperature = :soil_temperature, wind_speed = :wind_speed, wind_max = :wind_max, wind_direction = :wind_direction, precipitation = :precipitation,\n                    air_pressure = :air_pressure WHERE id = '"@
            + decimal_of(id as nat) + "'"@,
        Statement::Insert => "INSERT INTO multiple_data (timestamp, station, air_temperature, air_relative_humidity, solar_radiation, soil_water_content, soil_temperature,\n                    wind_speed, wind_max, wind_direction, precipitation, air_pressure) VALUES (:timestamp, :station, :air_temperature, :air_relative_humidity,\n                    :solar_radiation, :soil_water_content, :soil_temperature, :wind_speed, :wind_max, :wind_direction, :precipitation, :air_pressure)"@,
    }
}

/// Writes the statement that stores a status record.
pub fn simple_statement(statement: Statement) -> (query: String)
    ensures
        query@ == simple_statement_text(statement),
{
    match statement {
        Statement::Update { id } => {
            let mut query = String::from_str(
                "UPDATE battery_data SET timestamp = :timestamp, station = :station, battery_voltage = :battery_voltage, li_battery_voltage = :li_battery_voltage, wind_dir = :wind_dir WHERE id = '",
            );
            let id_text = decimal_text(id);
            query.append(id_text.as_str());
            query.append("'");
            query
        },
        Statement::Insert => String::from_str(
            "INSERT INTO battery_data (timestamp, station, battery_voltage, li_battery_voltage, wind_dir) VALUES (:timestamp, :station, :battery_voltage, :li_battery_voltage, :wind_dir)",
        ),
    }
}

/// Writes the statement that stores a sensor record.
pub fn multiple_statement(statement: Statement) -> (query: String)
    ensures
        query@ == multiple_statement_text(statement),
{
    match statement {
        Statement::Update { id } => {
            let mut query = String::from_str(
                "UPDATE multiple_data SET timestamp = :timestamp, station = :station, air_temperature = :air_temperature, air_relative_humidity = :air_relative_humidity, solar_radiation = :solar_radiation,\n                    soil_water_content = :soil_water_content, soil_temperature = :soil_temperature, wind_speed = :wind_speed, wind_max = :wind_max, wind_direction = :wind_direction, precipitation = :precipitation,\n                    air_pressure = :air_pressure WHERE id = '",
            );
            let id_text = decimal_text(id);
            query.append(id_text.as_str());
            query.append("'");
            query
        },
        Statement::Insert => String::from_str(
            "INSERT INTO multiple_data (timestamp, station, air_temperature, air_relative_humidity, solar_radiation, soil_water_content, soil_temperature,\n                    wind_speed, wind_max, wind_direction, precipitation, air_pressure) VALUES (:timestamp, :station, :air_temperature, :air_relative_humidity,\n                    :solar_radiation, :soil_water_content, :soil_temperature, :wind_speed, :wind_max, :wind_direction, :precipitation, :air_pressure)",
        ),
    }
}

/// What a lookup's rows mean for the record: the statement to send, or
/// nothing where the rows are more than one.
pub open spec fn statement_of_rows(ids: Seq<u32>) -> Option<Statement> {
    if ids.len() == 0 {
        Some(Statement::Insert)
    } else if ids.len() == 1 {
        Some(Statement::Update { id: ids[0] })
    } else {
        None
    }
}

/// Decides how a status record is stored, from the ids that its lookup
/// found, and writes the statement: an insertion for no id, an update of
/// the row for one id. The decision is handed back with the statement. More
/// than one id is an error, and nothing is to be sent.
pub fn import_simple(ids: Vec<u32>) -> (result: Result<(Statement, String), LookupError>)
    ensures
        match result {
            Ok((statement, query)) => {
                &&& statement_of_rows(ids@) == Some(statement)
                &&& query@ == simple_statement_text(statement)
            },
            Err(e) => statement_of_rows(ids@) is None && e == (LookupError::NotUnique { ids }),
        },
{
    match id_from_rows(ids) {
        Ok(found) => {
            let statement = statement_for(found);
            Ok((statement, simple_statement(statement)))
        },
        Err(e) => Err(e),
    }
}

/// Decides how one sensor record is stored, from the ids that its lookup
/// found, and writes the statement: an insertion for no id, an update of
/// the row for one id. The decision is handed back with the statement. More
/// than one id is an error, and nothing is to be sent.
pub fn import_multiple(ids: Vec<u32>) -> (result: Result<(Statement, String), LookupError>)
    ensures
        match result {
            Ok((statement, query)) => {
                &&& statement_of_rows(ids@) == Some(statement)
                &&& query@ == multiple_statement_text(statement)
            },
            Err(e) => statement_of_rows(ids@) is None && e == (LookupError::NotUnique { ids }),
        },
{
    match id_from_rows(ids) {
        Ok(found) => {
            let statement = statement_for(found);
            Ok((statement, multiple_statement(statement)))
        },
        Err(e) => Err(e),
    }
}

} // verus!
