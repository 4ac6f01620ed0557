use vstd::prelude::*;

use crate::error::Error;

verus! {

/// A stored query of the administrative erase.
#[derive(Clone, Copy, Debug, PartialEq, Eq, Structural)]
pub enum EraseQuery {
    /// Removes every row but those of devices and their settings.
    ContentKeepDevicesAndSettings,
    /// Removes every row.
    Content,
    /// Drops the table that records applied migrations.
    MigrationsTable,
    /// Drops every table.
    Database,
}

/// The queries that an erase runs, in order: with `content_only` the rows
/// go and the record of migrations is dropped, the tables stay; otherwise
/// the tables go too, unless devices are kept.
pub open spec fn erase_queries(content_only: bool, keep_devices: bool) -> Seq<EraseQuery> {
    if content_only {
        if keep_devices {
            seq![EraseQuery::ContentKeepDevicesAndSettings, EraseQuery::MigrationsTable]
        } else {
            seq![EraseQuery::Content, EraseQuery::MigrationsTable]
        }
    } else if keep_devices {
        seq![EraseQuery::ContentKeepDevicesAndSettings]
    } else {
        seq![EraseQuery::Database]
    }
}

/// The queries that an erase runs, in order.
pub fn erase_plan(content_only: bool, keep_devices: bool) -> (r: Vec<EraseQuery>)
    ensures
        r@ == erase_queries(content_only, keep_devices),
{
    let mut plan: Vec<EraseQuery> = Vec::new();
    if content_only {
        if keep_devices {
            plan.push(EraseQuery::ContentKeepDevicesAndSettings);
        } else {
            plan.push(EraseQuery::Content);
        }
        plan.push(EraseQuery::MigrationsTable);
    } else if keep_devices {
        plan.push(EraseQuery::ContentKeepDevicesAndSettings);
    } else {
        plan.push(EraseQuery::Database);
    }
    assert(plan@ =~= erase_queries(content_only, keep_devices));
    plan
}

/// Whether `tz` is among the supported time zone names.
pub open spec fn supports_timezone(supported: Seq<String>, tz: Seq<char>) -> bool {
    exists|i: int| 0 <= i < supported.len() && (#[trigger] supported[i])@ == tz
}

/// Accepts a time zone that the database supports; any other fails with
/// `InvalidTimeZone`.
pub fn check_timezone(tz: &str, supported: &Vec<String>) -> (r: Result<(), Error>)
    ensures
        supports_timezone(supported@, tz@) ==> r == Ok::<(), Error>(()),
        !supports_timezone(supported@, tz@) ==> (r matches Err(Error::InvalidTimeZone(name))
            && name@ == tz@),
{
    let wanted = tz.to_owned();
    let mut i: usize = 0;
    while i < supported.len()
        invariant
            i <= supported@.len(),
            wanted@ == tz@,
            forall|k: int| 0 <= k < i ==> (#[trigger] supported@[k])@ != tz@,
        decreases supported@.len() - i,
    {
        if supported[i] == wanted {
            assert(supported@[i as int]@ == tz@);
            return Ok(());
        }
        i = i + 1;
    }
    Err(Error::InvalidTimeZone(wanted))
}

/// The statement that sets a connection's time zone to `tz`.
pub fn set_time_zone_statement(tz: &str) -> (r: String)
    ensures
        r@ == "SET TIME ZONE \""@ + tz@ + "\""@,
{
    let mut s = String::from_str("SET TIME ZONE \"");
    s.append(tz);
    s.append("\"");
    s
}

/// An air pressure as the signed integer that its column holds; one above
/// `i16::MAX` fails with `IntConversion`.
pub fn air_pressure_param(air_p: Option<u16>) -> (r: Result<Option<i16>, Error>)
    ensures
        air_p is None ==> r == Ok::<Option<i16>, Error>(None),
        air_p matches Some(p) ==> ((p <= i16::MAX ==> r == Ok::<Option<i16>, Error>(
            Some(p as i16),
        )) && (p > i16::MAX ==> r == Err::<Option<i16>, Error>(Error::IntConversion))),
{
    match air_p {
        None => Ok(None),
        Some(p) => {
            if p <= i16::MAX as u16 {
                Ok(Some(p as i16))
            } else {
                Err(Error::IntConversion)
            }
        },
    }
}

} // verus!
