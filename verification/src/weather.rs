//! Weather integration, value side: reading the current conditions out of
//! the provider's response value.

use vstd::prelude::*;
use crate::value::{StructuredValue, obj_lookup};
use crate::dispatch::{spec_text_arg, text_arg};

verus! {

/// The first `current_condition` item of a weather response, when present.
pub open spec fn spec_current_condition(data: StructuredValue) -> Option<StructuredValue> {
    if data matches StructuredValue::Object(fs) && (obj_lookup(fs@, "current_condition"@)
        matches Some(v) && (v matches StructuredValue::Array(items) && items@.len() > 0)) {
        Some(obj_lookup(data->Object_0@, "current_condition"@)->Some_0->Array_0@[0])
    } else {
        None
    }
}

/// The condition text of one item: `weatherDesc[0].value`, or `unknown`.
pub open spec fn spec_weather_desc(item: StructuredValue) -> Seq<char> {
    if item matches StructuredValue::Object(fs) && (obj_lookup(fs@, "weatherDesc"@)
        matches Some(v) && (v matches StructuredValue::Array(items) && items@.len() > 0)) {
        spec_text_arg(
            obj_lookup(item->Object_0@, "weatherDesc"@)->Some_0->Array_0@[0],
            "value"@,
            "unknown"@,
        )
    } else {
        "unknown"@
    }
}

/// Reads the current temperature, condition and humidity out of a weather
/// response. Refused exactly when the response carries no current
/// condition; an absent field reads as `unknown`.
pub fn extract_weather(data: &StructuredValue) -> (r: Option<(String, String, String)>)
    ensures
        r is Some <==> spec_current_condition(*data) is Some,
        r matches Some(w) ==> {
            let item = spec_current_condition(*data)->Some_0;
            &&& w.0@ == spec_text_arg(item, "temp_C"@, "unknown"@)
            &&& w.1@ == spec_weather_desc(item)
            &&& w.2@ == spec_text_arg(item, "humidity"@, "unknown"@)
        },
{
    let item = match data.get_field("current_condition") {
        Some(v) => match v {
            StructuredValue::Array(items) => {
                if items.len() > 0 {
                    &items[0]
                } else {
                    return None;
                }
            },
            _ => {
                return None;
            },
        },
        None => {
            return None;
        },
    };
    let temp = text_arg(item, "temp_C", "unknown");
    let desc = match item.get_field("weatherDesc") {
        Some(v) => match v {
            StructuredValue::Array(ds) => {
                if ds.len() > 0 {
                    text_arg(&ds[0], "value", "unknown")
                } else {
                    "unknown".to_owned()
                }
            },
            _ => "unknown".to_owned(),
        },
        None => "unknown".to_owned(),
    };
    let humidity = text_arg(item, "humidity", "unknown");
    Some((temp, desc, humidity))
}

} // verus!
