//! What the program does with its arguments, and what it prints.

use crate::describe::text_names_fields;
use crate::model::{WeatherData, WeatherDataView};
use crate::text::{occurs, occurs_after};
use vstd::prelude::*;
use vstd::string::StringExecFns;

verus! {

/// What an invocation asks for.
#[derive(Debug, Clone, PartialEq)]
pub enum Invocation {
    /// Too few arguments: print this line and end well, asking nothing of
    /// the service.
    Usage(String),
    /// Ask the service for the forecast at this latitude and longitude.
    Fetch { lat: String, lon: String },
}

/// The line that tells how `program` is to be called.
pub open spec fn usage_of(program: Seq<char>) -> Seq<char> {
    "Usage: "@ + program + " LATITUDE LONGITUDE"@
}

/// Builds the line that tells how `program` is to be called.
pub fn usage(program: &str) -> (line: String)
    ensures
        line@ == usage_of(program@),
        "Usage: "@.is_prefix_of(line@),
{
    let mut line = String::from_str("Usage: ");
    line.append(program);
    line.append(" LATITUDE LONGITUDE");
    proof {
        usage_opens(program@);
    }
    line
}

/// Every usage line begins with `Usage: `.
pub proof fn usage_opens(program: Seq<char>)
    ensures
        "Usage: "@.is_prefix_of(usage_of(program)),
{
    let rest = program + " LATITUDE LONGITUDE"@;
    assert(usage_of(program) =~= "Usage: "@ + rest);
    assert(("Usage: "@ + rest).subrange(0, "Usage: "@.len() as int) =~= "Usage: "@);
}

/// Decides what an invocation asks for. `args` are the words of the command
/// line, the program's own name first. With fewer than two words after the
/// name the answer is the usage line; otherwise the first two are the
/// latitude and the longitude, taken as they are, and any further words are
/// left aside.
pub fn plan(args: &Vec<String>) -> (asked: Invocation)
    requires
        args@.len() >= 1,
    ensures
        match asked {
            Invocation::Usage(line) => args@.len() < 3 && line@ == usage_of(args@[0]@)
                && "Usage: "@.is_prefix_of(line@),
            Invocation::Fetch { lat, lon } => args@.len() >= 3 && lat@ == args@[1]@ && lon@
                == args@[2]@,
        },
{
    if args.len() < 3 {
        Invocation::Usage(usage(args[0].as_str()))
    } else {
        Invocation::Fetch { lat: args[1].clone(), lon: args[2].clone() }
    }
}

/// The line that is printed for a forecast: `Forecast => `, then the forecast as text.
pub open spec fn report_of(data: WeatherDataView) -> Seq<char> {
    "Forecast => "@ + data.described()
}

/// Builds the line that is printed for a forecast.
pub fn report(data: &WeatherData) -> (line: String)
    ensures
        line@ == report_of(data@),
        "Forecast => "@.is_prefix_of(line@),
{
    let mut line = String::from_str("Forecast => ");
    line.append(data.describe().as_str());
    proof {
        report_opens(data@);
    }
    line
}

/// Every line printed for a forecast begins with `Forecast => `.
pub proof fn report_opens(data: WeatherDataView)
    ensures
        "Forecast => "@.is_prefix_of(report_of(data)),
{
    assert(report_of(data).subrange(0, "Forecast => "@.len() as int) =~= "Forecast => "@);
}

/// The line that is printed for a forecast holds the name of each field of
/// a forecast: `cod`, `message`, `cnt`, `list` and `city`.
pub proof fn report_names_fields(data: WeatherDataView)
    ensures
        occurs("cod"@, report_of(data)),
        occurs("message"@, report_of(data)),
        occurs("cnt"@, report_of(data)),
        occurs("list"@, report_of(data)),
        occurs("city"@, report_of(data)),
{
    text_names_fields(data);
    occurs_after("cod"@, "Forecast => "@, data.described());
    occurs_after("message"@, "Forecast => "@, data.described());
    occurs_after("cnt"@, "Forecast => "@, data.described());
    occurs_after("list"@, "Forecast => "@, data.described());
    occurs_after("city"@, "Forecast => "@, data.described());
}

} // verus!
