//! Reading the modem's answers.
//!
//! An answer is the sequence of lines that the modem sent after a command,
//! each without its line ending. With command echo enabled, the first line
//! repeats the command, so what the modem has to say begins on the second.

use vstd::prelude::*;
use vstd::string::*;
use crate::gsm::types::{texts, BatteryFields, BatteryFieldsView, Fault, GsmError};
use crate::text::{contains, contains_text, same_text, split, split_text};

verus! {

/// Whether the second line of the answer is `line`.
pub open spec fn second_line_is(lines: Seq<Seq<char>>, line: Seq<char>) -> bool {
    lines.len() >= 2 && lines[1] == line
}

/// Whether the modem acknowledged a command: the second line is `OK`.
pub open spec fn acknowledged(lines: Seq<Seq<char>>) -> bool {
    second_line_is(lines, "OK"@)
}

/// Whether the modem asks for the body of a message: the second line is
/// the prompt, a `>` and a space.
pub open spec fn prompted(lines: Seq<Seq<char>>) -> bool {
    second_line_is(lines, "> "@)
}

/// Whether the answer to `AT+CREG?` reports a registration, at home or
/// roaming.
pub open spec fn registered(lines: Seq<Seq<char>>) -> bool {
    second_line_is(lines, "+CREG: 0,1"@) || second_line_is(lines, "+CREG: 0,5"@)
}

/// The last line of the answer in which `marker` occurs.
pub open spec fn last_with(lines: Seq<Seq<char>>, marker: Seq<char>) -> Option<Seq<char>>
    decreases lines.len(),
{
    if lines.len() == 0 {
        None
    } else if contains(lines.last(), marker) {
        Some(lines.last())
    } else {
        last_with(lines.drop_last(), marker)
    }
}

/// The two raw readings in the answers to `AT+CBC` and `AT+CADC?`.
///
/// Both answers need at least two lines. The modem's own cell is read from
/// the last line that holds `+CBC:`, where it is the third field between
/// commas; the main pack from the last line that holds `+CADC:`, where it
/// is the second.
pub open spec fn battery_of(cell: Seq<Seq<char>>, adc: Seq<Seq<char>>) -> Result<
    BatteryFieldsView,
    GsmError,
> {
    if cell.len() < 2 || adc.len() < 2 {
        Err(GsmError::Rejected(Fault::BatterySilent))
    } else {
        match (last_with(cell, "+CBC:"@), last_with(adc, "+CADC:"@)) {
            (None, _) => Err(GsmError::Rejected(Fault::ModemCell)),
            (Some(_), None) => Err(GsmError::Rejected(Fault::Adc)),
            (Some(cell_line), Some(adc_line)) => {
                let cell_fields = split(cell_line, ',');
                let adc_fields = split(adc_line, ',');
                if cell_fields.len() < 3 || adc_fields.len() < 2 {
                    Err(GsmError::Malformed)
                } else {
                    Ok(
                        BatteryFieldsView {
                            modem_millivolts: cell_fields[2],
                            main_millivolts: adc_fields[1],
                        },
                    )
                }
            },
        }
    }
}

/// The longitude and the latitude in the answer to `AT+CIPGSMLOC=1,1`, in
/// this order: the second and third field between commas of the second
/// line, provided that the third line is `OK`.
pub open spec fn location_of(lines: Seq<Seq<char>>) -> Option<(Seq<char>, Seq<char>)> {
    if lines.len() >= 3 && lines[2] == "OK"@ && split(lines[1], ',').len() >= 3 {
        Some((split(lines[1], ',')[1], split(lines[1], ',')[2]))
    } else {
        None
    }
}

/// Whether the second line of the answer is `line`.
pub fn has_second_line(lines: &Vec<String>, line: &str) -> (yes: bool)
    ensures
        yes == second_line_is(texts(lines@), line@),
{
    lines.len() >= 2 && same_text(lines[1].as_str(), line)
}

/// Whether the modem acknowledged a command.
pub fn is_acknowledged(lines: &Vec<String>) -> (yes: bool)
    ensures
        yes == acknowledged(texts(lines@)),
{
    has_second_line(lines, "OK")
}

/// Whether the modem asks for the body of a message.
pub fn is_prompted(lines: &Vec<String>) -> (yes: bool)
    ensures
        yes == prompted(texts(lines@)),
{
    has_second_line(lines, "> ")
}

/// Whether the answer to `AT+CREG?` reports a registration: its second
/// line is exactly `+CREG: 0,1` or `+CREG: 0,5`.
pub fn is_registered(lines: &Vec<String>) -> (yes: bool)
    ensures
        yes == registered(texts(lines@)),
{
    has_second_line(lines, "+CREG: 0,1") || has_second_line(lines, "+CREG: 0,5")
}

/// The index of the last line of the answer in which `marker` occurs.
pub fn find_last_with(lines: &Vec<String>, marker: &str) -> (found: Option<usize>)
    ensures
        match found {
            Some(at) => at < lines@.len() && last_with(texts(lines@), marker@) == Some(lines@[at as int]@),
            None => last_with(texts(lines@), marker@) is None,
        },
{
    let mut end: usize = lines.len();
    proof {
        assert(texts(lines@).subrange(0, end as int) =~= texts(lines@));
    }
    while end > 0
        invariant
            end <= lines@.len(),
            last_with(texts(lines@), marker@) == last_with(
                texts(lines@).subrange(0, end as int),
                marker@,
            ),
        decreases end,
    {
        let ghost head = texts(lines@).subrange(0, end as int);
        if contains_text(lines[end - 1].as_str(), marker) {
            assert(head.last() == lines@[end - 1]@);
            return Some(end - 1);
        }
        proof {
            assert(head.last() == lines@[end - 1]@);
            assert(head.drop_last() =~= texts(lines@).subrange(0, end - 1));
        }
        end = end - 1;
    }
    None
}

/// Reads the two raw battery readings from the answers to `AT+CBC` and
/// `AT+CADC?`.
pub fn battery_fields(cell: &Vec<String>, adc: &Vec<String>) -> (read: Result<
    BatteryFields,
    GsmError,
>)
    ensures
        match read {
            Ok(fields) => battery_of(texts(cell@), texts(adc@)) == Ok::<BatteryFieldsView, GsmError>(
                fields@,
            ),
            Err(e) => battery_of(texts(cell@), texts(adc@)) == Err::<BatteryFieldsView, GsmError>(
                e,
            ),
        },
{
    if cell.len() < 2 || adc.len() < 2 {
        return Err(GsmError::Rejected(Fault::BatterySilent));
    }
    let cell_at: usize = match find_last_with(cell, "+CBC:") {
        Some(at) => at,
        None => {
            return Err(GsmError::Rejected(Fault::ModemCell));
        },
    };
    let adc_at: usize = match find_last_with(adc, "+CADC:") {
        Some(at) => at,
        None => {
            return Err(GsmError::Rejected(Fault::Adc));
        },
    };
    let cell_fields: Vec<String> = split_text(cell[cell_at].as_str(), ',');
    let adc_fields: Vec<String> = split_text(adc[adc_at].as_str(), ',');
    if cell_fields.len() < 3 || adc_fields.len() < 2 {
        return Err(GsmError::Malformed);
    }
    Ok(
        BatteryFields {
            modem_millivolts: cell_fields[2].clone(),
            main_millivolts: adc_fields[1].clone(),
        },
    )
}

/// Reads the longitude and the latitude, in this order, from the answer to
/// `AT+CIPGSMLOC=1,1`.
pub fn location_fields(lines: &Vec<String>) -> (read: Option<(String, String)>)
    ensures
        match read {
            Some(pair) => location_of(texts(lines@)) == Some((pair.0@, pair.1@)),
            None => location_of(texts(lines@)) is None,
        },
{
    if lines.len() < 3 || !same_text(lines[2].as_str(), "OK") {
        return None;
    }
    let fields: Vec<String> = split_text(lines[1].as_str(), ',');
    if fields.len() < 3 {
        return None;
    }
    Some((fields[1].clone(), fields[2].clone()))
}

} // verus!
