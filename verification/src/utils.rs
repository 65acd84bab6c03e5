//! Small rules shared by the commands: cron frequencies, names cut to a column's width,
//! timestamps, the host's platform, and where the service's files live.

use crate::text::{
    chars_of, count_char, count_of, first_index_of, is_prefix, lemma_first_index_of, same_text,
    starts_with,
};
use std::str::FromStr;
use vstd::prelude::*;
use vstd::utf8::{decode_utf8, encode_utf8, is_char_boundary};

verus! {

/// `cron::Schedule`, which the library only asks for and never reads.
#[verifier::external_type_specification]
#[verifier::external_body]
pub struct ExSchedule(cron::Schedule);

/// `cron::error::Error`, carried through unread.
#[verifier::external_type_specification]
#[verifier::external_body]
pub struct ExScheduleError(cron::error::Error);

/// Whether the `cron` crate reads `expression` as a schedule.
pub uninterp spec fn cron_accepts(expression: Seq<char>) -> bool;

/// The upper-case form of a character as std gives it, which may be several characters long.
pub uninterp spec fn uppercase_of(c: char) -> Seq<char>;

/// `Schedule::from_str` of the `cron` crate: the schedule that `expression` denotes, or the
/// crate's error where it denotes none.
#[verifier::external_body]
fn schedule_from_str(expression: &str) -> (r: Result<cron::Schedule, cron::error::Error>)
    ensures
        r is Ok <==> cron_accepts(expression@),
{
    cron::Schedule::from_str(expression)
}

/// `char::to_uppercase`, collected into a string.
#[verifier::external_body]
fn to_uppercase(c: char) -> (r: String)
    ensures
        r@ == uppercase_of(c),
{
    c.to_uppercase().collect()
}

/// `chrono::NaiveDateTime`, a date and time of day without a time zone.
#[verifier::external_type_specification]
#[verifier::external_body]
pub struct ExNaiveDateTime(chrono::NaiveDateTime);

/// `chrono::ParseError`, carried through unread.
#[verifier::external_type_specification]
#[verifier::external_body]
pub struct ExParseError(chrono::ParseError);

/// The date and time that `chrono` reads in `text`: `None` where it reports an error.
pub uninterp spec fn datetime_of(text: Seq<char>) -> Option<chrono::NaiveDateTime>;

/// A date and time as `chrono` writes it in the form `%Y-%m-%d %H:%M:%S UTC`.
pub uninterp spec fn date_text(date: chrono::NaiveDateTime) -> Seq<char>;

/// `NaiveDateTime::from_str` of `chrono`: the date and time that the crate reads in `text`,
/// as it does in `2021-03-04T05:06:07`, or the crate's error where it reads none.
#[verifier::external_body]
fn datetime_from_str(text: &str) -> (r: Result<chrono::NaiveDateTime, chrono::ParseError>)
    ensures
        match r {
            Ok(date) => datetime_of(text@) == Some(date),
            Err(_) => datetime_of(text@) is None,
        },
{
    chrono::NaiveDateTime::from_str(text)
}

/// `NaiveDateTime::format` of `chrono` with `%Y-%m-%d %H:%M:%S UTC`, written out as a string.
#[verifier::external_body]
pub(crate) fn format_date(date: chrono::NaiveDateTime) -> (r: String)
    ensures
        r@ == date_text(date),
{
    date.format("%Y-%m-%d %H:%M:%S UTC").to_string()
}

/// The variable that overrides the install directory.
pub const INSTALL_DIR_VARIABLE: &'static str = "STEWARDX_DIR";

/// The variable that overrides the directory of the control channel.
pub const SOCKET_DIR_VARIABLE: &'static str = "STEWARDX_SOCKET_DIR";

/// Said of a frequency that `cron` reads no schedule in.
pub const INVALID_CRON: &'static str = "Please enter a valid cron string.";

/// Said of a frequency that does not have six fields.
pub const INVALID_CRON_FIELDS: &'static str =
    "Please enter a valid cron string. Hint: StewardX's cron frequency needs to take 6 crontime inputs, like * * * * * *";

/// Why a frequency was turned down.
#[derive(Clone, Copy, Debug, PartialEq, Eq, Structural)]
pub enum FrequencyError {
    /// The expression does not have six fields separated by single blanks.
    FieldCount,
    /// The expression has six fields, and `cron` reads no schedule in it.
    Schedule,
}

impl FrequencyError {
    /// What the operator is told about the frequency.
    pub fn message(self) -> (r: String)
        ensures
            r@ == match self {
                FrequencyError::FieldCount => INVALID_CRON_FIELDS@,
                FrequencyError::Schedule => INVALID_CRON@,
            },
    {
        match self {
            FrequencyError::FieldCount => INVALID_CRON_FIELDS.to_owned(),
            FrequencyError::Schedule => INVALID_CRON.to_owned(),
        }
    }
}

/// What stands between the first `(` of `s` and its last character: the cron expression of
/// `Every(...)`. Empty where `s` has no `(` or nothing behind it.
pub open spec fn without_prefix(s: Seq<char>) -> Seq<char> {
    let start = first_index_of(s, '(') + 1;
    if start >= s.len() {
        Seq::empty()
    } else {
        s.subrange(start, s.len() - 1)
    }
}

/// The cron expression that a frequency holds: itself, or what `Every(...)` wraps.
pub open spec fn cron_expression(frequency: Seq<char>) -> Seq<char> {
    if is_prefix("Every("@, frequency) {
        without_prefix(frequency)
    } else {
        frequency
    }
}

/// The number of fields that single blanks divide `expression` into.
pub open spec fn field_count(expression: Seq<char>) -> nat {
    count_char(expression, ' ') + 1
}

/// The frequency as the service wants it.
pub open spec fn every(expression: Seq<char>) -> Seq<char> {
    "Every("@ + expression + ")"@
}

/// `s` with `upper` in place of its first character; the empty text stays empty.
pub open spec fn capitalized_with(s: Seq<char>, upper: Seq<char>) -> Seq<char> {
    if s.len() == 0 {
        s
    } else {
        upper + s.subrange(1, s.len() as int)
    }
}

/// `s` with its first character in upper case.
pub open spec fn capitalized(s: Seq<char>) -> Seq<char> {
    capitalized_with(s, uppercase_of(s[0]))
}

/// A text cut to what fits in front of an ellipsis in a column of `to` bytes: texts of
/// `to - 1` bytes or more keep their first `to - 1` bytes and end in `…`, shorter ones stay.
pub open spec fn truncated(s: Seq<char>, to: nat) -> Seq<char> {
    if encode_utf8(s).len() >= to - 1 {
        decode_utf8(encode_utf8(s).subrange(0, to - 1)) + seq!['\u{2026}']
    } else {
        s
    }
}

/// Whether a text can be cut for a column of `to` bytes: the cut, where there is one, must not
/// fall inside a character.
pub open spec fn can_truncate(s: Seq<char>, to: nat) -> bool {
    to >= 1 && (encode_utf8(s).len() >= to - 1 ==> is_char_boundary(encode_utf8(s), to - 1))
}

/// The name that released binaries use for a CPU architecture: the three known ones are
/// renamed, any other stands for itself.
pub open spec fn nodejs_arch(arch: Seq<char>) -> Seq<char> {
    if arch == "x86_64"@ {
        "x64"@
    } else if arch == "x86"@ {
        "x32"@
    } else if arch == "aarch64"@ {
        "arm64"@
    } else {
        arch
    }
}

/// `name` inside the directory `dir`: the two are joined by one `/`, which a directory that
/// ends in `/` already brings; the empty directory adds nothing.
pub open spec fn joined(dir: Seq<char>, name: Seq<char>) -> Seq<char> {
    if dir.len() == 0 {
        name
    } else if dir.last() == '/' {
        dir + name
    } else {
        dir + "/"@ + name
    }
}

/// The install directory: the override where one is set, else `.stewardx` under the home
/// directory.
pub open spec fn binary_dir(install_dir: Option<Seq<char>>, home: Seq<char>) -> Seq<char> {
    match install_dir {
        Some(dir) => dir,
        None => joined(home, ".stewardx"@),
    }
}

/// The installed binary: `stewardx` inside the install directory, whatever the asset was called.
pub open spec fn binary_path(directory: Seq<char>) -> Seq<char> {
    joined(directory, "stewardx"@)
}

/// The control channel: `stewardx.sock` in the override directory where one is set, else in
/// the temporary directory.
pub open spec fn socket_path(socket_dir: Option<Seq<char>>, temp_dir: Seq<char>) -> Seq<char> {
    joined(
        match socket_dir {
            Some(dir) => dir,
            None => temp_dir,
        },
        "stewardx.sock"@,
    )
}

/// The date and time of a report as the table shows it; `None` where `chrono` cannot read it.
pub open spec fn shown_date(text: Seq<char>) -> Option<Seq<char>> {
    match datetime_of(text) {
        Some(date) => Some(date_text(date)),
        None => None,
    }
}

/// Maps the architecture that the compiler reports to the name used in released binaries.
pub fn get_nodejs_compatible_arch(arch: &str) -> (r: String)
    ensures
        r@ == nodejs_arch(arch@),
{
    if same_text(arch, "x86_64") {
        "x64".to_owned()
    } else if same_text(arch, "x86") {
        "x32".to_owned()
    } else if same_text(arch, "aarch64") {
        "arm64".to_owned()
    } else {
        arch.to_owned()
    }
}

/// Joins a directory and a name into a path.
pub fn join_path(dir: &str, name: &str) -> (r: String)
    ensures
        r@ == joined(dir@, name@),
{
    let len: usize = dir.unicode_len();
    if len == 0 {
        return name.to_owned();
    }
    let mut r = dir.to_owned();
    if dir.get_char(len - 1) != '/' {
        r.append("/");
    }
    r.append(name);
    r
}

/// Resolves the install directory from its override and the home directory.
pub fn get_binary_dir(install_dir: Option<&str>, home: &str) -> (r: String)
    ensures
        r@ == binary_dir(
            match install_dir {
                Some(dir) => Some(dir@),
                None => None,
            },
            home@,
        ),
{
    match install_dir {
        Some(dir) => dir.to_owned(),
        None => join_path(home, ".stewardx"),
    }
}

/// The path of the installed binary inside the install directory.
pub fn get_binary_path(directory: &str) -> (r: String)
    ensures
        r@ == binary_path(directory@),
{
    join_path(directory, "stewardx")
}

/// Resolves the path of the control channel from its override and the temporary directory.
pub fn get_socket_path(socket_dir: Option<&str>, temp_dir: &str) -> (r: String)
    ensures
        r@ == socket_path(
            match socket_dir {
                Some(dir) => Some(dir@),
                None => None,
            },
            temp_dir@,
        ),
{
    match socket_dir {
        Some(dir) => join_path(dir, "stewardx.sock"),
        None => join_path(temp_dir, "stewardx.sock"),
    }
}

/// Reads the creation time of a report and writes it as the table shows it.
pub fn show_date(text: &str) -> (r: Option<String>)
    ensures
        match r {
            Some(s) => shown_date(text@) == Some(s@),
            None => shown_date(text@) is None,
        },
{
    match datetime_from_str(text) {
        Ok(date) => Some(format_date(date)),
        Err(_) => None,
    }
}

/// Strips `Every(` and the closing bracket from a frequency.
pub fn remove_cron_freq_prefix(frequency: &str) -> (r: &str)
    ensures
        r@ == without_prefix(frequency@),
{
    let chars = chars_of(frequency);
    let len: usize = chars.len();
    let mut i: usize = 0;
    while i < len && chars[i] != '('
        invariant
            chars@ == frequency@,
            len == chars.len(),
            i <= len,
            forall|j: int| 0 <= j < i ==> chars@[j] != '(',
        decreases len - i,
    {
        i += 1;
    }
    proof {
        lemma_first_index_of(frequency@, '(');
        let f = first_index_of(frequency@, '(');
        if f < i {
            assert(frequency@[f] == '(');
        }
        if i < f {
            assert(chars@[i as int] == '(');
        }
        assert(f == i);
    }
    if i >= len || i + 1 >= len {
        frequency.substring_char(0, 0)
    } else {
        frequency.substring_char(i + 1, len - 1)
    }
}

/// Wraps a cron expression as the service wants it.
pub fn frequency_of(expression: &str) -> (r: String)
    ensures
        r@ == every(expression@),
{
    let mut r = "Every(".to_owned();
    r.append(expression);
    r.append(")");
    r
}

/// Checks a frequency given on the command line and puts it in the form `Every(...)`.
///
/// The frequency may come bare or already wrapped. Its expression must have six fields,
/// and `cron` must read a schedule in it.
pub fn parse_cron_frequency(frequency: &str) -> (r: Result<String, FrequencyError>)
    ensures
        match r {
            Ok(s) => {
                &&& field_count(cron_expression(frequency@)) == 6
                &&& cron_accepts(cron_expression(frequency@))
                &&& s@ == every(cron_expression(frequency@))
            },
            Err(FrequencyError::FieldCount) => field_count(cron_expression(frequency@)) != 6,
            Err(FrequencyError::Schedule) => {
                &&& field_count(cron_expression(frequency@)) == 6
                &&& !cron_accepts(cron_expression(frequency@))
            },
        },
{
    let expression = if starts_with(frequency, "Every(") {
        remove_cron_freq_prefix(frequency)
    } else {
        frequency
    };
    if count_of(expression, ' ') != 5 {
        return Err(FrequencyError::FieldCount);
    }
    match schedule_from_str(expression) {
        Ok(_) => Ok(frequency_of(expression)),
        Err(_) => Err(FrequencyError::Schedule),
    }
}

/// Cuts a text to a column of `to` bytes, marking the cut with an ellipsis.
pub fn truncate_string_elliptic(string: String, to: usize) -> (r: String)
    requires
        can_truncate(string@, to as nat),
    ensures
        r@ == truncated(string@, to as nat),
{
    let s = string.as_str();
    if s.as_bytes().len() >= to - 1 {
        let (head, _) = s.split_at(to - 1);
        proof {
            vstd::utf8::encode_utf8_decode_utf8(head@);
            reveal_strlit("\u{2026}");
            assert("\u{2026}"@ =~= seq!['\u{2026}']);
            assert(encode_utf8(head@) == encode_utf8(string@).subrange(0, to - 1));
        }
        let mut r = head.to_owned();
        r.append("\u{2026}");
        r
    } else {
        string
    }
}

/// Puts `upper` in the place of the first character of `s`.
pub fn capitalize_with(s: &str, upper: &str) -> (r: String)
    ensures
        r@ == capitalized_with(s@, upper@),
{
    let len: usize = s.unicode_len();
    if len == 0 {
        s.to_owned()
    } else {
        let mut r = upper.to_owned();
        r.append(s.substring_char(1, len));
        r
    }
}

/// Puts the first character of `s` in upper case.
pub fn capitalize(s: &str) -> (r: String)
    ensures
        r@ == capitalized(s@),
{
    if s.unicode_len() == 0 {
        capitalize_with(s, "")
    } else {
        let upper = to_uppercase(s.get_char(0));
        capitalize_with(s, upper.as_str())
    }
}

} // verus!
