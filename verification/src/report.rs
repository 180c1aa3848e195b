//! The stream record and the three-line report printed for it.
//!
//! The query client hands back an ordered list of records; only the first
//! one is reported. Formatting, including the decimal rendering of the
//! viewer count, is fully specified here.

use vstd::prelude::*;

use crate::errors::RunError;

verus! {

/// One live-stream record, as far as the report reads it.
pub struct StreamRecord {
    pub title: String,
    pub viewer_count: u64,
    pub started_at: String,
}

/// The decimal digit character for `d < 10`.
pub open spec fn dec_char(d: nat) -> char {
    if d == 0 { '0' }
    else if d == 1 { '1' }
    else if d == 2 { '2' }
    else if d == 3 { '3' }
    else if d == 4 { '4' }
    else if d == 5 { '5' }
    else if d == 6 { '6' }
    else if d == 7 { '7' }
    else if d == 8 { '8' }
    else { '9' }
}

/// The decimal rendering of `n`, most significant digit first, with no
/// leading zeros (a single `0` for zero itself).
pub open spec fn dec_seq(n: nat) -> Seq<char>
    decreases n,
{
    if n < 10 {
        seq![dec_char(n)]
    } else {
        dec_seq(n / 10) + seq![dec_char(n % 10)]
    }
}

/// The one-character string for a single decimal digit.
fn digit_str(d: u64) -> (r: &'static str)
    requires
        d < 10,
    ensures
        r@ == dec_seq(d as nat),
{
    if d == 0 { proof { reveal_strlit("0"); } "0" }
    else if d == 1 { proof { reveal_strlit("1"); } "1" }
    else if d == 2 { proof { reveal_strlit("2"); } "2" }
    else if d == 3 { proof { reveal_strlit("3"); } "3" }
    else if d == 4 { proof { reveal_strlit("4"); } "4" }
    else if d == 5 { proof { reveal_strlit("5"); } "5" }
    else if d == 6 { proof { reveal_strlit("6"); } "6" }
    else if d == 7 { proof { reveal_strlit("7"); } "7" }
    else if d == 8 { proof { reveal_strlit("8"); } "8" }
    else { proof { reveal_strlit("9"); } "9" }
}

/// Render `n` in decimal.
pub fn u64_to_dec(n: u64) -> (s: String)
    ensures
        s@ == dec_seq(n as nat),
    decreases n,
{
    if n < 10 {
        String::from_str(digit_str(n))
    } else {
        let mut s = u64_to_dec(n / 10);
        s.append(digit_str(n % 10));
        s
    }
}

/// The three-line report for a record with these fields: title, viewer
/// count and start time, each on its own labelled line.
pub open spec fn report_seq(title: Seq<char>, viewers: nat, started: Seq<char>) -> Seq<char> {
    "Stream info:\n  Title:      "@ + title + "\n  Viewers:    "@ + dec_seq(viewers)
        + "\n  Started at: "@ + started + "\n"@
}

/// Format the report for one record.
pub fn render_report(rec: &StreamRecord) -> (s: String)
    ensures
        s@ == report_seq(rec.title@, rec.viewer_count as nat, rec.started_at@),
{
    let mut s = String::from_str("Stream info:\n  Title:      ");
    s.append(rec.title.as_str());
    s.append("\n  Viewers:    ");
    let viewers = u64_to_dec(rec.viewer_count);
    s.append(viewers.as_str());
    s.append("\n  Started at: ");
    s.append(rec.started_at.as_str());
    s.append("\n");
    proof {
        assert(s@ =~= report_seq(rec.title@, rec.viewer_count as nat, rec.started_at@));
    }
    s
}

/// Report the first record of the query's result list, or say that there
/// is none: an empty result is the one data error of the workflow.
pub fn first_stream_report(records: &Vec<StreamRecord>) -> (r: Result<String, RunError>)
    ensures
        records@.len() == 0 ==> r == Err::<String, RunError>(RunError::DataError),
        records@.len() > 0 ==> (r matches Ok(s) && s@ == report_seq(
            records@[0].title@,
            records@[0].viewer_count as nat,
            records@[0].started_at@,
        )),
{
    if records.len() == 0 {
        Err(RunError::DataError)
    } else {
        Ok(render_report(&records[0]))
    }
}

/// The banner line printed before anything else.
pub fn banner_line() -> (s: String)
    ensures
        s@ == "Hello, stream!"@,
{
    String::from_str("Hello, stream!")
}

/// The line printed after a successful run.
pub fn success_line() -> (s: String)
    ensures
        s@ == "Ok!"@,
{
    String::from_str("Ok!")
}

/// The one user login the report is about.
pub fn default_user_login() -> (s: String)
    ensures
        s@ == "jptiz"@,
{
    String::from_str("jptiz")
}

/// The fixed path of the credential file.
pub fn secret_path() -> (s: String)
    ensures
        s@ == ".secret.json"@,
{
    String::from_str(".secret.json")
}

} // verus!
