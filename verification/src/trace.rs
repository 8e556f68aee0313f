//! The tracing headers that stand for the `--trace` flag.
//!
//! A traced request carries `X-Trace-Verbose: true` and an
//! `X-Correlation-ID` made of the account name and the local time of day.
//! The hour, minute and second are written one after the other as plain
//! decimal numbers, without padding: one o'clock, two minutes and three
//! seconds give `123`, and so do other times of day.

use crate::text::{decimal, decimal_string};
use vstd::prelude::*;

verus! {

/// Who sends a traced request, and when.
pub struct TraceStamp {
    /// The name of the account that runs the program.
    pub user: String,
    /// The hour of the local time of day.
    pub hour: u32,
    /// The minute of the local time of day.
    pub minute: u32,
    /// The second of the local time of day.
    pub second: u32,
}

/// What a [`TraceStamp`] holds.
pub struct TraceStampView {
    /// The name of the account.
    pub user: Seq<char>,
    /// The hour.
    pub hour: nat,
    /// The minute.
    pub minute: nat,
    /// The second.
    pub second: nat,
}

impl View for TraceStamp {
    type V = TraceStampView;

    open spec fn view(&self) -> TraceStampView {
        TraceStampView {
            user: self.user@,
            hour: self.hour as nat,
            minute: self.minute as nat,
            second: self.second as nat,
        }
    }
}

impl TraceStampView {
    /// The hour, minute and second are those of a time of day.
    pub open spec fn is_time_of_day(self) -> bool {
        self.hour < 24 && self.minute < 60 && self.second < 60
    }
}

/// The correlation ID of a stamp: the account name, a slash, and the hour,
/// minute and second in decimal, unpadded and unseparated.
pub open spec fn correlation_id(stamp: TraceStampView) -> Seq<char> {
    stamp.user + "/"@ + decimal(stamp.hour) + decimal(stamp.minute) + decimal(stamp.second)
}

/// The arguments that stand for `--trace`: two header pairs, the verbosity
/// header first and the correlation ID second.
pub open spec fn trace_headers(stamp: TraceStampView) -> Seq<Seq<char>> {
    seq![
        "-H"@,
        "X-Trace-Verbose: true"@,
        "-H"@,
        "X-Correlation-ID: "@ + correlation_id(stamp),
    ]
}

/// `whoami::username` reads the name of the account that runs the process
/// from the operating system, and falls back to a fixed name where the system
/// gives none. Nothing is claimed of the name.
#[verifier::external_body]
fn account_name() -> (name: String) {
    whoami::username()
}

/// `chrono::Local::now` reads the system clock in the local time zone;
/// `Timelike::hour`, `minute` and `second` give its hour from 0 to 23 and its
/// minute and second from 0 to 59 (a leap second is reported as 59).
/// `Local::now` panics where the system clock stands before 1970.
#[verifier::external_body]
fn local_time_of_day() -> (time: (u32, u32, u32))
    ensures
        time.0 < 24,
        time.1 < 60,
        time.2 < 60,
{
    let now = chrono::Local::now();
    (chrono::Timelike::hour(&now), chrono::Timelike::minute(&now), chrono::Timelike::second(&now))
}

impl TraceStamp {
    /// A stamp of the given account and time.
    pub fn new(user: String, hour: u32, minute: u32, second: u32) -> (stamp: TraceStamp)
        ensures
            stamp@ == (TraceStampView {
                user: user@,
                hour: hour as nat,
                minute: minute as nat,
                second: second as nat,
            }),
    {
        TraceStamp { user, hour, minute, second }
    }

    /// The stamp of this process at this moment: the account that runs it and
    /// the local time of day.
    ///
    /// # Panics
    ///
    /// Where the system clock stands before 1970, as `chrono` does.
    pub fn now() -> (stamp: TraceStamp)
        ensures
            stamp@.is_time_of_day(),
    {
        let user = account_name();
        let (hour, minute, second) = local_time_of_day();
        TraceStamp { user, hour, minute, second }
    }

    /// The correlation ID of this stamp.
    pub fn correlation_id(&self) -> (id: String)
        ensures
            id@ == correlation_id(self@),
    {
        let mut id: String = self.user.clone();
        id.append("/");
        id.append(decimal_string(self.hour).as_str());
        id.append(decimal_string(self.minute).as_str());
        id.append(decimal_string(self.second).as_str());
        id
    }

    /// Appends the tracing headers of this stamp to `list`.
    pub fn push_headers(&self, list: &mut Vec<String>)
        ensures
            final(list).deep_view() == old(list).deep_view() + trace_headers(self@),
    {
        let ghost before = list.deep_view();
        let mut id_header: String = "X-Correlation-ID: ".to_owned();
        id_header.append(self.correlation_id().as_str());
        list.push("-H".to_owned());
        list.push("X-Trace-Verbose: true".to_owned());
        list.push("-H".to_owned());
        list.push(id_header);
        assert(list.deep_view() =~= before + trace_headers(self@));
    }
}

} // verus!
