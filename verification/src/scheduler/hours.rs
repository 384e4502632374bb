//! Business hours in São Paulo.
use crate::timestamp;
use crate::timestamp::utc_civil;
use vstd::prelude::*;

verus! {

/// How far São Paulo is behind UTC, in seconds.
pub const LOCAL_BEHIND_SECS: i64 = 10800;

/// When business is open.
#[derive(Debug)]
pub struct BusinessHoursConfig {
    pub start_hour: u8,
    pub end_hour: u8,
    /// Holidays as month and day.
    pub holidays: Vec<(u8, u8)>,
    /// First day of the recess, month and day.
    pub recess_start: (u8, u8),
    /// Last day of the recess, in the next year.
    pub recess_end: (u8, u8),
}

/// The fixed national holidays of Brazil.
pub open spec fn national_holidays() -> Seq<(u8, u8)> {
    seq![
        (1u8, 1u8),
        (4u8, 21u8),
        (5u8, 1u8),
        (9u8, 7u8),
        (10u8, 12u8),
        (11u8, 2u8),
        (11u8, 15u8),
        (12u8, 25u8),
    ]
}

impl Default for BusinessHoursConfig {
    /// From 8 to 18 h, without national holidays and the days around New Year.
    fn default() -> (r: Self)
        ensures
            r.start_hour == 8,
            r.end_hour == 18,
            r.holidays@ == national_holidays(),
            r.recess_start == (12u8, 23u8),
            r.recess_end == (1u8, 6u8),
    {
        let holidays: Vec<(u8, u8)> = vec![
            (1, 1),
            (4, 21),
            (5, 1),
            (9, 7),
            (10, 12),
            (11, 2),
            (11, 15),
            (12, 25),
        ];
        assert(holidays@ =~= national_holidays());
        BusinessHoursConfig {
            start_hour: 8,
            end_hour: 18,
            holidays,
            recess_start: (12, 23),
            recess_end: (1, 6),
        }
    }
}

impl Clone for BusinessHoursConfig {
    fn clone(&self) -> (r: Self)
        ensures
            r.start_hour == self.start_hour,
            r.end_hour == self.end_hour,
            r.holidays@ == self.holidays@,
            r.recess_start == self.recess_start,
            r.recess_end == self.recess_end,
    {
        let mut holidays: Vec<(u8, u8)> = Vec::new();
        let mut i: usize = 0;
        while i < self.holidays.len()
            invariant
                i <= self.holidays@.len(),
                holidays@ == self.holidays@.take(i as int),
            decreases self.holidays@.len() - i,
        {
            holidays.push(self.holidays[i]);
            assert(holidays@ =~= self.holidays@.take(i as int + 1));
            i += 1;
        }
        assert(self.holidays@.take(i as int) =~= self.holidays@);
        BusinessHoursConfig {
            start_hour: self.start_hour,
            end_hour: self.end_hour,
            holidays,
            recess_start: self.recess_start,
            recess_end: self.recess_end,
        }
    }
}

/// A local time: month, day, day of the week counted from Monday as 0, hour.
#[derive(Debug, Clone, Copy, PartialEq, Eq, Structural)]
pub struct LocalTime {
    pub month: u8,
    pub day: u8,
    pub weekday: u8,
    pub hour: u8,
}

/// Whether a day lies in the recess, whatever the year.
pub open spec fn in_recess(cfg: BusinessHoursConfig, t: LocalTime) -> bool {
    ||| t.month == cfg.recess_start.0 && t.day >= cfg.recess_start.1
    ||| t.month == cfg.recess_end.0 && t.day <= cfg.recess_end.1
}

/// Whether business is open: a weekday, within the hours, no holiday and no
/// recess.
pub open spec fn open_at(cfg: BusinessHoursConfig, t: LocalTime) -> bool {
    &&& t.weekday != 5 && t.weekday != 6
    &&& cfg.start_hour <= t.hour < cfg.end_hour
    &&& !cfg.holidays@.contains((t.month, t.day))
    &&& !in_recess(cfg, t)
}

fn is_holiday(cfg: &BusinessHoursConfig, month: u8, day: u8) -> (r: bool)
    ensures
        r == cfg.holidays@.contains((month, day)),
{
    let mut i: usize = 0;
    while i < cfg.holidays.len()
        invariant
            i <= cfg.holidays@.len(),
            forall|k: int| 0 <= k < i ==> cfg.holidays@[k] != (month, day),
        decreases cfg.holidays@.len() - i,
    {
        let h = cfg.holidays[i];
        if h.0 == month && h.1 == day {
            assert(cfg.holidays@[i as int] == (month, day));
            return true;
        }
        i += 1;
    }
    false
}

/// Whether business is open at a local time.
pub fn is_business_hours(cfg: &BusinessHoursConfig, t: LocalTime) -> (r: bool)
    ensures
        r == open_at(*cfg, t),
{
    if t.weekday == 5 || t.weekday == 6 {
        return false;
    }
    if t.hour < cfg.start_hour || t.hour >= cfg.end_hour {
        return false;
    }
    if is_holiday(cfg, t.month, t.day) {
        return false;
    }
    let in_dec = t.month == cfg.recess_start.0 && t.day >= cfg.recess_start.1;
    let in_jan = t.month == cfg.recess_end.0 && t.day <= cfg.recess_end.1;
    !(in_dec || in_jan)
}

/// The local time of a point in time; `None` outside the calendar.
pub open spec fn local_of(unix_secs: int) -> Option<LocalTime> {
    if unix_secs - LOCAL_BEHIND_SECS < i64::MIN {
        None
    } else {
        match utc_civil((unix_secs - LOCAL_BEHIND_SECS) as i64) {
            Some(c) => Some(LocalTime { month: c.0, day: c.1, weekday: c.2, hour: c.3 }),
            None => None,
        }
    }
}

/// The local time of a point in time, in Unix seconds; `None` outside the
/// calendar. The hour and the day of the week follow from the seconds.
pub fn local_time(unix_secs: i64) -> (r: Option<LocalTime>)
    ensures
        r == local_of(unix_secs as int),
        r matches Some(t) ==> {
            &&& t.weekday == ((unix_secs - 10800) / 86400 + 3) % 7
            &&& t.hour == (unix_secs - 10800) % 86400 / 3600
        },
{
    if unix_secs < i64::MIN + LOCAL_BEHIND_SECS {
        return None;
    }
    match timestamp::civil(unix_secs - LOCAL_BEHIND_SECS) {
        Some(c) => Some(LocalTime { month: c.0, day: c.1, weekday: c.2, hour: c.3 }),
        None => None,
    }
}

/// Whether business is open at a point in time, in Unix seconds; `None` outside
/// the calendar.
pub fn is_business_hours_at(cfg: &BusinessHoursConfig, unix_secs: i64) -> (r: Option<bool>)
    ensures
        r == (match local_of(unix_secs as int) {
            Some(t) => Some(open_at(*cfg, t)),
            None => None,
        }),
{
    match local_time(unix_secs) {
        Some(t) => Some(is_business_hours(cfg, t)),
        None => None,
    }
}

/// Whether an hour is one in which only urgent notifications go out.
pub open spec fn quiet_hour(hour: u8) -> bool {
    hour >= 22 || hour < 7
}

/// Whether an hour is one in which only urgent notifications go out.
pub fn is_quiet_hours(local_hour: u8) -> (r: bool)
    ensures
        r == quiet_hour(local_hour),
{
    local_hour >= 22 || local_hour < 7
}

/// With the default hours, business is never open at a quiet hour.
pub proof fn law_default_hours_are_not_quiet(cfg: BusinessHoursConfig, t: LocalTime)
    requires
        cfg.start_hour == 8,
        cfg.end_hour == 18,
        open_at(cfg, t),
    ensures
        !quiet_hour(t.hour),
{
}

/// Business is closed on a holiday, whatever the hour.
pub proof fn law_closed_on_holidays(cfg: BusinessHoursConfig, t: LocalTime, i: int)
    requires
        0 <= i < cfg.holidays@.len(),
        cfg.holidays@[i] == (t.month, t.day),
    ensures
        !open_at(cfg, t),
{
}

/// Business is closed on both days of the weekend, whatever the hours and the
/// holidays are.
pub proof fn law_closed_on_weekends(cfg: BusinessHoursConfig, t: LocalTime, r: bool)
    requires
        t.weekday == 5 || t.weekday == 6,
        call_ensures(is_business_hours, (&cfg, t), r),
    ensures
        !open_at(cfg, t),
        !r,
{
}

/// Business is closed before it opens, from the hour on at which it closes, on
/// holidays and during the recess.
pub proof fn law_closed_outside_hours_and_in_recess(
    cfg: BusinessHoursConfig,
    t: LocalTime,
    r: bool,
)
    requires
        call_ensures(is_business_hours, (&cfg, t), r),
        t.hour < cfg.start_hour || t.hour >= cfg.end_hour || cfg.holidays@.contains(
            (t.month, t.day),
        ) || (t.month == cfg.recess_start.0 && t.day >= cfg.recess_start.1) || (t.month
            == cfg.recess_end.0 && t.day <= cfg.recess_end.1),
    ensures
        !open_at(cfg, t),
        !r,
{
}

/// On a weekday that is no holiday and in no recess, business is open from its
/// first hour to the end of its last.
pub proof fn law_open_on_working_days(cfg: BusinessHoursConfig, t: LocalTime, r: bool)
    requires
        call_ensures(is_business_hours, (&cfg, t), r),
        t.weekday < 5,
        cfg.start_hour <= t.hour,
        t.hour < cfg.end_hour,
        !cfg.holidays@.contains((t.month, t.day)),
        t.month != cfg.recess_start.0 || t.day < cfg.recess_start.1,
        t.month != cfg.recess_end.0 || t.day > cfg.recess_end.1,
    ensures
        open_at(cfg, t),
        r,
{
}

/// By default business is closed at night, on the eight national holidays, and
/// from the 23rd of December to the 6th of January.
pub proof fn law_default_year(cfg: BusinessHoursConfig, t: LocalTime)
    requires
        call_ensures(BusinessHoursConfig::default, (), cfg),
        open_at(cfg, t),
    ensures
        8 <= t.hour < 18,
        !(t.month == 1 && t.day <= 6),
        !(t.month == 4 && t.day == 21),
        !(t.month == 5 && t.day == 1),
        !(t.month == 9 && t.day == 7),
        !(t.month == 10 && t.day == 12),
        !(t.month == 11 && (t.day == 2 || t.day == 15)),
        !(t.month == 12 && t.day >= 23),
{
    let h = national_holidays();
    assert(h[1] == (4u8, 21u8) && h[2] == (5u8, 1u8) && h[3] == (9u8, 7u8));
    assert(h[4] == (10u8, 12u8) && h[5] == (11u8, 2u8) && h[6] == (11u8, 15u8));
}

/// By default business is open in the working hours of every other weekday.
pub proof fn law_default_working_days(cfg: BusinessHoursConfig, t: LocalTime)
    requires
        call_ensures(BusinessHoursConfig::default, (), cfg),
        t.weekday < 5,
        8 <= t.hour < 18,
        !(t.month == 1 && t.day <= 6),
        !(t.month == 4 && t.day == 21),
        !(t.month == 5 && t.day == 1),
        !(t.month == 9 && t.day == 7),
        !(t.month == 10 && t.day == 12),
        !(t.month == 11 && (t.day == 2 || t.day == 15)),
        !(t.month == 12 && t.day >= 23),
    ensures
        open_at(cfg, t),
{
}

/// Local time is three hours behind, and its days of the week go round by seven
/// from a Monday: business hours follow from the seconds of the clock.
pub proof fn law_hours_follow_the_clock(
    cfg: BusinessHoursConfig,
    unix_secs: i64,
    t: Option<LocalTime>,
    r: Option<bool>,
)
    requires
        call_ensures(local_time, (unix_secs,), t),
        call_ensures(is_business_hours_at, (&cfg, unix_secs), r),
    ensures
        r is Some <==> t is Some,
        t matches Some(x) ==> x.hour < 24 && x.weekday < 7,
        r == Some(true) ==> {
            let local = unix_secs - 3 * 3600;
            &&& cfg.start_hour <= local % 86400 / 3600 < cfg.end_hour
            &&& (local / 86400 + 3) % 7 < 5
        },
{
}

/// The quiet hours are those from ten at night to seven in the morning, and no
/// others.
pub proof fn law_quiet_hours_are_the_night(hour: u8, r: bool)
    requires
        hour < 24,
        call_ensures(is_quiet_hours, (hour,), r),
    ensures
        r == quiet_hour(hour),
        r <==> !(7 <= hour <= 21),
        r <==> (hour + 2) % 24 < 9,
{
}

/// The local day is that of three hours ago by the world's clock, wherever the
/// calendar reaches.
pub proof fn law_local_days_are_three_hours_behind(unix_secs: i64, r: Option<LocalTime>)
    requires
        call_ensures(local_time, (unix_secs,), r),
    ensures
        unix_secs - 10800 < i64::MIN ==> r is None,
        unix_secs - 10800 >= i64::MIN ==> match utc_civil((unix_secs - 10800) as i64) {
            Some(c) => r matches Some(t) && t.month == c.0 && t.day == c.1 && t.weekday == c.2
                && t.hour == c.3,
            None => r is None,
        },
{
}

} // verus!
