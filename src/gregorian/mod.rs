//! Chinese renderings of the Gregorian calendar: dates and times of day.
mod time;

pub use time::{
    clock_chinese, day_part_logograms, day_part_of, delta_time_chinese, hour12_of, hour_unit,
    linear_time_chinese, minute_chinese, DayPart, DeltaTime, LinearTime, Hour, Hour12, Hour24, HourOutOfRange, Minute, MinuteOutOfRange, Second,
    SecondOutOfRange,
};
mod date_parts;

pub use date_parts::{
    day_unit, leap_year, ordinal_logograms, styled_week_day_chinese, week_day_ordinal,
    week_format_logograms, year_chinese, Day, DayOutOfRange, Month, MonthOutOfRange,
    StyledWeekDay, WeekDay, WeekDayOutOfRange, WeekFormat, Year,
};
mod date;

pub use date::{
    date_chinese, day_fits_month, is_date_pattern, pattern_code, pattern_flags, settings_consistent,
    settings_date, settings_flags, Date, DateBuilder, DateParts, DatePattern, DatePatternFlags,
    DateSettings, InvalidDate, InvalidDatePattern,
};
