//! `ffmpeg -progress` reports: the `key=value` lines of one report read into
//! an [`FfmpegProgress`], and the running collection of lines into reports.
use vstd::prelude::*;
use vstd::string::*;
use crate::text::{first_index_of, trim_spec, parse_u64_spec, has_prefix_spec, str_eq, parse_u64, find_char, trim, has_prefix};

verus! {

/// Whether `ffmpeg` goes on or has finished.
#[derive(Debug, Clone, Copy, PartialEq, Eq, Structural)]
pub enum FfmpegStatus {
    Continue,
    End,
}

impl Default for FfmpegStatus {
    fn default() -> (res: Self)
        ensures
            res == FfmpegStatus::Continue,
    {
        FfmpegStatus::Continue
    }
}

/// What one progress report of `ffmpeg` says.
#[derive(Debug, Clone, Copy)]
pub struct FfmpegProgress {
    pub status: FfmpegStatus,
    pub frame: u64,
    pub out_time_us: u64,
}

impl Default for FfmpegProgress {
    fn default() -> (res: Self)
        ensures
            res == default_progress(),
    {
        FfmpegProgress { status: FfmpegStatus::Continue, frame: 0, out_time_us: 0 }
    }
}

/// The report of a run that has said nothing yet.
pub open spec fn default_progress() -> FfmpegProgress {
    FfmpegProgress { status: FfmpegStatus::Continue, frame: 0, out_time_us: 0 }
}

/// The key and the value of a `key=value` line: the text before the first
/// `=` and the text after it, both trimmed. A line without `=` has none.
pub open spec fn line_entry(line: Seq<char>) -> Option<(Seq<char>, Seq<char>)> {
    match first_index_of(line, '=') {
        Some(i) => Some(
            (trim_spec(line.subrange(0, i)), trim_spec(line.subrange(i + 1, line.len() as int))),
        ),
        None => None,
    }
}

/// The value that the last line with key `key` gives it.
pub open spec fn lookup_value(lines: Seq<Seq<char>>, key: Seq<char>) -> Option<Seq<char>>
    decreases lines.len(),
{
    if lines.len() == 0 {
        None
    } else {
        match line_entry(lines.last()) {
            Some((k, v)) => if k == key {
                Some(v)
            } else {
                lookup_value(lines.drop_last(), key)
            },
            None => lookup_value(lines.drop_last(), key),
        }
    }
}

/// The status that a `progress` value names; any other value, or none,
/// leaves the default.
pub open spec fn status_from(value: Option<Seq<char>>) -> FfmpegStatus {
    match value {
        Some(v) => if v == "continue"@ {
            FfmpegStatus::Continue
        } else if v == "end"@ {
            FfmpegStatus::End
        } else {
            FfmpegStatus::Continue
        },
        None => FfmpegStatus::Continue,
    }
}

/// A counter read from its value: a `u64` in decimal, else 0.
pub open spec fn counter_from(value: Option<Seq<char>>) -> u64 {
    match value {
        Some(v) => match parse_u64_spec(v) {
            Some(n) => n,
            None => 0,
        },
        None => 0,
    }
}

/// The report that a list of lines makes.
pub open spec fn progress_spec(lines: Seq<Seq<char>>) -> FfmpegProgress {
    FfmpegProgress {
        status: status_from(lookup_value(lines, "progress"@)),
        frame: counter_from(lookup_value(lines, "frame"@)),
        out_time_us: counter_from(lookup_value(lines, "out_time_us"@)),
    }
}

/// The characters of each line.
pub open spec fn lines_view(lines: Seq<&str>) -> Seq<Seq<char>> {
    lines.map_values(|l: &str| l@)
}

pub open spec fn opt_str_view(o: Option<&str>) -> Option<Seq<char>> {
    match o {
        Some(s) => Some(s@),
        None => None,
    }
}

fn status_of(value: Option<&str>) -> (res: FfmpegStatus)
    ensures
        res == status_from(opt_str_view(value)),
{
    match value {
        Some(v) => if str_eq(v, "continue") {
            FfmpegStatus::Continue
        } else if str_eq(v, "end") {
            FfmpegStatus::End
        } else {
            FfmpegStatus::Continue
        },
        None => FfmpegStatus::Continue,
    }
}

fn counter_of(value: Option<&str>) -> (res: u64)
    ensures
        res == counter_from(opt_str_view(value)),
{
    match value {
        Some(v) => match parse_u64(v) {
            Some(n) => n,
            None => 0,
        },
        None => 0,
    }
}

/// The key and value of `line`, when it holds an `=`.
fn split_entry(line: &str) -> (res: Option<(&str, &str)>)
    ensures
        match res {
            Some((k, v)) => line_entry(line@) == Some((k@, v@)),
            None => line_entry(line@) is None,
        },
{
    match find_char(line, '=') {
        Some(i) => {
            let n = line.unicode_len();
            let key = trim(line.substring_char(0, i));
            let value = trim(line.substring_char(i + 1, n));
            Some((key, value))
        },
        None => None,
    }
}

impl FfmpegProgress {
    /// Reads one progress report from its lines. Each line is `key=value`;
    /// where a key comes more than once the last line counts; `progress`
    /// gives the status, `frame` and `out_time_us` the counters; what is
    /// missing or does not read keeps its default.
    pub fn from_lines(lines: &[&str]) -> (res: Self)
        ensures
            res == progress_spec(lines_view(lines@)),
    {
        let ghost all = lines_view(lines@);
        let mut status: Option<&str> = None;
        let mut frame: Option<&str> = None;
        let mut out_time: Option<&str> = None;
        let n = lines.len();
        let mut i: usize = 0;
        while i < n
            invariant
                n == lines@.len(),
                all == lines_view(lines@),
                i <= n,
                opt_str_view(status) == lookup_value(all.take(i as int), "progress"@),
                opt_str_view(frame) == lookup_value(all.take(i as int), "frame"@),
                opt_str_view(out_time) == lookup_value(all.take(i as int), "out_time_us"@),
            decreases n - i,
        {
            let line: &str = lines[i];
            proof {
                assert(all.take(i + 1).drop_last() =~= all.take(i as int));
                assert(all.take(i + 1).last() == line@);
            }
            match split_entry(line) {
                Some((key, value)) => {
                    if str_eq(key, "progress") {
                        status = Some(value);
                    }
                    if str_eq(key, "frame") {
                        frame = Some(value);
                    }
                    if str_eq(key, "out_time_us") {
                        out_time = Some(value);
                    }
                },
                None => {},
            }
            i = i + 1;
        }
        assert(all.take(n as int) =~= all);
        FfmpegProgress {
            status: status_of(status),
            frame: counter_of(frame),
            out_time_us: counter_of(out_time),
        }
    }
}

/// A report with no lines says nothing: it is the default report.
pub proof fn law_empty_report_is_default()
    ensures
        progress_spec(Seq::<Seq<char>>::empty()) == default_progress(),
{
}

/// A line without `=` changes nothing in a report.
pub proof fn law_line_without_separator_is_ignored(lines: Seq<Seq<char>>, extra: Seq<char>)
    requires
        first_index_of(extra, '=') is None,
    ensures
        progress_spec(lines.push(extra)) == progress_spec(lines),
{
    assert(lines.push(extra).drop_last() =~= lines);
}

/// The last line with a key decides its value; the other keys keep the
/// values that the earlier lines gave them.
pub proof fn law_last_line_wins(lines: Seq<Seq<char>>, line: Seq<char>, other: Seq<char>)
    ensures
        line_entry(line) matches Some((k, v)) ==> lookup_value(lines.push(line), k) == Some(v),
        line_entry(line) matches Some((k, v)) && other != k ==> lookup_value(
            lines.push(line),
            other,
        ) == lookup_value(lines, other),
{
    assert(lines.push(line).drop_last() =~= lines);
}

/// A line with another key leaves each counter and the status as the
/// earlier lines gave them: in particular a closing `progress=end` line
/// changes neither `frame` nor `out_time_us`.
pub proof fn law_other_keys_leave_fields(lines: Seq<Seq<char>>, line: Seq<char>)
    ensures
        line_entry(line) matches Some((k, v)) && k != "out_time_us"@ ==> progress_spec(
            lines.push(line),
        ).out_time_us == progress_spec(lines).out_time_us,
        line_entry(line) matches Some((k, v)) && k != "frame"@ ==> progress_spec(
            lines.push(line),
        ).frame == progress_spec(lines).frame,
        line_entry(line) matches Some((k, v)) && k != "progress"@ ==> progress_spec(
            lines.push(line),
        ).status == progress_spec(lines).status,
{
    assert(lines.push(line).drop_last() =~= lines);
}

/// A counter line sets its counter to the number it holds, or to 0 where
/// its value is no `u64` in decimal, whatever came before and whatever the
/// status.
pub proof fn law_counter_line_sets_counter(lines: Seq<Seq<char>>, line: Seq<char>)
    ensures
        line_entry(line) matches Some((k, v)) ==> k == "out_time_us"@ ==> progress_spec(
            lines.push(line),
        ).out_time_us == (match parse_u64_spec(v) {
            Some(n) => n,
            None => 0u64,
        }),
        line_entry(line) matches Some((k, v)) ==> k == "frame"@ ==> progress_spec(
            lines.push(line),
        ).frame == (match parse_u64_spec(v) {
            Some(n) => n,
            None => 0u64,
        }),
{
    assert(lines.push(line).drop_last() =~= lines);
}

/// A `progress` line sets the status: `end` ends the run, anything else
/// lets it go on.
pub proof fn law_progress_line_sets_status(lines: Seq<Seq<char>>, line: Seq<char>)
    ensures
        line_entry(line) matches Some((k, v)) ==> k == "progress"@ ==> (progress_spec(
            lines.push(line),
        ).status == FfmpegStatus::End <==> v == "end"@),
{
    assert(lines.push(line).drop_last() =~= lines);
    reveal_strlit("end");
    reveal_strlit("continue");
}

/// The lines of the report that `ffmpeg` is writing, until a `progress=`
/// line closes it.
pub struct ProgressLines {
    lines: Vec<String>,
}

impl ProgressLines {
    /// The lines held so far.
    pub closed spec fn pending(&self) -> Seq<Seq<char>> {
        self.lines@.map_values(|l: String| l@)
    }

    /// A collection that holds no line.
    pub fn new() -> (res: Self)
        ensures
            res.pending() == Seq::<Seq<char>>::empty(),
    {
        let res = ProgressLines { lines: Vec::new() };
        assert(res.pending() =~= Seq::<Seq<char>>::empty());
        res
    }

    /// Takes the next line of output. A line that begins with `progress=`
    /// closes the report: the report of all lines held, this one included,
    /// comes back and the collection is emptied. Any other line is kept.
    pub fn push_line(&mut self, line: String) -> (res: Option<FfmpegProgress>)
        ensures
            has_prefix_spec(line@, "progress="@) ==> {
                &&& res == Some(progress_spec(old(self).pending().push(line@)))
                &&& final(self).pending() == Seq::<Seq<char>>::empty()
            },
            !has_prefix_spec(line@, "progress="@) ==> {
                &&& res is None
                &&& final(self).pending() == old(self).pending().push(line@)
            },
    {
        let closes = has_prefix(line.as_str(), "progress=");
        self.lines.push(line);
        assert(self.pending() =~= old(self).pending().push(line@));
        if !closes {
            return None;
        }
        let mut refs: Vec<&str> = Vec::new();
        let n = self.lines.len();
        let mut i: usize = 0;
        while i < n
            invariant
                n == self.lines@.len(),
                i <= n,
                refs@.len() == i,
                forall|k: int| 0 <= k < i ==> #[trigger] refs@[k]@ == self.lines@[k]@,
            decreases n - i,
        {
            refs.push(self.lines[i].as_str());
            i = i + 1;
        }
        assert(lines_view(refs@) =~= self.pending());
        let report = FfmpegProgress::from_lines(refs.as_slice());
        self.lines = Vec::new();
        assert(self.pending() =~= Seq::<Seq<char>>::empty());
        Some(report)
    }
}

} // verus!
