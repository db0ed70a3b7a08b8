//! Where the output file and the two temporary download files go, from the
//! video's title, the `--output` option, the working directory and what the
//! file system says of the output target.
//!
//! Paths are strings. The path operations themselves (`join`, `parent`,
//! `file_stem`, `file_name`, `extension`, `is_absolute`) are those of
//! `std::path::Path`, reached through the trusted items below; their results
//! are named, and the contracts here speak of those names.
use vstd::prelude::*;
use vstd::string::*;
use vstd::utf8::encode_utf8;
use crate::cli::Cli;
use crate::text::{first_index_of, find_char, lemma_first_index_of_bounds, lemma_first_index_of};

verus! {

/// The path that `Path::join` makes of `base` and `name`.
pub uninterp spec fn joined_path(base: Seq<char>, name: Seq<char>) -> Seq<char>;

/// What `Path::parent` gives of `p`.
pub uninterp spec fn parent_path(p: Seq<char>) -> Option<Seq<char>>;

/// What `Path::file_stem` gives of `p`.
pub uninterp spec fn file_stem_of(p: Seq<char>) -> Option<Seq<char>>;

/// What `Path::file_name` gives of `p`.
pub uninterp spec fn file_name_of(p: Seq<char>) -> Option<Seq<char>>;

/// Whether `Path::extension` finds an extension in `p`.
pub uninterp spec fn extension_present(p: Seq<char>) -> bool;

/// Whether `Path::is_absolute` holds of `p`.
pub uninterp spec fn absolute_path(p: Seq<char>) -> bool;

pub open spec fn opt_string_view(o: Option<String>) -> Option<Seq<char>> {
    match o {
        Some(s) => Some(s@),
        None => None,
    }
}

pub open spec fn seq_or(o: Option<Seq<char>>, d: Seq<char>) -> Seq<char> {
    match o {
        Some(s) => s,
        None => d,
    }
}

/// `std::path::Path::join`: `name` adjoined to `base`.
#[verifier::external_body]
fn join_path(base: &str, name: &str) -> (res: String)
    ensures
        res@ == joined_path(base@, name@),
{
    std::path::Path::new(base).join(name).to_string_lossy().into_owned()
}

/// `std::path::Path::parent`: `p` without its last component, if it has one.
#[verifier::external_body]
pub(crate) fn parent_of(p: &str) -> (res: Option<String>)
    ensures
        opt_string_view(res) == parent_path(p@),
{
    Some(std::path::Path::new(p).parent()?.to_str()?.to_owned())
}

/// `std::path::Path::file_stem`: the last component without its extension.
#[verifier::external_body]
fn file_stem(p: &str) -> (res: Option<String>)
    ensures
        opt_string_view(res) == file_stem_of(p@),
{
    Some(std::path::Path::new(p).file_stem()?.to_str()?.to_owned())
}

/// `std::path::Path::file_name`: the last component, if it is a file name.
#[verifier::external_body]
fn file_name(p: &str) -> (res: Option<String>)
    ensures
        opt_string_view(res) == file_name_of(p@),
{
    Some(std::path::Path::new(p).file_name()?.to_str()?.to_owned())
}

/// `std::path::Path::extension` tested for presence. Its documentation says
/// that the extension is taken from the file name, so a path with an
/// extension has a file name.
#[verifier::external_body]
fn has_file_extension(path: &str) -> (res: bool)
    ensures
        res == extension_present(path@),
        res ==> file_name_of(path@) is Some,
{
    std::path::Path::new(path).extension().is_some()
}

/// `std::path::Path::is_absolute`.
#[verifier::external_body]
fn is_absolute_path(p: &str) -> (res: bool)
    ensures
        res == absolute_path(p@),
{
    std::path::Path::new(p).is_absolute()
}

/// A character that `sanitize_filename` removes: `/ ? < > \ : * | "` and
/// the control characters U+0000..U+001F and U+0080..U+009F.
pub open spec fn is_filename_reserved(c: char) -> bool {
    ||| c == '/'
    ||| c == '?'
    ||| c == '<'
    ||| c == '>'
    ||| c == '\\'
    ||| c == ':'
    ||| c == '*'
    ||| c == '|'
    ||| c == '"'
    ||| c <= '\u{1f}'
    ||| ('\u{80}' <= c && c <= '\u{9f}')
}

/// `t` without its reserved and control characters, the others kept in
/// order.
pub open spec fn strip_reserved(t: Seq<char>) -> Seq<char>
    decreases t.len(),
{
    if t.len() == 0 {
        t
    } else if is_filename_reserved(t.last()) {
        strip_reserved(t.drop_last())
    } else {
        strip_reserved(t.drop_last()).push(t.last())
    }
}

/// Whether `t` is one dot or more and nothing else.
pub open spec fn only_dots(t: Seq<char>) -> bool {
    t.len() > 0 && forall|i: int| 0 <= i < t.len() ==> #[trigger] t[i] == '.'
}

/// Nothing where `t` is only dots, else `t`.
pub open spec fn empty_if_dots(t: Seq<char>) -> Seq<char> {
    if only_dots(t) {
        Seq::empty()
    } else {
        t
    }
}

/// The longest beginning of `t` that takes at most 255 bytes in UTF-8.
pub open spec fn fit_bytes(t: Seq<char>) -> Seq<char>
    decreases t.len(),
{
    if encode_utf8(t).len() <= 255 || t.len() == 0 {
        t
    } else {
        fit_bytes(t.drop_last())
    }
}

/// Whether `c` is the lower-case ASCII letter `l` in either case.
pub open spec fn ascii_letter_ci(c: char, l: char) -> bool {
    c == l || c as u32 + 32 == l as u32
}

/// Whether `t` begins with the lower-case ASCII word `w`, in any case.
pub open spec fn starts_with_ci(t: Seq<char>, w: Seq<char>) -> bool {
    w.len() <= t.len() && forall|i: int| 0 <= i < w.len() ==> ascii_letter_ci(t[i], #[trigger] w[i])
}

/// Whether `t` begins like a Windows device name: `con`, `prn`, `aux`,
/// `nul`, `com` or `lpt`, in any case.
pub open spec fn device_name_like(t: Seq<char>) -> bool {
    ||| starts_with_ci(t, "con"@)
    ||| starts_with_ci(t, "prn"@)
    ||| starts_with_ci(t, "aux"@)
    ||| starts_with_ci(t, "nul"@)
    ||| starts_with_ci(t, "com"@)
    ||| starts_with_ci(t, "lpt"@)
}

/// What may follow a device name: nothing, or a dot and then anything but
/// a line feed.
pub open spec fn device_name_tail(r: Seq<char>) -> bool {
    r.len() == 0 || (r[0] == '.' && forall|i: int| 0 <= i < r.len() ==> #[trigger] r[i] != '\n')
}

/// Whether the whole of `t` is a reserved Windows device name, as
/// `sanitize_filename` matches it:
/// `(?i)^(con|prn|aux|nul|com[0-9]|lpt[0-9])(\..*)?$`.
pub open spec fn windows_device_name(t: Seq<char>) -> bool {
    ||| ((starts_with_ci(t, "con"@) || starts_with_ci(t, "prn"@) || starts_with_ci(t, "aux"@)
        || starts_with_ci(t, "nul"@)) && device_name_tail(t.subrange(3, t.len() as int)))
    ||| ((starts_with_ci(t, "com"@) || starts_with_ci(t, "lpt"@)) && t.len() >= 4 && '0' <= t[3]
        <= '9' && device_name_tail(t.subrange(4, t.len() as int)))
}

/// Nothing where `t` is a reserved Windows device name, else `t`.
pub open spec fn empty_if_device(t: Seq<char>) -> Seq<char> {
    if windows_device_name(t) {
        Seq::empty()
    } else {
        t
    }
}

/// `t` without its trailing dots and spaces.
pub open spec fn trim_trailing_dots(t: Seq<char>) -> Seq<char>
    decreases t.len(),
{
    if t.len() > 0 && (t.last() == '.' || t.last() == ' ') {
        trim_trailing_dots(t.drop_last())
    } else {
        t
    }
}

/// The name that `sanitize_filename::sanitize` makes of `t` when built for
/// any platform but Windows: reserved and control characters deleted, a
/// name of only dots emptied, cut to 255 bytes at a character boundary.
pub open spec fn sanitized_other(t: Seq<char>) -> Seq<char> {
    fit_bytes(empty_if_dots(strip_reserved(t)))
}

/// The name that `sanitize_filename::sanitize` makes of `t` when built for
/// Windows: as on other platforms, and before the cut a reserved device
/// name is also emptied and trailing dots and spaces dropped.
pub open spec fn sanitized_windows(t: Seq<char>) -> Seq<char> {
    fit_bytes(trim_trailing_dots(empty_if_device(empty_if_dots(strip_reserved(t)))))
}

/// Whether `name` is what `sanitize_filename::sanitize` makes of `title` on
/// some platform.
pub open spec fn sanitized_from(title: Seq<char>, name: Seq<char>) -> bool {
    name == sanitized_other(title) || name == sanitized_windows(title)
}

/// A title that `sanitize_filename::sanitize` leaves as it is on every
/// platform: no reserved or control character, not only dots, at most 255
/// bytes, no trailing dot or space, and not like a Windows device name.
pub open spec fn clean_title(t: Seq<char>) -> bool {
    &&& forall|i: int| 0 <= i < t.len() ==> !is_filename_reserved(#[trigger] t[i])
    &&& !only_dots(t)
    &&& encode_utf8(t).len() <= 255
    &&& t.len() > 0 ==> (t.last() != '.' && t.last() != ' ')
    &&& !device_name_like(t)
}

/// `sanitize_filename::sanitize` with its default options. Its source
/// deletes the reserved and control characters, empties a name made only of
/// dots and, when built for Windows, empties a reserved device name and
/// drops trailing dots and spaces; then it cuts the name to 255 bytes at a
/// character boundary. The replacement is empty, so each step only deletes.
/// Which steps apply depends on the platform the crate is built for, so the
/// contract gives the result on each.
#[verifier::external_body]
fn sanitize_title(title: &str) -> (res: String)
    ensures
        res@ == sanitized_other(title@) || res@ == sanitized_windows(title@),
{
    sanitize_filename::sanitize(title)
}

proof fn lemma_strip_clean(t: Seq<char>)
    requires
        forall|i: int| 0 <= i < t.len() ==> !is_filename_reserved(#[trigger] t[i]),
    ensures
        strip_reserved(t) == t,
    decreases t.len(),
{
    if t.len() > 0 {
        assert(!is_filename_reserved(t[t.len() - 1]));
        lemma_strip_clean(t.drop_last());
        assert(t.drop_last().push(t.last()) =~= t);
    }
}

/// A clean title comes out of sanitizing as it went in, on every platform.
pub proof fn lemma_clean_title_kept(t: Seq<char>)
    requires
        clean_title(t),
    ensures
        sanitized_other(t) == t,
        sanitized_windows(t) == t,
{
    lemma_strip_clean(t);
    assert(!windows_device_name(t));
}

proof fn lemma_strip_no_reserved(t: Seq<char>)
    ensures
        forall|i: int| 0 <= i < strip_reserved(t).len() ==> !is_filename_reserved(
            #[trigger] strip_reserved(t)[i],
        ),
    decreases t.len(),
{
    if t.len() > 0 {
        lemma_strip_no_reserved(t.drop_last());
        let p = strip_reserved(t.drop_last());
        if !is_filename_reserved(t.last()) {
            assert forall|i: int| 0 <= i < p.push(t.last()).len() implies !is_filename_reserved(
                #[trigger] p.push(t.last())[i],
            ) by {
                if i < p.len() {
                    assert(p.push(t.last())[i] == p[i]);
                }
            }
        }
    }
}

proof fn lemma_fit_prefix(t: Seq<char>)
    ensures
        fit_bytes(t).len() <= t.len(),
        fit_bytes(t) == t.subrange(0, fit_bytes(t).len() as int),
    decreases t.len(),
{
    if !(encode_utf8(t).len() <= 255 || t.len() == 0) {
        lemma_fit_prefix(t.drop_last());
        assert(fit_bytes(t) =~= t.subrange(0, fit_bytes(t).len() as int));
    } else {
        assert(t =~= t.subrange(0, t.len() as int));
    }
}

proof fn lemma_trim_prefix(t: Seq<char>)
    ensures
        trim_trailing_dots(t).len() <= t.len(),
        trim_trailing_dots(t) == t.subrange(0, trim_trailing_dots(t).len() as int),
    decreases t.len(),
{
    if t.len() > 0 && (t.last() == '.' || t.last() == ' ') {
        lemma_trim_prefix(t.drop_last());
        assert(trim_trailing_dots(t) =~= t.subrange(0, trim_trailing_dots(t).len() as int));
    } else {
        assert(t =~= t.subrange(0, t.len() as int));
    }
}

/// A sanitized name holds no reserved or control character, on every
/// platform: in particular no `/` or `\`, so it names no other directory.
pub proof fn law_sanitized_has_no_reserved(title: Seq<char>, name: Seq<char>)
    requires
        sanitized_from(title, name),
    ensures
        forall|i: int| 0 <= i < name.len() ==> !is_filename_reserved(#[trigger] name[i]),
{
    let s = strip_reserved(title);
    lemma_strip_no_reserved(title);
    let d = empty_if_dots(s);
    assert(forall|i: int| 0 <= i < d.len() ==> !is_filename_reserved(#[trigger] d[i]));
    let w = empty_if_device(d);
    assert(forall|i: int| 0 <= i < w.len() ==> !is_filename_reserved(#[trigger] w[i]));
    let r = trim_trailing_dots(w);
    lemma_trim_prefix(w);
    assert(forall|i: int| 0 <= i < r.len() ==> !is_filename_reserved(#[trigger] r[i])) by {
        assert forall|i: int| 0 <= i < r.len() implies !is_filename_reserved(#[trigger] r[i]) by {
            assert(r[i] == w.subrange(0, r.len() as int)[i]);
        }
    }
    lemma_fit_prefix(d);
    lemma_fit_prefix(r);
    assert forall|i: int| 0 <= i < name.len() implies !is_filename_reserved(#[trigger] name[i]) by {
        if name == sanitized_other(title) {
            assert(name[i] == d.subrange(0, name.len() as int)[i]);
        } else {
            assert(name[i] == r.subrange(0, name.len() as int)[i]);
        }
    }
}

/// What the file system says of the output target: whether asking if it
/// exists gave an answer (`Path::try_exists` returned `Ok`), and whether it
/// is a regular file.
#[derive(Clone, Copy, Debug)]
pub struct TargetProbe {
    pub try_exists_ok: bool,
    pub is_file: bool,
}

/// The planned paths: the output file, the two temporary files, and the
/// directory to create first, if any.
pub struct PathPlan {
    pub output_file: String,
    pub video_temp_file: String,
    pub audio_temp_file: String,
    pub create_dir: Option<String>,
}

/// The planned paths as character sequences.
pub struct PlanView {
    pub output_file: Seq<char>,
    pub video_temp_file: Seq<char>,
    pub audio_temp_file: Seq<char>,
    pub create_dir: Option<Seq<char>>,
}

impl View for PathPlan {
    type V = PlanView;

    open spec fn view(&self) -> PlanView {
        PlanView {
            output_file: self.output_file@,
            video_temp_file: self.video_temp_file@,
            audio_temp_file: self.audio_temp_file@,
            create_dir: opt_string_view(self.create_dir),
        }
    }
}

pub open spec fn opt_plan_view(o: Option<PathPlan>) -> Option<PlanView> {
    match o {
        Some(p) => Some(p@),
        None => None,
    }
}

/// The stem that temporary files are named after: the file name up to its
/// first dot.
pub open spec fn temp_stem(file_name: Seq<char>) -> Seq<char> {
    match first_index_of(file_name, '.') {
        Some(i) => file_name.subrange(0, i),
        None => file_name,
    }
}

/// The temporary video file for `file_name` in `base`.
pub open spec fn video_temp_spec(base: Seq<char>, file_name: Seq<char>) -> Seq<char> {
    joined_path(base, temp_stem(file_name) + "-video.tmp"@)
}

/// The temporary audio file for `file_name` in `base`.
pub open spec fn audio_temp_spec(base: Seq<char>, file_name: Seq<char>) -> Seq<char> {
    joined_path(base, temp_stem(file_name) + "-audio.tmp"@)
}

/// The extension given to an output name that has none: `wav` for audio,
/// `mp4` for video.
pub open spec fn default_extension(is_audio: bool) -> Seq<char> {
    if is_audio {
        "wav"@
    } else {
        "mp4"@
    }
}

/// The output file for `file_name` in `base`: a name with a dot is kept,
/// any other gets the default extension.
pub open spec fn output_file_spec(base: Seq<char>, file_name: Seq<char>, is_audio: bool) -> Seq<
    char,
> {
    if first_index_of(file_name, '.') is Some {
        joined_path(base, file_name)
    } else {
        joined_path(base, file_name + "."@ + default_extension(is_audio))
    }
}

/// The output file for a video's title in `base`: the title and the default
/// extension, whatever the title holds.
pub open spec fn title_output_spec(base: Seq<char>, title: Seq<char>, is_audio: bool) -> Seq<char> {
    joined_path(base, title + "."@ + default_extension(is_audio))
}

/// Output and temporary files named after a video's title in `base`.
pub open spec fn plan_for_title(
    base: Seq<char>,
    title: Seq<char>,
    only_audio: bool,
    create_dir: Option<Seq<char>>,
) -> PlanView {
    PlanView {
        output_file: title_output_spec(base, title, only_audio),
        video_temp_file: video_temp_spec(base, title),
        audio_temp_file: audio_temp_spec(base, title),
        create_dir,
    }
}

/// Output and temporary files all named after `file_name` in `base`.
pub open spec fn plan_in_dir(
    base: Seq<char>,
    file_name: Seq<char>,
    only_audio: bool,
    create_dir: Option<Seq<char>>,
) -> PlanView {
    PlanView {
        output_file: output_file_spec(base, file_name, only_audio),
        video_temp_file: video_temp_spec(base, file_name),
        audio_temp_file: audio_temp_spec(base, file_name),
        create_dir,
    }
}

/// A given output file, with temporary files named after `stem` in `base`.
pub open spec fn plan_to_file(
    base: Seq<char>,
    output: Seq<char>,
    stem: Seq<char>,
    create_dir: Option<Seq<char>>,
) -> PlanView {
    PlanView {
        output_file: output,
        video_temp_file: video_temp_spec(base, stem),
        audio_temp_file: audio_temp_spec(base, stem),
        create_dir,
    }
}

/// The plan for an absolute `--output`.
pub open spec fn absolute_plan(
    output: Seq<char>,
    title: Seq<char>,
    only_audio: bool,
    probe: TargetProbe,
) -> PlanView {
    let base = seq_or(parent_path(output), "/"@);
    if probe.try_exists_ok {
        if probe.is_file {
            plan_to_file(base, output, seq_or(file_stem_of(output), title), None)
        } else if extension_present(output) {
            plan_in_dir(base, seq_or(file_name_of(output), title), only_audio, Some(base))
        } else {
            plan_for_title(output, title, only_audio, Some(output))
        }
    } else if extension_present(output) {
        plan_to_file(base, output, seq_or(file_stem_of(output), title), Some(base))
    } else {
        plan_for_title(output, title, only_audio, Some(output))
    }
}

/// When the plan for a relative `--output` is defined: the one branch that
/// takes the file name of the joined path needs it to have one.
pub open spec fn relative_plan_defined(
    output: Seq<char>,
    current_dir: Seq<char>,
    probe: TargetProbe,
) -> bool {
    (probe.try_exists_ok && !probe.is_file && extension_present(output)) ==> file_name_of(
        joined_path(current_dir, output),
    ) is Some
}

/// The plan for a relative `--output`, read against `current_dir`.
pub open spec fn relative_plan(
    output: Seq<char>,
    title: Seq<char>,
    only_audio: bool,
    current_dir: Seq<char>,
    probe: TargetProbe,
) -> PlanView {
    let abs = joined_path(current_dir, output);
    if probe.try_exists_ok {
        if probe.is_file {
            plan_to_file(
                seq_or(parent_path(abs), current_dir),
                abs,
                seq_or(file_stem_of(output), title),
                None,
            )
        } else if extension_present(output) {
            let base = seq_or(parent_path(abs), "/"@);
            plan_in_dir(base, seq_or(file_name_of(abs), title), only_audio, Some(base))
        } else {
            plan_for_title(abs, title, only_audio, Some(abs))
        }
    } else if extension_present(output) {
        let base = seq_or(parent_path(abs), current_dir);
        plan_to_file(base, abs, seq_or(file_stem_of(output), title), Some(base))
    } else {
        plan_for_title(abs, title, only_audio, Some(abs))
    }
}

/// The plan for a (sanitized) title and the `--output` option.
pub open spec fn paths_spec(
    title: Seq<char>,
    output: Option<Seq<char>>,
    only_audio: bool,
    current_dir: Seq<char>,
    probe: TargetProbe,
) -> Option<PlanView> {
    match output {
        None => Some(plan_for_title(current_dir, title, only_audio, None)),
        Some(o) => if absolute_path(o) {
            Some(absolute_plan(o, title, only_audio, probe))
        } else if relative_plan_defined(o, current_dir, probe) {
            Some(relative_plan(o, title, only_audio, current_dir, probe))
        } else {
            None
        },
    }
}

/// The path that the file system is asked about: `--output` itself when
/// absolute, else `--output` read against the working directory.
pub open spec fn target_spec(output: Seq<char>, current_dir: Seq<char>) -> Seq<char> {
    if absolute_path(output) {
        output
    } else {
        joined_path(current_dir, output)
    }
}

/// Without `--output`, the output file is the title with `.mp4` in the
/// working directory, or with `.wav` when only audio is kept, whatever the
/// title holds; the temporary files are named after the title up to its
/// first dot, the whole title where it has none.
pub proof fn law_default_output_names(
    title: Seq<char>,
    only_audio: bool,
    current_dir: Seq<char>,
    probe: TargetProbe,
)
    ensures
        paths_spec(title, None, only_audio, current_dir, probe) matches Some(p) && {
            &&& p.output_file == joined_path(
                current_dir,
                title + "."@ + default_extension(only_audio),
            )
            &&& p.create_dir is None
            &&& first_index_of(title, '.') is None ==> {
                &&& p.video_temp_file == joined_path(current_dir, title + "-video.tmp"@)
                &&& p.audio_temp_file == joined_path(current_dir, title + "-audio.tmp"@)
            }
        },
{
}

/// Wherever the output file is named after the title (no `--output`, or an
/// `--output` without an extension that is not an existing file, absolute
/// or relative), it is the title with `.wav` when only audio is kept and
/// `.mp4` otherwise, in that directory; a title without a dot also names
/// the temporary files.
pub proof fn law_title_output_names(
    title: Seq<char>,
    output: Option<Seq<char>>,
    only_audio: bool,
    current_dir: Seq<char>,
    probe: TargetProbe,
)
    ensures
        ({
            let dir = match output {
                None => current_dir,
                Some(o) => if absolute_path(o) {
                    o
                } else {
                    joined_path(current_dir, o)
                },
            };
            let ext = if only_audio {
                "wav"@
            } else {
                "mp4"@
            };
            (output matches Some(o) ==> !extension_present(o) && !(probe.try_exists_ok
                && probe.is_file)) ==> {
                &&& paths_spec(title, output, only_audio, current_dir, probe) matches Some(p)
                    && p.output_file == joined_path(dir, title + "."@ + ext) && (first_index_of(
                    title,
                    '.',
                ) is None ==> p.video_temp_file == joined_path(dir, title + "-video.tmp"@)
                    && p.audio_temp_file == joined_path(dir, title + "-audio.tmp"@))
            }
        }),
{
}

/// A name given with a dot is used as it is; any other gets `.wav` when
/// only audio is kept and `.mp4` otherwise.
pub proof fn law_output_file_extension(base: Seq<char>, name: Seq<char>, is_audio: bool)
    ensures
        first_index_of(name, '.') is Some ==> output_file_spec(base, name, is_audio)
            == joined_path(base, name),
        first_index_of(name, '.') is None && is_audio ==> output_file_spec(base, name, is_audio)
            == joined_path(base, name + "."@ + "wav"@),
        first_index_of(name, '.') is None && !is_audio ==> output_file_spec(base, name, is_audio)
            == joined_path(base, name + "."@ + "mp4"@),
{
}

/// The temporary files are named after the file name up to its first dot:
/// for `a.b`, where `a` holds no dot, after `a`, whatever `b` holds; a name
/// without a dot names them whole.
pub proof fn law_temp_stem_stops_at_first_dot(a: Seq<char>, b: Seq<char>)
    requires
        forall|k: int| 0 <= k < a.len() ==> a[k] != '.',
    ensures
        temp_stem(a + "."@ + b) == a,
        temp_stem(a) == a,
{
    reveal_strlit(".");
    let s = a + "."@ + b;
    assert forall|k: int| 0 <= k < a.len() implies s[k] != '.' by {
        assert(s[k] == a[k]);
    }
    assert(s[a.len() as int] == '.');
    lemma_first_index_of(s, '.', a.len() as int);
    assert(s.subrange(0, a.len() as int) =~= a);
    lemma_first_index_of(a, '.', a.len() as int);
}

/// The two temporary files of a download get different names.
pub proof fn law_temp_names_differ(file_name: Seq<char>)
    ensures
        temp_stem(file_name) + "-video.tmp"@ != temp_stem(file_name) + "-audio.tmp"@,
{
    reveal_strlit("-video.tmp");
    reveal_strlit("-audio.tmp");
    let stem = temp_stem(file_name);
    let v = stem + "-video.tmp"@;
    let a = stem + "-audio.tmp"@;
    assert(v[stem.len() + 1int] == 'v');
    assert(a[stem.len() + 1int] == 'a');
}

fn stem_for_temp(file_name: &str) -> (res: &str)
    ensures
        res@ == temp_stem(file_name@),
{
    match find_char(file_name, '.') {
        Some(i) => file_name.substring_char(0, i),
        None => file_name,
    }
}

/// The temporary video and audio files for `file_name` in `base_dir`:
/// `<stem>-video.tmp` and `<stem>-audio.tmp`, where the stem is the file
/// name up to its first dot.
pub fn get_temp_paths(base_dir: &str, file_name: &str) -> (res: (String, String))
    ensures
        res.0@ == video_temp_spec(base_dir@, file_name@),
        res.1@ == audio_temp_spec(base_dir@, file_name@),
{
    let stem = stem_for_temp(file_name);
    let mut video = String::from_str(stem);
    video.append("-video.tmp");
    let mut audio = String::from_str(stem);
    audio.append("-audio.tmp");
    (join_path(base_dir, video.as_str()), join_path(base_dir, audio.as_str()))
}

/// The output file for `file_name` in `base_dir`: a name that holds a dot
/// is used as it is; any other gets `.wav` for audio or `.mp4` for video.
pub fn get_output_file(base_dir: &str, file_name: &str, is_audio: bool) -> (res: String)
    ensures
        res@ == output_file_spec(base_dir@, file_name@, is_audio),
{
    if find_char(file_name, '.').is_some() {
        return join_path(base_dir, file_name);
    }
    let mut name = String::from_str(file_name);
    name.append(".");
    if is_audio {
        name.append("wav");
    } else {
        name.append("mp4");
    }
    join_path(base_dir, name.as_str())
}

fn plan_with_name(base: String, name: &str, only_audio: bool, create: bool) -> (res: PathPlan)
    ensures
        res@ == plan_in_dir(base@, name@, only_audio, if create { Some(base@) } else { None }),
{
    let output_file = get_output_file(base.as_str(), name, only_audio);
    let (video_temp_file, audio_temp_file) = get_temp_paths(base.as_str(), name);
    let create_dir = if create { Some(base) } else { None };
    PathPlan { output_file, video_temp_file, audio_temp_file, create_dir }
}

/// The output file for a video's title in `base_dir`: the title followed by
/// `.wav` for audio or `.mp4` for video, also where the title holds a dot.
pub fn title_output_file(base_dir: &str, title: &str, is_audio: bool) -> (res: String)
    ensures
        res@ == title_output_spec(base_dir@, title@, is_audio),
{
    let mut name = String::from_str(title);
    name.append(".");
    if is_audio {
        name.append("wav");
    } else {
        name.append("mp4");
    }
    join_path(base_dir, name.as_str())
}

fn plan_with_title(base: String, title: &str, only_audio: bool, create: bool) -> (res: PathPlan)
    ensures
        res@ == plan_for_title(base@, title@, only_audio, if create { Some(base@) } else { None }),
{
    let output_file = title_output_file(base.as_str(), title, only_audio);
    let (video_temp_file, audio_temp_file) = get_temp_paths(base.as_str(), title);
    let create_dir = if create { Some(base) } else { None };
    PathPlan { output_file, video_temp_file, audio_temp_file, create_dir }
}

fn plan_with_file(base: String, output: String, stem: &str, create: bool) -> (res: PathPlan)
    ensures
        res@ == plan_to_file(base@, output@, stem@, if create { Some(base@) } else { None }),
{
    let (video_temp_file, audio_temp_file) = get_temp_paths(base.as_str(), stem);
    let create_dir = if create { Some(base) } else { None };
    PathPlan { output_file: output, video_temp_file, audio_temp_file, create_dir }
}

fn string_or(o: Option<String>, d: &str) -> (res: String)
    ensures
        res@ == seq_or(opt_string_view(o), d@),
{
    match o {
        Some(s) => s,
        None => String::from_str(d),
    }
}

/// The plan for an absolute `--output`, given what the file system says of
/// it. An existing file is the output itself; an existing directory, or
/// a path without an extension, is the directory to write into; a path with
/// an extension is a file name in its parent directory.
pub fn handle_absolute_path(output_path: &str, title: &str, only_audio: bool, probe: TargetProbe) -> (res:
    PathPlan)
    ensures
        res@ == absolute_plan(output_path@, title@, only_audio, probe),
{
    if probe.try_exists_ok {
        if probe.is_file {
            let base = string_or(parent_of(output_path), "/");
            let stem = string_or(file_stem(output_path), title);
            plan_with_file(base, String::from_str(output_path), stem.as_str(), false)
        } else if has_file_extension(output_path) {
            let base = string_or(parent_of(output_path), "/");
            let name = string_or(file_name(output_path), title);
            plan_with_name(base, name.as_str(), only_audio, true)
        } else {
            plan_with_title(String::from_str(output_path), title, only_audio, true)
        }
    } else if has_file_extension(output_path) {
        let base = string_or(parent_of(output_path), "/");
        let stem = string_or(file_stem(output_path), title);
        plan_with_file(base, String::from_str(output_path), stem.as_str(), true)
    } else {
        plan_with_title(String::from_str(output_path), title, only_audio, true)
    }
}

/// The plan for a relative `--output`, read against `current_dir`, given
/// what the file system says of the joined path.
pub fn handle_relative_path(
    output_path: &str,
    title: &str,
    only_audio: bool,
    current_dir: &str,
    probe: TargetProbe,
) -> (res: PathPlan)
    requires
        relative_plan_defined(output_path@, current_dir@, probe),
    ensures
        res@ == relative_plan(output_path@, title@, only_audio, current_dir@, probe),
{
    let abs = join_path(current_dir, output_path);
    if probe.try_exists_ok {
        if probe.is_file {
            let base = string_or(parent_of(abs.as_str()), current_dir);
            let stem = string_or(file_stem(output_path), title);
            plan_with_file(base, abs, stem.as_str(), false)
        } else if has_file_extension(output_path) {
            let base = string_or(parent_of(abs.as_str()), "/");
            let name = string_or(file_name(abs.as_str()), title);
            plan_with_name(base, name.as_str(), only_audio, true)
        } else {
            plan_with_title(abs, title, only_audio, true)
        }
    } else if has_file_extension(output_path) {
        let base = string_or(parent_of(abs.as_str()), current_dir);
        let stem = string_or(file_stem(output_path), title);
        plan_with_file(base, abs, stem.as_str(), true)
    } else {
        plan_with_title(abs, title, only_audio, true)
    }
}

/// The path to ask the file system about before planning: `output` when it
/// is absolute, else `output` read against `current_dir`.
pub fn output_target(output: &str, current_dir: &str) -> (res: String)
    ensures
        res@ == target_spec(output@, current_dir@),
{
    if is_absolute_path(output) {
        String::from_str(output)
    } else {
        join_path(current_dir, output)
    }
}

/// The plan for an already sanitized title. Without `--output` everything
/// goes to `current_dir`; with it, see [`handle_absolute_path`] and
/// [`handle_relative_path`]. `None` where a relative `--output` with an
/// extension names an existing non-file whose joined path has no file name.
pub fn plan_paths(title: &str, cmd_option: &Cli, current_dir: &str, probe: TargetProbe) -> (res:
    Option<PathPlan>)
    ensures
        opt_plan_view(res) == paths_spec(
            title@,
            opt_string_view(cmd_option.output),
            cmd_option.only_audio,
            current_dir@,
            probe,
        ),
{
    match &cmd_option.output {
        None => Some(plan_with_title(String::from_str(current_dir), title, cmd_option.only_audio, false)),
        Some(o) => {
            let o: &str = o.as_str();
            if is_absolute_path(o) {
                Some(handle_absolute_path(o, title, cmd_option.only_audio, probe))
            } else {
                if probe.try_exists_ok && !probe.is_file && has_file_extension(o) {
                    let abs = join_path(current_dir, o);
                    if file_name(abs.as_str()).is_none() {
                        return None;
                    }
                }
                Some(handle_relative_path(o, title, cmd_option.only_audio, current_dir, probe))
            }
        },
    }
}

/// The output and temporary files for a video titled `title`. The title is
/// sanitized for use as a file name first, as `sanitize_filename` does it on
/// the platform built for; the plan is then that of [`plan_paths`] for the
/// sanitized name, which is the title itself where the title is clean.
pub fn get_paths(title: &str, cmd_option: &Cli, current_dir: &str, probe: TargetProbe) -> (res:
    Option<PathPlan>)
    ensures
        opt_plan_view(res) == paths_spec(
            sanitized_other(title@),
            opt_string_view(cmd_option.output),
            cmd_option.only_audio,
            current_dir@,
            probe,
        ) || opt_plan_view(res) == paths_spec(
            sanitized_windows(title@),
            opt_string_view(cmd_option.output),
            cmd_option.only_audio,
            current_dir@,
            probe,
        ),
        clean_title(title@) ==> opt_plan_view(res) == paths_spec(
            title@,
            opt_string_view(cmd_option.output),
            cmd_option.only_audio,
            current_dir@,
            probe,
        ),
{
    let name = sanitize_title(title);
    proof {
        if clean_title(title@) {
            lemma_clean_title_kept(title@);
        }
    }
    let res = plan_paths(name.as_str(), cmd_option, current_dir, probe);
    res
}

} // verus!
