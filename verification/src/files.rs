use vstd::prelude::*;

verus! {

/// The pattern of the local time stamped into file names: year, month, day,
/// hour, minute and second, separated by underscores.
pub const TIMESTAMP_FORMAT: &'static str = "%Y_%m_%d_%H_%M_%S";

/// A strftime pattern whose every `%` introduces one of the year, month, day,
/// hour, minute or second fields.
pub open spec fn plain_time_pattern(pattern: Seq<char>) -> bool {
    forall|i: int|
        0 <= i < pattern.len() && #[trigger] pattern[i] == '%' ==> i + 1 < pattern.len() && (pattern[i + 1] == 'Y'
            || pattern[i + 1] == 'm' || pattern[i + 1] == 'd' || pattern[i + 1] == 'H' || pattern[i + 1] == 'M'
            || pattern[i + 1] == 'S')
}

/// A decimal digit.
pub open spec fn is_digit(c: char) -> bool {
    '0' <= c <= '9'
}

/// A year as chrono's `%Y` writes it: four digits, zero-padded, or, for years
/// outside 0 to 9999, a sign followed by at least four digits.
pub open spec fn year_field(year: Seq<char>) -> bool {
    ||| year.len() == 4 && forall|i: int| 0 <= i < 4 ==> is_digit(#[trigger] year[i])
    ||| year.len() >= 5 && (year[0] == '+' || year[0] == '-') && forall|i: int|
        1 <= i < year.len() ==> is_digit(#[trigger] year[i])
}

/// Text written after `TIMESTAMP_FORMAT`: the year, then five fields of two
/// digits (month, day, hour, minute, second), each after an underscore.
pub open spec fn stamp_shape(stamp: Seq<char>) -> bool {
    &&& stamp.len() >= 19
    &&& year_field(stamp.subrange(0, stamp.len() - 15))
    &&& forall|k: int|
        0 <= k < 15 ==> if k % 3 == 0 {
            #[trigger] stamp[stamp.len() - 15 + k] == '_'
        } else {
            is_digit(stamp[stamp.len() - 15 + k])
        }
}

/// `chrono::Local::now().format(pattern).to_string()`: the local time written
/// after `pattern`. The text depends on the clock and the time zone; for
/// `TIMESTAMP_FORMAT` chrono's documentation of `%Y` (zero-padded to four
/// digits, signed outside 0 to 9999) and of `%m`, `%d`, `%H`, `%M`, `%S` (two
/// zero-padded digits each) gives its shape, and nothing more is claimed.
/// The pattern holds only fields that chrono formats without error, so the
/// conversion to a string does not panic.
#[verifier::external_body]
fn local_time_formatted(pattern: &str) -> (text: String)
    requires
        plain_time_pattern(pattern@),
    ensures
        pattern@ == TIMESTAMP_FORMAT@ ==> stamp_shape(text@),
{
    chrono::Local::now().format(pattern).to_string()
}

/// The current local time as `TIMESTAMP_FORMAT` writes it.
pub fn timestamp_now() -> (stamp: String)
    ensures
        stamp_shape(stamp@),
{
    proof {
        reveal_strlit("%Y_%m_%d_%H_%M_%S");
        assert(plain_time_pattern(TIMESTAMP_FORMAT@));
    }
    local_time_formatted(TIMESTAMP_FORMAT)
}

/// `screenshot_` followed by the time stamp.
pub open spec fn file_stem(stamp: Seq<char>) -> Seq<char> {
    "screenshot_"@ + stamp
}

/// The stem, a dot and the extension.
pub open spec fn file_name(stamp: Seq<char>, ext: Seq<char>) -> Seq<char> {
    file_stem(stamp) + "."@ + ext
}

/// A screenshot's name is "screenshot_", the stamp, a dot and the extension,
/// in that order, so the stamp and the extension can be read back from it.
pub proof fn lemma_file_name_parts(stamp: Seq<char>, ext: Seq<char>)
    ensures
        (file_name(stamp, ext).len() as int) == 12 + (stamp.len() as int) + (ext.len() as int),
        file_name(stamp, ext).subrange(0, 11) == "screenshot_"@,
        file_name(stamp, ext).subrange(11, 11 + (stamp.len() as int)) == stamp,
        file_name(stamp, ext)[11 + (stamp.len() as int)] == '.',
        file_name(stamp, ext).subrange(12 + (stamp.len() as int), (file_name(stamp, ext).len() as int)) == ext,
        file_stem(stamp) == file_name(stamp, ext).subrange(0, 11 + (stamp.len() as int)),
{
    reveal_strlit("screenshot_");
    reveal_strlit(".");
    let name = file_name(stamp, ext);
    assert(name.subrange(0, 11) =~= "screenshot_"@);
    assert(name.subrange(11, 11 + (stamp.len() as int)) =~= stamp);
    assert(name.subrange(12 + (stamp.len() as int), (name.len() as int)) =~= ext);
    assert(file_stem(stamp) =~= name.subrange(0, 11 + (stamp.len() as int)));
}

/// The "Save as" target keeps the chosen path as its beginning; off a Mac a
/// dot and the extension follow it, on a Mac nothing does.
pub proof fn lemma_save_as_target(chosen: Seq<char>, ext: Seq<char>, on_macos: bool)
    ensures
        save_as_target(chosen, ext, on_macos).subrange(0, (chosen.len() as int)) == chosen,
        on_macos ==> save_as_target(chosen, ext, on_macos).len() == (chosen.len() as int),
        !on_macos ==> save_as_target(chosen, ext, on_macos).len() == (chosen.len() as int) + 1 + (ext.len() as int),
        !on_macos ==> save_as_target(chosen, ext, on_macos)[(chosen.len() as int)] == '.',
        !on_macos ==> save_as_target(chosen, ext, on_macos).subrange((chosen.len() as int) + 1, (chosen.len() as int) + 1 + (ext.len() as int)) == ext,
{
    reveal_strlit(".");
    let t = save_as_target(chosen, ext, on_macos);
    assert(t.subrange(0, (chosen.len() as int)) =~= chosen);
    if !on_macos {
        assert(t.subrange((chosen.len() as int) + 1, (chosen.len() as int) + 1 + (ext.len() as int)) =~= ext);
    }
}

/// The name offered for a screenshot taken at `stamp`, without extension.
pub fn screenshot_file_stem(stamp: &str) -> (name: String)
    ensures
        name@ == file_stem(stamp@),
{
    String::from_str("screenshot_").concat(stamp)
}

/// The name of a screenshot taken at `stamp` and saved with extension `ext`.
pub fn screenshot_file_name(stamp: &str, ext: &str) -> (name: String)
    ensures
        name@ == file_name(stamp@, ext@),
{
    let name = screenshot_file_stem(stamp).concat(".");
    name.concat(ext)
}

/// The name under which a screenshot taken now is saved with extension `ext`.
pub fn new_screenshot_file_name(ext: &str) -> (name: String)
    ensures
        exists|stamp: Seq<char>| stamp_shape(stamp) && name@ == #[trigger] file_name(stamp, ext@),
{
    let stamp = timestamp_now();
    screenshot_file_name(stamp.as_str(), ext)
}

/// The name offered in the "Save as" dialog for a screenshot taken now.
pub fn new_screenshot_file_stem() -> (name: String)
    ensures
        exists|stamp: Seq<char>| stamp_shape(stamp) && name@ == #[trigger] file_stem(stamp),
{
    let stamp = timestamp_now();
    screenshot_file_stem(stamp.as_str())
}

/// The path to save to when the user picked `chosen` in the "Save as" dialog:
/// on Mac the dialog adds the extension itself; elsewhere a dot and `ext` are
/// appended.
pub open spec fn save_as_target(chosen: Seq<char>, ext: Seq<char>, on_macos: bool) -> Seq<char> {
    if on_macos {
        chosen
    } else {
        chosen + "."@ + ext
    }
}

/// The path to save to when the user picked `chosen` in the "Save as" dialog.
pub fn save_as_path(chosen: &str, ext: &str, on_macos: bool) -> (path: String)
    ensures
        path@ == save_as_target(chosen@, ext@, on_macos),
{
    if on_macos {
        String::from_str(chosen)
    } else {
        String::from_str(chosen).concat(".").concat(ext)
    }
}

} // verus!
