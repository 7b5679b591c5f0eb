//! Names of the log files that are created in a directory.

use crate::host::{file_stem_of, path_file_stem, slice_text, text};
use vstd::prelude::*;
use vstd::string::StringExecFns;

verus! {

/// The program name for generated file names where the executable's own is unknown.
pub const PACKAGE_NAME: &'static str = "lloggs";

/// How the time is rendered in generated file names: `YYYY-MM-DDTHH-MM-SSZ`.
pub const STAMP_FORMAT: &'static str = "[year]-[month]-[day]T[hour]-[minute]-[second]Z";

/// What stands in a generated file name where no time could be rendered.
pub const STAMP_FALLBACK: &'static str = "debug";

/// The program name, given the stem of the executable's path.
pub open spec fn spec_program_name_from(stem: Option<Seq<char>>) -> Seq<char> {
    match stem {
        Some(stem) => stem,
        None => PACKAGE_NAME@,
    }
}

/// The program name, given the executable's path.
pub open spec fn spec_program_name(exe: Option<Seq<char>>) -> Seq<char> {
    match exe {
        Some(path) => spec_program_name_from(path_file_stem(path)),
        None => PACKAGE_NAME@,
    }
}

/// The name of a log file created in a directory: `{progname}.{stamp}.log`.
pub open spec fn spec_log_file_name(progname: Seq<char>, stamp: Option<Seq<char>>) -> Seq<char> {
    let stamp = match stamp {
        Some(stamp) => stamp,
        None => STAMP_FALLBACK@,
    };
    progname + "."@ + stamp + ".log"@
}

/// Whether `c` is white space, as Unicode defines it.
pub open spec fn is_space(c: char) -> bool {
    ||| '\u{9}' <= c <= '\u{d}'
    ||| c == ' '
    ||| c == '\u{85}'
    ||| c == '\u{a0}'
    ||| c == '\u{1680}'
    ||| '\u{2000}' <= c <= '\u{200a}'
    ||| c == '\u{2028}'
    ||| c == '\u{2029}'
    ||| c == '\u{202f}'
    ||| c == '\u{205f}'
    ||| c == '\u{3000}'
}

/// Whether `c` may stand at place `i` of a rendered time `YYYY-MM-DDTHH-MM-SSZ`.
pub open spec fn fits_stamp(i: int, c: char) -> bool {
    if i == 4 || i == 7 || i == 13 || i == 16 {
        c == '-'
    } else if i == 10 {
        c == 'T'
    } else if i == 19 {
        c == 'Z'
    } else {
        '0' <= c <= '9'
    }
}

/// Whether `s` has the shape `YYYY-MM-DDTHH-MM-SSZ`, each letter but `T` and `Z` a digit.
pub open spec fn is_stamp(s: Seq<char>) -> bool {
    &&& s.len() == 20
    &&& forall|i: int| 0 <= i < 20 ==> fits_stamp(i, #[trigger] s[i])
}

/// Whether `name` has the shape `{progname}.YYYY-MM-DDTHH-MM-SSZ.log`, with a program name
/// of at least one character and without white space.
pub open spec fn is_stamped_name(name: Seq<char>) -> bool {
    &&& name.len() > 25
    &&& forall|i: int| 0 <= i < name.len() - 25 ==> !is_space(#[trigger] name[i])
    &&& name[name.len() - 25] == '.'
    &&& is_stamp(name.subrange(name.len() - 24, name.len() - 4))
    &&& name.subrange(name.len() - 4, name.len() as int) == ".log"@
}

/// The program name, given the stem of the executable's path: the stem, or the name of this
/// package where there is none.
pub fn program_name_from(stem: Option<String>) -> (name: String)
    ensures
        name@ == spec_program_name_from(text(stem)),
{
    match stem {
        Some(stem) => stem,
        None => PACKAGE_NAME.to_owned(),
    }
}

/// The program name for generated file names: the stem of the executable's path, or the name
/// of this package where the path is unknown or has no stem.
pub fn program_name(exe: Option<&str>) -> (name: String)
    ensures
        name@ == spec_program_name(slice_text(exe)),
{
    match exe {
        Some(path) => program_name_from(file_stem_of(path)),
        None => PACKAGE_NAME.to_owned(),
    }
}

/// The name of a log file created in a directory, given the rendered time.
///
/// Where `stamp` is `None`, `debug` stands in its place.
pub fn log_file_name(progname: &str, stamp: Option<&str>) -> (name: String)
    ensures
        name@ == spec_log_file_name(progname@, slice_text(stamp)),
{
    let mut name = progname.to_owned();
    name.append(".");
    match stamp {
        Some(stamp) => name.append(stamp),
        None => name.append(STAMP_FALLBACK),
    }
    name.append(".log");
    name
}

/// A generated file name has the shape `{progname}.YYYY-MM-DDTHH-MM-SSZ.log` wherever the
/// program name is not empty and free of white space and the time was rendered in the shape
/// `YYYY-MM-DDTHH-MM-SSZ`.
pub proof fn lemma_generated_name_is_stamped(progname: Seq<char>, stamp: Seq<char>)
    requires
        progname.len() > 0,
        forall|i: int| 0 <= i < progname.len() ==> !is_space(#[trigger] progname[i]),
        is_stamp(stamp),
    ensures
        is_stamped_name(spec_log_file_name(progname, Some(stamp))),
{
    reveal_strlit(".");
    reveal_strlit(".log");
    let name = spec_log_file_name(progname, Some(stamp));
    assert(name.len() == progname.len() + 25);
    assert(name.subrange(name.len() - 24, name.len() - 4) =~= stamp);
    assert(name.subrange(name.len() - 4, name.len() as int) =~= ".log"@);
}

} // verus!
