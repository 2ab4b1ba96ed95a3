//! Small settings files kept beside the database, and backup file names.

use vstd::prelude::*;
use crate::text::{chars_of, push_str_chars, seq_ends_with, string_of};

verus! {

/// Whether `c` separates path components (`/` everywhere, `\\` on Windows).
pub open spec fn is_path_sep(c: char) -> bool {
    c == '/' || c == '\\'
}

/// A plain file name: not empty, without separators or `:`, and not `.` or `..`.
pub open spec fn plain_name(f: Seq<char>) -> bool {
    &&& f.len() > 0
    &&& forall|i: int| 0 <= i < f.len() ==> !is_path_sep(#[trigger] f[i]) && f[i] != ':'
    &&& f != "."@
    &&& f != ".."@
}

/// A directory part that every platform keeps as written: not empty, not
/// starting with two separators (network and verbatim prefixes), and ending
/// neither with a separator nor with a `.` component.
pub open spec fn plain_dir(d: Seq<char>) -> bool {
    &&& d.len() > 0
    &&& !(d.len() >= 2 && is_path_sep(d[0]) && is_path_sep(d[1]))
    &&& !is_path_sep(d.last())
    &&& !(d.last() == '.' && (d.len() == 1 || is_path_sep(d[d.len() - 2])))
}

/// What replacing the file name of `path` by the plain name `name` gives, where
/// the platforms agree: an empty path or a bare file name gives `name` alone; a
/// path `d/f` with a plain directory part `d` and a plain file name `f` gives `d`,
/// a separator (`/`, or `\\` on Windows) and `name`.
pub open spec fn sibling_of(path: Seq<char>, name: Seq<char>, res: Seq<char>) -> bool {
    &&& seq_ends_with(res, name)
    &&& (path.len() == 0 || plain_name(path)) ==> res == name
    &&& forall|d: Seq<char>, f: Seq<char>|
        plain_dir(d) && plain_name(f) && path == #[trigger] (d + seq!['/'] + f)
            ==> res == d + seq!['/'] + name || res == d + seq!['\\'] + name
}

/// The path of a file named `file_name` in the directory of `path`
/// (`std::path::Path::with_file_name`, which pops the last component and pushes
/// the new name). Stated: for a plain name, the result ends with it; an empty
/// path or a bare file name gives the name alone; a path made of a plain directory
/// part, `/` and a plain file name keeps that directory part, followed by the
/// platform's separator and the new name. Other paths (Windows prefixes,
/// trailing separators or `.` components) follow the platform's path rules and
/// are left unsaid.
#[verifier::external_body]
fn sibling_path(path: &str, file_name: &str) -> (res: String)
    requires
        plain_name(file_name@),
    ensures
        sibling_of(path@, file_name@, res@),
{
    std::path::Path::new(path).with_file_name(file_name).to_string_lossy().into_owned()
}

/// Where the payment QR code setting is kept: `payment-config.json` beside the
/// database file.
pub fn payment_config_path(db_path: &str) -> (res: String)
    ensures
        sibling_of(db_path@, "payment-config.json"@, res@),
{
    proof {
        reveal_strlit("payment-config.json");
        let n = "payment-config.json"@;
        assert forall|i: int| 0 <= i < n.len() implies !is_path_sep(#[trigger] n[i]) && n[i] != ':' by {}
        reveal_strlit(".");
        reveal_strlit("..");
        assert(n.len() != "."@.len() && n.len() != ".."@.len());
    }
    sibling_path(db_path, "payment-config.json")
}

/// Where the automatic printing settings are kept: `auto-print-config.json`
/// beside the database file.
pub fn auto_print_config_path(db_path: &str) -> (res: String)
    ensures
        sibling_of(db_path@, "auto-print-config.json"@, res@),
{
    proof {
        reveal_strlit("auto-print-config.json");
        let n = "auto-print-config.json"@;
        assert forall|i: int| 0 <= i < n.len() implies !is_path_sep(#[trigger] n[i]) && n[i] != ':' by {}
        reveal_strlit(".");
        reveal_strlit("..");
        assert(n.len() != "."@.len() && n.len() != ".."@.len());
    }
    sibling_path(db_path, "auto-print-config.json")
}

/// Where a database restore is staged until the next start: `pending_restore.db`
/// beside the database file.
pub fn pending_restore_path(db_path: &str) -> (res: String)
    ensures
        sibling_of(db_path@, "pending_restore.db"@, res@),
{
    proof {
        reveal_strlit("pending_restore.db");
        let n = "pending_restore.db"@;
        assert forall|i: int| 0 <= i < n.len() implies !is_path_sep(#[trigger] n[i]) && n[i] != ':' by {}
        reveal_strlit(".");
        reveal_strlit("..");
        assert(n.len() != "."@.len() && n.len() != ".."@.len());
    }
    sibling_path(db_path, "pending_restore.db")
}

/// Which documents are printed automatically.
pub struct AutoPrintSettings {
    pub kitchen: bool,
    pub po: bool,
    pub receipt: bool,
}

impl AutoPrintSettings {
    /// The settings read from a file: each flag that is missing or not a boolean
    /// is off.
    pub fn from_flags(kitchen: Option<bool>, po: Option<bool>, receipt: Option<bool>) -> (res: Self)
        ensures
            res.kitchen == (kitchen == Some(true)),
            res.po == (po == Some(true)),
            res.receipt == (receipt == Some(true)),
    {
        AutoPrintSettings {
            kitchen: match kitchen { Some(b) => b, None => false },
            po: match po { Some(b) => b, None => false },
            receipt: match receipt { Some(b) => b, None => false },
        }
    }
}

impl Default for AutoPrintSettings {
    /// Nothing is printed automatically until the owner turns it on.
    fn default() -> (res: Self)
        ensures
            !res.kitchen && !res.po && !res.receipt,
    {
        AutoPrintSettings { kitchen: false, po: false, receipt: false }
    }
}

/// The file name of a database backup taken at `stamp` (`YYYYmmdd_HHMMSS`).
pub fn backup_file_name(stamp: &str) -> (res: String)
    ensures
        res@ == "cuckoo_"@ + stamp@ + ".db"@,
{
    let mut v = chars_of("cuckoo_");
    push_str_chars(&mut v, stamp);
    push_str_chars(&mut v, ".db");
    string_of(&v)
}

/// The file name of the safety copy taken at `stamp` before a restore.
pub fn pre_restore_file_name(stamp: &str) -> (res: String)
    ensures
        res@ == "cuckoo_pre_restore_"@ + stamp@ + ".db"@,
{
    let mut v = chars_of("cuckoo_pre_restore_");
    push_str_chars(&mut v, stamp);
    push_str_chars(&mut v, ".db");
    string_of(&v)
}

} // verus!
