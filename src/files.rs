//! Directory listings for the file-transfer collaborator: how a remote
//! directory's entries are turned into the records shown to the user.
use vstd::prelude::*;
use vstd::string::*;
use crate::text::{decimal, decimal_u128, format_mode, get_parent_path, path_parent, rwx, type_char};

verus! {

/// One entry of a directory listing. `modified` is in seconds since the
/// Unix epoch.
#[derive(Debug, Clone)]
pub struct FileEntry {
    pub name: String,
    pub path: String,
    pub is_dir: bool,
    pub size: u64,
    pub modified: Option<i64>,
    pub permissions: Option<String>,
    pub owner: Option<String>,
    pub group: Option<String>,
}

/// The path of `name` inside directory `dir`.
pub open spec fn joined(dir: Seq<char>, name: Seq<char>) -> Seq<char> {
    if dir.len() > 0 && dir.last() == '/' {
        dir + name
    } else {
        dir + "/"@ + name
    }
}

/// Joins a directory and an entry name with one `/`.
pub fn join_path(dir: &str, name: &str) -> (r: String)
    ensures
        r@ == joined(dir@, name@),
{
    let n = dir.unicode_len();
    let mut r = String::from_str(dir);
    if !(n > 0 && dir.get_char(n - 1) == '/') {
        r.append("/");
    }
    r.append(name);
    r
}

/// The text of an optional number.
pub open spec fn opt_decimal(n: Option<u32>) -> Option<Seq<char>> {
    match n {
        Some(v) => Some(decimal(v as nat)),
        None => None,
    }
}

/// The views of an optional text.
pub open spec fn opt_view(s: Option<String>) -> Option<Seq<char>> {
    match s {
        Some(t) => Some(t@),
        None => None,
    }
}

fn decimal_opt(n: Option<u32>) -> (r: Option<String>)
    ensures
        opt_view(r) == opt_decimal(n),
{
    match n {
        Some(v) => Some(decimal_u128(v as u128)),
        None => None,
    }
}

/// The record of one remote entry of directory `dir`, from its name and
/// attributes: the path joins the two, a missing size counts as zero, the
/// mode becomes a permission string, and owner and group ids become text.
pub fn listing_entry(
    dir: &str,
    name: String,
    is_dir: bool,
    size: Option<u64>,
    mtime: Option<u32>,
    mode: Option<u32>,
    uid: Option<u32>,
    gid: Option<u32>,
) -> (r: FileEntry)
    ensures
        r.name == name,
        r.path@ == joined(dir@, name@),
        r.is_dir == is_dir,
        r.size == match size {
            Some(s) => s,
            None => 0,
        },
        r.modified == match mtime {
            Some(t) => Some(t as i64),
            None => None::<i64>,
        },
        opt_view(r.permissions) == match mode {
            Some(m) => Some(seq![type_char(m)] + rwx(m)),
            None => None,
        },
        opt_view(r.owner) == opt_decimal(uid),
        opt_view(r.group) == opt_decimal(gid),
{
    let path = join_path(dir, name.as_str());
    let permissions = match mode {
        Some(m) => Some(format_mode(m)),
        None => None,
    };
    FileEntry {
        name,
        path,
        is_dir,
        size: match size {
            Some(s) => s,
            None => 0,
        },
        modified: match mtime {
            Some(t) => Some(t as i64),
            None => None,
        },
        permissions,
        owner: decimal_opt(uid),
        group: decimal_opt(gid),
    }
}

/// The `..` entry that leads a listing of any directory but the root.
pub fn parent_entry(path: &str) -> (r: Option<FileEntry>)
    ensures
        r is None <==> path@ == "/"@,
        r matches Some(e) ==> {
            &&& e.name@ == ".."@
            &&& e.path@ == match path_parent(path@) {
                Some(p) => p,
                None => "/"@,
            }
            &&& e.is_dir
            &&& e.size == 0
            &&& e.modified is None
            &&& opt_view(e.permissions) == Some("drwxr-xr-x"@)
            &&& e.owner is None
            &&& e.group is None
        },
{
    if path.to_owned() == "/".to_owned() {
        return None;
    }
    Some(FileEntry {
        name: String::from_str(".."),
        path: get_parent_path(path),
        is_dir: true,
        size: 0,
        modified: None,
        permissions: Some(String::from_str("drwxr-xr-x")),
        owner: None,
        group: None,
    })
}

} // verus!
