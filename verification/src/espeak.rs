//! Where the phonemizer finds its data.

use std::path::PathBuf;

use vstd::prelude::*;
use vstd::string::*;

use crate::paths::{join, joined};
use crate::state::opt_text;
use crate::text::{has_suffix, same_text};

verus! {

/// A place where the data may be, and whether it is a directory.
#[derive(Debug, PartialEq, Eq)]
pub struct Candidate {
    pub path: PathBuf,
    pub is_dir: bool,
}

/// Who named the data directory.
#[derive(Clone, Copy, Debug, PartialEq, Eq, Structural)]
pub enum DataSource {
    Environment,
    Bundle,
    Development,
}

/// The path of a candidate that is a directory.
pub open spec fn usable(candidate: Option<Candidate>) -> Option<PathBuf> {
    match candidate {
        Some(c) => if c.is_dir {
            Some(c.path)
        } else {
            None
        },
        None => None,
    }
}

/// Takes the path of a candidate that is a directory.
fn take_usable(candidate: Option<Candidate>) -> (path: Option<PathBuf>)
    ensures
        path == usable(candidate),
{
    match candidate {
        Some(c) => if c.is_dir {
            Some(c.path)
        } else {
            None
        },
        None => None,
    }
}

/// The first of three candidates that is a directory, and who named it.
pub open spec fn picked_data(
    env: Option<Candidate>,
    bundle: Option<Candidate>,
    dev: Option<Candidate>,
) -> Option<(DataSource, PathBuf)> {
    if usable(env) is Some {
        Some((DataSource::Environment, usable(env)->0))
    } else if usable(bundle) is Some {
        Some((DataSource::Bundle, usable(bundle)->0))
    } else if usable(dev) is Some {
        Some((DataSource::Development, usable(dev)->0))
    } else {
        None
    }
}

/// Picks the data directory: the environment's, or else the application
/// bundle's, or else that of the development build.
pub fn init_espeak_data_path(
    env: Option<Candidate>,
    bundle: Option<Candidate>,
    dev: Option<Candidate>,
) -> (picked: Option<(DataSource, PathBuf)>)
    ensures
        picked == picked_data(env, bundle, dev),
{
    if let Some(path) = take_usable(env) {
        return Some((DataSource::Environment, path));
    }
    if let Some(path) = take_usable(bundle) {
        return Some((DataSource::Bundle, path));
    }
    match take_usable(dev) {
        Some(path) => Some((DataSource::Development, path)),
        None => None,
    }
}

/// A path without what names no entry at its end: slashes, and dots that stand
/// for a directory itself. The root stays.
pub open spec fn tidied(path: Seq<char>) -> Seq<char>
    decreases path.len(),
{
    if path.len() > 1 && path.last() == '/' {
        tidied(path.drop_last())
    } else if path.len() > 1 && has_suffix(path, "/."@) {
        tidied(path.drop_last())
    } else {
        path
    }
}

/// A path up to and with its last slash, nothing where it has none.
pub open spec fn up_to_slash(path: Seq<char>) -> Seq<char>
    decreases path.len(),
{
    if path.len() == 0 || path.last() == '/' {
        path
    } else {
        up_to_slash(path.drop_last())
    }
}

/// The directory that holds what is at `path`. The root and the empty path are
/// held by none.
pub open spec fn parent_dir(path: Seq<char>) -> Option<Seq<char>> {
    let entry = tidied(path);
    if entry.len() == 0 || entry == "/"@ {
        None
    } else {
        Some(tidied(up_to_slash(entry)))
    }
}

/// Where the data are in the application bundle of an executable: the executable
/// is two directories below the bundle's contents, the data are among the
/// contents' resources.
pub open spec fn bundled_data(exe: Seq<char>) -> Option<Seq<char>> {
    match parent_dir(exe) {
        Some(dir) => match parent_dir(dir) {
            Some(contents) => Some(joined(joined(contents, "Resources"@), "espeak-ng-data"@)),
            None => None,
        },
        None => None,
    }
}

/// Strips what names no entry at the end of a path.
fn tidy(path: &str) -> (entry: String)
    ensures
        entry@ == tidied(path@),
{
    let n: usize = path.unicode_len();
    let mut end: usize = n;
    assert(path@.take(n as int) =~= path@);
    proof {
        reveal_strlit("/.");
    }
    loop
        invariant
            n == path@.len(),
            end <= n,
            "/."@ == seq!['/', '.'],
            tidied(path@.take(end as int)) == tidied(path@),
        ensures
            end <= n,
            path@.take(end as int) == tidied(path@),
        decreases end,
    {
        let ghost here = path@.take(end as int);
        assert(end > 0 ==> here.drop_last() =~= path@.take(end - 1));
        if end > 1 && path.get_char(end - 1) == '/' {
            end = end - 1;
        } else if end > 1 && path.get_char(end - 1) == '.' && path.get_char(end - 2) == '/' {
            assert(here.skip(here.len() - 2) =~= "/."@);
            end = end - 1;
        } else {
            assert(!has_suffix(here, "/."@)) by {
                if has_suffix(here, "/."@) {
                    assert(here.skip(here.len() - 2)[0] == '/');
                    assert(here.skip(here.len() - 2)[1] == '.');
                }
            }
            break;
        }
    }
    assert(path@.subrange(0, end as int) =~= path@.take(end as int));
    path.substring_char(0, end).to_owned()
}

/// The directory that holds what is at `path`.
fn parent(path: &str) -> (dir: Option<String>)
    ensures
        opt_text(dir) == parent_dir(path@),
{
    let tidied_path = tidy(path);
    let entry = tidied_path.as_str();
    let n: usize = entry.unicode_len();
    if n == 0 || same_text(entry, "/") {
        return None;
    }
    let mut end: usize = n;
    assert(entry@.take(n as int) =~= entry@);
    while end > 0 && entry.get_char(end - 1) != '/'
        invariant
            n == entry@.len(),
            end <= n,
            up_to_slash(entry@.take(end as int)) == up_to_slash(entry@),
        ensures
            end <= n,
            entry@.take(end as int) == up_to_slash(entry@),
        decreases end,
    {
        assert(entry@.take(end as int).drop_last() =~= entry@.take(end - 1));
        end = end - 1;
    }
    assert(entry@.subrange(0, end as int) =~= entry@.take(end as int));
    Some(tidy(entry.substring_char(0, end)))
}

/// Finds where the data are in the application bundle of the executable at
/// `exe`.
pub fn bundled_data_path(exe: &str) -> (path: Option<String>)
    ensures
        opt_text(path) == bundled_data(exe@),
{
    match parent(exe) {
        Some(dir) => match parent(dir.as_str()) {
            Some(contents) => {
                let resources = join(contents.as_str(), "Resources");
                Some(join(resources.as_str(), "espeak-ng-data"))
            },
            None => None,
        },
        None => None,
    }
}

/// A directory is taken as it is; what is missing or no directory is not taken.
pub proof fn only_directories_are_usable(path: PathBuf)
    ensures
        usable(Some(Candidate { path, is_dir: true })) == Some(path),
        usable(Some(Candidate { path, is_dir: false })) is None,
        usable(None) is None,
{
}

/// Whether a text can be the name of a directory entry.
pub open spec fn is_entry_name(name: Seq<char>) -> bool {
    name.len() > 0 && !name.contains('/') && name != "."@
}

/// Whether a path names an entry up to its end.
pub open spec fn is_tidy(path: Seq<char>) -> bool {
    path.len() > 0 && path.last() != '/' && !has_suffix(path, "/."@)
}

/// A path that ends in the name of an entry is tidy.
proof fn entry_is_tidy(dir: Seq<char>, name: Seq<char>)
    requires
        is_entry_name(name),
    ensures
        is_tidy(dir.push('/') + name),
        tidied(dir.push('/') + name) == dir.push('/') + name,
{
    reveal_strlit("/.");
    reveal_strlit(".");
    let path = dir.push('/') + name;
    assert(path.last() == name.last());
    assert(name.contains(name.last()));
    if has_suffix(path, "/."@) {
        let end = path.skip(path.len() - 2);
        assert(end[0] == '/' && end[1] == '.');
        if name.len() == 1 {
            assert(name =~= "."@);
        } else {
            assert(path[path.len() - 2] == name[name.len() - 2]);
            assert(name.contains(name[name.len() - 2]));
        }
    }
}

/// What is before the name of an entry is what is up to the last slash.
proof fn name_is_cut_off(front: Seq<char>, name: Seq<char>)
    requires
        front.len() > 0,
        front.last() == '/',
        !name.contains('/'),
    ensures
        up_to_slash(front + name) == front,
    decreases name.len(),
{
    if name.len() == 0 {
        assert(front + name =~= front);
    } else {
        let path = front + name;
        assert(path.last() == name.last());
        assert(name.contains(name.last()));
        assert(path.drop_last() =~= front + name.drop_last());
        assert forall|c: char| name.drop_last().contains(c) implies name.contains(c) by {
            let i = choose|i: int| 0 <= i < name.drop_last().len() && name.drop_last()[i] == c;
            assert(name[i] == c);
        }
        name_is_cut_off(front, name.drop_last());
    }
}

/// An entry of a directory is held by that directory.
pub proof fn parent_holds_entry(dir: Seq<char>, name: Seq<char>)
    requires
        is_tidy(dir),
        is_entry_name(name),
    ensures
        parent_dir(dir.push('/') + name) == Some(dir),
{
    reveal_strlit("/");
    let path = dir.push('/') + name;
    entry_is_tidy(dir, name);
    name_is_cut_off(dir.push('/'), name);
    assert(path.len() > 1);
    assert(dir.push('/').drop_last() =~= dir);
    assert(tidied(dir) == dir);
}

/// A single name is held by the unnamed directory, which nothing holds; nor does
/// anything hold the root.
pub proof fn top_has_no_parent(name: Seq<char>)
    requires
        is_entry_name(name),
    ensures
        parent_dir(name) == Some(Seq::<char>::empty()),
        parent_dir(Seq::<char>::empty()) is None,
        parent_dir("/"@) is None,
        bundled_data(name) is None,
{
    reveal_strlit("/");
    reveal_strlit("/.");
    reveal_strlit(".");
    assert(name.contains(name.last()));
    if has_suffix(name, "/."@) {
        assert(name.skip(name.len() - 2)[0] == '/');
        assert(name.contains(name[name.len() - 2]));
    }
    assert(name != "/"@) by {
        if name == "/"@ {
            assert(name[0] == '/');
        }
    }
    no_slash_nothing_before(name);
}

/// Without a slash nothing is up to one.
proof fn no_slash_nothing_before(name: Seq<char>)
    requires
        !name.contains('/'),
    ensures
        up_to_slash(name) == Seq::<char>::empty(),
    decreases name.len(),
{
    if name.len() > 0 {
        assert(name.contains(name.last()));
        assert forall|c: char| name.drop_last().contains(c) implies name.contains(c) by {
            let i = choose|i: int| 0 <= i < name.drop_last().len() && name.drop_last()[i] == c;
            assert(name[i] == c);
        }
        no_slash_nothing_before(name.drop_last());
    } else {
        assert(name =~= Seq::<char>::empty());
    }
}

/// An executable in a directory of the bundle's contents finds its data among the
/// resources of the same contents, whatever the directory and the executable are
/// called.
pub proof fn bundle_data_are_among_resources(
    contents: Seq<char>,
    dir: Seq<char>,
    name: Seq<char>,
)
    requires
        is_tidy(contents),
        is_entry_name(dir),
        is_entry_name(name),
    ensures
        bundled_data((contents.push('/') + dir).push('/') + name) == Some(
            contents + "/"@ + "Resources"@ + "/"@ + "espeak-ng-data"@,
        ),
{
    entry_is_tidy(contents, dir);
    parent_holds_entry(contents.push('/') + dir, name);
    parent_holds_entry(contents, dir);
    reveal_strlit("/");
    reveal_strlit("Resources");
    reveal_strlit("espeak-ng-data");
    let resources = joined(contents, "Resources"@);
    assert(resources.last() == 's');
}

/// Whether a candidate is a directory.
pub open spec fn is_directory(candidate: Option<Candidate>) -> bool {
    candidate is Some && candidate->0.is_dir
}

/// The environment's directory comes before the bundle's, and that before the
/// development build's; what is no directory is passed over; a directory is found
/// wherever one of the three is.
pub proof fn first_directory_is_picked(
    env: Option<Candidate>,
    bundle: Option<Candidate>,
    dev: Option<Candidate>,
)
    ensures
        ({
            let picked = picked_data(env, bundle, dev);
            &&& is_directory(env) ==> picked == Some((DataSource::Environment, env->0.path))
            &&& !is_directory(env) && is_directory(bundle) ==> picked == Some(
                (DataSource::Bundle, bundle->0.path),
            )
            &&& !is_directory(env) && !is_directory(bundle) && is_directory(dev) ==> picked
                == Some((DataSource::Development, dev->0.path))
            &&& picked is None <==> !is_directory(env) && !is_directory(bundle)
                && !is_directory(dev)
        }),
{
}

} // verus!
