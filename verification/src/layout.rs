//! Where the files of a session live.
//!
//! Every session owns one directory under the recordings root, named after the
//! session identifier with the suffix `.cap`. Paths are plain strings with `/`
//! as the separator.

use vstd::prelude::*;

verus! {

/// `name` placed directly under `base`.
pub open spec fn spec_child(base: Seq<char>, name: Seq<char>) -> Seq<char> {
    base + "/"@ + name
}

/// The directory that holds all sessions, under the application's data directory.
pub open spec fn spec_recordings_root(app_data_dir: Seq<char>) -> Seq<char> {
    spec_child(app_data_dir, "recordings"@)
}

/// The name of the directory of the session `id`.
pub open spec fn spec_session_dir_name(id: Seq<char>) -> Seq<char> {
    id + ".cap"@
}

/// The directory of the session `id` under `recordings_root`.
pub open spec fn spec_session_dir(recordings_root: Seq<char>, id: Seq<char>) -> Seq<char> {
    spec_child(recordings_root, spec_session_dir_name(id))
}

/// The container file that the display pipeline writes.
pub open spec fn spec_display_path(session_dir: Seq<char>) -> Seq<char> {
    spec_child(session_dir, "content/display.mp4"@)
}

/// The container file that the camera pipeline writes.
pub open spec fn spec_camera_path(session_dir: Seq<char>) -> Seq<char> {
    spec_child(session_dir, "content/camera.mp4"@)
}

/// The directory of still frames.
pub open spec fn spec_screenshots_dir(session_dir: Seq<char>) -> Seq<char> {
    spec_child(session_dir, "screenshots"@)
}

/// The thumbnail taken from the display recording.
pub open spec fn spec_thumbnail_path(session_dir: Seq<char>) -> Seq<char> {
    spec_child(session_dir, "screenshots/display.jpg"@)
}

/// The metadata record of a finished session.
pub open spec fn spec_meta_path(session_dir: Seq<char>) -> Seq<char> {
    spec_child(session_dir, "recording-meta.json"@)
}

/// The rendered video, which doubles as the render cache.
pub open spec fn spec_output_path(session_dir: Seq<char>) -> Seq<char> {
    spec_child(session_dir, "output/result.mp4"@)
}

/// The file that a render writes before it is moved to the output path.
pub open spec fn spec_output_temp_path(session_dir: Seq<char>) -> Seq<char> {
    spec_child(session_dir, "output/result.partial.mp4"@)
}

/// A path names a session directory when its last component ends in `.cap`
/// after at least one other character.
pub open spec fn spec_is_session_dir(path: Seq<char>) -> bool {
    &&& path.len() >= 5
    &&& path[path.len() - 5] != '/'
    &&& path[path.len() - 4] == '.'
    &&& path[path.len() - 3] == 'c'
    &&& path[path.len() - 2] == 'a'
    &&& path[path.len() - 1] == 'p'
}

pub fn child(base: &str, name: &str) -> (path: String)
    ensures
        path@ == spec_child(base@, name@),
{
    let mut path = String::from_str(base);
    path.append("/");
    path.append(name);
    path
}

pub fn recordings_root(app_data_dir: &str) -> (path: String)
    ensures
        path@ == spec_recordings_root(app_data_dir@),
{
    child(app_data_dir, "recordings")
}

pub fn session_dir_name(id: &str) -> (name: String)
    ensures
        name@ == spec_session_dir_name(id@),
{
    let mut name = String::from_str(id);
    name.append(".cap");
    name
}

pub fn session_dir(recordings_root: &str, id: &str) -> (path: String)
    ensures
        path@ == spec_session_dir(recordings_root@, id@),
{
    let name = session_dir_name(id);
    child(recordings_root, name.as_str())
}

pub fn display_path(session_dir: &str) -> (path: String)
    ensures
        path@ == spec_display_path(session_dir@),
{
    child(session_dir, "content/display.mp4")
}

pub fn camera_path(session_dir: &str) -> (path: String)
    ensures
        path@ == spec_camera_path(session_dir@),
{
    child(session_dir, "content/camera.mp4")
}

pub fn screenshots_dir(session_dir: &str) -> (path: String)
    ensures
        path@ == spec_screenshots_dir(session_dir@),
{
    child(session_dir, "screenshots")
}

pub fn thumbnail_path(session_dir: &str) -> (path: String)
    ensures
        path@ == spec_thumbnail_path(session_dir@),
{
    child(session_dir, "screenshots/display.jpg")
}

pub fn meta_path(session_dir: &str) -> (path: String)
    ensures
        path@ == spec_meta_path(session_dir@),
{
    child(session_dir, "recording-meta.json")
}

pub fn output_path(session_dir: &str) -> (path: String)
    ensures
        path@ == spec_output_path(session_dir@),
{
    child(session_dir, "output/result.mp4")
}

pub fn output_temp_path(session_dir: &str) -> (path: String)
    ensures
        path@ == spec_output_temp_path(session_dir@),
{
    child(session_dir, "output/result.partial.mp4")
}

/// Tells whether `path` names a session directory.
pub fn is_session_dir(path: &str) -> (yes: bool)
    ensures
        yes == spec_is_session_dir(path@),
{
    let n: usize = path.unicode_len();
    if n < 5 {
        return false;
    }
    path.get_char(n - 5) != '/' && path.get_char(n - 4) == '.' && path.get_char(n - 3) == 'c'
        && path.get_char(n - 2) == 'a' && path.get_char(n - 1) == 'p'
}

/// The directory allocated for a session is recognised as a session directory
/// whenever the identifier is not empty and does not end in a separator.
pub proof fn session_dir_is_recognised(recordings_root: Seq<char>, id: Seq<char>)
    requires
        id.len() > 0,
        id.last() != '/',
    ensures
        spec_is_session_dir(spec_session_dir(recordings_root, id)),
{
    reveal_strlit(".cap");
    reveal_strlit("/");
    let path = spec_session_dir(recordings_root, id);
    assert(path.len() == recordings_root.len() + 1 + id.len() + 4);
    assert(path[path.len() - 5] == id.last());
}

/// Every file of a session lies below the session's directory.
pub open spec fn spec_is_below(path: Seq<char>, dir: Seq<char>) -> bool {
    path.len() > dir.len() + 1 && path.subrange(0, (dir.len() + 1) as int) == dir + "/"@
}

/// The files that a session writes all lie below its directory.
pub proof fn session_files_lie_below(session_dir: Seq<char>)
    ensures
        spec_is_below(spec_display_path(session_dir), session_dir),
        spec_is_below(spec_camera_path(session_dir), session_dir),
        spec_is_below(spec_thumbnail_path(session_dir), session_dir),
        spec_is_below(spec_meta_path(session_dir), session_dir),
        spec_is_below(spec_output_path(session_dir), session_dir),
        spec_is_below(spec_output_temp_path(session_dir), session_dir),
{
    reveal_strlit("/");
    reveal_strlit("content/display.mp4");
    reveal_strlit("content/camera.mp4");
    reveal_strlit("screenshots/display.jpg");
    reveal_strlit("recording-meta.json");
    reveal_strlit("output/result.mp4");
    reveal_strlit("output/result.partial.mp4");
    let prefix = session_dir + "/"@;
    let n: int = (session_dir.len() + 1) as int;
    assert(spec_display_path(session_dir).subrange(0, n) =~= prefix);
    assert(spec_camera_path(session_dir).subrange(0, n) =~= prefix);
    assert(spec_thumbnail_path(session_dir).subrange(0, n) =~= prefix);
    assert(spec_meta_path(session_dir).subrange(0, n) =~= prefix);
    assert(spec_output_path(session_dir).subrange(0, n) =~= prefix);
    assert(spec_output_temp_path(session_dir).subrange(0, n) =~= prefix);
}

/// The texts of a list of paths.
pub open spec fn spec_texts(paths: Seq<String>) -> Seq<Seq<char>> {
    Seq::new(paths.len(), |i: int| paths[i]@)
}

/// The texts of what was found in the recordings root: each path with the
/// answer to whether it holds a metadata record.
pub open spec fn spec_entry_texts(entries: Seq<(String, bool)>) -> Seq<(Seq<char>, bool)> {
    Seq::new(entries.len(), |i: int| (entries[i].0@, entries[i].1))
}

/// The session directories among `entries` that hold a metadata record
/// (`finished`) or hold none (`!finished`): in the order of `entries`, each
/// path once, at the place where it is found first.
pub open spec fn spec_scanned_dirs(entries: Seq<(Seq<char>, bool)>, finished: bool) -> Seq<Seq<char>>
    decreases entries.len(),
{
    if entries.len() == 0 {
        Seq::empty()
    } else {
        let before = spec_scanned_dirs(entries.drop_last(), finished);
        let entry = entries.last();
        if spec_is_session_dir(entry.0) && entry.1 == finished && !before.contains(entry.0) {
            before.push(entry.0)
        } else {
            before
        }
    }
}

/// The directories of the sessions that were finished: they hold a metadata
/// record.
pub open spec fn spec_finished_dirs(entries: Seq<(Seq<char>, bool)>) -> Seq<Seq<char>> {
    spec_scanned_dirs(entries, true)
}

/// The directories of the sessions that never stopped: they hold no
/// metadata record.
pub open spec fn spec_unfinished_dirs(entries: Seq<(Seq<char>, bool)>) -> Seq<Seq<char>> {
    spec_scanned_dirs(entries, false)
}

/// A scan lists a path exactly if some entry names it as a session
/// directory of the kind asked for, and lists no path twice.
pub proof fn scan_lists_each_directory_once(entries: Seq<(Seq<char>, bool)>, finished: bool)
    ensures
        spec_scanned_dirs(entries, finished).no_duplicates(),
        forall|path: Seq<char>| #[trigger]
            spec_scanned_dirs(entries, finished).contains(path) <==> spec_is_session_dir(path)
                && entries.contains((path, finished)),
    decreases entries.len(),
{
    let dirs = spec_scanned_dirs(entries, finished);
    if entries.len() == 0 {
        assert forall|path: Seq<char>| #[trigger]
            dirs.contains(path) <==> spec_is_session_dir(path) && entries.contains(
                (path, finished),
            ) by {}
    } else {
        let earlier = entries.drop_last();
        let before = spec_scanned_dirs(earlier, finished);
        let entry = entries.last();
        scan_lists_each_directory_once(earlier, finished);
        assert(entries =~= earlier.push(entry));
        let kept = spec_is_session_dir(entry.0) && entry.1 == finished && !before.contains(entry.0);
        if kept {
            assert(dirs == before.push(entry.0));
            assert forall|i: int, j: int|
                0 <= i < dirs.len() && 0 <= j < dirs.len() && i != j implies dirs[i] != dirs[j] by {
                if i < before.len() && j < before.len() {
                } else if i < before.len() {
                    assert(before.contains(dirs[i]));
                } else {
                    assert(before.contains(dirs[j]));
                }
            }
        }
        assert forall|path: Seq<char>| #[trigger]
            dirs.contains(path) <==> spec_is_session_dir(path) && entries.contains(
                (path, finished),
            ) by {
            if dirs.contains(path) {
                let at = choose|at: int| 0 <= at < dirs.len() && dirs[at] == path;
                if at < before.len() {
                    assert(before[at] == path);
                    assert(before.contains(path));
                    assert(earlier.contains((path, finished)));
                    let found = choose|k: int|
                        0 <= k < earlier.len() && earlier[k] == (path, finished);
                    assert(entries[found] == (path, finished));
                } else {
                    assert(kept);
                    assert(entries[entries.len() - 1] == (path, finished));
                }
            }
            if spec_is_session_dir(path) && entries.contains((path, finished)) {
                let found = choose|k: int| 0 <= k < entries.len() && entries[k] == (path, finished);
                if found < earlier.len() {
                    assert(earlier[found] == (path, finished));
                    assert(earlier.contains((path, finished)));
                    assert(before.contains(path));
                    let at = choose|at: int| 0 <= at < before.len() && before[at] == path;
                    assert(dirs[at] == path);
                } else {
                    assert(entry == (path, finished));
                    if kept {
                        assert(dirs[before.len() as int] == path);
                    } else {
                        assert(before.contains(path));
                    }
                }
            }
        }
    }
}

/// Picks out of the entries of the recordings root the session directories
/// that hold a metadata record (`finished`) or hold none (`!finished`).
pub fn scan_session_dirs(entries: &Vec<(String, bool)>, finished: bool) -> (dirs: Vec<String>)
    ensures
        spec_texts(dirs@) == spec_scanned_dirs(spec_entry_texts(entries@), finished),
        spec_texts(dirs@).no_duplicates(),
{
    let mut dirs: Vec<String> = Vec::new();
    let mut i: usize = 0;
    assert(spec_entry_texts(entries@).take(0).len() == 0);
    assert(spec_texts(dirs@) =~= spec_scanned_dirs(spec_entry_texts(entries@).take(0), finished));
    while i < entries.len()
        invariant
            i <= entries.len(),
            spec_texts(dirs@) == spec_scanned_dirs(
                spec_entry_texts(entries@).take(i as int),
                finished,
            ),
        decreases entries.len() - i,
    {
        let entry = &entries[i];
        let ghost before = spec_texts(dirs@);
        let ghost seen = spec_entry_texts(entries@).take(i as int);
        let ghost next = spec_entry_texts(entries@).take(i + 1);
        proof {
            assert(next.drop_last() =~= seen);
            assert(next.last() == (entry.0@, entry.1));
        }
        if is_session_dir(entry.0.as_str()) && entry.1 == finished && !contains_path(
            &dirs,
            &entry.0,
        ) {
            dirs.push(entry.0.clone());
            assert(spec_texts(dirs@) =~= before.push(entry.0@));
        }
        i += 1;
    }
    proof {
        assert(spec_entry_texts(entries@).take(entries.len() as int) =~= spec_entry_texts(entries@));
        scan_lists_each_directory_once(spec_entry_texts(entries@), finished);
    }
    dirs
}

/// Tells whether `path` is one of `paths`.
pub fn contains_path(paths: &Vec<String>, path: &String) -> (found: bool)
    ensures
        found == spec_texts(paths@).contains(path@),
{
    let mut i: usize = 0;
    while i < paths.len()
        invariant
            i <= paths.len(),
            forall|j: int| 0 <= j < i ==> spec_texts(paths@)[j] != path@,
        decreases paths.len() - i,
    {
        if paths[i] == *path {
            assert(spec_texts(paths@)[i as int] == path@);
            return true;
        }
        i += 1;
    }
    false
}

} // verus!
