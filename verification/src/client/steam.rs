//! The locally installed storefront client: where it keeps the manifest of a
//! game, what a manifest says about the installation, and the URLs that ask
//! the client to install or remove a game.

use vstd::prelude::*;
use vstd::string::StringExecFns;

use crate::text::{
    chars_of, parse_i64, parse_i64_in, run_len, scan, scan_back, slice_is, string_of, strip,
    strip_bounds, CharClass,
};

verus! {

/// The property that holds the number of bytes a game still has to download.
pub const KEY_TO_DOWNLOAD: &'static str = "\"BytesToDownload\"";

/// The property that holds the number of bytes a game has downloaded.
pub const KEY_DOWNLOADED: &'static str = "\"BytesDownloaded\"";

pub const MANIFEST_PREFIX: &'static str = "appmanifest_";

pub const MANIFEST_SUFFIX: &'static str = ".acf";

pub const INSTALL_URL: &'static str = "steam://install/";

pub const UNINSTALL_URL: &'static str = "steam://uninstall/";

/// The two byte counts of a manifest, as far as they have been read.
#[derive(Clone, Copy, Debug, PartialEq, Eq, Structural)]
pub struct Progress {
    pub to_download: Option<i64>,
    pub downloaded: Option<i64>,
}

/// The first run of visible characters of `s`; empty where `s` has none.
pub open spec fn first_token(s: Seq<char>) -> Seq<char> {
    let t = s.skip(run_len(s, CharClass::Whitespace) as int);
    t.take(run_len(t, CharClass::Visible) as int)
}

/// What follows the first run of visible characters of `s`.
pub open spec fn after_token(s: Seq<char>) -> Seq<char> {
    let t = s.skip(run_len(s, CharClass::Whitespace) as int);
    t.skip(run_len(t, CharClass::Visible) as int)
}

/// The number that a value of a manifest writes, between quotes or not.
pub open spec fn quoted_number(value: Seq<char>) -> Option<i64> {
    parse_i64(strip(value, CharClass::Only('"')))
}

/// The byte counts after one more line of the manifest.
///
/// A line counts where it holds a property and a value, separated by
/// whitespace. Where the property is one of the two byte counts, the value
/// replaces what was read before, also where it is no number.
pub open spec fn read_line(p: Progress, line: Seq<char>) -> Progress {
    let property = first_token(line);
    let value = first_token(after_token(line));
    if property.len() == 0 || value.len() == 0 {
        p
    } else if property == KEY_TO_DOWNLOAD@ {
        Progress { to_download: quoted_number(value), downloaded: p.downloaded }
    } else if property == KEY_DOWNLOADED@ {
        Progress { to_download: p.to_download, downloaded: quoted_number(value) }
    } else {
        p
    }
}

/// Whether both byte counts are known.
pub open spec fn complete(p: Progress) -> bool {
    p.to_download is Some && p.downloaded is Some
}

/// The byte counts after the lines of `content`, read from the first on until
/// both counts are known.
pub open spec fn read_manifest(p: Progress, content: Seq<char>) -> Progress
    decreases content.len(),
{
    let n = run_len(content, CharClass::Except('\n'));
    let q = read_line(p, content.take(n as int));
    if complete(q) || n >= content.len() {
        q
    } else {
        read_manifest(q, content.skip(n as int + 1))
    }
}

/// Whether a manifest with this content says that the game is installed: both
/// byte counts are there and they are equal.
pub open spec fn manifest_installed(content: Seq<char>) -> bool {
    let p = read_manifest(Progress { to_download: None, downloaded: None }, content);
    complete(p) && p.to_download == p.downloaded
}

/// Where the last component of the path `name` ends. Slashes at the end and
/// components that are a single `.` are passed over; 0 where nothing is left.
pub open spec fn component_end(name: Seq<char>) -> int
    decreases name.len(),
{
    if name.len() == 0 {
        0
    } else if name.last() == '/' {
        component_end(name.drop_last())
    } else if name.last() == '.' && (name.len() == 1 || name[name.len() - 2] == '/') {
        component_end(name.drop_last())
    } else {
        name.len() as int
    }
}

/// The length of the stem of the file name `file`: up to its last `.`, or
/// all of it where it has no `.` or only one in front.
pub open spec fn stem_len(file: Seq<char>) -> int {
    let tail = crate::text::back_run_len(file, CharClass::Except('.'));
    if tail >= file.len() || file.len() - tail - 1 == 0 {
        file.len() as int
    } else {
        file.len() - tail - 1
    }
}

/// Where the path `name` is cut to give it another extension: behind the
/// stem of its last component. A path without a last component, or whose
/// last component is `..`, has no file name and is not cut.
pub open spec fn stem_end(name: Seq<char>) -> Option<int> {
    let end = component_end(name);
    let start = end - crate::text::back_run_len(name.take(end), CharClass::Except('/'));
    let file = name.subrange(start, end);
    if end == 0 || file == seq!['.', '.'] {
        None
    } else {
        Some(start + stem_len(file))
    }
}

/// The path `name` with the extension of a manifest in place of its own; the
/// path itself where it has no file name.
pub open spec fn manifest_name(name: Seq<char>) -> Seq<char> {
    match stem_end(name) {
        Some(cut) => name.take(cut) + MANIFEST_SUFFIX@,
        None => name,
    }
}

/// The directory `dir`, ready for a file name to follow.
pub open spec fn with_separator(dir: Seq<char>) -> Seq<char> {
    if dir.len() > 0 && dir.last() != '/' {
        dir.push('/')
    } else {
        dir
    }
}

/// The manifest of the game `id` in the library directory `dir`.
pub open spec fn manifest_path(dir: Seq<char>, id: Seq<char>) -> Seq<char> {
    with_separator(dir) + manifest_name(MANIFEST_PREFIX@ + id)
}

/// The byte counts after the line `v[from..to]`.
fn read_line_in(
    v: &Vec<char>,
    from: usize,
    to: usize,
    p: Progress,
    key_to_download: &Vec<char>,
    key_downloaded: &Vec<char>,
) -> (q: Progress)
    requires
        from <= to <= v.len(),
        key_to_download@ == KEY_TO_DOWNLOAD@,
        key_downloaded@ == KEY_DOWNLOADED@,
    ensures
        q == read_line(p, v@.subrange(from as int, to as int)),
{
    let a = scan(v, from, to, CharClass::Whitespace);
    let b = scan(v, a, to, CharClass::Visible);
    let c = scan(v, b, to, CharClass::Whitespace);
    let d = scan(v, c, to, CharClass::Visible);
    proof {
        let line = v@.subrange(from as int, to as int);
        let t = line.skip(run_len(line, CharClass::Whitespace) as int);
        assert(t =~= v@.subrange(a as int, to as int));
        assert(first_token(line) =~= v@.subrange(a as int, b as int));
        let rest = after_token(line);
        assert(rest =~= v@.subrange(b as int, to as int));
        let u = rest.skip(run_len(rest, CharClass::Whitespace) as int);
        assert(u =~= v@.subrange(c as int, to as int));
        assert(first_token(rest) =~= v@.subrange(c as int, d as int));
    }
    if a == b || c == d {
        return p;
    }
    if slice_is(v, a, b, key_to_download) {
        let (x, y) = strip_bounds(v, c, d, CharClass::Only('"'));
        Progress { to_download: parse_i64_in(v, x, y), downloaded: p.downloaded }
    } else if slice_is(v, a, b, key_downloaded) {
        let (x, y) = strip_bounds(v, c, d, CharClass::Only('"'));
        Progress { to_download: p.to_download, downloaded: parse_i64_in(v, x, y) }
    } else {
        p
    }
}

/// What a manifest with this content says about the installation.
pub fn manifest_reports_installed(content: &str) -> (b: bool)
    ensures
        b == manifest_installed(content@),
{
    let v = chars_of(content);
    let key_to_download = chars_of(KEY_TO_DOWNLOAD);
    let key_downloaded = chars_of(KEY_DOWNLOADED);
    let ghost start = Progress { to_download: None, downloaded: None };
    let mut p = Progress { to_download: None, downloaded: None };
    let mut pos: usize = 0;
    assert(v@.skip(0) =~= v@);
    loop
        invariant
            pos <= v.len(),
            v@ == content@,
            start == (Progress { to_download: None, downloaded: None }),
            key_to_download@ == KEY_TO_DOWNLOAD@,
            key_downloaded@ == KEY_DOWNLOADED@,
            read_manifest(start, v@) == read_manifest(p, v@.skip(pos as int)),
        decreases v.len() - pos,
    {
        let end = scan(&v, pos, v.len(), CharClass::Except('\n'));
        let q = read_line_in(&v, pos, end, p, &key_to_download, &key_downloaded);
        proof {
            let rest = v@.skip(pos as int);
            assert(rest =~= v@.subrange(pos as int, v.len() as int));
            assert(rest.take(end - pos) =~= v@.subrange(pos as int, end as int));
            assert(end < v.len() ==> rest.skip(end - pos + 1) =~= v@.skip(end + 1));
            assert(run_len(rest, CharClass::Except('\n')) == end - pos);
            assert(read_manifest(p, rest) == (if complete(q) || end - pos >= rest.len() {
                q
            } else {
                read_manifest(q, rest.skip(end - pos + 1))
            }));
        }
        if (q.to_download.is_some() && q.downloaded.is_some()) || end >= v.len() {
            return match (q.to_download, q.downloaded) {
                (Some(x), Some(y)) => x == y,
                _ => false,
            };
        }
        p = q;
        pos = end + 1;
    }
}

/// Where the last component of `name` ends.
fn last_component_end(name: &Vec<char>) -> (end: usize)
    ensures
        end == component_end(name@),
        end <= name.len(),
{
    let mut end: usize = name.len();
    assert(name@.take(end as int) =~= name@);
    while end > 0
        invariant
            end <= name.len(),
            component_end(name@) == component_end(name@.take(end as int)),
        decreases end,
    {
        let head = Ghost(name@.take(end as int));
        assert(head@.last() == name@[end - 1]);
        assert(end > 1 ==> head@[end - 2] == name@[end - 2]);
        assert(head@.drop_last() =~= name@.take(end - 1));
        let c = name[end - 1];
        if c == '/' || (c == '.' && (end == 1 || name[end - 2] == '/')) {
            end -= 1;
        } else {
            return end;
        }
    }
    end
}

/// Where `name` is cut to give it another extension, if it has a file name.
fn cut_point(name: &Vec<char>) -> (cut: Option<usize>)
    ensures
        cut matches Some(c) ==> c <= name.len(),
        match cut {
            Some(c) => stem_end(name@) == Some(c as int),
            None => stem_end(name@) is None,
        },
{
    let end = last_component_end(name);
    if end == 0 {
        return None;
    }
    let start = scan_back(name, 0, end, CharClass::Except('/'));
    assert(name@.subrange(0, end as int) =~= name@.take(end as int));
    let ghost file = name@.subrange(start as int, end as int);
    if end - start == 2 && name[start] == '.' && name[start + 1] == '.' {
        assert(file =~= seq!['.', '.']);
        return None;
    }
    proof {
        if file == seq!['.', '.'] {
            assert(file.len() == 2);
            assert(file[0] == name@[start as int] && file[1] == name@[start + 1]);
        }
    }
    let after_dot = scan_back(name, start, end, CharClass::Except('.'));
    if after_dot == start || after_dot - 1 == start {
        Some(end)
    } else {
        Some(after_dot - 1)
    }
}

/// The storefront client installed on this machine.
#[derive(Debug)]
pub struct SteamClient {
    /// The `steamapps` directory of the client's library.
    path: String,
}

impl SteamClient {
    /// The `steamapps` directory of the client's library.
    pub closed spec fn dir(&self) -> Seq<char> {
        self.path@
    }

    /// The client whose library is the directory `path`.
    pub fn new(path: String) -> (c: SteamClient)
        ensures
            c.dir() == path@,
    {
        SteamClient { path }
    }

    /// The path of the manifest that the client keeps for the game
    /// `steam_game_id`.
    pub fn get_game_manifest_file_path(&self, steam_game_id: &str) -> (r: Result<String, String>)
        ensures
            r is Ok,
            r->Ok_0@ == manifest_path(self.dir(), steam_game_id@),
    {
        let dir = chars_of(self.path.as_str());
        let mut path = self.path.clone();
        if dir.len() > 0 && dir[dir.len() - 1] != '/' {
            path.push('/');
        }
        let mut name = String::from_str(MANIFEST_PREFIX);
        name.append(steam_game_id);
        let chars = chars_of(name.as_str());
        match cut_point(&chars) {
            Some(cut) => {
                let kept = string_of(&chars, 0, cut);
                assert(kept@ =~= chars@.take(cut as int));
                path.append(kept.as_str());
                path.append(MANIFEST_SUFFIX);
                assert(path@ =~= manifest_path(self.dir(), steam_game_id@));
            },
            None => {
                path.append(name.as_str());
            },
        }
        Ok(path)
    }

    /// The URL that asks the client to install the game `steam_game_id`.
    pub fn install_game(steam_game_id: &str) -> (url: String)
        ensures
            url@ == INSTALL_URL@ + steam_game_id@,
    {
        let mut url = String::from_str(INSTALL_URL);
        url.append(steam_game_id);
        url
    }

    /// The URL that asks the client to remove the game `steam_game_id`.
    pub fn uninstall_game(steam_game_id: &str) -> (url: String)
        ensures
            url@ == UNINSTALL_URL@ + steam_game_id@,
    {
        let mut url = String::from_str(UNINSTALL_URL);
        url.append(steam_game_id);
        url
    }

    /// Whether the game is installed, going by the content of its manifest;
    /// `None` stands for a manifest that is missing or cannot be read.
    pub fn is_steam_game_installed(&self, manifest: Option<&str>) -> (b: bool)
        ensures
            b == match manifest {
                Some(content) => manifest_installed(content@),
                None => false,
            },
    {
        match manifest {
            Some(content) => manifest_reports_installed(content),
            None => false,
        }
    }
}

} // verus!
