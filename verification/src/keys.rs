//! Where the private keys for a remote are looked for: one file that the
//! operator names, or the private-key-shaped files of a directory.

use vstd::prelude::*;
use vstd::string::*;
use crate::text::{ends_with, joined, same_text, starts_with};

verus! {

/// Where to look for keys: one key file, or a directory to scan.
#[derive(Debug)]
pub enum SshKey {
    /// The path of one key file.
    File(String),
    /// The path of a directory whose entries are candidates.
    Dir(String),
}

/// An `SshKey` as plain values.
pub ghost enum KeyPlace {
    /// The path of one key file.
    File(Seq<char>),
    /// The path of a directory whose entries are candidates.
    Dir(Seq<char>),
}

impl View for SshKey {
    type V = KeyPlace;

    open spec fn view(&self) -> KeyPlace {
        match self {
            SshKey::File(path) => KeyPlace::File(path@),
            SshKey::Dir(path) => KeyPlace::Dir(path@),
        }
    }
}

impl KeyPlace {
    /// The path, whichever kind it is.
    pub open spec fn path(self) -> Seq<char> {
        match self {
            KeyPlace::File(path) => path,
            KeyPlace::Dir(path) => path,
        }
    }
}

impl SshKey {
    /// The path, whichever kind it is.
    pub fn get_path(&self) -> (path: &str)
        ensures
            path@ == self@.path(),
    {
        match self {
            SshKey::File(path) => path.as_str(),
            SshKey::Dir(path) => path.as_str(),
        }
    }
}

impl PartialEq for SshKey {
    fn eq(&self, other: &Self) -> (same: bool) {
        match (self, other) {
            (SshKey::File(a), SshKey::File(b)) => same_text(a.as_str(), b.as_str()),
            (SshKey::Dir(a), SshKey::Dir(b)) => same_text(a.as_str(), b.as_str()),
            _ => false,
        }
    }
}

impl vstd::std_specs::cmp::PartialEqSpecImpl for SshKey {
    open spec fn obeys_eq_spec() -> bool {
        true
    }

    open spec fn eq_spec(&self, other: &Self) -> bool {
        self@ == other@
    }
}

impl Eq for SshKey {

}

/// A file name has the shape of a private key when it begins with `id_` and
/// does not end with `.pub`.
pub open spec fn is_private_key_name(name: Seq<char>) -> bool {
    "id_"@.is_prefix_of(name) && !".pub"@.is_suffix_of(name)
}

/// Whether a file name has the shape of a private key.
pub fn has_private_key_name(name: &str) -> (shaped: bool)
    ensures
        shaped == is_private_key_name(name@),
{
    starts_with(name, "id_") && !ends_with(name, ".pub")
}

/// The path of the entry `name` of the directory `dir`: the two joined by one
/// `/`, which is added unless `dir` already ends with it.
pub open spec fn path_under(dir: Seq<char>, name: Seq<char>) -> Seq<char> {
    if dir.len() > 0 && dir.last() == '/' {
        dir + name
    } else {
        dir + "/"@ + name
    }
}

/// The path of the entry `name` of the directory `dir`.
pub fn entry_path(dir: &str, name: &str) -> (path: String)
    ensures
        path@ == path_under(dir@, name@),
{
    let n: usize = dir.unicode_len();
    if n > 0 && dir.get_char(n - 1) == '/' {
        joined(dir, name)
    } else {
        let mut path = joined(dir, "/");
        path.append(name);
        path
    }
}

/// What a directory entry contributes to the candidates: its path if its name
/// has the shape of a private key, nothing otherwise.
pub open spec fn candidate_in(dir: Seq<char>) -> spec_fn(String) -> Option<Seq<char>> {
    |name: String|
        if is_private_key_name(name@) {
            Some(path_under(dir, name@))
        } else {
            None
        }
}

/// The characters of each string.
pub open spec fn texts(strings: Seq<String>) -> Seq<Seq<char>> {
    strings.map_values(|s: String| s@)
}

/// The candidate keys of a directory whose entries are `names`: the paths of
/// the entries named like a private key, in the order of the listing.
pub fn private_key_paths(dir: &str, names: &Vec<String>) -> (paths: Vec<String>)
    ensures
        texts(paths@) == names@.filter_map(candidate_in(dir@)),
{
    let mut paths: Vec<String> = Vec::new();
    let mut i: usize = 0;
    assert(names@.take(0) =~= Seq::empty());
    assert(texts(paths@) =~= Seq::empty());
    while i < names.len()
        invariant
            i <= names.len(),
            texts(paths@) == names@.take(i as int).filter_map(candidate_in(dir@)),
        decreases names.len() - i,
    {
        proof {
            names@.lemma_filter_map_take_succ(candidate_in(dir@), i as int);
        }
        let ghost before = paths@;
        if has_private_key_name(names[i].as_str()) {
            let path = entry_path(dir, names[i].as_str());
            paths.push(path);
            assert(texts(paths@) =~= texts(before) + seq![path@]);
        }
        i = i + 1;
    }
    assert(names@.take(names.len() as int) =~= names@);
    paths
}

/// Finds the home directory and the place where keys are looked for.
pub trait ExtractPaths {
    /// Where to look for keys, given the path that the operator named, if
    /// any.
    fn extract_ssh_key_path(&self, path: Option<&str>) -> SshKey;

    /// The operator's home directory.
    fn extract_home_dir_path(&self) -> String;
}

/// What the default extractor goes by, as plain values: the platform, the
/// environment variables it consults, and the paths known to be regular
/// files.
pub ghost struct Surroundings {
    /// Whether the platform is Windows.
    pub windows: bool,
    /// The `HOME` variable, if it is set.
    pub home: Option<Seq<char>>,
    /// The `SYSTEMDRIVE` variable, if it is set.
    pub system_drive: Option<Seq<char>>,
    /// The `HOMEPATH` variable, if it is set.
    pub home_path: Option<Seq<char>>,
    /// The paths that are known to be regular files.
    pub regular_files: Seq<Seq<char>>,
}

impl Surroundings {
    /// The home directory. On Windows the system drive, `C:` if it is not
    /// set, followed by the home path, `\Users\System` if it is not set;
    /// elsewhere the `HOME` variable, `/root` if it is not set.
    pub open spec fn home_dir(self) -> Seq<char> {
        if self.windows {
            (match self.system_drive {
                Some(drive) => drive,
                None => "C:"@,
            }) + (match self.home_path {
                Some(path) => path,
                None => "\\Users\\System"@,
            })
        } else {
            match self.home {
                Some(home) => home,
                None => "/root"@,
            }
        }
    }

    /// The path that the operator named, under the home directory if it is
    /// relative.
    pub open spec fn resolved(self, path: Seq<char>, relative: bool) -> Seq<char> {
        if relative {
            path_under(self.home_dir(), path)
        } else {
            path
        }
    }

    /// Where keys are looked for. Without a path from the operator, in the
    /// `.ssh` directory of the home directory. With one, at the resolved path:
    /// the file itself if it is known to be a regular file, else the directory
    /// to scan.
    pub open spec fn key_place(self, path: Option<Seq<char>>, relative: bool) -> KeyPlace {
        match path {
            Some(path) => {
                let resolved = self.resolved(path, relative);
                if self.regular_files.contains(resolved) {
                    KeyPlace::File(resolved)
                } else {
                    KeyPlace::Dir(resolved)
                }
            },
            None => KeyPlace::Dir(self.home_dir() + "/.ssh/"@),
        }
    }
}

/// The extractor that goes by the process environment and the file system,
/// both as its maker observed them.
pub struct DefaultPathsExtractor {
    windows: bool,
    home: Option<String>,
    system_drive: Option<String>,
    home_path: Option<String>,
    regular_files: Vec<String>,
}

/// The characters of the path that the operator named, if any.
pub open spec fn named(path: Option<&str>) -> Option<Seq<char>> {
    match path {
        Some(p) => Some(p@),
        None => None,
    }
}

/// The characters of a string that may be absent.
pub open spec fn text_of(value: Option<String>) -> Option<Seq<char>> {
    match value {
        Some(s) => Some(s@),
        None => None,
    }
}

impl View for DefaultPathsExtractor {
    type V = Surroundings;

    closed spec fn view(&self) -> Surroundings {
        Surroundings {
            windows: self.windows,
            home: text_of(self.home),
            system_drive: text_of(self.system_drive),
            home_path: text_of(self.home_path),
            regular_files: texts(self.regular_files@),
        }
    }
}

/// Calls `std::path::Path::is_relative` on the path. Nothing is claimed of
/// the answer: it depends on the platform that the library was built for.
#[verifier::external_body]
fn path_is_relative(path: &str) -> (relative: bool) {
    std::path::Path::new(path).is_relative()
}

impl DefaultPathsExtractor {
    /// An extractor that has observed nothing: no variable is set, no path is
    /// known to be a regular file, and the platform is not Windows.
    pub fn new() -> (made: Self)
        ensures
            made@ == (Surroundings {
                windows: false,
                home: None,
                system_drive: None,
                home_path: None,
                regular_files: Seq::empty(),
            }),
    {
        let made = DefaultPathsExtractor {
            windows: false,
            home: None,
            system_drive: None,
            home_path: None,
            regular_files: Vec::new(),
        };
        assert(texts(made.regular_files@) =~= Seq::empty());
        made
    }

    /// The same extractor on Windows.
    pub fn on_windows(self) -> (made: Self)
        ensures
            made@ == (Surroundings { windows: true, ..self@ }),
    {
        DefaultPathsExtractor { windows: true, ..self }
    }

    /// The same extractor with the `HOME` variable set.
    pub fn with_home(self, home: String) -> (made: Self)
        ensures
            made@ == (Surroundings { home: Some(home@), ..self@ }),
    {
        DefaultPathsExtractor { home: Some(home), ..self }
    }

    /// The same extractor with the `SYSTEMDRIVE` variable set.
    pub fn with_system_drive(self, drive: String) -> (made: Self)
        ensures
            made@ == (Surroundings { system_drive: Some(drive@), ..self@ }),
    {
        DefaultPathsExtractor { system_drive: Some(drive), ..self }
    }

    /// The same extractor with the `HOMEPATH` variable set.
    pub fn with_home_path(self, path: String) -> (made: Self)
        ensures
            made@ == (Surroundings { home_path: Some(path@), ..self@ }),
    {
        DefaultPathsExtractor { home_path: Some(path), ..self }
    }

    /// The same extractor, which now knows `path` to be a regular file.
    pub fn with_regular_file(self, path: String) -> (made: Self)
        ensures
            made@ == (Surroundings { regular_files: self@.regular_files.push(path@), ..self@ }),
    {
        let mut made = self;
        let ghost before = made.regular_files@;
        made.regular_files.push(path);
        assert(texts(made.regular_files@) =~= texts(before).push(path@));
        made
    }

    /// Whether `path` is known to be a regular file.
    fn knows_file(&self, path: &str) -> (known: bool)
        ensures
            known == self@.regular_files.contains(path@),
    {
        let mut i: usize = 0;
        while i < self.regular_files.len()
            invariant
                i <= self.regular_files.len(),
                forall|j: int| 0 <= j < i ==> texts(self.regular_files@)[j] != path@,
            decreases self.regular_files.len() - i,
        {
            if same_text(self.regular_files[i].as_str(), path) {
                assert(texts(self.regular_files@)[i as int] == path@);
                return true;
            }
            i = i + 1;
        }
        false
    }

    /// Where keys are looked for, given whether the operator's path is
    /// relative.
    pub fn locate(&self, path: Option<&str>, relative: bool) -> (key: SshKey)
        ensures
            key@ == self@.key_place(named(path), relative),
    {
        match path {
            Some(path) => {
                let resolved = if relative {
                    let home = self.extract_home_dir_path();
                    entry_path(home.as_str(), path)
                } else {
                    String::from_str(path)
                };
                if self.knows_file(resolved.as_str()) {
                    SshKey::File(resolved)
                } else {
                    SshKey::Dir(resolved)
                }
            },
            None => {
                let home = self.extract_home_dir_path();
                SshKey::Dir(joined(home.as_str(), "/.ssh/"))
            },
        }
    }
}

impl ExtractPaths for DefaultPathsExtractor {
    fn extract_ssh_key_path(&self, path: Option<&str>) -> (key: SshKey)
        ensures
            exists|relative: bool| key@ == #[trigger] self@.key_place(named(path), relative),
    {
        let relative = match path {
            Some(p) => path_is_relative(p),
            None => false,
        };
        self.locate(path, relative)
    }

    fn extract_home_dir_path(&self) -> (home: String)
        ensures
            home@ == self@.home_dir(),
    {
        if self.windows {
            let drive: &str = match &self.system_drive {
                Some(drive) => drive.as_str(),
                None => "C:",
            };
            let path: &str = match &self.home_path {
                Some(path) => path.as_str(),
                None => "\\Users\\System",
            };
            joined(drive, path)
        } else {
            match &self.home {
                Some(home) => home.clone(),
                None => String::from_str("/root"),
            }
        }
    }
}

/// A directory that could not be scanned for keys.
#[derive(Debug)]
pub struct KeyScanError {
    /// What the scan reported.
    pub message: String,
}

/// Whether `found` is what looking for keys at `place` gives, when `listing`
/// is what the scan of a directory gave: the names of its entries, or the
/// failure. A key file is the one candidate, whatever the listing holds. A
/// directory gives the paths of its entries named like a private key, and the
/// failure of its scan is handed on; a scan that finds no such entry is no
/// failure.
pub open spec fn key_search_gives(
    place: KeyPlace,
    listing: Result<Vec<String>, String>,
    found: Result<Vec<String>, KeyScanError>,
) -> bool {
    match place {
        KeyPlace::File(path) => found matches Ok(paths) && texts(paths@) == seq![path],
        KeyPlace::Dir(dir) => match listing {
            Ok(names) => found matches Ok(paths) && texts(paths@) == names@.filter_map(
                candidate_in(dir),
            ),
            Err(why) => found matches Err(e) && e.message@ == why@,
        },
    }
}

/// The candidate keys at `key`, when `listing` is what the scan of a
/// directory gave.
pub fn key_paths_at(key: SshKey, listing: Result<Vec<String>, String>) -> (found: Result<
    Vec<String>,
    KeyScanError,
>)
    ensures
        key_search_gives(key@, listing, found),
{
    match key {
        SshKey::File(path) => {
            let mut paths: Vec<String> = Vec::new();
            let ghost text = path@;
            paths.push(path);
            assert(texts(paths@) =~= seq![text]);
            Ok(paths)
        },
        SshKey::Dir(dir) => match listing {
            Ok(names) => Ok(private_key_paths(dir.as_str(), &names)),
            Err(why) => Err(KeyScanError { message: why }),
        },
    }
}

/// The candidate keys for the path that the operator named, if any. The
/// extractor is asked where to look, with the path as the operator gave it;
/// the result is what the search gives at the place that it answers, when
/// `listing` is what the scan of the directory gave.
pub fn get_public_and_private_key_paths<E: ExtractPaths>(
    extractor: E,
    ssh_key: Option<&str>,
    listing: Result<Vec<String>, String>,
) -> (found: Result<Vec<String>, KeyScanError>)
    ensures
        exists|key: SshKey|
            call_ensures(E::extract_ssh_key_path, (&extractor, ssh_key), key)
                && #[trigger] key_search_gives(key@, listing, found),
{
    let key = extractor.extract_ssh_key_path(ssh_key);
    let ghost asked = key;
    let found = key_paths_at(key, listing);
    assert(call_ensures(E::extract_ssh_key_path, (&extractor, ssh_key), asked)
        && key_search_gives(asked@, listing, found));
    found
}

} // verus!
