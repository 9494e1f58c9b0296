//! A Blender project: a `.blend` file and the directory it lives in, which
//! paths of it are versioned and which patterns are not.
//!
//! Paths here are canonical, as `fs::canonicalize` gives them: absolute,
//! without `"."` or `".."` components, repeated or trailing `'/'`. On such
//! a path the last component is what follows the last `'/'`, and the parent
//! is what precedes it (the root, when that is the first character).
use vstd::prelude::*;
use crate::text::{chars_of, extend_str, join_path, path_join, split_chars, split_on, string_from_chars, sub_chars, views};

verus! {

/// The position of the last `c` in `s`.
pub open spec fn last_index(s: Seq<char>, c: char) -> Option<int>
    decreases s.len(),
{
    if s.len() == 0 {
        None
    } else if s.last() == c {
        Some(s.len() - 1)
    } else {
        last_index(s.drop_last(), c)
    }
}

proof fn lemma_last_index_bounds(s: Seq<char>, c: char)
    ensures
        match last_index(s, c) {
            Some(i) => 0 <= i < s.len() && s[i] == c,
            None => true,
        },
    decreases s.len(),
{
    if s.len() > 0 && s.last() != c {
        lemma_last_index_bounds(s.drop_last(), c);
    }
}

fn find_last(v: &[char], c: char) -> (r: Option<usize>)
    ensures
        r matches Some(i) ==> last_index(v@, c) == Some(i as int),
        r is None ==> last_index(v@, c) is None,
{
    let mut i: usize = v.len();
    assert(v@.take(i as int) =~= v@);
    while i > 0
        invariant
            i <= v.len(),
            last_index(v@, c) == last_index(v@.take(i as int), c),
        decreases i,
    {
        assert(v@.take(i as int).drop_last() =~= v@.take(i - 1));
        if v[i - 1] == c {
            return Some(i - 1);
        }
        i -= 1;
    }
    None
}

/// The last named component among `segs`, the pieces of a path between
/// its `'/'`s: empty pieces (repeated or trailing `'/'`) and `.` pieces are
/// passed over, and a last `..` names nothing.
pub open spec fn last_named(segs: Seq<Seq<char>>) -> Option<Seq<char>>
    decreases segs.len(),
{
    if segs.len() == 0 {
        None
    } else if segs.last().len() == 0 || segs.last() == seq!['.'] {
        last_named(segs.drop_last())
    } else if segs.last() == seq!['.', '.'] {
        None
    } else {
        Some(segs.last())
    }
}

/// The file name of a path (`Path::file_name`): its last component when
/// that is a name, passing over trailing `'/'`s and `.` components; none
/// for the root, an empty path, or a path ending in `..`.
pub open spec fn file_name_of(p: Seq<char>) -> Option<Seq<char>> {
    last_named(split_on(p, '/'))
}

/// The extension of a file name (`Path::extension`): what follows its last
/// `'.'`, unless that dot is the first character or there is none.
pub open spec fn extension_of(name: Seq<char>) -> Option<Seq<char>> {
    match last_index(name, '.') {
        Some(i) => if i > 0 {
            Some(name.skip(i + 1))
        } else {
            None
        },
        None => None,
    }
}

/// The stem of a file name (`Path::file_stem`): what precedes its last
/// `'.'`, or the whole name when the dot is the first character or there is
/// none.
pub open spec fn stem_of(name: Seq<char>) -> Seq<char> {
    match last_index(name, '.') {
        Some(i) => if i > 0 {
            name.take(i)
        } else {
            name
        },
        None => name,
    }
}

/// The parent of a canonical path (`Path::parent`): what precedes the last
/// `'/'`, the root when that is the first character, and none for the root
/// itself.
pub open spec fn parent_of(p: Seq<char>) -> Option<Seq<char>> {
    match last_index(p, '/') {
        Some(i) => if i == 0 {
            if p.len() == 1 {
                None
            } else {
                Some(seq!['/'])
            }
        } else {
            Some(p.take(i))
        },
        None => if p.len() == 0 {
            None
        } else {
            Some(Seq::empty())
        },
    }
}

/// A Blender project.
#[derive(Debug, Clone)]
pub struct BlenderProject {
    /// Canonical absolute path to the `.blend` file.
    pub file_path: String,
    /// The directory of the `.blend` file.
    pub project_dir: String,
}

/// Which of the usual asset directories exist beside the `.blend` file.
#[derive(Debug, Clone, Copy, PartialEq, Eq, Structural)]
pub struct AssetDirs {
    pub textures: bool,
    pub libraries: bool,
    pub assets: bool,
    pub scripts: bool,
}

/// The outcome of detecting a project at `path`, given whether it exists,
/// whether it is a file, and its canonical form (`None` when it could not be
/// had). Each check fails with its own message, in this order.
pub open spec fn detect_spec(path: Seq<char>, exists: bool, is_file: bool, canonical: Option<Seq<char>>)
    -> Result<(Seq<char>, Seq<char>), Seq<char>> {
    if !exists {
        Err("Path does not exist: "@ + path)
    } else if !is_file {
        Err("Path is not a file: "@ + path)
    } else {
        match canonical {
            None => Err("Failed to canonicalize path"@),
            Some(c) => {
                let ext = match file_name_of(c) {
                    Some(n) => extension_of(n),
                    None => None,
                };
                if ext != Some("blend"@) {
                    Err("Path is not a Blender file (.blend): "@ + c)
                } else {
                    match parent_of(c) {
                        None => Err("Cannot determine parent directory"@),
                        Some(d) => Ok((c, d)),
                    }
                }
            },
        }
    }
}

/// The file name of `p`, if any.
fn file_name_exec(p: &[char]) -> (r: Option<Vec<char>>)
    ensures
        match file_name_of(p@) {
            Some(n) => r matches Some(v) && v@ == n,
            None => r is None,
        },
{
    let segs = split_chars(p, '/');
    let ghost all = views(segs@);
    let mut k: usize = segs.len();
    assert(all.take(k as int) =~= all);
    while k > 0
        invariant
            k <= segs@.len(),
            all == views(segs@),
            all == split_on(p@, '/'),
            last_named(all) == last_named(all.take(k as int)),
        decreases k,
    {
        let seg = &segs[k - 1];
        assert(all.take(k as int).last() == seg@);
        assert(all.take(k as int).drop_last() =~= all.take(k - 1));
        if seg.len() == 0 || (seg.len() == 1 && seg[0] == '.') {
            proof {
                if seg.len() == 1 {
                    assert(seg@ =~= seq!['.']);
                }
            }
            k -= 1;
        } else if seg.len() == 2 && seg[0] == '.' && seg[1] == '.' {
            assert(seg@ =~= seq!['.', '.']);
            return None;
        } else {
            proof {
                if seg@ == seq!['.'] {
                    assert(seg@[0] == '.');
                }
                if seg@ == seq!['.', '.'] {
                    assert(seg@[0] == '.' && seg@[1] == '.');
                }
            }
            let n = sub_chars(seg, 0, seg.len());
            assert(n@ =~= seg@);
            return Some(n);
        }
    }
    assert(all.take(0) =~= Seq::<Seq<char>>::empty());
    None
}

impl BlenderProject {
    /// Detects a project at `path` as [`detect_spec`] says, from the facts
    /// about it that the caller found on disk.
    pub fn detect(path: &str, exists: bool, is_file: bool, canonical: Option<String>) -> (r: Result<Self, String>)
        ensures
            match detect_spec(path@, exists, is_file, match canonical {
                Some(c) => Some(c@),
                None => None,
            }) {
                Ok((f, d)) => r matches Ok(pr) && pr.file_path@ == f && pr.project_dir@ == d,
                Err(m) => r matches Err(e) && e@ == m,
            },
    {
        if !exists {
            let mut m = chars_of("Path does not exist: ");
            extend_str(&mut m, path);
            return Err(string_from_chars(&m));
        }
        if !is_file {
            let mut m = chars_of("Path is not a file: ");
            extend_str(&mut m, path);
            return Err(string_from_chars(&m));
        }
        let c = match canonical {
            None => return Err("Failed to canonicalize path".to_owned()),
            Some(c) => c,
        };
        let cv = chars_of(c.as_str());
        let is_blend = match file_name_exec(&cv) {
            Some(n) => {
                proof {
                    lemma_last_index_bounds(n@, '.');
                }
                match find_last(&n, '.') {
                    Some(i) => {
                        if i > 0 {
                            let e = sub_chars(&n, i + 1, n.len());
                            proof {
                                reveal_strlit("blend");
                                assert(e@ =~= n@.skip(i + 1));
                            }
                            crate::text::chars_are(&e, "blend")
                        } else {
                            false
                        }
                    },
                    None => false,
                }
            },
            None => false,
        };
        if !is_blend {
            let mut m = chars_of("Path is not a Blender file (.blend): ");
            extend_str(&mut m, c.as_str());
            return Err(string_from_chars(&m));
        }
        proof {
            lemma_last_index_bounds(cv@, '/');
        }
        let parent = match find_last(&cv, '/') {
            Some(i) => {
                if i == 0 {
                    if cv.len() == 1 {
                        None
                    } else {
                        let mut d: Vec<char> = Vec::new();
                        d.push('/');
                        assert(d@ =~= seq!['/']);
                        Some(d)
                    }
                } else {
                    let d = sub_chars(&cv, 0, i);
                    assert(d@ =~= cv@.take(i as int));
                    Some(d)
                }
            },
            None => {
                if cv.len() == 0 {
                    None
                } else {
                    let d: Vec<char> = Vec::new();
                    assert(d@ =~= Seq::<char>::empty());
                    Some(d)
                }
            },
        };
        match parent {
            None => Err("Cannot determine parent directory".to_owned()),
            Some(d) => Ok(BlenderProject { file_path: c, project_dir: string_from_chars(&d) }),
        }
    }

    /// The project's name: the stem of the file name, or `Unknown` when the
    /// path has no file name.
    pub fn name(&self) -> (s: String)
        ensures
            s@ == match file_name_of(self.file_path@) {
                Some(n) => stem_of(n),
                None => "Unknown"@,
            },
    {
        let cv = chars_of(self.file_path.as_str());
        match file_name_exec(&cv) {
            Some(n) => {
                proof {
                    lemma_last_index_bounds(n@, '.');
                }
                match find_last(&n, '.') {
                    Some(i) => {
                        if i > 0 {
                            let st = sub_chars(&n, 0, i);
                            assert(st@ =~= n@.take(i as int));
                            string_from_chars(&st)
                        } else {
                            proof {
                                assert(n@.subrange(0, n@.len() as int) =~= n@);
                            }
                            string_from_chars(&n)
                        }
                    },
                    None => string_from_chars(&n),
                }
            },
            None => "Unknown".to_owned(),
        }
    }

    /// The asset directories that the project may have, in the order
    /// textures, libraries, assets, scripts.
    pub fn asset_dir_paths(&self) -> (v: Vec<String>)
        ensures
            v@.len() == 4,
            v@[0]@ == path_join(self.project_dir@, "textures"@),
            v@[1]@ == path_join(self.project_dir@, "libraries"@),
            v@[2]@ == path_join(self.project_dir@, "assets"@),
            v@[3]@ == path_join(self.project_dir@, "scripts"@),
    {
        let mut v: Vec<String> = Vec::new();
        v.push(join_path(self.project_dir.as_str(), "textures"));
        v.push(join_path(self.project_dir.as_str(), "libraries"));
        v.push(join_path(self.project_dir.as_str(), "assets"));
        v.push(join_path(self.project_dir.as_str(), "scripts"));
        v
    }

    /// The paths to version: the `.blend` file, then each asset directory
    /// that exists, in the order textures, libraries, assets, scripts.
    pub fn tracked_paths(&self, dirs: AssetDirs) -> (v: Vec<String>)
        ensures
            v@.map_values(|s: String| s@) == seq![self.file_path@]
                + (if dirs.textures { seq![path_join(self.project_dir@, "textures"@)] } else { Seq::empty() })
                + (if dirs.libraries { seq![path_join(self.project_dir@, "libraries"@)] } else { Seq::empty() })
                + (if dirs.assets { seq![path_join(self.project_dir@, "assets"@)] } else { Seq::empty() })
                + (if dirs.scripts { seq![path_join(self.project_dir@, "scripts"@)] } else { Seq::empty() }),
    {
        let mut v: Vec<String> = Vec::new();
        v.push(string_from_chars(&chars_of(self.file_path.as_str())));
        let ghost s0 = v@.map_values(|s: String| s@);
        assert(s0 =~= seq![self.file_path@]);
        if dirs.textures {
            v.push(join_path(self.project_dir.as_str(), "textures"));
        }
        let ghost s1 = v@.map_values(|s: String| s@);
        assert(s1 =~= s0 + (if dirs.textures { seq![path_join(self.project_dir@, "textures"@)] } else { Seq::empty() }));
        if dirs.libraries {
            v.push(join_path(self.project_dir.as_str(), "libraries"));
        }
        let ghost s2 = v@.map_values(|s: String| s@);
        assert(s2 =~= s1 + (if dirs.libraries { seq![path_join(self.project_dir@, "libraries"@)] } else { Seq::empty() }));
        if dirs.assets {
            v.push(join_path(self.project_dir.as_str(), "assets"));
        }
        let ghost s3 = v@.map_values(|s: String| s@);
        assert(s3 =~= s2 + (if dirs.assets { seq![path_join(self.project_dir@, "assets"@)] } else { Seq::empty() }));
        if dirs.scripts {
            v.push(join_path(self.project_dir.as_str(), "scripts"));
        }
        let ghost s4 = v@.map_values(|s: String| s@);
        assert(s4 =~= s3 + (if dirs.scripts { seq![path_join(self.project_dir@, "scripts"@)] } else { Seq::empty() }));
        v
    }

    /// Glob patterns of files and directories that are not versioned:
    /// backups, caches, render output, build artifacts, system files and
    /// Blender's temporary files.
    pub fn ignored_patterns() -> (v: Vec<&'static str>)
        ensures
            v@.map_values(|s: &str| s@) == seq![
                "*.blend1"@, "*.blend2"@, "*.blend@"@, "blendcache_*/"@, "__pycache__/"@, "*.pyc"@, "*.tmp"@,
                "renders/"@, "render_output/"@, "tmp/"@, "build/"@, "dist/"@, ".DS_Store"@,
                "Thumbs.db"@, "desktop.ini"@, "*.smbdelete*"@, "*.crash.txt"@, "*.autosave"@,
            ],
    {
        let v = vec![
            "*.blend1", "*.blend2", "*.blend@", "blendcache_*/", "__pycache__/", "*.pyc", "*.tmp",
            "renders/", "render_output/", "tmp/", "build/", "dist/", ".DS_Store",
            "Thumbs.db", "desktop.ini", "*.smbdelete*", "*.crash.txt", "*.autosave",
        ];
        assert(v@.map_values(|s: &str| s@) =~= seq![
            "*.blend1"@, "*.blend2"@, "*.blend@"@, "blendcache_*/"@, "__pycache__/"@, "*.pyc"@, "*.tmp"@,
            "renders/"@, "render_output/"@, "tmp/"@, "build/"@, "dist/"@, ".DS_Store"@,
            "Thumbs.db"@, "desktop.ini"@, "*.smbdelete*"@, "*.crash.txt"@, "*.autosave"@,
        ]);
        v
    }
}

} // verus!
