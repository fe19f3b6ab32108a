//! File names the picker derives: a theme's file name, and the one backup of
//! the configuration file.
use vstd::prelude::*;
use crate::color::chars_of;

verus! {

/// Index of the last occurrence of `c` in `s`, or -1.
pub open spec fn last_index_of(s: Seq<char>, c: char) -> int
    decreases s.len(),
{
    if s.len() == 0 {
        -1
    } else if s.last() == c {
        s.len() - 1
    } else {
        last_index_of(s.drop_last(), c)
    }
}

proof fn lemma_last_index_bounds(s: Seq<char>, c: char)
    ensures
        -1 <= last_index_of(s, c) < s.len(),
        last_index_of(s, c) >= 0 ==> s[last_index_of(s, c)] == c,
    decreases s.len(),
{
    if s.len() > 0 && s.last() != c {
        lemma_last_index_bounds(s.drop_last(), c);
    }
}

fn last_index(s: &Vec<char>, c: char) -> (r: Option<usize>)
    ensures
        match r {
            Some(i) => last_index_of(s@, c) == i as int,
            None => last_index_of(s@, c) == -1,
        },
{
    let mut i: usize = s.len();
    assert(s@.subrange(0, i as int) =~= s@);
    while i > 0
        invariant
            i <= s@.len(),
            last_index_of(s@, c) == last_index_of(s@.subrange(0, i as int), c),
        decreases i,
    {
        assert(s@.subrange(0, i as int).drop_last() =~= s@.subrange(0, i - 1));
        if s[i - 1] == c {
            return Some(i - 1);
        }
        i = i - 1;
    }
    None
}

/// The backup of a configuration file: `-backup` goes in before the
/// extension of its file name; a file name without extension has none.
pub open spec fn backup_path_of(path: Seq<char>) -> Option<Seq<char>> {
    let d = last_index_of(path, '.');
    let l = last_index_of(path, '/');
    if d > l + 1 {
        Some(path.subrange(0, d) + "-backup."@ + path.subrange(d + 1, path.len() as int))
    } else {
        None
    }
}

/// The backup path of a configuration file, as `alacritty.yml` gives
/// `alacritty-backup.yml` beside it; none where the file name has no
/// extension.
pub fn backup_file_path(path: &str) -> (r: Option<String>)
    ensures
        match r {
            Some(b) => backup_path_of(path@) == Some(b@),
            None => backup_path_of(path@).is_none(),
        },
{
    let chars = chars_of(path);
    let dot = last_index(&chars, '.');
    let slash = last_index(&chars, '/');
    proof {
        lemma_last_index_bounds(path@, '.');
        lemma_last_index_bounds(path@, '/');
    }
    match dot {
        Some(d) => {
            let after_slash: usize = match slash {
                Some(l) => {
                    let n = chars.len();
                    assert(l < n);
                    l + 1
                },
                None => 0,
            };
            if d > after_slash {
                let mut b = String::from_str(path.substring_char(0, d));
                b.append("-backup.");
                b.append(path.substring_char(d + 1, chars.len()));
                Some(b)
            } else {
                None
            }
        },
        None => None,
    }
}

/// Where the configuration is to be copied before its first change: its
/// backup path, unless a file is there already.
pub open spec fn backup_plan_of(config: Seq<char>, backup_exists: bool) -> Option<Seq<char>> {
    if backup_exists {
        None
    } else {
        backup_path_of(config)
    }
}

/// The path to copy the configuration to, given whether its backup path
/// (`backup_file_path`) already holds a file; none where it does, so that a
/// backup is made once and never overwritten.
pub fn backup_plan(config: &str, backup_exists: bool) -> (r: Option<String>)
    ensures
        match r {
            Some(b) => backup_plan_of(config@, backup_exists) == Some(b@),
            None => backup_plan_of(config@, backup_exists).is_none(),
        },
{
    if backup_exists {
        None
    } else {
        backup_file_path(config)
    }
}

/// A file system as paths to contents.
pub type Files = Map<Seq<char>, Seq<u8>>;

/// The backup step: copy the configuration file to where `backup_plan` says,
/// asked whether its backup path holds a file.
pub open spec fn backup_step(files: Files, config: Seq<char>) -> Files {
    let exists = match backup_path_of(config) {
        Some(b) => files.contains_key(b),
        None => false,
    };
    match backup_plan_of(config, exists) {
        Some(b) => if files.contains_key(config) {
            files.insert(b, files[config])
        } else {
            files
        },
        None => files,
    }
}
proof fn lemma_backup_differs(config: Seq<char>)
    requires
        backup_path_of(config).is_some(),
    ensures
        backup_path_of(config).unwrap() != config,
{
    reveal_strlit("-backup.");
    lemma_last_index_bounds(config, '.');
    lemma_last_index_bounds(config, '/');
    assert(backup_path_of(config).unwrap().len() == config.len() + 7);
}

/// Backing up twice is backing up once: an existing backup is never
/// overwritten, and a new one holds what the configuration held.
pub proof fn lemma_backup_once(files: Files, config: Seq<char>)
    requires
        files.contains_key(config),
    ensures
        backup_step(backup_step(files, config), config) == backup_step(files, config),
        backup_step(files, config)[config] == files[config],
        backup_path_of(config) matches Some(b) ==> backup_step(files, config).contains_key(b)
            && backup_step(files, config)[b] == (if files.contains_key(b) { files[b] } else { files[config] }),
{
    if let Some(b) = backup_path_of(config) {
        lemma_backup_differs(config);
    }
}

/// The file of a theme named on the command line: `.yml` is added unless the
/// name already ends in it.
pub open spec fn theme_file_of(name: Seq<char>) -> Seq<char> {
    if name.len() >= 4 && name.subrange(name.len() - 4, name.len() as int) == ".yml"@ {
        name
    } else {
        name + ".yml"@
    }
}

pub fn theme_file_name(name: &str) -> (r: String)
    ensures
        r@ == theme_file_of(name@),
{
    proof { reveal_strlit(".yml"); }
    let chars = chars_of(name);
    let n = chars.len();
    if n >= 4 && chars[n - 4] == '.' && chars[n - 3] == 'y' && chars[n - 2] == 'm' && chars[n - 1] == 'l' {
        assert(name@.subrange(n - 4, n as int) =~= ".yml"@);
        String::from_str(name)
    } else {
        assert(n >= 4 ==> name@.subrange(n - 4, n as int) != ".yml"@) by {
            if n >= 4 && name@.subrange(n - 4, n as int) == ".yml"@ {
                assert(name@.subrange(n - 4, n as int)[0] == name@[n - 4]);
                assert(name@.subrange(n - 4, n as int)[1] == name@[n - 3]);
                assert(name@.subrange(n - 4, n as int)[2] == name@[n - 2]);
                assert(name@.subrange(n - 4, n as int)[3] == name@[n - 1]);
            }
        }
        let mut r = String::from_str(name);
        r.append(".yml");
        r
    }
}

} // verus!
