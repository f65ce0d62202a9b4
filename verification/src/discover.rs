//! File discovery over a modelled directory tree: collecting every file with
//! the markdown extension, and converting absolute paths to root-relative
//! ones. The binary reads the real directory tree into `FsEntry` values;
//! every decision about them is made here.

use vstd::prelude::*;

use crate::text::has_md_suffix;
use crate::text::lemma_str_views_concat;
use crate::text::lemma_str_views_push;
use crate::text::name_has_md_suffix;
use crate::text::starts_with;
use crate::text::str_views;

verus! {

/// One entry of a directory tree: a regular file, or a directory with its
/// entries. Anything else a real directory holds (links, devices) is left
/// out by the reader, as only files and directories take part in discovery.
pub enum FsEntry {
    File { name: String },
    Dir { name: String, entries: Vec<FsEntry> },
}

/// The paths, prefixed by `prefix`, of every markdown file in the entries,
/// depth first, a directory's files in place of the directory. A directory
/// named `d` prefixes its files with `d/`.
pub open spec fn md_files_in(entries: Seq<FsEntry>, prefix: Seq<char>) -> Seq<Seq<char>>
    decreases entries,
{
    if entries.len() == 0 {
        Seq::empty()
    } else {
        (match entries[0] {
            FsEntry::File { name } => if has_md_suffix(name@) {
                seq![prefix + name@]
            } else {
                Seq::empty()
            },
            FsEntry::Dir { name, entries: sub } => md_files_in(sub@, prefix + name@ + "/"@),
        }) + md_files_in(entries.drop_first(), prefix)
    }
}

/// Walks the tree depth first and returns the path, prefixed by `prefix`,
/// of every file whose name carries the markdown extension. Directories are
/// descended into unconditionally.
pub fn find_markdown_files(entries: &Vec<FsEntry>, prefix: &String) -> (r: Vec<String>)
    ensures
        str_views(r@) == md_files_in(entries@, prefix@),
    decreases entries@,
{
    let mut out: Vec<String> = Vec::new();
    let mut i: usize = 0;
    proof {
        assert(entries@.skip(0) =~= entries@);
        assert(str_views(out@) =~= Seq::<Seq<char>>::empty());
    }
    while i < entries.len()
        invariant
            0 <= i <= entries@.len(),
            str_views(out@) + md_files_in(entries@.skip(i as int), prefix@) == md_files_in(
                entries@,
                prefix@,
            ),
        decreases entries@.len() - i,
    {
        let ghost rest = entries@.skip(i as int);
        proof {
            assert(rest[0] == entries@[i as int]);
            assert(rest.drop_first() =~= entries@.skip(i as int + 1));
        }
        let ghost out_before = out@;
        match &entries[i] {
            FsEntry::File { name } => {
                if name_has_md_suffix(name) {
                    let mut path = prefix.clone();
                    path.append(name.as_str());
                    out.push(path);
                    proof {
                        lemma_str_views_push(out_before, out@[out@.len() - 1]);
                        assert(str_views(out@) =~= str_views(out_before) + seq![
                            prefix@ + entries@[i as int]->File_name@,
                        ]);
                    }
                }
            },
            FsEntry::Dir { name, entries: sub } => {
                let mut subprefix = prefix.clone();
                subprefix.append(name.as_str());
                subprefix.append("/");
                let mut found = find_markdown_files(sub, &subprefix);
                let ghost found_snap = found@;
                out.append(&mut found);
                proof {
                    lemma_str_views_concat(out_before, found_snap);
                    assert(out@ =~= out_before + found_snap);
                }
            },
        }
        i += 1;
    }
    proof {
        assert(entries@.skip(entries@.len() as int) =~= Seq::<FsEntry>::empty());
        assert(str_views(out@) =~= str_views(out@) + Seq::<Seq<char>>::empty());
    }
    out
}

/// The paths among `paths` that lie under `root`, in order, each stripped of
/// `root` and the separator after it; a path not under `root` is silently
/// dropped.
pub open spec fn rel_paths(paths: Seq<Seq<char>>, root: Seq<char>) -> Seq<Seq<char>>
    decreases paths.len(),
{
    if paths.len() == 0 {
        Seq::empty()
    } else {
        let rest = rel_paths(paths.drop_first(), root);
        if starts_with(paths[0], root + "/"@) {
            seq![paths[0].skip(root.len() as int + 1)] + rest
        } else {
            rest
        }
    }
}

/// Whether `s` starts with `prefix`, tested character by character.
fn string_starts_with(s: &String, prefix: &String) -> (r: bool)
    ensures
        r == starts_with(s@, prefix@),
{
    let n = prefix.as_str().unicode_len();
    let m = s.as_str().unicode_len();
    if m < n {
        return false;
    }
    let mut k: usize = 0;
    while k < n
        invariant
            0 <= k <= n,
            n <= m,
            n == prefix@.len(),
            m == s@.len(),
            forall|j: int| 0 <= j < k ==> s@[j] == prefix@[j],
        decreases n - k,
    {
        if s.as_str().get_char(k) != prefix.as_str().get_char(k) {
            proof {
                if starts_with(s@, prefix@) {
                    assert(s@.subrange(0, n as int)[k as int] == s@[k as int]);
                }
            }
            return false;
        }
        k += 1;
    }
    proof {
        assert(s@.subrange(0, n as int) =~= prefix@);
    }
    true
}

/// Converts absolute paths to root-relative ones: keeps, in order, each path
/// that lies under `root`, stripped of `root` and its separator; drops every
/// other path.
pub fn relative_to_root(paths: &Vec<String>, root: &String) -> (r: Vec<String>)
    ensures
        str_views(r@) == rel_paths(str_views(paths@), root@),
{
    let mut rooted = root.clone();
    rooted.append("/");
    let ghost all = str_views(paths@);
    let mut out: Vec<String> = Vec::new();
    let mut i: usize = 0;
    proof {
        assert(all.skip(0) =~= all);
        assert(str_views(out@) =~= Seq::<Seq<char>>::empty());
    }
    while i < paths.len()
        invariant
            0 <= i <= paths@.len(),
            all == str_views(paths@),
            rooted@ == root@ + "/"@,
            str_views(out@) + rel_paths(all.skip(i as int), root@) == rel_paths(all, root@),
        decreases paths@.len() - i,
    {
        let ghost rest = all.skip(i as int);
        proof {
            assert(rest[0] == all[i as int]);
            assert(all[i as int] == paths@[i as int]@);
            assert(rest.drop_first() =~= all.skip(i as int + 1));
        }
        let p = &paths[i];
        let ghost out_before = out@;
        if string_starts_with(p, &rooted) {
            let plen = p.as_str().unicode_len();
            let rootedlen = rooted.as_str().unicode_len();
            let stripped = p.as_str().substring_char(rootedlen, plen).to_owned();
            out.push(stripped);
            proof {
                lemma_str_views_push(out_before, out@[out@.len() - 1]);
                reveal_strlit("/");
                assert(p@.subrange(rooted@.len() as int, p@.len() as int) =~= p@.skip(
                    root@.len() as int + 1,
                ));
                assert(str_views(out@) =~= str_views(out_before) + seq![p@.skip(root@.len() as int + 1)]);
            }
        }
        i += 1;
    }
    proof {
        assert(all.skip(all.len() as int) =~= Seq::<Seq<char>>::empty());
        assert(str_views(out@) =~= str_views(out@) + Seq::<Seq<char>>::empty());
    }
    out
}

} // verus!
