use vstd::prelude::*;
use crate::batch::{
    actions_view, lfs_object_path, object_path_of, oid_slices_ok, pairs_view, DownloadAction,
};
use crate::decimal::{decimal, decimal_string};
use crate::outside::{path_file_name, path_file_name_of, path_parent, path_parent_of};
use crate::text::{concat2, concat3, has_substring, matches_at, owned};

verus! {

/// The directories to create and the input file to give aria2c for a set of
/// downloads.
#[derive(Debug)]
pub struct Aria2cPlan {
    pub dirs: Vec<String>,
    pub input: String,
}

/// The header lines of one download in aria2c's input file.
pub open spec fn header_lines(hs: Seq<(Seq<char>, Seq<char>)>) -> Seq<char>
    decreases hs.len(),
{
    if hs.len() == 0 {
        Seq::empty()
    } else {
        header_lines(hs.drop_last()) + "  header="@ + hs.last().0 + ": "@ + hs.last().1 + "\n"@
    }
}

/// One download in aria2c's input file: the URL, then indented options for the
/// directory, the file name and each header, then a blank line.
pub open spec fn entry_text(
    url: Seq<char>,
    dir: Seq<char>,
    file: Seq<char>,
    hs: Seq<(Seq<char>, Seq<char>)>,
) -> Seq<char> {
    url + "\n"@ + "  dir="@ + dir + "\n"@ + "  out="@ + file + "\n"@ + header_lines(hs) + "\n"@
}

/// The directories and the input text for downloading `acts` into the repository
/// at `dest`, each object going to its place under `.git/lfs/objects`; `None` when
/// an object's place has no parent directory or no file name.
pub open spec fn aria2c_plan_of(
    dest: Seq<char>,
    acts: Seq<(Seq<char>, Seq<char>, Seq<(Seq<char>, Seq<char>)>)>,
) -> Option<(Seq<Seq<char>>, Seq<char>)>
    decreases acts.len(),
{
    if acts.len() == 0 {
        Some((Seq::empty(), Seq::empty()))
    } else {
        match aria2c_plan_of(dest, acts.drop_last()) {
            None => None,
            Some((dirs, text)) => {
                let a = acts.last();
                let p = object_path_of(dest, a.0);
                match (path_parent_of(p), path_file_name_of(p)) {
                    (Some(d), Some(f)) => Some((dirs.push(d), text + entry_text(a.1, d, f, a.2))),
                    _ => None,
                }
            },
        }
    }
}

/// The aria2c input entry of one download: its URL, the directory and file name
/// of its place in the repository at `dest`, and its headers.
pub open spec fn entry_of(dest: Seq<char>, a: (Seq<char>, Seq<char>, Seq<(Seq<char>, Seq<char>)>)) -> Seq<char> {
    let p = object_path_of(dest, a.0);
    entry_text(a.1, path_parent_of(p).unwrap(), path_file_name_of(p).unwrap(), a.2)
}

/// Every download's place has a parent directory and a file name.
pub open spec fn places_known(dest: Seq<char>, acts: Seq<(Seq<char>, Seq<char>, Seq<(Seq<char>, Seq<char>)>)>) -> bool {
    forall|i: int|
        0 <= i < acts.len() ==> path_parent_of(object_path_of(dest, #[trigger] acts[i].0)) is Some
            && path_file_name_of(object_path_of(dest, acts[i].0)) is Some
}

/// Texts written one after another.
pub open spec fn joined(parts: Seq<Seq<char>>) -> Seq<char> {
    parts.fold_left(Seq::<char>::empty(), |acc: Seq<char>, e: Seq<char>| acc + e)
}

/// aria2c gets one entry per download, in the order of the downloads, and one
/// directory per download (the parent of its place); the plan exists exactly when
/// every place has a parent directory and a file name.
pub proof fn law_one_entry_per_download(
    dest: Seq<char>,
    acts: Seq<(Seq<char>, Seq<char>, Seq<(Seq<char>, Seq<char>)>)>,
)
    ensures
        aria2c_plan_of(dest, acts) is Some <==> places_known(dest, acts),
        aria2c_plan_of(dest, acts) matches Some((dirs, text)) ==> dirs.len() == acts.len()
            && (forall|i: int|
            0 <= i < acts.len() ==> #[trigger] dirs[i] == path_parent_of(
                object_path_of(dest, acts[i].0),
            ).unwrap()) && text == joined(
            acts.map_values(|a: (Seq<char>, Seq<char>, Seq<(Seq<char>, Seq<char>)>)| entry_of(dest, a)),
        ),
    decreases acts.len(),
{
    let f = |a: (Seq<char>, Seq<char>, Seq<(Seq<char>, Seq<char>)>)| entry_of(dest, a);
    if acts.len() == 0 {
        assert(acts.map_values(f) =~= Seq::<Seq<char>>::empty());
    } else {
        let front = acts.drop_last();
        law_one_entry_per_download(dest, front);
        assert forall|i: int| 0 <= i < front.len() implies #[trigger] front[i] == acts[i] by {}
        if places_known(dest, acts) {
            assert forall|i: int| 0 <= i < front.len() implies path_parent_of(
                object_path_of(dest, #[trigger] front[i].0),
            ) is Some && path_file_name_of(object_path_of(dest, front[i].0)) is Some by {
                assert(front[i] == acts[i]);
            }
            assert(acts[acts.len() - 1] == acts.last());
        }
        if places_known(dest, front) {
            let p = object_path_of(dest, acts.last().0);
            if path_parent_of(p) is Some && path_file_name_of(p) is Some {
                assert forall|i: int| 0 <= i < acts.len() implies path_parent_of(
                    object_path_of(dest, #[trigger] acts[i].0),
                ) is Some && path_file_name_of(object_path_of(dest, acts[i].0)) is Some by {
                    if i < front.len() {
                        assert(front[i] == acts[i]);
                    }
                }
                let es = acts.map_values(f);
                assert(es.drop_last() =~= front.map_values(f));
                match aria2c_plan_of(dest, acts) {
                    Some((dirs, text)) => {
                        let (d0, t0) = aria2c_plan_of(dest, front).unwrap();
                        assert(dirs == d0.push(path_parent_of(p).unwrap()));
                        assert forall|i: int| 0 <= i < acts.len() implies #[trigger] dirs[i]
                            == path_parent_of(object_path_of(dest, acts[i].0)).unwrap() by {
                            if i < front.len() {
                                assert(front[i] == acts[i]);
                                assert(dirs[i] == d0[i]);
                            }
                        }
                        assert(es.last() == entry_of(dest, acts.last()));
                    },
                    None => {},
                }
            } else {
                assert(acts[acts.len() - 1] == acts.last());
            }
        }
    }
}

proof fn lemma_joined_prefix(es: Seq<Seq<char>>, k: int)
    requires
        0 <= k <= es.len(),
    ensures
        joined(es.take(k)).len() <= joined(es).len(),
        joined(es).subrange(0, joined(es.take(k)).len() as int) == joined(es.take(k)),
    decreases es.len(),
{
    if k == es.len() {
        assert(es.take(k) =~= es);
        assert(joined(es).subrange(0, joined(es).len() as int) =~= joined(es));
    } else {
        let front = es.drop_last();
        assert(front.take(k) =~= es.take(k));
        lemma_joined_prefix(front, k);
        let a = joined(es.take(k));
        assert(joined(es) == joined(front) + es.last());
        assert(joined(es).subrange(0, a.len() as int) =~= joined(front).subrange(0, a.len() as int));
    }
}

/// Every part written one after another occurs in the result.
pub proof fn law_joined_holds_each_part(es: Seq<Seq<char>>, i: int)
    requires
        0 <= i < es.len(),
    ensures
        has_substring(joined(es), es[i]),
        matches_at(joined(es), es[i], joined(es.take(i)).len() as int),
{
    let before = joined(es.take(i));
    assert(es.take(i + 1).drop_last() =~= es.take(i));
    assert(joined(es.take(i + 1)) == before + es[i]);
    lemma_joined_prefix(es, i + 1);
    let whole = joined(es);
    let pre = joined(es.take(i + 1));
    assert forall|j: int| 0 <= j < es[i].len() implies whole[before.len() + j] == es[i][j] by {
        assert(whole.subrange(0, pre.len() as int)[before.len() + j] == whole[before.len() + j]);
        assert(pre[before.len() + j] == es[i][j]);
    }
    assert(matches_at(whole, es[i], before.len() as int));
}

/// Each download's entry, with its URL, occurs in the aria2c input.
pub proof fn law_each_download_in_input(
    dest: Seq<char>,
    acts: Seq<(Seq<char>, Seq<char>, Seq<(Seq<char>, Seq<char>)>)>,
    i: int,
)
    requires
        0 <= i < acts.len(),
        aria2c_plan_of(dest, acts) is Some,
    ensures
        has_substring(aria2c_plan_of(dest, acts).unwrap().1, entry_of(dest, acts[i])),
        has_substring(aria2c_plan_of(dest, acts).unwrap().1, acts[i].1),
{
    law_one_entry_per_download(dest, acts);
    let f = |a: (Seq<char>, Seq<char>, Seq<(Seq<char>, Seq<char>)>)| entry_of(dest, a);
    let es = acts.map_values(f);
    law_joined_holds_each_part(es, i);
    let text = joined(es);
    let k = joined(es.take(i)).len() as int;
    assert(es[i] == entry_of(dest, acts[i]));
    let e = entry_of(dest, acts[i]);
    let url = acts[i].1;
    assert(e.subrange(0, url.len() as int) =~= url);
    assert(matches_at(text, url, k)) by {
        assert forall|j: int| 0 <= j < url.len() implies text[k + j] == url[j] by {
            assert(text[k + j] == e[j]);
            assert(e[j] == e.subrange(0, url.len() as int)[j]);
        }
    }
}

proof fn lemma_plan_none_extends(
    dest: Seq<char>,
    acts: Seq<(Seq<char>, Seq<char>, Seq<(Seq<char>, Seq<char>)>)>,
    k: int,
)
    requires
        0 <= k <= acts.len(),
        aria2c_plan_of(dest, acts.take(k)) is None,
    ensures
        aria2c_plan_of(dest, acts) is None,
    decreases acts.len() - k,
{
    if k < acts.len() {
        assert(acts.take(k + 1).drop_last() =~= acts.take(k));
        lemma_plan_none_extends(dest, acts, k + 1);
    } else {
        assert(acts.take(k) =~= acts);
    }
}

/// The header lines for one download.
fn header_text(hs: &Vec<(String, String)>) -> (t: String)
    ensures
        t@ == header_lines(pairs_view(hs@)),
{
    let mut t = String::new();
    let mut i: usize = 0;
    while i < hs.len()
        invariant
            i <= hs@.len(),
            t@ == header_lines(pairs_view(hs@).take(i as int)),
        decreases hs@.len() - i,
    {
        assert(pairs_view(hs@).take(i + 1).drop_last() =~= pairs_view(hs@).take(i as int));
        let (k, v) = &hs[i];
        t.append("  header=");
        t.append(k.as_str());
        t.append(": ");
        t.append(v.as_str());
        t.append("\n");
        i += 1;
    }
    assert(pairs_view(hs@).take(hs@.len() as int) =~= pairs_view(hs@));
    t
}

/// The directories to create and the input file for aria2c to download `actions`
/// into the repository at `dest`; `None` when an object's place has no parent
/// directory or no file name.
pub fn aria2c_plan(dest: &str, actions: &Vec<DownloadAction>) -> (r: Option<Aria2cPlan>)
    requires
        forall|i: int| 0 <= i < actions@.len() ==> oid_slices_ok(#[trigger] actions@[i].oid@),
    ensures
        match r {
            Some(p) => aria2c_plan_of(dest@, actions_view(actions@)) == Some(
                (p.dirs@.map_values(|d: String| d@), p.input@),
            ),
            None => aria2c_plan_of(dest@, actions_view(actions@)) is None,
        },
        // one directory and one input entry per download, in order
        r is Some <==> places_known(dest@, actions_view(actions@)),
        r matches Some(p) ==> p.dirs@.len() == actions@.len() && (forall|i: int|
            0 <= i < actions@.len() ==> (#[trigger] p.dirs@[i])@ == path_parent_of(
                object_path_of(dest@, actions@[i].oid@),
            ).unwrap()) && p.input@ == joined(
            actions_view(actions@).map_values(
                |a: (Seq<char>, Seq<char>, Seq<(Seq<char>, Seq<char>)>)| entry_of(dest@, a),
            ),
        ),
        // every download's URL is in the input
        r matches Some(p) ==> forall|i: int|
            0 <= i < actions@.len() ==> has_substring(p.input@, #[trigger] actions@[i].url@),
{
    proof {
        law_one_entry_per_download(dest@, actions_view(actions@));
    }
    let ghost acts = actions_view(actions@);
    let mut dirs: Vec<String> = Vec::new();
    let mut input = String::new();
    let mut i: usize = 0;
    assert(dirs@.map_values(|d: String| d@) =~= Seq::<Seq<char>>::empty());
    while i < actions.len()
        invariant
            i <= actions@.len(),
            acts == actions_view(actions@),
            forall|k: int| 0 <= k < actions@.len() ==> oid_slices_ok(#[trigger] actions@[k].oid@),
            aria2c_plan_of(dest@, acts.take(i as int)) == Some(
                (dirs@.map_values(|d: String| d@), input@),
            ),
        decreases actions@.len() - i,
    {
        let a = &actions[i];
        assert(acts.take(i + 1).drop_last() =~= acts.take(i as int));
        assert(acts.take(i + 1).last() == acts[i as int]);
        let out = lfs_object_path(dest, a.oid.as_str());
        let parent = match path_parent(out.as_str()) {
            Some(p) => p,
            None => {
                proof {
                    lemma_plan_none_extends(dest@, acts, i + 1);
                }
                return None;
            },
        };
        let file = match path_file_name(out.as_str()) {
            Some(f) => f,
            None => {
                proof {
                    lemma_plan_none_extends(dest@, acts, i + 1);
                }
                return None;
            },
        };
        let hs = header_text(&a.headers);
        let ghost before_dirs = dirs@.map_values(|d: String| d@);
        let ghost before_input = input@;
        input.append(a.url.as_str());
        input.append("\n");
        input.append("  dir=");
        input.append(parent.as_str());
        input.append("\n");
        input.append("  out=");
        input.append(file.as_str());
        input.append("\n");
        input.append(hs.as_str());
        input.append("\n");
        dirs.push(parent);
        assert(dirs@.map_values(|d: String| d@) =~= before_dirs.push(path_parent_of(out@).unwrap()));
        assert(input@ =~= before_input + entry_text(
            a.url@,
            path_parent_of(out@).unwrap(),
            path_file_name_of(out@).unwrap(),
            pairs_view(a.headers@),
        ));
        i += 1;
    }
    assert(acts.take(actions@.len() as int) =~= acts);
    proof {
        assert(acts.take(acts.len() as int) =~= acts);
        let dv = dirs@.map_values(|d: String| d@);
        assert forall|i: int| 0 <= i < actions@.len() implies (#[trigger] dirs@[i])@ == path_parent_of(
            object_path_of(dest@, actions@[i].oid@),
        ).unwrap() by {
            assert(dv[i] == dirs@[i]@);
            assert(acts[i].0 == actions@[i].oid@);
        }
        assert forall|i: int| 0 <= i < actions@.len() implies has_substring(
            input@,
            #[trigger] actions@[i].url@,
        ) by {
            law_each_download_in_input(dest@, acts, i);
            assert(acts[i].1 == actions@[i].url@);
        }
    }
    Some(Aria2cPlan { dirs, input })
}

/// The name of aria2c's input file for the process with id `pid`.
pub fn aria2c_input_name(pid: u32) -> (n: String)
    ensures
        n@ == "fgc-lfs-"@ + decimal(pid as nat) + ".txt"@,
{
    let d = decimal_string(pid as u64);
    concat3("fgc-lfs-", d.as_str(), ".txt")
}

/// The arguments of aria2c for downloading the input file at `input_path` with
/// `jobs` parallel downloads and `connections` connections per file.
pub fn aria2c_args(input_path: &str, jobs: u32, connections: u32) -> (v: Vec<String>)
    ensures
        v@.len() == 8,
        v@[0]@ == "--input-file="@ + input_path@,
        v@[1]@ == "--max-concurrent-downloads="@ + decimal(jobs as nat),
        v@[2]@ == "--split="@ + decimal(connections as nat),
        v@[3]@ == "--max-connection-per-server="@ + decimal(connections as nat),
        v@[4]@ == "--min-split-size=1M"@,
        v@[5]@ == "--allow-overwrite=true"@,
        v@[6]@ == "--auto-file-renaming=false"@,
        v@[7]@ == "--console-log-level=warn"@,
{
    let j = decimal_string(jobs as u64);
    let c = decimal_string(connections as u64);
    let mut v: Vec<String> = Vec::new();
    v.push(concat2("--input-file=", input_path));
    v.push(concat2("--max-concurrent-downloads=", j.as_str()));
    v.push(concat2("--split=", c.as_str()));
    v.push(concat2("--max-connection-per-server=", c.as_str()));
    v.push(owned("--min-split-size=1M"));
    v.push(owned("--allow-overwrite=true"));
    v.push(owned("--auto-file-renaming=false"));
    v.push(owned("--console-log-level=warn"));
    v
}

} // verus!
